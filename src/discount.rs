use vstd::prelude::*;
use vstd::relations::*;
use vstd::seq_lib::lemma_sorted_unique;
use vstd::multiset::Multiset;
use linq::iter::Enumerable;

verus! {

/// An exact fraction `numerator / denominator`.
#[derive(Clone, Copy, Debug, PartialEq, Eq, Structural)]
pub struct Ratio {
    pub numerator: i128,
    pub denominator: i128,
}

/// An order as the discount evaluator sees it: the discount it was granted.
#[derive(Clone, Copy, Debug, PartialEq, Eq, Structural)]
pub struct Order {
    pub discount: Ratio,
}

impl Order {
    pub fn new_with_discount(discount: Ratio) -> (r: Order)
        ensures
            r.discount == discount,
    {
        Order { discount }
    }

    /// An order with no discount.
    pub fn new() -> (r: Order)
        ensures
            r.discount == (Ratio { numerator: 0, denominator: 1 }),
    {
        Order { discount: Ratio { numerator: 0, denominator: 1 } }
    }
}

/// A discount rule: whether it qualifies, and the amount it grants.
#[derive(Clone, Copy, Debug, PartialEq, Eq, Structural)]
pub struct DiscountRule {
    pub qualifies: bool,
    pub amount: i64,
}

impl DiscountRule {
    pub fn new(qualifies: bool, amount: i64) -> (r: DiscountRule)
        ensures
            r.qualifies == qualifies,
            r.amount == amount,
    {
        DiscountRule { qualifies, amount }
    }

    /// Whether the rule applies to the order.
    pub fn applies_to(&self, _order: &Order) -> (r: bool)
        ensures
            r == self.qualifies,
    {
        self.qualifies
    }
}

#[derive(Clone, Copy, Debug, PartialEq, Eq, Structural)]
pub enum DiscountError {
    /// Fewer than three rules of the catalog qualify.
    InsufficientQualifyingRules,
}

/// The order relation the amounts are ranked by.
pub open spec fn leq() -> spec_fn(i64, i64) -> bool {
    |a: i64, b: i64| a <= b
}

/// The amounts of the qualifying rules, in catalog order.
pub open spec fn qualifying_amounts(rules: Seq<DiscountRule>) -> Seq<i64> {
    rules.filter(|r: DiscountRule| r.qualifies).map_values(|r: DiscountRule| r.amount)
}

/// The amounts in ascending order.
pub open spec fn ascending(amounts: Seq<i64>) -> Seq<i64> {
    amounts.sort_by(leq())
}

/// The sum of a sequence of amounts.
pub open spec fn total(s: Seq<i64>) -> int
    decreases s.len(),
{
    if s.len() == 0 {
        0
    } else {
        total(s.drop_last()) + s.last()
    }
}

/// The discount the rules grant: the mean of the three smallest qualifying amounts.
pub open spec fn discount_of(rules: Seq<DiscountRule>) -> Result<Ratio, DiscountError> {
    let q = qualifying_amounts(rules);
    if q.len() < 3 {
        Err(DiscountError::InsufficientQualifyingRules)
    } else {
        let s = ascending(q);
        Ok(Ratio { numerator: (s[0] + s[1] + s[2]) as i128, denominator: 3 })
    }
}

/// Relies on linq's `where_by` and `select` (std's `filter` and `map`): the
/// amounts of the rules that qualify, in their order.
#[verifier::external_body]
fn select_qualifying(rules: &Vec<DiscountRule>, order: &Order) -> (r: Vec<i64>)
    ensures
        r@ == qualifying_amounts(rules@),
{
    rules.iter().where_by(|rule| rule.applies_to(order)).select(|rule| rule.amount).collect()
}

/// Relies on linq's `order_by`, which collects the items and sorts them by the
/// key with `sort_by_key`: the same items, ascending.
#[verifier::external_body]
fn order_ascending(values: Vec<i64>) -> (r: Vec<i64>)
    ensures
        r@.to_multiset() == values@.to_multiset(),
        sorted_by(r@, leq()),
{
    values.into_iter().order_by(|v| *v).collect()
}

proof fn lemma_leq_total()
    ensures
        total_ordering(leq()),
{
}

/// The mean of the values, kept exact: their sum over their count. The running
/// mean `(v + m * (i - 1)) / i` over fractions is this same quotient. An empty
/// sequence has mean zero.
pub fn average(values: &Vec<i64>) -> (r: Ratio)
    ensures
        values@.len() == 0 ==> r == (Ratio { numerator: 0, denominator: 1 }),
        values@.len() > 0 ==> r.numerator == total(values@) && r.denominator == values@.len(),
{
    if values.len() == 0 {
        return Ratio { numerator: 0, denominator: 1 };
    }
    let mut sum: i128 = 0;
    let mut i: usize = 0;
    while i < values.len()
        invariant
            i <= values@.len(),
            sum == total(values@.take(i as int)),
            -(i as int) * 0x8000_0000_0000_0000 <= sum <= (i as int) * 0x8000_0000_0000_0000,
        decreases values@.len() - i,
    {
        proof {
            assert(values@.take(i as int + 1).drop_last() =~= values@.take(i as int));
        }
        sum = sum + values[i] as i128;
        i = i + 1;
    }
    proof {
        assert(values@.take(i as int) =~= values@);
    }
    Ratio { numerator: sum, denominator: values.len() as i128 }
}

/// The discount the rules grant the order: the mean of the three smallest
/// amounts among the qualifying rules.
pub fn evaluate_discount(order: &Order, rules: &Vec<DiscountRule>) -> (r: Result<Ratio, DiscountError>)
    ensures
        r == discount_of(rules@),
{
    let amounts = select_qualifying(rules, order);
    if amounts.len() < 3 {
        return Err(DiscountError::InsufficientQualifyingRules);
    }
    let sorted = order_ascending(amounts);
    proof {
        let q = qualifying_amounts(rules@);
        lemma_leq_total();
        q.lemma_sort_by_ensures(leq());
        lemma_sorted_unique(sorted@, ascending(q), leq());
        sorted@.to_multiset_ensures();
        q.to_multiset_ensures();
    }
    let lowest: Vec<i64> = vec![sorted[0], sorted[1], sorted[2]];
    proof {
        reveal_with_fuel(total, 4);
        assert(lowest@.drop_last().drop_last().drop_last() =~= Seq::<i64>::empty());
        assert(lowest@.drop_last().drop_last() =~= seq![sorted@[0]]);
        assert(lowest@.drop_last() =~= seq![sorted@[0], sorted@[1]]);
    }
    Ok(average(&lowest))
}

pub open spec fn catalog() -> Seq<DiscountRule> {
    seq![
        DiscountRule { qualifies: true, amount: 10 },
        DiscountRule { qualifies: false, amount: 1 },
        DiscountRule { qualifies: true, amount: 5 },
        DiscountRule { qualifies: false, amount: 20 },
        DiscountRule { qualifies: true, amount: 2 },
        DiscountRule { qualifies: true, amount: 3 },
    ]
}

/// Grants discounts to orders from the catalog.
pub struct Application {}

impl Application {
    pub fn new() -> (r: Application) {
        Application {  }
    }

    /// The catalog of discount rules.
    pub fn get_discount_rules() -> (r: Vec<DiscountRule>)
        ensures
            r@ == catalog(),
    {
        let r = vec![
            DiscountRule { qualifies: true, amount: 10 },
            DiscountRule { qualifies: false, amount: 1 },
            DiscountRule { qualifies: true, amount: 5 },
            DiscountRule { qualifies: false, amount: 20 },
            DiscountRule { qualifies: true, amount: 2 },
            DiscountRule { qualifies: true, amount: 3 },
        ];
        proof {
            assert(r@ =~= catalog());
        }
        r
    }

    /// The order with the discount the rules grant it, or the rules' error.
    pub fn run(r: &Order, rules: Vec<DiscountRule>) -> (res: Result<Order, DiscountError>)
        ensures
            res == (match discount_of(rules@) {
                Ok(d) => Ok::<Order, DiscountError>(Order { discount: d }),
                Err(e) => Err(e),
            }),
    {
        match evaluate_discount(r, &rules) {
            Ok(d) => Ok(Order::new_with_discount(d)),
            Err(e) => Err(e),
        }
    }

    /// Each order with the discount the catalog grants it, or the catalog's
    /// error where it grants none.
    pub fn get_order_with_discount(&self, orders_to_process: Vec<Order>) -> (r: Result<
        Vec<Order>,
        DiscountError,
    >)
        ensures
            r is Ok <==> (orders_to_process@.len() == 0 || discount_of(catalog()) is Ok),
            r is Err ==> discount_of(catalog()) == Err::<Ratio, DiscountError>(r->Err_0),
            r is Ok ==> r->Ok_0@.len() == orders_to_process@.len(),
            r is Ok ==> forall|i: int|
                0 <= i < orders_to_process@.len() ==> Ok::<Ratio, DiscountError>(
                    (#[trigger] r->Ok_0@[i]).discount,
                ) == discount_of(catalog()),
    {
        let mut result: Vec<Order> = Vec::new();
        let mut i: usize = 0;
        while i < orders_to_process.len()
            invariant
                i <= orders_to_process@.len(),
                result@.len() == i,
                forall|j: int|
                    0 <= j < i ==> Ok::<Ratio, DiscountError>((#[trigger] result@[j]).discount)
                        == discount_of(catalog()),
            decreases orders_to_process@.len() - i,
        {
            let rules = Application::get_discount_rules();
            match Application::run(&orders_to_process[i], rules) {
                Ok(o) => result.push(o),
                Err(e) => {
                    return Err(e);
                },
            }
            i = i + 1;
        }
        proof {
            if orders_to_process@.len() > 0 {
                assert(Ok::<Ratio, DiscountError>(result@[0].discount) == discount_of(catalog()));
            }
        }
        Ok(result)
    }
}

/// Evaluation fails with `InsufficientQualifyingRules` exactly when fewer than
/// three rules qualify, and succeeds otherwise.
pub proof fn lemma_insufficient_rules(rules: Seq<DiscountRule>)
    ensures
        discount_of(rules) == Err::<Ratio, DiscountError>(DiscountError::InsufficientQualifyingRules)
            <==> qualifying_amounts(rules).len() < 3,
        discount_of(rules) is Ok <==> qualifying_amounts(rules).len() >= 3,
{
}

/// Every order gets the discount 10/3 from the catalog: the qualifying amounts
/// are 10, 5, 2 and 3, and the mean of the three smallest, 2, 3 and 5, is 10/3.
pub proof fn lemma_catalog_discount()
    ensures
        qualifying_amounts(catalog()) == seq![10i64, 5, 2, 3],
        discount_of(catalog()) == Ok::<Ratio, DiscountError>(Ratio { numerator: 10, denominator: 3 }),
{
    broadcast use vstd::seq_lib::group_to_multiset_ensures;
    broadcast use vstd::multiset::group_multiset_axioms;

    reveal_with_fuel(Seq::<_>::filter, 7);
    let q = qualifying_amounts(catalog());
    assert(q =~= seq![10i64, 5, 2, 3]);
    let t = seq![2i64, 3, 5, 10];
    lemma_leq_total();
    q.lemma_sort_by_ensures(leq());
    assert(sorted_by(t, leq()));
    let e = Multiset::<i64>::empty();
    assert(seq![10i64].to_multiset() == e.insert(10)) by {
        assert(seq![10i64] == Seq::<i64>::empty().push(10));
    }
    assert(seq![10i64, 5].to_multiset() == e.insert(10).insert(5)) by {
        assert(seq![10i64, 5] == seq![10i64].push(5));
    }
    assert(seq![10i64, 5, 2].to_multiset() == e.insert(10).insert(5).insert(2)) by {
        assert(seq![10i64, 5, 2] == seq![10i64, 5].push(2));
    }
    assert(q.to_multiset() == e.insert(10).insert(5).insert(2).insert(3)) by {
        assert(q == seq![10i64, 5, 2].push(3));
    }
    assert(seq![2i64].to_multiset() == e.insert(2)) by {
        assert(seq![2i64] == Seq::<i64>::empty().push(2));
    }
    assert(seq![2i64, 3].to_multiset() == e.insert(2).insert(3)) by {
        assert(seq![2i64, 3] == seq![2i64].push(3));
    }
    assert(seq![2i64, 3, 5].to_multiset() == e.insert(2).insert(3).insert(5)) by {
        assert(seq![2i64, 3, 5] == seq![2i64, 3].push(5));
    }
    assert(t.to_multiset() == e.insert(2).insert(3).insert(5).insert(10)) by {
        assert(t == seq![2i64, 3, 5].push(10));
    }
    assert(t.to_multiset() =~= q.to_multiset());
    lemma_sorted_unique(ascending(q), t, leq());
}

} // verus!
