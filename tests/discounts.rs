use order_costing::discount::{
    average, evaluate_discount, Application, DiscountError, DiscountRule, Order,
    Ratio,
};

#[test]
fn catalog_discount_is_mean_of_three_smallest_qualifying() {
    let rules = Application::get_discount_rules();
    let amounts: Vec<i64> = rules.iter().map(|r| r.amount).collect();
    assert_eq!(amounts, vec![10, 1, 5, 20, 2, 3]);
    let r = evaluate_discount(&Order::new(), &rules);
    assert_eq!(r, Ok(Ratio { numerator: 10, denominator: 3 }));
}

#[test]
fn fewer_than_three_qualifying_rules_fail() {
    let rules = vec![
        DiscountRule::new(true, 10),
        DiscountRule::new(false, 1),
        DiscountRule::new(true, 5),
        DiscountRule::new(false, 20),
    ];
    assert_eq!(
        evaluate_discount(&Order::new(), &rules),
        Err(DiscountError::InsufficientQualifyingRules)
    );
}

#[test]
fn no_rules_fail() {
    assert_eq!(
        evaluate_discount(&Order::new(), &Vec::new()),
        Err(DiscountError::InsufficientQualifyingRules)
    );
}

#[test]
fn exactly_three_qualifying_rules_in_any_order() {
    let rules = vec![
        DiscountRule::new(true, 9),
        DiscountRule::new(true, -4),
        DiscountRule::new(false, -100),
        DiscountRule::new(true, 7),
    ];
    assert_eq!(
        evaluate_discount(&Order::new(), &rules),
        Ok(Ratio { numerator: 12, denominator: 3 })
    );
}

#[test]
fn equal_amounts_are_all_counted() {
    let rules = vec![
        DiscountRule::new(true, 4),
        DiscountRule::new(true, 4),
        DiscountRule::new(true, 4),
        DiscountRule::new(true, 4),
        DiscountRule::new(true, 1),
    ];
    assert_eq!(
        evaluate_discount(&Order::new(), &rules),
        Ok(Ratio { numerator: 9, denominator: 3 })
    );
}

#[test]
fn average_is_sum_over_count() {
    assert_eq!(average(&vec![2, 3, 5]), Ratio { numerator: 10, denominator: 3 });
    assert_eq!(average(&vec![i64::MAX, i64::MAX]), Ratio { numerator: 2 * (i64::MAX as i128), denominator: 2 });
    assert_eq!(average(&Vec::new()), Ratio { numerator: 0, denominator: 1 });
}

#[test]
fn every_order_gets_the_catalog_discount() {
    let app = Application::new();
    let orders = vec![Order::new(), Order::new(), Order::new(), Order::new()];
    let result = app.get_order_with_discount(orders).unwrap();
    assert_eq!(result.len(), 4);
    for o in result {
        assert_eq!(o.discount, Ratio { numerator: 10, denominator: 3 });
    }
}

#[test]
fn no_orders_give_no_discounted_orders() {
    let app = Application::new();
    assert_eq!(app.get_order_with_discount(Vec::new()), Ok(Vec::new()));
}

#[test]
fn order_with_discount_keeps_it() {
    let d = Ratio { numerator: 7, denominator: 2 };
    assert_eq!(Order::new_with_discount(d).discount, d);
    assert_eq!(Order::new().discount, Ratio { numerator: 0, denominator: 1 });
}

#[test]
fn run_grants_the_catalog_discount() {
    let r = Application::run(&Order::new(), Application::get_discount_rules()).unwrap();
    assert_eq!(r.discount, Ratio { numerator: 10, denominator: 3 });
}

#[test]
fn run_fails_with_two_qualifying_rules() {
    let rules = vec![DiscountRule::new(true, 10), DiscountRule::new(false, 2), DiscountRule::new(true, 5)];
    assert_eq!(Application::run(&Order::new(), rules), Err(DiscountError::InsufficientQualifyingRules));
}
