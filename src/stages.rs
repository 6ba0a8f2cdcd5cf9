use vstd::prelude::*;
use crate::calendar::{valid_date, MyDateTime};
use crate::money::Decimal;

verus! {

#[derive(Clone, Copy, Debug, PartialEq, Eq, Structural)]
pub struct Customer {}

impl Customer {
    pub fn new() -> (r: Customer) {
        Customer {  }
    }
}

/// A customer's order: when it was placed and what it costs.
#[derive(Clone, Copy, Debug, PartialEq, Eq, Structural)]
pub struct Order {
    pub customer: Customer,
    pub date: MyDateTime,
    pub cost: Decimal,
}

impl Order {
    pub open spec fn wf(self) -> bool {
        self.date.wf() && self.cost.is_input()
    }

    /// An order of zero cost, placed now; `None` where the clock cannot be read.
    pub fn new() -> (r: Option<Order>)
        ensures
            r is Some ==> r->Some_0.wf() && r->Some_0.cost == Decimal::zero(),
    {
        match MyDateTime::new() {
            Some(date) => Some(Order { customer: Customer::new(), date, cost: Decimal::from_int(0) }),
            None => None,
        }
    }

    /// An order of the customer's, placed at `date`, costing `cost`.
    pub fn placed(customer: Customer, date: MyDateTime, cost: Decimal) -> (r: Order)
        ensures
            r == (Order { customer, date, cost }),
    {
        Order { customer, date, cost }
    }
}

#[derive(Clone, Copy, Debug, PartialEq, Eq, Structural)]
pub struct Invoice {
    pub cost: Decimal,
}

impl Invoice {
    pub open spec fn wf(self) -> bool {
        self.cost.within(20_000_000_000_000_000_000, 7)
    }

    /// An invoice of zero.
    pub fn new() -> (r: Invoice)
        ensures
            r.cost == Decimal::zero(),
    {
        Invoice { cost: Decimal { mantissa: 0, scale: 0 } }
    }
}

#[derive(Clone, Copy, Debug, PartialEq, Eq, Structural)]
pub struct Shipping {
    pub cost: Decimal,
    pub shipper_id: i64,
}

impl Shipping {
    pub open spec fn wf(self) -> bool {
        self.cost.within(20_000_000_000_000_000_000, 7)
    }

    /// A shipping of zero cost, with no shipper.
    pub fn new() -> (r: Shipping)
        ensures
            r.cost == Decimal::zero(),
            r.shipper_id == 0,
    {
        Shipping { cost: Decimal { mantissa: 0, scale: 0 }, shipper_id: 0 }
    }
}

#[derive(Clone, Copy, Debug, PartialEq, Eq, Structural)]
pub struct Freight {
    pub cost: Decimal,
}

impl Freight {
    pub open spec fn wf(self) -> bool {
        self.cost.within(2_000_000_000_000_000_000_000, 9)
    }

    /// A freight of zero.
    pub fn new() -> (r: Freight)
        ensures
            r.cost == Decimal::zero(),
    {
        Freight { cost: Decimal { mantissa: 0, scale: 0 } }
    }
}

#[derive(Clone, Copy, Debug, PartialEq, Eq, Structural)]
pub struct Availability {
    pub date: MyDateTime,
}

impl Availability {
    /// Dated now; `None` where the clock cannot be read.
    pub fn new() -> (r: Option<Availability>)
        ensures
            r is Some ==> r->Some_0.date.wf(),
    {
        match MyDateTime::new() {
            Some(date) => Some(Availability { date }),
            None => None,
        }
    }

    pub fn on(date: MyDateTime) -> (r: Availability)
        ensures
            r.date == date,
    {
        Availability { date }
    }
}

#[derive(Clone, Copy, Debug, PartialEq, Eq, Structural)]
pub struct ShippingDate {
    pub date: MyDateTime,
}

impl ShippingDate {
    /// Dated now; `None` where the clock cannot be read.
    pub fn new() -> (r: Option<ShippingDate>)
        ensures
            r is Some ==> r->Some_0.date.wf(),
    {
        match MyDateTime::new() {
            Some(date) => Some(ShippingDate { date }),
            None => None,
        }
    }

    pub fn on(date: MyDateTime) -> (r: ShippingDate)
        ensures
            r.date == date,
    {
        ShippingDate { date }
    }
}

/// The invoice functions: each scales the order's cost.
#[derive(Clone, Copy, Debug, PartialEq, Eq, Structural)]
pub enum InvoiceFn {
    Invoice1,
    Invoice2,
    Invoice3,
    Invoice4,
    Invoice5,
}

/// The shipping functions: each picks shipper 1 above a cost threshold, else shipper 2.
#[derive(Clone, Copy, Debug, PartialEq, Eq, Structural)]
pub enum ShippingFn {
    Shipping1,
    Shipping2,
    Shipping3,
}

/// The freight functions: each takes a share of the shipping cost that depends on the shipper.
#[derive(Clone, Copy, Debug, PartialEq, Eq, Structural)]
pub enum FreightFn {
    Freight1,
    Freight2,
    Freight3,
    Freight4,
    Freight5,
    Freight6,
}

/// The availability functions: each moves the order's date some days on in its month.
#[derive(Clone, Copy, Debug, PartialEq, Eq, Structural)]
pub enum AvailabilityFn {
    Availability1,
    Availability2,
    Availability3,
    Availability4,
}

/// The shipping-date functions: each moves the date some days on in its month,
/// or some hours on in its day.
#[derive(Clone, Copy, Debug, PartialEq, Eq, Structural)]
pub enum ShippingDateFn {
    ShippingDate1,
    ShippingDate2,
    ShippingDate3,
    ShippingDate4,
    ShippingDate5,
}

/// The invoice factor in tenths.
pub open spec fn invoice_factor(f: InvoiceFn) -> int {
    match f {
        InvoiceFn::Invoice1 => 11,
        InvoiceFn::Invoice2 => 12,
        InvoiceFn::Invoice3 => 13,
        InvoiceFn::Invoice4 => 14,
        InvoiceFn::Invoice5 => 15,
    }
}

pub open spec fn shipping_threshold(f: ShippingFn) -> int {
    match f {
        ShippingFn::Shipping1 => 1000,
        ShippingFn::Shipping2 => 1100,
        ShippingFn::Shipping3 => 1200,
    }
}

/// The freight shares in hundredths: for shipper 1, and for any other shipper.
pub open spec fn freight_shares(f: FreightFn) -> (int, int) {
    match f {
        FreightFn::Freight1 => (25, 50),
        FreightFn::Freight2 => (28, 52),
        FreightFn::Freight3 => (30, 60),
        FreightFn::Freight4 => (35, 65),
        FreightFn::Freight5 => (15, 20),
        FreightFn::Freight6 => (10, 15),
    }
}

pub open spec fn availability_days(f: AvailabilityFn) -> int {
    match f {
        AvailabilityFn::Availability1 => 3,
        AvailabilityFn::Availability2 => 2,
        AvailabilityFn::Availability3 => 1,
        AvailabilityFn::Availability4 => 4,
    }
}

pub open spec fn invoice_spec(f: InvoiceFn, o: Order) -> Invoice {
    Invoice { cost: o.cost.scaled_spec(invoice_factor(f), 1) }
}

pub open spec fn shipping_spec(f: ShippingFn, i: Invoice) -> Shipping {
    Shipping {
        cost: i.cost,
        shipper_id: if i.cost.exceeds(shipping_threshold(f)) {
            1
        } else {
            2
        },
    }
}

pub open spec fn freight_spec(f: FreightFn, s: Shipping) -> Freight {
    let share = if s.shipper_id == 1 {
        freight_shares(f).0
    } else {
        freight_shares(f).1
    };
    Freight { cost: s.cost.scaled_spec(share, 2) }
}

/// The date `days` on in the same month, where that day exists.
pub open spec fn days_later(d: MyDateTime, days: int) -> Option<MyDateTime> {
    if valid_date(d.year as int, d.month as int, d.day + days) {
        Some(MyDateTime { day: (d.day + days) as u32, ..d })
    } else {
        None
    }
}

/// The date-time `hours` on in the same day, where that hour exists.
pub open spec fn hours_later(d: MyDateTime, hours: int) -> Option<MyDateTime> {
    if d.hour + hours < 24 {
        Some(MyDateTime { hour: (d.hour + hours) as u32, ..d })
    } else {
        None
    }
}

pub open spec fn availability_spec(f: AvailabilityFn, o: Order) -> Option<Availability> {
    match days_later(o.date, availability_days(f)) {
        Some(d) => Some(Availability { date: d }),
        None => None,
    }
}

pub open spec fn shipping_date_step(f: ShippingDateFn, d: MyDateTime) -> Option<MyDateTime> {
    match f {
        ShippingDateFn::ShippingDate1 => days_later(d, 1),
        ShippingDateFn::ShippingDate2 => days_later(d, 2),
        ShippingDateFn::ShippingDate3 => hours_later(d, 14),
        ShippingDateFn::ShippingDate4 => hours_later(d, 20),
        ShippingDateFn::ShippingDate5 => hours_later(d, 10),
    }
}

pub open spec fn shipping_date_spec(f: ShippingDateFn, a: Availability) -> Option<ShippingDate> {
    match shipping_date_step(f, a.date) {
        Some(d) => Some(ShippingDate { date: d }),
        None => None,
    }
}

fn move_days(d: &MyDateTime, days: u32) -> (r: Option<MyDateTime>)
    requires
        d.wf(),
        days <= 4,
    ensures
        r == days_later(*d, days as int),
        r is Some ==> r->Some_0.wf(),
{
    d.with_day(d.day + days)
}

fn move_hours(d: &MyDateTime, hours: u32) -> (r: Option<MyDateTime>)
    requires
        d.wf(),
        hours <= 20,
    ensures
        r == hours_later(*d, hours as int),
        r is Some ==> r->Some_0.wf(),
{
    d.with_hour(d.hour + hours)
}

impl InvoiceFn {
    /// Runs the invoice function on the order.
    pub fn apply(&self, o: &Order) -> (r: Invoice)
        requires
            o.cost.is_input(),
        ensures
            r == invoice_spec(*self, *o),
            r.wf(),
    {
        let factor: i128 = match self {
            InvoiceFn::Invoice1 => 11,
            InvoiceFn::Invoice2 => 12,
            InvoiceFn::Invoice3 => 13,
            InvoiceFn::Invoice4 => 14,
            InvoiceFn::Invoice5 => 15,
        };
        Invoice { cost: o.cost.scaled(factor, 1) }
    }
}

impl ShippingFn {
    /// Runs the shipping function on the invoice.
    pub fn apply(&self, i: Invoice) -> (r: Shipping)
        requires
            i.wf(),
        ensures
            r == shipping_spec(*self, i),
            r.wf(),
    {
        let threshold: i128 = match self {
            ShippingFn::Shipping1 => 1000,
            ShippingFn::Shipping2 => 1100,
            ShippingFn::Shipping3 => 1200,
        };
        let shipper_id: i64 = if i.cost.exceeds_whole(threshold) {
            1
        } else {
            2
        };
        Shipping { cost: i.cost, shipper_id }
    }
}

impl FreightFn {
    /// Runs the freight function on the shipping.
    pub fn apply(&self, s: Shipping) -> (r: Freight)
        requires
            s.wf(),
        ensures
            r == freight_spec(*self, s),
            r.wf(),
    {
        let (first, other): (i128, i128) = match self {
            FreightFn::Freight1 => (25, 50),
            FreightFn::Freight2 => (28, 52),
            FreightFn::Freight3 => (30, 60),
            FreightFn::Freight4 => (35, 65),
            FreightFn::Freight5 => (15, 20),
            FreightFn::Freight6 => (10, 15),
        };
        let share = if s.shipper_id == 1 {
            first
        } else {
            other
        };
        Freight { cost: s.cost.scaled(share, 2) }
    }
}

impl AvailabilityFn {
    /// Runs the availability function on the order; `None` where the day it
    /// reaches does not exist in the order's month.
    pub fn apply(&self, o: &Order) -> (r: Option<Availability>)
        requires
            o.date.wf(),
        ensures
            r == availability_spec(*self, *o),
            r is Some ==> r->Some_0.date.wf(),
    {
        let days: u32 = match self {
            AvailabilityFn::Availability1 => 3,
            AvailabilityFn::Availability2 => 2,
            AvailabilityFn::Availability3 => 1,
            AvailabilityFn::Availability4 => 4,
        };
        match move_days(&o.date, days) {
            Some(d) => Some(Availability { date: d }),
            None => None,
        }
    }
}

impl ShippingDateFn {
    /// Runs the shipping-date function on the availability; `None` where the
    /// day or hour it reaches does not exist.
    pub fn apply(&self, a: Availability) -> (r: Option<ShippingDate>)
        requires
            a.date.wf(),
        ensures
            r == shipping_date_spec(*self, a),
            r is Some ==> r->Some_0.date.wf(),
    {
        let moved = match self {
            ShippingDateFn::ShippingDate1 => move_days(&a.date, 1),
            ShippingDateFn::ShippingDate2 => move_days(&a.date, 2),
            ShippingDateFn::ShippingDate3 => move_hours(&a.date, 14),
            ShippingDateFn::ShippingDate4 => move_hours(&a.date, 20),
            ShippingDateFn::ShippingDate5 => move_hours(&a.date, 10),
        };
        match moved {
            Some(d) => Some(ShippingDate { date: d }),
            None => None,
        }
    }
}

/// The invoice functions, by name.
pub struct InvoiceFunctions {}

impl InvoiceFunctions {
    pub fn calc_invoice1(o: &Order) -> (r: Invoice)
        requires
            o.cost.is_input(),
        ensures
            r == invoice_spec(InvoiceFn::Invoice1, *o),
    {
        InvoiceFn::Invoice1.apply(o)
    }

    pub fn calc_invoice2(o: &Order) -> (r: Invoice)
        requires
            o.cost.is_input(),
        ensures
            r == invoice_spec(InvoiceFn::Invoice2, *o),
    {
        InvoiceFn::Invoice2.apply(o)
    }

    pub fn calc_invoice3(o: &Order) -> (r: Invoice)
        requires
            o.cost.is_input(),
        ensures
            r == invoice_spec(InvoiceFn::Invoice3, *o),
    {
        InvoiceFn::Invoice3.apply(o)
    }

    pub fn calc_invoice4(o: &Order) -> (r: Invoice)
        requires
            o.cost.is_input(),
        ensures
            r == invoice_spec(InvoiceFn::Invoice4, *o),
    {
        InvoiceFn::Invoice4.apply(o)
    }

    pub fn calc_invoice5(o: &Order) -> (r: Invoice)
        requires
            o.cost.is_input(),
        ensures
            r == invoice_spec(InvoiceFn::Invoice5, *o),
    {
        InvoiceFn::Invoice5.apply(o)
    }
}

/// The shipping functions, by name.
pub struct ShippingFunctions {}

impl ShippingFunctions {
    pub fn calc_shipping1(i: Invoice) -> (r: Shipping)
        requires
            i.wf(),
        ensures
            r == shipping_spec(ShippingFn::Shipping1, i),
    {
        ShippingFn::Shipping1.apply(i)
    }

    pub fn calc_shipping2(i: Invoice) -> (r: Shipping)
        requires
            i.wf(),
        ensures
            r == shipping_spec(ShippingFn::Shipping2, i),
    {
        ShippingFn::Shipping2.apply(i)
    }

    pub fn calc_shipping3(i: Invoice) -> (r: Shipping)
        requires
            i.wf(),
        ensures
            r == shipping_spec(ShippingFn::Shipping3, i),
    {
        ShippingFn::Shipping3.apply(i)
    }
}

/// The freight functions, by name.
pub struct FreightFunctions {}

impl FreightFunctions {
    pub fn calc_freight_cost1(s: Shipping) -> (r: Freight)
        requires
            s.wf(),
        ensures
            r == freight_spec(FreightFn::Freight1, s),
    {
        FreightFn::Freight1.apply(s)
    }

    pub fn calc_freight_cost2(s: Shipping) -> (r: Freight)
        requires
            s.wf(),
        ensures
            r == freight_spec(FreightFn::Freight2, s),
    {
        FreightFn::Freight2.apply(s)
    }

    pub fn calc_freight_cost3(s: Shipping) -> (r: Freight)
        requires
            s.wf(),
        ensures
            r == freight_spec(FreightFn::Freight3, s),
    {
        FreightFn::Freight3.apply(s)
    }

    pub fn calc_freight_cost4(s: Shipping) -> (r: Freight)
        requires
            s.wf(),
        ensures
            r == freight_spec(FreightFn::Freight4, s),
    {
        FreightFn::Freight4.apply(s)
    }

    pub fn calc_freight_cost5(s: Shipping) -> (r: Freight)
        requires
            s.wf(),
        ensures
            r == freight_spec(FreightFn::Freight5, s),
    {
        FreightFn::Freight5.apply(s)
    }

    pub fn calc_freight_cost6(s: Shipping) -> (r: Freight)
        requires
            s.wf(),
        ensures
            r == freight_spec(FreightFn::Freight6, s),
    {
        FreightFn::Freight6.apply(s)
    }
}

/// The availability functions, by name.
pub struct AvailabilityFunctions {}

impl AvailabilityFunctions {
    pub fn calc_availability1(o: &Order) -> (r: Option<Availability>)
        requires
            o.date.wf(),
        ensures
            r == availability_spec(AvailabilityFn::Availability1, *o),
    {
        AvailabilityFn::Availability1.apply(o)
    }

    pub fn calc_availability2(o: &Order) -> (r: Option<Availability>)
        requires
            o.date.wf(),
        ensures
            r == availability_spec(AvailabilityFn::Availability2, *o),
    {
        AvailabilityFn::Availability2.apply(o)
    }

    pub fn calc_availability3(o: &Order) -> (r: Option<Availability>)
        requires
            o.date.wf(),
        ensures
            r == availability_spec(AvailabilityFn::Availability3, *o),
    {
        AvailabilityFn::Availability3.apply(o)
    }

    pub fn calc_availability4(o: &Order) -> (r: Option<Availability>)
        requires
            o.date.wf(),
        ensures
            r == availability_spec(AvailabilityFn::Availability4, *o),
    {
        AvailabilityFn::Availability4.apply(o)
    }
}

/// The shipping-date functions, by name.
pub struct ShippingDateFunctions {}

impl ShippingDateFunctions {
    pub fn calc_shippingdate1(a: Availability) -> (r: Option<ShippingDate>)
        requires
            a.date.wf(),
        ensures
            r == shipping_date_spec(ShippingDateFn::ShippingDate1, a),
    {
        ShippingDateFn::ShippingDate1.apply(a)
    }

    pub fn calc_shippingdate2(a: Availability) -> (r: Option<ShippingDate>)
        requires
            a.date.wf(),
        ensures
            r == shipping_date_spec(ShippingDateFn::ShippingDate2, a),
    {
        ShippingDateFn::ShippingDate2.apply(a)
    }

    pub fn calc_shippingdate3(a: Availability) -> (r: Option<ShippingDate>)
        requires
            a.date.wf(),
        ensures
            r == shipping_date_spec(ShippingDateFn::ShippingDate3, a),
    {
        ShippingDateFn::ShippingDate3.apply(a)
    }

    pub fn calc_shippingdate4(a: Availability) -> (r: Option<ShippingDate>)
        requires
            a.date.wf(),
        ensures
            r == shipping_date_spec(ShippingDateFn::ShippingDate4, a),
    {
        ShippingDateFn::ShippingDate4.apply(a)
    }

    pub fn calc_shippingdate5(a: Availability) -> (r: Option<ShippingDate>)
        requires
            a.date.wf(),
        ensures
            r == shipping_date_spec(ShippingDateFn::ShippingDate5, a),
    {
        ShippingDateFn::ShippingDate5.apply(a)
    }
}

} // verus!
