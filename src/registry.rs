use vstd::prelude::*;
use linq::iter::Enumerable;
use crate::stages::{AvailabilityFn, FreightFn, InvoiceFn, ShippingDateFn, ShippingFn};

verus! {

#[derive(Clone, Copy, Debug, PartialEq, Eq, Structural)]
pub enum InvoiceChoice {
    Inv1,
    Inv2,
    Inv3,
    Inv4,
    Inv5,
}

#[derive(Clone, Copy, Debug, PartialEq, Eq, Structural)]
pub enum ShippingChoice {
    Sh1,
    Sh2,
    Sh3,
}

#[derive(Clone, Copy, Debug, PartialEq, Eq, Structural)]
pub enum FreightChoice {
    Fr1,
    Fr2,
    Fr3,
    Fr4,
    Fr5,
    Fr6,
}

#[derive(Clone, Copy, Debug, PartialEq, Eq, Structural)]
pub enum AvailabilityChoice {
    AV1,
    AV2,
    AV3,
    AV4,
}

#[derive(Clone, Copy, Debug, PartialEq, Eq, Structural)]
pub enum ShippingDateChoice {
    SD1,
    SD2,
    SD3,
    SD4,
    SD5,
}

/// A discrete choice within a stage category.
pub trait Choice: Copy {
    fn same(&self, other: &Self) -> (r: bool)
        ensures
            r == (*self == *other),
    ;
}

impl Choice for InvoiceChoice {
    fn same(&self, other: &Self) -> (r: bool) {
        *self == *other
    }
}

impl Choice for ShippingChoice {
    fn same(&self, other: &Self) -> (r: bool) {
        *self == *other
    }
}

impl Choice for FreightChoice {
    fn same(&self, other: &Self) -> (r: bool) {
        *self == *other
    }
}

impl Choice for AvailabilityChoice {
    fn same(&self, other: &Self) -> (r: bool) {
        *self == *other
    }
}

impl Choice for ShippingDateChoice {
    fn same(&self, other: &Self) -> (r: bool) {
        *self == *other
    }
}

/// One choice per stage category.
#[derive(Clone, Copy, Debug, PartialEq, Eq, Structural)]
pub struct ProcessConfiguration {
    pub invoice_choice: InvoiceChoice,
    pub shipping_choice: ShippingChoice,
    pub freight_choice: FreightChoice,
    pub availability_choice: AvailabilityChoice,
    pub shippingdate_choice: ShippingDateChoice,
}

impl ProcessConfiguration {
    /// The first variant of every category.
    pub fn new() -> (r: ProcessConfiguration)
        ensures
            r == (ProcessConfiguration {
                invoice_choice: InvoiceChoice::Inv1,
                shipping_choice: ShippingChoice::Sh1,
                freight_choice: FreightChoice::Fr1,
                availability_choice: AvailabilityChoice::AV1,
                shippingdate_choice: ShippingDateChoice::SD1,
            }),
    {
        ProcessConfiguration {
            invoice_choice: InvoiceChoice::Inv1,
            shipping_choice: ShippingChoice::Sh1,
            freight_choice: FreightChoice::Fr1,
            availability_choice: AvailabilityChoice::AV1,
            shippingdate_choice: ShippingDateChoice::SD1,
        }
    }
}

/// A registry entry: the stage function registered under a choice.
#[derive(Clone, Copy, Debug, PartialEq, Eq)]
pub struct Chooser<C, F> {
    pub choice: C,
    pub stage: F,
}

impl<C, F> Chooser<C, F> {
    pub fn new(choice: C, stage: F) -> (r: Chooser<C, F>)
        ensures
            r.choice == choice,
            r.stage == stage,
    {
        Chooser { choice, stage }
    }
}

pub type InvoiceChooser = Chooser<InvoiceChoice, InvoiceFn>;

pub type ShippingChooser = Chooser<ShippingChoice, ShippingFn>;

pub type FreightChooser = Chooser<FreightChoice, FreightFn>;

pub type AvailabilityChooser = Chooser<AvailabilityChoice, AvailabilityFn>;

pub type ShippingDateChooser = Chooser<ShippingDateChoice, ShippingDateFn>;


/// The function of the first entry registered under the choice, if any.
pub open spec fn registered<C, F>(entries: Seq<Chooser<C, F>>, choice: C) -> Option<F>
    decreases entries.len(),
{
    if entries.len() == 0 {
        None
    } else if entries[0].choice == choice {
        Some(entries[0].stage)
    } else {
        registered(entries.drop_first(), choice)
    }
}

/// Relies on linq's `where_by`, `select` and `first` (std's `filter`, `map` and
/// `next`): the function of the first entry whose choice is the same as `choice`.
#[verifier::external_body]
fn first_registered<C: Choice, F: Copy>(entries: &Vec<Chooser<C, F>>, choice: C) -> (r: Option<F>)
    ensures
        r == registered(entries@, choice),
{
    entries.iter().where_by(|x| x.choice.same(&choice)).select(|x| x.stage).first()
}

/// Every invoice choice with the function of the same number.
pub open spec fn standard_invoices() -> Seq<InvoiceChooser> {
    seq![
        Chooser { choice: InvoiceChoice::Inv1, stage: InvoiceFn::Invoice1 },
        Chooser { choice: InvoiceChoice::Inv2, stage: InvoiceFn::Invoice2 },
        Chooser { choice: InvoiceChoice::Inv3, stage: InvoiceFn::Invoice3 },
        Chooser { choice: InvoiceChoice::Inv4, stage: InvoiceFn::Invoice4 },
        Chooser { choice: InvoiceChoice::Inv5, stage: InvoiceFn::Invoice5 },
    ]
}

/// Every shipping choice with the function of the same number.
pub open spec fn standard_shippings() -> Seq<ShippingChooser> {
    seq![
        Chooser { choice: ShippingChoice::Sh1, stage: ShippingFn::Shipping1 },
        Chooser { choice: ShippingChoice::Sh2, stage: ShippingFn::Shipping2 },
        Chooser { choice: ShippingChoice::Sh3, stage: ShippingFn::Shipping3 },
    ]
}

/// Every freight choice with the function of the same number.
pub open spec fn standard_freights() -> Seq<FreightChooser> {
    seq![
        Chooser { choice: FreightChoice::Fr1, stage: FreightFn::Freight1 },
        Chooser { choice: FreightChoice::Fr2, stage: FreightFn::Freight2 },
        Chooser { choice: FreightChoice::Fr3, stage: FreightFn::Freight3 },
        Chooser { choice: FreightChoice::Fr4, stage: FreightFn::Freight4 },
        Chooser { choice: FreightChoice::Fr5, stage: FreightFn::Freight5 },
        Chooser { choice: FreightChoice::Fr6, stage: FreightFn::Freight6 },
    ]
}

/// Every availability choice with the function of the same number.
pub open spec fn standard_availabilities() -> Seq<AvailabilityChooser> {
    seq![
        Chooser { choice: AvailabilityChoice::AV1, stage: AvailabilityFn::Availability1 },
        Chooser { choice: AvailabilityChoice::AV2, stage: AvailabilityFn::Availability2 },
        Chooser { choice: AvailabilityChoice::AV3, stage: AvailabilityFn::Availability3 },
        Chooser { choice: AvailabilityChoice::AV4, stage: AvailabilityFn::Availability4 },
    ]
}

/// Every shippingdate choice with the function of the same number.
pub open spec fn standard_shipping_dates() -> Seq<ShippingDateChooser> {
    seq![
        Chooser { choice: ShippingDateChoice::SD1, stage: ShippingDateFn::ShippingDate1 },
        Chooser { choice: ShippingDateChoice::SD2, stage: ShippingDateFn::ShippingDate2 },
        Chooser { choice: ShippingDateChoice::SD3, stage: ShippingDateFn::ShippingDate3 },
        Chooser { choice: ShippingDateChoice::SD4, stage: ShippingDateFn::ShippingDate4 },
        Chooser { choice: ShippingDateChoice::SD5, stage: ShippingDateFn::ShippingDate5 },
    ]
}

/// The registries of the invoicing pipeline.
pub struct InvoicingPath {
    pub invoices: Vec<InvoiceChooser>,
    pub shippings: Vec<ShippingChooser>,
    pub freights: Vec<FreightChooser>,
}

impl InvoicingPath {
    /// The standard registries: every choice has its function.
    pub fn new() -> (r: InvoicingPath)
        ensures
            r.invoices@ == standard_invoices(),
            r.shippings@ == standard_shippings(),
            r.freights@ == standard_freights(),
    {
        let invoices = vec![
            Chooser::new(InvoiceChoice::Inv1, InvoiceFn::Invoice1),
            Chooser::new(InvoiceChoice::Inv2, InvoiceFn::Invoice2),
            Chooser::new(InvoiceChoice::Inv3, InvoiceFn::Invoice3),
            Chooser::new(InvoiceChoice::Inv4, InvoiceFn::Invoice4),
            Chooser::new(InvoiceChoice::Inv5, InvoiceFn::Invoice5),
        ];
        let shippings = vec![
            Chooser::new(ShippingChoice::Sh1, ShippingFn::Shipping1),
            Chooser::new(ShippingChoice::Sh2, ShippingFn::Shipping2),
            Chooser::new(ShippingChoice::Sh3, ShippingFn::Shipping3),
        ];
        let freights = vec![
            Chooser::new(FreightChoice::Fr1, FreightFn::Freight1),
            Chooser::new(FreightChoice::Fr2, FreightFn::Freight2),
            Chooser::new(FreightChoice::Fr3, FreightFn::Freight3),
            Chooser::new(FreightChoice::Fr4, FreightFn::Freight4),
            Chooser::new(FreightChoice::Fr5, FreightFn::Freight5),
            Chooser::new(FreightChoice::Fr6, FreightFn::Freight6),
        ];
        proof {
            assert(invoices@ =~= standard_invoices());
            assert(shippings@ =~= standard_shippings());
            assert(freights@ =~= standard_freights());
        }
        InvoicingPath { invoices, shippings, freights }
    }

    /// Registries of the caller's own.
    pub fn from_functions(invoices: Vec<InvoiceChooser>, shippings: Vec<ShippingChooser>, freights: Vec<FreightChooser>) -> (r: InvoicingPath)
        ensures
            r.invoices@ == invoices@,
            r.shippings@ == shippings@,
            r.freights@ == freights@,
    {
        InvoicingPath { invoices, shippings, freights }
    }

    pub fn invoice_functions(&self) -> (r: &Vec<InvoiceChooser>)
        ensures
            r@ == self.invoices@,
    {
        &self.invoices
    }

    pub fn shipping_functions(&self) -> (r: &Vec<ShippingChooser>)
        ensures
            r@ == self.shippings@,
    {
        &self.shippings
    }

    pub fn freight_functions(&self) -> (r: &Vec<FreightChooser>)
        ensures
            r@ == self.freights@,
    {
        &self.freights
    }
}

/// The registries of the availability pipeline.
pub struct AvailabilityPath {
    pub availabilities: Vec<AvailabilityChooser>,
    pub shipping_dates: Vec<ShippingDateChooser>,
}

impl AvailabilityPath {
    /// The standard registries: every choice has its function.
    pub fn new() -> (r: AvailabilityPath)
        ensures
            r.availabilities@ == standard_availabilities(),
            r.shipping_dates@ == standard_shipping_dates(),
    {
        let availabilities = vec![
            Chooser::new(AvailabilityChoice::AV1, AvailabilityFn::Availability1),
            Chooser::new(AvailabilityChoice::AV2, AvailabilityFn::Availability2),
            Chooser::new(AvailabilityChoice::AV3, AvailabilityFn::Availability3),
            Chooser::new(AvailabilityChoice::AV4, AvailabilityFn::Availability4),
        ];
        let shipping_dates = vec![
            Chooser::new(ShippingDateChoice::SD1, ShippingDateFn::ShippingDate1),
            Chooser::new(ShippingDateChoice::SD2, ShippingDateFn::ShippingDate2),
            Chooser::new(ShippingDateChoice::SD3, ShippingDateFn::ShippingDate3),
            Chooser::new(ShippingDateChoice::SD4, ShippingDateFn::ShippingDate4),
            Chooser::new(ShippingDateChoice::SD5, ShippingDateFn::ShippingDate5),
        ];
        proof {
            assert(availabilities@ =~= standard_availabilities());
            assert(shipping_dates@ =~= standard_shipping_dates());
        }
        AvailabilityPath { availabilities, shipping_dates }
    }

    /// Registries of the caller's own.
    pub fn from_functions(availabilities: Vec<AvailabilityChooser>, shipping_dates: Vec<ShippingDateChooser>) -> (r: AvailabilityPath)
        ensures
            r.availabilities@ == availabilities@,
            r.shipping_dates@ == shipping_dates@,
    {
        AvailabilityPath { availabilities, shipping_dates }
    }

    pub fn availability_functions(&self) -> (r: &Vec<AvailabilityChooser>)
        ensures
            r@ == self.availabilities@,
    {
        &self.availabilities
    }

    pub fn shippingdata_functions(&self) -> (r: &Vec<ShippingDateChooser>)
        ensures
            r@ == self.shipping_dates@,
    {
        &self.shipping_dates
    }
}

/// A stage category with the choice that was made in it.
#[derive(Clone, Copy, Debug, PartialEq, Eq, Structural)]
pub enum Stage {
    Invoice(InvoiceChoice),
    Shipping(ShippingChoice),
    Freight(FreightChoice),
    Availability(AvailabilityChoice),
    ShippingDate(ShippingDateChoice),
}

/// Looks the choice up in the invoice registry.
pub fn lookup_invoice(entries: &Vec<InvoiceChooser>, choice: InvoiceChoice) -> (r: Result<InvoiceFn, Stage>)
    ensures
        r == (match registered(entries@, choice) {
            Some(f) => Ok::<InvoiceFn, Stage>(f),
            None => Err(Stage::Invoice(choice)),
        }),
{
    match first_registered(entries, choice) {
        Some(f) => Ok(f),
        None => Err(Stage::Invoice(choice)),
    }
}

/// Looks the choice up in the shipping registry.
pub fn lookup_shipping(entries: &Vec<ShippingChooser>, choice: ShippingChoice) -> (r: Result<ShippingFn, Stage>)
    ensures
        r == (match registered(entries@, choice) {
            Some(f) => Ok::<ShippingFn, Stage>(f),
            None => Err(Stage::Shipping(choice)),
        }),
{
    match first_registered(entries, choice) {
        Some(f) => Ok(f),
        None => Err(Stage::Shipping(choice)),
    }
}

/// Looks the choice up in the freight registry.
pub fn lookup_freight(entries: &Vec<FreightChooser>, choice: FreightChoice) -> (r: Result<FreightFn, Stage>)
    ensures
        r == (match registered(entries@, choice) {
            Some(f) => Ok::<FreightFn, Stage>(f),
            None => Err(Stage::Freight(choice)),
        }),
{
    match first_registered(entries, choice) {
        Some(f) => Ok(f),
        None => Err(Stage::Freight(choice)),
    }
}

/// Looks the choice up in the availability registry.
pub fn lookup_availability(entries: &Vec<AvailabilityChooser>, choice: AvailabilityChoice) -> (r: Result<AvailabilityFn, Stage>)
    ensures
        r == (match registered(entries@, choice) {
            Some(f) => Ok::<AvailabilityFn, Stage>(f),
            None => Err(Stage::Availability(choice)),
        }),
{
    match first_registered(entries, choice) {
        Some(f) => Ok(f),
        None => Err(Stage::Availability(choice)),
    }
}

/// Looks the choice up in the shippingdate registry.
pub fn lookup_shippingdate(entries: &Vec<ShippingDateChooser>, choice: ShippingDateChoice) -> (r: Result<ShippingDateFn, Stage>)
    ensures
        r == (match registered(entries@, choice) {
            Some(f) => Ok::<ShippingDateFn, Stage>(f),
            None => Err(Stage::ShippingDate(choice)),
        }),
{
    match first_registered(entries, choice) {
        Some(f) => Ok(f),
        None => Err(Stage::ShippingDate(choice)),
    }
}

} // verus!
