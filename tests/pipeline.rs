use order_costing::calendar::MyDateTime;
use order_costing::money::Decimal;
use order_costing::pipeline::{Application, PipelineError};
use order_costing::registry::{
    AvailabilityChoice, AvailabilityChooser, AvailabilityPath, FreightChoice, FreightChooser,
    InvoiceChoice, InvoiceChooser, InvoicingPath, ProcessConfiguration, ShippingChoice,
    ShippingChooser, ShippingDateChoice, Stage,
};
use order_costing::stages::{
    AvailabilityFunctions, Customer, FreightFn, FreightFunctions, Invoice, InvoiceFn,
    InvoiceFunctions, Order, Shipping, ShippingDateFunctions, ShippingFn, ShippingFunctions,
};

fn date(y: i32, m: u32, d: u32, h: u32) -> MyDateTime {
    MyDateTime::from_parts(y, m, d, h, 0, 0).unwrap()
}

fn order(cost: i64, when: MyDateTime) -> Order {
    Order::placed(Customer::new(), when, Decimal::from_int(cost))
}

fn scenario_config() -> ProcessConfiguration {
    let mut config = ProcessConfiguration::new();
    config.invoice_choice = InvoiceChoice::Inv3;
    config.shipping_choice = ShippingChoice::Sh2;
    config.freight_choice = FreightChoice::Fr3;
    config.availability_choice = AvailabilityChoice::AV2;
    config.shippingdate_choice = ShippingDateChoice::SD2;
    config
}

fn cost_of(o: &Order, config: &ProcessConfiguration) -> Result<Decimal, PipelineError> {
    Application::new().calc_adjusted_cost(config, &InvoicingPath::new(), &AvailabilityPath::new(), o)
}

#[test]
fn scenario_not_on_monday() {
    // 2021-03-16 + 2 + 2 days is Saturday 2021-03-20.
    let o = order(2000, date(2021, 3, 16, 12));
    let r = cost_of(&o, &scenario_config()).unwrap();
    assert!(r.same_value(&Decimal::from_int(1280)));
    assert_eq!(r, Decimal::new(1_280_000, 3));
}

#[test]
fn scenario_on_monday() {
    // 2021-03-18 + 2 + 2 days is Monday 2021-03-22.
    let o = order(2000, date(2021, 3, 18, 12));
    let r = cost_of(&o, &scenario_config()).unwrap();
    assert!(r.same_value(&Decimal::from_int(1780)));
}

#[test]
fn scenario_stages_one_by_one() {
    let o = order(2000, date(2021, 3, 16, 12));
    let invoice = InvoiceFunctions::calc_invoice3(&o);
    assert!(invoice.cost.same_value(&Decimal::from_int(2600)));
    let shipping = ShippingFunctions::calc_shipping2(invoice);
    assert_eq!(shipping.shipper_id, 1);
    let freight = FreightFunctions::calc_freight_cost3(shipping);
    assert!(freight.cost.same_value(&Decimal::from_int(780)));
}

#[test]
fn pipeline_equals_stages_composed() {
    let o = Order::placed(Customer::new(), date(2021, 3, 16, 12), Decimal::new(123_456, 2));
    let config = scenario_config();
    let p = Application::invoice_path_function(&config, &InvoicingPath::new()).unwrap();
    assert_eq!(p.invoice, InvoiceFn::Invoice3);
    assert_eq!(p.shipping, ShippingFn::Shipping2);
    assert_eq!(p.freight, FreightFn::Freight3);
    let by_hand = FreightFunctions::calc_freight_cost3(ShippingFunctions::calc_shipping2(
        InvoiceFunctions::calc_invoice3(&o),
    ));
    assert_eq!(p.run(&o), by_hand);
}

#[test]
fn default_configuration_succeeds() {
    // Invoice 1.1, shipper 1 above 1000, freight 0.25; +3 days then +1 day.
    let o = order(1000, date(2021, 3, 1, 8));
    let r = cost_of(&o, &ProcessConfiguration::new()).unwrap();
    // 1000 * 1.1 = 1100 > 1000, so 1100 * 0.25 = 275; 2021-03-05 is a Friday.
    assert!(r.same_value(&Decimal::from_int(775)));
}

#[test]
fn missing_shipping_function_is_reported() {
    let base = InvoicingPath::new();
    let shippings: Vec<ShippingChooser> = vec![ShippingChooser::new(ShippingChoice::Sh1, ShippingFn::Shipping1)];
    let path = InvoicingPath::from_functions(base.invoices.clone(), shippings, base.freights.clone());
    let o = order(2000, date(2021, 3, 16, 12));
    let r = Application::new().calc_adjusted_cost(&scenario_config(), &path, &AvailabilityPath::new(), &o);
    assert_eq!(r, Err(PipelineError::NoMatchingStageFunction(Stage::Shipping(ShippingChoice::Sh2))));
}

#[test]
fn missing_availability_function_is_reported() {
    let base = AvailabilityPath::new();
    let path = AvailabilityPath::from_functions(Vec::new(), base.shipping_dates.clone());
    let o = order(2000, date(2021, 3, 16, 12));
    let r = Application::new().calc_adjusted_cost(&scenario_config(), &InvoicingPath::new(), &path, &o);
    assert_eq!(
        r,
        Err(PipelineError::NoMatchingStageFunction(Stage::Availability(AvailabilityChoice::AV2)))
    );
}

#[test]
fn first_missing_category_is_reported() {
    let path = InvoicingPath::from_functions(Vec::new(), Vec::new(), Vec::new());
    let r = Application::invoice_path_function(&scenario_config(), &path);
    assert_eq!(r, Err(PipelineError::NoMatchingStageFunction(Stage::Invoice(InvoiceChoice::Inv3))));
}

#[test]
fn lookup_finds_first_matching_entry() {
    let invoices: Vec<InvoiceChooser> = vec![
        InvoiceChooser::new(InvoiceChoice::Inv1, InvoiceFn::Invoice5),
        InvoiceChooser::new(InvoiceChoice::Inv3, InvoiceFn::Invoice2),
        InvoiceChooser::new(InvoiceChoice::Inv3, InvoiceFn::Invoice4),
    ];
    let freights: Vec<FreightChooser> = vec![FreightChooser::new(FreightChoice::Fr3, FreightFn::Freight6)];
    let shippings: Vec<ShippingChooser> = vec![ShippingChooser::new(ShippingChoice::Sh2, ShippingFn::Shipping3)];
    let path = InvoicingPath::from_functions(invoices, shippings, freights);
    let p = Application::invoice_path_function(&scenario_config(), &path).unwrap();
    assert_eq!(p.invoice, InvoiceFn::Invoice2);
    assert_eq!(p.shipping, ShippingFn::Shipping3);
    assert_eq!(p.freight, FreightFn::Freight6);
    assert_eq!(path.invoice_functions().len(), 3);
}

#[test]
fn registry_of_other_choices_only() {
    let avs: Vec<AvailabilityChooser> = vec![AvailabilityChooser::new(
        AvailabilityChoice::AV1,
        order_costing::stages::AvailabilityFn::Availability1,
    )];
    let base = AvailabilityPath::new();
    let path = AvailabilityPath::from_functions(avs, base.shipping_dates.clone());
    let r = Application::availability_path_function(&scenario_config(), &path);
    assert_eq!(
        r,
        Err(PipelineError::NoMatchingStageFunction(Stage::Availability(AvailabilityChoice::AV2)))
    );
    assert_eq!(AvailabilityPath::new().availability_functions().len(), 4);
    assert_eq!(AvailabilityPath::new().shippingdata_functions().len(), 5);
}

#[test]
fn date_past_end_of_month_fails() {
    let o = order(2000, date(2021, 1, 30, 12));
    let r = cost_of(&o, &scenario_config());
    assert_eq!(r, Err(PipelineError::DateOutOfRange));
}

#[test]
fn configuration_errors_come_before_date_errors() {
    let o = order(2000, date(2021, 1, 30, 12));
    let path = InvoicingPath::from_functions(Vec::new(), Vec::new(), Vec::new());
    let r = Application::new().calc_adjusted_cost(&scenario_config(), &path, &AvailabilityPath::new(), &o);
    assert_eq!(r, Err(PipelineError::NoMatchingStageFunction(Stage::Invoice(InvoiceChoice::Inv3))));
}

#[test]
fn invoice_factors() {
    let o = order(100, date(2021, 3, 16, 12));
    let expected = [110, 120, 130, 140, 150];
    let got = [
        InvoiceFunctions::calc_invoice1(&o),
        InvoiceFunctions::calc_invoice2(&o),
        InvoiceFunctions::calc_invoice3(&o),
        InvoiceFunctions::calc_invoice4(&o),
        InvoiceFunctions::calc_invoice5(&o),
    ];
    for (g, e) in got.iter().zip(expected.iter()) {
        assert!(g.cost.same_value(&Decimal::from_int(*e)));
    }
    assert_eq!(Invoice::new().cost, Decimal::new(0, 0));
}

#[test]
fn shipping_thresholds_are_strict() {
    let at = |c: i64| Invoice { cost: Decimal::from_int(c) };
    assert_eq!(ShippingFunctions::calc_shipping1(at(1000)).shipper_id, 2);
    assert_eq!(ShippingFunctions::calc_shipping1(at(1001)).shipper_id, 1);
    assert_eq!(ShippingFunctions::calc_shipping2(at(1100)).shipper_id, 2);
    assert_eq!(ShippingFunctions::calc_shipping2(at(1101)).shipper_id, 1);
    assert_eq!(ShippingFunctions::calc_shipping3(at(1200)).shipper_id, 2);
    let just_above = Invoice { cost: Decimal::new(12_000_001, 4) };
    let s = ShippingFunctions::calc_shipping3(just_above);
    assert_eq!(s.shipper_id, 1);
    assert_eq!(s.cost, just_above.cost);
    assert_eq!(Shipping::new().shipper_id, 0);
}

#[test]
fn freight_shares() {
    let ship = |id: i64| Shipping { cost: Decimal::from_int(1000), shipper_id: id };
    let fns = [
        FreightFunctions::calc_freight_cost1,
        FreightFunctions::calc_freight_cost2,
        FreightFunctions::calc_freight_cost3,
        FreightFunctions::calc_freight_cost4,
        FreightFunctions::calc_freight_cost5,
        FreightFunctions::calc_freight_cost6,
    ];
    let first = [250, 280, 300, 350, 150, 100];
    let other = [500, 520, 600, 650, 200, 150];
    for k in 0..6 {
        assert!(fns[k](ship(1)).cost.same_value(&Decimal::from_int(first[k])));
        assert!(fns[k](ship(2)).cost.same_value(&Decimal::from_int(other[k])));
    }
}

#[test]
fn availability_days() {
    let o = order(10, date(2021, 3, 16, 12));
    assert_eq!(AvailabilityFunctions::calc_availability1(&o).unwrap().date.day, 19);
    assert_eq!(AvailabilityFunctions::calc_availability2(&o).unwrap().date.day, 18);
    assert_eq!(AvailabilityFunctions::calc_availability3(&o).unwrap().date.day, 17);
    assert_eq!(AvailabilityFunctions::calc_availability4(&o).unwrap().date.day, 20);
    let late = order(10, date(2021, 2, 27, 12));
    assert!(AvailabilityFunctions::calc_availability1(&late).is_none());
    assert_eq!(AvailabilityFunctions::calc_availability3(&late).unwrap().date.day, 28);
    let leap = order(10, date(2020, 2, 27, 12));
    assert_eq!(AvailabilityFunctions::calc_availability2(&leap).unwrap().date.day, 29);
}

#[test]
fn shipping_date_steps() {
    let o = order(10, date(2021, 3, 16, 3));
    let a = AvailabilityFunctions::calc_availability3(&o).unwrap();
    assert_eq!(ShippingDateFunctions::calc_shippingdate1(a).unwrap().date.day, 18);
    assert_eq!(ShippingDateFunctions::calc_shippingdate2(a).unwrap().date.day, 19);
    assert_eq!(ShippingDateFunctions::calc_shippingdate3(a).unwrap().date.hour, 17);
    assert_eq!(ShippingDateFunctions::calc_shippingdate4(a).unwrap().date.hour, 23);
    assert_eq!(ShippingDateFunctions::calc_shippingdate5(a).unwrap().date.hour, 13);
    let evening = AvailabilityFunctions::calc_availability3(&order(10, date(2021, 3, 16, 10))).unwrap();
    assert!(ShippingDateFunctions::calc_shippingdate3(evening).is_none());
    assert_eq!(ShippingDateFunctions::calc_shippingdate4(evening).map(|s| s.date.hour), None);
}

#[test]
fn new_values_are_dated_now() {
    let o = Order::new().unwrap();
    assert_eq!(o.cost, Decimal::new(0, 0));
    assert!(o.date.year >= 2021);
    assert!(o.date.hour < 24);
    assert!(MyDateTime::from_parts(o.date.year, o.date.month, o.date.day, o.date.hour, o.date.minute, o.date.second).is_some());
    let a = order_costing::stages::Availability::new().unwrap();
    assert!(a.date.month >= 1 && a.date.month <= 12);
    let s = order_costing::stages::ShippingDate::new().unwrap();
    assert!(s.date.day >= 1 && s.date.day <= 31);
    assert_eq!(order_costing::stages::Freight::new().cost, Decimal::new(0, 0));
}
