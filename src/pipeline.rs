use vstd::prelude::*;
use crate::money::Decimal;
use crate::registry::{
    lookup_availability, lookup_freight, lookup_invoice, lookup_shipping, lookup_shippingdate,
    registered, AvailabilityPath, InvoicingPath, ProcessConfiguration, Stage,
};
use crate::stages::{
    availability_spec, freight_spec, invoice_spec, shipping_date_spec, shipping_spec,
    AvailabilityFn, Freight, FreightFn, InvoiceFn, Order, ShippingDate, ShippingDateFn, ShippingFn,
};

verus! {

#[derive(Clone, Copy, Debug, PartialEq, Eq, Structural)]
pub enum PipelineError {
    /// The configuration's choice in this category has no registered function.
    NoMatchingStageFunction(Stage),
    /// A date stage reached a day or an hour that does not exist.
    DateOutOfRange,
}

/// Invoice, then shipping, then freight.
#[derive(Clone, Copy, Debug, PartialEq, Eq, Structural)]
pub struct InvoicingPipeline {
    pub invoice: InvoiceFn,
    pub shipping: ShippingFn,
    pub freight: FreightFn,
}

impl InvoicingPipeline {
    pub open spec fn run_spec(self, o: Order) -> Freight {
        freight_spec(self.freight, shipping_spec(self.shipping, invoice_spec(self.invoice, o)))
    }

    /// The freight of the order: the three stages in their fixed order.
    pub fn run(&self, o: &Order) -> (r: Freight)
        requires
            o.cost.is_input(),
        ensures
            r == self.run_spec(*o),
            r.wf(),
    {
        let invoice = self.invoice.apply(o);
        let shipping = self.shipping.apply(invoice);
        self.freight.apply(shipping)
    }
}

/// Availability, then shipping date.
#[derive(Clone, Copy, Debug, PartialEq, Eq, Structural)]
pub struct AvailabilityPipeline {
    pub availability: AvailabilityFn,
    pub shipping_date: ShippingDateFn,
}

impl AvailabilityPipeline {
    pub open spec fn run_spec(self, o: Order) -> Option<ShippingDate> {
        match availability_spec(self.availability, o) {
            Some(a) => shipping_date_spec(self.shipping_date, a),
            None => None,
        }
    }

    /// The shipping date of the order, where every date on the way exists.
    pub fn run(&self, o: &Order) -> (r: Option<ShippingDate>)
        requires
            o.date.wf(),
        ensures
            r == self.run_spec(*o),
            r is Some ==> r->Some_0.date.wf(),
    {
        match self.availability.apply(o) {
            Some(a) => self.shipping_date.apply(a),
            None => None,
        }
    }
}

/// The invoicing pipeline that the configuration selects, or the first of its
/// three categories whose choice is unregistered.
pub open spec fn invoicing_pipeline_spec(config: ProcessConfiguration, path: InvoicingPath) -> Result<
    InvoicingPipeline,
    PipelineError,
> {
    match registered(path.invoices@, config.invoice_choice) {
        None => Err(PipelineError::NoMatchingStageFunction(Stage::Invoice(config.invoice_choice))),
        Some(invoice) => match registered(path.shippings@, config.shipping_choice) {
            None => Err(
                PipelineError::NoMatchingStageFunction(Stage::Shipping(config.shipping_choice)),
            ),
            Some(shipping) => match registered(path.freights@, config.freight_choice) {
                None => Err(
                    PipelineError::NoMatchingStageFunction(Stage::Freight(config.freight_choice)),
                ),
                Some(freight) => Ok(InvoicingPipeline { invoice, shipping, freight }),
            },
        },
    }
}

/// The availability pipeline that the configuration selects, or the first of
/// its two categories whose choice is unregistered.
pub open spec fn availability_pipeline_spec(
    config: ProcessConfiguration,
    path: AvailabilityPath,
) -> Result<AvailabilityPipeline, PipelineError> {
    match registered(path.availabilities@, config.availability_choice) {
        None => Err(
            PipelineError::NoMatchingStageFunction(Stage::Availability(config.availability_choice)),
        ),
        Some(availability) => match registered(path.shipping_dates@, config.shippingdate_choice) {
            None => Err(
                PipelineError::NoMatchingStageFunction(
                    Stage::ShippingDate(config.shippingdate_choice),
                ),
            ),
            Some(shipping_date) => Ok(AvailabilityPipeline { availability, shipping_date }),
        },
    }
}

/// The surcharge for a shipping weekday (Monday being zero).
pub open spec fn surcharge(weekday: int) -> int {
    if weekday == 0 {
        1000
    } else {
        500
    }
}

/// The adjusted cost: both pipelines are built first, then run on the order;
/// the freight cost gets the surcharge of the shipping date's weekday.
pub open spec fn adjusted_cost_spec(
    order: Order,
    config: ProcessConfiguration,
    inv_path: InvoicingPath,
    av_path: AvailabilityPath,
) -> Result<Decimal, PipelineError> {
    match invoicing_pipeline_spec(config, inv_path) {
        Err(e) => Err(e),
        Ok(ip) => match availability_pipeline_spec(config, av_path) {
            Err(e) => Err(e),
            Ok(ap) => match ap.run_spec(order) {
                None => Err(PipelineError::DateOutOfRange),
                Some(sd) => Ok(
                    ip.run_spec(order).cost.plus_whole_spec(surcharge(sd.date.weekday_spec())),
                ),
            },
        },
    }
}

/// Builds and runs the pipelines of a configuration.
pub struct Application {}

impl Application {
    pub fn new() -> (r: Application) {
        Application {  }
    }

    /// The invoicing pipeline that the configuration selects from the registries.
    pub fn invoice_path_function(config: &ProcessConfiguration, inv_path: &InvoicingPath) -> (r:
        Result<InvoicingPipeline, PipelineError>)
        ensures
            r == invoicing_pipeline_spec(*config, *inv_path),
    {
        let invoice = match lookup_invoice(inv_path.invoice_functions(), config.invoice_choice) {
            Ok(f) => f,
            Err(stage) => {
                return Err(PipelineError::NoMatchingStageFunction(stage));
            },
        };
        let shipping = match lookup_shipping(inv_path.shipping_functions(), config.shipping_choice) {
            Ok(f) => f,
            Err(stage) => {
                return Err(PipelineError::NoMatchingStageFunction(stage));
            },
        };
        let freight = match lookup_freight(inv_path.freight_functions(), config.freight_choice) {
            Ok(f) => f,
            Err(stage) => {
                return Err(PipelineError::NoMatchingStageFunction(stage));
            },
        };
        Ok(InvoicingPipeline { invoice, shipping, freight })
    }

    /// The availability pipeline that the configuration selects from the registries.
    pub fn availability_path_function(config: &ProcessConfiguration, av_path: &AvailabilityPath) -> (r:
        Result<AvailabilityPipeline, PipelineError>)
        ensures
            r == availability_pipeline_spec(*config, *av_path),
    {
        let availability = match lookup_availability(
            av_path.availability_functions(),
            config.availability_choice,
        ) {
            Ok(f) => f,
            Err(stage) => {
                return Err(PipelineError::NoMatchingStageFunction(stage));
            },
        };
        let shipping_date = match lookup_shippingdate(
            av_path.shippingdata_functions(),
            config.shippingdate_choice,
        ) {
            Ok(f) => f,
            Err(stage) => {
                return Err(PipelineError::NoMatchingStageFunction(stage));
            },
        };
        Ok(AvailabilityPipeline { availability, shipping_date })
    }

    /// The order's cost after both pipelines and the weekday surcharge.
    pub fn calc_adjusted_cost(
        &self,
        config: &ProcessConfiguration,
        inv_path: &InvoicingPath,
        av_path: &AvailabilityPath,
        order: &Order,
    ) -> (r: Result<Decimal, PipelineError>)
        requires
            order.wf(),
        ensures
            r == adjusted_cost_spec(*order, *config, *inv_path, *av_path),
    {
        let invoicing = match Application::invoice_path_function(config, inv_path) {
            Ok(p) => p,
            Err(e) => {
                return Err(e);
            },
        };
        let availability = match Application::availability_path_function(config, av_path) {
            Ok(p) => p,
            Err(e) => {
                return Err(e);
            },
        };
        let freight = invoicing.run(order);
        let shipping_date = match availability.run(order) {
            Some(s) => s,
            None => {
                return Err(PipelineError::DateOutOfRange);
            },
        };
        let surcharge: i128 = if shipping_date.date.weekday() == 0 {
            1000
        } else {
            500
        };
        Ok(freight.cost.plus_whole(surcharge))
    }
}

/// The choice of the configuration in the stage's category is this stage's
/// choice, and the category's registry has no function under it.
pub open spec fn unregistered(
    stage: Stage,
    config: ProcessConfiguration,
    inv_path: InvoicingPath,
    av_path: AvailabilityPath,
) -> bool {
    match stage {
        Stage::Invoice(c) => c == config.invoice_choice && registered(inv_path.invoices@, c) is None,
        Stage::Shipping(c) => c == config.shipping_choice && registered(inv_path.shippings@, c) is None,
        Stage::Freight(c) => c == config.freight_choice && registered(inv_path.freights@, c) is None,
        Stage::Availability(c) => c == config.availability_choice && registered(
            av_path.availabilities@,
            c,
        ) is None,
        Stage::ShippingDate(c) => c == config.shippingdate_choice && registered(
            av_path.shipping_dates@,
            c,
        ) is None,
    }
}

/// Where each of the five choices has a registered function and the dates on
/// the way exist, the adjusted cost is the cost of the selected freight stage
/// after the selected shipping and invoice stages, plus 1000 when the selected
/// shipping date falls on a Monday and plus 500 otherwise.
pub proof fn lemma_registered_configuration_cost(
    order: Order,
    config: ProcessConfiguration,
    inv_path: InvoicingPath,
    av_path: AvailabilityPath,
)
    requires
        order.wf(),
        registered(inv_path.invoices@, config.invoice_choice) is Some,
        registered(inv_path.shippings@, config.shipping_choice) is Some,
        registered(inv_path.freights@, config.freight_choice) is Some,
        registered(av_path.availabilities@, config.availability_choice) is Some,
        registered(av_path.shipping_dates@, config.shippingdate_choice) is Some,
        (AvailabilityPipeline {
            availability: registered(av_path.availabilities@, config.availability_choice)->Some_0,
            shipping_date: registered(av_path.shipping_dates@, config.shippingdate_choice)->Some_0,
        }).run_spec(order) is Some,
    ensures
        ({
            let invoice = invoice_spec(
                registered(inv_path.invoices@, config.invoice_choice)->Some_0,
                order,
            );
            let shipping = shipping_spec(
                registered(inv_path.shippings@, config.shipping_choice)->Some_0,
                invoice,
            );
            let freight = freight_spec(
                registered(inv_path.freights@, config.freight_choice)->Some_0,
                shipping,
            );
            let date = (AvailabilityPipeline {
                availability: registered(av_path.availabilities@, config.availability_choice)->Some_0,
                shipping_date: registered(av_path.shipping_dates@, config.shippingdate_choice)->Some_0,
            }).run_spec(order)->Some_0.date;
            adjusted_cost_spec(order, config, inv_path, av_path) == Ok::<Decimal, PipelineError>(
                freight.cost.plus_whole_spec(
                    if date.weekday_spec() == 0 {
                        1000
                    } else {
                        500
                    },
                ),
            )
        }),
{
}

/// Where at least one choice of the configuration is unregistered, the
/// adjusted cost fails with `NoMatchingStageFunction`, naming a category and
/// the choice in it that has no function.
pub proof fn lemma_unregistered_choice_fails(
    order: Order,
    config: ProcessConfiguration,
    inv_path: InvoicingPath,
    av_path: AvailabilityPath,
    missing: Stage,
)
    requires
        unregistered(missing, config, inv_path, av_path),
    ensures
        adjusted_cost_spec(order, config, inv_path, av_path) is Err,
        adjusted_cost_spec(order, config, inv_path, av_path)->Err_0 is NoMatchingStageFunction,
        unregistered(
            adjusted_cost_spec(order, config, inv_path, av_path)->Err_0->NoMatchingStageFunction_0,
            config,
            inv_path,
            av_path,
        ),
{
}

/// The cost of the freight that the selected invoicing pipeline yields is the
/// cost that the selected invoice, shipping and freight functions yield when
/// applied one after another.
pub proof fn lemma_pipeline_is_composition(
    order: Order,
    config: ProcessConfiguration,
    inv_path: InvoicingPath,
)
    requires
        invoicing_pipeline_spec(config, inv_path) is Ok,
    ensures
        invoicing_pipeline_spec(config, inv_path)->Ok_0.run_spec(order).cost == freight_spec(
            registered(inv_path.freights@, config.freight_choice)->Some_0,
            shipping_spec(
                registered(inv_path.shippings@, config.shipping_choice)->Some_0,
                invoice_spec(registered(inv_path.invoices@, config.invoice_choice)->Some_0, order),
            ),
        ).cost,
{
}

} // verus!
