//! Order costing: a discount evaluator over a rule catalog, and a
//! configuration-driven pipeline of cost and date stages.

pub mod calendar;
pub mod discount;
pub mod money;
pub mod pipeline;
pub mod registry;
pub mod stages;
