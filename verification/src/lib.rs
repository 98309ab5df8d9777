//! Resource metering for a smart-contract host.
//!
//! A [`Budget`] counts two resources, cpu instructions and memory bytes, against
//! a limit each. Every kind of work the host does is a [`ContractCostType`]; a
//! linear cost model per kind and per resource turns the size of the work into
//! an amount of the resource. Work is charged before or as it is done, and a
//! charge that takes a resource past its limit is refused with an error.

pub mod budget;
pub mod cost_model;
pub mod cost_type;
pub mod dimension;
pub mod effects;
pub mod error;
pub mod fuel;
pub mod laws;
pub mod schedule;
pub mod text;

pub use budget::{AsBudget, Budget, BudgetImpl};
pub use cost_model::{ContractCostParamEntry, ContractCostParams, ExtensionPoint, HostCostModel};
pub use cost_type::ContractCostType;
pub use dimension::BudgetDimension;
pub use error::{HostError, ScErrorCode, ScErrorType};
pub use fuel::FuelConfig;
