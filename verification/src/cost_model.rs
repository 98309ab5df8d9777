//! Linear cost models.

use vstd::prelude::*;

use crate::error::{HostError, ScErrorCode, ScErrorType};

verus! {

/// The largest `u64` that is at most `amount`, for an `amount` that is not
/// negative: what is left of an exact result in saturating arithmetic.
pub open spec fn saturate(amount: int) -> u64
    recommends
        0 <= amount,
{
    if amount > u64::MAX {
        u64::MAX
    } else {
        amount as u64
    }
}

/// The product of two numbers, or the largest `u64` where it is greater.
pub fn saturating_product(a: u64, b: u64) -> (product: u64)
    ensures
        product == saturate(a * b),
{
    match a.checked_mul(b) {
        Some(product) => product,
        None => u64::MAX,
    }
}

/// A point at which a wire format can be extended; so far without content.
#[derive(Clone, Copy, Debug, PartialEq, Eq, PartialOrd, Ord, Hash, Structural)]
pub enum ExtensionPoint {
    V0,
}

/// The parameters of one linear cost model, as the network configuration stores
/// them.
#[derive(Clone, Copy, Debug, PartialEq, Eq, PartialOrd, Ord, Hash, Structural)]
pub struct ContractCostParamEntry {
    pub ext: ExtensionPoint,
    pub const_term: i64,
    pub linear_term: i64,
}

/// The parameters of the cost models of one resource, in the order of the kinds
/// of work.
#[derive(Clone, Debug, PartialEq, Eq, PartialOrd, Ord, Hash)]
pub struct ContractCostParams(pub Vec<ContractCostParamEntry>);

/// A cost model evaluates a linear expression
///
///    f(x) = a + b * Option<x>
///
/// where `a` and `b` are parameters of the model and `x` is the size of the work,
/// such as a count of events or the length of an object. Work without a size has
/// a constant cost: its input is `None`.
///
/// The same kind of model, with other parameters, serves for memory and for cpu
/// time.
pub trait HostCostModel {
    /// What the model says of work with the given input.
    spec fn evaluation(&self, input: Option<u64>) -> Result<u64, HostError>;

    /// The cost of work with the given input.
    fn evaluate(&self, input: Option<u64>) -> (cost: Result<u64, HostError>)
        ensures
            cost == self.evaluation(input),
    ;

    /// Sets all parameters to zero, so that all work is free.
    fn reset(&mut self)
        ensures
            forall|input: Option<u64>| #[trigger] final(self).evaluation(input) == Ok::<u64, HostError>(0),
    ;
}

impl ContractCostParamEntry {
    /// Whether the model can be evaluated: neither term is negative.
    pub open spec fn valid(self) -> bool {
        0 <= self.const_term && 0 <= self.linear_term
    }

    /// The exact value of the linear expression.
    pub open spec fn cost(self, input: Option<u64>) -> int {
        match input {
            Some(x) => self.const_term + self.linear_term * x,
            None => self.const_term as int,
        }
    }

    /// A model that makes all work free.
    pub open spec fn free() -> ContractCostParamEntry {
        ContractCostParamEntry { ext: ExtensionPoint::V0, const_term: 0, linear_term: 0 }
    }
}

impl HostCostModel for ContractCostParamEntry {
    open spec fn evaluation(&self, input: Option<u64>) -> Result<u64, HostError> {
        if self.valid() {
            Ok(saturate(self.cost(input)))
        } else {
            Err(HostError::invalid_model())
        }
    }

    fn evaluate(&self, input: Option<u64>) -> (cost: Result<u64, HostError>) {
        if self.const_term < 0 || self.linear_term < 0 {
            return Err(HostError::from((ScErrorType::Context, ScErrorCode::InvalidInput)));
        }
        let const_term: u64 = self.const_term as u64;
        let lin_term: u64 = self.linear_term as u64;
        match input {
            Some(input) => {
                let mut res: u64 = const_term;
                if self.linear_term != 0 {
                    res = res.saturating_add(saturating_product(lin_term, input));
                }
                Ok(res)
            },
            None => Ok(const_term),
        }
    }

    fn reset(&mut self)
        ensures
            *final(self) == (ContractCostParamEntry {
                const_term: 0,
                linear_term: 0,
                ..*old(self)
            }),
    {
        self.const_term = 0;
        self.linear_term = 0;
    }
}

} // verus!
