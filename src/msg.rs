//! The four message types the host hands to the contract's entry points.
use vstd::prelude::*;

verus! {

/// Message accepted at instantiation: a single no-op variant.
#[derive(Clone, Debug, PartialEq, Eq, Structural)]
pub enum InitMsg {
    Nop {},
}

/// Marks a case that cannot arise: the field is private and this crate builds
/// no value of the type, so no caller outside it can hold one.
#[derive(Clone, Copy, Debug, PartialEq, Eq, Structural)]
pub struct Impossible {
    #[allow(dead_code)]
    absent: bool,
}

/// Execution messages. There are none: the only variant holds an
/// [`Impossible`].
#[derive(Clone, Copy, Debug, PartialEq, Eq, Structural)]
pub enum HandleMsg {
    Never(Impossible),
}

/// Query messages.
#[derive(Clone, Debug, PartialEq, Eq)]
pub enum QueryMsg {
    /// Ask the module at `to` to run this same query against itself.
    SendExternalQueryInfiniteLoop { to: String },
}

/// Migration messages. There are none, as for [`HandleMsg`].
#[derive(Clone, Copy, Debug, PartialEq, Eq, Structural)]
pub enum MigrateMsg {
    Never(Impossible),
}

impl QueryMsg {
    /// The address a query message is directed at.
    pub open spec fn target(&self) -> Seq<char> {
        match self {
            QueryMsg::SendExternalQueryInfiniteLoop { to } => to@,
        }
    }
}

} // verus!
