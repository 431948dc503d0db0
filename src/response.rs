//! What the entry points hand back to the host. `M` is the host's message
//! type: the contract carries such messages without looking into them.
use vstd::prelude::*;

verus! {

/// A key and value recorded in the host's event log.
#[derive(Clone, Debug, PartialEq, Eq)]
pub struct LogAttribute {
    pub key: String,
    pub value: String,
}

/// The result of instantiation: messages for the host to dispatch, and log
/// attributes.
#[derive(Clone, Debug, PartialEq)]
pub struct InitResponse<M> {
    pub messages: Vec<M>,
    pub log: Vec<LogAttribute>,
}

/// The result of an execution: messages, log attributes and optional data
/// returned to the sender.
#[derive(Clone, Debug, PartialEq)]
pub struct HandleResponse<M> {
    pub messages: Vec<M>,
    pub log: Vec<LogAttribute>,
    pub data: Option<Vec<u8>>,
}

/// The result of a migration, laid out as [`HandleResponse`].
#[derive(Clone, Debug, PartialEq)]
pub struct MigrateResponse<M> {
    pub messages: Vec<M>,
    pub log: Vec<LogAttribute>,
    pub data: Option<Vec<u8>>,
}

impl<M> InitResponse<M> {
    /// Neither messages nor log attributes.
    pub open spec fn has_no_effects(&self) -> bool {
        &&& self.messages@.len() == 0
        &&& self.log@.len() == 0
    }
}

impl<M> HandleResponse<M> {
    /// Neither messages nor log attributes, and no data.
    pub open spec fn has_no_effects(&self) -> bool {
        &&& self.messages@.len() == 0
        &&& self.log@.len() == 0
        &&& self.data is None
    }
}

impl<M> MigrateResponse<M> {
    /// Neither messages nor log attributes, and no data.
    pub open spec fn has_no_effects(&self) -> bool {
        &&& self.messages@.len() == 0
        &&& self.log@.len() == 0
        &&& self.data is None
    }
}

impl<M> Default for MigrateResponse<M> {
    /// The empty response.
    fn default() -> (r: Self)
        ensures
            r.has_no_effects(),
    {
        MigrateResponse { messages: Vec::new(), log: Vec::new(), data: None }
    }
}

} // verus!
