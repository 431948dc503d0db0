//! The contract's entry points, as decisions over plain values: the host
//! supplies the message and, for a query, carries out the request chosen here.
use vstd::prelude::*;
use cosmwasm_std::StdError;
use crate::msg::{HandleMsg, InitMsg, MigrateMsg, QueryMsg};
use crate::probe::{probe_bytes, probe_request, SmartQuery};
use crate::response::{HandleResponse, InitResponse, MigrateResponse};

verus! {

/// Instantiation: the no-op message is acknowledged with an empty response.
pub fn init<M>(msg: InitMsg) -> (r: Result<InitResponse<M>, StdError>)
    ensures
        r matches Ok(resp) && resp.has_no_effects(),
{
    match msg {
        InitMsg::Nop {} => Ok(InitResponse { messages: Vec::new(), log: Vec::new() }),
    }
}

/// Execution: acknowledged with an empty response and no data.
pub fn handle<M>(_msg: HandleMsg) -> (r: Result<HandleResponse<M>, StdError>)
    ensures
        r matches Ok(resp) && resp.has_no_effects(),
{
    Ok(HandleResponse { messages: Vec::new(), log: Vec::new(), data: None })
}

/// Query: the request to put to the host, whose answer is the query's result
/// (see [`crate::probe::forward_answer`]). The probe goes to the address the
/// message names and asks it to run this same query against itself.
pub fn query(msg: &QueryMsg) -> (r: SmartQuery)
    ensures
        r.contract_addr@ == msg.target(),
        r.msg@ == probe_bytes(msg.target()),
{
    match msg {
        QueryMsg::SendExternalQueryInfiniteLoop { to } => probe_request(to),
    }
}

/// Migration: acknowledged with the empty response.
pub fn migrate<M>(_msg: MigrateMsg) -> (r: Result<MigrateResponse<M>, StdError>)
    ensures
        r matches Ok(resp) && resp.has_no_effects(),
{
    Ok(MigrateResponse::default())
}

} // verus!
