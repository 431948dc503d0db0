use cosmwasm_std::{CosmosMsg, StdError};
use query_loop::contract::{init, query};
use query_loop::msg::{InitMsg, QueryMsg};
use query_loop::probe::{forward_answer, probe_payload, probe_request, PROBE_CLOSE, PROBE_OPEN};
use query_loop::response::MigrateResponse;

fn probe_msg(to: &str) -> QueryMsg {
    QueryMsg::SendExternalQueryInfiniteLoop { to: to.to_string() }
}

#[test]
fn init_nop_acknowledges_with_no_effects() {
    let resp = init::<CosmosMsg>(InitMsg::Nop {}).unwrap();
    assert!(resp.messages.is_empty());
    assert!(resp.log.is_empty());
}

#[test]
fn default_migrate_response_is_empty() {
    let resp: MigrateResponse<CosmosMsg> = MigrateResponse::default();
    assert!(resp.messages.is_empty());
    assert!(resp.log.is_empty());
    assert_eq!(resp.data, None);
}

#[test]
fn payload_text_for_plain_address() {
    let payload = probe_payload("contract_a");
    assert_eq!(
        payload,
        br#"{"send_external_query_infinite_loop":{"to":"contract_a"}}"#.to_vec()
    );
}

#[test]
fn payload_for_empty_address() {
    let payload = probe_payload("");
    assert_eq!(payload, br#"{"send_external_query_infinite_loop":{"to":""}}"#.to_vec());
}

#[test]
fn payload_encodes_non_ascii_address_in_utf8() {
    let payload = probe_payload("adr\u{e9}");
    let mut expected = br#"{"send_external_query_infinite_loop":{"to":"adr"#.to_vec();
    expected.extend_from_slice(&[0xc3, 0xa9]);
    expected.extend_from_slice(br#""}}"#);
    assert_eq!(payload, expected);
}

#[test]
fn payload_splices_address_without_escaping() {
    let payload = probe_payload("a\"b");
    assert_eq!(
        payload,
        br#"{"send_external_query_infinite_loop":{"to":"a"b"}}"#.to_vec()
    );
}

#[test]
fn payload_is_open_text_address_close_text() {
    let to = "cosmos1xyz";
    let payload = probe_payload(to);
    let open = PROBE_OPEN.as_bytes();
    let close = PROBE_CLOSE.as_bytes();
    assert_eq!(&payload[..open.len()], open);
    assert_eq!(&payload[payload.len() - close.len()..], close);
    assert_eq!(&payload[open.len()..payload.len() - close.len()], to.as_bytes());
}

#[test]
fn payload_parses_as_the_probe_query_message() {
    let payload = probe_payload("contract_b");
    let value: serde_json::Value = serde_json::from_slice(&payload).unwrap();
    let to = value
        .get("send_external_query_infinite_loop")
        .and_then(|inner| inner.get("to"))
        .and_then(|to| to.as_str());
    assert_eq!(to, Some("contract_b"));
}

#[test]
fn request_goes_to_the_address_it_names() {
    let to = "contract_c".to_string();
    let req = probe_request(&to);
    assert_eq!(req.contract_addr, "contract_c");
    assert_eq!(req.msg, probe_payload("contract_c"));
}

#[test]
fn query_builds_the_self_addressed_probe() {
    let req = query(&probe_msg("contract_a"));
    assert_eq!(req.contract_addr, "contract_a");
    assert_eq!(
        req.msg,
        br#"{"send_external_query_infinite_loop":{"to":"contract_a"}}"#.to_vec()
    );
}

#[test]
fn distinct_targets_give_distinct_requests() {
    let a = query(&probe_msg("contract_a"));
    let b = query(&probe_msg("contract_b"));
    assert_ne!(a.contract_addr, b.contract_addr);
    assert_ne!(a.msg, b.msg);
}

#[test]
fn forward_answer_keeps_success_bytes() {
    assert_eq!(forward_answer(Ok(vec![1, 2, 3])), Ok(vec![1, 2, 3]));
    assert_eq!(forward_answer(Ok(vec![])), Ok(vec![]));
}

#[test]
fn forward_answer_keeps_host_failure() {
    let err = StdError::generic_err("query depth exceeded");
    assert_eq!(
        forward_answer(Err(err)),
        Err(StdError::generic_err("query depth exceeded"))
    );
    let missing = StdError::not_found("contract");
    assert_eq!(forward_answer(Err(missing)), Err(StdError::not_found("contract")));
}
