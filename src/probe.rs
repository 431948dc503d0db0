//! The self-addressed probe: a smart query asking a module to send that very
//! query to itself.
use vstd::prelude::*;
use vstd::utf8::{decode_utf8, encode_utf8, encode_utf8_decode_utf8};
use cosmwasm_std::StdError;

verus! {

/// Text of a probe payload that comes before the target address.
pub const PROBE_OPEN: &'static str = "{\"send_external_query_infinite_loop\":{\"to\":\"";

/// Text of a probe payload that comes after the target address.
pub const PROBE_CLOSE: &'static str = "\"}}";

/// The query message asking `to` to probe itself,
/// `{"send_external_query_infinite_loop":{"to":"<to>"}}`, with the address
/// spliced in as it stands.
pub open spec fn probe_text(to: Seq<char>) -> Seq<char> {
    PROBE_OPEN@ + to + PROBE_CLOSE@
}

/// The probe payload as sent to the host: its text in UTF-8.
pub open spec fn probe_bytes(to: Seq<char>) -> Seq<u8> {
    encode_utf8(probe_text(to))
}

/// The address field of a probe text: what stands between the opening and
/// the closing text.
pub open spec fn embedded_target(text: Seq<char>) -> Seq<char> {
    text.subrange(PROBE_OPEN@.len() as int, text.len() - PROBE_CLOSE@.len())
}

/// A smart query to another module: its address and the query message, as
/// JSON bytes, that the host delivers to it.
#[derive(Clone, Debug, PartialEq, Eq)]
pub struct SmartQuery {
    pub contract_addr: String,
    pub msg: Vec<u8>,
}

/// Builds the payload that asks `to` to probe itself.
pub fn probe_payload(to: &str) -> (r: Vec<u8>)
    ensures
        r@ == probe_bytes(to@),
{
    let mut text = String::from_str(PROBE_OPEN);
    text.append(to);
    text.append(PROBE_CLOSE);
    text.as_str().as_bytes_vec()
}

/// Builds the smart query that sends the probe to `to`.
pub fn probe_request(to: &String) -> (r: SmartQuery)
    ensures
        r.contract_addr@ == to@,
        r.msg@ == probe_bytes(to@),
{
    SmartQuery { contract_addr: to.clone(), msg: probe_payload(to.as_str()) }
}

/// Hands the host's answer to the probe back as the query's own result,
/// response bytes and failure alike.
pub fn forward_answer(answer: Result<Vec<u8>, StdError>) -> (r: Result<Vec<u8>, StdError>)
    ensures
        r == answer,
{
    match answer {
        Ok(bytes) => Ok(bytes),
        Err(e) => Err(e),
    }
}

/// The probe addressed to `to` carries `to` itself: decoding its payload and
/// reading the address field gives back `to`, with nothing changed, and two
/// different addresses never give the same payload.
pub proof fn lemma_probe_is_self_addressed(to: Seq<char>, other: Seq<char>)
    ensures
        embedded_target(decode_utf8(probe_bytes(to))) == to,
        probe_bytes(to) == probe_bytes(other) ==> to == other,
{
    encode_utf8_decode_utf8(probe_text(to));
    encode_utf8_decode_utf8(probe_text(other));
    assert(embedded_target(probe_text(to)) =~= to);
    assert(embedded_target(probe_text(other)) =~= other);
}

} // verus!
