//! What goes over the wire for one call.

use vstd::prelude::*;
use crate::json::Json;

verus! {

/// Credentials for HTTP Basic Authentication.
#[derive(Clone, Debug, PartialEq, Eq)]
pub struct BasicAuth {
    pub user: String,
    pub pass: Option<String>,
}

/// One HTTP POST: where it goes, its `content-type` header, the
/// credentials to attach (if any) and the JSON body.
#[derive(Debug, PartialEq, Eq)]
pub struct Request {
    pub url: String,
    pub content_type: String,
    pub auth: Option<BasicAuth>,
    pub body: Json,
}

/// The protocol version that every request announces.
pub open spec fn protocol_version() -> Seq<char> {
    "2.0"@
}

/// The request id. It is the same for every request: replies are not
/// matched to requests by id.
pub open spec fn session_id() -> Seq<char> {
    "rusttest"@
}

/// The value of the `content-type` header of every request.
pub open spec fn content_type() -> Seq<char> {
    "text/plain;"@
}

/// `body` is the request object for `method` with positional `params`:
/// exactly the four members `jsonrpc`, `id`, `method` and `params`, of
/// which the first two never vary.
pub open spec fn is_envelope(body: Json, method: Seq<char>, params: Seq<Json>) -> bool {
    &&& body is Object
    &&& body.members().len() == 4
    &&& body.members()[0].0@ == "jsonrpc"@
    &&& body.members()[0].1.is_text(protocol_version())
    &&& body.members()[1].0@ == "id"@
    &&& body.members()[1].1.is_text(session_id())
    &&& body.members()[2].0@ == "method"@
    &&& body.members()[2].1.is_text(method)
    &&& body.members()[3].0@ == "params"@
    &&& body.members()[3].1.is_list(params)
}

/// The positional parameters carried by a request object.
pub open spec fn params_of(body: Json) -> Seq<Json> {
    body.members()[3].1.items()
}

/// Build the request object for `method` with positional `params`. An
/// empty parameter list is sent as an empty array.
pub fn envelope(method: &str, params: Vec<Json>) -> (body: Json)
    ensures
        is_envelope(body, method@, params@),
        params_of(body) == params@,
{
    let mut members: Vec<(String, Json)> = Vec::new();
    members.push((String::from_str("jsonrpc"), Json::Text(String::from_str("2.0"))));
    members.push((String::from_str("id"), Json::Text(String::from_str("rusttest"))));
    members.push((String::from_str("method"), Json::Text(String::from_str(method))));
    members.push((String::from_str("params"), Json::List(params)));
    Json::Object(members)
}

/// The four member names of a request object are pairwise different: it
/// has exactly four keys.
pub proof fn lemma_envelope_keys_differ(body: Json, method: Seq<char>, params: Seq<Json>)
    requires
        is_envelope(body, method, params),
    ensures
        forall|i: int, j: int|
            0 <= i < j < 4 ==> body.members()[i].0@ != body.members()[j].0@,
{
    reveal_strlit("jsonrpc");
    reveal_strlit("id");
    reveal_strlit("method");
    reveal_strlit("params");
    assert("jsonrpc"@.len() == 7);
    assert("id"@.len() == 2);
    assert("method"@.len() == 6);
    assert("method"@[0] == 'm');
    assert("params"@[0] == 'p');
}

} // verus!
