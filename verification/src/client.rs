//! The client: connection parameters, and the calls built on them.

use vstd::prelude::*;
use bitcoincore_rpc_json::bitcoin::Txid;
use crate::auth::Auth;
use crate::json::Json;
use crate::raw_tx::RawTx;
use crate::reply::{
    block_count_in, collapse, decode_block_count, decode_txid, kept, txid_in, Reply,
};
use crate::request::{
    content_type, envelope, is_envelope, params_of, protocol_version, session_id, BasicAuth,
    Request,
};

verus! {

/// The characters of an optional string.
pub open spec fn opt_view(s: Option<String>) -> Option<Seq<char>> {
    match s {
        Some(t) => Some(t@),
        None => None,
    }
}

/// The user name and password that a request presents, if it presents any.
pub open spec fn credentials(auth: Option<BasicAuth>) -> Option<(Seq<char>, Option<Seq<char>>)> {
    match auth {
        Some(a) => Some((a.user@, opt_view(a.pass))),
        None => None,
    }
}

/// The parameters of `sendrawtransaction`: the transaction as hex text,
/// then `null` in the place of the fee-rate limit.
pub open spec fn is_raw_tx_params(params: Seq<Json>, hex: Seq<char>) -> bool {
    &&& params.len() == 2
    &&& params[0].is_text(hex)
    &&& params[1] == Json::Null
}

/// The connection parameters of a JSON-RPC client for the Bitcoin Core
/// daemon or a compatible API: where to post, and as whom.
#[derive(Clone, Debug)]
pub struct RpcClient {
    url: String,
    user: Option<String>,
    pass: Option<String>,
}

impl RpcClient {
    /// The URL that every request goes to.
    pub closed spec fn url(self) -> Seq<char> {
        self.url@
    }

    /// The configured user name.
    pub closed spec fn user(self) -> Option<Seq<char>> {
        opt_view(self.user)
    }

    /// The configured password.
    pub closed spec fn pass(self) -> Option<Seq<char>> {
        opt_view(self.pass)
    }

    /// The credentials that this client attaches: none without a user
    /// name; with one, the user name and the password, which may be absent.
    pub open spec fn presents(self) -> Option<(Seq<char>, Option<Seq<char>>)> {
        match self.user() {
            Some(u) => Some((u, self.pass())),
            None => None,
        }
    }

    /// `req` is this client's request for `method` with `params`.
    pub open spec fn frames(self, req: Request, method: Seq<char>, params: Seq<Json>) -> bool {
        &&& req.url@ == self.url()
        &&& req.content_type@ == content_type()
        &&& credentials(req.auth) == self.presents()
        &&& is_envelope(req.body, method, params)
    }

    /// This client is the one configured with `url` and `auth`.
    pub open spec fn made_from(self, url: Seq<char>, auth: Auth) -> bool {
        &&& self.url() == url
        &&& self.user() == opt_view(auth.user())
        &&& self.pass() == opt_view(auth.pass())
    }

    /// A client for the endpoint at `url`. Nothing is sent yet.
    pub fn new(url: String, auth: Auth) -> (client: RpcClient)
        ensures
            client.made_from(url@, auth),
    {
        let (user, pass) = auth.get_user_pass();
        RpcClient { url, user, pass }
    }

    /// The request that calls `method` with positional `args`.
    pub fn call_request(&self, method: &str, args: Vec<Json>) -> (req: Request)
        ensures
            self.frames(req, method@, args@),
            params_of(req.body) == args@,
    {
        let auth = match &self.user {
            Some(user) => {
                let pass = match &self.pass {
                    Some(p) => Some(p.clone()),
                    None => None,
                };
                Some(BasicAuth { user: user.clone(), pass })
            },
            None => None,
        };
        Request {
            url: self.url.clone(),
            content_type: String::from_str("text/plain;"),
            auth,
            body: envelope(method, args),
        }
    }

    /// The request that asks for the height of the chain.
    pub fn block_count_request(&self) -> (req: Request)
        ensures
            self.frames(req, "getblockcount"@, Seq::empty()),
    {
        self.call_request("getblockcount", Vec::new())
    }

    /// The height of the chain in the reply to `block_count_request`;
    /// `None` on any failure.
    pub fn get_block_count(&self, reply: &Reply) -> (count: Option<u64>)
        ensures
            count == kept(block_count_in(*reply)),
    {
        collapse(decode_block_count(reply))
    }

    /// The request that submits the transaction `tx`.
    pub fn raw_transaction_request<R: RawTx>(&self, tx: R) -> (req: Request)
        ensures
            self.frames(req, "sendrawtransaction"@, params_of(req.body)),
            is_raw_tx_params(params_of(req.body), tx.hex_view()),
    {
        let mut args: Vec<Json> = Vec::new();
        args.push(Json::Text(tx.raw_hex()));
        args.push(Json::Null);
        self.call_request("sendrawtransaction", args)
    }

    /// The id of the submitted transaction in the reply to
    /// `raw_transaction_request`; `None` on any failure.
    pub fn send_raw_transaction(&self, reply: &Reply) -> (txid: Option<Txid>)
        ensures
            txid == kept(txid_in(*reply)),
    {
        collapse(decode_txid(reply))
    }
}

/// Credentials decide the authentication of every request: a client made
/// with a user name and a password attaches exactly those to each request
/// it frames, and a client made without credentials attaches none.
pub proof fn lemma_auth_decides_credentials(
    client: RpcClient,
    url: Seq<char>,
    auth: Auth,
    req: Request,
    method: Seq<char>,
    params: Seq<Json>,
)
    requires
        client.made_from(url, auth),
        client.frames(req, method, params),
    ensures
        match auth {
            Auth::Anonymous => req.auth is None,
            Auth::UserPass(u, p) => credentials(req.auth) == Some((u@, Some(p@))),
        },
{
}

/// Every request that a client frames goes to the client's URL with the
/// same `content-type`, and its body has the same `jsonrpc` and `id`
/// members whatever the method and the parameters are.
pub proof fn lemma_envelope_is_uniform(
    client: RpcClient,
    first: Request,
    first_method: Seq<char>,
    first_params: Seq<Json>,
    second: Request,
    second_method: Seq<char>,
    second_params: Seq<Json>,
)
    requires
        client.frames(first, first_method, first_params),
        client.frames(second, second_method, second_params),
    ensures
        first.url@ == second.url@,
        first.content_type@ == second.content_type@,
        credentials(first.auth) == credentials(second.auth),
        first.body.members().len() == 4,
        second.body.members().len() == 4,
        forall|i: int| 0 <= i < 4 ==> first.body.members()[i].0@ == second.body.members()[i].0@,
        first.body.members()[0].1.is_text(protocol_version()),
        second.body.members()[0].1.is_text(protocol_version()),
        first.body.members()[1].1.is_text(session_id()),
        second.body.members()[1].1.is_text(session_id()),
{
}

} // verus!
