//! Request contract and dispatch pipeline.
//!
//! Every endpoint type implements [`Request`]: it declares its output
//! type, and its `send` consumes the request — a value cannot be
//! dispatched twice — and deterministically assembles the one HTTP
//! exchange to perform: the target URL with the bot credential attached,
//! and the body in the transport encoding the fields call for.  The
//! network exchange itself is the transport collaborator's job; its
//! outcome comes back through [`complete`], which decodes the response
//! envelope into the endpoint's typed output or a structured error.

use vstd::prelude::*;
use crate::envelope::{decode_envelope, env_success, env_failure, env_field, env_code,
    env_description, env_retry_after, env_migrate};
use crate::errors::RequestError;
use crate::form::{Body, FieldView, Form, spec_body_matches, encode_body};
use crate::json::{JsonValue, JsonView};

verus! {

/// Immutable connection context: the bot credential.  It is shared by
/// reference across arbitrarily many concurrent requests; the transport
/// handle lives with the transport collaborator.
#[derive(Debug)]
pub struct RequestContext {
    pub token: String,
}

impl RequestContext {
    pub fn new(token: String) -> (r: Self)
        ensures
            r.token@ == token@,
    {
        RequestContext { token }
    }
}

/// The endpoint URL of one remote method, with the bot credential
/// attached to the path.
pub open spec fn spec_api_url(token: Seq<char>, method: Seq<char>) -> Seq<char> {
    "https://api.telegram.org/bot"@ + token + "/"@ + method
}

/// Build the endpoint URL of one remote method.
pub fn api_url(token: &str, method: &str) -> (u: String)
    ensures
        u@ == spec_api_url(token@, method@),
{
    let mut u = String::from_str("https://api.telegram.org/bot");
    u.append(token);
    u.append("/");
    u.append(method);
    proof {
        assert(u@ =~= spec_api_url(token@, method@));
    }
    u
}

/// One fully assembled HTTP exchange, ready for the transport
/// collaborator: the target URL and the encoded body.
pub struct PreparedRequest {
    pub url: String,
    pub body: Body,
}

/// Whether a prepared request is exactly the exchange a parameter set
/// calls for: the credentialed URL of the method, and the body in the
/// transport encoding selected by the fields.
pub open spec fn spec_prepared(p: PreparedRequest, token: Seq<char>, method: Seq<char>, fields: Seq<FieldView>) -> bool {
    p.url@ == spec_api_url(token, method) && spec_body_matches(p.body, fields)
}

/// Assemble the exchange for one method call: credentialed URL plus the
/// body encoding chosen by the parameter set's transport mode.
pub fn assemble(token: &str, method: &str, form: Form) -> (p: PreparedRequest)
    requires
        form.wf(),
    ensures
        spec_prepared(p, token@, method@, form.dv()),
{
    let body = encode_body(form);
    PreparedRequest { url: api_url(token, method), body }
}

/// The raw `result` value of a modeled success envelope (`Null` when the
/// envelope holds none).
pub open spec fn env_result(env: JsonView) -> JsonView {
    match env_field(env, "result"@) {
        Option::Some(v) => v,
        Option::None => JsonView::Null,
    }
}

/// The contract every endpoint type satisfies.
///
/// `send` takes the request by value: once dispatched, the value is gone,
/// so a request cannot be sent twice.  Builder setters mutate the value
/// before `send` and perform no I/O.
pub trait Request: Sized {
    /// The success-result type of this endpoint.
    type Output;

    /// The remote method name `send` targets.
    spec fn spec_method(&self) -> Seq<char>;

    /// The credential of the borrowed connection context.
    spec fn spec_token(&self) -> Seq<char>;

    /// The parameter set `send` encodes, in field order.
    spec fn spec_fields(&self) -> Seq<FieldView>;

    /// On which raw result values output decoding succeeds.
    spec fn output_accepts(v: JsonView) -> bool;

    /// Which decoded output is the correct reading of a raw result value.
    spec fn output_matches(v: JsonView, out: Self::Output) -> bool;

    /// Consume the request and assemble its one HTTP exchange.
    fn send(self) -> (p: PreparedRequest)
        ensures
            spec_prepared(p, self.spec_token(), self.spec_method(), self.spec_fields()),
    ;

    /// Decode the raw `result` value of a success envelope into the
    /// endpoint's output type.
    fn decode_output(v: JsonValue) -> (r: Result<Self::Output, RequestError>)
        ensures
            match r {
                Result::Ok(out) => Self::output_accepts(v.dv()) && Self::output_matches(v.dv(), out),
                Result::Err(e) => !Self::output_accepts(v.dv()) && e == RequestError::Decode,
            },
    ;
}

/// Decode the outcome of the transport exchange for an endpoint.
///
/// An absent or unparseable body is a network failure.  A parsed
/// success envelope yields the endpoint's typed output; a parsed failure
/// envelope yields the API error verbatim, with its optional rate-limit
/// and migration hints; any other shape — including a success envelope
/// whose result does not match the endpoint's output type — is a decode
/// failure.
pub fn complete<R: Request>(response: Option<JsonValue>) -> (r: Result<R::Output, RequestError>)
    ensures
        ({
            match response {
                Option::None => r is Err && r->Err_0 == RequestError::Network,
                Option::Some(env) => {
                    let ev = env.dv();
                    match r {
                        Result::Ok(out) => env_success(ev) && R::output_accepts(env_result(ev))
                            && R::output_matches(env_result(ev), out),
                        Result::Err(e) => match e {
                            RequestError::Network => false,
                            RequestError::Api { code, description, retry_after, migrate_to_chat_id } =>
                                env_failure(ev)
                                && Option::Some(code) == env_code(ev)
                                && Option::Some(description@) == env_description(ev)
                                && retry_after == env_retry_after(ev)
                                && migrate_to_chat_id == env_migrate(ev),
                            RequestError::Decode => (!env_success(ev) && !env_failure(ev))
                                || (env_success(ev) && !R::output_accepts(env_result(ev))),
                            RequestError::ValueOutOfRange => false,
                        },
                    }
                },
            }
        }),
{
    match response {
        Option::None => Result::Err(RequestError::Network),
        Option::Some(env) => match decode_envelope(env) {
            Result::Ok(res) => R::decode_output(res),
            Result::Err(e) => Result::Err(e),
        },
    }
}

} // verus!
