//! Response envelope decoder.
//!
//! Every reply is framed in an outer JSON object: `ok` (bool), `result`
//! (present exactly when `ok` is true), `error_code` and `description`
//! (present exactly when `ok` is false), and optionally a nested
//! `parameters` object carrying `retry_after` and `migrate_to_chat_id`.
//! The decoder yields the raw `result` value of a success envelope, a
//! structured API error for a failure envelope, and a decode error for
//! anything that does not match the frame.

use vstd::prelude::*;
use crate::errors::RequestError;
use crate::json::{JsonValue, JsonView, view_lookup, view_as_i64, dv_entries, find_field, as_i64,
    lemma_lookup_view};

verus! {

/// The member named `key` of a modeled envelope object, if the envelope
/// is an object and has one.
pub open spec fn env_field(env: JsonView, key: Seq<char>) -> Option<JsonView> {
    match env {
        JsonView::Obj(entries) => view_lookup(entries, key),
        _ => Option::None,
    }
}

/// The boolean `ok` flag, if present with a boolean value.
pub open spec fn env_ok_flag(env: JsonView) -> Option<bool> {
    match env_field(env, "ok"@) {
        Option::Some(JsonView::Bool(b)) => Option::Some(b),
        _ => Option::None,
    }
}

/// Whether the envelope is a well-formed success: `ok` is true and a
/// `result` member is present.
pub open spec fn env_success(env: JsonView) -> bool {
    env_ok_flag(env) == Option::<bool>::Some(true) && env_field(env, "result"@) is Some
}

/// The error code of a failure envelope, if present as an integer that
/// fits `i64`.
pub open spec fn env_code(env: JsonView) -> Option<i64> {
    match env_field(env, "error_code"@) {
        Option::Some(v) => view_as_i64(v),
        Option::None => Option::None,
    }
}

/// The description of a failure envelope, if present as a string.
pub open spec fn env_description(env: JsonView) -> Option<Seq<char>> {
    match env_field(env, "description"@) {
        Option::Some(JsonView::Str(s)) => Option::Some(s),
        _ => Option::None,
    }
}

/// Whether the envelope is a well-formed failure: `ok` is false and both
/// an integer `error_code` and a string `description` are present.
pub open spec fn env_failure(env: JsonView) -> bool {
    env_ok_flag(env) == Option::<bool>::Some(false) && env_code(env) is Some && env_description(env) is Some
}

/// An integer member of the nested `parameters` object, if the envelope
/// carries one.  A missing object, a `parameters` member of another
/// shape, or a non-integer member all count as absent.
pub open spec fn env_param_i64(env: JsonView, key: Seq<char>) -> Option<i64> {
    match env_field(env, "parameters"@) {
        Option::Some(p) => match p {
            JsonView::Obj(entries) => match view_lookup(entries, key) {
                Option::Some(v) => view_as_i64(v),
                Option::None => Option::None,
            },
            _ => Option::None,
        },
        Option::None => Option::None,
    }
}

/// The rate-limit hint of a failure envelope, if any.
pub open spec fn env_retry_after(env: JsonView) -> Option<i64> {
    env_param_i64(env, "retry_after"@)
}

/// The supergroup-migration hint of a failure envelope, if any.
pub open spec fn env_migrate(env: JsonView) -> Option<i64> {
    env_param_i64(env, "migrate_to_chat_id"@)
}

/// The integer member named `key` of an object's members, if present and
/// integral.
fn obj_i64(fields: &Vec<(String, JsonValue)>, key: &str) -> (r: Option<i64>)
    ensures
        r == match view_lookup(dv_entries(fields@), key@) {
            Option::Some(v) => view_as_i64(v),
            Option::None => Option::<i64>::None,
        },
{
    proof {
        lemma_lookup_view(fields@, key@);
    }
    match find_field(fields, key) {
        Option::Some(i) => as_i64(&fields[i].1),
        Option::None => Option::None,
    }
}

/// Decode a parsed response envelope.
///
/// A well-formed success envelope yields its raw `result` value, and
/// nothing else does; a well-formed failure envelope yields the API error
/// with its code, description and the two optional hints, and nothing
/// else does; every other shape is a decode failure, a contract skew
/// between client and server.
pub fn decode_envelope(env: JsonValue) -> (r: Result<JsonValue, RequestError>)
    ensures
        ({
            let ev = env.dv();
            match r {
                Result::Ok(res) => env_success(ev)
                    && Option::Some(res.dv()) == env_field(ev, "result"@),
                Result::Err(e) => match e {
                    RequestError::Api { code, description, retry_after, migrate_to_chat_id } =>
                        env_failure(ev)
                        && Option::Some(code) == env_code(ev)
                        && Option::Some(description@) == env_description(ev)
                        && retry_after == env_retry_after(ev)
                        && migrate_to_chat_id == env_migrate(ev),
                    RequestError::Decode => !env_success(ev) && !env_failure(ev),
                    _ => false,
                },
            }
        }),
{
    let mut fields: Vec<(String, JsonValue)> = match env {
        JsonValue::Obj(f) => f,
        _ => {
            return Result::Err(RequestError::Decode);
        },
    };
    proof {
        lemma_lookup_view(fields@, "ok"@);
        lemma_lookup_view(fields@, "result"@);
        lemma_lookup_view(fields@, "error_code"@);
        lemma_lookup_view(fields@, "description"@);
        lemma_lookup_view(fields@, "parameters"@);
    }
    let is_ok: bool = match find_field(&fields, "ok") {
        Option::Some(i) => match &fields[i].1 {
            JsonValue::Bool(b) => *b,
            _ => {
                return Result::Err(RequestError::Decode);
            },
        },
        Option::None => {
            return Result::Err(RequestError::Decode);
        },
    };
    if is_ok {
        match find_field(&fields, "result") {
            Option::Some(i) => {
                let pair = fields.remove(i);
                Result::Ok(pair.1)
            },
            Option::None => Result::Err(RequestError::Decode),
        }
    } else {
        let code: i64 = match find_field(&fields, "error_code") {
            Option::Some(i) => match as_i64(&fields[i].1) {
                Option::Some(c) => c,
                Option::None => {
                    return Result::Err(RequestError::Decode);
                },
            },
            Option::None => {
                return Result::Err(RequestError::Decode);
            },
        };
        let hints: (Option<i64>, Option<i64>) = match find_field(&fields, "parameters") {
            Option::Some(pi) => match &fields[pi].1 {
                JsonValue::Obj(ps) => (obj_i64(ps, "retry_after"), obj_i64(ps, "migrate_to_chat_id")),
                _ => (Option::None, Option::None),
            },
            Option::None => (Option::None, Option::None),
        };
        let desc_idx: usize = match find_field(&fields, "description") {
            Option::Some(i) => i,
            Option::None => {
                return Result::Err(RequestError::Decode);
            },
        };
        let pair = fields.remove(desc_idx);
        let description: String = match pair.1 {
            JsonValue::Str(s) => s,
            _ => {
                return Result::Err(RequestError::Decode);
            },
        };
        Result::Err(RequestError::Api {
            code,
            description,
            retry_after: hints.0,
            migrate_to_chat_id: hints.1,
        })
    }
}

} // verus!
