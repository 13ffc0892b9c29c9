use vstd::prelude::*;
use vstd::string::StringExecFns;

use crate::codec::{
    decode_record, encode_record, encode_records, json_of_record, json_of_records, json_record_of,
    str_eq,
};
use crate::record::{valid_title, Record, RecordModel};
use crate::store::{first_match, has_title, Store};

verus! {

/// What a request is answered with: a status code, a body, and whether
/// the body is JSON (and is to be sent under a JSON content type)
/// rather than plain text.
pub struct Response {
    pub status: u16,
    pub body: String,
    pub json: bool,
}

/// The mathematical value of a [`Response`].
#[verifier::ext_equal]
pub ghost struct ResponseModel {
    pub status: u16,
    pub body: Seq<char>,
    pub json: bool,
}

impl View for Response {
    type V = ResponseModel;

    open spec fn view(&self) -> ResponseModel {
        ResponseModel { status: self.status, body: self.body@, json: self.json }
    }
}

/// The answer when no method and path pair matches.
pub open spec fn route_not_found_resp() -> ResponseModel {
    ResponseModel { status: 404, body: "Not Found"@, json: false }
}

/// The answer when the record to update or delete does not exist.
pub open spec fn missing_record_resp() -> ResponseModel {
    ResponseModel { status: 404, body: "Todo not found"@, json: false }
}

/// The answer when the request body does not describe a record.
pub open spec fn decode_error_resp() -> ResponseModel {
    ResponseModel { status: 400, body: "Malformed request body"@, json: false }
}

/// The answer when the record's title breaks the validation rule.
pub open spec fn validation_error_resp() -> ResponseModel {
    ResponseModel {
        status: 400,
        body: "Validation error: title must have between 1 and 100 characters"@,
        json: false,
    }
}

/// What creating from `body` does to a store holding `s`: decode, then
/// validate, then append; a decode or validation failure answers 400
/// and leaves the store untouched.
pub open spec fn spec_create(body: Seq<u8>, s: Seq<RecordModel>) -> (ResponseModel, Seq<
    RecordModel,
>) {
    match json_record_of(body) {
        Option::None => (decode_error_resp(), s),
        Option::Some((title, completed)) => {
            if !valid_title(title) {
                (validation_error_resp(), s)
            } else {
                (
                    ResponseModel {
                        status: 200,
                        body: json_of_record(title, completed),
                        json: true,
                    },
                    s.push(RecordModel { title, completed }),
                )
            }
        },
    }
}

/// What listing answers on a store holding `s`: the records as a JSON
/// array, in insertion order; the store is untouched.
pub open spec fn spec_list(s: Seq<RecordModel>) -> (ResponseModel, Seq<RecordModel>) {
    (ResponseModel { status: 200, body: json_of_records(s), json: true }, s)
}

/// What updating from `body` does to a store holding `s`: decode, then
/// validate, then replace the first record carrying the decoded title,
/// in place; answers 404 when no record carries it.
pub open spec fn spec_update(body: Seq<u8>, s: Seq<RecordModel>) -> (ResponseModel, Seq<
    RecordModel,
>) {
    match json_record_of(body) {
        Option::None => (decode_error_resp(), s),
        Option::Some((title, completed)) => {
            if !valid_title(title) {
                (validation_error_resp(), s)
            } else if !has_title(s, title) {
                (missing_record_resp(), s)
            } else {
                (
                    ResponseModel {
                        status: 200,
                        body: json_of_record(title, completed),
                        json: true,
                    },
                    s.update(first_match(s, title), RecordModel { title, completed }),
                )
            }
        },
    }
}

/// What deleting from `body` does to a store holding `s`: decode, then
/// remove the first record carrying the decoded title; the decoded
/// completion flag plays no part, and no validation is made. Answers
/// 404 when no record carries the title.
pub open spec fn spec_delete(body: Seq<u8>, s: Seq<RecordModel>) -> (ResponseModel, Seq<
    RecordModel,
>) {
    match json_record_of(body) {
        Option::None => (decode_error_resp(), s),
        Option::Some((title, completed)) => {
            if !has_title(s, title) {
                (missing_record_resp(), s)
            } else {
                (
                    ResponseModel { status: 200, body: Seq::<char>::empty(), json: false },
                    s.remove(first_match(s, title)),
                )
            }
        },
    }
}

/// The dispatch table: what a request with the given method, path and
/// body does to a store holding `s`, and what it answers. Paths match
/// exactly and case-sensitively; any pair outside the table answers
/// 404.
pub open spec fn spec_route(
    method: Seq<char>,
    path: Seq<char>,
    body: Seq<u8>,
    s: Seq<RecordModel>,
) -> (ResponseModel, Seq<RecordModel>) {
    if path != "/todos"@ {
        (route_not_found_resp(), s)
    } else if method == "POST"@ {
        spec_create(body, s)
    } else if method == "GET"@ {
        spec_list(s)
    } else if method == "PUT"@ {
        spec_update(body, s)
    } else if method == "DELETE"@ {
        spec_delete(body, s)
    } else {
        (route_not_found_resp(), s)
    }
}

fn route_not_found_response() -> (resp: Response)
    ensures
        resp@ == route_not_found_resp(),
{
    Response { status: 404, body: String::from_str("Not Found"), json: false }
}

fn missing_record_response() -> (resp: Response)
    ensures
        resp@ == missing_record_resp(),
{
    Response { status: 404, body: String::from_str("Todo not found"), json: false }
}

fn decode_error_response() -> (resp: Response)
    ensures
        resp@ == decode_error_resp(),
{
    Response { status: 400, body: String::from_str("Malformed request body"), json: false }
}

fn validation_error_response() -> (resp: Response)
    ensures
        resp@ == validation_error_resp(),
{
    Response {
        status: 400,
        body: String::from_str("Validation error: title must have between 1 and 100 characters"),
        json: false,
    }
}

/// Creates a record from the request body: decode, validate, append.
pub fn handle_create(store: &mut Store, body: &[u8]) -> (resp: Response)
    ensures
        resp@ == spec_create(body@, old(store)@).0,
        final(store)@ == spec_create(body@, old(store)@).1,
        old(store).wf() ==> final(store).wf(),
{
    match decode_record(body) {
        Option::None => decode_error_response(),
        Option::Some(r) => {
            if !r.validate() {
                validation_error_response()
            } else {
                let stored = store.create(r);
                let text = encode_record(&stored.title, stored.completed);
                Response { status: 200, body: text, json: true }
            }
        },
    }
}

/// Answers the current records as a JSON array, in insertion order.
pub fn handle_list(store: &Store) -> (resp: Response)
    ensures
        resp@ == spec_list(store@).0,
{
    let snapshot = store.list();
    let text = encode_records(&snapshot);
    Response { status: 200, body: text, json: true }
}

/// Updates the first record carrying the decoded title: decode,
/// validate, replace in place.
pub fn handle_update(store: &mut Store, body: &[u8]) -> (resp: Response)
    ensures
        resp@ == spec_update(body@, old(store)@).0,
        final(store)@ == spec_update(body@, old(store)@).1,
        old(store).wf() ==> final(store).wf(),
{
    match decode_record(body) {
        Option::None => decode_error_response(),
        Option::Some(r) => {
            if !r.validate() {
                validation_error_response()
            } else {
                match store.update(r) {
                    Option::None => missing_record_response(),
                    Option::Some(updated) => {
                        let text = encode_record(&updated.title, updated.completed);
                        Response { status: 200, body: text, json: true }
                    },
                }
            }
        },
    }
}

/// Deletes the first record carrying the decoded title; no validation
/// of the body beyond decoding it.
pub fn handle_delete(store: &mut Store, body: &[u8]) -> (resp: Response)
    ensures
        resp@ == spec_delete(body@, old(store)@).0,
        final(store)@ == spec_delete(body@, old(store)@).1,
        old(store).wf() ==> final(store).wf(),
{
    match decode_record(body) {
        Option::None => decode_error_response(),
        Option::Some(r) => {
            if store.delete(&r) {
                Response { status: 200, body: String::new(), json: false }
            } else {
                missing_record_response()
            }
        },
    }
}

/// Routes one request: matches the method and path, decodes and
/// validates where the table asks for it, performs the store operation,
/// and encodes the answer. The whole call holds exclusive access to the
/// store, so no two requests interleave their effects.
pub fn handle_request(store: &mut Store, method: &str, path: &str, body: &[u8]) -> (resp: Response)
    ensures
        resp@ == spec_route(method@, path@, body@, old(store)@).0,
        final(store)@ == spec_route(method@, path@, body@, old(store)@).1,
        old(store).wf() ==> final(store).wf(),
{
    if !str_eq(path, "/todos") {
        route_not_found_response()
    } else if str_eq(method, "POST") {
        handle_create(store, body)
    } else if str_eq(method, "GET") {
        handle_list(&*store)
    } else if str_eq(method, "PUT") {
        handle_update(store, body)
    } else if str_eq(method, "DELETE") {
        handle_delete(store, body)
    } else {
        route_not_found_response()
    }
}

} // verus!
