use vstd::prelude::*;
use vstd::string::StringExecFns;

use crate::config::CloudflareAPI;
use crate::errors::CycleError;
use crate::json::{
    json_as_array, json_as_bool, json_as_i64, json_as_str, json_get, json_is_null, json_model,
    json_of, parse_json, JsonModel,
};
use crate::record::{
    empty_record_model, CloudflareDNSRecord, CloudflareError, CloudflareResp, ProviderErrorModel,
    RecordModel, RespModel,
};

verus! {

/// The record-collection query URL for a zone, filtered to address
/// records with the target name.
pub open spec fn list_url_model(zone_id: Seq<char>, record_name: Seq<char>) -> Seq<char> {
    "https://api.cloudflare.com/client/v4/zones/"@ + zone_id + "/dns_records?type=A&name="@
        + record_name
}

/// The single-record URL a partial update is sent to.
pub open spec fn update_url_model(zone_id: Seq<char>, record_id: Seq<char>) -> Seq<char> {
    "https://api.cloudflare.com/client/v4/zones/"@ + zone_id + "/dns_records/"@ + record_id
}

/// The JSON body of a partial update: only the new content field.
pub open spec fn update_body_model(new_ip: Seq<char>) -> Seq<char> {
    "{\"content\": \""@ + new_ip + "\"}"@
}

/// Builds the record-collection query URL for the configured zone and
/// record name.
pub fn list_url(config: &CloudflareAPI) -> (r: String)
    ensures
        r@ == list_url_model(config.zone_id@, config.dns_record_name@),
{
    let mut url = String::from_str("https://api.cloudflare.com/client/v4/zones/");
    url.append(config.zone_id.as_str());
    url.append("/dns_records?type=A&name=");
    url.append(config.dns_record_name.as_str());
    url
}

/// Builds the URL of the record a partial update is sent to.
pub fn update_url(config: &CloudflareAPI, record_id: &str) -> (r: String)
    ensures
        r@ == update_url_model(config.zone_id@, record_id@),
{
    let mut url = String::from_str("https://api.cloudflare.com/client/v4/zones/");
    url.append(config.zone_id.as_str());
    url.append("/dns_records/");
    url.append(record_id);
    url
}

/// Builds the JSON body of a partial update carrying only the new
/// record content.
pub fn update_body(new_ip: &str) -> (r: String)
    ensures
        r@ == update_body_model(new_ip@),
{
    let mut body = String::from_str("{\"content\": \"");
    body.append(new_ip);
    body.append("\"}");
    body
}

/// The three authentication headers every provider request carries, in
/// order: the account email, the secret key, and the JSON content type.
/// The embedding program only converts these pairs into its HTTP
/// client's header representation.
pub fn auth_headers(config: &CloudflareAPI) -> (r: Vec<(String, String)>)
    ensures
        r@.len() == 3,
        r@[0].0@ == "x-auth-email"@,
        r@[0].1@ == config.auth_email@,
        r@[1].0@ == "x-auth-key"@,
        r@[1].1@ == config.api_key@,
        r@[2].0@ == "content-type"@,
        r@[2].1@ == "application/json"@,
{
    let mut headers: Vec<(String, String)> = Vec::new();
    headers.push((String::from_str("x-auth-email"), config.auth_email.clone()));
    headers.push((String::from_str("x-auth-key"), config.api_key.clone()));
    headers.push((String::from_str("content-type"), String::from_str("application/json")));
    headers
}

/// The record a fetch settles on: the first match when the envelope
/// reports success and carries at least one record, the zero-value
/// record otherwise.
pub open spec fn selected_model(resp: RespModel) -> RecordModel {
    match resp.result {
        Some(records) => if resp.success && records.len() > 0 {
            records[0]
        } else {
            empty_record_model()
        },
        None => empty_record_model(),
    }
}

/// Picks the record a fetch returns: the first match on a successful,
/// non-empty envelope, and the zero-value record (empty identifier and
/// content) when the success flag is false or the list is absent or
/// empty.  The fallback is deliberate: a not-yet-existing record must
/// not fail the fetch.
pub fn select_record(resp: &CloudflareResp) -> (r: CloudflareDNSRecord)
    ensures
        r@ == selected_model(resp@),
{
    match &resp.result {
        Some(records) => {
            if resp.success && records.len() > 0 {
                records[0].clone()
            } else {
                CloudflareDNSRecord::default()
            }
        },
        None => CloudflareDNSRecord::default(),
    }
}

/// Whether a JSON object's fields hold one complete record: the four
/// record fields, each present and a string.
pub open spec fn record_fields_ok(fields: Map<Seq<char>, JsonModel>) -> bool {
    &&& fields.contains_key("id"@) && fields["id"@] is Str
    &&& fields.contains_key("type"@) && fields["type"@] is Str
    &&& fields.contains_key("name"@) && fields["name"@] is Str
    &&& fields.contains_key("content"@) && fields["content"@] is Str
}

/// The record a JSON object's fields hold; meaningful when they are
/// complete.
pub open spec fn record_from_fields(fields: Map<Seq<char>, JsonModel>) -> RecordModel {
    RecordModel {
        id: fields["id"@]->text,
        cf_type: fields["type"@]->text,
        name: fields["name"@]->text,
        content: fields["content"@]->text,
    }
}

/// The record a JSON document holds: `Some` exactly on an object whose
/// four record fields are present as strings.
pub open spec fn record_of_model(m: JsonModel) -> Option<RecordModel> {
    match m {
        JsonModel::Obj { fields } => if record_fields_ok(fields) {
            Some(record_from_fields(fields))
        } else {
            None
        },
        _ => None,
    }
}

/// Whether every element of a JSON array decodes as a record.
pub open spec fn record_seq_ok(items: Seq<JsonModel>) -> bool {
    forall|i: int| 0 <= i < items.len() ==> record_of_model(#[trigger] items[i]) is Some
}

/// The records a JSON array holds; meaningful when every element
/// decodes.
pub open spec fn record_seq_values(items: Seq<JsonModel>) -> Seq<RecordModel> {
    Seq::new(items.len(), |i: int| record_of_model(items[i])->Some_0)
}

/// Whether a JSON object's fields hold one provider error: a number
/// code fitting an `i64` and a string message.
pub open spec fn error_fields_ok(fields: Map<Seq<char>, JsonModel>) -> bool {
    &&& fields.contains_key("code"@) && (fields["code"@] matches JsonModel::Num { int_value }
        && int_value is Some)
    &&& fields.contains_key("message"@) && fields["message"@] is Str
}

/// The provider error a JSON object's fields hold; meaningful when
/// they are complete.
pub open spec fn error_from_fields(fields: Map<Seq<char>, JsonModel>) -> ProviderErrorModel {
    ProviderErrorModel {
        code: fields["code"@]->int_value->Some_0 as int,
        message: fields["message"@]->text,
    }
}

/// The provider error a JSON document holds: `Some` exactly on an
/// object with a number `code` and a string `message`.
pub open spec fn error_of_model(m: JsonModel) -> Option<ProviderErrorModel> {
    match m {
        JsonModel::Obj { fields } => if error_fields_ok(fields) {
            Some(error_from_fields(fields))
        } else {
            None
        },
        _ => None,
    }
}

/// Whether every element of a JSON array decodes as a provider error.
pub open spec fn error_seq_ok(items: Seq<JsonModel>) -> bool {
    forall|i: int| 0 <= i < items.len() ==> error_of_model(#[trigger] items[i]) is Some
}

/// The provider errors a JSON array holds; meaningful when every
/// element decodes.
pub open spec fn error_seq_values(items: Seq<JsonModel>) -> Seq<ProviderErrorModel> {
    Seq::new(items.len(), |i: int| error_of_model(items[i])->Some_0)
}

/// The error list a JSON document holds: `Some` exactly on an array of
/// complete error objects.
pub open spec fn errors_of_model(m: JsonModel) -> Option<Seq<ProviderErrorModel>> {
    match m {
        JsonModel::Arr { items } => if error_seq_ok(items) {
            Some(error_seq_values(items))
        } else {
            None
        },
        _ => None,
    }
}

/// Whether an envelope object carries its mandatory boolean success
/// flag.
pub open spec fn success_field_ok(fields: Map<Seq<char>, JsonModel>) -> bool {
    fields.contains_key("success"@) && fields["success"@] is Bool
}

/// Whether an envelope object's optional record list is acceptable:
/// absent, `null`, or an array of complete records.
pub open spec fn result_field_ok(fields: Map<Seq<char>, JsonModel>) -> bool {
    ||| !fields.contains_key("result"@)
    ||| fields["result"@] is Null
    ||| (fields["result"@] matches JsonModel::Arr { items } && record_seq_ok(items))
}

/// The record list an envelope object carries; `None` when the field
/// is absent or `null`.
pub open spec fn result_field_value(fields: Map<Seq<char>, JsonModel>) -> Option<
    Seq<RecordModel>,
> {
    if fields.contains_key("result"@) && fields["result"@] is Arr {
        Some(record_seq_values(fields["result"@]->items))
    } else {
        None
    }
}

/// Whether an envelope object's optional error list is acceptable:
/// absent, or an array of complete error objects.
pub open spec fn errors_field_ok(fields: Map<Seq<char>, JsonModel>) -> bool {
    ||| !fields.contains_key("errors"@)
    ||| errors_of_model(fields["errors"@]) is Some
}

/// The error list an envelope object carries; empty when the field is
/// absent.
pub open spec fn errors_field_value(fields: Map<Seq<char>, JsonModel>) -> Seq<
    ProviderErrorModel,
> {
    if fields.contains_key("errors"@) {
        errors_of_model(fields["errors"@])->Some_0
    } else {
        Seq::empty()
    }
}

/// The list-query envelope a JSON document holds: `Some` exactly on an
/// object with a boolean success flag, an acceptable optional record
/// list and an acceptable optional error list.
pub open spec fn envelope_of_model(m: JsonModel) -> Option<RespModel> {
    match m {
        JsonModel::Obj { fields } => if success_field_ok(fields) && result_field_ok(fields)
            && errors_field_ok(fields) {
            Some(
                RespModel {
                    success: fields["success"@]->value,
                    result: result_field_value(fields),
                    errors: errors_field_value(fields),
                },
            )
        } else {
            None
        },
        _ => None,
    }
}

/// The envelope a fetch response's text decodes to, if any: the parse
/// of the text, read as a list-query envelope.
pub open spec fn envelope_of(s: Seq<char>) -> Option<RespModel> {
    match json_of(s) {
        Some(doc) => envelope_of_model(doc),
        None => None,
    }
}

/// The update envelope a JSON document holds: as the list-query one,
/// but its result payload — single-record-shaped — is ignored.
pub open spec fn update_envelope_of_model(m: JsonModel) -> Option<RespModel> {
    match m {
        JsonModel::Obj { fields } => if success_field_ok(fields) && errors_field_ok(fields) {
            Some(
                RespModel {
                    success: fields["success"@]->value,
                    result: None,
                    errors: errors_field_value(fields),
                },
            )
        } else {
            None
        },
        _ => None,
    }
}

/// The envelope an update response's text decodes to, if any.
pub open spec fn update_envelope_of(s: Seq<char>) -> Option<RespModel> {
    match json_of(s) {
        Some(doc) => update_envelope_of_model(doc),
        None => None,
    }
}

/// Reads one record object out of a parsed JSON value.
fn record_of_value(v: &serde_json::Value) -> (r: Option<CloudflareDNSRecord>)
    ensures
        (match record_of_model(json_model(*v)) {
            Some(m) => r matches Some(record) && record@ == m,
            None => r is None,
        }),
{
    let id = match json_get(v, "id") {
        Some(field) => match json_as_str(field) {
            Some(text) => text.to_owned(),
            None => { return None; },
        },
        None => { return None; },
    };
    let cf_type = match json_get(v, "type") {
        Some(field) => match json_as_str(field) {
            Some(text) => text.to_owned(),
            None => { return None; },
        },
        None => { return None; },
    };
    let name = match json_get(v, "name") {
        Some(field) => match json_as_str(field) {
            Some(text) => text.to_owned(),
            None => { return None; },
        },
        None => { return None; },
    };
    let content = match json_get(v, "content") {
        Some(field) => match json_as_str(field) {
            Some(text) => text.to_owned(),
            None => { return None; },
        },
        None => { return None; },
    };
    Some(CloudflareDNSRecord { id, cf_type, name, content })
}

/// Reads the envelope's error list out of a parsed JSON value.
#[verifier::loop_isolation(false)]
fn errors_of_value(v: &serde_json::Value) -> (r: Option<Vec<CloudflareError>>)
    ensures
        (match errors_of_model(json_model(*v)) {
            Some(m) => r matches Some(errors) && errors.deep_view() == m,
            None => r is None,
        }),
{
    let items = match json_as_array(v) {
        Some(items) => items,
        None => { return None; },
    };
    let ghost item_models = json_model(*v)->items;
    let mut errors: Vec<CloudflareError> = Vec::new();
    let n = items.len();
    let mut i: usize = 0;
    while i < n
        invariant
            n == items@.len(),
            0 <= i <= n,
            item_models.len() == n,
            forall|j: int| 0 <= j < n ==> json_model(#[trigger] items@[j]) == item_models[j],
            errors@.len() == i,
            forall|j: int| 0 <= j < i ==> error_of_model(#[trigger] item_models[j]) is Some,
            forall|j: int|
                0 <= j < i ==> errors@[j]@ == error_of_model(#[trigger] item_models[j])->Some_0,
        decreases n - i,
    {
        let item = &items[i];
        let code = match json_get(item, "code") {
            Some(field) => match json_as_i64(field) {
                Some(code) => code,
                None => {
                    proof { assert(!error_seq_ok(item_models)); }
                    return None;
                },
            },
            None => {
                proof { assert(!error_seq_ok(item_models)); }
                return None;
            },
        };
        let message = match json_get(item, "message") {
            Some(field) => match json_as_str(field) {
                Some(text) => text.to_owned(),
                None => {
                    proof { assert(!error_seq_ok(item_models)); }
                    return None;
                },
            },
            None => {
                proof { assert(!error_seq_ok(item_models)); }
                return None;
            },
        };
        errors.push(CloudflareError { code, message });
        i = i + 1;
    }
    proof {
        assert(errors.deep_view() =~= error_seq_values(item_models));
    }
    Some(errors)
}

/// Reads a whole response envelope out of a parsed JSON value: the
/// mandatory success flag, the optional record list (absent or `null`
/// both mean no list) and the optional error list (absent means none
/// reported).
#[verifier::loop_isolation(false)]
fn envelope_of_value(v: &serde_json::Value) -> (r: Option<CloudflareResp>)
    ensures
        (match envelope_of_model(json_model(*v)) {
            Some(m) => r matches Some(resp) && resp@ == m,
            None => r is None,
        }),
{
    let success = match json_get(v, "success") {
        Some(field) => match json_as_bool(field) {
            Some(flag) => flag,
            None => { return None; },
        },
        None => { return None; },
    };
    let result: Option<Vec<CloudflareDNSRecord>> = match json_get(v, "result") {
        None => None,
        Some(field) => {
            if json_is_null(field) {
                None
            } else {
                let items = match json_as_array(field) {
                    Some(items) => items,
                    None => { return None; },
                };
                let ghost item_models = json_model(*field)->items;
                let mut records: Vec<CloudflareDNSRecord> = Vec::new();
                let n = items.len();
                let mut i: usize = 0;
                while i < n
                    invariant
                        n == items@.len(),
                        0 <= i <= n,
                        item_models.len() == n,
                        forall|j: int|
                            0 <= j < n ==> json_model(#[trigger] items@[j]) == item_models[j],
                        records@.len() == i,
                        forall|j: int|
                            0 <= j < i ==> record_of_model(#[trigger] item_models[j]) is Some,
                        forall|j: int|
                            0 <= j < i ==> records@[j]@ == record_of_model(
                                #[trigger] item_models[j],
                            )->Some_0,
                    decreases n - i,
                {
                    match record_of_value(&items[i]) {
                        Some(record) => records.push(record),
                        None => {
                            proof { assert(!record_seq_ok(item_models)); }
                            return None;
                        },
                    }
                    i = i + 1;
                }
                proof {
                    assert(records.deep_view() =~= record_seq_values(item_models));
                }
                Some(records)
            }
        },
    };
    let errors = match json_get(v, "errors") {
        Some(field) => match errors_of_value(field) {
            Some(errors) => errors,
            None => { return None; },
        },
        None => {
            let empty: Vec<CloudflareError> = Vec::new();
            proof {
                assert(empty.deep_view() =~= Seq::<ProviderErrorModel>::empty());
            }
            empty
        },
    };
    Some(CloudflareResp { success, result, errors })
}

/// Decodes the envelope of an update response.  Its result payload is
/// single-record-shaped and is deliberately not consumed: only the
/// success flag and the error list matter for an update's outcome.
/// Returns the envelope exactly when the text parses and has the
/// update envelope's shape, and a parse error otherwise.
pub fn decode_update_envelope(body: &str) -> (r: Result<CloudflareResp, CycleError>)
    ensures
        r matches Ok(resp) ==> update_envelope_of(body@) == Some(resp@),
        r is Err <==> update_envelope_of(body@) is None,
        r is Err ==> r == Err::<CloudflareResp, CycleError>(CycleError::ParseError),
{
    let v = match parse_json(body) {
        Ok(v) => v,
        Err(_) => { return Err(CycleError::ParseError); },
    };
    let success = match json_get(&v, "success") {
        Some(field) => match json_as_bool(field) {
            Some(flag) => flag,
            None => { return Err(CycleError::ParseError); },
        },
        None => { return Err(CycleError::ParseError); },
    };
    let errors = match json_get(&v, "errors") {
        Some(field) => match errors_of_value(field) {
            Some(errors) => errors,
            None => { return Err(CycleError::ParseError); },
        },
        None => {
            let empty: Vec<CloudflareError> = Vec::new();
            proof {
                assert(empty.deep_view() =~= Seq::<ProviderErrorModel>::empty());
            }
            empty
        },
    };
    Ok(CloudflareResp { success, result: None, errors })
}

/// Decodes a provider response body into an envelope: returns the
/// envelope exactly when the text is well-formed JSON of the
/// envelope's shape, and a parse error otherwise; no other error kind
/// is produced here.
pub fn decode_envelope(body: &str) -> (r: Result<CloudflareResp, CycleError>)
    ensures
        r matches Ok(resp) ==> envelope_of(body@) == Some(resp@),
        r is Err <==> envelope_of(body@) is None,
        r is Err ==> r == Err::<CloudflareResp, CycleError>(CycleError::ParseError),
{
    match parse_json(body) {
        Ok(v) => match envelope_of_value(&v) {
            Some(resp) => Ok(resp),
            None => Err(CycleError::ParseError),
        },
        Err(_) => Err(CycleError::ParseError),
    }
}

} // verus!
