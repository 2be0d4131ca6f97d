//! How a failed command is reported: the error's message, and the JSON object written
//! to standard error.
use crate::dates::digit_char;
use crate::errors::{ApiError, CliError};
use crate::models::validation_message;
use crate::output::{lookup, JsonValue};
use crate::text::owned;
use vstd::prelude::*;
use vstd::string::*;

verus! {

/// The decimal digits of `n`, most significant first, with no leading zeros.
pub open spec fn decimal_digits(n: nat) -> Seq<char>
    decreases n,
{
    if n < 10 {
        seq![digit_char(n as int)]
    } else {
        decimal_digits(n / 10).push(digit_char((n % 10) as int))
    }
}

/// What `reqwest::StatusCode`'s `Display` writes for a status: the code and its
/// canonical reason phrase, where it has one.
pub uninterp spec fn status_line(status: u16) -> Seq<char>;

/// Calls `reqwest::StatusCode::from_u16` and then `Display`, or writes the bare number
/// for a code outside 100 to 999. Trusted: the text is the one named by `status_line`.
#[verifier::external_body]
fn status_text(status: u16) -> (result: String)
    ensures
        result@ == status_line(status),
{
    match reqwest::StatusCode::from_u16(status) {
        Ok(code) => code.to_string(),
        Err(_) => status.to_string(),
    }
}

/// Calls `u64`'s `Display`. Trusted: it writes the number in decimal, as std documents.
#[verifier::external_body]
fn decimal_text(value: u64) -> (result: String)
    ensures
        result@ == decimal_digits(value as nat),
{
    value.to_string()
}

/// Calls `reqwest::Error`'s `Display`. Nothing is promised of the text.
#[verifier::external_body]
fn transport_text(error: &reqwest::Error) -> String {
    error.to_string()
}

/// Calls `serde_json::Error`'s `Display`. Nothing is promised of the text.
#[verifier::external_body]
fn json_error_text(error: &serde_json::Error) -> String {
    error.to_string()
}

/// Calls `std::io::Error`'s `Display`. Nothing is promised of the text.
#[verifier::external_body]
fn io_error_text(error: &std::io::Error) -> String {
    error.to_string()
}

/// The message of an API error, where it does not embed the text of an outside error;
/// for those it is the prefix the message starts with.
pub open spec fn api_message_spec(error: ApiError) -> Seq<char> {
    match error {
        ApiError::Transport(_) => "transport failure: "@,
        ApiError::Timeout => "request timed out"@,
        ApiError::Serialization(_) => "request serialization failed: "@,
        ApiError::Validation(v) => "request validation failed: "@ + validation_message(v),
        ApiError::InvalidBaseUrl => "request URL cannot accept path segments"@,
        ApiError::Decode { status, .. } => "response body could not be decoded for HTTP "@
            + status_line(status) + ": "@,
        ApiError::Response { status, name, detail, .. } => "API response "@ + status_line(status)
            + ": "@ + name@ + ": "@ + detail@,
    }
}

/// Whether the message is all of the error's own text, with no outside error's text
/// after it.
pub open spec fn api_message_is_whole(error: ApiError) -> bool {
    !(error is Transport || error is Serialization || error is Decode)
}

/// The message of an API error: exactly `api_message_spec`, or, where it embeds an
/// outside error's text, that prefix followed by the text.
pub fn api_message(error: &ApiError) -> (result: String)
    ensures
        api_message_is_whole(*error) ==> result@ == api_message_spec(*error),
        api_message_spec(*error).is_prefix_of(result@),
{
    let prefix = match error {
        ApiError::Transport(_) => owned("transport failure: "),
        ApiError::Timeout => owned("request timed out"),
        ApiError::Serialization(_) => owned("request serialization failed: "),
        ApiError::Validation(v) => owned("request validation failed: ").concat(v.message().as_str()),
        ApiError::InvalidBaseUrl => owned("request URL cannot accept path segments"),
        ApiError::Decode { status, .. } => owned(
            "response body could not be decoded for HTTP ",
        ).concat(status_text(*status).as_str()).concat(": "),
        ApiError::Response { status, name, detail, .. } => owned("API response ").concat(
            status_text(*status).as_str(),
        ).concat(": ").concat(name.as_str()).concat(": ").concat(detail.as_str()),
    };
    let ghost p = prefix@;
    assert(p.is_prefix_of(p)) by {
        assert(p.subrange(0, p.len() as int) =~= p);
    }
    let result = match error {
        ApiError::Transport(source) => prefix.concat(transport_text(source).as_str()),
        ApiError::Serialization(source) => prefix.concat(json_error_text(source).as_str()),
        ApiError::Decode { source, .. } => prefix.concat(json_error_text(source).as_str()),
        _ => prefix,
    };
    assert(p.is_prefix_of(result@)) by {
        assert(result@.subrange(0, p.len() as int) =~= p);
    }
    result
}

/// The text is the message of this error: its own text; the API error's message
/// (exactly, or its prefix followed by an outside error's text); or, for an I/O error,
/// that error's text, of which nothing is said.
pub open spec fn message_matches(error: CliError, text: Seq<char>) -> bool {
    match error {
        CliError::Invocation(m) => text == m@,
        CliError::Credentials(m) => text == m@,
        CliError::Local(m) => text == m@,
        CliError::Input(m) => text == m@,
        CliError::Api(e) => (api_message_is_whole(e) ==> text == api_message_spec(e))
            && api_message_spec(e).is_prefix_of(text),
        CliError::Io(_) => true,
    }
}

/// The message a failed command reports: its own text, or the API error's message, or
/// the I/O error's text.
pub fn error_message(error: &CliError) -> (result: String)
    ensures
        message_matches(*error, result@),
{
    match error {
        CliError::Invocation(m) | CliError::Credentials(m) | CliError::Local(m) | CliError::Input(
            m,
        ) => m.clone(),
        CliError::Api(e) => api_message(e),
        CliError::Io(e) => io_error_text(e),
    }
}

fn text_value(text: &str) -> (result: JsonValue)
    ensures
        result matches JsonValue::String(s) && s@ == text@,
{
    JsonValue::String(owned(text))
}

fn entry(key: &str, value: JsonValue) -> (result: (String, JsonValue))
    ensures
        result.0@ == key@,
        result.1 == value,
{
    (owned(key), value)
}

/// The field `key` of the object entries is a string with this text.
pub open spec fn has_text(entries: Seq<(String, JsonValue)>, key: Seq<char>, text: Seq<char>) -> bool {
    lookup(entries, key) matches Some(JsonValue::String(s)) && s@ == text
}

proof fn lemma_lookup_at(entries: Seq<(String, JsonValue)>, key: Seq<char>, n: int)
    requires
        0 <= n < entries.len(),
        entries[n].0@ == key,
        forall|i: int| 0 <= i < n ==> entries[i].0@ != key,
    ensures
        lookup(entries, key) == Some(entries[n].1),
    decreases n,
{
    if n > 0 {
        lemma_lookup_at(entries.drop_first(), key, n - 1);
    }
}

/// The fields of an error's report: for an error the API answered, `kind` `api`, the
/// `status`, the error's `id`, `name` and `detail`, and `retry_after_seconds` (each
/// `null` where absent); for any other error, its `kind` and `message`.
pub open spec fn report_fields(error: CliError, value: JsonValue) -> bool {
    match value {
        JsonValue::Object(fields) => match error {
            CliError::Api(ApiError::Response { status, id, name, detail, retry_after_secs }) => {
                &&& fields@.len() == 6
                &&& has_text(fields@, "kind"@, "api"@)
                &&& (lookup(fields@, "status"@) matches Some(JsonValue::Number(n)) && n@
                    == decimal_digits(status as nat))
                &&& match id {
                    Some(i) => has_text(fields@, "id"@, i@),
                    None => lookup(fields@, "id"@) == Some(JsonValue::Null),
                }
                &&& has_text(fields@, "name"@, name@)
                &&& has_text(fields@, "detail"@, detail@)
                &&& match retry_after_secs {
                    Some(secs) => lookup(fields@, "retry_after_seconds"@) matches Some(
                        JsonValue::Number(n),
                    ) && n@ == decimal_digits(secs as nat),
                    None => lookup(fields@, "retry_after_seconds"@) == Some(JsonValue::Null),
                }
            },
            _ => {
                &&& fields@.len() == 2
                &&& has_text(fields@, "kind"@, crate::errors::kind_of(error))
                &&& (lookup(fields@, "message"@) matches Some(JsonValue::String(m))
                    && message_matches(error, m@))
            },
        },
        _ => false,
    }
}

/// The error's report: an object with the single field `error`, holding the fields
/// `report_fields` describes.
pub fn error_report(error: &CliError) -> (result: JsonValue)
    ensures
        result matches JsonValue::Object(top) && top@.len() == 1 && top@[0].0@ == "error"@
            && report_fields(*error, top@[0].1),
{
    let kind = error.kind();
    let mut fields: Vec<(String, JsonValue)> = Vec::new();
    match error {
        CliError::Api(ApiError::Response { status, id, name, detail, retry_after_secs }) => {
            fields.push(entry("kind", text_value(kind)));
            fields.push(entry("status", JsonValue::Number(decimal_text(*status as u64))));
            let id_value = match id {
                Some(i) => text_value(i.as_str()),
                None => JsonValue::Null,
            };
            fields.push(entry("id", id_value));
            fields.push(entry("name", text_value(name.as_str())));
            fields.push(entry("detail", text_value(detail.as_str())));
            let retry_value = match retry_after_secs {
                Some(secs) => JsonValue::Number(decimal_text(*secs)),
                None => JsonValue::Null,
            };
            fields.push(entry("retry_after_seconds", retry_value));
            proof {
                reveal_strlit("kind");
                reveal_strlit("status");
                reveal_strlit("id");
                reveal_strlit("name");
                reveal_strlit("detail");
                reveal_strlit("retry_after_seconds");
                let f = fields@;
                assert(f[0].0@[0] == 'k' && "status"@[0] == 's' && "id"@[0] == 'i');
                assert(f[1].0@[0] == 's' && "name"@[0] == 'n' && "detail"@[0] == 'd');
                assert(f[2].0@[0] == 'i' && "retry_after_seconds"@[0] == 'r');
                assert(f[3].0@[0] == 'n' && f[4].0@[0] == 'd');
                lemma_lookup_at(f, "kind"@, 0);
                lemma_lookup_at(f, "status"@, 1);
                lemma_lookup_at(f, "id"@, 2);
                lemma_lookup_at(f, "name"@, 3);
                lemma_lookup_at(f, "detail"@, 4);
                lemma_lookup_at(f, "retry_after_seconds"@, 5);
            }
        },
        _ => {
            fields.push(entry("kind", text_value(kind)));
            fields.push(entry("message", JsonValue::String(error_message(error))));
            proof {
                reveal_strlit("kind");
                reveal_strlit("message");
                let f = fields@;
                assert(f[0].0@[0] == 'k' && "message"@[0] == 'm');
                lemma_lookup_at(f, "kind"@, 0);
                lemma_lookup_at(f, "message"@, 1);
            }
        },
    }
    let mut top: Vec<(String, JsonValue)> = Vec::new();
    top.push(entry("error", JsonValue::Object(fields)));
    JsonValue::Object(top)
}

} // verus!
