//! The network-address lookup: what the bot answers given the outcome
//! of the primary request and, when that fails, of the alternate one.
//!
//! The HTTP requests themselves are performed by the caller; this
//! module receives their outcomes as plain values and decides the
//! user-visible string. JSON bodies are read through serde_json.

use vstd::prelude::*;
use vstd::string::StringExecFns;

verus! {

/// How one HTTP request ended, as the lookup logic sees it: the
/// transport failed, the status was not a success, or a successful
/// status arrived with this body text.
pub enum HttpOutcome {
    TransportError,
    BadStatus,
    Body(String),
}

/// The JSON shape of the primary lookup service's answer.
pub struct IpResponse {
    pub ip: String,
}

/// What reading the top-level string field `ip` of a JSON body
/// yields: `None` when the body is not a JSON object with a string
/// field `ip`. A function of the body text alone.
pub uninterp spec fn ip_field_of(s: Seq<char>) -> Option<Seq<char>>;

/// What reading the top-level string field `origin` of a JSON body
/// yields: `None` when the body is not JSON at all, `Some(None)` when
/// it is JSON without a string field `origin`, and `Some(Some(o))`
/// when the field holds `o`. A function of the body text alone.
pub uninterp spec fn origin_field_of(s: Seq<char>) -> Option<Option<Seq<char>>>;

/// Relies on serde_json's `from_str::<Value>` with `Value::get` and
/// `Value::as_str`: parses the body as JSON and reads the top-level
/// string field `ip`; the result depends on the body text alone.
#[verifier::external_body]
fn extract_ip_field(body: &str) -> (r: Option<IpResponse>)
    ensures
        match r {
            Option::Some(p) => ip_field_of(body@) == Option::Some(p.ip@),
            Option::None => ip_field_of(body@) is None,
        },
{
    match serde_json::from_str::<serde_json::Value>(body) {
        Ok(v) => v.get("ip").and_then(|f| f.as_str()).map(
            |s|
                IpResponse { ip: s.to_string() },
        ),
        Err(_) => None,
    }
}

/// The three ways reading a string field out of a body can end.
pub enum FieldLookup {
    NotJson,
    Missing,
    Found(String),
}

/// Relies on serde_json's `from_str::<Value>` with `Value::get` and
/// `Value::as_str`: parses the body as JSON and reads the top-level
/// string field `origin`, telling a body that is not JSON apart from
/// one without the field; the result depends on the body text alone.
#[verifier::external_body]
fn extract_origin_field(body: &str) -> (r: FieldLookup)
    ensures
        match r {
            FieldLookup::NotJson => origin_field_of(body@) is None,
            FieldLookup::Missing => origin_field_of(body@) == Option::Some(
                Option::None::<Seq<char>>,
            ),
            FieldLookup::Found(o) => origin_field_of(body@) == Option::Some(
                Option::Some(o@),
            ),
        },
{
    match serde_json::from_str::<serde_json::Value>(body) {
        Err(_) => FieldLookup::NotJson,
        Ok(v) => match v.get("origin").and_then(|f| f.as_str()) {
            Some(s) => FieldLookup::Found(s.to_string()),
            None => FieldLookup::Missing,
        },
    }
}

/// The string the alternate lookup answers for a given outcome.
pub open spec fn alternate_lookup_result(outcome: HttpOutcome) -> Seq<char> {
    match outcome {
        HttpOutcome::TransportError => "Ошибка соединения с альтернативным сервисом"@,
        HttpOutcome::BadStatus => "Ошибка при альтернативном запросе"@,
        HttpOutcome::Body(body) => match origin_field_of(body@) {
            Option::None => "Ошибка при обработке альтернативного ответа"@,
            Option::Some(Option::None) => "Не удалось получить IP-адрес из ответа"@,
            Option::Some(Option::Some(origin)) => origin,
        },
    }
}

/// What the primary answer alone settles: a final string, or the
/// order to try the alternate service.
pub enum PrimaryStep {
    Resolved(String),
    TryAlternate,
}

/// The string a primary body settles: its `ip` field, or the
/// processing-failure message when the body has none.
pub open spec fn primary_body_result(body: Seq<char>) -> Seq<char> {
    match ip_field_of(body) {
        Option::Some(ip) => ip,
        Option::None => "Ошибка при обработке ответа"@,
    }
}

/// The string the whole lookup answers: the primary body decides when
/// one arrived; otherwise the alternate outcome does.
pub open spec fn lookup_result(primary: HttpOutcome, alternate: HttpOutcome) -> Seq<char> {
    match primary {
        HttpOutcome::Body(body) => primary_body_result(body@),
        _ => alternate_lookup_result(alternate),
    }
}

/// Decide from the primary outcome alone: a body answers at once
/// (its `ip` field, or the parse-failure string); a transport error
/// or a bad status sends the caller to the alternate service.
pub fn primary_lookup_step(primary: HttpOutcome) -> (r: PrimaryStep)
    ensures
        match r {
            PrimaryStep::Resolved(s) => primary matches HttpOutcome::Body(body) && s@
                == primary_body_result(body@),
            PrimaryStep::TryAlternate => !(primary matches HttpOutcome::Body(_)),
        },
{
    match primary {
        HttpOutcome::Body(body) => match extract_ip_field(body.as_str()) {
            Some(p) => PrimaryStep::Resolved(p.ip),
            None => PrimaryStep::Resolved(String::from_str("Ошибка при обработке ответа")),
        },
        _ => PrimaryStep::TryAlternate,
    }
}

/// Answer of the alternate lookup service, exactly as
/// `alternate_lookup_result` describes.
pub fn get_ip_address_alternative(outcome: HttpOutcome) -> (r: String)
    ensures
        r@ == alternate_lookup_result(outcome),
{
    match outcome {
        HttpOutcome::TransportError => String::from_str(
            "Ошибка соединения с альтернативным сервисом",
        ),
        HttpOutcome::BadStatus => String::from_str("Ошибка при альтернативном запросе"),
        HttpOutcome::Body(body) => match extract_origin_field(body.as_str()) {
            FieldLookup::NotJson => String::from_str("Ошибка при обработке альтернативного ответа"),
            FieldLookup::Missing => String::from_str("Не удалось получить IP-адрес из ответа"),
            FieldLookup::Found(origin) => origin,
        },
    }
}

/// The whole two-step lookup on the outcomes of both requests: never
/// an error, always the string `lookup_result` describes. The
/// alternate outcome matters only when the primary request brought no
/// body.
pub fn get_ip_address(primary: HttpOutcome, alternate: HttpOutcome) -> (r: String)
    ensures
        r@ == lookup_result(primary, alternate),
{
    match primary_lookup_step(primary) {
        PrimaryStep::Resolved(s) => s,
        PrimaryStep::TryAlternate => get_ip_address_alternative(alternate),
    }
}

} // verus!
