//! The authorization gate and the interaction controller: which
//! platform calls the bot makes for each incoming event. The calls
//! themselves (sending a message, acknowledging a button press) are
//! performed by the caller, in the order this module lays them out.

use vstd::prelude::*;
use vstd::string::StrSliceExecFns;
use vstd::string::StringExecFns;
use crate::decimal::i32_to_string;
use crate::decimal::int_str;
use crate::random::opt_text_view;

verus! {

/// The tag carried by a button press, after classification.
///
/// The two recognized payloads are `get_ip` and `get_random`; every
/// other payload is `Unknown`, which is handled gracefully rather
/// than treated as an error.
#[derive(Clone, Copy, PartialEq, Eq, Structural, Debug)]
pub enum CallbackAction {
    GetIp,
    GetRandom,
    Unknown,
}

/// One button of an inline keyboard: a visible label and the opaque
/// payload echoed back when the button is pressed.
#[derive(Debug, PartialEq)]
pub struct Button {
    pub label: String,
    pub payload: String,
}

/// An inline keyboard: rows of buttons.
#[derive(Debug, PartialEq)]
pub struct Keyboard {
    pub rows: Vec<Vec<Button>>,
}

/// One outbound text message, optionally carrying a keyboard.
#[derive(Debug, PartialEq)]
pub struct OutboundMessage {
    pub text: String,
    pub keyboard: Option<Keyboard>,
}

/// One platform call the controller orders: send a message, or
/// acknowledge the pending button press.
#[derive(Debug, PartialEq)]
pub enum BotCall {
    Send(OutboundMessage),
    Acknowledge,
}

/// Character-for-character equality of two string slices.
pub fn str_eq(a: &str, b: &str) -> (r: bool)
    ensures
        r == (a@ == b@),
{
    let n = a.unicode_len();
    if n != b.unicode_len() {
        return false;
    }
    let mut i: usize = 0;
    while i < n
        invariant
            n == a@.len(),
            n == b@.len(),
            i <= n,
            forall|j: int| 0 <= j < i ==> a@[j] == b@[j],
        decreases n - i,
    {
        let ca = a.get_char(i);
        let cb = b.get_char(i);
        if ca != cb {
            return false;
        }
        i = i + 1;
    }
    proof {
        assert(a@ =~= b@);
    }
    true
}

/// The action a payload names.
pub open spec fn action_of(payload: Seq<char>) -> CallbackAction {
    if payload == "get_ip"@ {
        CallbackAction::GetIp
    } else if payload == "get_random"@ {
        CallbackAction::GetRandom
    } else {
        CallbackAction::Unknown
    }
}

/// Classify a button-press payload.
pub fn classify_payload(payload: &str) -> (r: CallbackAction)
    ensures
        r == action_of(payload@),
{
    if str_eq(payload, "get_ip") {
        CallbackAction::GetIp
    } else if str_eq(payload, "get_random") {
        CallbackAction::GetRandom
    } else {
        CallbackAction::Unknown
    }
}

/// What authorization and the payload make of a button press: only
/// acknowledge it, or acknowledge after dispatching an action.
#[derive(Clone, Copy, PartialEq, Eq, Structural, Debug)]
pub enum CallbackDecision {
    AckOnly,
    Dispatch(CallbackAction),
}

/// The decision for a button press: without an attached message, or
/// from a chat other than the allowed one, or without a payload, the
/// press is only acknowledged; otherwise its payload's action runs.
pub open spec fn callback_decision_of(
    message_chat: Option<i64>,
    allowed_chat: i64,
    payload: Option<Seq<char>>,
) -> CallbackDecision {
    match message_chat {
        Option::None => CallbackDecision::AckOnly,
        Option::Some(chat) => if chat != allowed_chat {
            CallbackDecision::AckOnly
        } else {
            match payload {
                Option::None => CallbackDecision::AckOnly,
                Option::Some(p) => CallbackDecision::Dispatch(action_of(p)),
            }
        },
    }
}

/// Decide what to do with a button press. `message_chat` is the chat
/// identifier of the message the press is attached to, when there is
/// one; `payload` is the press's payload, when there is one.
pub fn callback_decision(message_chat: Option<i64>, allowed_chat: i64, payload: Option<&str>) -> (r:
    CallbackDecision)
    ensures
        r == callback_decision_of(message_chat, allowed_chat, opt_text_view(payload)),
{
    match message_chat {
        None => CallbackDecision::AckOnly,
        Some(chat) => {
            if chat != allowed_chat {
                CallbackDecision::AckOnly
            } else {
                match payload {
                    None => CallbackDecision::AckOnly,
                    Some(p) => CallbackDecision::Dispatch(classify_payload(p)),
                }
            }
        },
    }
}

/// The two-button keyboard the bot always offers.
pub open spec fn is_action_keyboard(k: Keyboard) -> bool {
    &&& k.rows@.len() == 1
    &&& k.rows@[0]@.len() == 2
    &&& k.rows@[0]@[0].label@ == "Получить IP"@
    &&& k.rows@[0]@[0].payload@ == "get_ip"@
    &&& k.rows@[0]@[1].label@ == "Случайное число"@
    &&& k.rows@[0]@[1].payload@ == "get_random"@
}

/// Build the keyboard: one row, a lookup button and a random-number
/// button.
pub fn create_keyboard() -> (r: Keyboard)
    ensures
        is_action_keyboard(r),
{
    let mut row: Vec<Button> = Vec::new();
    row.push(
        Button { label: String::from_str("Получить IP"), payload: String::from_str("get_ip") },
    );
    row.push(
        Button {
            label: String::from_str("Случайное число"),
            payload: String::from_str("get_random"),
        },
    );
    let mut rows: Vec<Vec<Button>> = Vec::new();
    rows.push(row);
    Keyboard { rows }
}

/// The fixed prompt with the action keyboard.
pub open spec fn is_prompt(m: OutboundMessage) -> bool {
    &&& m.text@ == "Выберите действие:"@
    &&& m.keyboard matches Option::Some(k) && is_action_keyboard(k)
}

/// Build the prompt message that is sent after every action.
pub fn prompt_message() -> (r: OutboundMessage)
    ensures
        is_prompt(r),
{
    OutboundMessage {
        text: String::from_str("Выберите действие:"),
        keyboard: Some(create_keyboard()),
    }
}

/// The calls a plain message provokes: nothing at all from a chat
/// other than the allowed one, the prompt with the keyboard from the
/// allowed one.
pub fn message_response(chat: i64, allowed_chat: i64) -> (r: Vec<BotCall>)
    ensures
        chat != allowed_chat ==> r@.len() == 0,
        chat == allowed_chat ==> r@.len() == 1 && (r@[0] matches BotCall::Send(m) && is_prompt(m)),
{
    let mut calls: Vec<BotCall> = Vec::new();
    if chat == allowed_chat {
        calls.push(BotCall::Send(prompt_message()));
    }
    calls
}

/// What a dispatched action came back with: the lookup's string, the
/// drawn number, or nothing because the payload was unknown.
#[derive(Debug, PartialEq)]
pub enum ActionOutcome {
    IpText(String),
    RandomNumber(i32),
    UnknownPayload,
}

/// The text of the first message sent back for an action's outcome.
pub open spec fn reply_text_of(outcome: ActionOutcome) -> Seq<char> {
    match outcome {
        ActionOutcome::IpText(ip) => "Ваш IP-адрес: "@ + ip@,
        ActionOutcome::RandomNumber(n) => "Случайное число: "@ + int_str(n as int),
        ActionOutcome::UnknownPayload => "Неизвестная команда"@,
    }
}

/// The calls a dispatched button press provokes, in order: the reply
/// for the action's outcome, then the prompt with the keyboard, then
/// exactly one acknowledgment.
pub fn callback_response(outcome: ActionOutcome) -> (r: Vec<BotCall>)
    ensures
        r@.len() == 3,
        r@[0] matches BotCall::Send(m) && m.text@ == reply_text_of(outcome) && m.keyboard is None,
        r@[1] matches BotCall::Send(m) && is_prompt(m),
        r@[2] is Acknowledge,
{
    let text: String = match &outcome {
        ActionOutcome::IpText(ip) => String::from_str("Ваш IP-адрес: ").concat(ip.as_str()),
        ActionOutcome::RandomNumber(n) => String::from_str("Случайное число: ").concat(
            i32_to_string(*n).as_str(),
        ),
        ActionOutcome::UnknownPayload => String::from_str("Неизвестная команда"),
    };
    let mut calls: Vec<BotCall> = Vec::new();
    calls.push(BotCall::Send(OutboundMessage { text, keyboard: None }));
    calls.push(BotCall::Send(prompt_message()));
    calls.push(BotCall::Acknowledge);
    calls
}

/// The calls of a button press that is unauthorized or has no
/// payload: exactly one acknowledgment and nothing else.
pub fn ack_only_response() -> (r: Vec<BotCall>)
    ensures
        r@.len() == 1,
        r@[0] is Acknowledge,
{
    let mut calls: Vec<BotCall> = Vec::new();
    calls.push(BotCall::Acknowledge);
    calls
}

/// A button press without an attached message, or attached to a chat
/// other than the allowed one, is only acknowledged, whatever its
/// payload.
pub proof fn lemma_unauthorized_callback_ack_only(
    message_chat: Option<i64>,
    allowed_chat: i64,
    payload: Option<Seq<char>>,
)
    requires
        message_chat is None || message_chat != Option::Some(allowed_chat),
    ensures
        callback_decision_of(message_chat, allowed_chat, payload) == CallbackDecision::AckOnly,
{
}

/// An authorized press whose payload is `get_ip` is always dispatched
/// to the address lookup; `callback_response` then orders the address
/// reply, the prompt, and one acknowledgment, in that order.
pub proof fn lemma_authorized_get_ip_dispatched(allowed_chat: i64, payload: Seq<char>)
    requires
        payload == "get_ip"@,
    ensures
        callback_decision_of(Option::Some(allowed_chat), allowed_chat, Option::Some(payload))
            == CallbackDecision::Dispatch(CallbackAction::GetIp),
{
}

/// An authorized press with a payload naming neither action is
/// dispatched as `Unknown`, never dropped: `callback_response` then
/// orders the unknown-command reply, the prompt, and one
/// acknowledgment.
pub proof fn lemma_unrecognized_payload_dispatched(allowed_chat: i64, payload: Seq<char>)
    requires
        payload != "get_ip"@,
        payload != "get_random"@,
    ensures
        callback_decision_of(Option::Some(allowed_chat), allowed_chat, Option::Some(payload))
            == CallbackDecision::Dispatch(CallbackAction::Unknown),
{
}

} // verus!
