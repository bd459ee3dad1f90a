use ip_random_bot::controller::ack_only_response;
use ip_random_bot::controller::callback_decision;
use ip_random_bot::controller::callback_response;
use ip_random_bot::controller::classify_payload;
use ip_random_bot::controller::create_keyboard;
use ip_random_bot::controller::message_response;
use ip_random_bot::controller::ActionOutcome;
use ip_random_bot::controller::BotCall;
use ip_random_bot::controller::CallbackAction;
use ip_random_bot::controller::CallbackDecision;

const ALLOWED: i64 = 123456789;

#[test]
fn keyboard_has_one_row_with_the_two_buttons() {
    let k = create_keyboard();
    assert_eq!(k.rows.len(), 1);
    assert_eq!(k.rows[0].len(), 2);
    assert_eq!(k.rows[0][0].label, "Получить IP");
    assert_eq!(k.rows[0][0].payload, "get_ip");
    assert_eq!(k.rows[0][1].label, "Случайное число");
    assert_eq!(k.rows[0][1].payload, "get_random");
}

#[test]
fn classify_recognizes_both_payloads() {
    assert_eq!(classify_payload("get_ip"), CallbackAction::GetIp);
    assert_eq!(classify_payload("get_random"), CallbackAction::GetRandom);
    assert_eq!(classify_payload("foo"), CallbackAction::Unknown);
    assert_eq!(classify_payload(""), CallbackAction::Unknown);
}

#[test]
fn unauthorized_message_sends_nothing() {
    let calls = message_response(ALLOWED + 1, ALLOWED);
    assert!(calls.is_empty());
}

#[test]
fn authorized_message_sends_the_prompt_with_keyboard() {
    let calls = message_response(ALLOWED, ALLOWED);
    assert_eq!(calls.len(), 1);
    match &calls[0] {
        BotCall::Send(m) => {
            assert_eq!(m.text, "Выберите действие:");
            let k = m.keyboard.as_ref().expect("the prompt carries the keyboard");
            assert_eq!(k.rows[0][0].payload, "get_ip");
            assert_eq!(k.rows[0][1].payload, "get_random");
        }
        BotCall::Acknowledge => panic!("a message needs no acknowledgment"),
    }
}

#[test]
fn callback_without_message_is_only_acknowledged() {
    let d = callback_decision(None, ALLOWED, Some("get_ip"));
    assert_eq!(d, CallbackDecision::AckOnly);
}

#[test]
fn callback_from_wrong_chat_is_only_acknowledged() {
    let d = callback_decision(Some(ALLOWED + 1), ALLOWED, Some("get_ip"));
    assert_eq!(d, CallbackDecision::AckOnly);
}

#[test]
fn callback_without_payload_is_only_acknowledged() {
    let d = callback_decision(Some(ALLOWED), ALLOWED, None);
    assert_eq!(d, CallbackDecision::AckOnly);
}

#[test]
fn authorized_get_ip_is_dispatched() {
    let d = callback_decision(Some(ALLOWED), ALLOWED, Some("get_ip"));
    assert_eq!(d, CallbackDecision::Dispatch(CallbackAction::GetIp));
}

#[test]
fn authorized_unknown_payload_is_dispatched_as_unknown() {
    let d = callback_decision(Some(ALLOWED), ALLOWED, Some("foo"));
    assert_eq!(d, CallbackDecision::Dispatch(CallbackAction::Unknown));
}

#[test]
fn get_ip_response_is_reply_then_prompt_then_ack() {
    let calls = callback_response(ActionOutcome::IpText("203.0.113.5".to_string()));
    assert_eq!(calls.len(), 3);
    match &calls[0] {
        BotCall::Send(m) => {
            assert_eq!(m.text, "Ваш IP-адрес: 203.0.113.5");
            assert!(m.keyboard.is_none());
        }
        BotCall::Acknowledge => panic!("the reply comes first"),
    }
    match &calls[1] {
        BotCall::Send(m) => {
            assert_eq!(m.text, "Выберите действие:");
            assert!(m.keyboard.is_some());
        }
        BotCall::Acknowledge => panic!("the prompt comes second"),
    }
    assert_eq!(calls[2], BotCall::Acknowledge);
    let acks = calls
        .iter()
        .filter(|c| matches!(c, BotCall::Acknowledge))
        .count();
    assert_eq!(acks, 1);
}

#[test]
fn random_number_response_renders_the_number() {
    let calls = callback_response(ActionOutcome::RandomNumber(42));
    match &calls[0] {
        BotCall::Send(m) => assert_eq!(m.text, "Случайное число: 42"),
        BotCall::Acknowledge => panic!("the reply comes first"),
    }
    let calls = callback_response(ActionOutcome::RandomNumber(-5));
    match &calls[0] {
        BotCall::Send(m) => assert_eq!(m.text, "Случайное число: -5"),
        BotCall::Acknowledge => panic!("the reply comes first"),
    }
}

#[test]
fn unknown_payload_response_says_unknown_command() {
    let calls = callback_response(ActionOutcome::UnknownPayload);
    assert_eq!(calls.len(), 3);
    match &calls[0] {
        BotCall::Send(m) => {
            assert_eq!(m.text, "Неизвестная команда");
            assert!(m.keyboard.is_none());
        }
        BotCall::Acknowledge => panic!("the reply comes first"),
    }
    match &calls[1] {
        BotCall::Send(m) => assert_eq!(m.text, "Выберите действие:"),
        BotCall::Acknowledge => panic!("the prompt comes second"),
    }
    assert_eq!(calls[2], BotCall::Acknowledge);
}

#[test]
fn ack_only_is_exactly_one_acknowledgment() {
    let calls = ack_only_response();
    assert_eq!(calls.len(), 1);
    assert_eq!(calls[0], BotCall::Acknowledge);
}
