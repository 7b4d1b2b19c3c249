use question_relay::conversation::{ConversationStore, State};
use question_relay::correlation::{CorrelationEntry, CorrelationStore};
use question_relay::relay::{
    Action, ConfigParameters, Incoming, MessageRef, Outcome, QuestionRelay, RouteError, Task,
    GREETING, THANKS,
};

const ADMINS: i64 = -100;
const PUBLIC: i64 = -200;

fn cfg() -> ConfigParameters {
    ConfigParameters { admins_group_id: ADMINS, public_channel_id: PUBLIC }
}

fn text_from(chat_id: i64, message_id: i32, text: &str) -> Incoming {
    Incoming { chat_id, message_id, text: Some(text.to_string()), reply_to: None }
}

fn answer(message_id: i32, text: &str, replied: i32) -> Incoming {
    Incoming {
        chat_id: ADMINS,
        message_id,
        text: Some(text.to_string()),
        reply_to: Some(MessageRef { chat_id: ADMINS, message_id: replied }),
    }
}

fn delivered(chat_id: i64, message_id: i32) -> Outcome {
    Outcome::Delivered(MessageRef { chat_id, message_id })
}

/// Runs `task` to its end, answering its calls with `outs` in turn, and
/// returns the calls it made.
fn drive(relay: &mut QuestionRelay, mut task: Task, outs: &[Outcome]) -> Vec<Action> {
    let mut calls = Vec::new();
    let mut next = 0;
    while let Some(action) = task.action(&cfg()) {
        calls.push(action);
        task = relay.advance(task, outs[next]);
        next += 1;
    }
    assert!(task.is_finished());
    calls
}

fn send(chat_id: i64, text: &str, reply_to: Option<i32>) -> Action {
    Action::Send { chat_id, text: text.to_string(), reply_to }
}

#[test]
fn state_defaults_to_start() {
    assert_eq!(State::default(), State::Start);
    let store = ConversationStore::new();
    assert_eq!(store.get(42), State::Start);
}

#[test]
fn conversation_store_keeps_chats_apart() {
    let mut store = ConversationStore::new();
    store.set(1, State::AskQuestion);
    assert_eq!(store.get(1), State::AskQuestion);
    assert_eq!(store.get(2), State::Start);
    store.set(1, State::Start);
    assert_eq!(store.get(1), State::Start);
}

#[test]
fn start_prompts_and_moves_to_ask_question() {
    let mut relay = QuestionRelay::new();
    let task = relay.route(&cfg(), &text_from(7, 1, "hi")).unwrap();
    assert_eq!(task, Task::Greet { chat_id: 7 });
    let calls = drive(&mut relay, task, &[delivered(7, 2)]);
    assert_eq!(calls, vec![send(7, GREETING, None)]);
    assert_eq!(relay.conversations.get(7), State::AskQuestion);
    assert_eq!(relay.correlations.len(), 0);
}

#[test]
fn question_is_forwarded_and_recorded() {
    let mut relay = QuestionRelay::new();
    relay.conversations.set(7, State::AskQuestion);
    let task = relay.route(&cfg(), &text_from(7, 3, "why?")).unwrap();
    let calls = drive(&mut relay, task, &[delivered(7, 4), delivered(ADMINS, 50)]);
    assert_eq!(calls, vec![send(7, THANKS, None), send(ADMINS, "why?", None)]);
    assert_eq!(relay.conversations.get(7), State::Start);
    assert_eq!(relay.correlations.len(), 1);
    assert_eq!(
        relay.correlations.find_by_moderation_message_id(50),
        Some(CorrelationEntry { origin_chat_id: 7, origin_message_id: 3, moderation_message_id: 50 })
    );
}

#[test]
fn answer_is_published_and_relayed() {
    let mut relay = QuestionRelay::new();
    relay.correlations.record(CorrelationEntry {
        origin_chat_id: 7,
        origin_message_id: 3,
        moderation_message_id: 50,
    });
    let task = relay.route(&cfg(), &answer(51, "because", 50)).unwrap();
    let calls = drive(
        &mut relay,
        task,
        &[delivered(PUBLIC, 900), delivered(PUBLIC, 901), delivered(7, 5)],
    );
    assert_eq!(
        calls,
        vec![
            Action::Forward { to: PUBLIC, from: ADMINS, message_id: 50 },
            send(PUBLIC, "because", Some(900)),
            Action::Forward { to: 7, from: PUBLIC, message_id: 901 },
        ]
    );
    assert_eq!(relay.correlations.len(), 1);
}

#[test]
fn unmatched_answer_is_published_only() {
    let mut relay = QuestionRelay::new();
    relay.correlations.record(CorrelationEntry {
        origin_chat_id: 7,
        origin_message_id: 3,
        moderation_message_id: 50,
    });
    let task = relay.route(&cfg(), &answer(52, "noted", 77)).unwrap();
    let calls = drive(&mut relay, task, &[delivered(PUBLIC, 900), delivered(PUBLIC, 901)]);
    assert_eq!(
        calls,
        vec![
            Action::Forward { to: PUBLIC, from: ADMINS, message_id: 77 },
            send(PUBLIC, "noted", Some(900)),
        ]
    );
}

#[test]
fn concurrent_questions_are_both_recorded() {
    let mut relay = QuestionRelay::new();
    relay.conversations.set(7, State::AskQuestion);
    relay.conversations.set(8, State::AskQuestion);
    let mut a = relay.route(&cfg(), &text_from(7, 3, "first")).unwrap();
    let mut b = relay.route(&cfg(), &text_from(8, 4, "second")).unwrap();
    a = relay.advance(a, delivered(7, 10));
    b = relay.advance(b, delivered(8, 11));
    b = relay.advance(b, delivered(ADMINS, 61));
    a = relay.advance(a, delivered(ADMINS, 60));
    assert!(a.is_finished() && b.is_finished());
    assert_eq!(relay.correlations.len(), 2);
    assert_eq!(relay.correlations.find_by_moderation_message_id(60).unwrap().origin_chat_id, 7);
    assert_eq!(relay.correlations.find_by_moderation_message_id(61).unwrap().origin_chat_id, 8);
    assert_eq!(relay.conversations.get(7), State::Start);
    assert_eq!(relay.conversations.get(8), State::Start);
}

#[test]
fn replayed_answer_is_relayed_twice() {
    let mut relay = QuestionRelay::new();
    relay.correlations.record(CorrelationEntry {
        origin_chat_id: 7,
        origin_message_id: 3,
        moderation_message_id: 50,
    });
    let msg = answer(51, "because", 50);
    let outs = [delivered(PUBLIC, 900), delivered(PUBLIC, 901), delivered(7, 5)];
    let task = relay.route(&cfg(), &msg).unwrap();
    let first = drive(&mut relay, task, &outs);
    let task = relay.route(&cfg(), &msg).unwrap();
    let second = drive(&mut relay, task, &outs);
    assert_eq!(first.len(), 3);
    assert_eq!(first, second);
}

#[test]
fn message_without_text_is_invalid() {
    let mut relay = QuestionRelay::new();
    let mut msg = text_from(7, 1, "");
    msg.text = None;
    assert_eq!(relay.route(&cfg(), &msg), Err(RouteError::InvalidInput));
    relay.conversations.set(7, State::AskQuestion);
    assert_eq!(relay.route(&cfg(), &msg), Err(RouteError::InvalidInput));
    assert_eq!(relay.conversations.get(7), State::AskQuestion);
    let mut reply = answer(51, "", 50);
    reply.text = None;
    assert_eq!(relay.route(&cfg(), &reply), Err(RouteError::InvalidInput));
}

#[test]
fn moderator_message_without_reply_is_ignored() {
    let relay = QuestionRelay::new();
    let msg = text_from(ADMINS, 1, "chatter");
    assert_eq!(relay.route(&cfg(), &msg), Err(RouteError::NoOriginalMessage));
}

#[test]
fn moderation_group_is_not_tracked_by_state() {
    let mut relay = QuestionRelay::new();
    relay.conversations.set(ADMINS, State::AskQuestion);
    let msg = text_from(ADMINS, 1, "chatter");
    assert_eq!(relay.route(&cfg(), &msg), Err(RouteError::NoOriginalMessage));
}

#[test]
fn failed_greeting_keeps_state() {
    let mut relay = QuestionRelay::new();
    let task = relay.route(&cfg(), &text_from(7, 1, "hi")).unwrap();
    let calls = drive(&mut relay, task, &[Outcome::Failed]);
    assert_eq!(calls.len(), 1);
    assert_eq!(relay.conversations.get(7), State::Start);
}

#[test]
fn failed_forward_records_nothing() {
    let mut relay = QuestionRelay::new();
    relay.conversations.set(7, State::AskQuestion);
    let task = relay.route(&cfg(), &text_from(7, 3, "why?")).unwrap();
    let calls = drive(&mut relay, task, &[delivered(7, 4), Outcome::Failed]);
    assert_eq!(calls.len(), 2);
    assert_eq!(relay.correlations.len(), 0);
    assert_eq!(relay.conversations.get(7), State::AskQuestion);
}

#[test]
fn failed_publication_stops_the_answer() {
    let mut relay = QuestionRelay::new();
    relay.correlations.record(CorrelationEntry {
        origin_chat_id: 7,
        origin_message_id: 3,
        moderation_message_id: 50,
    });
    let task = relay.route(&cfg(), &answer(51, "because", 50)).unwrap();
    let calls = drive(&mut relay, task, &[Outcome::Failed]);
    assert_eq!(calls, vec![Action::Forward { to: PUBLIC, from: ADMINS, message_id: 50 }]);
}

#[test]
fn lookup_prefers_the_earliest_entry() {
    let mut store = CorrelationStore::new();
    assert_eq!(store.find_by_moderation_message_id(50), None);
    store.record(CorrelationEntry { origin_chat_id: 1, origin_message_id: 1, moderation_message_id: 49 });
    store.record(CorrelationEntry { origin_chat_id: 2, origin_message_id: 2, moderation_message_id: 50 });
    store.record(CorrelationEntry { origin_chat_id: 3, origin_message_id: 3, moderation_message_id: 50 });
    assert_eq!(store.len(), 3);
    assert_eq!(store.find_by_moderation_message_id(50).unwrap().origin_chat_id, 2);
    assert_eq!(store.find_by_moderation_message_id(51), None);
}
