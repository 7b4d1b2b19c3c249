use vstd::prelude::*;

use crate::conversation::{state_of, ConversationStore, State};
use crate::correlation::{lookup, CorrelationEntry, CorrelationStore};

verus! {

/// Sent to a chat that starts a dialogue.
pub const GREETING: &'static str = "Привет! Это бот для анонимных вопросов. Задавай вопрос! Только давай одним сообщением. Ок?";

/// Sent to a chat once its question has been taken.
pub const THANKS: &'static str = "Спасибо за вопрос!";

/// The two chats the relay talks to besides the askers.
#[derive(Clone, Copy, Debug, PartialEq, Eq, Structural)]
pub struct ConfigParameters {
    /// Where questions go to be answered.
    pub admins_group_id: i64,
    /// Where questions and answers are published.
    pub public_channel_id: i64,
}

/// A message as the transport identifies it.
#[derive(Clone, Copy, Debug, PartialEq, Eq, Structural)]
pub struct MessageRef {
    pub chat_id: i64,
    pub message_id: i32,
}

/// An inbound message.
#[derive(Clone, Debug)]
pub struct Incoming {
    pub chat_id: i64,
    pub message_id: i32,
    /// Its text, if it has any.
    pub text: Option<String>,
    /// The message it replies to, if any.
    pub reply_to: Option<MessageRef>,
}

pub struct IncomingModel {
    pub chat_id: i64,
    pub message_id: i32,
    pub text: Option<Seq<char>>,
    pub reply_to: Option<MessageRef>,
}

pub open spec fn text_view(t: Option<String>) -> Option<Seq<char>> {
    match t {
        Some(s) => Some(s@),
        None => None,
    }
}

impl View for Incoming {
    type V = IncomingModel;

    open spec fn view(&self) -> IncomingModel {
        IncomingModel {
            chat_id: self.chat_id,
            message_id: self.message_id,
            text: text_view(self.text),
            reply_to: self.reply_to,
        }
    }
}

/// Why an inbound message starts no work.
#[derive(Clone, Copy, Debug, PartialEq, Eq, Structural)]
pub enum RouteError {
    /// The message carries no text where text is needed.
    InvalidInput,
    /// A message in the moderation group that replies to nothing.
    NoOriginalMessage,
}

/// What became of one outbound call.
#[derive(Clone, Copy, Debug, PartialEq, Eq, Structural)]
pub enum Outcome {
    /// The transport accepted it and created this message.
    Delivered(MessageRef),
    /// The transport failed; the work in hand stops here.
    Failed,
}

/// One outbound call to the transport.
#[derive(Debug, PartialEq, Eq)]
pub enum Action {
    /// Send `text` to `chat_id`, threaded under `reply_to` when given.
    Send { chat_id: i64, text: String, reply_to: Option<i32> },
    /// Forward message `message_id` of chat `from` into chat `to`.
    Forward { to: i64, from: i64, message_id: i32 },
}

pub enum ActionModel {
    Send { chat_id: i64, text: Seq<char>, reply_to: Option<i32> },
    Forward { to: i64, from: i64, message_id: i32 },
}

impl View for Action {
    type V = ActionModel;

    open spec fn view(&self) -> ActionModel {
        match self {
            Action::Send { chat_id, text, reply_to } => ActionModel::Send {
                chat_id: *chat_id,
                text: text@,
                reply_to: *reply_to,
            },
            Action::Forward { to, from, message_id } => ActionModel::Forward {
                to: *to,
                from: *from,
                message_id: *message_id,
            },
        }
    }
}

pub open spec fn action_view(a: Option<Action>) -> Option<ActionModel> {
    match a {
        Some(a) => Some(a@),
        None => None,
    }
}

/// The work that one inbound message started, at the step it has reached.
#[derive(Debug, PartialEq, Eq)]
pub enum Task {
    /// Prompt a chat that is at `Start`.
    Greet { chat_id: i64 },
    /// Thank the asker for question `text`, their message `message_id`.
    Acknowledge { chat_id: i64, message_id: i32, text: String },
    /// Hand question `text` to the moderation group.
    SubmitQuestion { chat_id: i64, message_id: i32, text: String },
    /// Publish the replied-to message; `text` is the moderator's answer.
    PublishOriginal { chat_id: i64, message_id: i32, text: String },
    /// Publish answer `text` under the published question `published_id`;
    /// `key` is the moderation group message that was answered.
    PublishReply { key: i32, published_id: i32, text: String },
    /// Forward the published answer back to the asker's chat `to`.
    Relay { to: i64, from: i64, message_id: i32 },
    Finished,
}

pub enum TaskModel {
    Greet { chat_id: i64 },
    Acknowledge { chat_id: i64, message_id: i32, text: Seq<char> },
    SubmitQuestion { chat_id: i64, message_id: i32, text: Seq<char> },
    PublishOriginal { chat_id: i64, message_id: i32, text: Seq<char> },
    PublishReply { key: i32, published_id: i32, text: Seq<char> },
    Relay { to: i64, from: i64, message_id: i32 },
    Finished,
}

impl View for Task {
    type V = TaskModel;

    open spec fn view(&self) -> TaskModel {
        match self {
            Task::Greet { chat_id } => TaskModel::Greet { chat_id: *chat_id },
            Task::Acknowledge { chat_id, message_id, text } => TaskModel::Acknowledge {
                chat_id: *chat_id,
                message_id: *message_id,
                text: text@,
            },
            Task::SubmitQuestion { chat_id, message_id, text } => TaskModel::SubmitQuestion {
                chat_id: *chat_id,
                message_id: *message_id,
                text: text@,
            },
            Task::PublishOriginal { chat_id, message_id, text } => TaskModel::PublishOriginal {
                chat_id: *chat_id,
                message_id: *message_id,
                text: text@,
            },
            Task::PublishReply { key, published_id, text } => TaskModel::PublishReply {
                key: *key,
                published_id: *published_id,
                text: text@,
            },
            Task::Relay { to, from, message_id } => TaskModel::Relay {
                to: *to,
                from: *from,
                message_id: *message_id,
            },
            Task::Finished => TaskModel::Finished,
        }
    }
}

pub open spec fn route_view(r: Result<Task, RouteError>) -> Result<TaskModel, RouteError> {
    match r {
        Ok(t) => Ok(t@),
        Err(e) => Err(e),
    }
}

/// The two stores as values.
pub struct RelayModel {
    pub conversations: Map<i64, State>,
    pub correlations: Seq<CorrelationEntry>,
}

/// Which work an inbound message starts. A message in the moderation group
/// is an answer, whatever state any chat is in; any other message goes by
/// the state of its chat.
pub open spec fn route_spec(
    s: RelayModel,
    cfg: ConfigParameters,
    m: IncomingModel,
) -> Result<TaskModel, RouteError> {
    if m.chat_id == cfg.admins_group_id {
        match m.reply_to {
            None => Err(RouteError::NoOriginalMessage),
            Some(orig) => match m.text {
                None => Err(RouteError::InvalidInput),
                Some(t) => Ok(
                    TaskModel::PublishOriginal {
                        chat_id: orig.chat_id,
                        message_id: orig.message_id,
                        text: t,
                    },
                ),
            },
        }
    } else {
        match m.text {
            None => Err(RouteError::InvalidInput),
            Some(t) => match state_of(s.conversations, m.chat_id) {
                State::Start => Ok(TaskModel::Greet { chat_id: m.chat_id }),
                State::AskQuestion => Ok(
                    TaskModel::Acknowledge { chat_id: m.chat_id, message_id: m.message_id, text: t },
                ),
            },
        }
    }
}

/// The outbound call a task makes next; none once it is finished.
pub open spec fn action_spec(t: TaskModel, cfg: ConfigParameters) -> Option<ActionModel> {
    match t {
        TaskModel::Greet { chat_id } => Some(
            ActionModel::Send { chat_id, text: GREETING@, reply_to: None },
        ),
        TaskModel::Acknowledge { chat_id, .. } => Some(
            ActionModel::Send { chat_id, text: THANKS@, reply_to: None },
        ),
        TaskModel::SubmitQuestion { text, .. } => Some(
            ActionModel::Send { chat_id: cfg.admins_group_id, text, reply_to: None },
        ),
        TaskModel::PublishOriginal { chat_id, message_id, .. } => Some(
            ActionModel::Forward { to: cfg.public_channel_id, from: chat_id, message_id },
        ),
        TaskModel::PublishReply { published_id, text, .. } => Some(
            ActionModel::Send {
                chat_id: cfg.public_channel_id,
                text,
                reply_to: Some(published_id),
            },
        ),
        TaskModel::Relay { to, from, message_id } => Some(
            ActionModel::Forward { to, from, message_id },
        ),
        TaskModel::Finished => None,
    }
}

/// The stores and the task after the task's call came back with `o`. A
/// failed call ends the task and changes nothing.
pub open spec fn advance_spec(s: RelayModel, t: TaskModel, o: Outcome) -> (RelayModel, TaskModel) {
    match o {
        Outcome::Failed => (s, TaskModel::Finished),
        Outcome::Delivered(m) => match t {
            TaskModel::Greet { chat_id } => (
                RelayModel {
                    conversations: s.conversations.insert(chat_id, State::AskQuestion),
                    correlations: s.correlations,
                },
                TaskModel::Finished,
            ),
            TaskModel::Acknowledge { chat_id, message_id, text } => (
                s,
                TaskModel::SubmitQuestion { chat_id, message_id, text },
            ),
            TaskModel::SubmitQuestion { chat_id, message_id, .. } => (
                RelayModel {
                    conversations: s.conversations.insert(chat_id, State::Start),
                    correlations: s.correlations.push(
                        CorrelationEntry {
                            origin_chat_id: chat_id,
                            origin_message_id: message_id,
                            moderation_message_id: m.message_id,
                        },
                    ),
                },
                TaskModel::Finished,
            ),
            TaskModel::PublishOriginal { message_id, text, .. } => (
                s,
                TaskModel::PublishReply { key: message_id, published_id: m.message_id, text },
            ),
            TaskModel::PublishReply { key, .. } => (
                s,
                match lookup(s.correlations, key) {
                    Some(e) => TaskModel::Relay {
                        to: e.origin_chat_id,
                        from: m.chat_id,
                        message_id: m.message_id,
                    },
                    None => TaskModel::Finished,
                },
            ),
            TaskModel::Relay { .. } => (s, TaskModel::Finished),
            TaskModel::Finished => (s, TaskModel::Finished),
        },
    }
}

/// The stores after task `t` has run with its calls coming back as `outs`,
/// one outcome per call, and the calls it made. A task whose outcomes run
/// out before it finishes has made only the calls whose outcome is known.
pub open spec fn run(
    s: RelayModel,
    t: TaskModel,
    cfg: ConfigParameters,
    outs: Seq<Outcome>,
) -> (RelayModel, Seq<ActionModel>)
    decreases outs.len(),
{
    match action_spec(t, cfg) {
        None => (s, Seq::empty()),
        Some(a) => if outs.len() == 0 {
            (s, Seq::empty())
        } else {
            let (s2, t2) = advance_spec(s, t, outs[0]);
            let (s3, acts) = run(s2, t2, cfg, outs.drop_first());
            (s3, seq![a] + acts)
        },
    }
}

impl Task {
    /// The outbound call to make next, if the work is not finished.
    pub fn action(&self, cfg: &ConfigParameters) -> (r: Option<Action>)
        ensures
            action_view(r) == action_spec(self@, *cfg),
    {
        match self {
            Task::Greet { chat_id } => Some(
                Action::Send { chat_id: *chat_id, text: GREETING.to_owned(), reply_to: None },
            ),
            Task::Acknowledge { chat_id, .. } => Some(
                Action::Send { chat_id: *chat_id, text: THANKS.to_owned(), reply_to: None },
            ),
            Task::SubmitQuestion { text, .. } => Some(
                Action::Send { chat_id: cfg.admins_group_id, text: text.clone(), reply_to: None },
            ),
            Task::PublishOriginal { chat_id, message_id, .. } => Some(
                Action::Forward {
                    to: cfg.public_channel_id,
                    from: *chat_id,
                    message_id: *message_id,
                },
            ),
            Task::PublishReply { published_id, text, .. } => Some(
                Action::Send {
                    chat_id: cfg.public_channel_id,
                    text: text.clone(),
                    reply_to: Some(*published_id),
                },
            ),
            Task::Relay { to, from, message_id } => Some(
                Action::Forward { to: *to, from: *from, message_id: *message_id },
            ),
            Task::Finished => None,
        }
    }

    pub fn is_finished(&self) -> (r: bool)
        ensures
            r == (self@ is Finished),
    {
        match self {
            Task::Finished => true,
            _ => false,
        }
    }
}

/// The shared state of the relay: the dialogue state of every chat and the
/// questions handed to the moderators.
pub struct QuestionRelay {
    pub conversations: ConversationStore,
    pub correlations: CorrelationStore,
}

impl View for QuestionRelay {
    type V = RelayModel;

    open spec fn view(&self) -> RelayModel {
        RelayModel { conversations: self.conversations@, correlations: self.correlations@ }
    }
}

impl QuestionRelay {
    pub fn new() -> (r: QuestionRelay)
        ensures
            r@.conversations == Map::<i64, State>::empty(),
            r@.correlations == Seq::<CorrelationEntry>::empty(),
    {
        QuestionRelay { conversations: ConversationStore::new(), correlations: CorrelationStore::new() }
    }

    /// Classifies an inbound message by where it comes from and the state of
    /// its chat, and returns the work it starts.
    pub fn route(&self, cfg: &ConfigParameters, msg: &Incoming) -> (r: Result<Task, RouteError>)
        ensures
            route_view(r) == route_spec(self@, *cfg, msg@),
    {
        if msg.chat_id == cfg.admins_group_id {
            match msg.reply_to {
                None => Err(RouteError::NoOriginalMessage),
                Some(orig) => match &msg.text {
                    None => Err(RouteError::InvalidInput),
                    Some(t) => Ok(
                        Task::PublishOriginal {
                            chat_id: orig.chat_id,
                            message_id: orig.message_id,
                            text: t.clone(),
                        },
                    ),
                },
            }
        } else {
            match &msg.text {
                None => Err(RouteError::InvalidInput),
                Some(t) => match self.conversations.get(msg.chat_id) {
                    State::Start => Ok(Task::Greet { chat_id: msg.chat_id }),
                    State::AskQuestion => Ok(
                        Task::Acknowledge {
                            chat_id: msg.chat_id,
                            message_id: msg.message_id,
                            text: t.clone(),
                        },
                    ),
                },
            }
        }
    }

    /// Takes the outcome of the task's last call, updates the stores, and
    /// returns the task at its next step.
    pub fn advance(&mut self, task: Task, outcome: Outcome) -> (r: Task)
        ensures
            (final(self)@, r@) == advance_spec(old(self)@, task@, outcome),
    {
        match outcome {
            Outcome::Failed => Task::Finished,
            Outcome::Delivered(m) => match task {
                Task::Greet { chat_id } => {
                    self.conversations.set(chat_id, State::AskQuestion);
                    Task::Finished
                },
                Task::Acknowledge { chat_id, message_id, text } => {
                    Task::SubmitQuestion { chat_id, message_id, text }
                },
                Task::SubmitQuestion { chat_id, message_id, .. } => {
                    self.correlations.record(
                        CorrelationEntry {
                            origin_chat_id: chat_id,
                            origin_message_id: message_id,
                            moderation_message_id: m.message_id,
                        },
                    );
                    self.conversations.set(chat_id, State::Start);
                    Task::Finished
                },
                Task::PublishOriginal { message_id, text, .. } => {
                    Task::PublishReply { key: message_id, published_id: m.message_id, text }
                },
                Task::PublishReply { key, .. } => {
                    match self.correlations.find_by_moderation_message_id(key) {
                        Some(e) => Task::Relay {
                            to: e.origin_chat_id,
                            from: m.chat_id,
                            message_id: m.message_id,
                        },
                        None => Task::Finished,
                    }
                },
                Task::Relay { .. } => Task::Finished,
                Task::Finished => Task::Finished,
            },
        }
    }
}

} // verus!
