use vstd::prelude::*;

use crate::conversation::{state_of, State};
use crate::correlation::{has_key, is_first_match, lemma_first_match, lookup, CorrelationEntry};
use crate::relay::{
    action_spec, advance_spec, route_spec, run, ActionModel, ConfigParameters, IncomingModel,
    MessageRef, Outcome, RelayModel, TaskModel, GREETING, THANKS,
};

verus! {

/// A chat at `Start` that sends text gets exactly one message, the prompt,
/// sent to that chat; once it is delivered the chat is at `AskQuestion` and
/// nothing else changed.
pub proof fn lemma_start_prompts(
    s: RelayModel,
    cfg: ConfigParameters,
    m: IncomingModel,
    outs: Seq<Outcome>,
    prompt: MessageRef,
)
    requires
        m.chat_id != cfg.admins_group_id,
        m.text is Some,
        state_of(s.conversations, m.chat_id) == State::Start,
        outs.len() >= 1,
        outs[0] == Outcome::Delivered(prompt),
    ensures
        route_spec(s, cfg, m) == Ok::<TaskModel, crate::relay::RouteError>(
            TaskModel::Greet { chat_id: m.chat_id },
        ),
        run(s, TaskModel::Greet { chat_id: m.chat_id }, cfg, outs) == (
            RelayModel {
                conversations: s.conversations.insert(m.chat_id, State::AskQuestion),
                correlations: s.correlations,
            },
            seq![ActionModel::Send { chat_id: m.chat_id, text: GREETING@, reply_to: None }],
        ),
{
    let t = TaskModel::Greet { chat_id: m.chat_id };
    let (s1, t1) = advance_spec(s, t, outs[0]);
    assert(t1 is Finished);
    assert(run(s1, t1, cfg, outs.drop_first()) == (s1, Seq::<ActionModel>::empty()));
    assert(seq![ActionModel::Send { chat_id: m.chat_id, text: GREETING@, reply_to: None }]
        + Seq::<ActionModel>::empty() =~= seq![
        ActionModel::Send { chat_id: m.chat_id, text: GREETING@, reply_to: None },
    ]);
}

/// A chat at `AskQuestion` that sends text `M` is thanked, `M` goes to the
/// moderation group, and once both are delivered the chat is back at
/// `Start` with one entry recorded for it, keyed by the moderation copy.
pub proof fn lemma_question_is_submitted(
    s: RelayModel,
    cfg: ConfigParameters,
    m: IncomingModel,
    outs: Seq<Outcome>,
    thanks: MessageRef,
    copy: MessageRef,
)
    requires
        m.chat_id != cfg.admins_group_id,
        m.text is Some,
        state_of(s.conversations, m.chat_id) == State::AskQuestion,
        outs.len() >= 2,
        outs[0] == Outcome::Delivered(thanks),
        outs[1] == Outcome::Delivered(copy),
    ensures
        route_spec(s, cfg, m) == Ok::<TaskModel, crate::relay::RouteError>(
            TaskModel::Acknowledge {
                chat_id: m.chat_id,
                message_id: m.message_id,
                text: m.text->Some_0,
            },
        ),
        run(
            s,
            TaskModel::Acknowledge {
                chat_id: m.chat_id,
                message_id: m.message_id,
                text: m.text->Some_0,
            },
            cfg,
            outs,
        ) == (
            RelayModel {
                conversations: s.conversations.insert(m.chat_id, State::Start),
                correlations: s.correlations.push(
                    CorrelationEntry {
                        origin_chat_id: m.chat_id,
                        origin_message_id: m.message_id,
                        moderation_message_id: copy.message_id,
                    },
                ),
            },
            seq![
                ActionModel::Send { chat_id: m.chat_id, text: THANKS@, reply_to: None },
                ActionModel::Send {
                    chat_id: cfg.admins_group_id,
                    text: m.text->Some_0,
                    reply_to: None,
                },
            ],
        ),
{
    let text = m.text->Some_0;
    let t0 = TaskModel::Acknowledge { chat_id: m.chat_id, message_id: m.message_id, text };
    let (s1, t1) = advance_spec(s, t0, outs[0]);
    let o1 = outs.drop_first();
    assert(o1[0] == outs[1]);
    let (s2, t2) = advance_spec(s1, t1, o1[0]);
    assert(t2 is Finished);
    let r2 = run(s2, t2, cfg, o1.drop_first());
    assert(r2 == (s2, Seq::<ActionModel>::empty()));
    let a0 = ActionModel::Send { chat_id: m.chat_id, text: THANKS@, reply_to: None };
    let a1 = ActionModel::Send { chat_id: cfg.admins_group_id, text, reply_to: None };
    assert(run(s1, t1, cfg, o1).1 =~= seq![a1]);
    assert(run(s, t0, cfg, outs).1 =~= seq![a0, a1]);
}

/// An answer in the moderation group to message `key` publishes the
/// question, then the answer threaded under it, and forwards the published
/// answer to the chat of the earliest entry recorded under `key`. The
/// stores are left as they were.
pub proof fn lemma_answer_is_relayed(
    s: RelayModel,
    cfg: ConfigParameters,
    m: IncomingModel,
    i: int,
    outs: Seq<Outcome>,
    question: MessageRef,
    answer: MessageRef,
)
    requires
        m.chat_id == cfg.admins_group_id,
        m.reply_to is Some,
        m.text is Some,
        is_first_match(s.correlations, m.reply_to->Some_0.message_id, i),
        outs.len() >= 3,
        outs[0] == Outcome::Delivered(question),
        outs[1] == Outcome::Delivered(answer),
    ensures
        route_spec(s, cfg, m) == Ok::<TaskModel, crate::relay::RouteError>(
            TaskModel::PublishOriginal {
                chat_id: m.reply_to->Some_0.chat_id,
                message_id: m.reply_to->Some_0.message_id,
                text: m.text->Some_0,
            },
        ),
        run(
            s,
            TaskModel::PublishOriginal {
                chat_id: m.reply_to->Some_0.chat_id,
                message_id: m.reply_to->Some_0.message_id,
                text: m.text->Some_0,
            },
            cfg,
            outs,
        ) == (
            s,
            seq![
                ActionModel::Forward {
                    to: cfg.public_channel_id,
                    from: m.reply_to->Some_0.chat_id,
                    message_id: m.reply_to->Some_0.message_id,
                },
                ActionModel::Send {
                    chat_id: cfg.public_channel_id,
                    text: m.text->Some_0,
                    reply_to: Some(question.message_id),
                },
                ActionModel::Forward {
                    to: s.correlations[i].origin_chat_id,
                    from: answer.chat_id,
                    message_id: answer.message_id,
                },
            ],
        ),
{
    let orig = m.reply_to->Some_0;
    let text = m.text->Some_0;
    lemma_first_match(s.correlations, orig.message_id, i);
    let t0 = TaskModel::PublishOriginal { chat_id: orig.chat_id, message_id: orig.message_id, text };
    let o1 = outs.drop_first();
    let o2 = o1.drop_first();
    let o3 = o2.drop_first();
    assert(o1[0] == outs[1]);
    let t1 = advance_spec(s, t0, outs[0]).1;
    let t2 = advance_spec(s, t1, o1[0]).1;
    let t3 = advance_spec(s, t2, o2[0]).1;
    assert(t3 is Finished);
    assert(run(s, t3, cfg, o3) == (s, Seq::<ActionModel>::empty()));
    let a0 = ActionModel::Forward {
        to: cfg.public_channel_id,
        from: orig.chat_id,
        message_id: orig.message_id,
    };
    let a1 = ActionModel::Send {
        chat_id: cfg.public_channel_id,
        text,
        reply_to: Some(question.message_id),
    };
    let a2 = ActionModel::Forward {
        to: s.correlations[i].origin_chat_id,
        from: answer.chat_id,
        message_id: answer.message_id,
    };
    assert(run(s, t2, cfg, o2).1 =~= seq![a2]);
    assert(run(s, t1, cfg, o1).1 =~= seq![a1, a2]);
    assert(run(s, t0, cfg, outs).1 =~= seq![a0, a1, a2]);
}

/// An answer to a message under which nothing was recorded is still
/// published, question and answer, and is routed without error; nothing is
/// forwarded to any asker and the stores are left as they were.
pub proof fn lemma_unmatched_answer_is_published(
    s: RelayModel,
    cfg: ConfigParameters,
    m: IncomingModel,
    outs: Seq<Outcome>,
    question: MessageRef,
    answer: MessageRef,
)
    requires
        m.chat_id == cfg.admins_group_id,
        m.reply_to is Some,
        m.text is Some,
        !has_key(s.correlations, m.reply_to->Some_0.message_id),
        outs.len() >= 2,
        outs[0] == Outcome::Delivered(question),
        outs[1] == Outcome::Delivered(answer),
    ensures
        route_spec(s, cfg, m) == Ok::<TaskModel, crate::relay::RouteError>(
            TaskModel::PublishOriginal {
                chat_id: m.reply_to->Some_0.chat_id,
                message_id: m.reply_to->Some_0.message_id,
                text: m.text->Some_0,
            },
        ),
        run(
            s,
            TaskModel::PublishOriginal {
                chat_id: m.reply_to->Some_0.chat_id,
                message_id: m.reply_to->Some_0.message_id,
                text: m.text->Some_0,
            },
            cfg,
            outs,
        ) == (
            s,
            seq![
                ActionModel::Forward {
                    to: cfg.public_channel_id,
                    from: m.reply_to->Some_0.chat_id,
                    message_id: m.reply_to->Some_0.message_id,
                },
                ActionModel::Send {
                    chat_id: cfg.public_channel_id,
                    text: m.text->Some_0,
                    reply_to: Some(question.message_id),
                },
            ],
        ),
{
    let orig = m.reply_to->Some_0;
    let text = m.text->Some_0;
    assert(lookup(s.correlations, orig.message_id) is None);
    let t0 = TaskModel::PublishOriginal { chat_id: orig.chat_id, message_id: orig.message_id, text };
    let o1 = outs.drop_first();
    let o2 = o1.drop_first();
    assert(o1[0] == outs[1]);
    let t1 = advance_spec(s, t0, outs[0]).1;
    let t2 = advance_spec(s, t1, o1[0]).1;
    assert(t2 is Finished);
    assert(run(s, t2, cfg, o2) == (s, Seq::<ActionModel>::empty()));
    let a0 = ActionModel::Forward {
        to: cfg.public_channel_id,
        from: orig.chat_id,
        message_id: orig.message_id,
    };
    let a1 = ActionModel::Send {
        chat_id: cfg.public_channel_id,
        text,
        reply_to: Some(question.message_id),
    };
    assert(run(s, t1, cfg, o1).1 =~= seq![a1]);
    assert(run(s, t0, cfg, outs).1 =~= seq![a0, a1]);
}

/// Two questions from different chats, whose submissions complete one
/// after the other in either order, both end up recorded: the store holds
/// what it held before followed by both entries, each answer key finds its
/// own asker, and both chats are back at `Start`.
pub proof fn lemma_submissions_do_not_interfere(
    s: RelayModel,
    a: TaskModel,
    b: TaskModel,
    da: MessageRef,
    db: MessageRef,
)
    requires
        a is SubmitQuestion,
        b is SubmitQuestion,
        a->SubmitQuestion_chat_id != b->SubmitQuestion_chat_id,
        da.message_id != db.message_id,
        !has_key(s.correlations, da.message_id),
        !has_key(s.correlations, db.message_id),
    ensures
        ({
            let ea = CorrelationEntry {
                origin_chat_id: a->SubmitQuestion_chat_id,
                origin_message_id: a->SubmitQuestion_message_id,
                moderation_message_id: da.message_id,
            };
            let eb = CorrelationEntry {
                origin_chat_id: b->SubmitQuestion_chat_id,
                origin_message_id: b->SubmitQuestion_message_id,
                moderation_message_id: db.message_id,
            };
            let s1 = advance_spec(s, a, Outcome::Delivered(da)).0;
            let s2 = advance_spec(s1, b, Outcome::Delivered(db)).0;
            &&& s2.correlations == s.correlations + seq![ea, eb]
            &&& lookup(s2.correlations, da.message_id) == Some(ea)
            &&& lookup(s2.correlations, db.message_id) == Some(eb)
            &&& state_of(s2.conversations, a->SubmitQuestion_chat_id) == State::Start
            &&& state_of(s2.conversations, b->SubmitQuestion_chat_id) == State::Start
        }),
{
    let ea = CorrelationEntry {
        origin_chat_id: a->SubmitQuestion_chat_id,
        origin_message_id: a->SubmitQuestion_message_id,
        moderation_message_id: da.message_id,
    };
    let eb = CorrelationEntry {
        origin_chat_id: b->SubmitQuestion_chat_id,
        origin_message_id: b->SubmitQuestion_message_id,
        moderation_message_id: db.message_id,
    };
    let s1 = advance_spec(s, a, Outcome::Delivered(da)).0;
    let s2 = advance_spec(s1, b, Outcome::Delivered(db)).0;
    let c = s2.correlations;
    let n = s.correlations.len() as int;
    assert(c =~= s.correlations + seq![ea, eb]);
    assert(c[n] == ea);
    assert(c[n + 1] == eb);
    assert forall|j: int| 0 <= j < n implies c[j].moderation_message_id != da.message_id
        && c[j].moderation_message_id != db.message_id by {
        assert(c[j] == s.correlations[j]);
    }
    assert(is_first_match(c, da.message_id, n));
    assert(is_first_match(c, db.message_id, n + 1));
    lemma_first_match(c, da.message_id, n);
    lemma_first_match(c, db.message_id, n + 1);
}

/// The steps of answering: they read the stores and never change them.
pub open spec fn is_answer_step(t: TaskModel) -> bool {
    t is PublishOriginal || t is PublishReply || t is Relay || t is Finished
}

/// Answering leaves the stores as they were, whatever the calls return.
pub proof fn lemma_answer_keeps_stores(
    s: RelayModel,
    t: TaskModel,
    cfg: ConfigParameters,
    outs: Seq<Outcome>,
)
    requires
        is_answer_step(t),
    ensures
        run(s, t, cfg, outs).0 == s,
    decreases outs.len(),
{
    if action_spec(t, cfg) is Some && outs.len() > 0 {
        let (s2, t2) = advance_spec(s, t, outs[0]);
        assert(s2 == s);
        assert(is_answer_step(t2));
        lemma_answer_keeps_stores(s2, t2, cfg, outs.drop_first());
    }
}

/// Handling the same answer twice is not deduplicated: the first pass
/// leaves the stores as they were, so the second is routed to the same work
/// and, given the same outcomes, makes the same calls again, publication
/// and relay included.
pub proof fn lemma_answer_replay_repeats(
    s: RelayModel,
    cfg: ConfigParameters,
    m: IncomingModel,
    outs: Seq<Outcome>,
)
    requires
        m.chat_id == cfg.admins_group_id,
        m.reply_to is Some,
        m.text is Some,
    ensures
        route_spec(s, cfg, m) is Ok,
        ({
            let t = route_spec(s, cfg, m)->Ok_0;
            let (s1, first) = run(s, t, cfg, outs);
            &&& s1 == s
            &&& route_spec(s1, cfg, m) == route_spec(s, cfg, m)
            &&& run(s1, t, cfg, outs) == (s, first)
        }),
{
    let t = route_spec(s, cfg, m)->Ok_0;
    assert(is_answer_step(t));
    lemma_answer_keeps_stores(s, t, cfg, outs);
}

} // verus!
