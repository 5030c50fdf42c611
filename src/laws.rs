use vstd::prelude::*;

use crate::interview::{message_step, started, CompletionView, StepView};
use crate::model::{InterviewView, MonitorView, PairView};
use crate::resolve::{granted, granted_by_pairs};
use crate::store::monitor_of;
use crate::text::{kind_of, MessageKind};

verus! {

/// The completion that a step hands over, if it is one.
pub open spec fn completion_in(s: StepView) -> Option<CompletionView> {
    match s {
        StepView::Complete(c) => Some(c),
        _ => None,
    }
}

/// The completion of the interview `st`, once its content is recorded.
pub open spec fn completion_from(st: InterviewView) -> CompletionView {
    CompletionView {
        channel_id: st.channel_id,
        guild_id: st.guild_id,
        body: st.post_content->0,
        reactions: st.reactions,
    }
}

/// Starting an interview in a guild and sending "quit" (in any case) at once
/// aborts it: the user is left with no interview, every other user's is as it
/// was, and the outcome hands over no monitor to record.
pub proof fn lemma_quit_after_start(
    reg: Map<u64, InterviewView>,
    user: u64,
    guild_id: u64,
    channel_id: u64,
    lowered: Seq<char>,
    content: Seq<char>,
)
    requires
        kind_of(lowered) == MessageKind::Quit,
    ensures
        message_step(started(reg, user, Some(guild_id), channel_id), user, false, false, lowered, content)
            == (reg.remove(user), StepView::Aborted),
{
    let s = started(reg, user, Some(guild_id), channel_id);
    assert(s.remove(user) =~= reg.remove(user));
}

/// Two users who both finish their interviews, in either order, both
/// complete: each receives the completion of their own interview, the two
/// interviews are gone, and the store, after both are recorded, holds both
/// monitors after what it held before.
pub proof fn lemma_concurrent_completions(
    reg: Map<u64, InterviewView>,
    store: Seq<MonitorView>,
    u1: u64,
    u2: u64,
    lowered1: Seq<char>,
    content1: Seq<char>,
    lowered2: Seq<char>,
    content2: Seq<char>,
    message1: u64,
    message2: u64,
)
    requires
        u1 != u2,
        reg.contains_key(u1),
        reg.contains_key(u2),
        reg[u1].post_content is Some,
        reg[u2].post_content is Some,
        kind_of(lowered1) == MessageKind::Done,
        kind_of(lowered2) == MessageKind::Done,
    ensures
        ({
            let (mid, s1) = message_step(reg, u1, false, false, lowered1, content1);
            let (end, s2) = message_step(mid, u2, false, false, lowered2, content2);
            let stored = store.push(monitor_of(completion_in(s1)->0, message1)).push(
                monitor_of(completion_in(s2)->0, message2),
            );
            &&& completion_in(s1) == Some(completion_from(reg[u1]))
            &&& completion_in(s2) == Some(completion_from(reg[u2]))
            &&& end == reg.remove(u1).remove(u2)
            &&& stored.len() == store.len() + 2
            &&& stored.subrange(0, store.len() as int) == store
            &&& stored.contains(monitor_of(completion_from(reg[u1]), message1))
            &&& stored.contains(monitor_of(completion_from(reg[u2]), message2))
        }),
        ({
            let (mid, s2) = message_step(reg, u2, false, false, lowered2, content2);
            let (end, s1) = message_step(mid, u1, false, false, lowered1, content1);
            let stored = store.push(monitor_of(completion_in(s2)->0, message2)).push(
                monitor_of(completion_in(s1)->0, message1),
            );
            &&& completion_in(s1) == Some(completion_from(reg[u1]))
            &&& completion_in(s2) == Some(completion_from(reg[u2]))
            &&& end == reg.remove(u1).remove(u2)
            &&& stored.len() == store.len() + 2
            &&& stored.subrange(0, store.len() as int) == store
            &&& stored.contains(monitor_of(completion_from(reg[u1]), message1))
            &&& stored.contains(monitor_of(completion_from(reg[u2]), message2))
        }),
{
    let (mid, s1) = message_step(reg, u1, false, false, lowered1, content1);
    assert(mid == reg.remove(u1));
    assert(mid[u2] == reg[u2]);
    let (mid2, s2) = message_step(reg, u2, false, false, lowered2, content2);
    assert(mid2 == reg.remove(u2));
    assert(mid2[u1] == reg[u1]);
    assert(reg.remove(u2).remove(u1) =~= reg.remove(u1).remove(u2));
    let m1 = monitor_of(completion_from(reg[u1]), message1);
    let m2 = monitor_of(completion_from(reg[u2]), message2);
    let a = store.push(m1).push(m2);
    let b = store.push(m2).push(m1);
    assert(a.subrange(0, store.len() as int) =~= store);
    assert(b.subrange(0, store.len() as int) =~= store);
    assert(a[store.len() as int] == m1);
    assert(a[store.len() as int + 1] == m2);
    assert(b[store.len() as int] == m2);
    assert(b[store.len() as int + 1] == m1);
}

/// A pair list in which no emoji is `emoji` grants nothing.
pub proof fn lemma_unpaired_emoji_in_pairs(pairs: Seq<PairView>, emoji: Seq<char>)
    requires
        forall|j: int| 0 <= j < pairs.len() ==> seq![#[trigger] pairs[j].emoji] != emoji,
    ensures
        granted_by_pairs(pairs, emoji) == Seq::<Seq<char>>::empty(),
    decreases pairs.len(),
{
    if pairs.len() > 0 {
        let rest = pairs.drop_last();
        assert forall|j: int| 0 <= j < rest.len() implies seq![#[trigger] rest[j].emoji] != emoji by {
            assert(rest[j] == pairs[j]);
        }
        lemma_unpaired_emoji_in_pairs(rest, emoji);
        assert(pairs.last() == pairs[pairs.len() - 1]);
    }
}

/// A reaction whose emoji no pair of the reacted post's monitors holds grants
/// no role.
pub proof fn lemma_unpaired_emoji_grants_nothing(
    monitors: Seq<MonitorView>,
    channel_id: u64,
    message_id: u64,
    emoji: Seq<char>,
)
    requires
        forall|i: int, j: int|
            0 <= i < monitors.len() && monitors[i].channel_id == channel_id
                && monitors[i].message_id == message_id && 0 <= j < monitors[i].reactions.len()
                ==> seq![#[trigger] monitors[i].reactions[j].emoji] != emoji,
    ensures
        granted(monitors, channel_id, message_id, emoji) == Seq::<Seq<char>>::empty(),
    decreases monitors.len(),
{
    if monitors.len() > 0 {
        let rest = monitors.drop_last();
        assert forall|i: int, j: int|
            0 <= i < rest.len() && rest[i].channel_id == channel_id && rest[i].message_id
                == message_id && 0 <= j < rest[i].reactions.len() implies seq![
            #[trigger] rest[i].reactions[j].emoji
        ] != emoji by {
            assert(rest[i] == monitors[i]);
        }
        lemma_unpaired_emoji_grants_nothing(rest, channel_id, message_id, emoji);
        let m = monitors.last();
        if m.channel_id == channel_id && m.message_id == message_id {
            assert forall|j: int| 0 <= j < m.reactions.len() implies seq![
                #[trigger] m.reactions[j].emoji
            ] != emoji by {
                assert(monitors[monitors.len() - 1] == m);
            }
            lemma_unpaired_emoji_in_pairs(m.reactions, emoji);
            assert(Seq::<Seq<char>>::empty() + Seq::<Seq<char>>::empty() =~= Seq::<Seq<char>>::empty());
        }
    }
}

} // verus!
