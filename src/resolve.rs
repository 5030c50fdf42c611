use vstd::prelude::*;

use crate::model::{Monitor, MonitorView, PairView, ReactionRole};
use crate::store::MonitorManager;

verus! {

/// The emoji of a reaction event.
#[derive(Debug)]
pub enum ReactionEmoji {
    /// A plain glyph, as text.
    Unicode(String),
    /// A custom emoji of a guild, which no monitor handles.
    Custom,
}

/// Mathematical form of a [`ReactionEmoji`].
pub enum EmojiView {
    Unicode(Seq<char>),
    Custom,
}

impl View for ReactionEmoji {
    type V = EmojiView;

    open spec fn view(&self) -> EmojiView {
        match self {
            ReactionEmoji::Unicode(s) => EmojiView::Unicode(s@),
            ReactionEmoji::Custom => EmojiView::Custom,
        }
    }
}

/// The role names of the pairs, in order, whose emoji written out is `emoji`.
pub open spec fn granted_by_pairs(pairs: Seq<PairView>, emoji: Seq<char>) -> Seq<Seq<char>>
    decreases pairs.len(),
{
    if pairs.len() == 0 {
        Seq::empty()
    } else {
        let rest = granted_by_pairs(pairs.drop_last(), emoji);
        if seq![pairs.last().emoji] == emoji {
            rest.push(pairs.last().role_name)
        } else {
            rest
        }
    }
}

/// The role names, in order, that a reaction with `emoji` on message
/// `message_id` of `channel_id` grants through the monitors of that post.
pub open spec fn granted(
    monitors: Seq<MonitorView>,
    channel_id: u64,
    message_id: u64,
    emoji: Seq<char>,
) -> Seq<Seq<char>>
    decreases monitors.len(),
{
    if monitors.len() == 0 {
        Seq::empty()
    } else {
        let rest = granted(monitors.drop_last(), channel_id, message_id, emoji);
        let m = monitors.last();
        if m.channel_id == channel_id && m.message_id == message_id {
            rest + granted_by_pairs(m.reactions, emoji)
        } else {
            rest
        }
    }
}

/// What a reaction event resolves to: nothing when it happened outside a
/// guild or carries a custom emoji, else the role names to grant, in order.
pub open spec fn resolution(
    monitors: Seq<MonitorView>,
    guild_id: Option<u64>,
    channel_id: u64,
    message_id: u64,
    emoji: EmojiView,
) -> Option<Seq<Seq<char>>> {
    match (guild_id, emoji) {
        (Some(_), EmojiView::Unicode(e)) => Some(granted(monitors, channel_id, message_id, e)),
        _ => None,
    }
}

/// Whether `text` is exactly the glyph `emoji`.
pub fn is_glyph(emoji: char, text: &str) -> (r: bool)
    ensures
        r == (seq![emoji] == text@),
{
    let n = text.unicode_len();
    if n != 1 {
        proof {
            if seq![emoji] == text@ {
                assert(seq![emoji].len() == 1);
            }
        }
        return false;
    }
    let c = text.get_char(0);
    proof {
        if c == emoji {
            assert(seq![emoji] =~= text@);
        }
    }
    c == emoji
}

/// Appends to `out` the role names of `pairs` whose emoji is `emoji`.
fn collect_pair_roles(pairs: &Vec<ReactionRole>, emoji: &str, out: &mut Vec<String>)
    ensures
        final(out).deep_view() == old(out).deep_view() + granted_by_pairs(
            crate::model::pairs_view(pairs@),
            emoji@,
        ),
{
    let ghost start = out.deep_view();
    let ghost all = crate::model::pairs_view(pairs@);
    let mut i: usize = 0;
    while i < pairs.len()
        invariant
            i <= pairs@.len(),
            all == crate::model::pairs_view(pairs@),
            out.deep_view() == start + granted_by_pairs(all.take(i as int), emoji@),
        decreases pairs@.len() - i,
    {
        proof {
            assert(all.take(i as int + 1).drop_last() =~= all.take(i as int));
        }
        let p = &pairs[i];
        if is_glyph(p.emoji, emoji) {
            let ghost before = out.deep_view();
            out.push(p.role_name.clone());
            assert(out.deep_view() =~= before.push(p.role_name@));
            assert(out.deep_view() =~= start + granted_by_pairs(all.take(i as int + 1), emoji@));
        }
        i = i + 1;
    }
    assert(all.take(pairs@.len() as int) =~= all);
}

impl MonitorManager {
    /// The role names to grant for a reaction with `emoji` on message
    /// `message_id` of `channel_id`, in the order of the monitors and of their
    /// pairs; `None` when the event is not one that monitors handle.
    pub fn roles_for_reaction(
        &self,
        guild_id: Option<u64>,
        channel_id: u64,
        message_id: u64,
        emoji: &ReactionEmoji,
    ) -> (r: Option<Vec<String>>)
        ensures
            r.deep_view() == resolution(self@, guild_id, channel_id, message_id, emoji@),
    {
        if guild_id.is_none() {
            return None;
        }
        let text = match emoji {
            ReactionEmoji::Unicode(s) => s.as_str(),
            ReactionEmoji::Custom => {
                return None;
            },
        };
        let monitors = self.monitors();
        let ghost all = self@;
        let mut out: Vec<String> = Vec::new();
        let mut i: usize = 0;
        while i < monitors.len()
            invariant
                i <= monitors@.len(),
                all == monitors@.map_values(|m: Monitor| m@),
                out.deep_view() == granted(all.take(i as int), channel_id, message_id, text@),
            decreases monitors@.len() - i,
        {
            proof {
                assert(all.take(i as int + 1).drop_last() =~= all.take(i as int));
            }
            let m = &monitors[i];
            if m.channel_id == channel_id && m.message_id == message_id {
                collect_pair_roles(&m.reactions, text, &mut out);
            }
            i = i + 1;
        }
        assert(all.take(monitors@.len() as int) =~= all);
        Some(out)
    }
}

/// The position of the first member whose user id is `user_id`.
pub fn find_member(user_ids: &Vec<u64>, user_id: u64) -> (r: Option<usize>)
    ensures
        match r {
            Some(i) => i < user_ids@.len() && user_ids@[i as int] == user_id && forall|j: int|
                0 <= j < i ==> user_ids@[j] != user_id,
            None => !user_ids@.contains(user_id),
        },
{
    let mut i: usize = 0;
    while i < user_ids.len()
        invariant
            i <= user_ids@.len(),
            forall|j: int| 0 <= j < i ==> user_ids@[j] != user_id,
        decreases user_ids@.len() - i,
    {
        if user_ids[i] == user_id {
            return Some(i);
        }
        i = i + 1;
    }
    None
}

/// The position of the first role whose name is exactly `role_name`.
pub fn find_role(role_names: &Vec<String>, role_name: &str) -> (r: Option<usize>)
    ensures
        match r {
            Some(i) => i < role_names@.len() && role_names@[i as int]@ == role_name@ && forall|j: int|
                0 <= j < i ==> role_names@[j]@ != role_name@,
            None => !role_names.deep_view().contains(role_name@),
        },
{
    let mut i: usize = 0;
    while i < role_names.len()
        invariant
            i <= role_names@.len(),
            forall|j: int| 0 <= j < i ==> role_names@[j]@ != role_name@,
        decreases role_names@.len() - i,
    {
        if crate::text::same_text(role_names[i].as_str(), role_name) {
            return Some(i);
        }
        i = i + 1;
    }
    proof {
        if role_names.deep_view().contains(role_name@) {
            let k = choose|k: int| 0 <= k < role_names.deep_view().len() && role_names.deep_view()[k] == role_name@;
            assert(role_names@[k]@ == role_name@);
        }
    }
    None
}

} // verus!
