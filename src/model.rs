use vstd::prelude::*;

verus! {

/// Mathematical form of a [`ReactionRole`].
pub struct PairView {
    pub emoji: char,
    pub role_name: Seq<char>,
}

/// Pairing of an emoji and a role name.
#[derive(Debug)]
pub struct ReactionRole {
    pub emoji: char,
    pub role_name: String,
}

impl View for ReactionRole {
    type V = PairView;

    open spec fn view(&self) -> PairView {
        PairView { emoji: self.emoji, role_name: self.role_name@ }
    }
}

/// The views of a list of pairs, in order.
pub open spec fn pairs_view(v: Seq<ReactionRole>) -> Seq<PairView> {
    v.map_values(|p: ReactionRole| p@)
}

impl ReactionRole {
    /// Creates a pairing of `emoji` with a copy of `role_name`.
    pub fn new(emoji: char, role_name: &str) -> (r: Self)
        ensures
            r@ == (PairView { emoji, role_name: role_name@ }),
    {
        ReactionRole { emoji, role_name: role_name.to_owned() }
    }

    /// A copy that keeps both fields.
    pub fn duplicate(&self) -> (r: Self)
        ensures
            r@ == self@,
    {
        ReactionRole { emoji: self.emoji, role_name: self.role_name.clone() }
    }
}

/// Copies a list of pairs, keeping their order.
pub fn copy_pairs(v: &Vec<ReactionRole>) -> (r: Vec<ReactionRole>)
    ensures
        pairs_view(r@) == pairs_view(v@),
{
    let mut out: Vec<ReactionRole> = Vec::new();
    let mut i: usize = 0;
    while i < v.len()
        invariant
            i <= v@.len(),
            pairs_view(out@) == pairs_view(v@.take(i as int)),
        decreases v@.len() - i,
    {
        let p = v[i].duplicate();
        let ghost before = out@;
        out.push(p);
        proof {
            assert(v@.take(i as int + 1) =~= v@.take(i as int).push(v@[i as int]));
            assert(pairs_view(out@) =~= pairs_view(before).push(p@));
            assert(pairs_view(v@.take(i as int + 1)) =~= pairs_view(v@.take(i as int)).push(
                v@[i as int]@,
            ));
        }
        i = i + 1;
    }
    assert(v@.take(v@.len() as int) =~= v@);
    out
}

/// Mathematical form of a [`SetupState`]: an interview in progress.
pub struct InterviewView {
    pub channel_id: u64,
    pub guild_id: u64,
    pub post_content: Option<Seq<char>>,
    pub reactions: Seq<PairView>,
}

/// A monitored post being assembled through the setup interview.
#[derive(Debug)]
pub struct SetupState {
    pub channel_id: u64,
    pub guild_id: u64,
    pub post_content: Option<String>,
    pub reactions: Vec<ReactionRole>,
}

impl View for SetupState {
    type V = InterviewView;

    open spec fn view(&self) -> InterviewView {
        InterviewView {
            channel_id: self.channel_id,
            guild_id: self.guild_id,
            post_content: match self.post_content {
                Some(c) => Some(c@),
                None => None,
            },
            reactions: pairs_view(self.reactions@),
        }
    }
}

/// The state in which an interview begins: no content and no pairs yet.
pub open spec fn fresh_interview(channel_id: u64, guild_id: u64) -> InterviewView {
    InterviewView { channel_id, guild_id, post_content: None, reactions: Seq::empty() }
}

impl SetupState {
    /// Starts an interview for a post in `channel_id` of `guild_id`.
    pub fn new(channel_id: u64, guild_id: u64) -> (r: Self)
        ensures
            r@ == fresh_interview(channel_id, guild_id),
    {
        let r = SetupState { channel_id, guild_id, post_content: None, reactions: Vec::new() };
        assert(r@.reactions =~= Seq::<PairView>::empty());
        r
    }
}

/// Mathematical form of a [`Monitor`].
pub struct MonitorView {
    pub channel_id: u64,
    pub guild_id: u64,
    pub message_id: u64,
    pub reactions: Seq<PairView>,
}

/// A posted message whose reactions grant roles.
#[derive(Debug)]
pub struct Monitor {
    pub channel_id: u64,
    pub guild_id: u64,
    pub message_id: u64,
    pub reactions: Vec<ReactionRole>,
}

impl View for Monitor {
    type V = MonitorView;

    open spec fn view(&self) -> MonitorView {
        MonitorView {
            channel_id: self.channel_id,
            guild_id: self.guild_id,
            message_id: self.message_id,
            reactions: pairs_view(self.reactions@),
        }
    }
}

impl Monitor {
    /// Creates a monitor of message `message_id`, with a copy of `reactions`.
    pub fn new(channel_id: u64, guild_id: u64, message_id: u64, reactions: &Vec<ReactionRole>) -> (r: Self)
        ensures
            r@ == (MonitorView { channel_id, guild_id, message_id, reactions: pairs_view(reactions@) }),
    {
        Monitor { channel_id, guild_id, message_id, reactions: copy_pairs(reactions) }
    }
}

} // verus!
