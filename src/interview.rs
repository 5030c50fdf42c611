use std::collections::HashMap;

use vstd::prelude::*;

use crate::model::{pairs_view, InterviewView, PairView, ReactionRole, SetupState};
use crate::text::{
    classify_lowered, kind_of, lower_of, lowercase, parse_pair, parsed_pair, post_body, same_text,
    MessageKind,
};

verus! {

broadcast use vstd::std_specs::hash::group_hash_axioms;

/// What a completed interview hands over: where to post, the body of the
/// post, and the pairs whose reactions seed it.
#[derive(Debug)]
pub struct Completion {
    pub channel_id: u64,
    pub guild_id: u64,
    pub body: String,
    pub reactions: Vec<ReactionRole>,
}

/// Mathematical form of a [`Completion`].
pub struct CompletionView {
    pub channel_id: u64,
    pub guild_id: u64,
    pub body: Seq<char>,
    pub reactions: Seq<PairView>,
}

impl View for Completion {
    type V = CompletionView;

    open spec fn view(&self) -> CompletionView {
        CompletionView {
            channel_id: self.channel_id,
            guild_id: self.guild_id,
            body: self.body@,
            reactions: pairs_view(self.reactions@),
        }
    }
}

/// The outcome of one private message, and what the caller has to do next.
#[derive(Debug)]
pub enum Step {
    /// Not for the interview: nothing to do, nothing to reply.
    Ignored,
    /// The interview was discarded.
    Aborted,
    /// The post's content was recorded; the pairs come next.
    ContentRecorded,
    /// "done" came before any content; the interview is unchanged.
    ContentMissing,
    /// The message holds no pair; the interview is unchanged.
    FormatError,
    /// The message names a pair; the caller fetches the roles of `guild_id`
    /// and hands them to [`StateManager::add_pair`].
    CheckRole { guild_id: u64, pair: ReactionRole },
    /// The interview is over and removed; the caller posts the result.
    Complete(Completion),
}

/// Mathematical form of a [`Step`].
pub enum StepView {
    Ignored,
    Aborted,
    ContentRecorded,
    ContentMissing,
    FormatError,
    CheckRole { guild_id: u64, pair: PairView },
    Complete(CompletionView),
}

impl View for Step {
    type V = StepView;

    open spec fn view(&self) -> StepView {
        match self {
            Step::Ignored => StepView::Ignored,
            Step::Aborted => StepView::Aborted,
            Step::ContentRecorded => StepView::ContentRecorded,
            Step::ContentMissing => StepView::ContentMissing,
            Step::FormatError => StepView::FormatError,
            Step::CheckRole { guild_id, pair } => StepView::CheckRole { guild_id: *guild_id, pair: pair@ },
            Step::Complete(c) => StepView::Complete(c@),
        }
    }
}

/// The registry of interviews in progress, by the user who started each.
pub struct StateManager {
    states: HashMap<u64, SetupState>,
}

/// The registry after `user` starts an interview in `channel_id` of a guild;
/// outside a guild it is unchanged.
pub open spec fn started(
    reg: Map<u64, InterviewView>,
    user: u64,
    guild_id: Option<u64>,
    channel_id: u64,
) -> Map<u64, InterviewView> {
    match guild_id {
        Some(g) => reg.insert(user, crate::model::fresh_interview(channel_id, g)),
        None => reg,
    }
}

/// The registry and the outcome after a message from `author`, whose content is
/// `content` and, lower-cased, `lowered`.
pub open spec fn message_step(
    reg: Map<u64, InterviewView>,
    author: u64,
    in_guild: bool,
    from_bot: bool,
    lowered: Seq<char>,
    content: Seq<char>,
) -> (Map<u64, InterviewView>, StepView) {
    if in_guild || from_bot || !reg.contains_key(author) {
        (reg, StepView::Ignored)
    } else {
        let st = reg[author];
        match kind_of(lowered) {
            MessageKind::Quit => (reg.remove(author), StepView::Aborted),
            MessageKind::Done => match st.post_content {
                None => (reg, StepView::ContentMissing),
                Some(c) => (
                    reg.remove(author),
                    StepView::Complete(
                        CompletionView {
                            channel_id: st.channel_id,
                            guild_id: st.guild_id,
                            body: c,
                            reactions: st.reactions,
                        },
                    ),
                ),
            },
            MessageKind::Other => match st.post_content {
                None => (
                    reg.insert(author, InterviewView { post_content: Some(content), ..st }),
                    StepView::ContentRecorded,
                ),
                Some(_) => match parsed_pair(content) {
                    None => (reg, StepView::FormatError),
                    Some(p) => (reg, StepView::CheckRole { guild_id: st.guild_id, pair: p }),
                },
            },
        }
    }
}

/// The name of the role that every member holds implicitly.
pub open spec fn everyone_role() -> Seq<char> {
    "@everyone"@
}

/// The role names that a pair may name: those of `names` but the implicit
/// role, in order.
pub open spec fn assignable(names: Seq<Seq<char>>) -> Seq<Seq<char>>
    decreases names.len(),
{
    if names.len() == 0 {
        Seq::empty()
    } else {
        let rest = assignable(names.drop_last());
        if names.last() == everyone_role() {
            rest
        } else {
            rest.push(names.last())
        }
    }
}

/// The outcome of checking a pair against the roles of its guild.
#[derive(Debug)]
pub enum PairOutcome {
    /// `author` has no interview in progress; nothing changed.
    NoInterview,
    /// The pair was appended to the interview.
    Added,
    /// No assignable role has that name; these are the names there are.
    UnknownRole(Vec<String>),
}

/// Mathematical form of a [`PairOutcome`].
pub enum PairOutcomeView {
    NoInterview,
    Added,
    UnknownRole(Seq<Seq<char>>),
}

impl View for PairOutcome {
    type V = PairOutcomeView;

    open spec fn view(&self) -> PairOutcomeView {
        match self {
            PairOutcome::NoInterview => PairOutcomeView::NoInterview,
            PairOutcome::Added => PairOutcomeView::Added,
            PairOutcome::UnknownRole(v) => PairOutcomeView::UnknownRole(v.deep_view()),
        }
    }
}

/// The registry and the outcome after checking `pair` for `author` against
/// the role names `roster` of the guild.
pub open spec fn pair_step(
    reg: Map<u64, InterviewView>,
    author: u64,
    pair: PairView,
    roster: Seq<Seq<char>>,
) -> (Map<u64, InterviewView>, PairOutcomeView) {
    if !reg.contains_key(author) {
        (reg, PairOutcomeView::NoInterview)
    } else if assignable(roster).contains(pair.role_name) {
        let st = reg[author];
        (
            reg.insert(author, InterviewView { reactions: st.reactions.push(pair), ..st }),
            PairOutcomeView::Added,
        )
    } else {
        (reg, PairOutcomeView::UnknownRole(assignable(roster)))
    }
}

/// The role names of `roster` that a pair may name.
pub fn assignable_roles(roster: &Vec<String>) -> (r: Vec<String>)
    ensures
        r.deep_view() == assignable(roster.deep_view()),
{
    let mut out: Vec<String> = Vec::new();
    let mut i: usize = 0;
    while i < roster.len()
        invariant
            i <= roster@.len(),
            out.deep_view() == assignable(roster.deep_view().take(i as int)),
        decreases roster@.len() - i,
    {
        let ghost names = roster.deep_view();
        proof {
            assert(names.take(i as int + 1).drop_last() =~= names.take(i as int));
        }
        let name = &roster[i];
        if !same_text(name.as_str(), "@everyone") {
            let ghost before = out.deep_view();
            out.push(name.clone());
            assert(out.deep_view() =~= before.push(name@));
        }
        i = i + 1;
    }
    assert(roster.deep_view().take(roster@.len() as int) =~= roster.deep_view());
    out
}

/// Whether `names` holds `name`.
pub fn holds_name(names: &Vec<String>, name: &str) -> (r: bool)
    ensures
        r == names.deep_view().contains(name@),
{
    let mut i: usize = 0;
    while i < names.len()
        invariant
            i <= names@.len(),
            forall|j: int| 0 <= j < i ==> names.deep_view()[j] != name@,
        decreases names@.len() - i,
    {
        if same_text(names[i].as_str(), name) {
            assert(names.deep_view()[i as int] == name@);
            return true;
        }
        i = i + 1;
    }
    false
}

impl View for StateManager {
    type V = Map<u64, InterviewView>;

    closed spec fn view(&self) -> Map<u64, InterviewView> {
        self.states@.map_values(|s: SetupState| s@)
    }
}

impl StateManager {
    /// A registry with no interview.
    pub fn new() -> (r: Self)
        ensures
            r@ == Map::<u64, InterviewView>::empty(),
    {
        let r = StateManager { states: HashMap::new() };
        assert(r@ =~= Map::<u64, InterviewView>::empty());
        r
    }

    /// Whether `user` has an interview in progress.
    pub fn contains(&self, user: u64) -> (r: bool)
        ensures
            r == self@.contains_key(user),
    {
        self.states.contains_key(&user)
    }

    /// Starts an interview for `user` on the setup command, replacing any
    /// earlier one; the command is only heard in a guild, so without
    /// `guild_id` nothing changes. Returns whether an interview started.
    pub fn start(&mut self, user: u64, guild_id: Option<u64>, channel_id: u64) -> (r: bool)
        ensures
            r == guild_id is Some,
            final(self)@ == started(old(self)@, user, guild_id, channel_id),
    {
        match guild_id {
            Some(g) => {
                let st = SetupState::new(channel_id, g);
                self.states.insert(user, st);
                assert(self@ =~= started(old(self)@, user, guild_id, channel_id));
                true
            },
            None => false,
        }
    }

    /// Advances the interview of `author` by one private message, given its
    /// content and that content lower-cased.
    pub fn on_message_lowered(
        &mut self,
        author: u64,
        in_guild: bool,
        from_bot: bool,
        lowered: &str,
        content: &str,
    ) -> (r: Step)
        ensures
            (final(self)@, r@) == message_step(
                old(self)@,
                author,
                in_guild,
                from_bot,
                lowered@,
                content@,
            ),
    {
        if in_guild || from_bot || !self.states.contains_key(&author) {
            return Step::Ignored;
        }
        let ghost reg = self@;
        let ghost st = reg[author];
        assert(self.states@.contains_key(author));
        assert(self.states@[author]@ == st);
        match classify_lowered(lowered) {
            MessageKind::Quit => {
                self.states.remove(&author);
                assert(self@ =~= reg.remove(author));
                Step::Aborted
            },
            MessageKind::Done => {
                let body = match self.states.get(&author) {
                    Some(cur) => match &cur.post_content {
                        Some(c) => post_body(c.as_str()),
                        None => {
                            return Step::ContentMissing;
                        },
                    },
                    None => {
                        return Step::Ignored;
                    },
                };
                match self.states.remove(&author) {
                    Some(removed) => {
                        assert(self@ =~= reg.remove(author));
                        Step::Complete(
                            Completion {
                                channel_id: removed.channel_id,
                                guild_id: removed.guild_id,
                                body,
                                reactions: removed.reactions,
                            },
                        )
                    },
                    None => Step::Ignored,
                }
            },
            MessageKind::Other => {
                let (recorded, guild_id) = match self.states.get(&author) {
                    Some(cur) => (cur.post_content.is_some(), cur.guild_id),
                    None => {
                        return Step::Ignored;
                    },
                };
                if recorded {
                    match parse_pair(content) {
                        Some(pair) => Step::CheckRole { guild_id, pair },
                        None => Step::FormatError,
                    }
                } else {
                    match self.states.remove(&author) {
                        Some(removed) => {
                            let updated = SetupState {
                                channel_id: removed.channel_id,
                                guild_id: removed.guild_id,
                                post_content: Some(content.to_owned()),
                                reactions: removed.reactions,
                            };
                            self.states.insert(author, updated);
                            assert(self@ =~= reg.insert(
                                author,
                                InterviewView { post_content: Some(content@), ..st },
                            ));
                            Step::ContentRecorded
                        },
                        None => Step::Ignored,
                    }
                }
            },
        }
    }

    /// Advances the interview of `author` by one private message. A message
    /// sent in a guild, sent by a bot, or from a user with no interview in
    /// progress changes nothing and asks for no reply.
    pub fn on_message(&mut self, author: u64, in_guild: bool, from_bot: bool, content: &str) -> (r: Step)
        ensures
            (final(self)@, r@) == message_step(
                old(self)@,
                author,
                in_guild,
                from_bot,
                lower_of(content@),
                content@,
            ),
            !old(self)@.contains_key(author) ==> final(self)@ == old(self)@ && r@ == StepView::Ignored,
    {
        let lowered = lowercase(content);
        self.on_message_lowered(author, in_guild, from_bot, lowered.as_str(), content)
    }

    /// Appends `pair` to the interview of `author` when `roster`, the role
    /// names of the interview's guild, holds an assignable role of that name.
    pub fn add_pair(&mut self, author: u64, pair: ReactionRole, roster: &Vec<String>) -> (r: PairOutcome)
        ensures
            (final(self)@, r@) == pair_step(old(self)@, author, pair@, roster.deep_view()),
    {
        let ghost reg = self@;
        let valid = assignable_roles(roster);
        match self.states.remove(&author) {
            None => {
                assert(self@ =~= reg);
                PairOutcome::NoInterview
            },
            Some(removed) => {
                let ghost st = reg[author];
                assert(removed@ == st);
                if holds_name(&valid, pair.role_name.as_str()) {
                    let mut reactions = removed.reactions;
                    reactions.push(pair);
                    let updated = SetupState {
                        channel_id: removed.channel_id,
                        guild_id: removed.guild_id,
                        post_content: removed.post_content,
                        reactions,
                    };
                    assert(updated@.reactions =~= st.reactions.push(pair@));
                    self.states.insert(author, updated);
                    assert(self@ =~= reg.insert(
                        author,
                        InterviewView { reactions: st.reactions.push(pair@), ..st },
                    ));
                    PairOutcome::Added
                } else {
                    self.states.insert(author, removed);
                    assert(self@ =~= reg);
                    PairOutcome::UnknownRole(valid)
                }
            },
        }
    }
}

} // verus!
