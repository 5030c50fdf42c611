use vstd::prelude::*;

use crate::model::{PairView, ReactionRole};

verus! {

/// What `str::to_lowercase` makes of a text.
pub uninterp spec fn lower_of(s: Seq<char>) -> Seq<char>;

/// Relies on `str::to_lowercase`: the result depends on the characters alone,
/// and an empty text stays empty.
#[verifier::external_body]
pub(crate) fn lowercase(s: &str) -> (r: String)
    ensures
        r@ == lower_of(s@),
        s@.len() == 0 ==> r@.len() == 0,
{
    s.to_lowercase()
}

/// Relies on serenity's `MessageBuilder::push` and `build`: with no formatting
/// applied, pushing a text onto a new builder appends it unchanged.
#[verifier::external_body]
fn build_message(content: &str) -> (r: String)
    ensures
        r@ == content@,
{
    serenity::utils::MessageBuilder::new().push(content).build()
}

/// The body of the public post made from the interview's content.
pub fn post_body(content: &str) -> (r: String)
    ensures
        r@ == content@,
{
    build_message(content)
}

/// Whether two texts hold the same characters.
pub fn same_text(a: &str, b: &str) -> (r: bool)
    ensures
        r == (a@ == b@),
{
    let x = a.to_owned();
    let y = b.to_owned();
    x == y
}

/// What a private message asks of the interview, by its lower-cased content.
#[derive(Debug, PartialEq, Eq, Structural, Clone, Copy)]
pub enum MessageKind {
    Quit,
    Done,
    Other,
}

/// The kind of a message whose lower-cased content is `lowered`.
pub open spec fn kind_of(lowered: Seq<char>) -> MessageKind {
    if lowered == "quit"@ {
        MessageKind::Quit
    } else if lowered == "done"@ {
        MessageKind::Done
    } else {
        MessageKind::Other
    }
}

/// Classifies a message from its already lower-cased content.
pub fn classify_lowered(lowered: &str) -> (r: MessageKind)
    ensures
        r == kind_of(lowered@),
{
    if same_text(lowered, "quit") {
        MessageKind::Quit
    } else if same_text(lowered, "done") {
        MessageKind::Done
    } else {
        MessageKind::Other
    }
}

/// The role name of a pairing message: what follows the first character and
/// the one separator character after it.
pub open spec fn role_part(content: Seq<char>) -> Seq<char> {
    if content.len() <= 2 {
        Seq::empty()
    } else {
        content.subrange(2, content.len() as int)
    }
}

/// The pair that a pairing message names, if it has any characters.
pub open spec fn parsed_pair(content: Seq<char>) -> Option<PairView> {
    if content.len() == 0 {
        None
    } else {
        Some(PairView { emoji: content[0], role_name: role_part(content) })
    }
}

/// Reads a pairing message `<emoji><separator><role name>`.
pub fn parse_pair(content: &str) -> (r: Option<ReactionRole>)
    ensures
        match r {
            Some(p) => parsed_pair(content@) == Some(p@),
            None => parsed_pair(content@) is None,
        },
{
    let n = content.unicode_len();
    if n == 0 {
        return None;
    }
    let emoji = content.get_char(0);
    let start: usize = if n < 2 { n } else { 2 };
    let rest = content.substring_char(start, n);
    assert(rest@ =~= role_part(content@));
    Some(ReactionRole::new(emoji, rest))
}

/// The names in order, with `sep` between each two.
pub open spec fn joined(names: Seq<Seq<char>>, sep: Seq<char>) -> Seq<char>
    decreases names.len(),
{
    if names.len() == 0 {
        Seq::empty()
    } else if names.len() == 1 {
        names[0]
    } else {
        joined(names.drop_last(), sep) + sep + names.last()
    }
}

/// Lists `names` in one text, with `sep` between each two.
pub fn join_names(names: &Vec<String>, sep: &str) -> (r: String)
    ensures
        r@ == joined(names.deep_view(), sep@),
{
    let mut out = String::new();
    let mut i: usize = 0;
    while i < names.len()
        invariant
            i <= names@.len(),
            out@ == joined(names.deep_view().take(i as int), sep@),
        decreases names@.len() - i,
    {
        let ghost all = names.deep_view();
        proof {
            assert(all.take(i as int + 1).drop_last() =~= all.take(i as int));
        }
        if i > 0 {
            out.append(sep);
        }
        out.append(names[i].as_str());
        proof {
            if i == 0 {
                assert(out@ =~= all.take(1)[0]);
            } else {
                assert(out@ =~= joined(all.take(i as int), sep@) + sep@ + all[i as int]);
            }
        }
        i = i + 1;
    }
    assert(names.deep_view().take(names@.len() as int) =~= names.deep_view());
    out
}

} // verus!
