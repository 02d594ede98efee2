use vstd::prelude::*;

verus! {

/// Relies on `String::push`: the character is appended at the end.
#[verifier::external_body]
pub(crate) fn push_char(s: &mut String, c: char)
    ensures
        final(s)@ == old(s)@.push(c),
{
    s.push(c);
}

/// Number of characters kept in a search snippet.
pub const SNIPPET_LENGTH: usize = 100;

/// The snippet shown for `content`: the content itself when it has at most
/// `max_length` characters, else its first `max_length` characters followed
/// by `"..."`.
pub open spec fn snippet_of(content: Seq<char>, max_length: nat) -> Seq<char> {
    if content.len() <= max_length {
        content
    } else {
        content.subrange(0, max_length as int) + seq!['.', '.', '.']
    }
}

/// Cuts `content` down to at most `max_length` characters, marking a cut with
/// a trailing `"..."`.
pub fn truncate_content(content: &str, max_length: usize) -> (r: String)
    ensures
        r@ == snippet_of(content@, max_length as nat),
{
    let mut kept = String::new();
    let mut count: usize = 0;
    let mut cut = false;
    for c in it: content.chars()
        invariant
            it.seq() == content@,
            count <= max_length,
            count as int == if it.index() < max_length { it.index() } else { max_length as int },
            kept@ == content@.subrange(0, count as int),
            cut <==> it.index() > max_length,
    {
        if count < max_length {
            push_char(&mut kept, c);
            count = count + 1;
        } else {
            cut = true;
        }
    }
    if cut {
        proof {
            reveal_strlit("...");
        }
        kept.append("...");
    }
    kept
}

} // verus!
