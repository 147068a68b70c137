//! What a publisher puts on the channel for a file that holds an order.

use vstd::prelude::*;

verus! {

/// The test that a character is another than `unwanted`.
pub open spec fn other_than(unwanted: char) -> spec_fn(char) -> bool {
    |c: char| c != unwanted
}

/// `text` without the character `unwanted`.
pub open spec fn without(text: Seq<char>, unwanted: char) -> Seq<char> {
    text.filter(other_than(unwanted))
}

/// The payload for a file's contents: the contents without line feeds and
/// without spaces.
pub open spec fn payload_text(contents: Seq<char>) -> Seq<char> {
    without(without(contents, '\n'), ' ')
}

/// Takes every `unwanted` out of `text`.
///
/// Trusted: calls `str::replace` with a character as the pattern and the
/// empty string to put in its place, which leaves the other characters as
/// they are and in their order.
#[verifier::external_body]
fn strip(text: &str, unwanted: char) -> (stripped: String)
    ensures
        stripped@ == without(text@, unwanted),
{
    text.replace(unwanted, "")
}

/// Packs the contents of a file into one payload.
pub fn payload_of(contents: &str) -> (payload: String)
    ensures
        payload@ == payload_text(contents@),
        forall|i: int| 0 <= i < payload@.len() ==> payload@[i] != '\n' && payload@[i] != ' ',
        payload@.len() <= contents@.len(),
{
    let lines_joined: String = strip(contents, '\n');
    let payload: String = strip(lines_joined.as_str(), ' ');
    proof {
        let keep_lines = other_than('\n');
        let keep_spaces = other_than(' ');
        let joined = contents@.filter(keep_lines);
        contents@.lemma_filter_len(keep_lines);
        joined.lemma_filter_len(keep_spaces);
        assert forall|i: int| 0 <= i < payload@.len() implies payload@[i] != '\n' && payload@[i]
            != ' ' by {
            joined.lemma_filter_pred(keep_spaces, i);
            joined.lemma_filter_contains_rev(keep_spaces, payload@[i]);
            let from = choose|from: int| 0 <= from < joined.len() && joined[from] == payload@[i];
            contents@.lemma_filter_pred(keep_lines, from);
        }
    }
    payload
}

} // verus!
