//! The proxied form of an address: a local path that carries a whole URL.
//!
//! A target URL travels as the marker `/~/` followed by the URL in
//! percent-encoded form. This module builds such paths and takes them apart
//! again; the percent codec itself is the one of the `afire` crate.
use vstd::prelude::*;
use vstd::string::*;

verus! {

/// The marker that opens the encoded target inside a proxied path.
pub const MARKER: &'static str = "/~/";

/// What `afire::internal::encoding::url::encode` makes of a text.
pub uninterp spec fn percent_encoded(text: Seq<char>) -> Seq<char>;

/// What `afire::internal::encoding::url::decode` makes of a text.
pub uninterp spec fn percent_decoded(text: Seq<char>) -> Seq<char>;

/// Assumed of `afire::internal::encoding::url::encode`, not proved. It walks
/// the characters of its argument and builds a new string from them; it
/// reads nothing else, so what it returns is one function of the text. That
/// function is named [`percent_encoded`]. Nothing is said of its values.
pub assume_specification[ afire::internal::encoding::url::encode ](
    url: &str,
) -> (encoded: String)
    ensures
        encoded@ == percent_encoded(url@),
;

/// Assumed of `afire::internal::encoding::url::decode`, not proved. It walks
/// the characters of its argument, leaves out what it cannot decode, and
/// builds a new string; it reads nothing else, so what it returns is one
/// function of the text. That function is named [`percent_decoded`]. Nothing
/// is said of its values.
pub assume_specification[ afire::internal::encoding::url::decode ](
    url: &str,
) -> (decoded: String)
    ensures
        decoded@ == percent_decoded(url@),
;

/// The marker stands in `text` at position `at`.
pub open spec fn marker_at(text: Seq<char>, at: int) -> bool {
    &&& 0 <= at
    &&& at + MARKER@.len() <= text.len()
    &&& text.subrange(at, at + MARKER@.len()) == MARKER@
}

/// The marker stands at `at` and nowhere before it.
pub open spec fn first_marker_at(text: Seq<char>, at: int) -> bool {
    &&& marker_at(text, at)
    &&& forall|before: int| 0 <= before < at ==> !marker_at(text, before)
}

/// The marker occurs somewhere in `text`.
pub open spec fn has_marker(text: Seq<char>) -> bool {
    exists|at: int| marker_at(text, at)
}

/// Everything that follows the first occurrence of the marker, or `None`
/// where the marker does not occur.
pub open spec fn after_marker(text: Seq<char>) -> Option<Seq<char>> {
    if has_marker(text) {
        Some(text.skip((choose|at: int| first_marker_at(text, at)) + MARKER@.len()))
    } else {
        None
    }
}

/// The proxied path of an encoded target: the marker, then the target.
pub open spec fn proxied(encoded: Seq<char>) -> Seq<char> {
    MARKER@ + encoded
}

/// The marker is three characters long, and it stands at a position exactly
/// when those three characters are found there.
pub proof fn lemma_marker_at(text: Seq<char>, at: int)
    ensures
        MARKER@.len() == 3,
        marker_at(text, at) <==> {
            &&& 0 <= at
            &&& at + 3 <= text.len()
            &&& text[at] == '/'
            &&& text[at + 1] == '~'
            &&& text[at + 2] == '/'
        },
{
    reveal_strlit("/~/");
    if 0 <= at && at + 3 <= text.len() {
        let window = text.subrange(at, at + 3);
        if text[at] == '/' && text[at + 1] == '~' && text[at + 2] == '/' {
            assert(window =~= MARKER@);
        }
        if window == MARKER@ {
            assert(window[0] == '/' && window[1] == '~' && window[2] == '/');
        }
    }
}

/// The first occurrence of the marker is the one that [`after_marker`] cuts
/// at.
pub proof fn lemma_first_marker(text: Seq<char>, at: int)
    requires
        first_marker_at(text, at),
    ensures
        after_marker(text) == Some(text.skip(at + MARKER@.len())),
{
    let chosen: int = choose|k: int| first_marker_at(text, k);
    assert(first_marker_at(text, chosen));
    assert(chosen == at) by {
        if chosen < at {
            assert(!marker_at(text, chosen));
        }
        if at < chosen {
            assert(!marker_at(text, at));
        }
    }
}

/// Builds the proxied path of an encoded target.
pub fn proxied_path(encoded: &str) -> (path: String)
    ensures
        path@ == proxied(encoded@),
{
    let mut path = MARKER.to_owned();
    path.append(encoded);
    path
}

/// Splits a path at the first occurrence of the marker and returns what
/// follows it. A path without the marker has no such part.
pub fn marker_suffix(path: &str) -> (rest: Option<&str>)
    ensures
        match rest {
            Some(rest) => after_marker(path@) == Some(rest@),
            None => after_marker(path@) is None,
        },
{
    let total: usize = path.unicode_len();
    let mut seen: usize = 0;
    let mut before_last: char = ' ';
    let mut last: char = ' ';
    for c in it: path.chars()
        invariant
            it.seq() == path@,
            total == path@.len(),
            seen == it.index(),
            seen >= 1 ==> last == path@[seen - 1],
            seen >= 2 ==> before_last == path@[seen - 2],
            forall|at: int| 0 <= at && at + 3 <= seen ==> !marker_at(path@, at),
    {
        proof {
            lemma_marker_at(path@, seen - 2);
        }
        if seen >= 2 && before_last == '/' && last == '~' && c == '/' {
            proof {
                lemma_first_marker(path@, seen - 2);
            }
            return Some(path.substring_char(seen + 1, total));
        }
        before_last = last;
        last = c;
        seen = seen + 1;
    }
    proof {
        assert forall|at: int| !marker_at(path@, at) by {
            lemma_marker_at(path@, at);
        }
    }
    None
}

} // verus!
