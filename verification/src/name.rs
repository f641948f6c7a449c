//! Header names: case folding, exact matching, and the blocklist.
use vstd::prelude::*;
use crate::header::Header;

verus! {

/// Names of the headers that never cross the proxy, in either direction.
///
/// Every entry is written in lower case, the form that names are folded to
/// before they are looked up.
pub const BLOCKED_HEADERS: [&'static str; 6] = [
    "transfer-encoding",
    "connection",
    "content-security-policy",
    "referrer-policy",
    "content-encoding",
    "accept-encoding",
];

/// The lower-case form of an ASCII capital letter; any other character is
/// left as it is.
pub open spec fn lower_char(c: char) -> char {
    if 'A' <= c <= 'Z' {
        ((c as u8) + 32) as char
    } else {
        c
    }
}

/// A text with every ASCII capital letter replaced by its lower-case form.
pub open spec fn ascii_lower(text: Seq<char>) -> Seq<char> {
    text.map_values(|c: char| lower_char(c))
}

/// Two names are the same name when they differ at most in ASCII case.
pub open spec fn same_name(a: Seq<char>, b: Seq<char>) -> bool {
    ascii_lower(a) == ascii_lower(b)
}

/// A text is on the blocklist when it is an entry of [`BLOCKED_HEADERS`]:
/// the whole entry, not a part of it.
pub open spec fn on_blocklist(folded: Seq<char>) -> bool {
    exists|i: int| 0 <= i < BLOCKED_HEADERS@.len() && folded == #[trigger] BLOCKED_HEADERS@[i]@
}

/// A name is blocked when its folded form is on the blocklist.
pub open spec fn is_blocked(name: Seq<char>) -> bool {
    on_blocklist(ascii_lower(name))
}

/// Spells the blocklist out: a name is blocked exactly when its folded form
/// is one of these six texts.
pub proof fn lemma_blocked_names(name: Seq<char>)
    ensures
        is_blocked(name) <==> {
            ||| ascii_lower(name) == "transfer-encoding"@
            ||| ascii_lower(name) == "connection"@
            ||| ascii_lower(name) == "content-security-policy"@
            ||| ascii_lower(name) == "referrer-policy"@
            ||| ascii_lower(name) == "content-encoding"@
            ||| ascii_lower(name) == "accept-encoding"@
        },
{
    assert(BLOCKED_HEADERS@.len() == 6);
    assert(BLOCKED_HEADERS@[0]@ == "transfer-encoding"@);
    assert(BLOCKED_HEADERS@[1]@ == "connection"@);
    assert(BLOCKED_HEADERS@[2]@ == "content-security-policy"@);
    assert(BLOCKED_HEADERS@[3]@ == "referrer-policy"@);
    assert(BLOCKED_HEADERS@[4]@ == "content-encoding"@);
    assert(BLOCKED_HEADERS@[5]@ == "accept-encoding"@);
}

/// Every entry of the blocklist is its own folded form, so a name is blocked
/// exactly when it is the same name as an entry.
pub proof fn lemma_blocklist_is_folded(entry: int)
    requires
        0 <= entry < BLOCKED_HEADERS@.len(),
    ensures
        ascii_lower(BLOCKED_HEADERS@[entry]@) == BLOCKED_HEADERS@[entry]@,
{
    reveal_strlit("transfer-encoding");
    reveal_strlit("connection");
    reveal_strlit("content-security-policy");
    reveal_strlit("referrer-policy");
    reveal_strlit("content-encoding");
    reveal_strlit("accept-encoding");
    assert(ascii_lower(BLOCKED_HEADERS@[entry]@) =~= BLOCKED_HEADERS@[entry]@);
}

/// Folds one character to lower case.
pub fn fold_char(c: char) -> (folded: char)
    ensures
        folded == lower_char(c),
{
    if 'A' <= c && c <= 'Z' {
        ((c as u8) + 32u8) as char
    } else {
        c
    }
}

/// Folds a name to lower case, character by character.
pub fn fold_name(name: &str) -> (folded: Vec<char>)
    ensures
        folded@ == ascii_lower(name@),
{
    let mut folded: Vec<char> = Vec::new();
    for c in it: name.chars()
        invariant
            it.seq() == name@,
            folded@ == ascii_lower(name@.take(it.index() as int)),
    {
        folded.push(fold_char(c));
    }
    folded
}

/// Whether a folded name is exactly the given text.
pub fn text_is(folded: &Vec<char>, text: &str) -> (same: bool)
    ensures
        same == (folded@ == text@),
{
    let mut i: usize = 0;
    for c in it: text.chars()
        invariant
            it.seq() == text@,
            i == it.index(),
            i <= folded@.len(),
            folded@.take(i as int) == text@.take(i as int),
    {
        if i >= folded.len() || folded[i] != c {
            return false;
        }
        i = i + 1;
    }
    proof {
        assert(text@.take(i as int) =~= text@);
        if i == folded@.len() {
            assert(folded@.take(i as int) =~= folded@);
        }
    }
    i == folded.len()
}

/// Whether a folded name is an entry of [`BLOCKED_HEADERS`].
pub fn blocked_name(folded: &Vec<char>) -> (blocked: bool)
    ensures
        blocked == on_blocklist(folded@),
{
    let mut i: usize = 0;
    while i < BLOCKED_HEADERS.len()
        invariant
            i <= BLOCKED_HEADERS@.len(),
            forall|j: int| 0 <= j < i ==> folded@ != #[trigger] BLOCKED_HEADERS@[j]@,
        decreases BLOCKED_HEADERS@.len() - i,
    {
        if text_is(folded, BLOCKED_HEADERS[i]) {
            return true;
        }
        i = i + 1;
    }
    false
}

/// The blocklist check: whether this header may cross the proxy at all.
pub fn blocked_header(header: &Header) -> (blocked: bool)
    ensures
        blocked == is_blocked(header@.name),
{
    let folded = fold_name(header.name.as_str());
    blocked_name(&folded)
}

} // verus!
