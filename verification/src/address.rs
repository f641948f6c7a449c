//! Absolute URLs, as the `url` crate parses and resolves them.
//!
//! A `Url` is opaque here: it is made by `Url::parse` or `Url::join`, carried
//! through, and read back as text by `Url::as_str` and `Url::path`. What these
//! four return is given a name each, so that the contracts of this library
//! can say exactly which of them was handed what. Nothing here is proved: it
//! is what the rest of the library takes the `url` crate to do.
use vstd::prelude::*;
use url::{ParseError, Url};

verus! {

/// `url::Url`, a parsed absolute URL. Nothing of its contents is visible.
#[verifier::external_type_specification]
#[verifier::external_body]
pub struct ExUrl(url::Url);

/// `url::ParseError`, the reason why a text is no URL. Nothing of its
/// contents is visible.
#[verifier::external_type_specification]
#[verifier::external_body]
pub struct ExParseError(url::ParseError);

/// What `Url::parse` makes of a text.
pub uninterp spec fn parsed(input: Seq<char>) -> Result<Url, ParseError>;

/// What `Url::join` makes of a reference, taken relative to `base`.
pub uninterp spec fn joined(base: Url, input: Seq<char>) -> Result<Url, ParseError>;

/// What `Url::as_str` returns: the URL written out in full.
pub uninterp spec fn serialization(url: Url) -> Seq<char>;

/// What `Url::path` returns: the path component of the URL.
pub uninterp spec fn path_of(url: Url) -> Seq<char>;

/// Assumed of `Url::parse`, not proved. It runs the parser over its argument
/// with no base URL and the default options, and reads nothing else, so what
/// it returns is one function of the text. That function is named
/// [`parsed`]. Which texts are URLs is not said.
pub assume_specification[ url::Url::parse ](input: &str) -> (url: Result<Url, ParseError>)
    ensures
        url == parsed(input@),
;

/// Assumed of `Url::join`, not proved. It runs the same parser over its
/// argument with `base` as the base URL, and reads nothing else, so what it
/// returns is one function of the base and the text. That function is named
/// [`joined`]. How a reference resolves is not said.
pub assume_specification[ url::Url::join ](
    base: &Url,
    input: &str,
) -> (url: Result<Url, ParseError>)
    ensures
        url == joined(*base, input@),
;

/// Assumed of `Url::as_str`, not proved. It hands out the serialization that
/// the URL stores, which is named [`serialization`].
pub assume_specification<'a>[ url::Url::as_str ](url: &'a Url) -> (text: &'a str)
    ensures
        text@ == serialization(*url),
;

/// Assumed of `Url::path`, not proved. It hands out the part of the stored
/// serialization that holds the path, which is named [`path_of`].
pub assume_specification<'a>[ url::Url::path ](url: &'a Url) -> (path: &'a str)
    ensures
        path@ == path_of(*url),
;

} // verus!
