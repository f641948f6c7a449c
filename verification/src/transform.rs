//! The two filters: one header in, at most one header out.
//!
//! [`outbound`] and [`inbound`] say what each filter decides, as functions on
//! the views of headers. [`transform_header_c2s`] and
//! [`transform_header_s2c`] compute exactly that.
use std::borrow::Cow;
use vstd::prelude::*;
use vstd::string::*;
use afire::internal::encoding;
use url::Url;
use crate::address::{joined, parsed, path_of, serialization};
use crate::header::{Header, HeaderView};
use crate::name::{ascii_lower, blocked_name, fold_name, is_blocked, text_is};
use crate::proxied::{
    after_marker, marker_suffix, percent_decoded, percent_encoded, proxied, proxied_path,
};

verus! {

/// The signature that marks a request as sent through the proxy. It is
/// appended to every outgoing `User-Agent`.
pub const PROXY_MESSAGE: &'static str =
    "(Proxied by SchoolProxy [https://github.com/Basicprogrammer10/school-proxy])";

/// The name under which a rewritten referer is sent on.
pub const REFERER: &'static str = "Referer";

/// The name under which a signed user agent is sent on.
pub const USER_AGENT: &'static str = "User-Agent";

/// The folded name of the header that tells the origin which page linked to
/// the one requested.
pub const REFERER_KEY: &'static str = "referer";

/// The folded name of the header that tells the origin which client is
/// asking.
pub const USER_AGENT_KEY: &'static str = "user-agent";

/// The folded name of the header that tells the origin which addresses a
/// request has passed.
pub const FORWARDED_FOR_KEY: &'static str = "x-forwarded-for";

/// The folded name of the header that tells the client where to go instead.
pub const LOCATION_KEY: &'static str = "location";

/// The name is `Referer`, in any case.
pub open spec fn is_referer(name: Seq<char>) -> bool {
    ascii_lower(name) == REFERER_KEY@
}

/// The name is `User-Agent`, in any case.
pub open spec fn is_user_agent(name: Seq<char>) -> bool {
    ascii_lower(name) == USER_AGENT_KEY@
}

/// The name is `X-Forwarded-For`, in any case.
pub open spec fn is_forwarded_for(name: Seq<char>) -> bool {
    ascii_lower(name) == FORWARDED_FOR_KEY@
}

/// The name is `Location`, in any case.
pub open spec fn is_location(name: Seq<char>) -> bool {
    ascii_lower(name) == LOCATION_KEY@
}

/// The page that a referer value stands for: the value parses as an absolute
/// URL, the path of that URL holds the marker, and what follows the first
/// marker decodes to the page's real address. `None` where the value does
/// not parse or its path holds no marker.
pub open spec fn referer_target(value: Seq<char>) -> Option<Seq<char>> {
    match parsed(value) {
        Ok(url) => match after_marker(path_of(url)) {
            Some(rest) => Some(percent_decoded(rest)),
            None => None,
        },
        Err(_) => None,
    }
}

/// The header that a referer is sent on as: the page it stands for, under
/// the name `Referer`. `None` where it stands for no page.
pub open spec fn restored_referer(value: Seq<char>) -> Option<HeaderView> {
    match referer_target(value) {
        Some(target) => Some(HeaderView { name: REFERER@, value: target }),
        None => None,
    }
}

/// A user agent value with the proxy's signature behind it, one space
/// between the two.
pub open spec fn signed_agent(value: Seq<char>) -> Seq<char> {
    value.push(' ') + PROXY_MESSAGE@
}

/// The header that a user agent is sent on as: the signed value, under the
/// name `User-Agent`.
pub open spec fn signed_user_agent(value: Seq<char>) -> HeaderView {
    HeaderView { name: USER_AGENT@, value: signed_agent(value) }
}

/// The value that a redirect target is sent back with: where the target
/// resolves against the address of the request, the proxied path of the
/// resolved address; where it does not, the value as it came.
pub open spec fn redirect_value(value: Seq<char>, request: Url) -> Seq<char> {
    match joined(request, value) {
        Ok(target) => proxied(percent_encoded(serialization(target))),
        Err(_) => value,
    }
}

/// What becomes of a request header on its way to the origin.
pub open spec fn outbound(header: HeaderView) -> Option<HeaderView> {
    if is_blocked(header.name) {
        None
    } else if is_referer(header.name) {
        restored_referer(header.value)
    } else if is_user_agent(header.name) {
        Some(signed_user_agent(header.value))
    } else if is_forwarded_for(header.name) {
        None
    } else {
        Some(header)
    }
}

/// What becomes of a response header on its way back to the client, given
/// the address that the request went to.
pub open spec fn inbound(header: HeaderView, request: Url) -> Option<HeaderView> {
    if is_blocked(header.name) {
        None
    } else if is_location(header.name) {
        Some(HeaderView { name: header.name, value: redirect_value(header.value, request) })
    } else {
        Some(header)
    }
}

/// A request header that the outbound filter neither drops nor rewrites.
pub open spec fn passes_outbound(name: Seq<char>) -> bool {
    !is_blocked(name) && !is_referer(name) && !is_user_agent(name) && !is_forwarded_for(name)
}

/// The view of a header that may be absent.
pub open spec fn viewed(header: Option<Header>) -> Option<HeaderView> {
    match header {
        Some(header) => Some(header@),
        None => None,
    }
}

/// The view of a header that may be absent, and borrowed where it is not.
pub open spec fn viewed_cow(header: Option<Cow<Header>>) -> Option<HeaderView> {
    match header {
        Some(header) => Some(header@),
        None => None,
    }
}

/// Rewrites a referer that points into the proxy to the page it stands for.
/// A value that is no absolute URL, or whose path holds no marker, yields no
/// header at all.
pub fn rewrite_referer(value: &str) -> (header: Option<Header>)
    ensures
        viewed(header) == restored_referer(value@),
{
    let url = match Url::parse(value) {
        Ok(url) => url,
        Err(_) => {
            return None;
        },
    };
    let rest = match marker_suffix(url.path()) {
        Some(rest) => rest,
        None => {
            return None;
        },
    };
    Some(Header { name: REFERER.to_owned(), value: encoding::url::decode(rest) })
}

/// Appends the proxy's signature to a user agent value. This always yields a
/// header.
pub fn rewrite_user_agent(value: &str) -> (header: Option<Header>)
    ensures
        viewed(header) == Some(signed_user_agent(value@)),
{
    let mut signed = value.to_owned();
    signed.append(" ");
    signed.append(PROXY_MESSAGE);
    proof {
        reveal_strlit(" ");
        assert(value@ + " "@ =~= value@.push(' '));
    }
    Some(Header { name: USER_AGENT.to_owned(), value: signed })
}

/// Filters one request header on its way to the origin.
///
/// A blocked header is dropped. A referer is rewritten to the page it stands
/// for, or dropped where that cannot be done. A user agent gets the proxy's
/// signature. `X-Forwarded-For` is dropped. Every other header is handed back
/// as it was lent, without a copy.
pub fn transform_header_c2s<'a>(header: &'a Header) -> (out: Option<Cow<'a, Header>>)
    ensures
        viewed_cow(out) == outbound(header@),
        passes_outbound(header@.name) ==> out == Some(Cow::Borrowed(header)),
{
    let folded = fold_name(header.name.as_str());
    if blocked_name(&folded) {
        return None;
    }
    if text_is(&folded, REFERER_KEY) {
        return match rewrite_referer(header.value.as_str()) {
            Some(rewritten) => Some(Cow::Owned(rewritten)),
            None => None,
        };
    }
    if text_is(&folded, USER_AGENT_KEY) {
        return match rewrite_user_agent(header.value.as_str()) {
            Some(rewritten) => Some(Cow::Owned(rewritten)),
            None => None,
        };
    }
    if text_is(&folded, FORWARDED_FOR_KEY) {
        return None;
    }
    Some(Cow::Borrowed(header))
}

/// Filters one response header on its way back to the client. `url` is the
/// address that the request went to.
///
/// A blocked header is dropped. A redirect target is resolved against `url`
/// and replaced by the proxied path of the result; where it does not resolve,
/// it is left as it came. Every other header is handed back unchanged.
pub fn transform_header_s2c(mut header: Header, url: &Url) -> (out: Option<Header>)
    ensures
        viewed(out) == inbound(header@, *url),
{
    let folded = fold_name(header.name.as_str());
    if blocked_name(&folded) {
        return None;
    }
    if text_is(&folded, LOCATION_KEY) {
        match url.join(header.value.as_str()) {
            Ok(target) => {
                let encoded = encoding::url::encode(target.as_str());
                header.value = proxied_path(encoded.as_str());
            },
            Err(_) => {},
        }
    }
    Some(header)
}

} // verus!
