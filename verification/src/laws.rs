//! What holds of the two filters on every header.
//!
//! Each law is stated over [`outbound`] and [`inbound`], the functions that
//! the contracts of `transform_header_c2s` and `transform_header_s2c` are
//! stated over, so each holds of what those two return.
use vstd::prelude::*;
use url::{ParseError, Url};
use crate::address::{joined, parsed, path_of, serialization};
use crate::header::HeaderView;
use crate::name::{
    ascii_lower, is_blocked, lemma_blocked_names, lemma_blocklist_is_folded, same_name,
    BLOCKED_HEADERS,
};
use crate::proxied::{
    after_marker, has_marker, lemma_first_marker, percent_decoded, percent_encoded, proxied,
    MARKER,
};
use crate::transform::{
    inbound, is_forwarded_for, is_location, is_referer, is_user_agent, outbound, FORWARDED_FOR_KEY,
    LOCATION_KEY, PROXY_MESSAGE, REFERER, REFERER_KEY, USER_AGENT, USER_AGENT_KEY,
};

verus! {

/// The headers of a set that the blocklist check keeps, in their order.
pub open spec fn unblocked(headers: Seq<HeaderView>) -> Seq<HeaderView> {
    headers.filter(|header: HeaderView| !is_blocked(header.name))
}

/// The request headers of a set as the outbound filter sends them on.
pub open spec fn outbound_all(headers: Seq<HeaderView>) -> Seq<HeaderView> {
    headers.filter_map(|header: HeaderView| outbound(header))
}

/// The response headers of a set as the inbound filter sends them back.
pub open spec fn inbound_all(headers: Seq<HeaderView>, request: Url) -> Seq<HeaderView> {
    headers.filter_map(|header: HeaderView| inbound(header, request))
}

/// The four names with a rule of their own are none of the blocked names,
/// and no two of them are the same name.
pub proof fn lemma_rule_names_differ(name: Seq<char>)
    ensures
        is_referer(name) ==> !is_blocked(name) && !is_user_agent(name) && !is_forwarded_for(name)
            && !is_location(name),
        is_user_agent(name) ==> !is_blocked(name) && !is_forwarded_for(name) && !is_location(name),
        is_forwarded_for(name) ==> !is_blocked(name) && !is_location(name),
        is_location(name) ==> !is_blocked(name),
{
    lemma_blocked_names(name);
    reveal_strlit("transfer-encoding");
    reveal_strlit("connection");
    reveal_strlit("content-security-policy");
    reveal_strlit("referrer-policy");
    reveal_strlit("content-encoding");
    reveal_strlit("accept-encoding");
    reveal_strlit("referer");
    reveal_strlit("user-agent");
    reveal_strlit("x-forwarded-for");
    reveal_strlit("location");
    let folded = ascii_lower(name);
    if is_referer(name) {
        assert(folded.len() == 7);
    }
    if is_user_agent(name) {
        assert(folded.len() == 10 && folded[0] == 'u');
    }
    if is_forwarded_for(name) {
        assert(folded.len() == 15 && folded[0] == 'x');
    }
    if is_location(name) {
        assert(folded.len() == 8);
    }
}

/// The names that rewritten headers are sent under fold to the names that
/// the rules look for.
pub proof fn lemma_canonical_names()
    ensures
        is_referer(REFERER@),
        is_user_agent(USER_AGENT@),
{
    reveal_strlit("referer");
    reveal_strlit("user-agent");
    reveal_strlit("Referer");
    reveal_strlit("User-Agent");
    assert(ascii_lower(REFERER@) =~= REFERER_KEY@);
    assert(ascii_lower(USER_AGENT@) =~= USER_AGENT_KEY@);
}

/// A filter keeps the whole of a sequence whose members all pass it.
proof fn lemma_filter_keeps_all<A>(items: Seq<A>, pass: spec_fn(A) -> bool)
    requires
        forall|i: int| 0 <= i < items.len() ==> pass(#[trigger] items[i]),
    ensures
        items.filter(pass) == items,
    decreases items.len(),
{
    reveal(Seq::filter);
    if items.len() > 0 {
        let front = items.drop_last();
        assert forall|i: int| 0 <= i < front.len() implies pass(#[trigger] front[i]) by {
            assert(front[i] == items[i]);
        }
        lemma_filter_keeps_all(front, pass);
        assert(front.push(items.last()) =~= items);
    }
}

/// A header whose name is, in any case, an entry of the blocklist is dropped
/// in both directions, whatever its value and whatever the request was.
pub proof fn law_blocked_is_dropped(header: HeaderView, entry: int, request: Url)
    requires
        0 <= entry < BLOCKED_HEADERS@.len(),
        same_name(header.name, BLOCKED_HEADERS@[entry]@),
    ensures
        outbound(header) is None,
        inbound(header, request) is None,
{
    lemma_blocklist_is_folded(entry);
}

/// `X-Forwarded-For`, in any case and with any value, never reaches the
/// origin.
pub proof fn law_forwarded_for_is_dropped(header: HeaderView)
    requires
        same_name(header.name, "X-Forwarded-For"@),
    ensures
        outbound(header) is None,
{
    reveal_strlit("X-Forwarded-For");
    reveal_strlit("x-forwarded-for");
    assert(ascii_lower("X-Forwarded-For"@) =~= FORWARDED_FOR_KEY@);
    lemma_rule_names_differ(header.name);
}

/// A referer that points into the proxy reaches the origin as the address of
/// the page it stands for: what follows the first marker in its path,
/// decoded.
pub proof fn law_referer_is_restored(header: HeaderView, url: Url, rest: Seq<char>)
    requires
        same_name(header.name, REFERER@),
        parsed(header.value) == Ok::<Url, ParseError>(url),
        after_marker(path_of(url)) == Some(rest),
    ensures
        outbound(header) == Some(HeaderView { name: REFERER@, value: percent_decoded(rest) }),
{
    lemma_canonical_names();
    lemma_rule_names_differ(header.name);
}

/// A referer that is no absolute URL, or whose path holds no marker, never
/// reaches the origin.
pub proof fn law_referer_fails_closed(header: HeaderView)
    requires
        same_name(header.name, REFERER@),
        match parsed(header.value) {
            Ok(url) => !has_marker(path_of(url)),
            Err(_) => true,
        },
    ensures
        outbound(header) is None,
{
    lemma_canonical_names();
    lemma_rule_names_differ(header.name);
}

/// A user agent reaches the origin with the proxy's signature behind it: the
/// value as it came, one space, the signature.
pub proof fn law_user_agent_is_signed(header: HeaderView)
    requires
        same_name(header.name, USER_AGENT@),
    ensures
        outbound(header) matches Some(sent) && {
            &&& sent.name == USER_AGENT@
            &&& sent.value == header.value + " "@ + PROXY_MESSAGE@
            &&& header.value.is_prefix_of(sent.value)
        },
{
    lemma_canonical_names();
    lemma_rule_names_differ(header.name);
    reveal_strlit(" ");
    assert(header.value.push(' ') =~= header.value + " "@);
    let sent = outbound(header).unwrap();
    assert(sent.value.subrange(0, header.value.len() as int) =~= header.value);
}

/// A redirect target that resolves against the address of the request goes
/// back as the proxied path of the resolved address, so that the client
/// follows it through the proxy.
pub proof fn law_location_is_proxied(header: HeaderView, request: Url, target: Url)
    requires
        same_name(header.name, "Location"@),
        joined(request, header.value) == Ok::<Url, ParseError>(target),
    ensures
        inbound(header, request) == Some(
            HeaderView {
                name: header.name,
                value: MARKER@ + percent_encoded(serialization(target)),
            },
        ),
{
    reveal_strlit("Location");
    reveal_strlit("location");
    assert(ascii_lower("Location"@) =~= LOCATION_KEY@);
    lemma_rule_names_differ(header.name);
}

/// A redirect target that does not resolve against the address of the
/// request goes back to the client exactly as it came.
pub proof fn law_location_fails_open(header: HeaderView, request: Url)
    requires
        same_name(header.name, "Location"@),
        joined(request, header.value) is Err,
    ensures
        inbound(header, request) == Some(header),
{
    reveal_strlit("Location");
    reveal_strlit("location");
    assert(ascii_lower("Location"@) =~= LOCATION_KEY@);
    lemma_rule_names_differ(header.name);
}

/// Taking a proxied path apart gives back what it was built from: the marker
/// that `proxied` puts in front is the first one, whatever follows it.
pub proof fn law_proxied_path_hands_back(encoded: Seq<char>)
    ensures
        after_marker(proxied(encoded)) == Some(encoded),
{
    let path = proxied(encoded);
    assert(path.subrange(0, MARKER@.len() as int) =~= MARKER@);
    lemma_first_marker(path, 0);
    assert(path.skip(MARKER@.len() as int) =~= encoded);
}

/// The proxied form carries a target faithfully wherever the percent codec
/// does: if decoding undoes encoding on `target`, then taking the proxied
/// path of `target` apart and decoding what follows the marker gives
/// `target` back.
pub proof fn law_proxied_round_trip(target: Seq<char>)
    requires
        percent_decoded(percent_encoded(target)) == target,
    ensures
        after_marker(proxied(percent_encoded(target))) matches Some(rest) && percent_decoded(rest)
            == target,
{
    law_proxied_path_hands_back(percent_encoded(target));
}

/// A filter never turns one header into another: what comes out has the name
/// that went in, up to case.
pub proof fn law_name_is_kept(header: HeaderView, request: Url)
    ensures
        outbound(header) matches Some(sent) ==> same_name(sent.name, header.name),
        inbound(header, request) matches Some(sent) ==> sent.name == header.name,
{
    lemma_canonical_names();
}

/// No header that comes out of either filter is blocked.
pub proof fn law_output_is_never_blocked(header: HeaderView, request: Url)
    ensures
        outbound(header) matches Some(sent) ==> !is_blocked(sent.name),
        inbound(header, request) matches Some(sent) ==> !is_blocked(sent.name),
{
    lemma_canonical_names();
    lemma_rule_names_differ(REFERER@);
    lemma_rule_names_differ(USER_AGENT@);
}

/// The blocklist check is idempotent: applied to a set of headers that it has
/// already passed over, or that came out of either filter, it drops nothing.
pub proof fn law_blocklist_check_is_idempotent(headers: Seq<HeaderView>, request: Url)
    ensures
        unblocked(unblocked(headers)) == unblocked(headers),
        unblocked(outbound_all(headers)) == outbound_all(headers),
        unblocked(inbound_all(headers, request)) == inbound_all(headers, request),
{
    let pass = |header: HeaderView| !is_blocked(header.name);
    let kept = headers.filter(pass);
    assert forall|i: int| 0 <= i < kept.len() implies pass(#[trigger] kept[i]) by {
        headers.lemma_filter_pred(pass, i);
    }
    lemma_filter_keeps_all(kept, pass);

    let send = |header: HeaderView| outbound(header);
    let sent = headers.filter_map(send);
    assert forall|i: int| 0 <= i < sent.len() implies pass(#[trigger] sent[i]) by {
        assert(sent.contains(sent[i]));
        headers.lemma_filter_map_contains(send, sent[i]);
        let came = choose|came: HeaderView|
            #[trigger] headers.contains(came) && send(came) == Some(sent[i]);
        law_output_is_never_blocked(came, request);
    }
    lemma_filter_keeps_all(sent, pass);

    let answer = |header: HeaderView| inbound(header, request);
    let back = headers.filter_map(answer);
    assert forall|i: int| 0 <= i < back.len() implies pass(#[trigger] back[i]) by {
        assert(back.contains(back[i]));
        headers.lemma_filter_map_contains(answer, back[i]);
        let came = choose|came: HeaderView|
            #[trigger] headers.contains(came) && answer(came) == Some(back[i]);
        law_output_is_never_blocked(came, request);
    }
    lemma_filter_keeps_all(back, pass);
}

} // verus!
