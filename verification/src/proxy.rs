//! The proxy forwarder's computation: building the outbound target URL,
//! relaying every inbound header but Host, and deciding which synthesized
//! response answers each failure of the single outbound attempt. The
//! transport performs the attempt itself and hands its outcome back.

use vstd::prelude::*;
use vstd::seq_lib::group_filter_ensures;

use crate::respond::{bad_request_response, is_bad_request_plan, ResponsePlan};
use crate::routes::{proxy_matches, proxy_pat, remainder_of, Registry};

verus! {

broadcast use vstd::prelude::Seq::lemma_filter_push, group_filter_ensures;

/// One HTTP header as relayed by the gateway: its name, lower-case as the
/// HTTP layer normalizes header names, and its raw value bytes.
pub struct HeaderField {
    pub name: String,
    pub value: Vec<u8>,
}

/// The header withheld from the outbound request: Host must reflect the
/// outbound target, not the gateway's own host.
pub open spec fn is_host_name(n: Seq<char>) -> bool {
    n == "host"@
}

/// The headers that are relayed: every inbound header except Host, in their
/// inbound order.
pub open spec fn forwarded_headers(hs: Seq<HeaderField>) -> Seq<HeaderField> {
    hs.filter(|h: HeaderField| !is_host_name(h.name@))
}

/// Copies every header except Host into the outbound header list, keeping
/// the inbound order.
pub fn filter_headers(headers: Vec<HeaderField>) -> (r: Vec<HeaderField>)
    ensures
        r@ == forwarded_headers(headers@),
{
    let ghost all = headers@;
    let mut rest = headers;
    let mut out: Vec<HeaderField> = Vec::new();
    proof {
        assert(all.subrange(0, 0) =~= Seq::<HeaderField>::empty());
        assert(Seq::<HeaderField>::empty().filter(|h: HeaderField| !is_host_name(h.name@))
            =~= Seq::<HeaderField>::empty());
        assert(rest@ =~= all.subrange(0, all.len() as int));
    }
    while rest.len() > 0
        invariant
            rest@.len() <= all.len(),
            rest@ == all.subrange(all.len() - rest@.len(), all.len() as int),
            out@ == forwarded_headers(all.subrange(0, all.len() - rest@.len())),
        decreases rest@.len(),
    {
        let ghost k = all.len() - rest@.len();
        let h = rest.remove(0);
        let keep = !crate::text::str_eq(h.name.as_str(), "host");
        proof {
            assert(h == all[k as int]);
            assert(rest@ =~= all.subrange(all.len() - rest@.len(), all.len() as int));
            let prev = all.subrange(0, k as int);
            assert(all.subrange(0, k + 1) =~= prev.push(h));
            if keep {
                assert(forwarded_headers(prev.push(h)) == forwarded_headers(prev).push(h));
            } else {
                assert(forwarded_headers(prev.push(h)) == forwarded_headers(prev));
            }
        }
        if keep {
            out.push(h);
        }
    }
    proof {
        assert(all.subrange(0, all.len() as int) =~= all);
    }
    out
}

/// The outbound target: `{base_url}/api{remainder}{query}`. The fixed `/api`
/// segment is the convention under which every backend exposes its API.
pub open spec fn target_url_spec(base: Seq<char>, remainder: Seq<char>, query: Seq<char>) -> Seq<
    char,
> {
    base + "/api"@ + remainder + query
}

/// Builds the outbound target URL from the backend's base URL, the remainder
/// the classifier produced, and the formatted query string.
pub fn build_target_url(base_url: &str, remainder: &str, query: &str) -> (r: String)
    ensures
        r@ == target_url_spec(base_url@, remainder@, query@),
{
    let r = String::from_str(base_url).concat("/api").concat(remainder).concat(query);
    proof {
        assert(r@ =~= target_url_spec(base_url@, remainder@, query@));
    }
    r
}

/// Carries the inbound query string over: `?` plus the raw query when one is
/// there, and the empty string when none is.
pub fn format_query(query: Option<&str>) -> (r: String)
    ensures
        query matches Some(q) ==> r@ == "?"@ + q@,
        query is None ==> r@ == Seq::<char>::empty(),
{
    match query {
        Some(q) => String::from_str("?").concat(q),
        None => String::new(),
    }
}

/// Whether a string parses as a URI under `http::Uri`'s grammar; decided by
/// the string alone.
pub uninterp spec fn is_valid_uri(s: Seq<char>) -> bool;

#[verifier::external_type_specification]
#[verifier::external_body]
pub struct ExUri(http::Uri);

/// Relies on `http::Uri`'s `FromStr` impl: parsing is a pure check of the
/// string against the URI grammar, so the outcome depends on the string
/// alone.
#[verifier::external_body]
fn parse_uri(s: &str) -> (r: Option<http::Uri>)
    ensures
        (r is Some) == is_valid_uri(s@),
{
    match s.parse::<http::Uri>() {
        Ok(u) => Some(u),
        Err(_) => None,
    }
}

/// Everything the transport needs for the single outbound attempt: the
/// parsed target, the target URL as text for the operational log, and the
/// relayed headers. Method and body are passed through verbatim by the
/// transport and never inspected here.
pub struct OutboundRequest {
    pub uri: http::Uri,
    pub target: String,
    pub headers: Vec<HeaderField>,
}

/// Either the prepared outbound request, or the response that answers the
/// inbound caller without any outbound attempt.
pub enum ProxyAttempt {
    Prepared(OutboundRequest),
    Rejected(ResponsePlan),
}

/// Prepares the single outbound attempt for a classified proxy call: builds
/// the target URL, checks that it parses, and relays every header but Host.
/// A malformed target is answered with the 400 plan and nothing is sent.
pub fn prepare_proxy(
    base_url: &str,
    remainder: &str,
    query: &str,
    headers: Vec<HeaderField>,
) -> (r: ProxyAttempt)
    ensures
        (r is Prepared) == is_valid_uri(target_url_spec(base_url@, remainder@, query@)),
        r matches ProxyAttempt::Prepared(o) ==> o.target@ == target_url_spec(
            base_url@,
            remainder@,
            query@,
        ) && o.headers@ == forwarded_headers(headers@),
        r matches ProxyAttempt::Rejected(p) ==> is_bad_request_plan(p),
{
    let target = build_target_url(base_url, remainder, query);
    match parse_uri(target.as_str()) {
        Some(uri) => ProxyAttempt::Prepared(
            OutboundRequest { uri, target, headers: filter_headers(headers) },
        ),
        None => ProxyAttempt::Rejected(bad_request_response()),
    }
}

/// For every registered backend and every suffix `x` and query tail `q`, the
/// request path `/{prefix}-api/{x}` matches that backend's route, its
/// remainder is `/{x}`, and the outbound URL built from it is exactly
/// `{base_url}/api/{x}{q}`. The construction inserts no doubled slash: the
/// registry keeps base URLs slash-free at their end, so the slash opening
/// the fixed `/api` segment is single, and with an empty `x` the URL ends in
/// `/api/` followed directly by `q` (which begins with `?` when present).
pub proof fn lemma_proxy_target_url(reg: Registry, i: int, x: Seq<char>, q: Seq<char>)
    requires
        reg.wf(),
        0 <= i < reg.routes@.len(),
    ensures
        ({
            let prefix = reg.routes@[i].prefix@;
            let base = reg.routes@[i].base_url@;
            let path = proxy_pat(prefix) + seq!['/'] + x;
            let url = target_url_spec(base, seq!['/'] + x, q);
            &&& proxy_matches(prefix, path)
            &&& remainder_of(prefix, path) == seq!['/'] + x
            &&& url == base + "/api/"@ + x + q
            &&& base.len() > 0 ==> url[base.len() - 1] != '/'
            &&& url[base.len() as int] == '/'
            &&& x.len() == 0 ==> url == base + "/api/"@ + q
            &&& x.len() == 0 && q.len() > 0 ==> url[base.len() as int + 5] == q[0]
        }),
{
    reveal_strlit("/api");
    reveal_strlit("/api/");
    let prefix = reg.routes@[i].prefix@;
    let base = reg.routes@[i].base_url@;
    let path = proxy_pat(prefix) + seq!['/'] + x;
    let url = target_url_spec(base, seq!['/'] + x, q);
    assert(path.subrange(0, proxy_pat(prefix).len() as int) =~= proxy_pat(prefix));
    assert(path[proxy_pat(prefix).len() as int] == '/');
    assert(remainder_of(prefix, path) =~= seq!['/'] + x);
    assert("/api"@ + (seq!['/'] + x) =~= "/api/"@ + x);
    assert(url =~= base + "/api/"@ + x + q);
    if base.len() > 0 {
        assert(base.last() != '/');
        assert(url[base.len() - 1] == base.last());
    }
    assert(url[base.len() as int] == "/api/"@[0]);
    if x.len() == 0 {
        assert(url =~= base + "/api/"@ + q);
        if q.len() > 0 {
            assert(url[base.len() as int + 5] == q[0]);
        }
    }
}

/// No relayed header is the Host header: whatever Host value the inbound
/// request carried, the outbound header list never holds an entry under that
/// name, so the outbound request's Host can only be the one the transport
/// derives from the target URL.
pub proof fn lemma_host_never_forwarded(hs: Seq<HeaderField>)
    ensures
        forall|i: int|
            0 <= i < forwarded_headers(hs).len() ==> !is_host_name(
                (#[trigger] forwarded_headers(hs)[i]).name@,
            ),
{
    assert forall|i: int|
        0 <= i < forwarded_headers(hs).len() implies !is_host_name(
        (#[trigger] forwarded_headers(hs)[i]).name@,
    ) by {
        assert(forwarded_headers(hs) == hs.filter(|h: HeaderField| !is_host_name(h.name@)));
    }
}

} // verus!
