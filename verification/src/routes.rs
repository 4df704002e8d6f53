//! The backend registry and the request classifier: a fixed mapping from
//! route prefix to base URL, and the decision of which handling mode an
//! inbound path falls under.

use vstd::prelude::*;

use crate::text::{
    str_eq, str_starts_with, strip_trailing_slashes, suffix_from, without_trailing_slashes,
};

verus! {

/// One registered backend: requests under `/{prefix}-api/` are forwarded to
/// `base_url`.
pub struct BackendRoute {
    pub prefix: String,
    pub base_url: String,
}

/// The fixed prefix-to-base-URL mapping, supplied at startup and immutable
/// thereafter.
pub struct Registry {
    pub routes: Vec<BackendRoute>,
}

/// The route pattern a prefix claims: `/{prefix}-api`.
pub open spec fn proxy_pat(prefix: Seq<char>) -> Seq<char> {
    "/"@ + prefix + "-api"@
}

/// The path names a proxy call for this prefix: it begins with
/// `/{prefix}-api` and a path separator follows.
pub open spec fn proxy_matches(prefix: Seq<char>, path: Seq<char>) -> bool {
    &&& proxy_pat(prefix).len() < path.len()
    &&& path.subrange(0, proxy_pat(prefix).len() as int) == proxy_pat(prefix)
    &&& path[proxy_pat(prefix).len() as int] == '/'
}

/// Everything after `/{prefix}-api`; it always begins with `/`.
pub open spec fn remainder_of(prefix: Seq<char>, path: Seq<char>) -> Seq<char> {
    path.subrange(proxy_pat(prefix).len() as int, path.len() as int)
}

/// The classifier's verdict on an inbound path. Classification never fails:
/// every path that is neither the health path nor a registered proxy call is
/// an asset request.
pub enum RouteClass {
    Health,
    Proxy { index: usize, remainder: String },
    AssetRequest,
}

impl Registry {
    /// Registry invariant: no base URL ends in a slash, and no prefix occurs
    /// twice, so no path is claimed by two routes ambiguously.
    pub open spec fn wf(self) -> bool {
        &&& forall|i: int|
            0 <= i < self.routes@.len() ==> ((#[trigger] self.routes@[i]).base_url@.len() == 0
                || self.routes@[i].base_url@.last() != '/')
        &&& forall|i: int, j: int|
            0 <= i < j < self.routes@.len() ==> (#[trigger] self.routes@[i]).prefix@ != (
            #[trigger] self.routes@[j]).prefix@
    }

    /// Some route already claims this prefix.
    pub open spec fn spec_has_prefix(self, p: Seq<char>) -> bool {
        exists|i: int| 0 <= i < self.routes@.len() && (#[trigger] self.routes@[i]).prefix@ == p
    }

    /// An empty registry.
    pub fn new() -> (r: Self)
        ensures
            r.routes@.len() == 0,
            r.wf(),
    {
        Registry { routes: Vec::new() }
    }

    /// Registers a backend under `prefix`, storing `base_url` with its
    /// trailing slashes removed. A duplicate prefix is refused: that is a
    /// configuration error, reported to the caller by the `false` result.
    pub fn add(&mut self, prefix: String, base_url: &str) -> (added: bool)
        requires
            old(self).wf(),
        ensures
            final(self).wf(),
            added == !old(self).spec_has_prefix(prefix@),
            !added ==> *final(self) == *old(self),
            added ==> final(self).routes@.len() == old(self).routes@.len() + 1,
            added ==> forall|i: int|
                0 <= i < old(self).routes@.len() ==> final(self).routes@[i] == old(
                    self,
                ).routes@[i],
            added ==> final(self).routes@.last().prefix@ == prefix@,
            added ==> final(self).routes@.last().base_url@ == without_trailing_slashes(
                base_url@,
            ),
    {
        let mut i: usize = 0;
        while i < self.routes.len()
            invariant
                old(self).wf(),
                *self == *old(self),
                i <= self.routes@.len(),
                forall|j: int|
                    0 <= j < i ==> (#[trigger] self.routes@[j]).prefix@ != prefix@,
            decreases self.routes@.len() - i,
        {
            if str_eq(self.routes[i].prefix.as_str(), prefix.as_str()) {
                return false;
            }
            i += 1;
        }
        let base = strip_trailing_slashes(base_url);
        self.routes.push(BackendRoute { prefix, base_url: base });
        proof {
            let oldroutes = old(self).routes@;
            let newroutes = final(self).routes@;
            assert(newroutes.last() == newroutes[oldroutes.len() as int]);
            assert forall|i2: int, j2: int|
                0 <= i2 < j2 < newroutes.len() implies (#[trigger] newroutes[i2]).prefix@ != (
            #[trigger] newroutes[j2]).prefix@ by {
                if j2 < oldroutes.len() {
                    assert(old(self).wf());
                } else {
                    assert(newroutes[i2] == oldroutes[i2]);
                }
            }
        }
        true
    }

    /// Decides the handling mode of `path`: the fixed health path, the first
    /// registered route whose pattern the path falls under, or the static
    /// responder for everything else.
    pub fn classify(&self, path: &str) -> (r: RouteClass)
        ensures
            (r is Health) == (path@ == "/health"@),
            r matches RouteClass::Proxy { index, remainder } ==> {
                &&& path@ != "/health"@
                &&& index < self.routes@.len()
                &&& proxy_matches(self.routes@[index as int].prefix@, path@)
                &&& remainder@ == remainder_of(self.routes@[index as int].prefix@, path@)
                &&& forall|j: int|
                    0 <= j < index ==> !proxy_matches(
                        (#[trigger] self.routes@[j]).prefix@,
                        path@,
                    )
            },
            r is AssetRequest ==> path@ != "/health"@ && forall|j: int|
                0 <= j < self.routes@.len() ==> !proxy_matches(
                    (#[trigger] self.routes@[j]).prefix@,
                    path@,
                ),
            (path@ != "/health"@ && exists|j: int|
                0 <= j < self.routes@.len() && proxy_matches(
                    (#[trigger] self.routes@[j]).prefix@,
                    path@,
                )) ==> r matches RouteClass::Proxy { index, remainder },
    {
        if str_eq(path, "/health") {
            return RouteClass::Health;
        }
        let mut i: usize = 0;
        while i < self.routes.len()
            invariant
                i <= self.routes@.len(),
                path@ != "/health"@,
                forall|j: int|
                    0 <= j < i ==> !proxy_matches((#[trigger] self.routes@[j]).prefix@, path@),
            decreases self.routes@.len() - i,
        {
            match match_route(self.routes[i].prefix.as_str(), path) {
                Some(rem) => {
                    return RouteClass::Proxy { index: i, remainder: rem };
                },
                None => {},
            }
            i += 1;
        }
        RouteClass::AssetRequest
    }
}

/// Matches `path` against one prefix's pattern; on a match, hands back the
/// remainder after `/{prefix}-api`.
fn match_route(prefix: &str, path: &str) -> (r: Option<String>)
    ensures
        (r is Some) == proxy_matches(prefix@, path@),
        r matches Some(rem) ==> rem@ == remainder_of(prefix@, path@),
{
    let pat = String::from_str("/").concat(prefix).concat("-api");
    proof {
        assert(pat@ =~= proxy_pat(prefix@));
    }
    let patn = pat.as_str().unicode_len();
    let pathn = path.unicode_len();
    if patn >= pathn {
        return None;
    }
    if !str_starts_with(path, pat.as_str()) {
        return None;
    }
    if path.get_char(patn) != '/' {
        return None;
    }
    Some(suffix_from(path, patn))
}

} // verus!
