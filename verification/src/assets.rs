//! The asset store and the static responder: an immutable in-memory mapping
//! from relative path to byte content, filled once at startup, and the
//! policy that serves an exact match, falls back to the SPA entry document,
//! and answers 404 only when even that document is absent.

use vstd::prelude::*;

use crate::respond::{missing_bundle_response, is_missing_bundle_plan, BodyData, ResponsePlan};
use crate::text::{normalized_path, str_eq, strip_one_leading_slash};

verus! {

/// One bundled file: its relative forward-slash path and its content.
pub struct AssetEntry {
    pub path: String,
    pub bytes: Vec<u8>,
}

/// The immutable in-memory asset bundle. Lookups are by exact path match
/// only: no directory listing, no range requests.
pub struct AssetStore {
    pub entries: Vec<AssetEntry>,
}

/// The MIME type inferred from a path's extension, with unknown extensions
/// falling back to a generic binary content type; decided by the path alone.
pub uninterp spec fn mime_of(path: Seq<char>) -> Seq<char>;

/// Relies on `mime_guess::from_path` with `first_or_octet_stream`: the guess
/// is a pure lookup of the path's extension in a fixed table, falling back
/// to `application/octet-stream`, so it depends on the path alone.
#[verifier::external_body]
fn guess_mime(path: &str) -> (r: String)
    ensures
        r@ == mime_of(path@),
{
    mime_guess::from_path(path).first_or_octet_stream().as_ref().to_string()
}

/// An owned copy of a byte sequence, for handing stored bytes out unchanged.
fn clone_bytes(v: &Vec<u8>) -> (r: Vec<u8>)
    ensures
        r@ == v@,
{
    let mut out: Vec<u8> = Vec::new();
    let mut i: usize = 0;
    while i < v.len()
        invariant
            i <= v@.len(),
            out@ == v@.subrange(0, i as int),
        decreases v@.len() - i,
    {
        out.push(v[i]);
        proof {
            assert(out@ =~= v@.subrange(0, i + 1));
        }
        i += 1;
    }
    proof {
        assert(out@ =~= v@);
    }
    out
}

impl AssetStore {
    /// Store invariant: paths are unique, so a lookup is unambiguous.
    pub open spec fn wf(self) -> bool {
        forall|i: int, j: int|
            0 <= i < j < self.entries@.len() ==> (#[trigger] self.entries@[i]).path@ != (
            #[trigger] self.entries@[j]).path@
    }

    /// Some entry is stored under this exact path.
    pub open spec fn spec_has(self, p: Seq<char>) -> bool {
        exists|i: int| 0 <= i < self.entries@.len() && (#[trigger] self.entries@[i]).path@ == p
    }

    /// The bytes stored under `p`; meaningful when `spec_has(p)` holds.
    pub open spec fn spec_bytes_of(self, p: Seq<char>) -> Seq<u8> {
        self.entries@[choose|i: int|
            0 <= i < self.entries@.len() && (#[trigger] self.entries@[i]).path@ == p].bytes@
    }

    /// Under uniqueness of paths, the entry found at `i` is the one every
    /// lookup under its path denotes.
    proof fn lemma_bytes_at(self, i: int, p: Seq<char>)
        requires
            self.wf(),
            0 <= i < self.entries@.len(),
            self.entries@[i].path@ == p,
        ensures
            self.spec_has(p),
            self.spec_bytes_of(p) == self.entries@[i].bytes@,
    {
        assert(self.spec_has(p));
        let c = choose|c: int|
            0 <= c < self.entries@.len() && (#[trigger] self.entries@[c]).path@ == p;
        if c != i {
            assert(self.entries@[c].path@ != self.entries@[i].path@);
        }
    }

    /// An empty store.
    pub fn new() -> (r: Self)
        ensures
            r.entries@.len() == 0,
            r.wf(),
    {
        AssetStore { entries: Vec::new() }
    }

    /// Adds one bundled file. A duplicate path is refused, keeping lookups
    /// unambiguous; the store reports the refusal by the `false` result.
    pub fn add(&mut self, path: String, bytes: Vec<u8>) -> (added: bool)
        requires
            old(self).wf(),
        ensures
            final(self).wf(),
            added == !old(self).spec_has(path@),
            !added ==> *final(self) == *old(self),
            added ==> final(self).entries@.len() == old(self).entries@.len() + 1,
            added ==> forall|i: int|
                0 <= i < old(self).entries@.len() ==> final(self).entries@[i] == old(
                    self,
                ).entries@[i],
            added ==> final(self).entries@.last().path@ == path@,
            added ==> final(self).entries@.last().bytes@ == bytes@,
    {
        let mut i: usize = 0;
        while i < self.entries.len()
            invariant
                old(self).wf(),
                *self == *old(self),
                i <= self.entries@.len(),
                forall|j: int| 0 <= j < i ==> (#[trigger] self.entries@[j]).path@ != path@,
            decreases self.entries@.len() - i,
        {
            if str_eq(self.entries[i].path.as_str(), path.as_str()) {
                return false;
            }
            i += 1;
        }
        self.entries.push(AssetEntry { path, bytes });
        proof {
            let oldentries = old(self).entries@;
            let newentries = final(self).entries@;
            assert(newentries.last() == newentries[oldentries.len() as int]);
            assert forall|i2: int, j2: int|
                0 <= i2 < j2 < newentries.len() implies (#[trigger] newentries[i2]).path@ != (
            #[trigger] newentries[j2]).path@ by {
                if j2 < oldentries.len() {
                    assert(old(self).wf());
                } else {
                    assert(newentries[i2] == oldentries[i2]);
                }
            }
        }
        true
    }

    /// Finds the entry stored under exactly `p`, if any.
    fn find(&self, p: &str) -> (r: Option<usize>)
        ensures
            r matches Some(i) ==> i < self.entries@.len() && self.entries@[i as int].path@ == p@,
            r is None ==> !self.spec_has(p@),
    {
        let mut i: usize = 0;
        while i < self.entries.len()
            invariant
                i <= self.entries@.len(),
                forall|j: int| 0 <= j < i ==> (#[trigger] self.entries@[j]).path@ != p@,
            decreases self.entries@.len() - i,
        {
            if str_eq(self.entries[i].path.as_str(), p) {
                return Some(i);
            }
            i += 1;
        }
        None
    }

    /// Serves `path` from the bundle: the exact match with its inferred MIME
    /// type; else the SPA entry document as HTML, so client-side-routed
    /// paths still deliver the application shell; else, only when the bundle
    /// lacks even that document, the genuine not-found answer.
    pub fn serve(&self, path: &str) -> (r: ResponsePlan)
        requires
            self.wf(),
        ensures
            ({
                let n = normalized_path(path@);
                &&& self.spec_has(n) ==> {
                    &&& r.status == 200
                    &&& r.body matches BodyData::Bytes(b) && b@ == self.spec_bytes_of(n)
                    &&& r.content_type matches Some(ct) && ct@ == mime_of(n)
                }
                &&& !self.spec_has(n) && self.spec_has("index.html"@) ==> {
                    &&& r.status == 200
                    &&& r.body matches BodyData::Bytes(b) && b@ == self.spec_bytes_of(
                        "index.html"@,
                    )
                    &&& r.content_type matches Some(ct) && ct@ == "text/html"@
                }
                &&& !self.spec_has(n) && !self.spec_has("index.html"@)
                    ==> is_missing_bundle_plan(r)
            }),
    {
        let norm = strip_one_leading_slash(path);
        match self.find(norm.as_str()) {
            Some(i) => {
                proof {
                    self.lemma_bytes_at(i as int, norm@);
                }
                return ResponsePlan {
                    status: 200,
                    content_type: Some(guess_mime(norm.as_str())),
                    body: BodyData::Bytes(clone_bytes(&self.entries[i].bytes)),
                };
            },
            None => {},
        }
        match self.find("index.html") {
            Some(i) => {
                proof {
                    self.lemma_bytes_at(i as int, "index.html"@);
                }
                ResponsePlan {
                    status: 200,
                    content_type: Some(String::from_str("text/html")),
                    body: BodyData::Bytes(clone_bytes(&self.entries[i].bytes)),
                }
            },
            None => missing_bundle_response(),
        }
    }
}

} // verus!
