//! The remote fetch path: conditional revalidation and outcome resolution.
//!
//! The host performs the effects of a remote load — the cache lookup, the
//! HTTP GET, the cache write — and the functions here make every decision
//! between them: which conditional header to send, how a response resolves
//! against the looked-up cache entry, and what (if anything) to store
//! afterwards. The outcome of a load is a function of the looked-up entry and
//! the origin response alone; the cache write has no error channel back into
//! it, so a failed store can never turn a successful fetch into a failed
//! load.

use vstd::prelude::*;
use vstd::string::StringExecFns;
use crate::errors::{opt_string_view, AssetIoError, AssetIoErrorView};
use crate::headers::{header_map_of, lemma_header_map_push};

verus! {

/// The HTTP status an origin answers with when a conditional request's cached
/// body is still valid.
pub const STATUS_NOT_MODIFIED: u16 = 304;

/// One cached response: the most recent body for a URI, with the ETag the
/// origin supplied for it, if any.
#[derive(Debug, Clone, PartialEq, Eq)]
pub struct CacheEntry {
    pub body: Vec<u8>,
    pub etag: Option<String>,
}

/// Mathematical value of a [`CacheEntry`].
pub struct CacheEntryView {
    pub body: Seq<u8>,
    pub etag: Option<Seq<char>>,
}

impl View for CacheEntry {
    type V = CacheEntryView;

    open spec fn view(&self) -> CacheEntryView {
        CacheEntryView { body: self.body@, etag: opt_string_view(self.etag) }
    }
}

/// What the platform fetch primitive handed back for one GET: the status
/// code, the response's ETag header (if any), and the full body.
#[derive(Debug, Clone, PartialEq, Eq)]
pub struct HttpResponse {
    pub status: u16,
    pub etag: Option<String>,
    pub body: Vec<u8>,
}

/// Mathematical value of an [`HttpResponse`].
pub struct HttpResponseView {
    pub status: u16,
    pub etag: Option<Seq<char>>,
    pub body: Seq<u8>,
}

impl View for HttpResponse {
    type V = HttpResponseView;

    open spec fn view(&self) -> HttpResponseView {
        HttpResponseView {
            status: self.status,
            etag: opt_string_view(self.etag),
            body: self.body@,
        }
    }
}

/// Exactly one outcome per load call.
#[derive(Debug, Clone, PartialEq, Eq)]
pub enum FetchOutcome {
    /// The origin served a full body.
    Fresh(Vec<u8>),
    /// The origin answered 304; the cached body is reused.
    NotModified(Vec<u8>),
    /// Transport failure, or a 304 with no cache hit to reuse.
    Failed,
}

/// Mathematical value of a [`FetchOutcome`].
pub enum FetchOutcomeView {
    Fresh(Seq<u8>),
    NotModified(Seq<u8>),
    Failed,
}

impl View for FetchOutcome {
    type V = FetchOutcomeView;

    open spec fn view(&self) -> FetchOutcomeView {
        match self {
            FetchOutcome::Fresh(b) => FetchOutcomeView::Fresh(b@),
            FetchOutcome::NotModified(b) => FetchOutcomeView::NotModified(b@),
            FetchOutcome::Failed => FetchOutcomeView::Failed,
        }
    }
}

/// View of an optional cache entry.
pub open spec fn opt_entry_view(o: Option<CacheEntry>) -> Option<CacheEntryView> {
    match o {
        Option::Some(e) => Option::Some(e@),
        Option::None => Option::None,
    }
}

/// View of an optional response.
pub open spec fn opt_response_view(o: Option<HttpResponse>) -> Option<HttpResponseView> {
    match o {
        Option::Some(r) => Option::Some(r@),
        Option::None => Option::None,
    }
}

/// The `If-None-Match` value a load sends: the cached entry's ETag, if there
/// is an entry and it carries one.
pub open spec fn spec_conditional(cached: Option<CacheEntryView>) -> Option<Seq<char>> {
    match cached {
        Option::Some(e) => e.etag,
        Option::None => Option::None,
    }
}

/// The cache hit a load may later reuse for a 304: the looked-up entry, kept
/// only when it carries an ETag (only then was a conditional request sent).
pub open spec fn spec_retained(cached: Option<CacheEntryView>) -> Option<CacheEntryView> {
    match cached {
        Option::Some(e) => if e.etag is Some {
            Option::Some(e)
        } else {
            Option::None
        },
        Option::None => Option::None,
    }
}

/// How one origin response resolves against the retained cache hit.
pub open spec fn spec_outcome(
    retained: Option<CacheEntryView>,
    response: Option<HttpResponseView>,
) -> FetchOutcomeView {
    match response {
        Option::None => FetchOutcomeView::Failed,
        Option::Some(r) => if r.status == STATUS_NOT_MODIFIED {
            match retained {
                Option::Some(c) => FetchOutcomeView::NotModified(c.body),
                Option::None => FetchOutcomeView::Failed,
            }
        } else {
            FetchOutcomeView::Fresh(r.body)
        },
    }
}

/// What a load stores afterwards: the fresh body and its ETag after any
/// non-304 response, nothing otherwise.
pub open spec fn spec_store(response: Option<HttpResponseView>) -> Option<CacheEntryView> {
    match response {
        Option::None => Option::None,
        Option::Some(r) => if r.status == STATUS_NOT_MODIFIED {
            Option::None
        } else {
            Option::Some(CacheEntryView { body: r.body, etag: r.etag })
        },
    }
}

/// Turns the cache lookup's finding into the conditional-request decision:
/// the `If-None-Match` value to send (if any) and the cache hit to retain for
/// a possible 304.
///
/// An entry without an ETag can never be revalidated: no conditional header
/// is sent for it and it is not retained, so that load re-fetches the full
/// body.
pub fn prepare_conditional(cached: Option<CacheEntry>) -> (r: (Option<String>, Option<CacheEntry>))
    ensures
        opt_string_view(r.0) == spec_conditional(opt_entry_view(cached)),
        opt_entry_view(r.1) == spec_retained(opt_entry_view(cached)),
{
    match cached {
        Option::None => (Option::None, Option::None),
        Option::Some(e) => match &e.etag {
            Option::None => (Option::None, Option::None),
            Option::Some(t) => {
                let sent = t.clone();
                (Option::Some(sent), Option::Some(e))
            },
        },
    }
}

/// Appends the conditional header, when one is to be sent, to the header
/// snapshot taken for this request; the snapshot's own pairs are kept as they
/// are.
pub fn build_request_headers(base: Vec<(String, String)>, if_none_match: Option<String>) -> (r: Vec<
    (String, String),
>)
    ensures
        if_none_match is None ==> r@ == base@,
        if_none_match matches Some(t) ==> {
            &&& r@.len() == base@.len() + 1
            &&& r@.subrange(0, base@.len() as int) == base@
            &&& r@.last().0@ == "If-None-Match"@
            &&& r@.last().1@ == t@
        },
        header_map_of(r@) == match if_none_match {
            Option::None => header_map_of(base@),
            Option::Some(t) => header_map_of(base@).insert("If-None-Match"@, t@),
        },
{
    let mut r = base;
    match if_none_match {
        Option::None => r,
        Option::Some(t) => {
            let name = String::from_str("If-None-Match");
            let ghost b = r@;
            proof {
                lemma_header_map_push(r@, (name, t));
            }
            r.push((name, t));
            proof {
                assert(r@ == b.push((name, t)));
                assert(r@.subrange(0, b.len() as int) =~= b);
            }
            r
        },
    }
}

/// Copies a byte vector.
fn copy_bytes(v: &Vec<u8>) -> (r: Vec<u8>)
    ensures
        r@ == v@,
{
    let n = v.len();
    let mut r: Vec<u8> = Vec::new();
    let mut i: usize = 0;
    while i < n
        invariant
            0 <= i <= n,
            n == v@.len(),
            r@ =~= v@.subrange(0, i as int),
        decreases n - i,
    {
        r.push(v[i]);
        i += 1;
    }
    proof {
        assert(r@ =~= v@);
    }
    r
}

/// Copies an optional string.
fn clone_opt_string(o: &Option<String>) -> (r: Option<String>)
    ensures
        opt_string_view(r) == opt_string_view(*o),
{
    match o {
        Option::None => Option::None,
        Option::Some(s) => Option::Some(s.clone()),
    }
}

/// Resolves one origin response (or transport failure, `None`) against the
/// retained cache hit: returns the load's outcome together with the entry to
/// store afterwards, if any.
///
/// The outcome is decided here, before any cache write happens; the store
/// half is an instruction with no way to fail back into the outcome.
pub fn resolve_response(retained: Option<CacheEntry>, response: Option<HttpResponse>) -> (r: (
    FetchOutcome,
    Option<CacheEntry>,
))
    ensures
        r.0@ == spec_outcome(opt_entry_view(retained), opt_response_view(response)),
        opt_entry_view(r.1) == spec_store(opt_response_view(response)),
{
    match response {
        Option::None => (FetchOutcome::Failed, Option::None),
        Option::Some(resp) => {
            if resp.status == STATUS_NOT_MODIFIED {
                match retained {
                    Option::Some(c) => (FetchOutcome::NotModified(c.body), Option::None),
                    Option::None => (FetchOutcome::Failed, Option::None),
                }
            } else {
                let stored_body = copy_bytes(&resp.body);
                let stored_etag = clone_opt_string(&resp.etag);
                (
                    FetchOutcome::Fresh(resp.body),
                    Option::Some(CacheEntry { body: stored_body, etag: stored_etag }),
                )
            }
        },
    }
}

/// Normalizes a load's outcome to the error surface: every failure is
/// reported as `NotFound` for the requested path.
pub fn outcome_to_result(outcome: FetchOutcome, path: &str) -> (r: Result<Vec<u8>, AssetIoError>)
    ensures
        outcome matches FetchOutcome::Fresh(b) ==> (r matches Ok(v) && v@ == b@),
        outcome matches FetchOutcome::NotModified(b) ==> (r matches Ok(v) && v@ == b@),
        outcome is Failed ==> (r matches Err(e) && e@ == AssetIoErrorView::NotFound(path@)),
{
    match outcome {
        FetchOutcome::Fresh(b) => Result::Ok(b),
        FetchOutcome::NotModified(b) => Result::Ok(b),
        FetchOutcome::Failed => Result::Err(AssetIoError::NotFound(path.to_owned())),
    }
}

/// Revalidation across two loads of one URI with no header change between
/// them and a cache store present.
///
/// The first load's non-304 response is stored body and ETag; when the origin
/// supplied an ETag, the second load sends it as `If-None-Match` and retains
/// the stored hit. The second load's result then derives from a 304 exactly
/// when the origin answers 304 — the bytes are the stored ones — and a
/// changed origin response yields the new body, never the stale cached one.
pub proof fn lemma_revalidation(r1: HttpResponseView, r2: HttpResponseView)
    requires
        r1.status != STATUS_NOT_MODIFIED,
    ensures
        spec_store(Some(r1)) == Some(CacheEntryView { body: r1.body, etag: r1.etag }),
        spec_conditional(spec_store(Some(r1))) == r1.etag,
        r1.etag is Some ==> spec_retained(spec_store(Some(r1))) == spec_store(Some(r1)),
        r1.etag is Some && r2.status == STATUS_NOT_MODIFIED ==> spec_outcome(
            spec_retained(spec_store(Some(r1))),
            Some(r2),
        ) == FetchOutcomeView::NotModified(r1.body),
        r2.status != STATUS_NOT_MODIFIED ==> spec_outcome(
            spec_retained(spec_store(Some(r1))),
            Some(r2),
        ) == FetchOutcomeView::Fresh(r2.body),
        r1.etag is None ==> spec_conditional(spec_store(Some(r1))) is None,
{
}

/// Header propagation: once a header is set in the registry, every request
/// built from a later snapshot carries it.
///
/// `snap` is a snapshot whose map value shows the header (as `set` followed
/// by `snapshot` ensures), and `full` is a request header list built from it
/// (as `build_request_headers` ensures, with or without a conditional
/// header). The built request then maps the name to the value set. A `set`
/// made after the snapshot is nowhere in these premises: a request in flight
/// is a function of the snapshot it took.
pub proof fn lemma_header_propagation(
    m: Map<Seq<char>, Seq<char>>,
    name: Seq<char>,
    value: Seq<char>,
    snap: Seq<(String, String)>,
    inm: Option<String>,
    full: Seq<(String, String)>,
)
    requires
        header_map_of(snap) == m.insert(name, value),
        name != "If-None-Match"@,
        inm is None ==> full == snap,
        inm matches Some(t) ==> full.len() == snap.len() + 1 && full.subrange(
            0,
            snap.len() as int,
        ) == snap && full.last().0@ == "If-None-Match"@ && full.last().1@ == t@,
    ensures
        header_map_of(full).contains_pair(name, value),
{
    match inm {
        Option::None => {
        },
        Option::Some(t) => {
            assert(full =~= snap.push(full.last()));
            lemma_header_map_push(snap, full.last());
        },
    }
}

/// Caching is best-effort: the outcome of a load is a function of the
/// looked-up entry and the origin response alone, and a fresh response yields
/// its own bytes whether or not the store instruction is ever acted on.
pub proof fn lemma_store_is_best_effort(retained: Option<CacheEntryView>, r: HttpResponseView)
    requires
        r.status != STATUS_NOT_MODIFIED,
    ensures
        spec_outcome(retained, Some(r)) == FetchOutcomeView::Fresh(r.body),
{
}

} // verus!
