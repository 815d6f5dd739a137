use crate::catalog::{find_release, has_release, is_first_match, ModRelease, ModResponse};
use crate::error::{Error, Result};
use vstd::prelude::*;

verus! {

/// A request for one exact release of one mod.
#[derive(Debug, Clone)]
pub struct ModDetails {
    /// The catalog's machine identifier of the mod.
    pub name: String,
    /// The exact version wanted; no ranges.
    pub version: String,
}

/// What the catalog answered to a lookup of one mod.
#[derive(Debug)]
pub enum CatalogReply {
    /// A success status, with the mod's listing.
    Listing(ModResponse),
    /// Any other status, with the response body as it came.
    Failure(String),
}

/// The position of the release that a lookup of `version` picks.
pub open spec fn chosen_release(releases: Seq<ModRelease>, version: Seq<char>) -> int {
    choose|i: int| is_first_match(releases, version, i)
}

/// What resolving `details` against the catalog's `reply` gives: the first
/// release with exactly the requested version, the catalog's own failure, or
/// a miss naming the mod and the version.
pub open spec fn resolution_of(details: ModDetails, reply: CatalogReply) -> Result<ModRelease> {
    match reply {
        CatalogReply::Failure(body) => Err(Error::FactorioApi(body)),
        CatalogReply::Listing(listing) => {
            if has_release(listing.releases@, details.version@) {
                Ok(listing.releases@[chosen_release(listing.releases@, details.version@)])
            } else {
                Err(Error::NoMatchingRelease(details.name, details.version))
            }
        },
    }
}

/// At most one position is the first match.
proof fn lemma_first_match_unique(releases: Seq<ModRelease>, version: Seq<char>, i: int)
    requires
        is_first_match(releases, version, i),
    ensures
        chosen_release(releases, version) == i,
{
    let k = chosen_release(releases, version);
    assert(is_first_match(releases, version, k));
    if k < i {
        assert(releases[k].version@ != version);
    } else if i < k {
        assert(releases[i].version@ != version);
    }
}

/// Resolves one request against the catalog's reply to its lookup.
pub fn resolve_release(details: ModDetails, reply: CatalogReply) -> (r: Result<ModRelease>)
    ensures
        r == resolution_of(details, reply),
{
    match reply {
        CatalogReply::Failure(body) => Err(Error::FactorioApi(body)),
        CatalogReply::Listing(listing) => {
            match find_release(&listing.releases, &details.version) {
                Some(i) => {
                    proof {
                        lemma_first_match_unique(listing.releases@, details.version@, i as int);
                    }
                    let mut releases = listing.releases;
                    Ok(releases.remove(i))
                },
                None => Err(Error::NoMatchingRelease(details.name, details.version)),
            }
        },
    }
}

/// The outcome of resolving the first `replies.len()` requests of a batch,
/// one after the other: every release in request order, or the first
/// failure, after which nothing further is resolved.
pub open spec fn resolve_batch(requests: Seq<ModDetails>, replies: Seq<CatalogReply>) -> Result<
    Seq<ModRelease>,
>
    decreases replies.len(),
{
    if replies.len() == 0 {
        Ok(Seq::empty())
    } else {
        let last = (replies.len() - 1) as int;
        match resolve_batch(requests, replies.take(last)) {
            Err(e) => Err(e),
            Ok(done) => match resolution_of(requests[last], replies[last]) {
                Ok(release) => Ok(done.push(release)),
                Err(e) => Err(e),
            },
        }
    }
}

/// A batch of requests resolved strictly in order, stopping at the first
/// failure. The caller looks each pending request up in the catalog and
/// hands the reply back; once every request has resolved, the releases come
/// out in request order.
pub struct ResolutionBatch {
    requests: Vec<ModDetails>,
    resolved: Vec<ModRelease>,
    failed: bool,
    replies: Ghost<Seq<CatalogReply>>,
}

impl ResolutionBatch {
    /// The requests of the batch, in order.
    pub closed spec fn requests_view(&self) -> Seq<ModDetails> {
        self.requests@
    }

    /// The catalog replies handed in so far, in order.
    pub closed spec fn replies_view(&self) -> Seq<CatalogReply> {
        self.replies@
    }

    /// Whether a reply failed to resolve; the batch is then abandoned.
    pub closed spec fn failed_view(&self) -> bool {
        self.failed
    }

    pub closed spec fn wf(&self) -> bool {
        &&& self.replies@.len() <= self.requests@.len()
        &&& if self.failed {
            &&& self.replies@.len() == self.resolved@.len() + 1
            &&& resolve_batch(self.requests@, self.replies@) is Err
        } else {
            &&& self.replies@.len() == self.resolved@.len()
            &&& resolve_batch(self.requests@, self.replies@) == Ok::<Seq<ModRelease>, Error>(
                self.resolved@,
            )
        }
    }

    /// Starts a batch with nothing resolved yet. An empty batch is complete
    /// at once.
    pub fn new(requests: Vec<ModDetails>) -> (r: ResolutionBatch)
        ensures
            r.wf(),
            r.requests_view() == requests@,
            r.replies_view() == Seq::<CatalogReply>::empty(),
            !r.failed_view(),
    {
        ResolutionBatch { requests, resolved: Vec::new(), failed: false, replies: Ghost(Seq::empty()) }
    }

    /// The request to look up next, unless the batch is complete or failed.
    pub fn next_request(&self) -> (r: Option<&ModDetails>)
        requires
            self.wf(),
        ensures
            match r {
                Some(d) => !self.failed_view() && self.replies_view().len() < self.requests_view().len()
                    && *d == self.requests_view()[self.replies_view().len() as int],
                None => self.failed_view() || self.replies_view().len() == self.requests_view().len(),
            },
    {
        if self.failed || self.resolved.len() == self.requests.len() {
            None
        } else {
            Some(&self.requests[self.resolved.len()])
        }
    }

    /// Hands in the catalog's reply for the pending request. A reply that
    /// does not resolve fails the whole batch with its error.
    pub fn record(&mut self, reply: CatalogReply) -> (r: Result<()>)
        requires
            old(self).wf(),
            !old(self).failed_view(),
            old(self).replies_view().len() < old(self).requests_view().len(),
        ensures
            final(self).wf(),
            final(self).requests_view() == old(self).requests_view(),
            final(self).replies_view() == old(self).replies_view().push(reply),
            final(self).failed_view() == r is Err,
            match resolution_of(
                old(self).requests_view()[old(self).replies_view().len() as int],
                reply,
            ) {
                Ok(_) => r is Ok,
                Err(e) => r == Err::<(), Error>(e),
            },
    {
        let ghost before = self.replies@;
        let ghost n = before.len() as int;
        let pending = &self.requests[self.resolved.len()];
        let details = ModDetails { name: pending.name.clone(), version: pending.version.clone() };
        let result = resolve_release(details, reply);
        self.replies = Ghost(before.push(reply));
        assert(self.replies@.take(n) == before);
        match result {
            Ok(release) => {
                self.resolved.push(release);
                Ok(())
            },
            Err(e) => {
                self.failed = true;
                Err(e)
            },
        }
    }

    /// The resolved releases in request order, once every request of the
    /// batch has resolved; `None` while one is pending or after a failure.
    pub fn into_releases(self) -> (r: Option<Vec<ModRelease>>)
        requires
            self.wf(),
        ensures
            match r {
                Some(releases) => !self.failed_view() && self.replies_view().len()
                    == self.requests_view().len() && resolve_batch(
                    self.requests_view(),
                    self.replies_view(),
                ) == Ok::<Seq<ModRelease>, Error>(releases@),
                None => self.failed_view() || self.replies_view().len() < self.requests_view().len(),
            },
    {
        if self.failed || self.resolved.len() != self.requests.len() {
            None
        } else {
            Some(self.resolved)
        }
    }
}

/// The positions, in order, of the releases whose destination file is not
/// present yet (`present[i]` tells for release `i`).
pub open spec fn pending_positions(present: Seq<bool>) -> Seq<usize>
    decreases present.len(),
{
    if present.len() == 0 {
        Seq::empty()
    } else {
        let last = present.len() - 1;
        let before = pending_positions(present.take(last));
        if present[last] {
            before
        } else {
            before.push(last as usize)
        }
    }
}

/// The positions of the releases still to fetch; a release whose file is
/// already on disk is skipped.
pub fn plan_downloads(present: &Vec<bool>) -> (r: Vec<usize>)
    ensures
        r@ == pending_positions(present@),
{
    let mut plan: Vec<usize> = Vec::new();
    let mut i: usize = 0;
    while i < present.len()
        invariant
            i <= present@.len(),
            plan@ == pending_positions(present@.take(i as int)),
        decreases present@.len() - i,
    {
        assert(present@.take(i + 1).take(i as int) == present@.take(i as int));
        if !present[i] {
            plan.push(i);
        }
        i = i + 1;
    }
    assert(present@.take(present@.len() as int) == present@);
    plan
}

/// Every planned position is a release to fetch: in range, not present, and
/// in increasing order; and every release that is not present is planned.
pub proof fn lemma_pending_positions(present: Seq<bool>)
    requires
        present.len() <= usize::MAX,
    ensures
        forall|k: int|
            0 <= k < pending_positions(present).len() ==> pending_positions(present)[k]
                < present.len() && !present[pending_positions(present)[k] as int],
        forall|k: int, l: int|
            0 <= k < l < pending_positions(present).len() ==> pending_positions(present)[k]
                < pending_positions(present)[l],
        forall|i: int|
            0 <= i < present.len() && !present[i] ==> pending_positions(present).contains(
                i as usize,
            ),
    decreases present.len(),
{
    if present.len() > 0 {
        let last = present.len() - 1;
        let prefix = present.take(last);
        lemma_pending_positions(prefix);
        let before = pending_positions(prefix);
        assert forall|i: int| 0 <= i < present.len() && !present[i] implies pending_positions(
            present,
        ).contains(i as usize) by {
            if i < last {
                assert(prefix[i] == present[i]);
                let k = choose|k: int| 0 <= k < before.len() && before[k] == i as usize;
                assert(pending_positions(present)[k] == i as usize);
            } else {
                assert(pending_positions(present)[before.len() as int] == i as usize);
            }
        }
        assert forall|k: int| 0 <= k < before.len() implies before[k] < last && !present[before[k] as int] by {
            assert(prefix[before[k] as int] == present[before[k] as int]);
        }
    }
}

/// Re-running a download over a directory that already holds a release's
/// file fetches nothing for it; when every file is there, nothing at all is
/// fetched.
pub proof fn lemma_rerun_skips_present(present: Seq<bool>, i: int)
    requires
        present.len() <= usize::MAX,
        0 <= i < present.len(),
        present[i],
    ensures
        !pending_positions(present).contains(i as usize),
        (forall|j: int| 0 <= j < present.len() ==> present[j]) ==> pending_positions(present).len()
            == 0,
{
    lemma_pending_positions(present);
    if pending_positions(present).contains(i as usize) {
        let k = choose|k: int|
            0 <= k < pending_positions(present).len() && pending_positions(present)[k] == i as usize;
        assert(!present[pending_positions(present)[k] as int]);
    }
    if (forall|j: int| 0 <= j < present.len() ==> present[j]) && pending_positions(present).len() > 0 {
        let p = pending_positions(present)[0];
        assert(!present[p as int]);
    }
}

/// Resolution fails fast: once one request fails to resolve, the batch fails,
/// with the error of the first request that failed, whatever the replies to
/// the others; so it yields no release to fetch.
pub proof fn lemma_batch_fails_fast(requests: Seq<ModDetails>, replies: Seq<CatalogReply>, k: int)
    requires
        replies.len() <= requests.len(),
        0 <= k < replies.len(),
        resolution_of(requests[k], replies[k]) is Err,
    ensures
        resolve_batch(requests, replies) is Err,
        (forall|j: int| 0 <= j < k ==> resolution_of(requests[j], replies[j]) is Ok) ==> resolve_batch(
            requests,
            replies,
        ) == Err::<Seq<ModRelease>, Error>(resolution_of(requests[k], replies[k])->Err_0),
    decreases replies.len(),
{
    let last = replies.len() - 1;
    let prefix = replies.take(last);
    if k < last {
        assert(prefix[k] == replies[k]);
        lemma_batch_fails_fast(requests, prefix, k);
        if forall|j: int| 0 <= j < k ==> resolution_of(requests[j], replies[j]) is Ok {
            assert forall|j: int| 0 <= j < k implies resolution_of(requests[j], prefix[j]) is Ok by {
                assert(prefix[j] == replies[j]);
            }
        }
    } else if forall|j: int| 0 <= j < k ==> resolution_of(requests[j], replies[j]) is Ok {
        lemma_batch_resolves(requests, prefix);
    }
}

/// A batch whose replies all resolve yields one release per request, each
/// the resolution of its own request, in request order.
pub proof fn lemma_batch_resolves(requests: Seq<ModDetails>, replies: Seq<CatalogReply>)
    requires
        replies.len() <= requests.len(),
        forall|j: int| 0 <= j < replies.len() ==> resolution_of(requests[j], replies[j]) is Ok,
    ensures
        resolve_batch(requests, replies) is Ok,
        resolve_batch(requests, replies)->Ok_0.len() == replies.len(),
        forall|j: int|
            0 <= j < replies.len() ==> resolution_of(requests[j], replies[j]) == Ok::<
                ModRelease,
                Error,
            >(resolve_batch(requests, replies)->Ok_0[j]),
    decreases replies.len(),
{
    if replies.len() > 0 {
        let last = replies.len() - 1;
        let prefix = replies.take(last);
        assert forall|j: int| 0 <= j < prefix.len() implies resolution_of(requests[j], prefix[j]) is Ok by {
            assert(prefix[j] == replies[j]);
        }
        lemma_batch_resolves(requests, prefix);
        assert forall|j: int| 0 <= j < last implies resolution_of(requests[j], replies[j]) == Ok::<
            ModRelease,
            Error,
        >(resolve_batch(requests, replies)->Ok_0[j]) by {
            assert(prefix[j] == replies[j]);
        }
    }
}

} // verus!
