//! Tracking of off-chain verification requests: one record per request
//! id, created pending and later marked completed or failed.
use vstd::prelude::*;
use crate::portal::InsurancePortal;
use crate::types::{OracleRequest, PolicyClaim};

verus! {

impl InsurancePortal {
    /// A request with id `id` is tracked.
    pub open spec fn has_request(&self, id: Seq<char>) -> bool {
        exists|i: int|
            0 <= i < self.oracle_requests@.len() && #[trigger] self.oracle_requests@[i].request_id@
                == id
    }

    /// The tracked request with id `id`, where there is one.
    pub open spec fn request_of(&self, id: Seq<char>) -> Option<OracleRequest> {
        if self.has_request(id) {
            Some(
                self.oracle_requests@[choose|i: int|
                    0 <= i < self.oracle_requests@.len()
                        && #[trigger] self.oracle_requests@[i].request_id@ == id],
            )
        } else {
            None
        }
    }

    /// Under the invariant each tracked request is the one found under its id.
    pub proof fn lemma_request_at(&self, i: int)
        requires
            self.wf(),
            0 <= i < self.oracle_requests@.len(),
        ensures
            self.request_of(self.oracle_requests@[i].request_id@) == Some(self.oracle_requests@[i]),
    {
        let id = self.oracle_requests@[i].request_id@;
        assert(self.has_request(id));
        let c = choose|j: int|
            0 <= j < self.oracle_requests@.len() && #[trigger] self.oracle_requests@[j].request_id@
                == id;
        if c < i {
            assert(self.oracle_requests@[c].request_id@ != self.oracle_requests@[i].request_id@);
        } else if c > i {
            assert(self.oracle_requests@[i].request_id@ != self.oracle_requests@[c].request_id@);
        }
    }

    /// Index of the request with id `id`.
    fn find_request(&self, id: &String) -> (r: Option<usize>)
        requires
            self.wf(),
        ensures
            r is None <==> !self.has_request(id@),
            r matches Some(i) ==> i < self.oracle_requests@.len()
                && self.oracle_requests@[i as int].request_id@ == id@,
    {
        let mut i: usize = 0;
        while i < self.oracle_requests.len()
            invariant
                i <= self.oracle_requests@.len(),
                forall|k: int| 0 <= k < i ==> #[trigger] self.oracle_requests@[k].request_id@ != id@,
            decreases self.oracle_requests@.len() - i,
        {
            if self.oracle_requests[i].request_id == *id {
                return Some(i);
            }
            i += 1;
        }
        None
    }

    /// The requests of `t` are those of `s` with the entry at `i` replaced
    /// by `q`, which keeps its id: every other id finds what it found.
    proof fn lemma_replace_frame(s: Self, t: Self, i: int, q: OracleRequest)
        requires
            s.wf(),
            0 <= i < s.oracle_requests@.len(),
            q.request_id@ == s.oracle_requests@[i].request_id@,
            t.oracle_requests@ == s.oracle_requests@.update(i, q),
        ensures
            forall|o: Seq<char>| o != q.request_id@ ==> #[trigger] t.request_of(o) == s.request_of(o),
    {
        assert forall|o: Seq<char>| o != q.request_id@ implies #[trigger] t.request_of(o)
            == s.request_of(o) by {
            if s.has_request(o) {
                let k = choose|j: int|
                    0 <= j < s.oracle_requests@.len() && #[trigger] s.oracle_requests@[j].request_id@
                        == o;
                assert(t.oracle_requests@[k] == s.oracle_requests@[k]);
                assert(t.has_request(o));
            } else {
                assert forall|j: int| 0 <= j < t.oracle_requests@.len() implies #[trigger] t.oracle_requests@[j].request_id@
                    != o by {
                    if j != i {
                        assert(t.oracle_requests@[j] == s.oracle_requests@[j]);
                    }
                }
            }
        }
    }

    /// Starts tracking request `request_id` for claim `claim_id`, pending,
    /// at time `now`. A request already tracked under that id is replaced.
    pub fn store_oracle_request(
        &mut self,
        request_id: String,
        claim_id: u64,
        abha_id: String,
        ipfs_cid: String,
        now: u64,
    )
        requires
            old(self).wf(),
        ensures
            final(self).wf(),
            final(self).request_of(request_id@) == Some(
                OracleRequest {
                    request_id,
                    claim_id,
                    abha_id,
                    ipfs_cid,
                    requested_at: now,
                    status: 0,
                },
            ),
            forall|o: Seq<char>| o != request_id@ ==> #[trigger] final(self).request_of(o) == old(
                self,
            ).request_of(o),
            *final(self) == (InsurancePortal { oracle_requests: final(self).oracle_requests, ..*old(self) }),
    {
        let found = self.find_request(&request_id);
        let req = OracleRequest { request_id, claim_id, abha_id, ipfs_cid, requested_at: now, status: 0 };
        let ghost before = *self;
        match found {
            Some(i) => {
                self.oracle_requests.set(i, req);
                assert forall|a: int, b: int|
                    0 <= a < b < self.oracle_requests@.len()
                        implies #[trigger] self.oracle_requests@[a].request_id@
                        != #[trigger] self.oracle_requests@[b].request_id@ by {
                    assert(before.oracle_requests@[a].request_id@ != before.oracle_requests@[b].request_id@);
                }
                proof {
                    self.lemma_request_at(i as int);
                    Self::lemma_replace_frame(before, *self, i as int, req);
                }
            },
            None => {
                self.oracle_requests.push(req);
                let ghost n: int = before.oracle_requests@.len() as int;
                assert forall|a: int, b: int|
                    0 <= a < b < self.oracle_requests@.len()
                        implies #[trigger] self.oracle_requests@[a].request_id@
                        != #[trigger] self.oracle_requests@[b].request_id@ by {
                    assert(self.oracle_requests@[a] == before.oracle_requests@[a]);
                    if b < n {
                        assert(self.oracle_requests@[b] == before.oracle_requests@[b]);
                    }
                }
                proof {
                    self.lemma_request_at(n);
                }
                assert forall|o: Seq<char>| o != req.request_id@ implies #[trigger] self.request_of(o)
                    == before.request_of(o) by {
                    if before.has_request(o) {
                        let k = choose|j: int|
                            0 <= j < before.oracle_requests@.len()
                                && #[trigger] before.oracle_requests@[j].request_id@ == o;
                        assert(self.oracle_requests@[k] == before.oracle_requests@[k]);
                        before.lemma_request_at(k);
                        self.lemma_request_at(k);
                    } else {
                        assert forall|j: int| 0 <= j < self.oracle_requests@.len() implies #[trigger] self.oracle_requests@[j].request_id@
                            != o by {
                            if j < n {
                                assert(self.oracle_requests@[j] == before.oracle_requests@[j]);
                            }
                        }
                    }
                }
            },
        }
    }

    /// Records the answer `status` (1 completed, 2 failed) for request
    /// `request_id`; nothing happens where no such request is tracked.
    pub fn update_oracle_request_status(&mut self, request_id: &String, status: u32)
        requires
            old(self).wf(),
        ensures
            final(self).wf(),
            match old(self).request_of(request_id@) {
                None => *final(self) == *old(self),
                Some(q) => {
                    &&& final(self).request_of(request_id@) == Some(OracleRequest { status, ..q })
                    &&& forall|o: Seq<char>| o != request_id@ ==> #[trigger] final(self).request_of(o)
                        == old(self).request_of(o)
                    &&& *final(self) == (InsurancePortal {
                        oracle_requests: final(self).oracle_requests,
                        ..*old(self)
                    })
                },
            },
    {
        match self.find_request(request_id) {
            None => {},
            Some(i) => {
                let ghost before = *self;
                proof {
                    before.lemma_request_at(i as int);
                }
                self.oracle_requests[i].status = status;
                let ghost q = OracleRequest { status, ..before.oracle_requests@[i as int] };
                assert(self.oracle_requests@ =~= before.oracle_requests@.update(i as int, q));
                assert forall|a: int, b: int|
                    0 <= a < b < self.oracle_requests@.len()
                        implies #[trigger] self.oracle_requests@[a].request_id@
                        != #[trigger] self.oracle_requests@[b].request_id@ by {
                    assert(before.oracle_requests@[a].request_id@ != before.oracle_requests@[b].request_id@);
                }
                proof {
                    self.lemma_request_at(i as int);
                    Self::lemma_replace_frame(before, *self, i as int, q);
                }
            },
        }
    }

    /// The tracked request with id `request_id`, if any.
    pub fn get_oracle_request(&self, request_id: &String) -> (r: Option<OracleRequest>)
        requires
            self.wf(),
        ensures
            r == self.request_of(request_id@),
    {
        match self.find_request(request_id) {
            None => None,
            Some(i) => {
                proof {
                    self.lemma_request_at(i as int);
                }
                Some(self.oracle_requests[i].clone())
            },
        }
    }

    /// The claim that request `request_id` was made for, if the request is
    /// tracked and the claim exists.
    pub fn get_claim_by_oracle_request(&self, request_id: &String) -> (r: Option<PolicyClaim>)
        requires
            self.wf(),
        ensures
            r == match self.request_of(request_id@) {
                Some(q) => self.claim_spec(q.claim_id),
                None => None,
            },
    {
        match self.get_oracle_request(request_id) {
            None => None,
            Some(q) => self.get_claim_details(q.claim_id),
        }
    }

    /// The claim with id `claim_id`, if any.
    pub fn get_claim_details(&self, claim_id: u64) -> (r: Option<PolicyClaim>)
        requires
            self.wf(),
        ensures
            r == self.claim_spec(claim_id),
    {
        if claim_id == 0 || claim_id > self.claim_counter {
            None
        } else {
            assert(claim_id - 1 < self.claims.len());
            Some(self.claims[(claim_id - 1) as usize].clone())
        }
    }
}

} // verus!
