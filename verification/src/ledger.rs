use vstd::prelude::*;
use crate::error::ErrorCode;
use crate::records::{
    byte_len, check_close, has_option, id_len_ok, layout_ok, options_fit, check_vote, Identity,
    Poll, VoteRecord, MAX_EXTERNAL_REF_LEN, MAX_POLL_ID_LEN,
};

verus! {

/// The predicate picking the vote records that belong to the poll `pid`.
pub open spec fn belongs_to(pid: Seq<char>) -> spec_fn(VoteRecord) -> bool {
    |v: VoteRecord| v.poll_id@ == pid
}

/// The vote records among `votes` that belong to the poll `pid`.
pub open spec fn votes_for(votes: Seq<VoteRecord>, pid: Seq<char>) -> Seq<VoteRecord> {
    votes.filter(belongs_to(pid))
}

/// How many vote records among `votes` belong to the poll `pid`.
pub open spec fn vote_count(votes: Seq<VoteRecord>, pid: Seq<char>) -> nat {
    votes_for(votes, pid).len()
}

/// Appending a vote record raises the count of exactly the poll it belongs
/// to, by one.
pub proof fn lemma_votes_for_push(votes: Seq<VoteRecord>, pid: Seq<char>, v: VoteRecord)
    ensures
        v.poll_id@ == pid ==> vote_count(votes.push(v), pid) == vote_count(votes, pid) + 1,
        v.poll_id@ != pid ==> vote_count(votes.push(v), pid) == vote_count(votes, pid),
{
    votes.lemma_filter_len_push(belongs_to(pid), v);
}

/// A poll no vote record belongs to has count zero.
pub proof fn lemma_votes_for_absent(votes: Seq<VoteRecord>, pid: Seq<char>)
    requires
        forall|i: int| 0 <= i < votes.len() ==> (#[trigger] votes[i].poll_id@) != pid,
    ensures
        vote_count(votes, pid) == 0,
{
    assert forall|i: int| 0 <= i < votes.len() implies !(belongs_to(pid)(#[trigger] votes[i])) by {
        assert(votes[i].poll_id@ != pid);
    }
    votes.lemma_all_neg_filter_empty(belongs_to(pid));
}

/// A poll's count never exceeds the number of vote records held.
pub proof fn lemma_vote_count_bound(votes: Seq<VoteRecord>, pid: Seq<char>)
    ensures
        vote_count(votes, pid) <= votes.len(),
{
    votes.lemma_filter_len(belongs_to(pid));
}

/// The record store: one registry entry per poll, keyed by poll id, and one
/// ledger entry per accepted vote, keyed by (poll id, voter). Key uniqueness
/// stands in for the store's rule that creating a record at an occupied
/// address fails the whole operation.
pub struct Ledger {
    /// Poll registry entries; ids are pairwise distinct.
    pub polls: Vec<Poll>,
    /// Vote ledger entries; (poll id, voter) pairs are pairwise distinct.
    pub votes: Vec<VoteRecord>,
}

impl Ledger {
    /// A poll with id `pid` exists.
    pub open spec fn has_poll(self, pid: Seq<char>) -> bool {
        exists|i: int| 0 <= i < self.polls@.len() && #[trigger] self.polls@[i].id@ == pid
    }

    /// Index of the poll with id `pid` (meaningful only when it exists).
    pub open spec fn poll_index(self, pid: Seq<char>) -> int {
        choose|i: int| 0 <= i < self.polls@.len() && #[trigger] self.polls@[i].id@ == pid
    }

    /// The poll with id `pid` (meaningful only when it exists).
    pub open spec fn spec_poll(self, pid: Seq<char>) -> Poll {
        self.polls@[self.poll_index(pid)]
    }

    /// A vote record for the pair (`pid`, `voter`) exists.
    pub open spec fn has_vote(self, pid: Seq<char>, voter: Identity) -> bool {
        exists|i: int|
            0 <= i < self.votes@.len() && #[trigger] self.votes@[i].poll_id@ == pid
                && self.votes@[i].voter == voter
    }

    /// Index of the vote record for (`pid`, `voter`) (meaningful only when
    /// it exists).
    pub open spec fn vote_index(self, pid: Seq<char>, voter: Identity) -> int {
        choose|i: int|
            0 <= i < self.votes@.len() && #[trigger] self.votes@[i].poll_id@ == pid
                && self.votes@[i].voter == voter
    }

    /// The vote record for (`pid`, `voter`) (meaningful only when it
    /// exists).
    pub open spec fn spec_vote(self, pid: Seq<char>, voter: Identity) -> VoteRecord {
        self.votes@[self.vote_index(pid, voter)]
    }

    /// Well-formedness of the store, established by `new` and preserved by
    /// every operation:
    /// - poll ids are pairwise distinct;
    /// - every poll's stored fields fit the storage layout;
    /// - (poll id, voter) pairs of vote records are pairwise distinct —
    ///   the double-vote guard;
    /// - every vote record belongs to an existing poll;
    /// - every poll's `total_votes` equals the number of vote records held
    ///   for it.
    pub open spec fn wf(self) -> bool {
        &&& forall|i: int, j: int|
            0 <= i < j < self.polls@.len() ==> (#[trigger] self.polls@[i].id@) != (
            #[trigger] self.polls@[j].id@)
        &&& forall|i: int| 0 <= i < self.polls@.len() ==> (#[trigger] self.polls@[i]).wf()
        &&& forall|i: int, j: int|
            0 <= i < j < self.votes@.len() ==> !((#[trigger] self.votes@[i].poll_id@) == (
            #[trigger] self.votes@[j].poll_id@) && self.votes@[i].voter == self.votes@[j].voter)
        &&& forall|i: int|
            0 <= i < self.votes@.len() ==> self.has_poll(#[trigger] self.votes@[i].poll_id@)
        &&& forall|i: int|
            0 <= i < self.polls@.len() ==> (#[trigger] self.polls@[i]).total_votes == vote_count(
                self.votes@,
                self.polls@[i].id@,
            )
    }

    /// An empty store: no polls, no votes.
    pub fn new() -> (l: Ledger)
        ensures
            l.wf(),
            l.polls@ == Seq::<Poll>::empty(),
            l.votes@ == Seq::<VoteRecord>::empty(),
    {
        Ledger { polls: Vec::new(), votes: Vec::new() }
    }

    /// Index of the poll with id `poll_id`, if one exists.
    fn find_poll_index(&self, poll_id: &String) -> (r: Option<usize>)
        ensures
            match r {
                Some(i) => i < self.polls@.len() && self.polls@[i as int].id@ == poll_id@
                    && self.has_poll(poll_id@),
                None => !self.has_poll(poll_id@),
            },
    {
        let mut i: usize = 0;
        while i < self.polls.len()
            invariant
                i <= self.polls@.len(),
                forall|j: int| 0 <= j < i ==> (#[trigger] self.polls@[j].id@) != poll_id@,
            decreases self.polls@.len() - i,
        {
            if self.polls[i].id == *poll_id {
                return Some(i);
            }
            i += 1;
        }
        None
    }

    /// Whether a vote record for (`poll_id`, `voter`) exists.
    fn find_vote(&self, poll_id: &String, voter: &Identity) -> (r: bool)
        ensures
            r == self.has_vote(poll_id@, *voter),
    {
        let mut i: usize = 0;
        while i < self.votes.len()
            invariant
                i <= self.votes@.len(),
                forall|j: int|
                    0 <= j < i ==> !((#[trigger] self.votes@[j].poll_id@) == poll_id@
                        && self.votes@[j].voter == *voter),
            decreases self.votes@.len() - i,
        {
            if self.votes[i].poll_id == *poll_id && self.votes[i].voter == *voter {
                return true;
            }
            i += 1;
        }
        false
    }

    /// Create the poll `poll_id`. The new registry entry starts active with
    /// zero votes and carries the creator, the declared options and the
    /// external correlation id exactly as given. Fails with
    /// `AddressDerivationError` when the id does not fit the addressing
    /// scheme, with `DuplicatePoll` when a poll with this id already
    /// exists, and with `AddressDerivationError` again when the options or
    /// the correlation id do not fit the record layout; every failure
    /// leaves the store unchanged.
    pub fn create_poll(
        &mut self,
        poll_id: String,
        options: Vec<String>,
        hlf_poll_id: String,
        creator: Identity,
    ) -> (r: Result<(), ErrorCode>)
        requires
            old(self).wf(),
        ensures
            final(self).wf(),
            !id_len_ok(poll_id@) ==> r == Err::<(), ErrorCode>(ErrorCode::AddressDerivationError)
                && *final(self) == *old(self),
            id_len_ok(poll_id@) && old(self).has_poll(poll_id@) ==> r == Err::<(), ErrorCode>(
                ErrorCode::DuplicatePoll,
            ) && *final(self) == *old(self),
            id_len_ok(poll_id@) && !old(self).has_poll(poll_id@) && !layout_ok(
                options@,
                hlf_poll_id@,
            ) ==> r == Err::<(), ErrorCode>(ErrorCode::AddressDerivationError) && *final(self)
                == *old(self),
            id_len_ok(poll_id@) && !old(self).has_poll(poll_id@) && layout_ok(
                options@,
                hlf_poll_id@,
            ) ==> ({
                &&& r == Ok::<(), ErrorCode>(())
                &&& final(self).polls@ == old(self).polls@.push(
                    (Poll {
                        id: poll_id,
                        creator: creator,
                        options: options,
                        hlf_poll_id: hlf_poll_id,
                        is_active: true,
                        total_votes: 0,
                    }),
                )
                &&& final(self).votes@ == old(self).votes@
                &&& final(self).has_poll(poll_id@)
                &&& final(self).spec_poll(poll_id@) == (Poll {
                    id: poll_id,
                    creator: creator,
                    options: options,
                    hlf_poll_id: hlf_poll_id,
                    is_active: true,
                    total_votes: 0,
                })
            }),
    {
        if byte_len(&poll_id) > MAX_POLL_ID_LEN {
            return Err(ErrorCode::AddressDerivationError);
        }
        match self.find_poll_index(&poll_id) {
            Some(_) => {
                return Err(ErrorCode::DuplicatePoll);
            },
            None => {},
        }
        if !options_fit(&options) || byte_len(&hlf_poll_id) > MAX_EXTERNAL_REF_LEN {
            return Err(ErrorCode::AddressDerivationError);
        }
        let ghost pre = *self;
        let ghost pid = poll_id@;
        let poll = Poll {
            id: poll_id,
            creator: creator,
            options: options,
            hlf_poll_id: hlf_poll_id,
            is_active: true,
            total_votes: 0,
        };
        let ghost new_poll = poll;
        self.polls.push(poll);
        proof {
            let post = *self;
            assert(post.polls@ == pre.polls@.push(new_poll));
            let n = pre.polls@.len() as int;
            // No existing poll carries the new id.
            assert forall|i: int| 0 <= i < n implies (#[trigger] pre.polls@[i].id@) != pid by {
                if pre.polls@[i].id@ == pid {
                    assert(pre.has_poll(pid));
                }
            }
            // Poll ids stay pairwise distinct.
            assert forall|i: int, j: int|
                0 <= i < j < post.polls@.len() implies (#[trigger] post.polls@[i].id@) != (
            #[trigger] post.polls@[j].id@) by {
                if j < n {
                    assert(pre.polls@[i].id@ != pre.polls@[j].id@);
                } else {
                    assert(post.polls@[j].id@ == pid);
                    assert(pre.polls@[i].id@ != pid);
                }
            }
            // Every vote record still belongs to an existing poll.
            assert forall|i: int| 0 <= i < post.votes@.len() implies post.has_poll(
                #[trigger] post.votes@[i].poll_id@,
            ) by {
                assert(pre.has_poll(pre.votes@[i].poll_id@));
                let k = choose|k: int|
                    0 <= k < pre.polls@.len() && #[trigger] pre.polls@[k].id@
                        == pre.votes@[i].poll_id@;
                assert(post.polls@[k].id@ == post.votes@[i].poll_id@);
            }
            // No vote record belongs to the new poll.
            assert forall|i: int| 0 <= i < post.votes@.len() implies (
            #[trigger] post.votes@[i].poll_id@) != pid by {
                if post.votes@[i].poll_id@ == pid {
                    assert(pre.has_poll(pid));
                }
            }
            lemma_votes_for_absent(post.votes@, pid);
            // Every poll's counter still matches its vote records.
            assert forall|i: int| 0 <= i < post.polls@.len() implies (
            #[trigger] post.polls@[i]).total_votes == vote_count(
                post.votes@,
                post.polls@[i].id@,
            ) by {
                if i < n {
                    assert(post.polls@[i] == pre.polls@[i]);
                }
            }
            assert(post.polls@[n].id@ == pid);
            assert(post.has_poll(pid));
            lemma_poll_index_of(post, pid);
            assert(post.spec_poll(pid) == new_poll);
        }
        Ok(())
    }

    /// Cast a vote on the poll `poll_id`. Checked in order: the poll must
    /// exist (`PollNotFound`), be active (`PollInactive`), declare the
    /// chosen option (`InvalidOption`), and hold no vote record yet for
    /// this voter (`DuplicateVote`); every failure leaves the store
    /// unchanged. On success one vote record is appended and the poll's
    /// counter grows by exactly one, together.
    pub fn vote(
        &mut self,
        poll_id: String,
        vote_option: String,
        hlf_vote_id: String,
        voter: Identity,
        timestamp: i64,
    ) -> (r: Result<(), ErrorCode>)
        requires
            old(self).wf(),
        ensures
            final(self).wf(),
            !old(self).has_poll(poll_id@) ==> r == Err::<(), ErrorCode>(ErrorCode::PollNotFound)
                && *final(self) == *old(self),
            old(self).has_poll(poll_id@) && !old(self).spec_poll(poll_id@).is_active ==> r
                == Err::<(), ErrorCode>(ErrorCode::PollInactive) && *final(self) == *old(self),
            old(self).has_poll(poll_id@) && old(self).spec_poll(poll_id@).is_active && !has_option(
                old(self).spec_poll(poll_id@).options@,
                vote_option@,
            ) ==> r == Err::<(), ErrorCode>(ErrorCode::InvalidOption) && *final(self) == *old(
                self,
            ),
            old(self).has_poll(poll_id@) && old(self).spec_poll(poll_id@).is_active && has_option(
                old(self).spec_poll(poll_id@).options@,
                vote_option@,
            ) && old(self).has_vote(poll_id@, voter) ==> r == Err::<(), ErrorCode>(
                ErrorCode::DuplicateVote,
            ) && *final(self) == *old(self),
            old(self).has_poll(poll_id@) && old(self).spec_poll(poll_id@).is_active && has_option(
                old(self).spec_poll(poll_id@).options@,
                vote_option@,
            ) && !old(self).has_vote(poll_id@, voter) ==> ({
                &&& r == Ok::<(), ErrorCode>(())
                &&& final(self).votes@ == old(self).votes@.push(
                    (VoteRecord {
                        poll_id: poll_id,
                        voter: voter,
                        vote_option: vote_option,
                        hlf_vote_id: hlf_vote_id,
                        timestamp: timestamp,
                    }),
                )
                &&& final(self).polls@ == old(self).polls@.update(
                    old(self).poll_index(poll_id@),
                    (Poll {
                        total_votes: (old(self).spec_poll(poll_id@).total_votes + 1) as u64,
                        ..old(self).spec_poll(poll_id@)
                    }),
                )
                &&& final(self).has_poll(poll_id@)
                &&& final(self).has_vote(poll_id@, voter)
                &&& final(self).spec_vote(poll_id@, voter) == (VoteRecord {
                    poll_id: poll_id,
                    voter: voter,
                    vote_option: vote_option,
                    hlf_vote_id: hlf_vote_id,
                    timestamp: timestamp,
                })
                &&& final(self).spec_poll(poll_id@).total_votes == old(self).spec_poll(
                    poll_id@,
                ).total_votes + 1
                &&& final(self).spec_poll(poll_id@).is_active
                &&& final(self).spec_poll(poll_id@).options@ == old(self).spec_poll(
                    poll_id@,
                ).options@
                &&& vote_count(final(self).votes@, poll_id@) == vote_count(
                    old(self).votes@,
                    poll_id@,
                ) + 1
            }),
    {
        let idx = match self.find_poll_index(&poll_id) {
            None => {
                return Err(ErrorCode::PollNotFound);
            },
            Some(i) => i,
        };
        proof {
            lemma_poll_index_of(*self, poll_id@);
            assert(self.poll_index(poll_id@) == idx as int);
        }
        match check_vote(&self.polls[idx], &vote_option) {
            Err(e) => {
                return Err(e);
            },
            Ok(_) => {},
        }
        if self.find_vote(&poll_id, &voter) {
            return Err(ErrorCode::DuplicateVote);
        }
        let ghost pre = *self;
        let ghost pid = poll_id@;
        let record = VoteRecord {
            poll_id: poll_id.clone(),
            voter: voter,
            vote_option: vote_option,
            hlf_vote_id: hlf_vote_id,
            timestamp: timestamp,
        };
        let ghost new_vote = record;
        self.votes.push(record);
        let total_len = self.votes.len();
        let t = self.polls[idx].total_votes;
        proof {
            assert(self.votes@.len() == total_len);
            lemma_vote_count_bound(pre.votes@, pid);
            assert(t == vote_count(pre.votes@, pid));
            assert(t + 1 <= total_len);
            assert(t < u64::MAX);
        }
        self.polls[idx].total_votes = t + 1;
        proof {
            let post = *self;
            assert(post.votes@ == pre.votes@.push(new_vote));
            let n = pre.polls@.len() as int;
            let changed = post.polls@[idx as int];
            assert(post.polls@ == pre.polls@.update(idx as int, changed));
            assert(changed.id == pre.polls@[idx as int].id);
            lemma_votes_for_push(pre.votes@, pid, new_vote);
            // Poll ids are untouched, so they stay pairwise distinct and
            // every vote record still resolves to its poll.
            assert forall|i: int| 0 <= i < n implies (#[trigger] post.polls@[i].id@)
                == pre.polls@[i].id@ by {}
            assert forall|i: int, j: int|
                0 <= i < j < post.polls@.len() implies (#[trigger] post.polls@[i].id@) != (
            #[trigger] post.polls@[j].id@) by {
                assert(pre.polls@[i].id@ != pre.polls@[j].id@);
            }
            assert forall|i: int| 0 <= i < post.votes@.len() implies post.has_poll(
                #[trigger] post.votes@[i].poll_id@,
            ) by {
                if i < pre.votes@.len() {
                    assert(pre.has_poll(pre.votes@[i].poll_id@));
                    let k = choose|k: int|
                        0 <= k < pre.polls@.len() && #[trigger] pre.polls@[k].id@
                            == pre.votes@[i].poll_id@;
                    assert(post.polls@[k].id@ == post.votes@[i].poll_id@);
                } else {
                    assert(post.votes@[i].poll_id@ == pid);
                    assert(post.polls@[idx as int].id@ == pid);
                }
            }
            // The new pair was absent, so pairs stay pairwise distinct.
            assert forall|i: int, j: int|
                0 <= i < j < post.votes@.len() implies !((#[trigger] post.votes@[i].poll_id@) == (
            #[trigger] post.votes@[j].poll_id@) && post.votes@[i].voter
                == post.votes@[j].voter) by {
                if j < pre.votes@.len() {
                    assert(!(pre.votes@[i].poll_id@ == pre.votes@[j].poll_id@
                        && pre.votes@[i].voter == pre.votes@[j].voter));
                } else {
                    if post.votes@[i].poll_id@ == pid && post.votes@[i].voter == voter {
                        assert(pre.has_vote(pid, voter));
                    }
                }
            }
            // Exactly the voted poll's counter grew, in step with its
            // records.
            assert forall|i: int| 0 <= i < post.polls@.len() implies (
            #[trigger] post.polls@[i]).total_votes == vote_count(
                post.votes@,
                post.polls@[i].id@,
            ) by {
                if i == idx as int {
                    assert(vote_count(post.votes@, pid) == vote_count(pre.votes@, pid) + 1);
                } else {
                    assert(post.polls@[i] == pre.polls@[i]);
                    assert(pre.polls@[i].id@ != pid);
                    lemma_votes_for_push(pre.votes@, pre.polls@[i].id@, new_vote);
                }
            }
            assert(post.polls@[idx as int].wf()) by {
                assert(pre.polls@[idx as int].wf());
            }
            assert(post.has_poll(pid)) by {
                assert(post.polls@[idx as int].id@ == pid);
            }
            lemma_poll_index_of(post, pid);
            assert(post.spec_poll(pid) == changed);
            assert(post.has_vote(pid, voter)) by {
                assert(post.votes@[pre.votes@.len() as int].poll_id@ == pid);
                assert(post.votes@[pre.votes@.len() as int].voter == voter);
            }
            lemma_vote_index_of(post, pid, voter);
            assert(post.spec_vote(pid, voter) == new_vote) by {
                let last = pre.votes@.len() as int;
                assert(post.votes@[last].poll_id@ == pid && post.votes@[last].voter == voter);
                assert(post.vote_index(pid, voter) == last);
            }
        }
        Ok(())
    }

    /// Close the poll `poll_id`. Only the recorded creator may close it
    /// (`Unauthorized` otherwise; `PollNotFound` when no such poll exists);
    /// every failure leaves the store unchanged. On success `is_active`
    /// becomes `false` and nothing else changes; closing an already closed
    /// poll succeeds and changes nothing.
    pub fn close_poll(&mut self, poll_id: String, caller: Identity) -> (r: Result<(), ErrorCode>)
        requires
            old(self).wf(),
        ensures
            final(self).wf(),
            !old(self).has_poll(poll_id@) ==> r == Err::<(), ErrorCode>(ErrorCode::PollNotFound)
                && *final(self) == *old(self),
            old(self).has_poll(poll_id@) && old(self).spec_poll(poll_id@).creator != caller ==> r
                == Err::<(), ErrorCode>(ErrorCode::Unauthorized) && *final(self) == *old(self),
            old(self).has_poll(poll_id@) && old(self).spec_poll(poll_id@).creator == caller ==> ({
                &&& r == Ok::<(), ErrorCode>(())
                &&& final(self).polls@ == old(self).polls@.update(
                    old(self).poll_index(poll_id@),
                    (Poll { is_active: false, ..old(self).spec_poll(poll_id@) }),
                )
                &&& final(self).votes@ == old(self).votes@
                &&& final(self).has_poll(poll_id@)
                &&& final(self).spec_poll(poll_id@) == (Poll {
                    is_active: false,
                    ..old(self).spec_poll(poll_id@)
                })
                &&& (!old(self).spec_poll(poll_id@).is_active ==> final(self).polls@ == old(
                    self,
                ).polls@)
            }),
    {
        let idx = match self.find_poll_index(&poll_id) {
            None => {
                return Err(ErrorCode::PollNotFound);
            },
            Some(i) => i,
        };
        proof {
            lemma_poll_index_of(*self, poll_id@);
            assert(self.poll_index(poll_id@) == idx as int);
        }
        match check_close(&self.polls[idx], &caller) {
            Err(e) => {
                return Err(e);
            },
            Ok(_) => {},
        }
        let ghost pre = *self;
        let ghost pid = poll_id@;
        self.polls[idx].is_active = false;
        proof {
            let post = *self;
            let changed = post.polls@[idx as int];
            assert(post.polls@ == pre.polls@.update(idx as int, changed));
            assert(changed.id == pre.polls@[idx as int].id);
            assert forall|i: int, j: int|
                0 <= i < j < post.polls@.len() implies (#[trigger] post.polls@[i].id@) != (
            #[trigger] post.polls@[j].id@) by {
                assert(pre.polls@[i].id@ != pre.polls@[j].id@);
            }
            assert forall|i: int| 0 <= i < post.votes@.len() implies post.has_poll(
                #[trigger] post.votes@[i].poll_id@,
            ) by {
                assert(pre.has_poll(pre.votes@[i].poll_id@));
                let k = choose|k: int|
                    0 <= k < pre.polls@.len() && #[trigger] pre.polls@[k].id@
                        == pre.votes@[i].poll_id@;
                assert(post.polls@[k].id@ == post.votes@[i].poll_id@);
            }
            assert forall|i: int| 0 <= i < post.polls@.len() implies (
            #[trigger] post.polls@[i]).total_votes == vote_count(
                post.votes@,
                post.polls@[i].id@,
            ) by {
                if i != idx as int {
                    assert(post.polls@[i] == pre.polls@[i]);
                }
            }
            assert(post.polls@[idx as int].wf()) by {
                assert(pre.polls@[idx as int].wf());
            }
            assert(post.has_poll(pid)) by {
                assert(post.polls@[idx as int].id@ == pid);
            }
            lemma_poll_index_of(post, pid);
            assert(post.spec_poll(pid) == changed);
            if !pre.spec_poll(pid).is_active {
                assert(changed == pre.polls@[idx as int]);
                assert(post.polls@ =~= pre.polls@);
            }
        }
        Ok(())
    }

    /// Read the poll `poll_id`, if one exists.
    pub fn get_poll(&self, poll_id: &String) -> (r: Option<&Poll>)
        requires
            self.wf(),
        ensures
            match r {
                Some(p) => self.has_poll(poll_id@) && *p == self.spec_poll(poll_id@),
                None => !self.has_poll(poll_id@),
            },
    {
        match self.find_poll_index(poll_id) {
            Some(i) => {
                proof {
                    lemma_poll_index_of(*self, poll_id@);
                }
                Some(&self.polls[i])
            },
            None => None,
        }
    }

    /// Read the vote record for (`poll_id`, `voter`), if one exists.
    pub fn get_vote(&self, poll_id: &String, voter: &Identity) -> (r: Option<&VoteRecord>)
        requires
            self.wf(),
        ensures
            match r {
                Some(v) => self.has_vote(poll_id@, *voter) && *v == self.spec_vote(
                    poll_id@,
                    *voter,
                ),
                None => !self.has_vote(poll_id@, *voter),
            },
    {
        let mut i: usize = 0;
        while i < self.votes.len()
            invariant
                self.wf(),
                i <= self.votes@.len(),
                forall|j: int|
                    0 <= j < i ==> !((#[trigger] self.votes@[j].poll_id@) == poll_id@
                        && self.votes@[j].voter == *voter),
            decreases self.votes@.len() - i,
        {
            if self.votes[i].poll_id == *poll_id && self.votes[i].voter == *voter {
                proof {
                    lemma_vote_index_of(*self, poll_id@, *voter);
                }
                return Some(&self.votes[i]);
            }
            i += 1;
        }
        None
    }
}

/// When poll ids are pairwise distinct, a poll id resolves to exactly one
/// index of the registry.
pub proof fn lemma_poll_index_of(l: Ledger, pid: Seq<char>)
    requires
        forall|i: int, j: int|
            0 <= i < j < l.polls@.len() ==> (#[trigger] l.polls@[i].id@) != (
            #[trigger] l.polls@[j].id@),
        l.has_poll(pid),
    ensures
        0 <= l.poll_index(pid) < l.polls@.len(),
        l.polls@[l.poll_index(pid)].id@ == pid,
        l.spec_poll(pid).id@ == pid,
        forall|j: int|
            0 <= j < l.polls@.len() && (#[trigger] l.polls@[j].id@) == pid ==> j == l.poll_index(
                pid,
            ),
{
    let k = l.poll_index(pid);
    assert(0 <= k < l.polls@.len() && l.polls@[k].id@ == pid);
    assert forall|j: int|
        0 <= j < l.polls@.len() && (#[trigger] l.polls@[j].id@) == pid implies j == k by {
        if j < k {
            assert(l.polls@[j].id@ != l.polls@[k].id@);
        } else if k < j {
            assert(l.polls@[k].id@ != l.polls@[j].id@);
        }
    }
}

/// When (poll id, voter) pairs are pairwise distinct, a pair resolves to
/// exactly one index of the vote ledger.
pub proof fn lemma_vote_index_of(l: Ledger, pid: Seq<char>, voter: Identity)
    requires
        forall|i: int, j: int|
            0 <= i < j < l.votes@.len() ==> !((#[trigger] l.votes@[i].poll_id@) == (
            #[trigger] l.votes@[j].poll_id@) && l.votes@[i].voter == l.votes@[j].voter),
        l.has_vote(pid, voter),
    ensures
        0 <= l.vote_index(pid, voter) < l.votes@.len(),
        l.spec_vote(pid, voter).poll_id@ == pid,
        l.spec_vote(pid, voter).voter == voter,
        forall|j: int|
            0 <= j < l.votes@.len() && (#[trigger] l.votes@[j].poll_id@) == pid
                && l.votes@[j].voter == voter ==> j == l.vote_index(pid, voter),
{
    let k = l.vote_index(pid, voter);
    assert(0 <= k < l.votes@.len() && l.votes@[k].poll_id@ == pid && l.votes@[k].voter == voter);
    assert forall|j: int|
        0 <= j < l.votes@.len() && (#[trigger] l.votes@[j].poll_id@) == pid && l.votes@[j].voter
            == voter implies j == k by {
        if j < k {
            assert(!(l.votes@[j].poll_id@ == l.votes@[k].poll_id@ && l.votes@[j].voter
                == l.votes@[k].voter));
        } else if k < j {
            assert(!(l.votes@[k].poll_id@ == l.votes@[j].poll_id@ && l.votes@[k].voter
                == l.votes@[j].voter));
        }
    }
}

/// Host-runtime bootstrap handshake. Establishes no state and always
/// succeeds.
pub fn initialize() -> (r: Result<(), ErrorCode>)
    ensures
        r == Ok::<(), ErrorCode>(()),
{
    Ok(())
}

} // verus!
