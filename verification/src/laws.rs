use vstd::prelude::*;
use crate::ledger::{belongs_to, vote_count, votes_for, Ledger};
use crate::records::{Poll, VoteRecord};

verus! {

/// In a well-formed store, two distinct vote records never share the same
/// (poll id, voter) pair: for a fixed pair, at most one vote ever succeeds.
pub proof fn lemma_at_most_one_vote_per_pair(l: Ledger, i: int, j: int)
    requires
        l.wf(),
        0 <= i < l.votes@.len(),
        0 <= j < l.votes@.len(),
        i != j,
    ensures
        !(l.votes@[i].poll_id@ == l.votes@[j].poll_id@ && l.votes@[i].voter
            == l.votes@[j].voter),
{
}

/// In a well-formed store, every poll's `total_votes` equals the number of
/// vote records held for it — the number of voters whose vote succeeded.
pub proof fn lemma_total_votes_counts_voters(l: Ledger, pid: Seq<char>)
    requires
        l.wf(),
        l.has_poll(pid),
    ensures
        l.spec_poll(pid).total_votes == vote_count(l.votes@, pid),
{
    crate::ledger::lemma_poll_index_of(l, pid);
}

/// A store that just recorded a new poll answers a lookup of that poll's id
/// with exactly the recorded contents: active, zero votes, options as
/// given. Nothing else is touched by the recording.
pub proof fn lemma_created_poll_read_back(pre: Ledger, post: Ledger, p: Poll)
    requires
        pre.wf(),
        !pre.has_poll(p.id@),
        post.polls@ == pre.polls@.push(p),
        post.votes@ == pre.votes@,
    ensures
        post.has_poll(p.id@),
        post.spec_poll(p.id@) == p,
        forall|q: Seq<char>| q != p.id@ ==> (post.has_poll(q) <==> pre.has_poll(q)),
{
    let n = pre.polls@.len() as int;
    assert(post.polls@[n] == p);
    assert(post.has_poll(p.id@));
    assert forall|i: int| 0 <= i < n implies (#[trigger] pre.polls@[i].id@) != p.id@ by {
        if pre.polls@[i].id@ == p.id@ {
            assert(pre.has_poll(p.id@));
        }
    }
    assert forall|i: int, j: int|
        0 <= i < j < post.polls@.len() implies (#[trigger] post.polls@[i].id@) != (
    #[trigger] post.polls@[j].id@) by {
        if j < n {
            assert(pre.polls@[i].id@ != pre.polls@[j].id@);
        }
    }
    crate::ledger::lemma_poll_index_of(post, p.id@);
    assert forall|q: Seq<char>| q != p.id@ implies (post.has_poll(q) <==> pre.has_poll(q)) by {
        if post.has_poll(q) {
            let k = choose|k: int|
                0 <= k < post.polls@.len() && #[trigger] post.polls@[k].id@ == q;
            assert(k < n);
            assert(pre.polls@[k].id@ == q);
        }
        if pre.has_poll(q) {
            let k = choose|k: int| 0 <= k < pre.polls@.len() && #[trigger] pre.polls@[k].id@ == q;
            assert(post.polls@[k].id@ == q);
        }
    }
}

/// Among the vote records of one poll, voters are pairwise distinct: a
/// poll's count counts distinct voters.
pub proof fn lemma_votes_for_distinct_voters(votes: Seq<VoteRecord>, pid: Seq<char>)
    requires
        forall|i: int, j: int|
            0 <= i < j < votes.len() ==> !((#[trigger] votes[i].poll_id@) == (
            #[trigger] votes[j].poll_id@) && votes[i].voter == votes[j].voter),
    ensures
        forall|i: int, j: int|
            0 <= i < j < votes_for(votes, pid).len() ==> (#[trigger] votes_for(
                votes,
                pid,
            )[i]).voter != (#[trigger] votes_for(votes, pid)[j]).voter,
    decreases votes.len(),
{
    reveal(Seq::filter);
    let picked = votes_for(votes, pid);
    if votes.len() == 0 {
    } else {
        let rest = votes.drop_last();
        let last = votes.last();
        lemma_votes_for_distinct_voters(rest, pid);
        let sub = votes_for(rest, pid);
        assert(picked == if belongs_to(pid)(last) {
            sub.push(last)
        } else {
            sub
        });
        if belongs_to(pid)(last) {
            assert forall|i: int, j: int|
                0 <= i < j < picked.len() implies (#[trigger] picked[i]).voter != (
            #[trigger] picked[j]).voter by {
                if j < sub.len() {
                    assert(sub[i].voter != sub[j].voter);
                } else {
                    // `picked[j]` is the last record; `picked[i]` sits in the
                    // prefix, belongs to the same poll, and its pair differs.
                    let e = sub[i];
                    assert(sub.contains(e));
                    rest.lemma_filter_contains_rev(belongs_to(pid), e);
                    let k = choose|k: int| 0 <= k < rest.len() && rest[k] == e;
                    rest.lemma_filter_pred(belongs_to(pid), i);
                    assert(e.poll_id@ == pid);
                    assert(votes[k] == e);
                    assert(!(votes[k].poll_id@ == votes[votes.len() - 1].poll_id@
                        && votes[k].voter == votes[votes.len() - 1].voter));
                }
            }
        }
    }
}

} // verus!
