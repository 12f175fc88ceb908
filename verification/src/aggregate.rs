//! Fan-in of the per-source pipelines: partitioning the collected
//! outcomes into feeds and errors (one outcome per source, no
//! short-circuit), and the consumer-side merge of posts across feeds with
//! its sort by publication time, newest first.

use crate::error::Error;
use crate::feed::{Feed, Post};
use vstd::multiset::Multiset;
use vstd::prelude::*;

verus! {

/// The successful outcomes, in collection order.
pub open spec fn oks_of(rs: Seq<Result<Feed, Error>>) -> Seq<Feed>
    decreases rs.len(),
{
    if rs.len() == 0 {
        Seq::empty()
    } else {
        oks_of(rs.drop_last()) + match rs.last() {
            Result::Ok(f) => seq![f],
            Result::Err(e) => Seq::empty(),
        }
    }
}

/// The failed outcomes, in collection order.
pub open spec fn errs_of(rs: Seq<Result<Feed, Error>>) -> Seq<Error>
    decreases rs.len(),
{
    if rs.len() == 0 {
        Seq::empty()
    } else {
        errs_of(rs.drop_last()) + match rs.last() {
            Result::Ok(f) => Seq::empty(),
            Result::Err(e) => seq![e],
        }
    }
}

/// Splits the collected per-source outcomes into the successful feeds and
/// the errors, each keeping collection order. Nothing is dropped and
/// nothing invented: every outcome lands in exactly one of the two.
pub fn partition_outcomes(results: Vec<Result<Feed, Error>>) -> (r: (Vec<Feed>, Vec<Error>))
    ensures
        r.0@ == oks_of(results@),
        r.1@ == errs_of(results@),
{
    let ghost all = results@;
    let mut rest = results;
    let mut feeds: Vec<Feed> = Vec::new();
    let mut errs: Vec<Error> = Vec::new();
    proof {
        assert(all.subrange(0, 0) =~= Seq::<Result<Feed, Error>>::empty());
    }
    while rest.len() > 0
        invariant
            rest.len() <= all.len(),
            rest@ == all.subrange(all.len() - rest.len(), all.len() as int),
            feeds@ == oks_of(all.subrange(0, all.len() - rest.len())),
            errs@ == errs_of(all.subrange(0, all.len() - rest.len())),
        decreases rest.len(),
    {
        let ghost j = all.len() - rest.len();
        let x = rest.remove(0);
        proof {
            assert(x == all[j]);
            assert(rest@ =~= all.subrange(j + 1, all.len() as int));
            let pre = all.subrange(0, j + 1);
            assert(pre.drop_last() =~= all.subrange(0, j));
            assert(pre.last() == all[j]);
        }
        match x {
            Ok(f) => {
                feeds.push(f);
                proof {
                    assert(feeds@ =~= oks_of(all.subrange(0, j + 1)));
                    assert(errs@ =~= errs_of(all.subrange(0, j + 1)));
                }
            },
            Err(e) => {
                errs.push(e);
                proof {
                    assert(feeds@ =~= oks_of(all.subrange(0, j + 1)));
                    assert(errs@ =~= errs_of(all.subrange(0, j + 1)));
                }
            },
        }
    }
    proof {
        assert(all.subrange(0, all.len() as int) =~= all);
    }
    (feeds, errs)
}

/// One outcome per source: however the outcomes fall, the partition's two
/// sides together are exactly as many as there were outcomes.
pub proof fn lemma_one_outcome_per_source(rs: Seq<Result<Feed, Error>>)
    ensures
        oks_of(rs).len() + errs_of(rs).len() == rs.len(),
    decreases rs.len(),
{
    if rs.len() > 0 {
        lemma_one_outcome_per_source(rs.drop_last());
    }
}

/// The posts of a list of feeds, merged in feed order with each feed's
/// own post order kept.
pub open spec fn flat_posts(feeds: Seq<Feed>) -> Seq<Post>
    decreases feeds.len(),
{
    if feeds.len() == 0 {
        Seq::empty()
    } else {
        flat_posts(feeds.drop_last()) + feeds.last().posts@
    }
}

/// Merges the posts of all feeds into one list, feed by feed.
pub fn flatten_posts(feeds: Vec<Feed>) -> (r: Vec<Post>)
    ensures
        r@ == flat_posts(feeds@),
{
    let ghost all = feeds@;
    let mut rest = feeds;
    let mut out: Vec<Post> = Vec::new();
    proof {
        assert(all.subrange(0, 0) =~= Seq::<Feed>::empty());
    }
    while rest.len() > 0
        invariant
            rest.len() <= all.len(),
            rest@ == all.subrange(all.len() - rest.len(), all.len() as int),
            out@ == flat_posts(all.subrange(0, all.len() - rest.len())),
        decreases rest.len(),
    {
        let ghost j = all.len() - rest.len();
        let feed = rest.remove(0);
        proof {
            assert(feed == all[j]);
            assert(rest@ =~= all.subrange(j + 1, all.len() as int));
            let pre = all.subrange(0, j + 1);
            assert(pre.drop_last() =~= all.subrange(0, j));
            assert(pre.last() == all[j]);
        }
        let mut posts = feed.posts;
        out.append(&mut posts);
        proof {
            assert(out@ =~= flat_posts(all.subrange(0, j + 1)));
        }
    }
    proof {
        assert(all.subrange(0, all.len() as int) =~= all);
    }
    out
}

/// Newest first: each post's publication time is at least the next one's.
pub open spec fn sorted_desc(ps: Seq<Post>) -> bool {
    forall|i: int, j: int| 0 <= i <= j < ps.len() ==> ps[i].published >= ps[j].published
}

/// Sorts posts by publication time, newest first: the display order of
/// the merged post list. The result holds exactly the given posts.
pub fn sort_posts(posts: Vec<Post>) -> (r: Vec<Post>)
    ensures
        sorted_desc(r@),
        r@.to_multiset() == posts@.to_multiset(),
{
    broadcast use vstd::seq_lib::group_to_multiset_ensures;
    broadcast use vstd::multiset::group_multiset_axioms;

    let ghost all = posts@;
    let mut rest = posts;
    let mut out: Vec<Post> = Vec::new();
    while rest.len() > 0
        invariant
            sorted_desc(out@),
            out@.to_multiset().add(rest@.to_multiset()) == all.to_multiset(),
            forall|i: int, j: int|
                0 <= i < out@.len() && 0 <= j < rest@.len() ==> out@[i].published
                    >= rest@[j].published,
        decreases rest.len(),
    {
        let mut m: usize = 0;
        let mut idx: usize = 1;
        while idx < rest.len()
            invariant
                m < idx <= rest.len(),
                rest.len() > 0,
                forall|j: int| 0 <= j < idx ==> rest@[j].published <= rest@[m as int].published,
            decreases rest.len() - idx,
        {
            if rest[idx].published > rest[m].published {
                m = idx;
            }
            idx += 1;
        }
        let ghost old_out = out@;
        let ghost old_rest = rest@;
        let p = rest.remove(m);
        out.push(p);
        proof {
            assert(p == old_rest[m as int]);
            assert(out@ == old_out.push(p));
            vstd::seq_lib::to_multiset_build(old_out, p);
            assert(rest@ == old_rest.remove(m as int));
            vstd::seq_lib::to_multiset_remove(old_rest, m as int);
            assert(old_rest.contains(p));
            vstd::seq_lib::to_multiset_contains(old_rest, p);
            assert(old_rest.to_multiset().count(p) > 0);
            assert(out@.to_multiset().add(rest@.to_multiset()) =~= all.to_multiset());
            assert(forall|j: int|
                0 <= j < rest@.len() ==> rest@[j] == old_rest[j] || rest@[j] == old_rest[j + 1]);
        }
    }
    proof {
        assert(rest@.to_multiset() =~= Multiset::<Post>::empty());
        assert(out@.to_multiset() =~= all.to_multiset());
    }
    out
}

} // verus!
