//! The order in which the chunks of a job are encoded: longest first,
//! shortest first, in the order of the video, or at random. An order is a
//! list of chunk positions that names each chunk exactly once.

use vstd::prelude::*;
use crate::settings::ChunkOrdering;
use rand::seq::SliceRandom;

verus! {

broadcast use vstd::seq_lib::group_to_multiset_ensures;

/// The positions `0, 1, ..., count - 1`, in order.
pub open spec fn positions(count: nat) -> Seq<usize> {
    Seq::new(count, |i: int| i as usize)
}

/// Whether `order` names each of the positions `0..count` exactly once.
pub open spec fn is_order_of(order: Seq<usize>, count: nat) -> bool {
    order.to_multiset() == positions(count).to_multiset()
}

/// Whether, along `order`, the frame counts never grow (`descending`) or
/// never shrink (otherwise).
pub open spec fn sorted_by_frames(order: Seq<usize>, frames: Seq<usize>, descending: bool) -> bool {
    forall|a: int, b: int|
        #![trigger order[a], order[b]]
        0 <= a < b < order.len() ==> if descending {
            frames[order[a] as int] >= frames[order[b] as int]
        } else {
            frames[order[a] as int] <= frames[order[b] as int]
        }
}

/// Whether frame count `x` may stand before frame count `y`.
pub open spec fn may_precede(x: usize, y: usize, descending: bool) -> bool {
    if descending {
        x >= y
    } else {
        x <= y
    }
}

/// Exchanging two entries of a list keeps what it holds.
proof fn lemma_swap_keeps_entries(s: Seq<usize>, i: int, j: int)
    requires
        0 <= i < s.len(),
        0 <= j < s.len(),
    ensures
        s.update(i, s[j]).update(j, s[i]).to_multiset() == s.to_multiset(),
{
    broadcast use vstd::seq_lib::to_multiset_update;

    let t = s.update(i, s[j]);
    assert(t[j] == s[j]);
    assert(t.to_multiset() == s.to_multiset().insert(s[j]).remove(s[i]));
    assert(t.update(j, s[i]).to_multiset() == t.to_multiset().insert(s[i]).remove(s[j]));
    assert(s.to_multiset().count(s[i]) > 0);
    assert(s.to_multiset().count(s[j]) > 0);
    assert(t.update(j, s[i]).to_multiset() =~= s.to_multiset());
}

/// The positions `0..count` as a list.
fn all_positions(count: usize) -> (r: Vec<usize>)
    ensures
        r@ == positions(count as nat),
{
    let mut r: Vec<usize> = Vec::new();
    let mut i: usize = 0;
    while i < count
        invariant
            i <= count,
            r@ == positions(i as nat),
        decreases count - i,
    {
        r.push(i);
        assert(r@ =~= positions((i + 1) as nat));
        i = i + 1;
    }
    r
}

/// The chunk positions ordered by frame count, largest first when
/// `descending`, smallest first otherwise (selection sort; chunks of equal
/// length may come in any order).
fn sort_by_frames(frames: &Vec<usize>, descending: bool) -> (r: Vec<usize>)
    ensures
        is_order_of(r@, frames@.len()),
        sorted_by_frames(r@, frames@, descending),
{
    let n = frames.len();
    let mut r = all_positions(n);
    let mut i: usize = 0;
    while i < n
        invariant
            n == frames@.len(),
            i <= n,
            r@.len() == n,
            is_order_of(r@, n as nat),
            forall|k: int| 0 <= k < n ==> #[trigger] r@[k] < n,
            forall|a: int, b: int|
                #![trigger r@[a], r@[b]]
                0 <= a < b < i ==> may_precede(frames@[r@[a] as int], frames@[r@[b] as int], descending),
            forall|a: int, b: int|
                #![trigger r@[a], r@[b]]
                0 <= a < i <= b < n ==> may_precede(frames@[r@[a] as int], frames@[r@[b] as int], descending),
        decreases n - i,
    {
        let mut best: usize = i;
        let mut j: usize = i + 1;
        while j < n
            invariant
                n == frames@.len(),
                i < n,
                i <= best < n,
                i < j <= n,
                r@.len() == n,
                forall|k: int| 0 <= k < n ==> #[trigger] r@[k] < n,
                forall|k: int|
                    #![trigger r@[k]]
                    i <= k < j ==> may_precede(frames@[r@[best as int] as int], frames@[r@[k] as int], descending),
            decreases n - j,
        {
            let candidate = frames[r[j]];
            let current = frames[r[best]];
            if (descending && candidate > current) || (!descending && candidate < current) {
                best = j;
            }
            j = j + 1;
        }
        let ghost before = r@;
        let first = r[i];
        let chosen = r[best];
        r.set(i, chosen);
        r.set(best, first);
        proof {
            lemma_swap_keeps_entries(before, i as int, best as int);
            assert(r@ == before.update(i as int, before[best as int]).update(best as int, before[i as int]));
            assert forall|a: int, b: int|
                #![trigger r@[a], r@[b]]
                0 <= a < b < i + 1 implies may_precede(frames@[r@[a] as int], frames@[r@[b] as int], descending) by {
                if b == i {
                    assert(r@[b] == before[best as int]);
                    assert(r@[a] == before[a]);
                    assert(before[a] == before[a] && before[best as int] == before[best as int]);
                }
            }
            assert forall|a: int, b: int|
                #![trigger r@[a], r@[b]]
                0 <= a < i + 1 <= b < n implies may_precede(frames@[r@[a] as int], frames@[r@[b] as int], descending) by {
                let ob = if b == best { i as int } else { b };
                assert(r@[b] == before[ob]);
                if a < i {
                    assert(r@[a] == before[a]);
                    assert(before[a] == before[a] && before[ob] == before[ob]);
                } else {
                    assert(r@[a] == before[best as int]);
                    assert(before[ob] == before[ob]);
                }
            }
        }
        i = i + 1;
    }
    r
}

/// The encoding order of chunks with the given frame counts under
/// `ordering`, where `shuffled` is the order drawn at random for
/// [`ChunkOrdering::Random`] (and is not read otherwise): longest first or
/// shortest first (chunks of equal length in any order), the order of the
/// video, or `shuffled` itself.
pub fn order_chunks(frames: &Vec<usize>, ordering: ChunkOrdering, shuffled: &Vec<usize>) -> (r: Vec<usize>)
    requires
        ordering == ChunkOrdering::Random ==> is_order_of(shuffled@, frames@.len()),
    ensures
        is_order_of(r@, frames@.len()),
        ordering == ChunkOrdering::LongestFirst ==> sorted_by_frames(r@, frames@, true),
        ordering == ChunkOrdering::ShortestFirst ==> sorted_by_frames(r@, frames@, false),
        ordering == ChunkOrdering::Sequential ==> r@ == positions(frames@.len()),
        ordering == ChunkOrdering::Random ==> r@ == shuffled@,
{
    match ordering {
        ChunkOrdering::LongestFirst => sort_by_frames(frames, true),
        ChunkOrdering::ShortestFirst => sort_by_frames(frames, false),
        ChunkOrdering::Sequential => all_positions(frames.len()),
        ChunkOrdering::Random => {
            let mut r: Vec<usize> = Vec::new();
            let mut i: usize = 0;
            while i < shuffled.len()
                invariant
                    i <= shuffled@.len(),
                    r@ == shuffled@.take(i as int),
                decreases shuffled.len() - i,
            {
                r.push(shuffled[i]);
                assert(shuffled@.take(i + 1) =~= shuffled@.take(i as int).push(shuffled@[i as int]));
                i = i + 1;
            }
            assert(shuffled@.take(shuffled@.len() as int) =~= shuffled@);
            r
        },
    }
}

/// `rand`'s `SliceRandom::shuffle` with the thread's generator
/// `rand::rng()`: puts the entries of `order` in a random order by
/// exchanging entries. The entries stay the same; which order comes out is
/// chance. It panics only where the system's random source cannot be read
/// when the thread's generator is first made, which no argument decides.
#[verifier::external_body]
fn shuffle(order: &mut Vec<usize>)
    ensures
        final(order)@.to_multiset() == old(order)@.to_multiset(),
{
    order.shuffle(&mut rand::rng());
}

/// The chunk positions `0..count` in an order drawn at random.
pub fn random_order(count: usize) -> (r: Vec<usize>)
    ensures
        is_order_of(r@, count as nat),
{
    let mut r = all_positions(count);
    shuffle(&mut r);
    r
}

/// The encoding order of chunks with the given frame counts under
/// `ordering`, drawing the order at random for [`ChunkOrdering::Random`]:
/// as [`order_chunks`] gives it, where a random order is some order of all
/// the chunks.
pub fn encoding_order(frames: &Vec<usize>, ordering: ChunkOrdering) -> (r: Vec<usize>)
    ensures
        is_order_of(r@, frames@.len()),
        ordering == ChunkOrdering::LongestFirst ==> sorted_by_frames(r@, frames@, true),
        ordering == ChunkOrdering::ShortestFirst ==> sorted_by_frames(r@, frames@, false),
        ordering == ChunkOrdering::Sequential ==> r@ == positions(frames@.len()),
{
    let shuffled = if ordering == ChunkOrdering::Random {
        random_order(frames.len())
    } else {
        Vec::new()
    };
    order_chunks(frames, ordering, &shuffled)
}

} // verus!
