use vstd::prelude::*;

verus! {

/// The reserved order tag that marks the end of an epoch's ticket queue. It
/// is never paired with a real sample index; real order tags are `0..length`
/// and `length` fits in `isize`, so no legitimate tag collides with it.
pub const SENTINEL_TAG: isize = -1;

#[verifier::external_type_specification]
#[verifier::external_body]
pub struct ExStdRng(rand::rngs::StdRng);

/// Relies on rand's `SeedableRng::seed_from_u64`: builds a generator from a
/// 64-bit seed. Nothing is assumed of the stream it produces.
#[verifier::external_body]
fn seeded_rng(seed: u64) -> (r: rand::rngs::StdRng) {
    <rand::rngs::StdRng as rand::SeedableRng>::seed_from_u64(seed)
}

/// Relies on rand's `SliceRandom::shuffle`: a Fisher-Yates pass of swaps that
/// permutes the slice in place, so the multiset of elements is unchanged.
#[verifier::external_body]
fn shuffle_in_place(v: &mut Vec<usize>, rng: &mut rand::rngs::StdRng)
    ensures
        final(v)@.to_multiset() == old(v)@.to_multiset(),
        final(v)@.len() == old(v)@.len(),
{
    rand::seq::SliceRandom::shuffle(v.as_mut_slice(), rng);
}

/// The sample indices `0..n` in their natural order, as a sequence.
pub open spec fn identity_indices(n: nat) -> Seq<usize> {
    Seq::new(n, |i: int| i as usize)
}

/// The sample indices of a ticket sequence, in order.
pub open spec fn ticket_indices(s: Seq<(usize, isize)>) -> Seq<usize> {
    s.map_values(|t: (usize, isize)| t.0)
}

/// Builds one epoch's ticket sequence: a permutation of the sample indices
/// `0..n`, each paired with its order tag, which is its position in the
/// sequence. In overfit mode the caller's seed is ignored and the identity
/// order is used, so every epoch replays the same data in the same order;
/// otherwise the order is a shuffle driven by a generator seeded from
/// `epoch_seed` alone.
pub fn build_index_sequence(n: usize, epoch_seed: u64, overfit: bool) -> (r: Vec<(usize, isize)>)
    requires
        n <= isize::MAX as usize,
    ensures
        r@.len() == n,
        forall|i: int| 0 <= i < n ==> (#[trigger] r@[i]).1 == i,
        ticket_indices(r@).to_multiset() == identity_indices(n as nat).to_multiset(),
        overfit ==> forall|i: int| 0 <= i < n ==> (#[trigger] r@[i]).0 == i,
{
    let mut idcs: Vec<usize> = Vec::new();
    let mut i: usize = 0;
    while i < n
        invariant
            i <= n,
            idcs@.len() == i,
            forall|j: int| 0 <= j < i ==> idcs@[j] == j,
        decreases n - i,
    {
        idcs.push(i);
        i += 1;
    }
    assert(idcs@ =~= identity_indices(n as nat));
    if !overfit {
        let mut rng = seeded_rng(epoch_seed);
        shuffle_in_place(&mut idcs, &mut rng);
    }
    let mut r: Vec<(usize, isize)> = Vec::new();
    let mut k: usize = 0;
    while k < n
        invariant
            k <= n,
            n <= isize::MAX as usize,
            idcs@.len() == n,
            idcs@.to_multiset() == identity_indices(n as nat).to_multiset(),
            overfit ==> forall|j: int| 0 <= j < n ==> idcs@[j] == j,
            r@.len() == k,
            forall|j: int| 0 <= j < k ==> (#[trigger] r@[j]).0 == idcs@[j],
            forall|j: int| 0 <= j < k ==> (#[trigger] r@[j]).1 == j,
        decreases n - k,
    {
        r.push((idcs[k], k as isize));
        k += 1;
    }
    assert(ticket_indices(r@) =~= idcs@);
    r
}

/// What a worker is to do with one ticket it pulled from the queue.
#[derive(Clone, Copy, PartialEq, Eq, Structural, Debug)]
pub enum TicketKind {
    /// The epoch's queue is exhausted: emit the drained signal once and stop.
    Sentinel,
    /// Generate the sample at `sample_idx` and deliver it under `order_tag`.
    Work { sample_idx: usize, order_tag: usize },
}

/// Decides a worker's next step from the ticket it received: the reserved
/// sentinel ends the epoch, every other ticket names a sample to generate.
pub fn classify_ticket(t: (usize, isize)) -> (r: TicketKind)
    requires
        t.1 >= SENTINEL_TAG,
    ensures
        t.1 == SENTINEL_TAG ==> r == TicketKind::Sentinel,
        t.1 >= 0 ==> r == (TicketKind::Work { sample_idx: t.0, order_tag: t.1 as usize }),
{
    if t.1 == SENTINEL_TAG {
        TicketKind::Sentinel
    } else {
        TicketKind::Work { sample_idx: t.0, order_tag: t.1 as usize }
    }
}

} // verus!
