use vstd::prelude::*;
use vstd::arithmetic::div_mod::{
    lemma_basic_div, lemma_div_non_zero, lemma_div_plus_one, lemma_fundamental_div_mod,
    lemma_mod_self_0, lemma_mod_sub_multiples_vanish, lemma_small_mod,
};

verus! {

/// Number of batches one epoch of `len` samples yields with batch size `bs`:
/// the floor of `len / bs` when the final partial batch is dropped, the
/// ceiling otherwise.
pub open spec fn num_batches(len: nat, bs: nat, drop_last: bool) -> int
    recommends
        bs >= 1,
{
    if drop_last {
        len as int / bs as int
    } else {
        (len + bs - 1) / bs as int
    }
}

/// The sizes of the runs of consecutive order tags an epoch of `len` samples
/// is cut into: full batches of `bs` while at least `bs` samples remain, then
/// the remainder, if any, as one final short run.
pub open spec fn batch_sizes(len: nat, bs: nat) -> Seq<nat>
    decreases len,
{
    if bs == 0 || len == 0 {
        Seq::empty()
    } else if len >= bs {
        seq![bs] + batch_sizes((len - bs) as nat, bs)
    } else {
        seq![len]
    }
}

pub open spec fn spec_min(a: int, b: int) -> int {
    if a <= b {
        a
    } else {
        b
    }
}

pub open spec fn seq_sum(s: Seq<nat>) -> nat
    decreases s.len(),
{
    if s.len() == 0 {
        0
    } else {
        s[0] + seq_sum(s.drop_first())
    }
}

/// Law: with `drop_last` disabled, an epoch of `len` samples cut into batches
/// of size `bs` yields `ceil(len / bs)` batches; every batch but the last has
/// size `bs`, the last one has size `len % bs` when that is nonzero and `bs`
/// otherwise, and the sizes sum to `len`, so every sample is delivered.
pub proof fn lemma_epoch_batches(len: nat, bs: nat)
    requires
        bs >= 1,
    ensures
        batch_sizes(len, bs).len() == num_batches(len, bs, false),
        seq_sum(batch_sizes(len, bs)) == len,
        forall|i: int|
            0 <= i < batch_sizes(len, bs).len() - 1 ==> #[trigger] batch_sizes(len, bs)[i] == bs,
        len % bs == 0 ==> forall|i: int|
            0 <= i < batch_sizes(len, bs).len() ==> #[trigger] batch_sizes(len, bs)[i] == bs,
        len % bs != 0 ==> batch_sizes(len, bs).last() == len % bs,
    decreases len,
{
    if len == 0 {
        lemma_basic_div((bs - 1) as int, bs as int);
        lemma_small_mod(0, bs);
    } else if len >= bs {
        lemma_epoch_batches((len - bs) as nat, bs);
        let rest = batch_sizes((len - bs) as nat, bs);
        let whole = batch_sizes(len, bs);
        assert(whole == seq![bs] + rest);
        lemma_div_plus_one((len - 1) as int, bs as int);
        assert((len + bs - 1) as int == bs as int + (len - 1) as int);
        lemma_mod_sub_multiples_vanish(len as int, bs as int);
        assert(len % bs == (len - bs) % bs as int);
        // the sum of the concatenation unfolds once
        assert(whole.drop_first() == rest);
        assert(seq_sum(whole) == bs + seq_sum(rest));
        if len - bs == 0 {
            lemma_mod_self_0(bs as int);
            assert(len % bs == 0);
            assert(whole.len() == 1);
        } else {
            lemma_div_non_zero((len - 1) as int, bs as int);
            assert(((len - bs) + bs - 1) / bs as int >= 1);
            assert(rest.len() >= 1);
            if len % bs != 0 {
                assert(whole.last() == rest.last());
            }
        }
        assert forall|i: int| 0 <= i < whole.len() - 1 implies #[trigger] whole[i] == bs by {
            if i > 0 {
                assert(whole[i] == rest[i - 1]);
            }
        }
        if len % bs == 0 {
            assert forall|i: int| 0 <= i < whole.len() implies #[trigger] whole[i] == bs by {
                if i > 0 {
                    assert(whole[i] == rest[i - 1]);
                }
            }
        }
    } else {
        // one final short run
        lemma_div_plus_one((len - 1) as int, bs as int);
        lemma_basic_div((len - 1) as int, bs as int);
        assert((len + bs - 1) / bs as int == 1);
        lemma_small_mod(len, bs);
        let whole = batch_sizes(len, bs);
        assert(whole == seq![len]);
        assert(seq_sum(whole) == len + seq_sum(whole.drop_first()));
    }
}

/// How the ceiling and the floor of `len / bs` relate, and how much the full
/// batches cover: everything but the `len % bs` samples of the final short run.
pub proof fn lemma_ceil_floor(len: nat, bs: nat)
    requires
        bs >= 1,
    ensures
        num_batches(len, bs, false) == num_batches(len, bs, true) + if len % bs == 0 {
            0int
        } else {
            1int
        },
        bs * num_batches(len, bs, true) == len - len % bs,
    decreases len,
{
    lemma_fundamental_div_mod(len as int, bs as int);
    if len == 0 {
        lemma_basic_div((bs - 1) as int, bs as int);
        lemma_small_mod(0, bs);
        lemma_basic_div(0, bs as int);
    } else if len >= bs {
        lemma_ceil_floor((len - bs) as nat, bs);
        lemma_div_plus_one((len - 1) as int, bs as int);
        lemma_div_plus_one((len - bs) as int, bs as int);
        lemma_mod_sub_multiples_vanish(len as int, bs as int);
        lemma_fundamental_div_mod((len - bs) as int, bs as int);
    } else {
        lemma_div_plus_one((len - 1) as int, bs as int);
        lemma_basic_div((len - 1) as int, bs as int);
        lemma_basic_div(len as int, bs as int);
        lemma_small_mod(len, bs);
    }
}

/// Law: with `drop_last` enabled the loader keeps exactly the full batches:
/// `floor(len / bs)` batches, each of size `bs`, covering `len - len % bs`
/// samples; the `len % bs` samples of the final short run are dropped.
pub proof fn lemma_epoch_batches_drop_last(len: nat, bs: nat)
    requires
        bs >= 1,
    ensures
        num_batches(len, bs, true) == len / bs,
        batch_sizes(len, bs).len() == len / bs + if len % bs == 0 {
            0int
        } else {
            1int
        },
        forall|i: int| 0 <= i < len / bs ==> #[trigger] batch_sizes(len, bs)[i] == bs,
        bs * (len / bs) == len - len % bs,
{
    lemma_epoch_batches(len, bs);
    lemma_ceil_floor(len, bs);
    let whole = batch_sizes(len, bs);
    assert forall|i: int| 0 <= i < len / bs implies #[trigger] whole[i] == bs by {
        if len % bs == 0 {
            assert(whole[i] == bs);
        } else {
            assert(i < whole.len() - 1);
        }
    }
}

/// What the i-th batch of an epoch holds: the full batch size while at least
/// that many samples remain past `i * bs`, the remainder otherwise. This ties
/// the batch sizes to the loader's cursor, which advances by
/// `min(bs, len - cursor)` per completed batch.
pub proof fn lemma_batch_sizes_index(len: nat, bs: nat, i: int)
    requires
        bs >= 1,
        0 <= i < batch_sizes(len, bs).len(),
    ensures
        batch_sizes(len, bs)[i] == spec_min(bs as int, len - i * bs),
    decreases i,
{
    if i == 0 {
        assert(len > 0);
    } else {
        assert(len >= bs) by {
            if len < bs {
                assert(batch_sizes(len, bs).len() == 1);
            }
        }
        lemma_batch_sizes_index((len - bs) as nat, bs, i - 1);
        assert((i - 1) * bs == i * bs - bs) by (nonlinear_arith);
        assert(batch_sizes(len, bs)[i] == batch_sizes((len - bs) as nat, bs)[i - 1]);
    }
}

} // verus!
