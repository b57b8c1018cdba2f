use vstd::prelude::*;
use core::mem;
use std::collections::BTreeMap;
use crate::Split;
use crate::batch::{collate, shape_mismatch, DsBatch, Sample};
use crate::epoch::{num_batches, spec_min};
use crate::error::DfDataloaderError;
use crate::sequence::{build_index_sequence, identity_indices, ticket_indices, SENTINEL_TAG};
use vstd::arithmetic::div_mod::{lemma_basic_div, lemma_div_nonincreasing, lemma_div_plus_one};

verus! {

broadcast use vstd::std_specs::btree::group_btree_axioms, vstd::laws_cmp::group_laws_cmp;

/// How many consecutive bounded waits for worker output `get_batch` tolerates
/// before it gives up with a stall error.
pub const RETRY_BUDGET: usize = 1000;

/// What the loader needs to know of one split's sample source: how many
/// samples it can address and the declared maximum length of a sample's
/// variable axis, the padding target.
#[derive(Clone, Copy, PartialEq, Eq, Structural, Debug)]
pub struct SplitInfo {
    pub len: usize,
    pub max_sample_len: usize,
}

/// The three splits' source descriptions, as handed to the builder.
#[derive(Clone, Copy, PartialEq, Eq, Structural, Debug)]
pub struct Datasets {
    pub train: SplitInfo,
    pub valid: SplitInfo,
    pub test: SplitInfo,
}

/// Relies on rayon's `current_num_threads`: the size of the current (or
/// global) thread pool, which is the host parallelism when no pool was
/// configured; a pool always holds at least one thread.
#[verifier::external_body]
fn default_num_workers() -> (r: usize)
    ensures
        r >= 1,
{
    rayon::current_num_threads()
}

/// The order-preserving batch loader. `T` is the payload a sample carries;
/// the loader never looks inside it. The loader owns the consumer-side state
/// of one epoch: the next expected order tag `cur_out_idx`, the staging map
/// `out_buf` for samples that arrived ahead of it, and the batch being
/// collected. `fill_live` and `channel_open` stand for the running worker
/// pool and the live output-channel receiver that the surrounding process
/// manages; the loader decides every transition, the process performs the
/// blocking work.
pub struct DataLoader<T> {
    pub ds_train: SplitInfo,
    pub ds_valid: SplitInfo,
    pub ds_test: SplitInfo,
    pub batch_size_train: usize,
    pub batch_size_eval: usize,
    pub num_workers: usize,
    pub num_prefech: usize,
    /// The epoch's tickets, staged between sequencing and queue priming.
    pub idcs: Vec<(usize, isize)>,
    pub current_split: Split,
    /// A worker pool for the current epoch is live and must be joined.
    pub fill_live: bool,
    /// The consumer end of the output channel is attached.
    pub channel_open: bool,
    /// Staging map: completed samples that arrived ahead of `cur_out_idx`.
    pub out_buf: BTreeMap<usize, Sample<T>>,
    /// The next order tag the consumer expects; only ever increases.
    pub cur_out_idx: usize,
    /// First order tag past the batch being collected.
    pub batch_target: usize,
    /// A batch collection is in progress (between `begin_batch` and
    /// `finish_batch`).
    pub in_batch: bool,
    pub cur_samples: Vec<Sample<T>>,
    pub cur_ids: Vec<usize>,
    /// Consecutive bounded waits that returned nothing.
    pub tries: usize,
    pub drop_last: bool,
    /// Sticky once the epoch's exhaustion signal was received.
    pub drained: bool,
    pub overfit: bool,
}

impl<T> DataLoader<T> {
    pub open spec fn spec_ds(self, split: Split) -> SplitInfo {
        match split {
            Split::Train => self.ds_train,
            Split::Valid => self.ds_valid,
            Split::Test => self.ds_test,
        }
    }

    pub open spec fn spec_batch_size(self, split: Split) -> usize {
        if split == Split::Train {
            self.batch_size_train
        } else {
            self.batch_size_eval
        }
    }

    /// The effective split length: in overfit mode the evaluation splits are
    /// clamped to one batch, so every epoch reuses the same data.
    pub open spec fn spec_dataset_len(self, split: Split) -> usize {
        let l = self.spec_ds(split).len;
        if self.overfit && split != Split::Train {
            if l <= self.batch_size_eval {
                l
            } else {
                self.batch_size_eval
            }
        } else {
            l
        }
    }

    /// The order tag the batch being collected started at.
    pub open spec fn batch_start(self) -> int {
        self.cur_out_idx - self.cur_ids@.len()
    }

    /// The loader's build-time configuration, unchanged by epoch driving.
    pub open spec fn same_config(a: Self, b: Self) -> bool {
        &&& a.ds_train == b.ds_train
        &&& a.ds_valid == b.ds_valid
        &&& a.ds_test == b.ds_test
        &&& a.batch_size_train == b.batch_size_train
        &&& a.batch_size_eval == b.batch_size_eval
        &&& a.num_workers == b.num_workers
        &&& a.num_prefech == b.num_prefech
        &&& a.drop_last == b.drop_last
        &&& a.overfit == b.overfit
    }

    /// Everything an event may not touch: the configuration and the epoch's
    /// position, leaving only the staging map, `drained` and `tries` free.
    pub open spec fn same_frame(a: Self, b: Self) -> bool {
        &&& Self::same_config(a, b)
        &&& a.idcs@ == b.idcs@
        &&& a.current_split == b.current_split
        &&& a.fill_live == b.fill_live
        &&& a.channel_open == b.channel_open
        &&& a.cur_out_idx == b.cur_out_idx
        &&& a.batch_target == b.batch_target
        &&& a.in_batch == b.in_batch
        &&& a.cur_samples@ == b.cur_samples@
        &&& a.cur_ids@ == b.cur_ids@
    }

    /// The loader's invariant. The collected ids are exactly the consecutive
    /// order tags ending at the cursor; while the channel is attached the
    /// staging map holds only tags between the cursor and the end of the
    /// split; while a batch is being collected the batch target is pinned to
    /// one batch past where the batch started.
    pub open spec fn wf(self) -> bool {
        &&& self.batch_size_train >= 1
        &&& self.batch_size_eval >= 1
        &&& self.cur_ids@.len() == self.cur_samples@.len()
        &&& self.cur_ids@.len() <= self.cur_out_idx
        &&& forall|j: int|
            0 <= j < self.cur_ids@.len() ==> self.cur_ids@[j] == self.batch_start() + j
        &&& self.cur_out_idx <= self.batch_target
        &&& (self.channel_open ==> {
            &&& self.batch_target <= self.spec_dataset_len(self.current_split)
            &&& forall|k: usize| #[trigger]
                self.out_buf@.dom().contains(k) ==> self.cur_out_idx <= k
                    < self.spec_dataset_len(self.current_split)
        })
        &&& (self.in_batch ==> {
            &&& self.channel_open
            &&& self.batch_target == spec_min(
                self.spec_dataset_len(self.current_split) as int,
                self.batch_start() + self.spec_batch_size(self.current_split),
            )
        })
    }

    pub fn builder(ds: Datasets) -> (r: DataLoaderBuilder)
        ensures
            r == (DataLoaderBuilder {
                _ds: Some(ds),
                _batch_size: None::<usize>,
                _batch_size_eval: None::<usize>,
                _prefetch: None::<usize>,
                _num_threads: None::<usize>,
                _drop_last: None::<bool>,
                _overfit: None::<bool>,
            }),
    {
        DataLoaderBuilder::new(ds)
    }

    /// Builds an idle loader. The worker count defaults to the host
    /// parallelism; the evaluation batch size defaults to the training one.
    /// Registering the process-wide worker pool is the surrounding process's
    /// business and must stay idempotent there.
    pub fn new(
        datasets: Datasets,
        batch_size_train: usize,
        batch_size_eval: Option<usize>,
        num_prefech: usize,
        num_threads: Option<usize>,
        drop_last: bool,
    ) -> (r: Result<DataLoader<T>, DfDataloaderError>)
        requires
            batch_size_train >= 1,
            batch_size_eval matches Some(b) ==> b >= 1,
        ensures
            r is Ok,
            r matches Ok(dl) ==> {
                &&& dl.wf()
                &&& dl.ds_train == datasets.train
                &&& dl.ds_valid == datasets.valid
                &&& dl.ds_test == datasets.test
                &&& dl.batch_size_train == batch_size_train
                &&& dl.batch_size_eval == (match batch_size_eval {
                    Some(b) => b,
                    None => batch_size_train,
                })
                &&& dl.num_prefech == num_prefech
                &&& (num_threads matches Some(n) ==> dl.num_workers == n)
                &&& (num_threads is None ==> dl.num_workers >= 1)
                &&& dl.current_split == Split::Train
                &&& !dl.fill_live
                &&& !dl.channel_open
                &&& dl.out_buf@ == Map::<usize, Sample<T>>::empty()
                &&& dl.cur_out_idx == 0
                &&& dl.batch_target == 0
                &&& !dl.in_batch
                &&& dl.cur_samples@.len() == 0
                &&& dl.cur_ids@.len() == 0
                &&& dl.tries == 0
                &&& !dl.drained
                &&& dl.drop_last == drop_last
                &&& !dl.overfit
                &&& dl.idcs@.len() == 0
            },
    {
        let num_workers = match num_threads {
            Some(n) => n,
            None => default_num_workers(),
        };
        let batch_size_eval = match batch_size_eval {
            Some(b) => b,
            None => batch_size_train,
        };
        Ok(
            DataLoader {
                ds_train: datasets.train,
                ds_valid: datasets.valid,
                ds_test: datasets.test,
                batch_size_train,
                batch_size_eval,
                num_workers,
                num_prefech,
                idcs: Vec::new(),
                current_split: Split::Train,
                fill_live: false,
                channel_open: false,
                out_buf: BTreeMap::new(),
                cur_out_idx: 0,
                batch_target: 0,
                in_batch: false,
                cur_samples: Vec::new(),
                cur_ids: Vec::new(),
                tries: 0,
                drop_last,
                drained: false,
                overfit: false,
            },
        )
    }

    /// What the loader knows of a split's source.
    pub fn get_ds_info(&self, split: Split) -> (r: SplitInfo)
        ensures
            r == self.spec_ds(split),
    {
        match split {
            Split::Train => self.ds_train,
            Split::Valid => self.ds_valid,
            Split::Test => self.ds_test,
        }
    }

    /// Replaces a split's source description, after its keys were
    /// regenerated. Legal only between epochs, while no channel is attached.
    pub fn set_ds(&mut self, split: Split, ds: SplitInfo)
        requires
            old(self).wf(),
            !old(self).channel_open,
        ensures
            final(self).wf(),
            final(self).spec_ds(split) == ds,
            forall|s: Split| s != split ==> final(self).spec_ds(s) == old(self).spec_ds(s),
            final(self).batch_size_train == old(self).batch_size_train,
            final(self).batch_size_eval == old(self).batch_size_eval,
            final(self).num_workers == old(self).num_workers,
            final(self).num_prefech == old(self).num_prefech,
            final(self).drop_last == old(self).drop_last,
            final(self).overfit == old(self).overfit,
            final(self).idcs@ == old(self).idcs@,
            final(self).current_split == old(self).current_split,
            final(self).fill_live == old(self).fill_live,
            !final(self).channel_open,
            final(self).out_buf@ == old(self).out_buf@,
            final(self).cur_out_idx == old(self).cur_out_idx,
            final(self).batch_target == old(self).batch_target,
            final(self).in_batch == old(self).in_batch,
            final(self).cur_samples@ == old(self).cur_samples@,
            final(self).cur_ids@ == old(self).cur_ids@,
            final(self).tries == old(self).tries,
            final(self).drained == old(self).drained,
    {
        match split {
            Split::Train => {
                self.ds_train = ds;
            },
            Split::Valid => {
                self.ds_valid = ds;
            },
            Split::Test => {
                self.ds_test = ds;
            },
        }
    }

    /// The effective length of a split: its source length, clamped to one
    /// evaluation batch in overfit mode for the evaluation splits.
    pub fn dataset_len(&self, split: Split) -> (r: usize)
        ensures
            r == self.spec_dataset_len(split),
    {
        let len = self.get_ds_info(split).len;
        if self.overfit && !(split == Split::Train) {
            // During valid/test only one batch per epoch: all batches would
            // hold the same data and yield the same metrics anyway.
            if len <= self.batch_size_eval {
                len
            } else {
                self.batch_size_eval
            }
        } else {
            len
        }
    }

    /// How many batches one epoch of `split` yields: the floor of
    /// `len / batch size` when the final partial batch is dropped, the
    /// ceiling otherwise.
    pub fn dataloader_len(&self, split: Split) -> (r: usize)
        requires
            self.wf(),
        ensures
            r == num_batches(
                self.spec_dataset_len(split) as nat,
                self.spec_batch_size(split) as nat,
                self.drop_last,
            ),
    {
        let bs = self.batch_size(split);
        let len = self.dataset_len(split);
        if self.drop_last {
            len / bs
        } else if len == 0 {
            proof {
                lemma_basic_div((bs - 1) as int, bs as int);
            }
            0
        } else {
            proof {
                lemma_div_nonincreasing((len - 1) as int, bs as int);
                lemma_div_plus_one((len - 1) as int, bs as int);
            }
            (len - 1) / bs + 1
        }
    }

    /// The batch size the loader uses for a split: the training one for
    /// `Train`, the evaluation one otherwise.
    pub fn batch_size(&self, split: Split) -> (r: usize)
        ensures
            r == self.spec_batch_size(split),
    {
        if split == Split::Train {
            self.batch_size_train
        } else {
            self.batch_size_eval
        }
    }

    /// The epoch seed actually used: forced to 0 in overfit mode regardless
    /// of the caller's argument, so every overfit epoch replays identically;
    /// the caller's seed otherwise. Workers hand this seed to the sample
    /// source for reproducible per-epoch randomness.
    pub fn effective_seed(&self, epoch_seed: usize) -> (r: usize)
        ensures
            r == if self.overfit {
                0usize
            } else {
                epoch_seed
            },
    {
        if self.overfit {
            0
        } else {
            epoch_seed
        }
    }

    /// Whether the split's effective length leaves every real order tag
    /// representable, so none can collide with the reserved sentinel value.
    pub fn len_fits_order_tags(&self, split: Split) -> (r: bool)
        ensures
            r == (self.spec_dataset_len(split) <= isize::MAX as usize),
    {
        self.dataset_len(split) <= isize::MAX as usize
    }

    /// Whether the configured prefetch depth is smaller than the batch size
    /// for `split`, which deserves a warning: the channel can then never hold
    /// a whole batch.
    pub fn prefetch_too_small(&self, split: Split) -> (r: bool)
        ensures
            r == (self.num_prefech < self.spec_batch_size(split)),
    {
        self.num_prefech < self.batch_size(split)
    }

    /// Primes the epoch's work queue: every staged ticket in order, then
    /// exactly one sentinel ticket. Marks the output channel attached and the
    /// worker pool live; the surrounding process spawns the workers on the
    /// returned queue and gives them `epoch_seed`.
    #[allow(unused_variables)]
    pub fn start_idx_worker(&mut self, split: Split, epoch_seed: u64) -> (r: Result<
        Vec<(usize, isize)>,
        DfDataloaderError,
    >)
        requires
            old(self).wf(),
            !old(self).in_batch,
            split == old(self).current_split,
            old(self).batch_target <= old(self).spec_dataset_len(old(self).current_split),
            old(self).out_buf@ == Map::<usize, Sample<T>>::empty(),
        ensures
            r is Ok,
            r matches Ok(q) ==> {
                &&& q@ == old(self).idcs@.push((0usize, SENTINEL_TAG))
                &&& final(self).idcs@.len() == 0
                &&& final(self).channel_open
                &&& final(self).fill_live
                &&& final(self).wf()
                &&& Self::same_config(*final(self), *old(self))
                &&& final(self).current_split == old(self).current_split
                &&& final(self).out_buf@ == old(self).out_buf@
                &&& final(self).cur_out_idx == old(self).cur_out_idx
                &&& final(self).batch_target == old(self).batch_target
                &&& !final(self).in_batch
                &&& final(self).cur_samples@ == old(self).cur_samples@
                &&& final(self).cur_ids@ == old(self).cur_ids@
                &&& final(self).tries == old(self).tries
                &&& final(self).drained == old(self).drained
            },
    {
        let mut q: Vec<(usize, isize)> = Vec::new();
        mem::swap(&mut q, &mut self.idcs);
        q.push((0, SENTINEL_TAG));
        self.channel_open = true;
        self.fill_live = true;
        Ok(q)
    }

    /// Begins a new epoch over `split`: joins any previous epoch's pool,
    /// resets the cursor and the staging map, forces the seed to 0 in overfit
    /// mode, sequences a fresh shuffled (or identity) ticket permutation and
    /// returns the primed work queue, sentinel included, for the new pool.
    /// The order tags of the queue are exactly `0..effective length`, its
    /// sample indices a permutation of the same range, and in overfit mode
    /// the identity ordering regardless of the seed argument.
    pub fn start_epoch(&mut self, split: Split, epoch_seed: usize) -> (r: Result<
        Vec<(usize, isize)>,
        DfDataloaderError,
    >)
        requires
            old(self).wf(),
            old(self).spec_dataset_len(split) <= isize::MAX as usize,
        ensures
            r is Ok,
            r matches Ok(q) ==> {
                let n = old(self).spec_dataset_len(split);
                &&& q@.len() == n + 1
                &&& q@[n as int] == (0usize, SENTINEL_TAG)
                &&& forall|i: int| 0 <= i < n ==> (#[trigger] q@[i]).1 == i
                &&& ticket_indices(q@.take(n as int)).to_multiset() == identity_indices(
                    n as nat,
                ).to_multiset()
                &&& (old(self).overfit ==> forall|i: int| 0 <= i < n ==> (#[trigger] q@[i]).0 == i)
            },
            final(self).wf(),
            Self::same_config(*final(self), *old(self)),
            final(self).current_split == split,
            final(self).cur_out_idx == 0,
            final(self).batch_target == 0,
            !final(self).in_batch,
            final(self).out_buf@ == Map::<usize, Sample<T>>::empty(),
            !final(self).drained,
            final(self).fill_live,
            final(self).channel_open,
            final(self).tries == 0,
            final(self).cur_samples@.len() == 0,
            final(self).cur_ids@.len() == 0,
            final(self).idcs@.len() == 0,
    {
        if self.fill_live {
            // At most one outstanding pool: always join the previous one
            // before anything else.
            self.join_fill_thread()?;
        }
        self.out_buf = BTreeMap::new();
        self.cur_out_idx = 0;
        self.batch_target = 0;
        self.in_batch = false;
        self.cur_samples = Vec::new();
        self.cur_ids = Vec::new();
        self.tries = 0;
        self.current_split = split;
        let seed: usize = self.effective_seed(epoch_seed);
        let n = self.dataset_len(split);
        let tickets = build_index_sequence(n, seed as u64, self.overfit);
        let ghost tks = tickets@;
        self.idcs = tickets;
        let q = self.start_idx_worker(split, seed as u64)?;
        self.drained = false;
        proof {
            assert(q@.take(n as int) =~= tks);
        }
        Ok(q)
    }

    /// Detaches the consumer end of the output channel and records the worker
    /// pool as joined. The surrounding process performs the real join and
    /// filters its outcome through `worker_shutdown_outcome`.
    pub fn join_fill_thread(&mut self) -> (r: Result<(), DfDataloaderError>)
        requires
            old(self).wf(),
        ensures
            r is Ok,
            final(self).wf(),
            !final(self).fill_live,
            !final(self).channel_open,
            !final(self).in_batch,
            Self::same_config(*final(self), *old(self)),
            final(self).idcs@ == old(self).idcs@,
            final(self).current_split == old(self).current_split,
            final(self).out_buf@ == old(self).out_buf@,
            final(self).cur_out_idx == old(self).cur_out_idx,
            final(self).batch_target == old(self).batch_target,
            final(self).cur_samples@ == old(self).cur_samples@,
            final(self).cur_ids@ == old(self).cur_ids@,
            final(self).tries == old(self).tries,
            final(self).drained == old(self).drained,
    {
        self.channel_open = false;
        self.fill_live = false;
        self.in_batch = false;
        Ok(())
    }

    /// Opens one `get_batch` call: refuses when no epoch's channel is
    /// attached, marks the epoch drained once the cursor passed the split's
    /// end, and pins the batch target to one batch ahead, capped at the
    /// split's effective length.
    pub fn begin_batch(&mut self) -> (r: Result<(), DfDataloaderError>)
        requires
            old(self).wf(),
        ensures
            final(self).wf(),
            !old(self).channel_open ==> r == Err::<(), DfDataloaderError>(
                DfDataloaderError::ChannelsNotInitializedError,
            ) && *final(self) == *old(self),
            old(self).channel_open ==> {
                let len = old(self).spec_dataset_len(old(self).current_split);
                &&& r is Ok
                &&& final(self).drained == (old(self).drained || old(self).cur_out_idx >= len)
                &&& final(self).batch_target == spec_min(
                    len as int,
                    old(self).cur_out_idx + old(self).spec_batch_size(old(self).current_split),
                )
                &&& final(self).tries == 0
                &&& final(self).in_batch
                &&& final(self).cur_samples@.len() == 0
                &&& final(self).cur_ids@.len() == 0
                &&& final(self).cur_out_idx == old(self).cur_out_idx
                &&& final(self).out_buf@ == old(self).out_buf@
                &&& final(self).channel_open
                &&& final(self).fill_live == old(self).fill_live
                &&& final(self).current_split == old(self).current_split
                &&& final(self).idcs@ == old(self).idcs@
                &&& Self::same_config(*final(self), *old(self))
            },
    {
        if !self.channel_open {
            return Err(DfDataloaderError::ChannelsNotInitializedError);
        }
        let len = self.dataset_len(self.current_split);
        if self.cur_out_idx >= len {
            self.drained = true;
        }
        let bs = self.batch_size(self.current_split);
        self.cur_samples = Vec::new();
        self.cur_ids = Vec::new();
        self.batch_target = if len - self.cur_out_idx < bs {
            len
        } else {
            self.cur_out_idx + bs
        };
        self.tries = 0;
        self.in_batch = true;
        Ok(())
    }

    /// Whether the batch being collected still misses samples.
    pub fn needs_more(&self) -> (r: bool)
        ensures
            r == (self.cur_out_idx < self.batch_target),
    {
        self.cur_out_idx < self.batch_target
    }

    /// Consumes from the staging map every sample whose order tag is the next
    /// expected one, in ascending tag order, until the batch target is
    /// reached or the next tag is not staged. The collected ids stay the
    /// consecutive run of tags ending at the cursor: delivery is strictly
    /// in order no matter how the workers completed.
    pub fn drain_staged(&mut self)
        requires
            old(self).wf(),
            old(self).channel_open,
        ensures
            final(self).wf(),
            Self::same_config(*final(self), *old(self)),
            final(self).idcs@ == old(self).idcs@,
            final(self).current_split == old(self).current_split,
            final(self).fill_live == old(self).fill_live,
            final(self).channel_open,
            final(self).in_batch == old(self).in_batch,
            final(self).drained == old(self).drained,
            final(self).tries == old(self).tries,
            final(self).batch_target == old(self).batch_target,
            old(self).cur_out_idx <= final(self).cur_out_idx <= final(self).batch_target,
            final(self).cur_ids@ == old(self).cur_ids@ + Seq::new(
                (final(self).cur_out_idx - old(self).cur_out_idx) as nat,
                |i: int| (old(self).cur_out_idx + i) as usize,
            ),
            final(self).cur_samples@ == old(self).cur_samples@ + Seq::new(
                (final(self).cur_out_idx - old(self).cur_out_idx) as nat,
                |i: int| old(self).out_buf@[(old(self).cur_out_idx + i) as usize],
            ),
            forall|i: int|
                old(self).cur_out_idx <= i < final(self).cur_out_idx ==> old(self).out_buf@.dom().contains(#[trigger] (i as usize)),
            forall|k: usize| #[trigger]
                final(self).out_buf@.dom().contains(k) <==> (old(self).out_buf@.dom().contains(k)
                    && k >= final(self).cur_out_idx),
            forall|k: usize| #[trigger]
                final(self).out_buf@.dom().contains(k) ==> final(self).out_buf@[k] == old(self).out_buf@[k],
            final(self).cur_out_idx == final(self).batch_target || !final(self).out_buf@.dom().contains(final(self).cur_out_idx),
    {
        while self.cur_out_idx < self.batch_target
            invariant
                self.wf(),
                self.channel_open,
                Self::same_config(*self, *old(self)),
                self.idcs@ == old(self).idcs@,
                self.current_split == old(self).current_split,
                self.fill_live == old(self).fill_live,
                self.in_batch == old(self).in_batch,
                self.drained == old(self).drained,
                self.tries == old(self).tries,
                self.batch_target == old(self).batch_target,
                old(self).cur_out_idx <= self.cur_out_idx <= self.batch_target,
                self.cur_ids@ == old(self).cur_ids@ + Seq::new(
                    (self.cur_out_idx - old(self).cur_out_idx) as nat,
                    |i: int| (old(self).cur_out_idx + i) as usize,
                ),
                self.cur_samples@ == old(self).cur_samples@ + Seq::new(
                    (self.cur_out_idx - old(self).cur_out_idx) as nat,
                    |i: int| old(self).out_buf@[(old(self).cur_out_idx + i) as usize],
                ),
                forall|i: int|
                    old(self).cur_out_idx <= i < self.cur_out_idx ==> old(self).out_buf@.dom().contains(#[trigger] (i as usize)),
                forall|k: usize| #[trigger]
                    self.out_buf@.dom().contains(k) <==> (old(self).out_buf@.dom().contains(k)
                        && k >= self.cur_out_idx),
                forall|k: usize| #[trigger]
                    self.out_buf@.dom().contains(k) ==> self.out_buf@[k] == old(self).out_buf@[k],
            ensures
                self.cur_out_idx == self.batch_target || !self.out_buf@.dom().contains(
                    self.cur_out_idx,
                ),
            decreases self.batch_target - self.cur_out_idx,
        {
            if !self.out_buf.contains_key(&self.cur_out_idx) {
                break ;
            }
            let s = self.out_buf.remove(&self.cur_out_idx).unwrap();
            self.cur_ids.push(self.cur_out_idx);
            self.cur_samples.push(s);
            self.cur_out_idx = self.cur_out_idx + 1;
            proof {
                assert(self.cur_ids@.drop_last() == old(self).cur_ids@ + Seq::new(
                    (self.cur_out_idx - 1 - old(self).cur_out_idx) as nat,
                    |i: int| (old(self).cur_out_idx + i) as usize,
                ));
                assert(self.cur_ids@ =~= old(self).cur_ids@ + Seq::new(
                    (self.cur_out_idx - old(self).cur_out_idx) as nat,
                    |i: int| (old(self).cur_out_idx + i) as usize,
                ));
                assert(self.cur_samples@ =~= old(self).cur_samples@ + Seq::new(
                    (self.cur_out_idx - old(self).cur_out_idx) as nat,
                    |i: int| old(self).out_buf@[(old(self).cur_out_idx + i) as usize],
                ));
            }
        }
    }

    /// Feeds one received worker message into the loader: the exhaustion
    /// signal marks the epoch drained; a per-sample error aborts the call and
    /// propagates unchanged; a completed sample is staged under its order
    /// tag. A tag outside the split's range, already consumed or already
    /// staged is a protocol violation and a fatal error. Every accepted
    /// message resets the stall counter.
    pub fn on_received(&mut self, tag: usize, res: Result<Sample<T>, DfDataloaderError>) -> (r:
        Result<(), DfDataloaderError>)
        requires
            old(self).wf(),
            old(self).channel_open,
        ensures
            final(self).wf(),
            match res {
                Result::Err(e) => match e {
                    DfDataloaderError::DatasetDrained => {
                        &&& r is Ok
                        &&& Self::same_frame(*final(self), *old(self))
                        &&& final(self).out_buf@ == old(self).out_buf@
                        &&& final(self).drained
                        &&& final(self).tries == 0
                    },
                    _ => r == Err::<(), DfDataloaderError>(e) && *final(self) == *old(self),
                },
                Result::Ok(s) => {
                    let len = old(self).spec_dataset_len(old(self).current_split);
                    let violation = tag < old(self).cur_out_idx || tag >= len || old(self).out_buf@.dom().contains(tag);
                    if violation {
                        r == Err::<(), DfDataloaderError>(
                            DfDataloaderError::OrderTagViolation { tag },
                        ) && *final(self) == *old(self)
                    } else {
                        &&& r is Ok
                        &&& Self::same_frame(*final(self), *old(self))
                        &&& final(self).out_buf@ == old(self).out_buf@.insert(tag, s)
                        &&& final(self).drained == old(self).drained
                        &&& final(self).tries == 0
                    }
                },
            },
    {
        match res {
            Err(e) => match e {
                DfDataloaderError::DatasetDrained => {
                    self.drained = true;
                    self.tries = 0;
                    Ok(())
                },
                other => Err(other),
            },
            Ok(s) => {
                let len = self.dataset_len(self.current_split);
                if tag < self.cur_out_idx || tag >= len || self.out_buf.contains_key(&tag) {
                    return Err(DfDataloaderError::OrderTagViolation { tag });
                }
                self.out_buf.insert(tag, s);
                self.tries = 0;
                Ok(())
            },
        }
    }

    /// Counts one bounded wait that returned nothing. The stall budget is
    /// exceeded, and the call fails with the timeout error, exactly when the
    /// counter has already passed `RETRY_BUDGET`; any accepted message resets
    /// the counter, so only that many consecutive empty waits can fail —
    /// neither earlier nor never.
    pub fn on_timeout(&mut self) -> (r: Result<(), DfDataloaderError>)
        requires
            old(self).wf(),
        ensures
            final(self).wf(),
            old(self).tries > RETRY_BUDGET ==> r == Err::<(), DfDataloaderError>(
                DfDataloaderError::TimeoutError,
            ) && *final(self) == *old(self),
            old(self).tries <= RETRY_BUDGET ==> {
                &&& r is Ok
                &&& Self::same_frame(*final(self), *old(self))
                &&& final(self).out_buf@ == old(self).out_buf@
                &&& final(self).drained == old(self).drained
                &&& final(self).tries == old(self).tries + 1
            },
    {
        if self.tries > RETRY_BUDGET {
            Err(DfDataloaderError::TimeoutError)
        } else {
            self.tries = self.tries + 1;
            Ok(())
        }
    }

    /// Closes one `get_batch` call once the batch target is reached. If the
    /// epoch is drained and nothing was collected — or the final batch is
    /// short, which only happens at the split's end, and `drop_last` asks for
    /// it to be discarded — the epoch is over: the channel is detached, the
    /// pool recorded joined, and `None` returned; the staging map is then
    /// provably empty. A short batch is decided by its size alone, not by
    /// whether the exhaustion signal already arrived, so which batches an
    /// epoch yields does not depend on how the signal raced the last
    /// samples through the channel. Otherwise the
    /// collected samples become a batch, padded to the split's declared
    /// maximum sample length, with the consumed order tags as its `ids`.
    pub fn finish_batch(&mut self) -> (r: Result<Option<DsBatch<T>>, DfDataloaderError>)
        requires
            old(self).wf(),
            old(self).in_batch,
            old(self).cur_out_idx == old(self).batch_target,
        ensures
            final(self).wf(),
            ({
                let n = old(self).cur_samples@.len();
                let bs = old(self).spec_batch_size(old(self).current_split);
                let maxlen = old(self).spec_ds(old(self).current_split).max_sample_len;
                let eos = (old(self).drained && n == 0) || (old(self).drop_last && n < bs);
                &&& (r matches Ok(o) ==> (o is None <==> eos))
                &&& (r is Err <==> (!eos && shape_mismatch(
                    old(self).cur_samples@,
                    maxlen as nat,
                )))
                &&& (eos ==> {
                    &&& r == Ok::<Option<DsBatch<T>>, DfDataloaderError>(None)
                    &&& !final(self).fill_live
                    &&& !final(self).channel_open
                    &&& old(self).out_buf@.dom() =~= Set::<usize>::empty()
                })
                &&& (!eos ==> {
                    &&& final(self).channel_open == old(self).channel_open
                    &&& final(self).fill_live == old(self).fill_live
                    &&& final(self).out_buf@ == old(self).out_buf@
                    &&& final(self).drained == old(self).drained
                    &&& final(self).cur_out_idx == old(self).cur_out_idx
                })
                &&& (r matches Ok(Some(b)) ==> {
                    &&& b.ids@ == old(self).cur_ids@
                    &&& b.payloads@ == old(self).cur_samples@.map_values(
                        |s: Sample<T>| s.payload,
                    )
                    &&& b.payloads@.len() == n
                    &&& b.lengths@ == old(self).cur_samples@.map_values(|s: Sample<T>| s.len)
                    &&& !shape_mismatch(old(self).cur_samples@, maxlen as nat)
                    &&& ((forall|i: int|
                        0 <= i < n ==> (#[trigger] old(self).cur_samples@[i]).len <= maxlen)
                        ==> b.padded_sample_len == maxlen)
                })
                &&& !final(self).in_batch
                &&& final(self).cur_samples@.len() == 0
                &&& final(self).cur_ids@.len() == 0
                &&& Self::same_config(*final(self), *old(self))
                &&& final(self).current_split == old(self).current_split
            }),
    {
        let bs = self.batch_size(self.current_split);
        let n = self.cur_samples.len();
        if (self.drained && n == 0) || (self.drop_last && n < bs) {
            proof {
                let len = self.spec_dataset_len(self.current_split) as int;
                let start = self.batch_start();
                assert(self.batch_target == spec_min(len, start + bs));
                if n == 0 {
                    // an empty collection means the cursor already sat at the
                    // split's end when the batch began
                    assert(self.cur_out_idx == spec_min(len, self.cur_out_idx + bs));
                    assert(self.cur_out_idx == len);
                } else {
                    // a short final batch: the target was capped by the
                    // split's length, not by the batch size
                    assert(self.batch_target == start + n);
                    assert(start + n < start + bs);
                    assert(self.batch_target == len);
                }
                assert forall|k: usize| !(#[trigger] self.out_buf@.dom().contains(k)) by {
                    if self.out_buf@.dom().contains(k) {
                        assert(self.cur_out_idx <= k < len);
                    }
                }
                assert(self.out_buf@.dom() =~= Set::<usize>::empty());
            }
            self.cur_samples = Vec::new();
            self.cur_ids = Vec::new();
            self.join_fill_thread()?;
            Ok(None)
        } else {
            let maxlen = self.get_ds_info(self.current_split).max_sample_len;
            let mut samples: Vec<Sample<T>> = Vec::new();
            let mut ids: Vec<usize> = Vec::new();
            mem::swap(&mut samples, &mut self.cur_samples);
            mem::swap(&mut ids, &mut self.cur_ids);
            self.in_batch = false;
            match collate(samples, maxlen) {
                Ok(mut b) => {
                    b.ids = ids;
                    Ok(Some(b))
                },
                Err(e) => Err(e),
            }
        }
    }
}

/// Collects the loader's configuration before `build` checks it against the
/// splits' sizes.
pub struct DataLoaderBuilder {
    pub _ds: Option<Datasets>,
    pub _batch_size: Option<usize>,
    pub _batch_size_eval: Option<usize>,
    pub _prefetch: Option<usize>,
    pub _num_threads: Option<usize>,
    pub _drop_last: Option<bool>,
    pub _overfit: Option<bool>,
}

/// The evaluation batch size a builder would use: the explicit one, or the
/// training batch size as the default.
pub open spec fn eval_batch_size(b: DataLoaderBuilder, bs_train: usize) -> usize {
    match b._batch_size_eval {
        Some(e) => e,
        None => bs_train,
    }
}

/// The first split, in the order train, valid, test, whose size is smaller
/// than the batch size requested for it, together with that size and batch
/// size — the dataset-too-small condition that refuses to build a loader.
pub open spec fn first_small_split(ds: Datasets, bs_train: usize, bs_eval: usize) -> Option<
    (Split, usize, usize),
> {
    if ds.train.len < bs_train {
        Some((Split::Train, ds.train.len, bs_train))
    } else if ds.valid.len < bs_eval {
        Some((Split::Valid, ds.valid.len, bs_eval))
    } else if ds.test.len < bs_eval {
        Some((Split::Test, ds.test.len, bs_eval))
    } else {
        None
    }
}

impl DataLoaderBuilder {
    pub fn new(ds: Datasets) -> (r: Self)
        ensures
            r == (DataLoaderBuilder {
                _ds: Some(ds),
                _batch_size: None::<usize>,
                _batch_size_eval: None::<usize>,
                _prefetch: None::<usize>,
                _num_threads: None::<usize>,
                _drop_last: None::<bool>,
                _overfit: None::<bool>,
            }),
    {
        DataLoaderBuilder {
            _ds: Some(ds),
            _batch_size: None,
            _batch_size_eval: None,
            _prefetch: None,
            _num_threads: None,
            _drop_last: None,
            _overfit: None,
        }
    }

    pub fn batch_size(self, batch_size: usize) -> (r: Self)
        ensures
            r == (DataLoaderBuilder { _batch_size: Some(batch_size), ..self }),
    {
        DataLoaderBuilder { _batch_size: Some(batch_size), ..self }
    }

    pub fn batch_size_eval(self, batch_size: usize) -> (r: Self)
        ensures
            r == (DataLoaderBuilder { _batch_size_eval: Some(batch_size), ..self }),
    {
        DataLoaderBuilder { _batch_size_eval: Some(batch_size), ..self }
    }

    pub fn prefetch(self, prefetch: usize) -> (r: Self)
        ensures
            r == (DataLoaderBuilder { _prefetch: Some(prefetch), ..self }),
    {
        DataLoaderBuilder { _prefetch: Some(prefetch), ..self }
    }

    pub fn num_threads(self, num_threads: usize) -> (r: Self)
        ensures
            r == (DataLoaderBuilder { _num_threads: Some(num_threads), ..self }),
    {
        DataLoaderBuilder { _num_threads: Some(num_threads), ..self }
    }

    pub fn overfit(self, overfit: bool) -> (r: Self)
        ensures
            r == (DataLoaderBuilder { _overfit: Some(overfit), ..self }),
    {
        DataLoaderBuilder { _overfit: Some(overfit), ..self }
    }

    pub fn drop_last(self, drop_last: bool) -> (r: Self)
        ensures
            r == (DataLoaderBuilder { _drop_last: Some(drop_last), ..self }),
    {
        DataLoaderBuilder { _drop_last: Some(drop_last), ..self }
    }

    /// Refuses any split smaller than the batch size it would be served
    /// with, naming the split, its size and that batch size.
    fn check_dataset_size(&self, bs_train: usize) -> (r: Result<(), DfDataloaderError>)
        requires
            self._ds is Some,
        ensures
            match first_small_split(self._ds.unwrap(), bs_train, eval_batch_size(*self, bs_train)) {
                None => r == Ok::<(), DfDataloaderError>(()),
                Some(t) => r == Err::<(), DfDataloaderError>(
                    DfDataloaderError::DatasetTooSmall {
                        split: t.0,
                        dataset_size: t.1,
                        batch_size: t.2,
                    },
                ),
            },
    {
        let ds = self._ds.unwrap();
        let bs_eval = match self._batch_size_eval {
            Some(e) => e,
            None => bs_train,
        };
        if ds.train.len < bs_train {
            Err(
                DfDataloaderError::DatasetTooSmall {
                    split: Split::Train,
                    dataset_size: ds.train.len,
                    batch_size: bs_train,
                },
            )
        } else if ds.valid.len < bs_eval {
            Err(
                DfDataloaderError::DatasetTooSmall {
                    split: Split::Valid,
                    dataset_size: ds.valid.len,
                    batch_size: bs_eval,
                },
            )
        } else if ds.test.len < bs_eval {
            Err(
                DfDataloaderError::DatasetTooSmall {
                    split: Split::Test,
                    dataset_size: ds.test.len,
                    batch_size: bs_eval,
                },
            )
        } else {
            Ok(())
        }
    }

    /// Builds the loader: the training batch size defaults to 1, the
    /// prefetch depth to batch size times worker count times two, and the
    /// build fails with the dataset-too-small error, naming the offending
    /// split, its size and the requested batch size, exactly when some
    /// split is smaller than its batch size.
    pub fn build<T>(self) -> (r: Result<DataLoader<T>, DfDataloaderError>)
        requires
            self._ds is Some,
            self._batch_size matches Some(b) ==> b >= 1,
            self._batch_size_eval matches Some(b) ==> b >= 1,
            self._prefetch is None ==> (match self._batch_size {
                Some(b) => b as int,
                None => 1int,
            }) * (match self._num_threads {
                Some(n) => n as int,
                None => 4int,
            }) * 2 <= usize::MAX as int,
        ensures
            ({
                let bst = match self._batch_size {
                    Some(b) => b,
                    None => 1usize,
                };
                let bse = eval_batch_size(self, bst);
                match first_small_split(self._ds.unwrap(), bst, bse) {
                    Some(t) => r == Err::<DataLoader<T>, DfDataloaderError>(
                        DfDataloaderError::DatasetTooSmall {
                            split: t.0,
                            dataset_size: t.1,
                            batch_size: t.2,
                        },
                    ),
                    None => r matches Ok(dl) && {
                        &&& dl.wf()
                        &&& dl.ds_train == self._ds.unwrap().train
                        &&& dl.ds_valid == self._ds.unwrap().valid
                        &&& dl.ds_test == self._ds.unwrap().test
                        &&& dl.batch_size_train == bst
                        &&& dl.batch_size_eval == bse
                        &&& (self._prefetch matches Some(p) ==> dl.num_prefech == p)
                        &&& (self._num_threads matches Some(nt) ==> dl.num_workers == nt)
                        &&& dl.drop_last == (self._drop_last matches Some(true))
                        &&& dl.overfit == (self._overfit matches Some(true))
                        &&& !dl.fill_live
                        &&& !dl.channel_open
                        &&& dl.cur_out_idx == 0
                        &&& !dl.drained
                        &&& !dl.in_batch
                        &&& dl.out_buf@ == Map::<usize, Sample<T>>::empty()
                        &&& dl.current_split == Split::Train
                    },
                }
            }),
    {
        let bs_train = match self._batch_size {
            Some(b) => b,
            None => 1,
        };
        match self.check_dataset_size(bs_train) {
            Ok(()) => {},
            Err(e) => {
                return Err(e);
            },
        }
        let prefetch = match self._prefetch {
            Some(p) => p,
            None => {
                let nt = match self._num_threads {
                    Some(n) => n,
                    None => 4,
                };
                bs_train * nt * 2
            },
        };
        let drop_last = match self._drop_last {
            Some(d) => d,
            None => false,
        };
        match DataLoader::new(
            self._ds.unwrap(),
            bs_train,
            self._batch_size_eval,
            prefetch,
            self._num_threads,
            drop_last,
        ) {
            Ok(mut loader) => {
                loader.overfit = match self._overfit {
                    Some(o) => o,
                    None => false,
                };
                Ok(loader)
            },
            Err(e) => Err(e),
        }
    }
}

/// Law: when a batch completes — the cursor reached the batch target — the
/// number of collected samples is exactly `min(batch size, samples left in
/// the split when the batch began)`: full batches while at least a batch
/// remains, then one final remainder batch. Iterated from cursor 0, these
/// are precisely the sizes `batch_sizes` describes (`lemma_batch_sizes_index`).
pub proof fn lemma_batch_size_at_completion<T>(dl: DataLoader<T>)
    requires
        dl.wf(),
        dl.in_batch,
        dl.cur_out_idx == dl.batch_target,
    ensures
        dl.cur_samples@.len() == spec_min(
            dl.spec_batch_size(dl.current_split) as int,
            dl.spec_dataset_len(dl.current_split) - dl.batch_start(),
        ),
{
}

/// Law: batch `ids` concatenated in emission order are strictly increasing in
/// the underlying order tag. Each batch's ids are the consecutive run of tags
/// ending at the cursor (`drain_staged` and `finish_batch` say so), and each
/// batch starts at the cursor where the previous one ended, so any sequence
/// of consecutive tags from a fixed start is strictly increasing throughout.
pub proof fn lemma_ids_strictly_increasing(ids: Seq<usize>, start: int)
    requires
        forall|j: int| 0 <= j < ids.len() ==> ids[j] == start + j,
    ensures
        forall|j: int, k: int| 0 <= j < k < ids.len() ==> ids[j] < ids[k],
{
}

} // verus!
