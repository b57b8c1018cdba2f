use dataloader::batch::Sample;
use dataloader::error::DfDataloaderError;
use dataloader::loader::{DataLoader, Datasets, SplitInfo};
use dataloader::sequence::SENTINEL_TAG;
use dataloader::Split;

fn info(len: usize, max_sample_len: usize) -> SplitInfo {
    SplitInfo { len, max_sample_len }
}

fn datasets(train: usize, valid: usize, test: usize, max_len: usize) -> Datasets {
    Datasets {
        train: info(train, max_len),
        valid: info(valid, max_len),
        test: info(test, max_len),
    }
}

fn mk_sample(payload: usize, len: usize) -> Sample<usize> {
    Sample {
        payload,
        len,
        max_freq: 24000,
        snr: 5,
        gain: 0,
        attenuation: None,
    }
}

/// Drives one epoch the way the worker loop would, feeding events from
/// `events` whenever the loader still needs samples, and collects the batches.
fn run_epoch(
    loader: &mut DataLoader<usize>,
    split: Split,
    seed: usize,
    reorder: impl Fn(&mut Vec<(usize, isize)>),
) -> Vec<dataloader::batch::DsBatch<usize>> {
    let mut queue = loader.start_epoch(split, seed).unwrap();
    assert_eq!(queue.last(), Some(&(0usize, SENTINEL_TAG)));
    queue.pop();
    reorder(&mut queue);
    let sample_len = loader.get_ds_info(split).max_sample_len;
    let mut events = queue
        .into_iter()
        .map(|(idx, tag)| (tag as usize, Ok(mk_sample(idx, sample_len))))
        .collect::<Vec<(usize, Result<Sample<usize>, DfDataloaderError>)>>();
    events.push((0, Err(DfDataloaderError::DatasetDrained)));
    let mut events = events.into_iter();
    let mut batches = Vec::new();
    loop {
        loader.begin_batch().unwrap();
        while loader.needs_more() {
            loader.drain_staged();
            if !loader.needs_more() {
                break;
            }
            let (tag, res) = events.next().expect("the epoch stalled: no events left");
            loader.on_received(tag, res).unwrap();
        }
        match loader.finish_batch().unwrap() {
            Some(b) => batches.push(b),
            None => break,
        }
    }
    batches
}

fn build_loader(d: usize, bs: usize, drop_last: bool) -> DataLoader<usize> {
    DataLoader::<usize>::builder(datasets(d, d, d, 100))
        .batch_size(bs)
        .num_threads(1)
        .drop_last(drop_last)
        .build()
        .unwrap()
}

#[test]
fn full_epoch_batch_sizes_without_drop_last() {
    // D=17, B=4: ceil(17/4) = 5 batches of sizes [4,4,4,4,1], summing to 17
    let mut loader = build_loader(17, 4, false);
    assert_eq!(loader.dataloader_len(Split::Train), 5);
    let batches = run_epoch(&mut loader, Split::Train, 3, |_| {});
    let sizes: Vec<usize> = batches.iter().map(|b| b.batch_size()).collect();
    assert_eq!(sizes, vec![4, 4, 4, 4, 1]);
    assert_eq!(sizes.iter().sum::<usize>(), 17);
}

#[test]
fn full_epoch_batch_sizes_with_drop_last() {
    // D=16, B=4 yields exactly four full batches
    let mut loader = build_loader(16, 4, true);
    assert_eq!(loader.dataloader_len(Split::Train), 4);
    let batches = run_epoch(&mut loader, Split::Train, 3, |_| {});
    let sizes: Vec<usize> = batches.iter().map(|b| b.batch_size()).collect();
    assert_eq!(sizes, vec![4, 4, 4, 4]);
}

#[test]
fn drop_last_discards_remainder() {
    // D=17, B=4: floor(17/4) = 4 batches, the 17 mod 4 = 1 remainder dropped
    let mut loader = build_loader(17, 4, true);
    assert_eq!(loader.dataloader_len(Split::Train), 4);
    let batches = run_epoch(&mut loader, Split::Train, 9, |_| {});
    let sizes: Vec<usize> = batches.iter().map(|b| b.batch_size()).collect();
    assert_eq!(sizes, vec![4, 4, 4, 4]);
}

#[test]
fn construction_fails_dataset_too_small() {
    // D=1, B=2 must fail naming the split, dataset_size=1 and batch_size=2
    let r = DataLoader::<usize>::builder(datasets(1, 4, 4, 10)).batch_size(2).build::<usize>();
    match r {
        Err(DfDataloaderError::DatasetTooSmall { split, dataset_size, batch_size }) => {
            assert_eq!(split, Split::Train);
            assert_eq!(dataset_size, 1);
            assert_eq!(batch_size, 2);
        }
        _ => panic!("expected the dataset-too-small error"),
    }
}

#[test]
fn eval_split_too_small_is_named() {
    let r = DataLoader::<usize>::builder(datasets(8, 1, 8, 10))
        .batch_size(2)
        .batch_size_eval(2)
        .build::<usize>();
    match r {
        Err(DfDataloaderError::DatasetTooSmall { split, dataset_size, batch_size }) => {
            assert_eq!(split, Split::Valid);
            assert_eq!(dataset_size, 1);
            assert_eq!(batch_size, 2);
        }
        _ => panic!("expected the dataset-too-small error"),
    }
}

#[test]
fn epoch_indices_are_a_permutation_and_ids_increase() {
    // Across one epoch the returned payloads (the original sample indices)
    // cover 0..D exactly once, and the ids are strictly increasing tags.
    let mut loader = build_loader(17, 4, false);
    let batches = run_epoch(&mut loader, Split::Train, 5, |_| {});
    let mut indices: Vec<usize> = Vec::new();
    let mut ids: Vec<usize> = Vec::new();
    for b in &batches {
        indices.extend(b.payloads.iter().copied());
        ids.extend(b.ids.iter().copied());
    }
    let mut sorted = indices.clone();
    sorted.sort_unstable();
    assert_eq!(sorted, (0..17).collect::<Vec<usize>>());
    assert_eq!(ids, (0..17).collect::<Vec<usize>>());
    for w in ids.windows(2) {
        assert!(w[0] < w[1]);
    }
}

#[test]
fn out_of_order_delivery_is_reordered() {
    // Deliver each batch's samples in reversed tag order: the staging map
    // must still hand them out strictly in ascending tag order.
    let mut loader = build_loader(12, 4, false);
    let batches = run_epoch(&mut loader, Split::Train, 1, |q| {
        for chunk in q.chunks_mut(4) {
            chunk.reverse();
        }
    });
    let ids: Vec<usize> = batches.iter().flat_map(|b| b.ids.iter().copied()).collect();
    assert_eq!(ids, (0..12).collect::<Vec<usize>>());
}

#[test]
fn batch_before_start_epoch_is_an_error() {
    let mut loader = build_loader(8, 4, false);
    assert_eq!(
        loader.begin_batch(),
        Err(DfDataloaderError::ChannelsNotInitializedError)
    );
}

#[test]
fn batch_after_epoch_end_is_an_error() {
    // Once the epoch returned None the pool is joined; a further call before
    // a new start_epoch is refused.
    let mut loader = build_loader(8, 4, false);
    let _ = run_epoch(&mut loader, Split::Train, 2, |_| {});
    assert_eq!(
        loader.begin_batch(),
        Err(DfDataloaderError::ChannelsNotInitializedError)
    );
}

#[test]
fn restarting_epoch_with_live_pool_succeeds() {
    // Starting a new epoch while the previous pool is still live joins it
    // first and proceeds with fresh state.
    let mut loader = build_loader(8, 4, false);
    let q1 = loader.start_epoch(Split::Train, 1).unwrap();
    assert_eq!(q1.len(), 9);
    let q2 = loader.start_epoch(Split::Train, 2).unwrap();
    assert_eq!(q2.len(), 9);
    assert_eq!(loader.cur_out_idx, 0);
    assert!(loader.fill_live);
    let batches = run_epoch(&mut loader, Split::Train, 3, |_| {});
    assert_eq!(batches.len(), 2);
}

#[test]
fn stall_times_out_after_budget_not_earlier() {
    // 1001 fruitless waits are tolerated; the 1002nd consecutive one fails.
    let mut loader = build_loader(8, 4, false);
    loader.start_epoch(Split::Train, 1).unwrap();
    loader.begin_batch().unwrap();
    for _ in 0..1001 {
        assert_eq!(loader.on_timeout(), Ok(()));
    }
    assert_eq!(loader.on_timeout(), Err(DfDataloaderError::TimeoutError));
}

#[test]
fn accepted_message_resets_stall_counter() {
    let mut loader = build_loader(8, 4, false);
    let queue = loader.start_epoch(Split::Train, 1).unwrap();
    loader.begin_batch().unwrap();
    for _ in 0..1001 {
        assert_eq!(loader.on_timeout(), Ok(()));
    }
    let (idx, tag) = queue[0];
    loader.on_received(tag as usize, Ok(mk_sample(idx, 3))).unwrap();
    for _ in 0..1001 {
        assert_eq!(loader.on_timeout(), Ok(()));
    }
    assert_eq!(loader.on_timeout(), Err(DfDataloaderError::TimeoutError));
}

#[test]
fn duplicate_order_tag_is_a_protocol_violation() {
    let mut loader = build_loader(8, 4, false);
    loader.start_epoch(Split::Train, 1).unwrap();
    loader.begin_batch().unwrap();
    loader.on_received(3, Ok(mk_sample(0, 3))).unwrap();
    assert_eq!(
        loader.on_received(3, Ok(mk_sample(1, 3))),
        Err(DfDataloaderError::OrderTagViolation { tag: 3 })
    );
}

#[test]
fn out_of_range_order_tag_is_a_protocol_violation() {
    let mut loader = build_loader(8, 4, false);
    loader.start_epoch(Split::Train, 1).unwrap();
    loader.begin_batch().unwrap();
    assert_eq!(
        loader.on_received(8, Ok(mk_sample(0, 3))),
        Err(DfDataloaderError::OrderTagViolation { tag: 8 })
    );
}

#[test]
fn per_sample_error_propagates_unchanged() {
    let mut loader = build_loader(8, 4, false);
    loader.start_epoch(Split::Train, 1).unwrap();
    loader.begin_batch().unwrap();
    let r = loader.on_received(0, Err(DfDataloaderError::DatasetError("bad file".to_string())));
    assert_eq!(r, Err(DfDataloaderError::DatasetError("bad file".to_string())));
}

#[test]
fn overfit_clamps_eval_split_length() {
    let mut loader = DataLoader::<usize>::builder(datasets(10, 10, 10, 5))
        .batch_size(2)
        .batch_size_eval(3)
        .overfit(true)
        .build()
        .unwrap();
    assert_eq!(loader.dataset_len(Split::Train), 10);
    assert_eq!(loader.dataset_len(Split::Valid), 3);
    assert_eq!(loader.dataset_len(Split::Test), 3);
    // the seed is forced to 0 internally, whatever the caller passes
    assert_eq!(loader.effective_seed(99), 0);
    // one eval batch per epoch
    assert_eq!(loader.dataloader_len(Split::Valid), 1);
    let batches = run_epoch(&mut loader, Split::Valid, 42, |_| {});
    assert_eq!(batches.len(), 1);
    assert_eq!(batches[0].batch_size(), 3);
    assert_eq!(batches[0].payloads, vec![0, 1, 2]);
}

#[test]
fn dataloader_len_matches_ceil_and_floor() {
    let loader = build_loader(17, 4, false);
    assert_eq!(loader.dataloader_len(Split::Train), 5);
    let loader = build_loader(17, 4, true);
    assert_eq!(loader.dataloader_len(Split::Train), 4);
    let loader = build_loader(16, 4, false);
    assert_eq!(loader.dataloader_len(Split::Train), 4);
    let loader = build_loader(16, 4, true);
    assert_eq!(loader.dataloader_len(Split::Train), 4);
}

#[test]
fn builder_defaults_apply() {
    let loader: DataLoader<usize> = DataLoader::<usize>::builder(datasets(4, 4, 4, 10)).build().unwrap();
    assert_eq!(loader.batch_size_train, 1);
    assert_eq!(loader.batch_size_eval, 1);
    // default prefetch: batch size x default thread count x 2
    assert_eq!(loader.num_prefech, 1 * 4 * 2);
    assert!(!loader.drop_last);
    assert!(!loader.overfit);
    assert_eq!(loader.batch_size(Split::Train), 1);
    assert_eq!(loader.batch_size(Split::Valid), 1);
    assert_eq!(loader.effective_seed(99), 99);
}

#[test]
fn prefetch_warning_condition() {
    let loader: DataLoader<usize> = DataLoader::<usize>::builder(datasets(8, 8, 8, 10))
        .batch_size(4)
        .prefetch(2)
        .build()
        .unwrap();
    assert!(loader.prefetch_too_small(Split::Train));
    let loader2: DataLoader<usize> = DataLoader::<usize>::builder(datasets(8, 8, 8, 10))
        .batch_size(4)
        .prefetch(8)
        .build()
        .unwrap();
    let loader = loader2;
    assert!(!loader.prefetch_too_small(Split::Train));
}

#[test]
fn set_ds_replaces_split_info() {
    let mut loader = build_loader(8, 4, false);
    loader.set_ds(Split::Valid, info(20, 7));
    assert_eq!(loader.dataset_len(Split::Valid), 20);
    assert_eq!(loader.get_ds_info(Split::Valid).max_sample_len, 7);
    assert_eq!(loader.dataset_len(Split::Train), 8);
}
