use vstd::prelude::*;
use crate::error::DfDataloaderError;

verus! {

/// One unit of training data as the loader sees it: an opaque payload (the
/// tensors themselves are none of the loader's business), the length of the
/// payload along its variable axis, and the per-sample scalar metadata.
#[derive(Debug)]
pub struct Sample<T> {
    pub payload: T,
    pub len: usize,
    pub max_freq: usize,
    pub snr: i8,
    pub gain: i8,
    pub attenuation: Option<u8>,
}

/// A batch: the payloads of its samples in delivery order, with the
/// index-aligned per-sample metadata, the order tags under `ids`, and the
/// common padded length of the variable axis.
#[derive(Debug)]
pub struct DsBatch<T> {
    pub payloads: Vec<T>,
    pub lengths: Vec<usize>,
    pub max_freq: Vec<usize>,
    pub snr: Vec<i8>,
    pub gain: Vec<i8>,
    /// attenuation limit in dB; 0 stands for no limit
    pub atten: Vec<u8>,
    pub ids: Vec<usize>,
    pub padded_sample_len: usize,
}

impl<T> DsBatch<T> {
    /// How many samples the batch holds.
    pub fn batch_size(&self) -> (r: usize)
        ensures
            r == self.payloads@.len(),
    {
        self.payloads.len()
    }

    /// The common length of every payload's variable axis after padding.
    pub fn sample_len(&self) -> (r: usize)
        ensures
            r == self.padded_sample_len,
    {
        self.padded_sample_len
    }
}

/// The length of a payload's variable axis after padding it to `target`:
/// padding appends zeros but never truncates, so a longer payload keeps its
/// own length.
pub open spec fn spec_padded_len(orig: nat, target: nat) -> nat {
    if orig >= target {
        orig
    } else {
        target
    }
}

pub fn padded_len(orig: usize, target: usize) -> (r: usize)
    ensures
        r == spec_padded_len(orig as nat, target as nat),
{
    if orig >= target {
        orig
    } else {
        target
    }
}

/// The attenuation limit a batch records for a sample: 0 stands for no limit.
pub open spec fn atten_of<T>(s: Sample<T>) -> u8 {
    match s.attenuation {
        Some(a) => a,
        None => 0u8,
    }
}

/// Whether the samples would still disagree in shape after each one is padded
/// to `target`: the data-integrity defect batch assembly must report.
pub open spec fn shape_mismatch<T>(samples: Seq<Sample<T>>, target: nat) -> bool {
    exists|i: int|
        0 <= i < samples.len() && spec_padded_len((#[trigger] samples[i]).len as nat, target)
            != spec_padded_len(samples[0].len as nat, target)
}

/// Assembles collected samples into a batch: pads every payload's variable
/// axis to `target_len` (a payload already longer keeps its length), stacks
/// the payloads in delivery order and gathers the per-sample metadata,
/// index-aligned. Samples whose padded lengths still disagree are a
/// data-integrity defect and are reported as an error, never stacked.
/// The caller attaches the order tags to `ids` afterwards.
pub fn collate<T>(samples: Vec<Sample<T>>, target_len: usize) -> (r: Result<
    DsBatch<T>,
    DfDataloaderError,
>)
    ensures
        match r {
            Ok(b) => {
                &&& !shape_mismatch(samples@, target_len as nat)
                &&& b.payloads@ =~= samples@.map_values(|s: Sample<T>| s.payload)
                &&& b.lengths@ =~= samples@.map_values(|s: Sample<T>| s.len)
                &&& b.max_freq@ =~= samples@.map_values(|s: Sample<T>| s.max_freq)
                &&& b.snr@ =~= samples@.map_values(|s: Sample<T>| s.snr)
                &&& b.gain@ =~= samples@.map_values(|s: Sample<T>| s.gain)
                &&& b.atten@ =~= samples@.map_values(|s: Sample<T>| atten_of(s))
                &&& b.ids@.len() == 0
                &&& samples@.len() > 0 ==> b.padded_sample_len == spec_padded_len(
                    samples@[0].len as nat,
                    target_len as nat,
                )
                &&& samples@.len() == 0 ==> b.padded_sample_len == target_len
                &&& (forall|i: int|
                    0 <= i < samples@.len() ==> (#[trigger] samples@[i]).len <= target_len)
                    ==> b.padded_sample_len == target_len
            },
            Err(e) => {
                &&& shape_mismatch(samples@, target_len as nat)
                &&& e matches DfDataloaderError::ShapeMismatch { expected, actual } && {
                    &&& expected == spec_padded_len(samples@[0].len as nat, target_len as nat)
                    &&& exists|i: int|
                        0 <= i < samples@.len() && actual == spec_padded_len(
                            (#[trigger] samples@[i]).len as nat,
                            target_len as nat,
                        ) && actual != expected
                }
            },
        },
{
    let ghost orig = samples@;
    if samples.len() == 0 {
        return Ok(
            DsBatch {
                payloads: Vec::new(),
                lengths: Vec::new(),
                max_freq: Vec::new(),
                snr: Vec::new(),
                gain: Vec::new(),
                atten: Vec::new(),
                ids: Vec::new(),
                padded_sample_len: target_len,
            },
        );
    }
    let expected = padded_len(samples[0].len, target_len);
    let mut rest = samples;
    let mut payloads: Vec<T> = Vec::new();
    let mut lengths: Vec<usize> = Vec::new();
    let mut max_freq: Vec<usize> = Vec::new();
    let mut snr: Vec<i8> = Vec::new();
    let mut gain: Vec<i8> = Vec::new();
    let mut atten: Vec<u8> = Vec::new();
    while rest.len() > 0
        invariant
            orig == samples@,
            payloads@.len() + rest@.len() == orig.len(),
            rest@ =~= orig.skip(payloads@.len() as int),
            expected == spec_padded_len(orig[0].len as nat, target_len as nat),
            lengths@.len() == payloads@.len(),
            max_freq@.len() == payloads@.len(),
            snr@.len() == payloads@.len(),
            gain@.len() == payloads@.len(),
            atten@.len() == payloads@.len(),
            forall|j: int| 0 <= j < payloads@.len() ==> payloads@[j] == (#[trigger] orig[j]).payload,
            forall|j: int| 0 <= j < payloads@.len() ==> lengths@[j] == (#[trigger] orig[j]).len,
            forall|j: int|
                0 <= j < payloads@.len() ==> max_freq@[j] == (#[trigger] orig[j]).max_freq,
            forall|j: int| 0 <= j < payloads@.len() ==> snr@[j] == (#[trigger] orig[j]).snr,
            forall|j: int| 0 <= j < payloads@.len() ==> gain@[j] == (#[trigger] orig[j]).gain,
            forall|j: int| 0 <= j < payloads@.len() ==> atten@[j] == atten_of(#[trigger] orig[j]),
            forall|j: int|
                0 <= j < payloads@.len() ==> spec_padded_len(
                    (#[trigger] orig[j]).len as nat,
                    target_len as nat,
                ) == expected,
        decreases rest@.len(),
    {
        let ghost i = payloads@.len() as int;
        let s = rest.remove(0);
        assert(s == orig[i]);
        let p = padded_len(s.len, target_len);
        if p != expected {
            assert(spec_padded_len(orig[i].len as nat, target_len as nat) != spec_padded_len(
                orig[0].len as nat,
                target_len as nat,
            ));
            assert(shape_mismatch(orig, target_len as nat));
            return Err(DfDataloaderError::ShapeMismatch { expected, actual: p });
        }
        lengths.push(s.len);
        max_freq.push(s.max_freq);
        snr.push(s.snr);
        gain.push(s.gain);
        atten.push(
            match s.attenuation {
                Some(a) => a,
                None => 0u8,
            },
        );
        payloads.push(s.payload);
    }
    assert(payloads@ =~= orig.map_values(|s: Sample<T>| s.payload));
    assert(lengths@ =~= orig.map_values(|s: Sample<T>| s.len));
    assert(max_freq@ =~= orig.map_values(|s: Sample<T>| s.max_freq));
    assert(snr@ =~= orig.map_values(|s: Sample<T>| s.snr));
    assert(gain@ =~= orig.map_values(|s: Sample<T>| s.gain));
    assert(atten@ =~= orig.map_values(|s: Sample<T>| atten_of(s)));
    Ok(
        DsBatch {
            payloads,
            lengths,
            max_freq,
            snr,
            gain,
            atten,
            ids: Vec::new(),
            padded_sample_len: expected,
        },
    )
}

} // verus!
