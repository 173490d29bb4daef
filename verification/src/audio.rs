//! Audio format of the recordings and conversion of captured samples.

use vstd::prelude::*;

verus! {

/// Sample rate of the recordings, in Hz.
pub const SAMPLE_RATE: u32 = 16000;

/// Number of channels of the recordings (mono).
pub const CHANNELS: u16 = 1;

/// Bits per recorded sample.
pub const BITS_PER_SAMPLE: u16 = 16;

/// Number of samples the capture channel buffers.
pub const SAMPLE_CHANNEL_CAPACITY: usize = 4096;

/// `num_traits::ToPrimitive::to_i16` on an `i16`: always the value itself.
#[verifier::external_body]
fn i16_to_i16(sample: i16) -> (converted: Option<i16>)
    ensures
        converted == Some(sample),
{
    num_traits::ToPrimitive::to_i16(&sample)
}

/// `num_traits::ToPrimitive::to_i16` on a `u16`: the value when it fits
/// in an `i16` (at most 32767), none otherwise.
#[verifier::external_body]
fn u16_to_i16(sample: u16) -> (converted: Option<i16>)
    ensures
        converted == u16_as_i16(sample),
{
    num_traits::ToPrimitive::to_i16(&sample)
}

/// A `u16` sample as an `i16`: the value when it is at most 32767, none
/// otherwise.
pub open spec fn u16_as_i16(sample: u16) -> Option<i16> {
    if sample <= i16::MAX as u16 {
        Some(sample as i16)
    } else {
        None
    }
}

/// The samples of `data` that fit in an `i16`, in order.
pub open spec fn representable_u16(data: Seq<u16>) -> Seq<i16> {
    data.filter_map(|sample: u16| u16_as_i16(sample))
}

/// Converts a buffer of captured `i16` samples: every sample is kept.
pub fn convert_i16_samples(data: &[i16]) -> (samples: Vec<i16>)
    ensures
        samples@ == data@,
{
    let mut samples: Vec<i16> = Vec::new();
    let n = data.len();
    for i in 0..n
        invariant
            n == data@.len(),
            samples@ == data@.subrange(0, i as int),
    {
        if let Some(value) = i16_to_i16(data[i]) {
            samples.push(value);
        }
        proof {
            assert(data@.subrange(0, i + 1) == data@.subrange(0, i as int).push(data@[i as int]));
        }
    }
    proof {
        assert(data@.subrange(0, n as int) == data@);
    }
    samples
}

/// Converts a buffer of captured `u16` samples: the samples that fit in an
/// `i16` are kept, in order, and the others dropped.
pub fn convert_u16_samples(data: &[u16]) -> (samples: Vec<i16>)
    ensures
        samples@ == representable_u16(data@),
        samples.len() <= data.len(),
        (forall|k: int| 0 <= k < data@.len() ==> data@[k] <= i16::MAX as u16) ==> samples@ == data@.map_values(
            |sample: u16| sample as i16,
        ),
{
    let mut samples: Vec<i16> = Vec::new();
    let n = data.len();
    for i in 0..n
        invariant
            n == data@.len(),
            samples@ == representable_u16(data@.subrange(0, i as int)),
            samples.len() <= i,
    {
        let ghost before = data@.subrange(0, i as int);
        if let Some(value) = u16_to_i16(data[i]) {
            samples.push(value);
        }
        proof {
            let after = data@.subrange(0, i + 1);
            assert(after.drop_last() == before);
            assert(after.last() == data@[i as int]);
            assert(representable_u16(after) == after.filter_map(|sample: u16| u16_as_i16(sample)));
        }
    }
    proof {
        assert(data@.subrange(0, n as int) == data@);
        if forall|k: int| 0 <= k < data@.len() ==> data@[k] <= i16::MAX as u16 {
            lemma_representable_all_fit(data@);
        }
    }
    samples
}

/// A single sample is kept, as the same value, exactly when it fits in an
/// `i16`.
pub proof fn lemma_representable_single(sample: u16)
    ensures
        sample <= i16::MAX as u16 ==> representable_u16(seq![sample]) == seq![sample as i16],
        sample > i16::MAX as u16 ==> representable_u16(seq![sample]) == Seq::<i16>::empty(),
{
    reveal_with_fuel(Seq::filter_map, 2);
    assert(seq![sample].drop_last() =~= Seq::<u16>::empty());
    assert(seq![sample].last() == sample);
    assert(Seq::<i16>::empty() + seq![sample as i16] =~= seq![sample as i16]);
}

/// Each part of a buffer is converted on its own: converting two buffers
/// one after the other gives the same samples as converting them joined,
/// so whether a sample is kept never depends on its neighbours.
pub proof fn lemma_representable_concat(a: Seq<u16>, b: Seq<u16>)
    ensures
        representable_u16(a + b) == representable_u16(a) + representable_u16(b),
    decreases b.len(),
{
    if b.len() == 0 {
        assert(a + b =~= a);
        assert(representable_u16(a) + representable_u16(b) =~= representable_u16(a));
    } else {
        let ab = a + b;
        assert(ab.drop_last() =~= a + b.drop_last());
        assert(ab.last() == b.last());
        lemma_representable_concat(a, b.drop_last());
        match u16_as_i16(b.last()) {
            Some(v) => {
                assert(representable_u16(a) + representable_u16(b) =~= representable_u16(a)
                    + representable_u16(b.drop_last()) + seq![v]);
            },
            None => {
            },
        }
    }
}

/// When every sample fits in an `i16`, all of them are kept, in order,
/// with their values.
pub proof fn lemma_representable_all_fit(data: Seq<u16>)
    requires
        forall|k: int| 0 <= k < data.len() ==> data[k] <= i16::MAX as u16,
    ensures
        representable_u16(data) == data.map_values(|sample: u16| sample as i16),
        representable_u16(data).len() == data.len(),
    decreases data.len(),
{
    if data.len() == 0 {
        assert(data.map_values(|sample: u16| sample as i16) =~= Seq::<i16>::empty());
    } else {
        let rest = data.drop_last();
        assert forall|k: int| 0 <= k < rest.len() implies rest[k] <= i16::MAX as u16 by {
            assert(rest[k] == data[k]);
        }
        lemma_representable_all_fit(rest);
        assert(data.last() <= i16::MAX as u16);
        assert(data.map_values(|sample: u16| sample as i16) =~= rest.map_values(|sample: u16| sample as i16)
            + seq![data.last() as i16]);
    }
}

} // verus!
