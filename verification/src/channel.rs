//! Channel adaptation between a file's channel layout and the output
//! device's: mono-to-stereo duplication and stereo-to-mono averaging.
//! No other channel-count reconciliation is supported.

use vstd::prelude::*;

verus! {

/// The stereo interleaving of a mono sequence: each sample duplicated
/// into two adjacent slots (identical left and right).
pub open spec fn upmixed(mono: Seq<i32>) -> Seq<i32> {
    Seq::new(mono.len() * 2, |i: int| mono[i / 2])
}

/// The average of two fixed-point samples, truncated toward zero, as
/// the stereo-to-mono downmix computes it.
pub open spec fn mixed_pair(a: int, b: int) -> int {
    if a + b >= 0 {
        (a + b) / 2
    } else {
        -((-(a + b)) / 2)
    }
}

/// The mono downmix of an interleaved stereo sequence: each adjacent
/// pair averaged into one sample. A trailing unpaired sample is
/// dropped, as the pairwise walk never reaches it.
pub open spec fn downmixed(stereo: Seq<i32>) -> Seq<i32> {
    Seq::new((stereo.len() / 2) as nat, |i: int| (mixed_pair(stereo[2 * i] as int, stereo[2 * i + 1] as int)) as i32)
}

/// Duplicate each mono sample into two adjacent output slots,
/// producing interleaved stereo.
pub fn upmix_mono_to_stereo(mono: &Vec<i32>) -> (stereo: Vec<i32>)
    ensures
        stereo@ == upmixed(mono@),
{
    let n: usize = mono.len();
    let mut stereo: Vec<i32> = Vec::new();
    let mut i: usize = 0;
    while i < n
        invariant
            i <= n,
            n == mono@.len(),
            stereo@.len() == 2 * i,
            forall|j: int| 0 <= j < 2 * i ==> stereo@[j] == mono@[j / 2],
        decreases n - i,
    {
        let s: i32 = mono[i];
        stereo.push(s);
        stereo.push(s);
        proof {
            assert((2 * i as int) / 2 == i as int);
            assert((2 * i as int + 1) / 2 == i as int);
        }
        i += 1;
    }
    proof {
        assert(stereo@ =~= upmixed(mono@));
    }
    stereo
}

/// Average each adjacent pair of an interleaved stereo sequence into
/// one mono sample, consuming the stereo buffer.
pub fn downmix_stereo_to_mono(stereo: Vec<i32>) -> (mono: Vec<i32>)
    ensures
        mono@ == downmixed(stereo@),
{
    let n: usize = stereo.len() / 2;
    proof {
        vstd::arithmetic::div_mod::lemma_fundamental_div_mod(stereo@.len() as int, 2);
    }
    let mut mono: Vec<i32> = Vec::new();
    let mut i: usize = 0;
    while i < n
        invariant
            i <= n,
            n == stereo@.len() / 2,
            stereo@.len() <= usize::MAX,
            2 * n <= stereo@.len(),
            mono@.len() == i,
            forall|j: int| 0 <= j < i ==> mono@[j] as int == mixed_pair(
                stereo@[2 * j] as int,
                stereo@[2 * j + 1] as int,
            ),
        decreases n - i,
    {
        let left: i32 = stereo[i * 2];
        let right: i32 = stereo[i * 2 + 1];
        let sum: i64 = left as i64 + right as i64;
        let avg: i64 = if sum >= 0 {
            sum / 2
        } else {
            -((-sum) / 2)
        };
        assert(avg == mixed_pair(left as int, right as int));
        assert(i32::MIN <= avg <= i32::MAX);
        mono.push(avg as i32);
        i += 1;
    }
    proof {
        assert(mono@ =~= downmixed(stereo@));
    }
    mono
}

/// Whether the supported adaptation rules can reconcile a file's
/// channel count with the device's: equal counts pass through
/// unchanged, and only mono-to-stereo and stereo-to-mono are
/// converted. No general remixing is supported.
pub open spec fn channels_compatible(file_channels: int, device_channels: int) -> bool {
    file_channels == device_channels || (file_channels == 1 && device_channels == 2) || (
    file_channels == 2 && device_channels == 1)
}

/// The adapted sample sequence for a compatible pair of channel
/// counts.
pub open spec fn adapted(samples: Seq<i32>, file_channels: int, device_channels: int) -> Seq<
    i32,
> {
    if file_channels == 1 && device_channels == 2 {
        upmixed(samples)
    } else if file_channels == 2 && device_channels == 1 {
        downmixed(samples)
    } else {
        samples
    }
}

/// Channel adaptation round trip: downmixing the upmix of any mono
/// sequence reproduces it exactly. Each upmixed stereo pair holds two
/// equal samples, and the truncated average of two equal values is the
/// value itself.
pub proof fn lemma_upmix_downmix_round_trip(mono: Seq<i32>)
    ensures
        downmixed(upmixed(mono)) == mono,
{
    let up = upmixed(mono);
    assert(downmixed(up).len() == mono.len());
    assert forall|i: int| 0 <= i < mono.len() implies downmixed(up)[i] == mono[i] by {
        assert((2 * i) / 2 == i);
        assert((2 * i + 1) / 2 == i);
        assert(up[2 * i] == mono[i]);
        assert(up[2 * i + 1] == mono[i]);
        let a = mono[i] as int;
        assert(a + a == 2 * a);
        vstd::arithmetic::div_mod::lemma_div_multiples_vanish(a, 2);
        vstd::arithmetic::div_mod::lemma_div_multiples_vanish(-a, 2);
        assert(mixed_pair(a, a) == a);
    }
    assert(downmixed(upmixed(mono)) =~= mono);
}

} // verus!
