//! Index generation for the on-screen shapes of the visual layer,
//! which consumes this engine's playback-time cursor.

use vstd::prelude::*;

verus! {

/// The vertex index written at slot `k` of a triangle-fan index
/// buffer: the center vertex `0` opens each triangle, followed by the
/// two rim vertices of that triangle's segment.
pub open spec fn fan_index(k: int) -> int {
    if k % 3 == 0 {
        0
    } else if k % 3 == 1 {
        k / 3 + 1
    } else {
        k / 3 + 2
    }
}

/// Indices for drawing an `n`-segment polygon as a triangle fan: one
/// triangle per segment, each sharing the center vertex `0` and
/// walking the rim through vertices `1 ..= n + 1`.
pub fn n_gon_index_buffer(n: u16) -> (indices: Vec<u16>)
    requires
        n as int + 2 <= u16::MAX as int,
    ensures
        indices@.len() == 3 * n,
        forall|k: int| 0 <= k < 3 * n ==> (#[trigger] indices@[k]) as int == fan_index(k),
{
    let mut indices: Vec<u16> = Vec::new();
    let mut i: u16 = 0;
    while i < n
        invariant
            i <= n,
            n as int + 2 <= u16::MAX as int,
            indices@.len() == 3 * i,
            forall|k: int| 0 <= k < 3 * i ==> (#[trigger] indices@[k]) as int == fan_index(k),
        decreases n - i,
    {
        indices.push(0);
        indices.push(i + 1);
        indices.push(i + 2);
        proof {
            let j = i as int;
            assert((3 * j) % 3 == 0 && (3 * j) / 3 == j);
            assert((3 * j + 1) % 3 == 1 && (3 * j + 1) / 3 == j);
            assert((3 * j + 2) % 3 == 2 && (3 * j + 2) / 3 == j);
        }
        i += 1;
    }
    indices
}

} // verus!
