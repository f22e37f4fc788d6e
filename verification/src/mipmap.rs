//! Sizing of a mip pyramid.

use vstd::prelude::*;
use vstd::arithmetic::power2::pow2;
use vstd::arithmetic::power2::lemma_pow2_unfold;
use vstd::arithmetic::power2::lemma2_to64;

verus! {

/// The extent of the next coarser mip level along one axis: half the extent,
/// rounded down, and never less than one texel.
pub open spec fn next_extent(x: nat) -> nat {
    if x / 2 < 1 {
        1
    } else {
        x / 2
    }
}

/// How many times an extent has to be halved until it is one texel. An extent
/// of zero is not one texel, so it takes one step to be clamped to one.
pub open spec fn halvings(x: nat) -> nat
    decreases x,
{
    if x == 1 {
        0
    } else if x == 0 {
        1
    } else {
        1 + halvings(x / 2)
    }
}

/// The larger of three counts.
pub open spec fn max3(a: nat, b: nat, c: nat) -> nat {
    if a >= b && a >= c {
        a
    } else if b >= c {
        b
    } else {
        c
    }
}

/// The number of mip levels of an image: the full-size level, and one more
/// for each halving that the slowest axis needs to reach one texel.
pub open spec fn required_mipmaps(width: nat, height: nat, depth: nat) -> nat {
    1 + max3(halvings(width), halvings(height), halvings(depth))
}

/// One halving step takes one off the count of every axis that is not yet at
/// one texel, and leaves an axis at one texel where it is.
pub proof fn lemma_halvings_step(x: nat)
    ensures
        x != 1 ==> halvings(x) == 1 + halvings(next_extent(x)),
        x == 1 ==> halvings(next_extent(x)) == 0 && halvings(x) == 0,
{
    reveal_with_fuel(halvings, 3);
}

/// An extent below `2^k` is at one texel after at most `k - 1` halvings; an
/// extent of zero or one takes at most one step.
pub proof fn lemma_halvings_bound(x: nat, k: nat)
    requires
        x < pow2(k),
    ensures
        halvings(x) <= if k <= 1 { 1 } else { k - 1 },
    decreases k,
{
    lemma2_to64();
    if x <= 1 {
    } else {
        assert(k >= 2) by {
            if k == 0 {
                assert(pow2(0) == 1);
            } else if k == 1 {
                assert(pow2(1) == 2);
            }
        }
        lemma_pow2_unfold(k);
        assert(x / 2 < pow2((k - 1) as nat));
        lemma_halvings_bound(x / 2, (k - 1) as nat);
        if k == 2 {
            assert(pow2(1) == 2);
            assert(x / 2 == 1);
        }
    }
}

/// A larger extent never needs fewer halvings, as long as the smaller one is
/// at least one texel.
pub proof fn lemma_halvings_monotonic(x: nat, y: nat)
    requires
        1 <= x <= y,
    ensures
        halvings(x) <= halvings(y),
    decreases y,
{
    if x == 1 {
    } else {
        assert(1 <= x / 2 <= y / 2);
        lemma_halvings_monotonic(x / 2, y / 2);
    }
}

/// The mip count never goes down when an image of at least one texel along
/// every axis grows along any of its axes.
pub proof fn lemma_required_mipmaps_monotonic(
    w1: nat,
    h1: nat,
    d1: nat,
    w2: nat,
    h2: nat,
    d2: nat,
)
    requires
        1 <= w1 <= w2,
        1 <= h1 <= h2,
        1 <= d1 <= d2,
    ensures
        required_mipmaps(w1, h1, d1) <= required_mipmaps(w2, h2, d2),
{
    lemma_halvings_monotonic(w1, w2);
    lemma_halvings_monotonic(h1, h2);
    lemma_halvings_monotonic(d1, d2);
}

/// An image of one texel has one level, and every image has at least one.
pub proof fn lemma_required_mipmaps_least(width: nat, height: nat, depth: nat)
    ensures
        required_mipmaps(width, height, depth) >= 1,
        required_mipmaps(width, height, depth) == 1 <==> width == 1 && height == 1 && depth == 1,
{
    reveal_with_fuel(halvings, 2);
}

/// Counts the mip levels of an image of the given extents.
pub fn get_image_required_mipmaps(width: u32, height: u32, depth: u32) -> (mipmaps: u32)
    ensures
        mipmaps == required_mipmaps(width as nat, height as nat, depth as nat),
        1 <= mipmaps <= 32,
{
    let mut w: u32 = width;
    let mut h: u32 = height;
    let mut d: u32 = depth;
    let mut mipmaps: u32 = 1;
    proof {
        lemma2_to64();
        lemma_halvings_bound(width as nat, 32);
        lemma_halvings_bound(height as nat, 32);
        lemma_halvings_bound(depth as nat, 32);
    }
    loop
        invariant
            mipmaps >= 1,
            mipmaps + max3(halvings(w as nat), halvings(h as nat), halvings(d as nat))
                == required_mipmaps(width as nat, height as nat, depth as nat),
            required_mipmaps(width as nat, height as nat, depth as nat) <= 32,
        ensures
            mipmaps == required_mipmaps(width as nat, height as nat, depth as nat),
        decreases max3(halvings(w as nat), halvings(h as nat), halvings(d as nat)),
    {
        if w == 1 && h == 1 && d == 1 {
            proof {
                reveal_with_fuel(halvings, 2);
            }
            break ;
        }
        proof {
            lemma_halvings_step(w as nat);
            lemma_halvings_step(h as nat);
            lemma_halvings_step(d as nat);
        }
        w = coarser(w);
        h = coarser(h);
        d = coarser(d);
        mipmaps = mipmaps + 1;
    }
    mipmaps
}

/// The extent of the next coarser level along one axis.
fn coarser(x: u32) -> (r: u32)
    ensures
        r == next_extent(x as nat),
{
    assert(x >> 1 == x / 2) by (bit_vector);
    let half: u32 = x >> 1;
    if half < 1 {
        1
    } else {
        half
    }
}

} // verus!
