//! In-place reordering of a pixel buffer from BGRA to RGBA channel order.
//!
//! A pixel is four bytes. Going from BGRA to RGBA swaps the first and third
//! byte of each pixel and leaves the second and fourth in place. The
//! reordering touches every complete four-byte pixel of the buffer — also
//! the pixels of a trailing window shorter than sixteen bytes — and leaves
//! any one to three bytes after the last complete pixel untouched.

use vstd::prelude::*;

verus! {

/// The position whose byte lands at position `i` when blue and red are
/// swapped within each four-byte pixel group.
pub open spec fn swapped_index(i: int) -> int {
    if i % 4 == 0 {
        i + 2
    } else if i % 4 == 2 {
        i - 2
    } else {
        i
    }
}

/// Whether position `i` lies inside a complete four-byte pixel group of a
/// buffer of length `len`.
pub open spec fn in_complete_pixel(i: int, len: int) -> bool {
    i / 4 < len / 4
}

/// The buffer after the blue and red byte of every complete pixel are
/// swapped; bytes past the last complete pixel keep their value.
pub open spec fn rgba_of_bgra(s: Seq<u8>) -> Seq<u8> {
    Seq::new(
        s.len(),
        |i: int|
            if in_complete_pixel(i, s.len() as int) {
                s[swapped_index(i)]
            } else {
                s[i]
            },
    )
}

/// Within a complete pixel, the swapped position stays in the same group
/// and in range.
proof fn lemma_swapped_index_in_group(i: int, len: int)
    requires
        0 <= i < len,
        in_complete_pixel(i, len),
    ensures
        swapped_index(i) / 4 == i / 4,
        swapped_index(i) % 4 == if i % 4 == 0 { 2int } else if i % 4 == 2 { 0int } else { i % 4 },
        0 <= swapped_index(i) < len,
        in_complete_pixel(swapped_index(i), len),
        swapped_index(swapped_index(i)) == i,
{
    let q = i / 4;
    let r = i % 4;
    vstd::arithmetic::div_mod::lemma_fundamental_div_mod(i, 4);
    assert(i == 4 * q + r);
    let j = swapped_index(i);
    if r == 0 {
        vstd::arithmetic::div_mod::lemma_fundamental_div_mod_converse(j, 4, q, 2);
    } else if r == 2 {
        vstd::arithmetic::div_mod::lemma_fundamental_div_mod_converse(j, 4, q, 0);
    } else {
        vstd::arithmetic::div_mod::lemma_fundamental_div_mod_converse(j, 4, q, r);
    }
    assert(j / 4 == q && 0 <= j % 4 < 4);
    vstd::arithmetic::div_mod::lemma_fundamental_div_mod(len, 4);
    assert(4 * (len / 4) <= len);
    assert(j < len);
}

/// Law: the channel reordering is an involution — applying the blue–red
/// swap twice returns any buffer, of any length, to its original contents.
pub proof fn lemma_rgba_of_bgra_involution(s: Seq<u8>)
    ensures
        rgba_of_bgra(rgba_of_bgra(s)) == s,
{
    let t = rgba_of_bgra(s);
    let n = s.len() as int;
    assert forall|i: int| 0 <= i < n implies rgba_of_bgra(t)[i] == s[i] by {
        if in_complete_pixel(i, n) {
            lemma_swapped_index_in_group(i, n);
            lemma_swapped_index_in_group(swapped_index(i), n);
        }
    }
    assert(rgba_of_bgra(t) =~= s);
}

/// Reorders a pixel buffer from BGRA to RGBA channel order in place.
///
/// Every complete four-byte pixel is reordered, including the pixels of a
/// trailing window shorter than sixteen bytes; any bytes after the last
/// complete pixel are left as they are. The buffer's length never changes.
pub fn bgra_to_rgba(data: &mut Vec<u8>)
    ensures
        final(data)@.len() == old(data)@.len(),
        final(data)@ == rgba_of_bgra(old(data)@),
{
    let n: usize = data.len();
    let pixel_count: usize = n / 4;
    proof {
        vstd::arithmetic::div_mod::lemma_fundamental_div_mod(n as int, 4);
    }
    let mut p: usize = 0;
    while p < pixel_count
        invariant
            data@.len() == n,
            n == old(data)@.len(),
            pixel_count == n as int / 4,
            4 * pixel_count <= n,
            p <= pixel_count,
            forall|i: int| 0 <= i < 4 * p ==> data@[i] == rgba_of_bgra(old(data)@)[i],
            forall|i: int| 4 * p <= i < n ==> data@[i] == old(data)@[i],
        decreases pixel_count - p,
    {
        let base: usize = 4 * p;
        let blue = data[base];
        let red = data[base + 2];
        data.set(base, red);
        data.set(base + 2, blue);
        proof {
            let target = rgba_of_bgra(old(data)@);
            assert forall|i: int| 0 <= i < 4 * (p + 1) implies data@[i] == target[i] by {
                if 4 * p <= i {
                    vstd::arithmetic::div_mod::lemma_fundamental_div_mod_converse(
                        i,
                        4,
                        p as int,
                        i - 4 * p,
                    );
                    lemma_swapped_index_in_group(i, n as int);
                }
            }
        }
        p = p + 1;
    }
    proof {
        assert forall|i: int| 4 * pixel_count <= i < n implies !in_complete_pixel(
            i,
            n as int,
        ) by {
            vstd::arithmetic::div_mod::lemma_div_is_ordered(4 * pixel_count, i, 4);
            vstd::arithmetic::div_mod::lemma_div_by_multiple(pixel_count as int, 4);
        }
        assert(data@ =~= rgba_of_bgra(old(data)@));
    }
}

} // verus!
