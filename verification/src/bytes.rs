//! Byte-buffer helpers shared by the machines: block copies, fills and the
//! 16KB half swap used by Wenquxing ROM/NOR dumps.

use vstd::prelude::*;

verus! {

/// `d` with the bytes of `s` placed at offset `off`.
pub open spec fn splice(d: Seq<u8>, off: int, s: Seq<u8>) -> Seq<u8> {
    Seq::new(d.len(), |k: int| if off <= k < off + s.len() { s[k - off] } else { d[k] })
}

/// A run of `n` copies of `v`.
pub open spec fn run(n: nat, v: u8) -> Seq<u8> {
    Seq::new(n, |k: int| v)
}

/// Copy `n` bytes from `src[src_off..]` into `dst[dst_off..]`.
pub fn copy_into(dst: &mut Vec<u8>, dst_off: usize, src: &[u8], src_off: usize, n: usize)
    requires
        dst_off + n <= old(dst)@.len(),
        src_off + n <= src@.len(),
    ensures
        final(dst)@ == splice(old(dst)@, dst_off as int, src@.subrange(src_off as int, src_off + n)),
{
    let dl = dst.len();
    let sl = src.len();
    let mut i: usize = 0;
    while i < n
        invariant
            dl == dst@.len(),
            sl == src@.len(),
            dst_off + n <= dst@.len(),
            dst@.len() == old(dst)@.len(),
            src_off + n <= src@.len(),
            i <= n,
            forall|k: int| 0 <= k < dst@.len() && !(dst_off <= k < dst_off + i) ==> dst@[k] == old(dst)@[k],
            forall|k: int| dst_off <= k < dst_off + i ==> dst@[k] == src@[src_off + k - dst_off],
        decreases n - i,
    {
        dst[dst_off + i] = src[src_off + i];
        i += 1;
    }
    assert(dst@ =~= splice(old(dst)@, dst_off as int, src@.subrange(src_off as int, src_off + n)));
}

/// Copy `n` bytes inside `v` from `src` to a non-overlapping `dst`.
pub fn copy_within(v: &mut Vec<u8>, src: usize, dst: usize, n: usize)
    requires
        src + n <= old(v)@.len(),
        dst + n <= old(v)@.len(),
        src + n <= dst || dst + n <= src,
    ensures
        final(v)@ == splice(old(v)@, dst as int, old(v)@.subrange(src as int, src + n)),
{
    let vl = v.len();
    let mut i: usize = 0;
    while i < n
        invariant
            vl == v@.len(),
            src + n <= v@.len(),
            dst + n <= v@.len(),
            src + n <= dst || dst + n <= src,
            v@.len() == old(v)@.len(),
            i <= n,
            forall|k: int| 0 <= k < v@.len() && !(dst <= k < dst + i) ==> v@[k] == old(v)@[k],
            forall|k: int| dst <= k < dst + i ==> v@[k] == old(v)@[src + k - dst],
        decreases n - i,
    {
        let b = v[src + i];
        v[dst + i] = b;
        i += 1;
    }
    assert(v@ =~= splice(old(v)@, dst as int, old(v)@.subrange(src as int, src + n)));
}

/// Set `n` bytes of `v` starting at `off` to `value`.
pub fn fill_range(v: &mut Vec<u8>, off: usize, n: usize, value: u8)
    requires
        off + n <= old(v)@.len(),
    ensures
        final(v)@ == splice(old(v)@, off as int, run(n as nat, value)),
{
    let vl = v.len();
    let mut i: usize = 0;
    while i < n
        invariant
            vl == v@.len(),
            off + n <= v@.len(),
            v@.len() == old(v)@.len(),
            i <= n,
            forall|k: int| 0 <= k < v@.len() && !(off <= k < off + i) ==> v@[k] == old(v)@[k],
            forall|k: int| off <= k < off + i ==> v@[k] == value,
        decreases n - i,
    {
        v[off + i] = value;
        i += 1;
    }
    assert(v@ =~= splice(old(v)@, off as int, run(n as nat, value)));
}

/// Set every byte of `v` to `value`.
pub fn fill_all(v: &mut Vec<u8>, value: u8)
    ensures
        final(v)@ == run(old(v)@.len(), value),
{
    let n = v.len();
    fill_range(v, 0, n, value);
    assert(v@ =~= run(old(v)@.len(), value));
}

/// Swap the two 16KB halves of every complete 32KB bank; bytes past the
/// last complete bank are kept.
pub open spec fn half_swap(d: Seq<u8>) -> Seq<u8> {
    Seq::new(
        d.len(),
        |k: int|
            if k < (d.len() / 0x8000) * 0x8000 {
                if k % 0x8000 < 0x4000 { d[k + 0x4000] } else { d[k - 0x4000] }
            } else {
                d[k]
            },
    )
}

/// The half swap undoes itself.
pub proof fn law_half_swap_involution(d: Seq<u8>)
    ensures
        half_swap(half_swap(d)) == d,
{
    let n = (d.len() / 0x8000) * 0x8000;
    let s = half_swap(d);
    assert forall|k: int| 0 <= k < d.len() implies #[trigger] half_swap(s)[k] == d[k] by {
        if k < n {
            if k % 0x8000 < 0x4000 {
                assert((k + 0x4000) % 0x8000 >= 0x4000 && k + 0x4000 < n) by (nonlinear_arith)
                    requires
                        0 <= k < n,
                        k % 0x8000 < 0x4000,
                        n == (d.len() / 0x8000) * 0x8000,
                ;
            } else {
                assert((k - 0x4000) % 0x8000 < 0x4000 && k - 0x4000 >= 0) by (nonlinear_arith)
                    requires
                        0 <= k < n,
                        k % 0x8000 >= 0x4000,
                ;
            }
        }
    }
    assert(half_swap(s) =~= d);
}

/// Swap the 16KB halves of each complete 32KB bank of `data` into a new
/// buffer.
pub fn swap_halves(data: &[u8]) -> (r: Vec<u8>)
    ensures
        r@ == half_swap(data@),
{
    let n = data.len();
    let full = (n / 0x8000) * 0x8000;
    let mut out: Vec<u8> = Vec::with_capacity(n);
    let mut k: usize = 0;
    while k < n
        invariant
            n == data@.len(),
            full == (n / 0x8000) * 0x8000,
            k <= n,
            out@ == half_swap(data@).subrange(0, k as int),
        decreases n - k,
    {
        let b = if k < full {
            if k % 0x8000 < 0x4000 {
                proof {
                    assert(k + 0x4000 < full) by (nonlinear_arith)
                        requires
                            k < full,
                            k % 0x8000 < 0x4000,
                            full == (n / 0x8000) * 0x8000,
                    ;
                }
                data[k + 0x4000]
            } else {
                data[k - 0x4000]
            }
        } else {
            data[k]
        };
        out.push(b);
        proof {
            assert(out@ =~= half_swap(data@).subrange(0, k + 1));
        }
        k += 1;
    }
    assert(out@ =~= half_swap(data@));
    out
}

/// An array of `N` copies of `v`.
pub fn filled<const N: usize>(v: u8) -> (r: [u8; N])
    ensures
        r@ == Seq::new(N as nat, |i: int| v),
{
    let mut r = [v; N];
    let mut i: usize = 0;
    while i < N
        invariant
            i <= N,
            r@.len() == N,
            forall|k: int| 0 <= k < i ==> r@[k] == v,
        decreases N - i,
    {
        r[i] = v;
        i += 1;
    }
    proof {
        assert(r@ =~= Seq::new(N as nat, |i: int| v));
    }
    r
}

} // verus!
