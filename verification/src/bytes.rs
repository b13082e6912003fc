//! Little-endian byte encoding of fixed-width integers, the shared ground
//! of the memory view engine: every typed element of a view is read and
//! written through these two functions.

use vstd::prelude::*;

verus! {

/// 256 to the `n`th power: the number of values `n` bytes can hold.
pub open spec fn pow256(n: nat) -> nat
    decreases n,
{
    if n == 0 {
        1
    } else {
        256 * pow256((n - 1) as nat)
    }
}

/// The value of a byte sequence read little-endian: the first byte is the
/// least significant.
pub open spec fn le_val(bs: Seq<u8>) -> nat
    decreases bs.len(),
{
    if bs.len() == 0 {
        0
    } else {
        bs[0] as nat + 256 * le_val(bs.drop_first())
    }
}

/// A sequence of `n` bytes holds a value below `pow256(n)`.
pub proof fn lemma_le_val_bound(bs: Seq<u8>)
    ensures
        le_val(bs) < pow256(bs.len()),
    decreases bs.len(),
{
    if bs.len() > 0 {
        lemma_le_val_bound(bs.drop_first());
    }
}

/// `pow256` grows monotonically.
pub proof fn lemma_pow256_increases(m: nat, n: nat)
    requires
        m <= n,
    ensures
        pow256(m) <= pow256(n),
    decreases n,
{
    if m < n && n > 0 {
        lemma_pow256_increases(m, (n - 1) as nat);
    }
}

/// Appending a byte at the most significant end adds its value scaled by
/// the length of what came before.
pub proof fn lemma_le_val_snoc(bs: Seq<u8>, b: u8)
    ensures
        le_val(bs.push(b)) == le_val(bs) + pow256(bs.len()) * b,
    decreases bs.len(),
{
    if bs.len() == 0 {
        assert(bs.push(b).drop_first() =~= Seq::<u8>::empty());
        assert(bs.push(b)[0] == b);
        assert(le_val(Seq::<u8>::empty()) == 0);
        assert(le_val(bs.push(b)) == b as nat + 256 * le_val(bs.push(b).drop_first()));
        assert(le_val(bs) == 0);
        assert(pow256(0) * (b as nat) == b) by (nonlinear_arith)
            requires
                pow256(0) == 1,
        ;
        assert(le_val(bs.push(b)) == le_val(bs) + pow256(bs.len()) * b);
    } else {
        let s = bs.push(b);
        let tail = bs.drop_first();
        assert(s.drop_first() =~= tail.push(b));
        assert(s[0] == bs[0]);
        lemma_le_val_snoc(tail, b);
        assert(le_val(s) == bs[0] as nat + 256 * (le_val(tail) + pow256(tail.len()) * b));
        assert(tail.len() == bs.len() - 1);
        assert(pow256(bs.len()) * b == 256 * (pow256((bs.len() - 1) as nat) * b))
            by (nonlinear_arith)
            requires
                bs.len() >= 1,
                pow256(bs.len()) == 256 * pow256((bs.len() - 1) as nat),
        ;
        assert(le_val(s) == (bs[0] as nat + 256 * le_val(tail)) + pow256(bs.len()) * b);
    }
}

/// Reads `width` bytes at `addr` as a little-endian unsigned integer.
pub fn read_le(data: &Vec<u8>, addr: usize, width: usize) -> (r: u64)
    requires
        1 <= width <= 8,
        addr + width <= data@.len(),
    ensures
        r == le_val(data@.subrange(addr as int, addr + width)),
        r < pow256(width as nat),
{
    let byte_len = data.len();
    let mut acc: u64 = 0;
    let mut i: usize = width;
    proof {
        assert(data@.subrange(addr + width, addr + width) =~= Seq::empty());
    }
    while i > 0
        invariant
            i <= width <= 8,
            addr + width <= byte_len,
            byte_len == data@.len(),
            acc == le_val(data@.subrange(addr + i, addr + width)),
            acc < pow256((width - i) as nat),
        decreases i,
    {
        i = i - 1;
        let b = data[addr + i];
        proof {
            let s = data@.subrange(addr + i, addr + width);
            assert(s.drop_first() =~= data@.subrange(addr + i + 1, addr + width));
            assert(s[0] == data@[addr + i]);
            lemma_pow256_increases((width - i - 1) as nat, 7);
            reveal_with_fuel(pow256, 9);
            assert(pow256(7) == 0x100_0000_0000_0000);
        }
        acc = b as u64 + 256 * acc;
        proof {
            assert(acc < pow256((width - i) as nat)) by {
                assert(pow256((width - i) as nat) == 256 * pow256((width - i - 1) as nat));
            };
        }
    }
    proof {
        lemma_pow256_increases((width - i) as nat, width as nat);
    }
    acc
}

/// Writes `value` at `addr` as `width` little-endian bytes, leaving every
/// other byte unchanged.
pub fn write_le(data: &mut Vec<u8>, addr: usize, width: usize, value: u64)
    requires
        1 <= width <= 8,
        addr + width <= old(data)@.len(),
        value < pow256(width as nat),
    ensures
        final(data)@.len() == old(data)@.len(),
        forall|k: int|
            0 <= k < old(data)@.len() && !(addr <= k < addr + width) ==> final(data)@[k] == old(
                data,
            )@[k],
        le_val(final(data)@.subrange(addr as int, addr + width)) == value,
{
    let byte_len = data.len();
    let mut v: u64 = value;
    let mut i: usize = 0;
    proof {
        assert(data@.subrange(addr as int, addr as int) =~= Seq::empty());
        assert(pow256(0) * (v as nat) == v) by (nonlinear_arith)
            requires
                pow256(0) == 1,
        ;
    }
    while i < width
        invariant
            i <= width <= 8,
            addr + width <= byte_len,
            byte_len == old(data)@.len(),
            data@.len() == old(data)@.len(),
            forall|k: int|
                0 <= k < data@.len() && !(addr <= k < addr + i) ==> data@[k] == old(data)@[k],
            le_val(data@.subrange(addr as int, addr + i)) + pow256(i as nat) * v == value,
            v < pow256((width - i) as nat),
        decreases width - i,
    {
        let b: u8 = (v % 256) as u8;
        let ghost pre = data@;
        data.set(addr + i, b);
        let ghost quotient = v / 256;
        proof {
            let prefix = pre.subrange(addr as int, addr + i);
            let extended = data@.subrange(addr as int, addr + i + 1);
            assert(extended =~= prefix.push(b));
            lemma_le_val_snoc(prefix, b);
            assert(pow256(i as nat) * b + pow256((i + 1) as nat) * quotient == pow256(i as nat)
                * v)
                by (nonlinear_arith)
                requires
                    b == v % 256,
                    quotient == v / 256,
                    pow256((i + 1) as nat) == 256 * pow256(i as nat),
            ;
            assert(quotient < pow256((width - i - 1) as nat)) by (nonlinear_arith)
                requires
                    v < pow256((width - i) as nat),
                    quotient == v / 256,
                    pow256((width - i) as nat) == 256 * pow256((width - i - 1) as nat),
            ;
        }
        v = v / 256;
        i = i + 1;
    }
    proof {
        assert(pow256(0) == 1);
        assert(v == 0);
        assert(pow256(i as nat) * 0 == 0) by (nonlinear_arith);
    }
}

} // verus!
