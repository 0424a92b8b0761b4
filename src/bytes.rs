//! Little-endian integer encodings, byte for byte.
use vstd::prelude::*;

verus! {

/// The value of a little-endian byte string.
pub open spec fn le_value(s: Seq<u8>) -> nat
    decreases s.len(),
{
    if s.len() == 0 {
        0
    } else {
        s[0] as nat + 256 * le_value(s.drop_first())
    }
}

/// The `n` low bytes of `v`, least significant first.
pub open spec fn le_bytes(v: nat, n: nat) -> Seq<u8>
    decreases n,
{
    if n == 0 {
        Seq::empty()
    } else {
        seq![(v % 256) as u8] + le_bytes(v / 256, (n - 1) as nat)
    }
}

/// The unsigned 64-bit value that holds the bits of `v`.
pub open spec fn i64_bits(v: i64) -> nat {
    if v >= 0 {
        v as nat
    } else {
        (v + 0x1_0000_0000_0000_0000) as nat
    }
}

/// The signed 64-bit value whose bits are `u`.
pub open spec fn i64_of_bits(u: nat) -> int {
    if u < 0x8000_0000_0000_0000 {
        u as int
    } else {
        u - 0x1_0000_0000_0000_0000
    }
}

pub open spec fn pow256(n: nat) -> nat
    decreases n,
{
    if n == 0 {
        1
    } else {
        256 * pow256((n - 1) as nat)
    }
}

pub proof fn lemma_le_bytes_len(v: nat, n: nat)
    ensures
        le_bytes(v, n).len() == n,
    decreases n,
{
    if n > 0 {
        lemma_le_bytes_len(v / 256, (n - 1) as nat);
    }
}

/// Reading back the `n` low bytes of a value below `256^n` gives the value.
pub proof fn lemma_le_round_trip(v: nat, n: nat)
    requires
        v < pow256(n),
    ensures
        le_value(le_bytes(v, n)) == v,
    decreases n,
{
    if n > 0 {
        let rest = le_bytes(v / 256, (n - 1) as nat);
        assert(v / 256 < pow256((n - 1) as nat)) by (nonlinear_arith)
            requires
                v < 256 * pow256((n - 1) as nat),
        ;
        lemma_le_round_trip(v / 256, (n - 1) as nat);
        let s = le_bytes(v, n);
        assert(s.drop_first() =~= rest);
        assert(v == (v % 256) + 256 * (v / 256)) by (nonlinear_arith);
    }
}

/// A byte string of length `n` has a value below `256^n`.
pub proof fn lemma_le_value_bound(s: Seq<u8>)
    ensures
        le_value(s) < pow256(s.len()),
    decreases s.len(),
{
    if s.len() > 0 {
        lemma_le_value_bound(s.drop_first());
        let a = s[0] as nat;
        let b = le_value(s.drop_first());
        let p = pow256((s.len() - 1) as nat);
        assert(a + 256 * b < 256 * p) by (nonlinear_arith)
            requires
                a < 256,
                b < p,
        ;
    }
}

/// `le_value` of a string extended by one more significant byte.
pub proof fn lemma_le_value_push_front(b: u8, s: Seq<u8>)
    ensures
        le_value(seq![b] + s) == b as nat + 256 * le_value(s),
{
    assert((seq![b] + s).drop_first() =~= s);
}

/// Reads the unsigned integer stored little-endian in `data[off .. off + n]`.
pub fn read_le(data: &[u8], off: usize, n: usize) -> (r: u64)
    requires
        n <= 8,
        off + n <= data@.len(),
    ensures
        r as nat == le_value(data@.subrange(off as int, off + n)),
{
    let len = data.len();
    let mut acc: u64 = 0;
    let mut i: usize = n;
    proof {
        assert(data@.subrange((off + n) as int, (off + n) as int) =~= Seq::<u8>::empty());
        assert(pow256(0) == 1);
    }
    while i > 0
        invariant
            i <= n,
            n <= 8,
            off + n <= data@.len(),
            len == data@.len(),
            acc as nat == le_value(data@.subrange(off + i, off + n)),
            (acc as nat) < pow256((n - i) as nat),
        decreases i,
    {
        let b = data[off + (i - 1)];
        let ghost tail = data@.subrange(off + i, off + n);
        proof {
            assert(data@.subrange(off + i - 1, off + n) =~= seq![b] + tail);
            lemma_le_value_push_front(b, tail);
            lemma_pow256_le8((n - i) as nat);
            let k = (n - i) as nat;
            assert(pow256(k + 1) == 256 * pow256(k));
            assert((b as nat) + 256 * (acc as nat) < 256 * pow256(k)) by (nonlinear_arith)
                requires
                    (acc as nat) < pow256(k),
                    (b as nat) < 256,
            ;
        }
        acc = (b as u64) + 256 * acc;
        i = i - 1;
    }
    acc
}

pub proof fn lemma_pow256_le8(k: nat)
    requires
        k < 8,
    ensures
        256 * pow256(k) <= 0x1_0000_0000_0000_0000,
{
    reveal_with_fuel(pow256, 9);
    assert(pow256(8) == 0x1_0000_0000_0000_0000);
    lemma_pow256_mono(k + 1, 8);
}

pub proof fn lemma_pow256_mono(a: nat, b: nat)
    requires
        a <= b,
    ensures
        pow256(a) <= pow256(b),
    decreases b,
{
    if a < b {
        lemma_pow256_mono(a, (b - 1) as nat);
    }
}

/// Appends the `n` low bytes of `v` to `out`, least significant first.
pub fn push_le(out: &mut Vec<u8>, v: u64, n: usize)
    ensures
        final(out)@ == old(out)@ + le_bytes(v as nat, n as nat),
{
    let mut x: u64 = v;
    let mut i: usize = 0;
    let ghost start = out@;
    while i < n
        invariant
            i <= n,
            start + le_bytes(v as nat, n as nat) == out@ + le_bytes(x as nat, (n - i) as nat),
        decreases n - i,
    {
        let ghost before = out@;
        proof {
            let k = (n - i) as nat;
            assert(le_bytes(x as nat, k) == seq![(x as nat % 256) as u8] + le_bytes(x as nat / 256, (k - 1) as nat));
        }
        out.push((x % 256) as u8);
        proof {
            assert(before + le_bytes(x as nat, (n - i) as nat) =~= out@ + le_bytes(x as nat / 256, (n - i - 1) as nat));
        }
        x = x / 256;
        i = i + 1;
    }
    proof {
        assert(out@ + le_bytes(x as nat, 0) =~= out@);
    }
}

} // verus!
