//! How parameter data is laid out in a parameter's buffer: integers in
//! little-endian two's complement, strings as C strings.
use vstd::prelude::*;

verus! {

/// 256 to the power `n`: the number of values that `n` bytes can hold.
pub open spec fn pow256(n: nat) -> nat
    decreases n,
{
    if n == 0 {
        1
    } else {
        256 * pow256((n - 1) as nat)
    }
}

/// The unsigned value of a little-endian byte string.
pub open spec fn le_value(s: Seq<u8>) -> nat
    decreases s.len(),
{
    if s.len() == 0 {
        0
    } else {
        s[0] as nat + 256 * le_value(s.drop_first())
    }
}

/// The `n` lowest bytes of `v`, least significant first.
pub open spec fn le_encode(v: nat, n: nat) -> Seq<u8>
    decreases n,
{
    if n == 0 {
        Seq::empty()
    } else {
        seq![(v % 256) as u8] + le_encode(v / 256, (n - 1) as nat)
    }
}

/// The signed value that `n` bytes holding the unsigned value `u` stand for
/// in two's complement.
pub open spec fn signed_of(u: nat, n: nat) -> int {
    if n > 0 && u >= pow256(n) / 2 {
        u - pow256(n)
    } else {
        u as int
    }
}

/// The unsigned value of the `n`-byte two's complement form of `v`.
pub open spec fn twos_complement(v: int, n: nat) -> nat {
    if v >= 0 {
        v as nat
    } else {
        (v + pow256(n)) as nat
    }
}

/// Whether `v` fits in `n` bytes as a signed integer.
pub open spec fn fits_signed(v: int, n: nat) -> bool {
    -(pow256(n) / 2) as int <= v < (pow256(n) / 2) as int
}

/// Whether `v` fits in `n` bytes as an unsigned integer.
pub open spec fn fits_unsigned(v: int, n: nat) -> bool {
    0 <= v < pow256(n)
}

/// The bytes of a C string stored at the start of `s`: everything before the
/// first NUL byte, or all of `s` when it holds none.
pub open spec fn cstr_prefix(s: Seq<u8>) -> Seq<u8>
    decreases s.len(),
{
    if s.len() == 0 {
        s
    } else if s[0] == 0 {
        Seq::empty()
    } else {
        seq![s[0]] + cstr_prefix(s.drop_first())
    }
}

/// `pow256` grows by a factor of 256 per byte and is positive.
pub proof fn lemma_pow256_step(n: nat)
    ensures
        pow256(n) >= 1,
        pow256(n + 1) == 256 * pow256(n),
    decreases n,
{
    if n > 0 {
        lemma_pow256_step((n - 1) as nat);
    }
}

/// The values of `pow256` up to 8 bytes.
pub proof fn lemma_pow256_values()
    ensures
        pow256(1) == 0x100,
        pow256(2) == 0x1_0000,
        pow256(3) == 0x100_0000,
        pow256(4) == 0x1_0000_0000,
        pow256(5) == 0x100_0000_0000,
        pow256(6) == 0x1_0000_0000_0000,
        pow256(7) == 0x100_0000_0000_0000,
        pow256(8) == 0x1_0000_0000_0000_0000,
{
    reveal_with_fuel(pow256, 9);
}

/// `n` bytes hold values below `pow256(n)`.
pub proof fn lemma_le_value_bound(s: Seq<u8>)
    ensures
        le_value(s) < pow256(s.len()),
    decreases s.len(),
{
    if s.len() > 0 {
        lemma_le_value_bound(s.drop_first());
        lemma_pow256_step((s.len() - 1) as nat);
    }
}

/// Encoding takes exactly `n` bytes.
pub proof fn lemma_le_encode_len(v: nat, n: nat)
    ensures
        le_encode(v, n).len() == n,
    decreases n,
{
    if n > 0 {
        lemma_le_encode_len(v / 256, (n - 1) as nat);
    }
}

/// Reading back the `n` encoded bytes of a value below `pow256(n)` gives the value.
pub proof fn lemma_le_roundtrip(v: nat, n: nat)
    requires
        v < pow256(n),
    ensures
        le_value(le_encode(v, n)) == v,
        le_encode(v, n).len() == n,
    decreases n,
{
    lemma_le_encode_len(v, n);
    if n > 0 {
        let m = (n - 1) as nat;
        lemma_pow256_step(m);
        assert(v / 256 < pow256(m)) by (nonlinear_arith)
            requires
                v < 256 * pow256(m),
        ;
        lemma_le_roundtrip(v / 256, m);
        let e = le_encode(v, n);
        assert(e.drop_first() =~= le_encode(v / 256, m));
    }
}

/// Encoding then taking the signed value back gives a value that fits.
pub proof fn lemma_twos_complement_roundtrip(v: int, n: nat)
    requires
        n >= 1,
        fits_signed(v, n),
    ensures
        twos_complement(v, n) < pow256(n),
        signed_of(twos_complement(v, n), n) == v,
{
    lemma_pow256_step((n - 1) as nat);
    assert(pow256(n) % 2 == 0);
}

/// The signed reading of `n` bytes fits in `n` bytes.
pub proof fn lemma_signed_of_fits(u: nat, n: nat)
    requires
        n >= 1,
        u < pow256(n),
    ensures
        fits_signed(signed_of(u, n), n),
{
    lemma_pow256_step((n - 1) as nat);
}

/// `pow256(n)` as a machine integer, for up to 8 bytes.
pub fn pow256_exec(n: usize) -> (r: u128)
    requires
        n <= 8,
    ensures
        r == pow256(n as nat),
        r <= 0x1_0000_0000_0000_0000,
{
    proof {
        lemma_pow256_values();
    }
    let mut r: u128 = 1;
    let mut i: usize = 0;
    while i < n
        invariant
            i <= n <= 8,
            r == pow256(i as nat),
            r <= pow256(8),
            pow256(8) == 0x1_0000_0000_0000_0000,
        decreases n - i,
    {
        proof {
            lemma_pow256_step(i as nat);
            lemma_pow256_monotone(i as nat + 1, 8);
        }
        r = r * 256;
        i = i + 1;
    }
    r
}

/// `pow256` does not decrease.
pub proof fn lemma_pow256_monotone(a: nat, b: nat)
    requires
        a <= b,
    ensures
        pow256(a) <= pow256(b),
    decreases b - a,
{
    if a < b {
        lemma_pow256_step((b - 1) as nat);
        lemma_pow256_monotone(a, (b - 1) as nat);
    }
}

/// The unsigned little-endian value of the first `n` bytes of `buf`.
pub fn read_le(buf: &[u8], n: usize) -> (r: u64)
    requires
        n <= 8,
        n <= buf@.len(),
    ensures
        r == le_value(buf@.subrange(0, n as int)),
{
    let mut acc: u64 = 0;
    let mut i: usize = n;
    proof {
        lemma_pow256_values();
    }
    while i > 0
        invariant
            i <= n <= 8,
            n <= buf@.len(),
            acc == le_value(buf@.subrange(i as int, n as int)),
            pow256(7) == 0x100_0000_0000_0000,
        decreases i,
    {
        let ghost tail = buf@.subrange(i as int, n as int);
        i = i - 1;
        proof {
            let s = buf@.subrange(i as int, n as int);
            assert(s.drop_first() =~= tail);
            lemma_le_value_bound(tail);
            lemma_pow256_monotone(tail.len(), 7);
        }
        acc = (buf[i] as u64) + 256 * acc;
    }
    acc
}

/// The `n` lowest bytes of `v`, least significant first.
pub fn encode_le(v: u64, n: usize) -> (r: Vec<u8>)
    requires
        n <= 8,
    ensures
        r@ == le_encode(v as nat, n as nat),
{
    let mut r: Vec<u8> = Vec::new();
    let mut u: u64 = v;
    let mut i: usize = 0;
    while i < n
        invariant
            i <= n,
            r@ + le_encode(u as nat, (n - i) as nat) == le_encode(v as nat, n as nat),
        decreases n - i,
    {
        let ghost old_r = r@;
        let ghost k = (n - i) as nat;
        assert(le_encode(u as nat, k) == seq![(u % 256) as u8] + le_encode(
            (u / 256) as nat,
            (k - 1) as nat,
        ));
        r.push((u % 256) as u8);
        u = u / 256;
        i = i + 1;
        assert(r@ + le_encode(u as nat, (n - i) as nat) =~= old_r + (seq![(r@.last())]
            + le_encode(u as nat, (n - i) as nat)));
    }
    assert(le_encode(u as nat, 0) =~= Seq::<u8>::empty());
    assert(r@ + Seq::<u8>::empty() =~= r@);
    r
}

/// The bytes of the C string at the start of `s`: those before the first NUL,
/// or all of them when there is none.
pub fn cstr_bytes(s: &[u8]) -> (r: Vec<u8>)
    ensures
        r@ == cstr_prefix(s@),
{
    let mut r: Vec<u8> = Vec::new();
    let mut i: usize = 0;
    assert(s@.skip(0) =~= s@);
    assert(r@ + cstr_prefix(s@) =~= cstr_prefix(s@));
    while i < s.len()
        invariant
            i <= s@.len(),
            r@ + cstr_prefix(s@.skip(i as int)) == cstr_prefix(s@),
        decreases s@.len() - i,
    {
        if s[i] == 0 {
            assert(cstr_prefix(s@.skip(i as int)) =~= Seq::<u8>::empty());
            assert(r@ + Seq::<u8>::empty() =~= r@);
            return r;
        }
        let ghost old_r = r@;
        assert(s@.skip(i as int).drop_first() =~= s@.skip(i + 1));
        r.push(s[i]);
        i = i + 1;
        assert(r@ + cstr_prefix(s@.skip(i as int)) =~= old_r + (seq![s@[i - 1]] + cstr_prefix(
            s@.skip(i as int),
        )));
    }
    assert(cstr_prefix(s@.skip(i as int)) =~= Seq::<u8>::empty());
    assert(r@ + Seq::<u8>::empty() =~= r@);
    r
}

/// A copy of the first `n` bytes of `buf`.
pub fn copy_prefix(buf: &[u8], n: usize) -> (r: Vec<u8>)
    requires
        n <= buf@.len(),
    ensures
        r@ == buf@.subrange(0, n as int),
{
    let mut r: Vec<u8> = Vec::new();
    let mut i: usize = 0;
    while i < n
        invariant
            i <= n <= buf@.len(),
            r@ == buf@.subrange(0, i as int),
        decreases n - i,
    {
        r.push(buf[i]);
        i = i + 1;
        assert(r@ =~= buf@.subrange(0, i as int));
    }
    r
}

/// Writes `src` over the first bytes of `buf`, leaving the rest as it was.
pub fn overwrite_prefix(buf: &mut Vec<u8>, src: &[u8])
    requires
        src@.len() <= old(buf)@.len(),
    ensures
        final(buf)@ == src@ + old(buf)@.skip(src@.len() as int),
{
    let mut i: usize = 0;
    while i < src.len()
        invariant
            i <= src@.len() <= buf@.len(),
            buf@.len() == old(buf)@.len(),
            forall|j: int| 0 <= j < i ==> buf@[j] == src@[j],
            forall|j: int| i <= j < buf@.len() ==> buf@[j] == old(buf)@[j],
        decreases src@.len() - i,
    {
        buf.set(i, src[i]);
        i = i + 1;
    }
    assert(buf@ =~= src@ + old(buf)@.skip(src@.len() as int));
}

} // verus!
