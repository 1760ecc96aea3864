//! Big- and little-endian encoding of unsigned and two's-complement integers
//! as byte sequences, with the executable encoders and decoders that the
//! typed reads and writes of a mapping are built on.
use vstd::prelude::*;
use vstd::arithmetic::div_mod::{
    lemma_breakdown, lemma_div_denominator, lemma_fundamental_div_mod,
    lemma_fundamental_div_mod_converse, lemma_div_pos_is_pos,
};
use vstd::arithmetic::mul::{lemma_mul_is_commutative, lemma_mul_strictly_positive};

verus! {

/// `256` raised to the power `n`: the number of values that `n` bytes can hold.
pub open spec fn pow256(n: nat) -> nat
    decreases n,
{
    if n == 0 {
        1
    } else {
        256 * pow256((n - 1) as nat)
    }
}

/// The unsigned value of `s` read most significant byte first.
pub open spec fn be_value(s: Seq<u8>) -> nat
    decreases s.len(),
{
    if s.len() == 0 {
        0
    } else {
        be_value(s.drop_last()) * 256 + s.last() as nat
    }
}

/// The unsigned value of `s` read least significant byte first.
pub open spec fn le_value(s: Seq<u8>) -> nat
    decreases s.len(),
{
    if s.len() == 0 {
        0
    } else {
        s[0] as nat + 256 * le_value(s.drop_first())
    }
}

/// The `n` low-order bytes of `v`, most significant first.
pub open spec fn be_bytes(v: nat, n: nat) -> Seq<u8>
    decreases n,
{
    if n == 0 {
        Seq::empty()
    } else {
        be_bytes(v / 256, (n - 1) as nat).push((v % 256) as u8)
    }
}

/// The `n` low-order bytes of `v`, least significant first.
pub open spec fn le_bytes(v: nat, n: nat) -> Seq<u8>
    decreases n,
{
    if n == 0 {
        Seq::empty()
    } else {
        seq![(v % 256) as u8] + le_bytes(v / 256, (n - 1) as nat)
    }
}

/// The two's-complement reading of the `n`-byte unsigned value `u`.
pub open spec fn to_signed(u: nat, n: nat) -> int {
    if 2 * u < pow256(n) {
        u as int
    } else {
        u - pow256(n)
    }
}

/// The `n`-byte two's-complement encoding of `v`, as an unsigned value.
pub open spec fn to_unsigned(v: int, n: nat) -> nat {
    if v >= 0 {
        v as nat
    } else {
        (v + pow256(n)) as nat
    }
}

/// Whether `v` is representable as an `n`-byte two's-complement integer.
pub open spec fn signed_fits(v: int, n: nat) -> bool {
    -(pow256(n) as int) <= 2 * v < pow256(n)
}

/// Big-endian or little-endian byte order.
pub open spec fn value_of(s: Seq<u8>, big_endian: bool) -> nat {
    if big_endian {
        be_value(s)
    } else {
        le_value(s)
    }
}

/// The `n`-byte encoding of `v` in the chosen byte order.
pub open spec fn bytes_of(v: nat, n: nat, big_endian: bool) -> Seq<u8> {
    if big_endian {
        be_bytes(v, n)
    } else {
        le_bytes(v, n)
    }
}

pub proof fn lemma_pow256_positive(n: nat)
    ensures
        pow256(n) > 0,
    decreases n,
{
    if n > 0 {
        lemma_pow256_positive((n - 1) as nat);
    }
}

pub proof fn lemma_pow256_monotonic(a: nat, b: nat)
    requires
        a <= b,
    ensures
        pow256(a) <= pow256(b),
    decreases b,
{
    if a < b {
        lemma_pow256_monotonic(a, (b - 1) as nat);
        lemma_pow256_positive((b - 1) as nat);
    }
}

/// Sixteen bytes hold exactly the values of a `u128`.
pub proof fn lemma_pow256_16()
    ensures
        pow256(16) == u128::MAX + 1,
{
    reveal_with_fuel(pow256, 17);
}

pub proof fn lemma_pow256_small()
    ensures
        pow256(1) == 256,
        pow256(2) == 0x1_0000,
        pow256(4) == 0x1_0000_0000,
        pow256(8) == 0x1_0000_0000_0000_0000,
{
    reveal_with_fuel(pow256, 9);
}

/// Every byte sequence reads as a value below `256^len`, in either byte order.
pub proof fn lemma_value_bound(s: Seq<u8>)
    ensures
        be_value(s) < pow256(s.len()),
        le_value(s) < pow256(s.len()),
    decreases s.len(),
{
    if s.len() > 0 {
        lemma_value_bound(s.drop_last());
        lemma_value_bound(s.drop_first());
    }
}

pub proof fn lemma_bytes_len(v: nat, n: nat)
    ensures
        be_bytes(v, n).len() == n,
        le_bytes(v, n).len() == n,
    decreases n,
{
    if n > 0 {
        lemma_bytes_len(v / 256, (n - 1) as nat);
    }
}

/// Reading back an encoding gives the encoded value, reduced to what `n` bytes hold.
pub proof fn lemma_value_of_bytes(v: nat, n: nat)
    ensures
        be_value(be_bytes(v, n)) == v % pow256(n),
        le_value(le_bytes(v, n)) == v % pow256(n),
    decreases n,
{
    if n == 0 {
    } else {
        let p = pow256((n - 1) as nat);
        lemma_value_of_bytes(v / 256, (n - 1) as nat);
        lemma_bytes_len(v / 256, (n - 1) as nat);
        lemma_pow256_positive((n - 1) as nat);
        lemma_breakdown(v as int, 256, p as int);
        let b = be_bytes(v, n);
        assert(b.drop_last() =~= be_bytes(v / 256, (n - 1) as nat));
        let l = le_bytes(v, n);
        assert(l.drop_first() =~= le_bytes(v / 256, (n - 1) as nat));
        lemma_mul_is_commutative(256, ((v / 256) % p) as int);
    }
}

/// Encoding the value that a byte sequence reads as gives the sequence back.
pub proof fn lemma_bytes_of_value(s: Seq<u8>)
    ensures
        be_bytes(be_value(s), s.len()) == s,
        le_bytes(le_value(s), s.len()) == s,
    decreases s.len(),
{
    if s.len() > 0 {
        lemma_bytes_of_value(s.drop_last());
        lemma_bytes_of_value(s.drop_first());
        let bv = be_value(s.drop_last());
        lemma_fundamental_div_mod_converse(
            be_value(s) as int,
            256,
            bv as int,
            s.last() as int,
        );
        let lv = le_value(s.drop_first());
        lemma_mul_is_commutative(256, lv as int);
        lemma_fundamental_div_mod_converse(le_value(s) as int, 256, lv as int, s[0] as int);
        assert(be_bytes(be_value(s), s.len()) =~= s);
        assert(le_bytes(le_value(s), s.len()) =~= s);
    }
}

/// The two's-complement encoding is undone by the two's-complement reading.
pub proof fn lemma_signed_round_trip(v: int, n: nat)
    requires
        signed_fits(v, n),
    ensures
        to_unsigned(v, n) < pow256(n),
        to_signed(to_unsigned(v, n), n) == v,
{
}

/// `buf` with the bytes from `offset` on replaced by `bytes`.
pub open spec fn splice(buf: Seq<u8>, offset: int, bytes: Seq<u8>) -> Seq<u8> {
    buf.subrange(0, offset) + bytes + buf.subrange(offset + bytes.len(), buf.len() as int)
}

/// Byte `j` of a big-endian encoding is a digit of the value in base 256.
pub proof fn lemma_be_bytes_index(v: nat, n: nat, j: nat)
    requires
        j < n,
    ensures
        be_bytes(v, n)[j as int] == ((v / pow256((n - 1 - j) as nat)) % 256) as u8,
    decreases n,
{
    lemma_bytes_len(v / 256, (n - 1) as nat);
    if j == n - 1 {
        assert(pow256(0) == 1);
    } else {
        lemma_be_bytes_index(v / 256, (n - 1) as nat, j);
        let p = pow256((n - 2 - j) as nat);
        lemma_pow256_positive((n - 2 - j) as nat);
        lemma_div_denominator(v as int, 256, p as int);
        assert(pow256((n - 1 - j) as nat) == 256 * p);
    }
}

/// Byte `j` of a little-endian encoding is a digit of the value in base 256.
pub proof fn lemma_le_bytes_index(v: nat, n: nat, j: nat)
    requires
        j < n,
    ensures
        le_bytes(v, n)[j as int] == ((v / pow256(j)) % 256) as u8,
    decreases n,
{
    lemma_bytes_len(v / 256, (n - 1) as nat);
    if j == 0 {
        assert(pow256(0) == 1);
    } else {
        lemma_le_bytes_index(v / 256, (n - 1) as nat, (j - 1) as nat);
        let p = pow256((j - 1) as nat);
        lemma_pow256_positive((j - 1) as nat);
        lemma_div_denominator(v as int, 256, p as int);
        assert(pow256(j) == 256 * p);
    }
}

/// Shifting a quotient by one more byte.
proof fn lemma_div_next(v: nat, k: nat)
    ensures
        (v / pow256(k)) / 256 == v / pow256(k + 1),
{
    lemma_pow256_positive(k);
    lemma_div_denominator(v as int, pow256(k) as int, 256);
    lemma_mul_is_commutative(pow256(k) as int, 256);
}

/// The `n` bytes of `buf` from `offset` on, read most significant first.
pub fn decode_be(buf: &[u8], offset: usize, n: usize) -> (v: u128)
    requires
        n <= 16,
        offset + n <= buf@.len(),
    ensures
        v == be_value(buf@.subrange(offset as int, offset + n)),
{
    let len = buf.len();
    let mut acc: u128 = 0;
    let mut i: usize = 0;
    while i < n
        invariant
            len == buf@.len(),
            i <= n,
            n <= 16,
            offset + n <= buf@.len(),
            acc == be_value(buf@.subrange(offset as int, offset + i)),
        decreases n - i,
    {
        proof {
            let s = buf@.subrange(offset as int, offset + i);
            let t = buf@.subrange(offset as int, offset + i + 1);
            assert(t.drop_last() =~= s);
            lemma_value_bound(s);
            lemma_pow256_monotonic((i + 1) as nat, 16);
            lemma_pow256_16();
        }
        acc = acc * 256 + buf[offset + i] as u128;
        i = i + 1;
    }
    acc
}

/// The `n` bytes of `buf` from `offset` on, read least significant first.
pub fn decode_le(buf: &[u8], offset: usize, n: usize) -> (v: u128)
    requires
        n <= 16,
        offset + n <= buf@.len(),
    ensures
        v == le_value(buf@.subrange(offset as int, offset + n)),
{
    let len = buf.len();
    let mut acc: u128 = 0;
    let mut i: usize = n;
    while i > 0
        invariant
            len == buf@.len(),
            i <= n,
            n <= 16,
            offset + n <= buf@.len(),
            acc == le_value(buf@.subrange(offset + i, offset + n)),
        decreases i,
    {
        proof {
            let s = buf@.subrange(offset + i, offset + n);
            let t = buf@.subrange(offset + i - 1, offset + n);
            assert(t.drop_first() =~= s);
            lemma_value_bound(s);
            lemma_pow256_monotonic((n - i + 1) as nat, 16);
            lemma_pow256_16();
        }
        acc = acc * 256 + buf[offset + i - 1] as u128;
        i = i - 1;
    }
    acc
}

/// Stores the `n` low-order bytes of `v` at `offset`, most significant first.
pub fn encode_be(buf: &mut [u8], offset: usize, v: u128, n: usize)
    requires
        n <= 16,
        offset + n <= old(buf)@.len(),
    ensures
        final(buf)@ == splice(old(buf)@, offset as int, be_bytes(v as nat, n as nat)),
{
    let ghost target = be_bytes(v as nat, n as nat);
    proof {
        lemma_bytes_len(v as nat, n as nat);
        assert(pow256(0) == 1);
        assert(v as nat / pow256(0) == v as nat);
    }
    let len = buf.len();
    let mut cur: u128 = v;
    let mut i: usize = n;
    assert(cur == v as nat / pow256((n - i) as nat));
    while i > 0
        invariant
            len == buf@.len(),
            i <= n,
            offset + n <= buf@.len(),
            buf@.len() == old(buf)@.len(),
            target == be_bytes(v as nat, n as nat),
            target.len() == n,
            cur == v as nat / pow256((n - i) as nat),
            forall|j: int| 0 <= j < offset + i ==> buf@[j] == old(buf)@[j],
            forall|j: int| offset + n <= j < buf@.len() ==> buf@[j] == old(buf)@[j],
            forall|j: int| offset + i <= j < offset + n ==> buf@[j] == target[j - offset],
        decreases i,
    {
        proof {
            lemma_be_bytes_index(v as nat, n as nat, (i - 1) as nat);
            lemma_div_next(v as nat, (n - i) as nat);
        }
        buf[offset + i - 1] = (cur % 256) as u8;
        cur = cur / 256;
        i = i - 1;
    }
    assert(buf@ =~= splice(old(buf)@, offset as int, target));
}

/// Stores the `n` low-order bytes of `v` at `offset`, least significant first.
pub fn encode_le(buf: &mut [u8], offset: usize, v: u128, n: usize)
    requires
        n <= 16,
        offset + n <= old(buf)@.len(),
    ensures
        final(buf)@ == splice(old(buf)@, offset as int, le_bytes(v as nat, n as nat)),
{
    let ghost target = le_bytes(v as nat, n as nat);
    proof {
        lemma_bytes_len(v as nat, n as nat);
        assert(pow256(0) == 1);
    }
    let len = buf.len();
    let mut cur: u128 = v;
    let mut i: usize = 0;
    while i < n
        invariant
            len == buf@.len(),
            i <= n,
            offset + n <= buf@.len(),
            buf@.len() == old(buf)@.len(),
            target == le_bytes(v as nat, n as nat),
            target.len() == n,
            cur == v as nat / pow256(i as nat),
            forall|j: int| 0 <= j < offset ==> buf@[j] == old(buf)@[j],
            forall|j: int| offset + i <= j < buf@.len() ==> buf@[j] == old(buf)@[j],
            forall|j: int| offset <= j < offset + i ==> buf@[j] == target[j - offset],
        decreases n - i,
    {
        proof {
            lemma_le_bytes_index(v as nat, n as nat, i as nat);
            lemma_div_next(v as nat, i as nat);
        }
        buf[offset + i] = (cur % 256) as u8;
        cur = cur / 256;
        i = i + 1;
    }
    assert(buf@ =~= splice(old(buf)@, offset as int, target));
}

} // verus!
