//! Integers as content bytes, and back.

use vstd::prelude::*;
use vstd::arithmetic::div_mod::{lemma_div_denominator, lemma_fundamental_div_mod};
use vstd::arithmetic::div_mod::{lemma_mod_decreases, lemma_small_mod};

verus! {

/// 256 to the `n`.
pub open spec fn pow256(n: nat) -> nat
    decreases n,
{
    if n == 0 {
        1
    } else {
        256 * pow256((n - 1) as nat)
    }
}

/// The number of base-256 digits of `m`, at least one.
pub open spec fn byte_len(m: nat) -> nat
    decreases m,
{
    if m < 256 {
        1
    } else {
        1 + byte_len(m / 256)
    }
}

/// The low `n` bytes of `v` in two's complement, most significant first.
pub open spec fn be_bytes(v: int, n: nat) -> Seq<u8> {
    Seq::new(n, |k: int| ((v / (pow256((n - 1 - k) as nat) as int)) % 256) as u8)
}

/// The content bytes of an INTEGER holding `v`: as many bytes as the
/// magnitude of `v` has digits, one more where `v` is positive and the
/// leading bit would otherwise be set.
pub open spec fn integer_content(v: int) -> Seq<u8> {
    let digits = byte_len((if v >= 0 { v } else { -v }) as nat);
    if v > 0 && 2 * v >= pow256(digits) {
        be_bytes(v, digits + 1)
    } else {
        be_bytes(v, digits)
    }
}

/// The unsigned number that `bytes` spell, most significant first, reduced
/// to 64 bits.
pub open spec fn be_uint(bytes: Seq<u8>) -> nat
    decreases bytes.len(),
{
    if bytes.len() == 0 {
        0
    } else {
        ((be_uint(bytes.drop_last()) * 256 + bytes.last() as nat) % 0x1_0000_0000_0000_0000) as nat
    }
}

/// The low 32 bits of `v`, read as a signed number.
pub open spec fn wrap_i32(v: int) -> int {
    let low = v % 0x1_0000_0000;
    if low < 0x8000_0000 {
        low
    } else {
        low - 0x1_0000_0000
    }
}

/// The low 32 bits of `v`, read as a signed number.
pub fn low_i32(v: u64) -> (id: i32)
    ensures
        id == wrap_i32(v as int),
{
    let low: u64 = v % 0x1_0000_0000;
    if low < 0x8000_0000 {
        low as i32
    } else {
        (low as i64 - 0x1_0000_0000) as i32
    }
}

proof fn lemma_pow256_positive(n: nat)
    ensures
        pow256(n) > 0,
    decreases n,
{
    if n > 0 {
        lemma_pow256_positive((n - 1) as nat);
    }
}

/// A number has no more digits than a power of 256 above it has.
proof fn lemma_byte_len_fits(m: nat, n: nat)
    requires
        n >= 1,
        m < pow256(n),
    ensures
        byte_len(m) <= n,
        m < pow256(byte_len(m)),
    decreases n,
{
    reveal_with_fuel(pow256, 2);
    if m >= 256 {
        lemma_fundamental_div_mod(m as int, 256);
        lemma_byte_len_fits(m / 256, (n - 1) as nat);
    }
}

/// Reading back the `n` low bytes of a number that fits in them gives the
/// number.
proof fn lemma_be_bytes_read_back(v: int, n: nat)
    requires
        0 <= v < pow256(n),
        pow256(n) <= 0x1_0000_0000_0000_0000,
    ensures
        be_uint(be_bytes(v, n)) == v,
    decreases n,
{
    let s = be_bytes(v, n);
    if n == 0 {
    } else {
        let m = (n - 1) as nat;
        lemma_pow256_positive(m);
        lemma_fundamental_div_mod(v, 256);
        assert(s.drop_last() =~= be_bytes(v / 256, m)) by {
            assert forall|k: int| 0 <= k < m implies s.drop_last()[k] == be_bytes(v / 256, m)[k] by {
                let j = (m - 1 - k) as nat;
                lemma_pow256_positive(j);
                assert(pow256((n - 1 - k) as nat) == 256 * pow256(j));
                lemma_div_denominator(v, 256, pow256(j) as int);
            }
        }
        assert(s.last() == (v % 256) as u8) by {
            assert(pow256(0) == 1);
            assert(s[n - 1] == ((v / (pow256(0) as int)) % 256) as u8);
        }
        lemma_be_bytes_read_back(v / 256, m);
        lemma_small_mod(v as nat, 0x1_0000_0000_0000_0000);
    }
}

/// Whether a message id comes back from its content bytes. One that is
/// not negative does. A negative one does where its content takes four
/// bytes, which then hold all of its 32 bits; with fewer bytes it is read
/// as the small unsigned number that they spell.
pub open spec fn reads_back(id: int) -> bool {
    0 <= id < 0x8000_0000 || -0x8000_0000 <= id <= -0x100_0000
}

/// The content bytes of a message id that reads back spell that id.
pub proof fn lemma_integer_read_back(v: int)
    requires
        reads_back(v),
    ensures
        wrap_i32(be_uint(integer_content(v)) as int) == v,
        v >= 0 ==> be_uint(integer_content(v)) == v,
{
    reveal_with_fuel(pow256, 6);
    assert(pow256(3) == 0x100_0000);
    assert(pow256(4) == 0x1_0000_0000);
    if v >= 0 {
        lemma_byte_len_fits(v as nat, 4);
        let digits = byte_len(v as nat);
        if v > 0 && 2 * v >= pow256(digits) {
            lemma_pow256_monotonic(digits + 1, 5);
            lemma_be_bytes_read_back(v, digits + 1);
        } else {
            lemma_pow256_monotonic(digits, 4);
            lemma_be_bytes_read_back(v, digits);
        }
    } else {
        let m = (-v) as nat;
        lemma_byte_len_fits(m, 4);
        assert(byte_len(m) == 4) by {
            reveal_with_fuel(byte_len, 4);
        }
        let u = v + 0x1_0000_0000;
        assert(be_bytes(v, 4) =~= be_bytes(u, 4)) by {
            assert((v / 0x100_0000) % 256 == (u / 0x100_0000) % 256);
            assert((v / 0x1_0000) % 256 == (u / 0x1_0000) % 256);
            assert((v / 0x100) % 256 == (u / 0x100) % 256);
            assert((v / 1) % 256 == (u / 1) % 256);
            assert(pow256(0) == 1 && pow256(1) == 0x100 && pow256(2) == 0x1_0000);
        }
        lemma_be_bytes_read_back(u, 4);
    }
}

/// Bytes spell a number below the power of 256 that their count gives.
proof fn lemma_be_uint_bound(bytes: Seq<u8>)
    ensures
        be_uint(bytes) < pow256(bytes.len()),
    decreases bytes.len(),
{
    if bytes.len() > 0 {
        lemma_be_uint_bound(bytes.drop_last());
        let high = be_uint(bytes.drop_last());
        assert(be_uint(bytes) <= high * 256 + bytes.last()) by {
            lemma_mod_decreases((high * 256 + bytes.last()) as nat, 0x1_0000_0000_0000_0000);
        }
    }
}

/// A negative message id whose content is shorter than four bytes does not
/// read back: what comes back is not negative.
pub proof fn lemma_short_negative_is_lost(v: int)
    requires
        -0x100_0000 < v < 0,
    ensures
        wrap_i32(be_uint(integer_content(v)) as int) >= 0,
        !reads_back(v),
{
    reveal_with_fuel(pow256, 4);
    let m = (-v) as nat;
    lemma_byte_len_fits(m, 3);
    lemma_be_uint_bound(integer_content(v));
    lemma_pow256_monotonic(byte_len(m), 3);
}

proof fn lemma_pow256_monotonic(a: nat, b: nat)
    requires
        a <= b,
    ensures
        pow256(a) <= pow256(b),
    decreases b,
{
    if a < b {
        lemma_pow256_monotonic(a, (b - 1) as nat);
    }
}

} // verus!
