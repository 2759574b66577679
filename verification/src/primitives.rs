//! Plain-value models of the addresses, 256-bit integers and decimals that actions carry.
use vstd::prelude::*;
use vstd::std_specs::cmp::PartialEqSpecImpl;
use crate::text::{push_char, ascii_lower_char, ascii_lower, to_lowercase};

verus! {

/// Lowercase hexadecimal digit for a value in `0..16`.
pub open spec fn hex_digit(n: int) -> char {
    if n < 10 {
        (('0' as int) + n) as char
    } else {
        (('a' as int) + n - 10) as char
    }
}

/// Lowercase hex encoding of a byte string, two digits per byte, most significant first.
pub open spec fn hex_of_bytes(bs: Seq<u8>) -> Seq<char>
    decreases bs.len(),
{
    if bs.len() == 0 {
        seq![]
    } else {
        hex_of_bytes(bs.drop_last()) + seq![
            hex_digit(bs.last() as int / 16),
            hex_digit(bs.last() as int % 16),
        ]
    }
}

pub proof fn lemma_hex_of_bytes_len(bs: Seq<u8>)
    ensures
        hex_of_bytes(bs).len() == 2 * bs.len(),
    decreases bs.len(),
{
    if bs.len() > 0 {
        lemma_hex_of_bytes_len(bs.drop_last());
    }
}

pub fn hex_digit_exec(n: u8) -> (c: char)
    requires
        n < 16,
    ensures
        c == hex_digit(n as int),
{
    if n < 10 {
        ((48u8 + n) as char)
    } else {
        ((87u8 + n) as char)
    }
}

/// Appends the lowercase hex encoding of `bytes` to `out`.
pub fn push_hex_bytes(out: &mut String, bytes: &[u8])
    ensures
        final(out)@ == old(out)@ + hex_of_bytes(bytes@),
{
    let ghost start = out@;
    let n = bytes.len();
    let mut i: usize = 0;
    while i < n
        invariant
            n == bytes@.len(),
            i <= n,
            out@ == start + hex_of_bytes(bytes@.subrange(0, i as int)),
        decreases n - i,
    {
        let b = bytes[i];
        push_char(out, hex_digit_exec(b / 16));
        push_char(out, hex_digit_exec(b % 16));
        proof {
            let pre = bytes@.subrange(0, i as int);
            let post = bytes@.subrange(0, i + 1);
            assert(post.drop_last() =~= pre);
            assert(post.last() == b);
        }
        i = i + 1;
    }
    proof {
        assert(bytes@.subrange(0, n as int) =~= bytes@);
    }
}

/// A 20-byte account address.
#[derive(Clone, Copy, Debug, PartialEq, Eq, Hash)]
pub struct Address(pub [u8; 20]);

/// `"0x"` followed by the 40 lowercase hex digits of the address bytes.
pub open spec fn address_lower_hex(a: Address) -> Seq<char> {
    seq!['0', 'x'] + hex_of_bytes(a.0@)
}

impl Address {
    /// The all-zero address.
    pub fn zero() -> (a: Address)
        ensures
            forall|i: int| 0 <= i < 20 ==> a.0@[i] == 0u8,
    {
        Address([0u8; 20])
    }

    /// An address whose 20 bytes all equal `b`.
    pub fn repeat_byte(b: u8) -> (a: Address)
        ensures
            forall|i: int| 0 <= i < 20 ==> a.0@[i] == b,
    {
        Address([b; 20])
    }

    /// The address written as `"0x"` and 40 lowercase hex digits.
    pub fn to_lower_hex(&self) -> (s: String)
        ensures
            s@ == address_lower_hex(*self),
    {
        let mut s = String::new();
        push_char(&mut s, '0');
        push_char(&mut s, 'x');
        proof {
            assert(s@ =~= seq!['0', 'x']);
        }
        push_hex_bytes(&mut s, self.0.as_slice());
        s
    }
}

} // verus!

verus! {

/// Largest magnitude a decimal mantissa may have: 2^96 - 1.
pub const DECIMAL_MAX_MANTISSA: i128 = 0xFFFF_FFFF_FFFF_FFFF_FFFF_FFFFi128;

/// Largest number of digits after the decimal point.
pub const DECIMAL_MAX_SCALE: u32 = 28u32;

/// The decimal digits of a natural number, most significant first; empty for zero.
pub open spec fn decimal_digits(n: nat) -> Seq<char>
    decreases n,
{
    if n == 0 {
        seq![]
    } else {
        decimal_digits(n / 10) + seq![(('0' as int) + (n % 10) as int) as char]
    }
}

/// `s` with `'0'` prepended until it is at least `len` characters long.
pub open spec fn pad_zeros(s: Seq<char>, len: nat) -> Seq<char> {
    if s.len() >= len {
        s
    } else {
        Seq::new((len - s.len()) as nat, |i: int| '0') + s
    }
}

/// The text of `mantissa * 10^-scale`: an optional `-`, the whole part (`0` when empty),
/// and when the scale is positive a `.` followed by exactly `scale` fraction digits.
pub open spec fn decimal_text(mantissa: int, scale: nat) -> Seq<char> {
    let mag: nat = if mantissa < 0 { (-mantissa) as nat } else { mantissa as nat };
    let d = pad_zeros(decimal_digits(mag), scale);
    let whole = d.subrange(0, d.len() - scale);
    let whole_text = if whole.len() == 0 { seq!['0'] } else { whole };
    let body = if scale == 0 {
        whole_text
    } else {
        whole_text + seq!['.'] + d.subrange(d.len() - scale, d.len() as int)
    };
    if mantissa < 0 {
        seq!['-'] + body
    } else {
        body
    }
}

/// Calls `rust_decimal::Decimal::from_i128_with_scale` and then its `Display`
/// (`to_string`). Claimed: the text is `decimal_text(mantissa, scale)`. The bounds in
/// `requires` are those under which `from_i128_with_scale` does not panic.
#[verifier::external_body]
fn decimal_to_string(mantissa: i128, scale: u32) -> (r: String)
    requires
        -DECIMAL_MAX_MANTISSA <= mantissa <= DECIMAL_MAX_MANTISSA,
        scale <= DECIMAL_MAX_SCALE,
    ensures
        r@ == decimal_text(mantissa as int, scale as nat),
{
    rust_decimal::Decimal::from_i128_with_scale(mantissa, scale).to_string()
}

/// `10^n`.
pub open spec fn pow10(n: nat) -> int
    decreases n,
{
    if n == 0 {
        1
    } else {
        10 * pow10((n - 1) as nat)
    }
}

pub proof fn lemma_pow10_positive(n: nat)
    ensures
        pow10(n) >= 1,
    decreases n,
{
    if n > 0 {
        lemma_pow10_positive((n - 1) as nat);
    }
}

pub proof fn lemma_pow10_add(a: nat, b: nat)
    ensures
        pow10(a + b) == pow10(a) * pow10(b),
    decreases b,
{
    if b > 0 {
        lemma_pow10_add(a, (b - 1) as nat);
        let pa = pow10(a);
        let pb1 = pow10((b - 1) as nat);
        assert(pow10((a + b) as nat) == 10 * pow10((a + b - 1) as nat));
        assert(10 * (pa * pb1) == pa * (10 * pb1)) by (nonlinear_arith);
    }
}

/// `m1 * 10^-s1` and `m2 * 10^-s2` are the same number.
pub open spec fn decimal_value_eq(m1: int, s1: nat, m2: int, s2: nat) -> bool {
    m1 * pow10(s2) == m2 * pow10(s1)
}

/// With `s1 <= s2`, equality of the two numbers is `m1 * 10^(s2 - s1) == m2`.
proof fn lemma_decimal_value_eq_shift(m1: int, s1: nat, m2: int, s2: nat)
    requires
        s1 <= s2,
    ensures
        decimal_value_eq(m1, s1, m2, s2) == (m1 * pow10((s2 - s1) as nat) == m2),
{
    let d = (s2 - s1) as nat;
    lemma_pow10_add(d, s1);
    lemma_pow10_positive(s1);
    let pd = pow10(d);
    let ps = pow10(s1);
    assert(m1 * (pd * ps) == (m1 * pd) * ps) by (nonlinear_arith);
    assert(ps > 0 ==> ((m1 * pd) * ps == m2 * ps) == (m1 * pd == m2)) by (nonlinear_arith);
}

/// `|x * 10^k| >= |x|`.
proof fn lemma_scaled_magnitude(x: int, k: nat)
    ensures
        x >= 0 ==> x * pow10(k) >= x,
        x < 0 ==> x * pow10(k) <= x,
{
    lemma_pow10_positive(k);
    let p = pow10(k);
    assert(p >= 1 && x >= 0 ==> x * p >= x) by (nonlinear_arith);
    assert(p >= 1 && x < 0 ==> x * p <= x) by (nonlinear_arith);
}

/// Whether `a * 10^d == b`, for mantissas in the decimal range.
fn scaled_equal(a: i128, b: i128, d: u32) -> (r: bool)
    requires
        -DECIMAL_MAX_MANTISSA <= a <= DECIMAL_MAX_MANTISSA,
        -DECIMAL_MAX_MANTISSA <= b <= DECIMAL_MAX_MANTISSA,
    ensures
        r == (a * pow10(d as nat) == b),
{
    let mut x: i128 = a;
    let mut i: u32 = 0;
    while i < d
        invariant
            i <= d,
            x == a * pow10(i as nat),
            -DECIMAL_MAX_MANTISSA <= b <= DECIMAL_MAX_MANTISSA,
            x >= 0 ==> x <= 10 * DECIMAL_MAX_MANTISSA,
            x < 0 ==> x >= -10 * DECIMAL_MAX_MANTISSA,
        decreases d - i,
    {
        if x > DECIMAL_MAX_MANTISSA || x < -DECIMAL_MAX_MANTISSA {
            proof {
                let k = (d - i) as nat;
                lemma_pow10_add(i as nat, k);
                assert(a * (pow10(i as nat) * pow10(k)) == x * pow10(k)) by (nonlinear_arith)
                    requires
                        x == a * pow10(i as nat),
                ;
                assert((i + k) as nat == d as nat);
                lemma_scaled_magnitude(x as int, k);
            }
            return false;
        }
        proof {
            assert(pow10((i + 1) as nat) == 10 * pow10(i as nat));
            assert(a * (10 * pow10(i as nat)) == 10 * (a * pow10(i as nat))) by (nonlinear_arith);
        }
        x = x * 10;
        i = i + 1;
    }
    x == b
}

/// A fixed-point decimal number `mantissa * 10^-scale` with the range of
/// `rust_decimal::Decimal` (96-bit mantissa, at most 28 fraction digits).
///
/// Equality compares the numbers, as `rust_decimal` does: `1.0 == 1.00`.
#[derive(Clone, Copy, Debug, Eq)]
pub struct Decimal {
    mantissa: i128,
    scale: u32,
}

impl Decimal {
    #[verifier::type_invariant]
    spec fn inv(self) -> bool {
        &&& -DECIMAL_MAX_MANTISSA <= self.mantissa <= DECIMAL_MAX_MANTISSA
        &&& self.scale <= DECIMAL_MAX_SCALE
    }

    pub closed spec fn spec_mantissa(self) -> int {
        self.mantissa as int
    }

    pub closed spec fn spec_scale(self) -> nat {
        self.scale as nat
    }

    /// `num * 10^-scale`; the scale must be at most 28.
    pub fn new(num: i64, scale: u32) -> (d: Decimal)
        requires
            scale <= DECIMAL_MAX_SCALE,
        ensures
            d.spec_mantissa() == num,
            d.spec_scale() == scale,
    {
        Decimal { mantissa: num as i128, scale }
    }

    /// `num * 10^-scale`, or `None` when the mantissa exceeds 96 bits or the scale 28.
    pub fn try_from_i128_with_scale(num: i128, scale: u32) -> (d: Option<Decimal>)
        ensures
            d is Some <==> (-DECIMAL_MAX_MANTISSA <= num <= DECIMAL_MAX_MANTISSA
                && scale <= DECIMAL_MAX_SCALE),
            d matches Some(v) ==> v.spec_mantissa() == num && v.spec_scale() == scale,
    {
        if scale > DECIMAL_MAX_SCALE || num > DECIMAL_MAX_MANTISSA || num < -DECIMAL_MAX_MANTISSA {
            None
        } else {
            Some(Decimal { mantissa: num, scale })
        }
    }

    pub fn mantissa(&self) -> (m: i128)
        ensures
            m == self.spec_mantissa(),
    {
        self.mantissa
    }

    pub fn scale(&self) -> (s: u32)
        ensures
            s == self.spec_scale(),
    {
        self.scale
    }

    /// Whether the two decimals are the same number, whatever their scales.
    pub open spec fn same_value(self, other: Decimal) -> bool {
        decimal_value_eq(self.spec_mantissa(), self.spec_scale(), other.spec_mantissa(), other.spec_scale())
    }

    /// The decimal written out, as `rust_decimal` prints it (for example `"100.0"`).
    pub fn to_text(&self) -> (s: String)
        ensures
            s@ == decimal_text(self.spec_mantissa(), self.spec_scale()),
    {
        proof {
            use_type_invariant(self);
        }
        decimal_to_string(self.mantissa, self.scale)
    }
}

/// Equality of decimals by value is an equivalence: reflexive, symmetric and transitive.
pub proof fn lemma_decimal_equality_is_equivalence(a: Decimal, b: Decimal, c: Decimal)
    ensures
        a.same_value(a),
        a.same_value(b) ==> b.same_value(a),
        a.same_value(b) && b.same_value(c) ==> a.same_value(c),
{
    let (ma, mb, mc) = (a.spec_mantissa(), b.spec_mantissa(), c.spec_mantissa());
    let (pa, pb, pc) = (pow10(a.spec_scale()), pow10(b.spec_scale()), pow10(c.spec_scale()));
    lemma_pow10_positive(b.spec_scale());
    assert(pb > 0 && ma * pb == mb * pa && mb * pc == mc * pb ==> ma * pc == mc * pa)
        by (nonlinear_arith);
}

/// Appending a zero digit does not change a decimal's value: `m * 10^-s` equals
/// `(10 m) * 10^-(s + 1)`.
pub proof fn lemma_decimal_trailing_zero(m: int, s: nat)
    ensures
        decimal_value_eq(m, s, 10 * m, s + 1),
{
    assert(pow10(s + 1) == 10 * pow10(s));
    assert(m * (10 * pow10(s)) == (10 * m) * pow10(s)) by (nonlinear_arith);
}

impl PartialEq for Decimal {
    fn eq(&self, other: &Self) -> (r: bool) {
        proof {
            use_type_invariant(self);
            use_type_invariant(other);
        }
        if self.scale <= other.scale {
            proof {
                lemma_decimal_value_eq_shift(
                    self.mantissa as int,
                    self.scale as nat,
                    other.mantissa as int,
                    other.scale as nat,
                );
            }
            scaled_equal(self.mantissa, other.mantissa, other.scale - self.scale)
        } else {
            proof {
                lemma_decimal_value_eq_shift(
                    other.mantissa as int,
                    other.scale as nat,
                    self.mantissa as int,
                    self.scale as nat,
                );
            }
            scaled_equal(other.mantissa, self.mantissa, self.scale - other.scale)
        }
    }
}

impl PartialEqSpecImpl for Decimal {
    open spec fn obeys_eq_spec() -> bool {
        true
    }

    open spec fn eq_spec(&self, other: &Decimal) -> bool {
        self.same_value(*other)
    }
}

} // verus!

verus! {

pub open spec fn pow2_64() -> int {
    0x1_0000_0000_0000_0000int
}

/// An unsigned 256-bit integer, stored as four 64-bit limbs, least significant first.
#[derive(Clone, Copy, Debug, PartialEq, Eq, Hash)]
pub struct U256(pub [u64; 4]);

/// The number that four little-endian 64-bit limbs represent.
pub open spec fn limbs_value(l: Seq<u64>) -> nat {
    (l[0] as int + pow2_64() * (l[1] as int + pow2_64() * (l[2] as int + pow2_64() * l[3] as int)))
        as nat
}

impl U256 {
    pub open spec fn value(self) -> nat {
        limbs_value(self.0@)
    }

    pub fn zero() -> (r: U256)
        ensures
            r.value() == 0,
    {
        U256([0u64; 4])
    }

    pub fn from_u64(x: u64) -> (r: U256)
        ensures
            r.value() == x,
    {
        U256([x, 0, 0, 0])
    }

    pub fn from_u32(x: u32) -> (r: U256)
        ensures
            r.value() == x,
    {
        U256([x as u64, 0, 0, 0])
    }

    pub fn from_u128(x: u128) -> (r: U256)
        ensures
            r.value() == x,
    {
        let lo = x as u64;
        let hi = (x >> 64u32) as u64;
        assert(lo as u128 + (hi as u128) * 0x1_0000_0000_0000_0000u128 == x) by (bit_vector)
            requires
                lo == x as u64,
                hi == (x >> 64u32) as u64,
        ;
        U256([lo, hi, 0, 0])
    }
}

} // verus!

verus! {

/// The decimal text of a natural number (`"0"` for zero).
pub open spec fn nat_text(n: nat) -> Seq<char> {
    if n == 0 {
        seq!['0']
    } else {
        decimal_digits(n)
    }
}

/// Appends the decimal text of `n` to `out`.
pub fn push_u64_text(out: &mut String, n: u64)
    ensures
        final(out)@ == old(out)@ + nat_text(n as nat),
{
    if n == 0 {
        push_char(out, '0');
        return;
    }
    let mut rev: Vec<char> = Vec::new();
    let mut x = n;
    while x > 0
        invariant
            decimal_digits(n as nat) =~= decimal_digits(x as nat) + rev@.reverse(),
        decreases x,
    {
        let d = (x % 10) as u8;
        rev.push((48u8 + d) as char);
        proof {
            let c = (('0' as int) + (x as nat % 10) as int) as char;
            assert(decimal_digits(x as nat) == decimal_digits((x / 10) as nat) + seq![c]);
            assert(rev@.reverse() =~= seq![c] + rev@.drop_last().reverse());
        }
        x = x / 10;
    }
    assert(decimal_digits(0) =~= Seq::<char>::empty());
    let ghost start = out@;
    let mut i = rev.len();
    while i > 0
        invariant
            i <= rev@.len(),
            out@ =~= start + rev@.reverse().subrange(0, (rev@.len() - i) as int),
        decreases i,
    {
        i = i - 1;
        push_char(out, rev[i]);
        proof {
            let k = (rev@.len() - i) as int;
            assert(rev@.reverse().subrange(0, k) =~= rev@.reverse().subrange(0, k - 1).push(
                rev@[i as int],
            ));
        }
    }
    assert(rev@.reverse().subrange(0, rev@.len() as int) =~= rev@.reverse());
}

/// A lowercase hexadecimal digit character.
pub open spec fn is_lower_hex_char(c: char) -> bool {
    ('0' <= c && c <= '9') || ('a' <= c && c <= 'f')
}

pub proof fn lemma_hex_of_bytes_chars(bs: Seq<u8>)
    ensures
        hex_of_bytes(bs).len() == 2 * bs.len(),
        forall|i: int| 0 <= i < hex_of_bytes(bs).len() ==> is_lower_hex_char(#[trigger] hex_of_bytes(bs)[i]),
    decreases bs.len(),
{
    if bs.len() > 0 {
        lemma_hex_of_bytes_chars(bs.drop_last());
    }
}

/// Calls `Display` (`to_string`) on `alloy::primitives::Address`, which writes the EIP-55
/// checksummed form. Claimed: 42 characters that, with ASCII uppercase letters lowered,
/// are `"0x"` and the lowercase hex digits of the bytes. Which letters the checksum
/// raises to uppercase (a function of the Keccak hash of the address) is left unsaid.
#[verifier::external_body]
fn address_checksum_text(a: &Address) -> (r: String)
    ensures
        r@.len() == 42,
        forall|i: int| 0 <= i < 42 ==> ascii_lower_char(#[trigger] r@[i]) == address_lower_hex(*a)[i],
{
    alloy::primitives::Address::from(a.0).to_string()
}

/// The address as its checksummed text lowercased: `"0x"` and 40 lowercase hex digits.
pub fn ser_lowercase(address: &Address) -> (s: String)
    ensures
        s@ == address_lower_hex(*address),
{
    let t = address_checksum_text(address);
    let ghost l = address_lower_hex(*address);
    proof {
        lemma_hex_of_bytes_chars(address.0@);
        assert(l.len() == 42);
        assert forall|i: int| 0 <= i < l.len() implies (l[i] as u32) < 128 && !('A' <= l[i] && l[i] <= 'Z') by {
            if i >= 2 {
                assert(l[i] == hex_of_bytes(address.0@)[i - 2]);
                assert(is_lower_hex_char(hex_of_bytes(address.0@)[i - 2]));
            }
        }
        assert forall|i: int| 0 <= i < t@.len() implies (t@[i] as u32) < 128 by {
            assert(ascii_lower_char(t@[i]) == l[i]);
        }
        assert(ascii_lower(t@) =~= l);
    }
    to_lowercase(t.as_str())
}

} // verus!
