//! ECDSA signatures and their wire form: `{"r": "0x..", "s": "0x..", "v": 27 | 28}`.
use vstd::prelude::*;
use crate::json::{
    Json, JsonNumber, JsonValue, get_member, insert_member, lemma_obj_find, members_view, obj_find,
    obj_get,
};
use crate::primitives::{U256, hex_digit, hex_digit_exec, limbs_value, pow2_64};
use crate::text::{chars_of, push_char};

verus! {

/// `16^n`.
pub open spec fn pow16(n: nat) -> nat
    decreases n,
{
    if n == 0 {
        1
    } else {
        16 * pow16((n - 1) as nat)
    }
}

/// The last `n` hex digits of `v`, lowercase, zero-padded: `format!("{:0n$x}")` for
/// `v < 16^n`.
pub open spec fn hex_fixed(v: nat, n: nat) -> Seq<char>
    decreases n,
{
    if n == 0 {
        Seq::empty()
    } else {
        hex_fixed(v / 16, (n - 1) as nat).push(hex_digit((v % 16) as int))
    }
}

/// An ASCII hex digit, either case.
pub open spec fn is_hex_char(c: char) -> bool {
    ('0' <= c && c <= '9') || ('a' <= c && c <= 'f') || ('A' <= c && c <= 'F')
}

/// The value of a hex digit character.
pub open spec fn hex_char_value(c: char) -> nat {
    if '0' <= c && c <= '9' {
        ((c as int) - ('0' as int)) as nat
    } else if 'a' <= c && c <= 'f' {
        ((c as int) - ('a' as int) + 10) as nat
    } else {
        ((c as int) - ('A' as int) + 10) as nat
    }
}

/// Text that reads as a hex number: hex digits, with `_` separators allowed.
pub open spec fn hex_text_valid(s: Seq<char>) -> bool {
    forall|i: int| 0 <= i < s.len() ==> is_hex_char(#[trigger] s[i]) || s[i] == '_'
}

/// The number that hex text denotes, most significant digit first, `_` skipped.
pub open spec fn hex_value(s: Seq<char>) -> nat
    decreases s.len(),
{
    if s.len() == 0 {
        0
    } else if s.last() == '_' {
        hex_value(s.drop_last())
    } else {
        hex_value(s.drop_last()) * 16 + hex_char_value(s.last())
    }
}

/// Calls ruint's `Uint::<256, 4>::from_str_radix(text, 16)` (alloy's `U256`). Claimed, as its
/// source shows: the text is read as hex digits of either case with `_` ignored, and it
/// parses exactly when every character is such a digit or `_` and the number is below
/// 2^256; the result is that number. The error's text is left unsaid.
#[verifier::external_body]
fn parse_u256_hex(text: &str) -> (r: Result<U256, String>)
    ensures
        r matches Ok(v) ==> hex_text_valid(text@) && hex_value(text@) < pow16(64) && v.value()
            == hex_value(text@),
        r matches Err(_) ==> !(hex_text_valid(text@) && hex_value(text@) < pow16(64)),
{
    match alloy::primitives::U256::from_str_radix(text, 16) {
        Ok(v) => Ok(U256(*v.as_limbs())),
        Err(e) => Err(e.to_string()),
    }
}

/// Decimal text accepted by `u64::from_str`: an optional `+`, then at least one ASCII digit.
pub open spec fn decimal_digits_of(s: Seq<char>) -> Seq<char> {
    if s.len() > 0 && s[0] == '+' {
        s.skip(1)
    } else {
        s
    }
}

pub open spec fn is_decimal_text(d: Seq<char>) -> bool {
    d.len() > 0 && forall|i: int| 0 <= i < d.len() ==> '0' <= #[trigger] d[i] && d[i] <= '9'
}

/// The number that a string of ASCII digits denotes.
pub open spec fn decimal_value(d: Seq<char>) -> nat
    decreases d.len(),
{
    if d.len() == 0 {
        0
    } else {
        decimal_value(d.drop_last()) * 10 + ((d.last() as int) - ('0' as int)) as nat
    }
}

/// Calls `str::parse::<u64>`. Claimed, as its documentation states: the text parses
/// exactly when it is an optional `+` followed by ASCII digits whose number fits in a
/// `u64`, and the result is that number. The error's text is left unsaid.
#[verifier::external_body]
fn parse_u64(text: &str) -> (r: Result<u64, String>)
    ensures
        r matches Ok(v) ==> is_decimal_text(decimal_digits_of(text@)) && v == decimal_value(
            decimal_digits_of(text@),
        ),
        r matches Err(_) ==> !(is_decimal_text(decimal_digits_of(text@)) && decimal_value(
            decimal_digits_of(text@),
        ) <= u64::MAX),
{
    match text.parse::<u64>() {
        Ok(v) => Ok(v),
        Err(e) => Err(e.to_string()),
    }
}

/// Appends the last `n` hex digits of `x`.
fn push_hex_fixed(out: &mut String, x: u64, n: u64)
    ensures
        final(out)@ == old(out)@ + hex_fixed(x as nat, n as nat),
    decreases n,
{
    if n > 0 {
        push_hex_fixed(out, x / 16, n - 1);
        push_char(out, hex_digit_exec((x % 16) as u8));
        proof {
            assert(old(out)@ + hex_fixed(x as nat, n as nat) =~= (old(out)@ + hex_fixed(
                (x / 16) as nat,
                (n - 1) as nat,
            )).push(hex_digit((x % 16) as int)));
        }
    } else {
        proof {
            assert(old(out)@ + hex_fixed(x as nat, 0) =~= old(out)@);
        }
    }
}

/// Splitting a number into a high part and `m` low digits splits its digits the same way.
proof fn lemma_hex_fixed_split(a: nat, b: nat, n: nat, m: nat)
    requires
        b < pow16(m),
    ensures
        hex_fixed(a * pow16(m) + b, n + m) == hex_fixed(a, n) + hex_fixed(b, m),
    decreases m,
{
    if m == 0 {
        assert(a * pow16(0) + b == a);
        assert(hex_fixed(a, n) + hex_fixed(b, 0) =~= hex_fixed(a, n));
    } else {
        let p = pow16((m - 1) as nat);
        let x = a * pow16(m) + b;
        let q = a * p + b / 16;
        assert(x == q * 16 + b % 16) by (nonlinear_arith)
            requires
                pow16(m) == 16 * p,
                x == a * pow16(m) + b,
                q == a * p + b / 16,
                b == 16 * (b / 16) + b % 16,
        ;
        vstd::arithmetic::div_mod::lemma_fundamental_div_mod_converse(x as int, 16, q as int, (b % 16) as int);
        assert(b / 16 < p) by (nonlinear_arith)
            requires
                b < 16 * p,
                b == 16 * (b / 16) + b % 16,
                0 <= b % 16,
        ;
        lemma_hex_fixed_split(a, b / 16, n, (m - 1) as nat);
        assert((n + m - 1) as nat == n + (m - 1) as nat);
        assert(hex_fixed(x, n + m) == hex_fixed(q, n + (m - 1) as nat).push(hex_digit((x % 16) as int)));
        assert(hex_fixed(a, n) + hex_fixed(b, m) =~= (hex_fixed(a, n) + hex_fixed(b / 16, (m - 1) as nat)).push(
            hex_digit((b % 16) as int),
        ));
    }
}

/// A hex digit reads back as its value.
pub proof fn lemma_hex_digit_value(d: int)
    requires
        0 <= d < 16,
    ensures
        is_hex_char(hex_digit(d)),
        hex_digit(d) != '_',
        hex_char_value(hex_digit(d)) == d,
{
}

/// The fixed-width digits of a number below `16^n` read back as the number.
proof fn lemma_hex_fixed_value(v: nat, n: nat)
    requires
        v < pow16(n),
    ensures
        hex_text_valid(hex_fixed(v, n)),
        hex_value(hex_fixed(v, n)) == v,
        hex_fixed(v, n).len() == n,
    decreases n,
{
    if n > 0 {
        assert(v / 16 < pow16((n - 1) as nat));
        lemma_hex_fixed_value(v / 16, (n - 1) as nat);
        lemma_hex_digit_value((v % 16) as int);
        let h = hex_fixed(v, n);
        assert(h.drop_last() =~= hex_fixed(v / 16, (n - 1) as nat));
    }
}

/// `16^(a+b) == 16^a * 16^b`.
proof fn lemma_pow16_add(a: nat, b: nat)
    ensures
        pow16(a + b) == pow16(a) * pow16(b),
    decreases b,
{
    if b > 0 {
        lemma_pow16_add(a, (b - 1) as nat);
        assert(pow16(a + b) == 16 * pow16((a + b - 1) as nat));
        assert((a + b - 1) as nat == a + (b - 1) as nat);
        assert(pow16(a) * pow16(b) == pow16(a) * (16 * pow16((b - 1) as nat)));
        assert(pow16(a) * (16 * pow16((b - 1) as nat)) == 16 * (pow16(a) * pow16((b - 1) as nat))) by (nonlinear_arith);
    } else {
        assert(pow16(0) == 1);
        assert(a + b == a);
    }
}

/// A 256-bit number is below `16^64`.
proof fn lemma_u256_bound(u: U256)
    ensures
        u.value() < pow16(64),
        pow16(16) == pow2_64(),
{
    reveal_with_fuel(pow16, 17);
    assert(pow16(16) == 0x1_0000_0000_0000_0000);
    lemma_pow16_add(16, 16);
    lemma_pow16_add(32, 16);
    lemma_pow16_add(48, 16);
    let p = pow2_64();
    let l = u.0@;
    assert(l[0] < p && l[1] < p && l[2] < p && l[3] < p);
    assert(u.value() < p * p * p * p) by (nonlinear_arith)
        requires
            u.value() == l[0] + p * (l[1] + p * (l[2] + p * l[3])),
            0 <= l[0] < p,
            0 <= l[1] < p,
            0 <= l[2] < p,
            0 <= l[3] < p,
    ;
}

/// `"0x"` and the 64 lowercase hex digits of a 256-bit number.
pub open spec fn u256_text(v: nat) -> Seq<char> {
    seq!['0', 'x'] + hex_fixed(v, 64)
}

impl U256 {
    /// `format!("0x{:064x}")` of the number.
    pub fn to_hex_text(&self) -> (s: String)
        ensures
            s@ == u256_text(self.value()),
    {
        let mut s = String::new();
        push_char(&mut s, '0');
        push_char(&mut s, 'x');
        push_hex_fixed(&mut s, self.0[3], 16);
        push_hex_fixed(&mut s, self.0[2], 16);
        push_hex_fixed(&mut s, self.0[1], 16);
        push_hex_fixed(&mut s, self.0[0], 16);
        proof {
            lemma_u256_bound(*self);
            let p = pow2_64();
            let l = self.0@;
            let a2 = l[3] * p + l[2];
            let a1 = a2 * p + l[1];
            assert(self.value() == a1 * p + l[0]) by (nonlinear_arith)
                requires
                    self.value() == l[0] + p * (l[1] + p * (l[2] + p * l[3])),
                    a2 == l[3] * p + l[2],
                    a1 == a2 * p + l[1],
            ;
            lemma_hex_fixed_split(l[3] as nat, l[2] as nat, 16, 16);
            lemma_hex_fixed_split(a2 as nat, l[1] as nat, 32, 16);
            lemma_hex_fixed_split(a1 as nat, l[0] as nat, 48, 16);
            assert(s@ =~= u256_text(self.value()));
        }
        s
    }
}

/// An ECDSA signature: the scalars `r` and `s` and the parity of the curve point's `y`.
#[derive(Clone, Copy, Debug, PartialEq, Eq)]
pub struct Signature {
    pub r: U256,
    pub s: U256,
    pub y_parity: bool,
}

impl Signature {
    pub fn new(r: U256, s: U256, y_parity: bool) -> (sig: Signature)
        ensures
            sig.r == r,
            sig.s == s,
            sig.y_parity == y_parity,
    {
        Signature { r, s, y_parity }
    }
}

/// The `v` number of a signature: 27, or 28 for odd `y`.
pub open spec fn sig_v(y_parity: bool) -> nat {
    if y_parity {
        28
    } else {
        27
    }
}

/// The wire form of a signature.
pub open spec fn sig_json(sig: Signature) -> Json {
    Json::Object(
        seq![
            ("r"@, Json::Str(u256_text(sig.r.value()))),
            ("s"@, Json::Str(u256_text(sig.s.value()))),
            ("v"@, Json::Number(JsonNumber::PosInt(sig_v(sig.y_parity) as u64))),
        ],
    )
}

/// Writes a signature in its wire form.
pub fn serialize_sig(sig: &Signature) -> (v: JsonValue)
    ensures
        v@ == sig_json(*sig),
{
    let mut m: Vec<(String, JsonValue)> = Vec::new();
    m.push(("r".to_owned(), JsonValue::String(sig.r.to_hex_text())));
    m.push(("s".to_owned(), JsonValue::String(sig.s.to_hex_text())));
    let v: u64 = if sig.y_parity {
        28
    } else {
        27
    };
    m.push(("v".to_owned(), JsonValue::Number(JsonNumber::PosInt(v))));
    proof {
        crate::json::lemma_members_view_ext(
            m@,
            sig_json(*sig)->Object_0,
        );
    }
    JsonValue::Object(m)
}

/// Text without a leading `"0x"`.
pub open spec fn strip_0x(t: Seq<char>) -> Seq<char> {
    if t.len() >= 2 && t[0] == '0' && t[1] == 'x' {
        t.skip(2)
    } else {
        t
    }
}

fn strip_hex_prefix(t: &str) -> (r: String)
    ensures
        r@ == strip_0x(t@),
{
    let cs = chars_of(t);
    let start: usize = if cs.len() >= 2 && cs[0] == '0' && cs[1] == 'x' {
        2
    } else {
        0
    };
    let mut r = String::new();
    let mut i = start;
    while i < cs.len()
        invariant
            start <= i <= cs.len(),
            r@ == cs@.subrange(start as int, i as int),
        decreases cs.len() - i,
    {
        push_char(&mut r, cs[i]);
        proof {
            assert(cs@.subrange(start as int, i + 1) =~= cs@.subrange(start as int, i as int).push(cs@[i as int]));
        }
        i = i + 1;
    }
    proof {
        assert(r@ =~= strip_0x(t@));
    }
    r
}

/// How a signature's `v` value reads: a non-negative integer, decimal text, or neither.
pub enum VReading {
    Number(nat),
    BadText,
    Invalid,
}

pub open spec fn read_v(v: Json) -> VReading {
    match v {
        Json::Number(JsonNumber::PosInt(u)) => VReading::Number(u as nat),
        Json::Str(t) => if is_decimal_text(decimal_digits_of(t)) && decimal_value(decimal_digits_of(t))
            <= u64::MAX {
            VReading::Number(decimal_value(decimal_digits_of(t)))
        } else {
            VReading::BadText
        },
        _ => VReading::Invalid,
    }
}

/// What reading a signature's wire form gives: its scalars and parity, a refusal with a
/// message, or a parse failure of a number (whose message the parser writes).
pub enum SigReading {
    Parsed(nat, nat, bool),
    Refused(Seq<char>),
    Unparsable,
}

/// Reading a signature: `r` and `s` must be strings, `v` must be present; `v` is a
/// non-negative integer or its decimal text; `r` and `s` are hex, with or without `"0x"`;
/// `v` must be at least 27, and `y` is odd when `v - 27` is not zero.
pub open spec fn read_sig(value: Json) -> SigReading {
    match value {
        Json::Object(m) => match obj_get(m, "r"@) {
            Some(Json::Str(r)) => match obj_get(m, "s"@) {
                Some(Json::Str(s)) => match obj_get(m, "v"@) {
                    None => SigReading::Refused("missing signature.v"@),
                    Some(vj) => match read_v(vj) {
                        VReading::Invalid => SigReading::Refused("invalid signature.v"@),
                        VReading::BadText => SigReading::Unparsable,
                        VReading::Number(v) => {
                            let rt = strip_0x(r);
                            let st = strip_0x(s);
                            if !(hex_text_valid(rt) && hex_value(rt) < pow16(64)) {
                                SigReading::Unparsable
                            } else if !(hex_text_valid(st) && hex_value(st) < pow16(64)) {
                                SigReading::Unparsable
                            } else if v < 27 {
                                SigReading::Refused("invalid v value"@)
                            } else {
                                SigReading::Parsed(hex_value(rt), hex_value(st), v - 27 != 0)
                            }
                        },
                    },
                },
                _ => SigReading::Refused("missing signature.s"@),
            },
            _ => SigReading::Refused("missing signature.r"@),
        },
        _ => SigReading::Refused("signature must be object"@),
    }
}

/// Reads a signature from its wire form.
pub fn deserialize_sig(value: &JsonValue) -> (r: Result<Signature, String>)
    ensures
        match read_sig(value@) {
            SigReading::Parsed(rv, sv, p) => r matches Ok(sig) && sig.r.value() == rv
                && sig.s.value() == sv && sig.y_parity == p,
            SigReading::Refused(msg) => r matches Err(e) && e@ == msg,
            SigReading::Unparsable => r is Err,
        },
{
    let obj = match value {
        JsonValue::Object(m) => m,
        _ => {
            return Err("signature must be object".to_owned());
        },
    };
    let r_text = match get_member(obj, "r") {
        Some(JsonValue::String(t)) => t,
        _ => {
            return Err("missing signature.r".to_owned());
        },
    };
    let s_text = match get_member(obj, "s") {
        Some(JsonValue::String(t)) => t,
        _ => {
            return Err("missing signature.s".to_owned());
        },
    };
    let v_value = match get_member(obj, "v") {
        Some(v) => v,
        None => {
            return Err("missing signature.v".to_owned());
        },
    };
    let v: u64 = match v_value {
        JsonValue::Number(JsonNumber::PosInt(u)) => *u,
        JsonValue::String(t) => match parse_u64(t.as_str()) {
            Ok(u) => u,
            Err(e) => {
                return Err(e);
            },
        },
        _ => {
            return Err("invalid signature.v".to_owned());
        },
    };
    let r_digits = strip_hex_prefix(r_text.as_str());
    let s_digits = strip_hex_prefix(s_text.as_str());
    let r = match parse_u256_hex(r_digits.as_str()) {
        Ok(x) => x,
        Err(e) => {
            return Err(e);
        },
    };
    let s = match parse_u256_hex(s_digits.as_str()) {
        Ok(x) => x,
        Err(e) => {
            return Err(e);
        },
    };
    if v < 27 {
        return Err("invalid v value".to_owned());
    }
    Ok(Signature::new(r, s, v - 27 != 0))
}

/// Reading back the wire form of a signature gives the signature.
pub proof fn lemma_signature_round_trip(sig: Signature)
    ensures
        read_sig(sig_json(sig)) == SigReading::Parsed(sig.r.value(), sig.s.value(), sig.y_parity),
{
    reveal_strlit("r");
    reveal_strlit("s");
    reveal_strlit("v");
    let m = sig_json(sig)->Object_0;
    lemma_obj_find(m, "r"@);
    lemma_obj_find(m, "s"@);
    lemma_obj_find(m, "v"@);
    assert(m[0].0 == "r"@ && m[1].0 == "s"@ && m[2].0 == "v"@);
    assert("r"@ != "s"@ && "r"@ != "v"@ && "s"@ != "v"@) by {
        assert("r"@[0] != "s"@[0] && "r"@[0] != "v"@[0] && "s"@[0] != "v"@[0]);
    }
    assert(obj_find(m, "r"@) == Some(0int));
    assert(obj_find(m, "s"@) == Some(1int));
    assert(obj_find(m, "v"@) == Some(2int));
    lemma_u256_bound(sig.r);
    lemma_u256_bound(sig.s);
    lemma_hex_fixed_value(sig.r.value(), 64);
    lemma_hex_fixed_value(sig.s.value(), 64);
    assert(strip_0x(u256_text(sig.r.value())) =~= hex_fixed(sig.r.value(), 64));
    assert(strip_0x(u256_text(sig.s.value())) =~= hex_fixed(sig.s.value(), 64));
}

} // verus!
