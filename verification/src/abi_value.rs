//! Conversion of action fields into EIP-712 ABI values.
use vstd::prelude::*;
use crate::error::{Error, ErrorV};
use crate::primitives::{
    Address, Decimal, U256, address_lower_hex, hex_of_bytes, decimal_text, nat_text, push_u64_text,
    ser_lowercase,
};

verus! {

/// The ABI types a field can be encoded as (the scalar part of `DynSolType`).
#[derive(Clone, Copy, Debug, PartialEq, Eq, Structural)]
pub enum AbiType {
    Bool,
    Int(usize),
    Uint(usize),
    FixedBytes(usize),
    Address,
    Function,
    Bytes,
    String,
}

/// An encoded ABI value (the part of `DynSolValue` that fields produce).
#[derive(Clone, Copy, Debug, PartialEq, Eq)]
pub enum AbiValue {
    Address(Address),
    FixedBytes([u8; 32], usize),
    Bool(bool),
    Uint(U256, usize),
}

/// The outcome of encoding a field.
pub type AbiResult = Result<AbiValue, Error>;

/// The plain-value view of an [`AbiValue`].
pub enum AbiV {
    Address(Seq<u8>),
    FixedBytes(Seq<u8>, nat),
    Bool(bool),
    Uint(nat, nat),
}

impl AbiValue {
    pub open spec fn view(&self) -> AbiV {
        match self {
            AbiValue::Address(a) => AbiV::Address(a.0@),
            AbiValue::FixedBytes(b, n) => AbiV::FixedBytes(b@, *n as nat),
            AbiValue::Bool(b) => AbiV::Bool(*b),
            AbiValue::Uint(u, n) => AbiV::Uint(u.value(), *n as nat),
        }
    }
}

/// The view of an encoding outcome.
pub open spec fn abi_result_view(r: Result<AbiValue, Error>) -> Result<AbiV, ErrorV> {
    match r {
        Ok(v) => Ok(v@),
        Err(e) => Err(e@),
    }
}

/// The Keccak-256 digest of a byte string.
pub uninterp spec fn keccak256_spec(data: Seq<u8>) -> Seq<u8>;

/// Calls `alloy::primitives::keccak256`. Claimed: the 32-byte digest is the Keccak-256 of
/// the input (named, not spelled out).
#[verifier::external_body]
pub(crate) fn keccak256(data: &[u8]) -> (h: [u8; 32])
    ensures
        h@ == keccak256_spec(data@),
{
    alloy::primitives::keccak256(data).0
}

/// The `Debug` text of an ABI type, as `DynSolType` prints it (for example `Uint(64)`).
pub open spec fn abi_type_debug(t: AbiType) -> Seq<char> {
    match t {
        AbiType::Bool => "Bool"@,
        AbiType::Int(n) => "Int"@ + "("@ + nat_text(n as nat) + ")"@,
        AbiType::Uint(n) => "Uint"@ + "("@ + nat_text(n as nat) + ")"@,
        AbiType::FixedBytes(n) => "FixedBytes"@ + "("@ + nat_text(n as nat) + ")"@,
        AbiType::Address => "Address"@,
        AbiType::Function => "Function"@,
        AbiType::Bytes => "Bytes"@,
        AbiType::String => "String"@,
    }
}

fn sized_debug(name: &str, n: usize) -> (s: String)
    ensures
        s@ == name@ + "("@ + nat_text(n as nat) + ")"@,
{
    let mut s = name.to_owned();
    s.append("(");
    push_u64_text(&mut s, n as u64);
    s.append(")");
    s
}

/// The `Debug` text of an ABI type.
pub fn abi_type_debug_exec(t: &AbiType) -> (s: String)
    ensures
        s@ == abi_type_debug(*t),
{
    match t {
        AbiType::Bool => "Bool".to_owned(),
        AbiType::Int(n) => sized_debug("Int", *n),
        AbiType::Uint(n) => sized_debug("Uint", *n),
        AbiType::FixedBytes(n) => sized_debug("FixedBytes", *n),
        AbiType::Address => "Address".to_owned(),
        AbiType::Function => "Function".to_owned(),
        AbiType::Bytes => "Bytes".to_owned(),
        AbiType::String => "String".to_owned(),
    }
}

/// The error for a value of Rust type `rust_type` that cannot become `t`.
pub open spec fn abi_error(rust_type: Seq<char>, t: AbiType) -> ErrorV {
    ErrorV::AbiEncode(rust_type, abi_type_debug(t))
}

fn encode_error(rust_type: &str, t: &AbiType) -> (e: Error)
    ensures
        e@ == abi_error(rust_type@, *t),
{
    Error::AbiEncode { rust_type: rust_type.to_owned(), abi_type: abi_type_debug_exec(t) }
}

/// The EIP-712 encoding of a string: the Keccak-256 of its UTF-8 bytes, as 32 fixed bytes.
pub open spec fn string_abi(s: Seq<char>) -> AbiV {
    AbiV::FixedBytes(keccak256_spec(vstd::utf8::encode_utf8(s)), 32)
}

fn hash_str(s: &str) -> (v: AbiValue)
    ensures
        v@ == string_abi(s@),
{
    AbiValue::FixedBytes(keccak256(s.as_bytes()), 32)
}

/// Conversion of a Rust value into an EIP-712 ABI value of a requested type.
pub trait ToAbiValue {
    /// The outcome of encoding this value as `t`.
    spec fn spec_abi(&self, t: AbiType) -> Result<AbiV, ErrorV>;

    /// The outcome of encoding the type's default value as `t` (how an absent optional
    /// field of this type is encoded).
    spec fn spec_abi_absent(t: AbiType) -> Result<AbiV, ErrorV>;

    fn to_abi_value(&self, abi_type: &AbiType) -> (r: Result<AbiValue, Error>)
        ensures
            abi_result_view(r) == self.spec_abi(*abi_type),
    ;

    /// Encodes the type's default value as `abi_type`.
    fn absent_to_abi_value(abi_type: &AbiType) -> (r: Result<AbiValue, Error>)
        ensures
            abi_result_view(r) == Self::spec_abi_absent(*abi_type),
    ;
}

/// How an address with the given bytes encodes as `t`: itself as `address`, or its
/// lowercase hex text hashed as `string`.
pub open spec fn address_abi(bytes: Seq<u8>, t: AbiType) -> Result<AbiV, ErrorV> {
    match t {
        AbiType::Address => Ok(AbiV::Address(bytes)),
        AbiType::String => Ok(string_abi(seq!['0', 'x'] + hex_of_bytes(bytes))),
        _ => Err(abi_error("Address"@, t)),
    }
}

impl ToAbiValue for Address {
    open spec fn spec_abi(&self, t: AbiType) -> Result<AbiV, ErrorV> {
        address_abi(self.0@, t)
    }

    open spec fn spec_abi_absent(t: AbiType) -> Result<AbiV, ErrorV> {
        address_abi(Seq::new(20, |i: int| 0u8), t)
    }

    fn to_abi_value(&self, abi_type: &AbiType) -> (r: Result<AbiValue, Error>) {
        match abi_type {
            AbiType::Address => Ok(AbiValue::Address(*self)),
            AbiType::String => {
                let s = ser_lowercase(self);
                Ok(hash_str(s.as_str()))
            },
            _ => Err(encode_error("Address", abi_type)),
        }
    }

    fn absent_to_abi_value(abi_type: &AbiType) -> (r: Result<AbiValue, Error>) {
        let z = Address::zero();
        assert(z.0@ =~= Seq::new(20, |i: int| 0u8));
        z.to_abi_value(abi_type)
    }
}


/// How a string encodes as `t`: hashed as `string`, nothing else.
pub open spec fn text_abi(s: Seq<char>, rust_type: Seq<char>, t: AbiType) -> Result<AbiV, ErrorV> {
    match t {
        AbiType::String => Ok(string_abi(s)),
        _ => Err(abi_error(rust_type, t)),
    }
}

impl ToAbiValue for String {
    open spec fn spec_abi(&self, t: AbiType) -> Result<AbiV, ErrorV> {
        text_abi(self@, "String"@, t)
    }

    open spec fn spec_abi_absent(t: AbiType) -> Result<AbiV, ErrorV> {
        text_abi(Seq::empty(), "String"@, t)
    }

    fn to_abi_value(&self, abi_type: &AbiType) -> (r: Result<AbiValue, Error>) {
        match abi_type {
            AbiType::String => Ok(hash_str(self.as_str())),
            _ => Err(encode_error("String", abi_type)),
        }
    }

    fn absent_to_abi_value(abi_type: &AbiType) -> (r: Result<AbiValue, Error>) {
        String::new().to_abi_value(abi_type)
    }
}

impl ToAbiValue for str {
    open spec fn spec_abi(&self, t: AbiType) -> Result<AbiV, ErrorV> {
        text_abi(self@, "str"@, t)
    }

    open spec fn spec_abi_absent(t: AbiType) -> Result<AbiV, ErrorV> {
        text_abi(Seq::empty(), "str"@, t)
    }

    fn to_abi_value(&self, abi_type: &AbiType) -> (r: Result<AbiValue, Error>) {
        match abi_type {
            AbiType::String => Ok(hash_str(self)),
            _ => Err(encode_error("str", abi_type)),
        }
    }

    fn absent_to_abi_value(abi_type: &AbiType) -> (r: Result<AbiValue, Error>) {
        proof {
            reveal_strlit("");
        }
        "".to_abi_value(abi_type)
    }
}

impl ToAbiValue for Decimal {
    open spec fn spec_abi(&self, t: AbiType) -> Result<AbiV, ErrorV> {
        text_abi(decimal_text(self.spec_mantissa(), self.spec_scale()), "Decimal"@, t)
    }

    open spec fn spec_abi_absent(t: AbiType) -> Result<AbiV, ErrorV> {
        text_abi(decimal_text(0, 0), "Decimal"@, t)
    }

    fn to_abi_value(&self, abi_type: &AbiType) -> (r: Result<AbiValue, Error>) {
        match abi_type {
            AbiType::String => {
                let s = self.to_text();
                Ok(hash_str(s.as_str()))
            },
            _ => Err(encode_error("Decimal", abi_type)),
        }
    }

    fn absent_to_abi_value(abi_type: &AbiType) -> (r: Result<AbiValue, Error>) {
        Decimal::new(0, 0).to_abi_value(abi_type)
    }
}

/// How a boolean encodes as `t`: itself as `bool`, nothing else.
pub open spec fn bool_abi(b: bool, t: AbiType) -> Result<AbiV, ErrorV> {
    match t {
        AbiType::Bool => Ok(AbiV::Bool(b)),
        _ => Err(abi_error("bool"@, t)),
    }
}

impl ToAbiValue for bool {
    open spec fn spec_abi(&self, t: AbiType) -> Result<AbiV, ErrorV> {
        bool_abi(*self, t)
    }

    open spec fn spec_abi_absent(t: AbiType) -> Result<AbiV, ErrorV> {
        bool_abi(false, t)
    }

    fn to_abi_value(&self, abi_type: &AbiType) -> (r: Result<AbiValue, Error>) {
        match abi_type {
            AbiType::Bool => Ok(AbiValue::Bool(*self)),
            _ => Err(encode_error("bool", abi_type)),
        }
    }

    fn absent_to_abi_value(abi_type: &AbiType) -> (r: Result<AbiValue, Error>) {
        false.to_abi_value(abi_type)
    }
}

/// How an unsigned number encodes as `t`: itself as `uint<bits>` (the width is carried
/// along as given), nothing else.
pub open spec fn uint_abi(v: nat, rust_type: Seq<char>, t: AbiType) -> Result<AbiV, ErrorV> {
    match t {
        AbiType::Uint(bits) => Ok(AbiV::Uint(v, bits as nat)),
        _ => Err(abi_error(rust_type, t)),
    }
}

impl ToAbiValue for u64 {
    open spec fn spec_abi(&self, t: AbiType) -> Result<AbiV, ErrorV> {
        uint_abi(*self as nat, "u64"@, t)
    }

    open spec fn spec_abi_absent(t: AbiType) -> Result<AbiV, ErrorV> {
        uint_abi(0, "u64"@, t)
    }

    fn to_abi_value(&self, abi_type: &AbiType) -> (r: Result<AbiValue, Error>) {
        match abi_type {
            AbiType::Uint(bits) => Ok(AbiValue::Uint(U256::from_u64(*self), *bits)),
            _ => Err(encode_error("u64", abi_type)),
        }
    }

    fn absent_to_abi_value(abi_type: &AbiType) -> (r: Result<AbiValue, Error>) {
        0u64.to_abi_value(abi_type)
    }
}

impl ToAbiValue for u32 {
    open spec fn spec_abi(&self, t: AbiType) -> Result<AbiV, ErrorV> {
        uint_abi(*self as nat, "u32"@, t)
    }

    open spec fn spec_abi_absent(t: AbiType) -> Result<AbiV, ErrorV> {
        uint_abi(0, "u32"@, t)
    }

    fn to_abi_value(&self, abi_type: &AbiType) -> (r: Result<AbiValue, Error>) {
        match abi_type {
            AbiType::Uint(bits) => Ok(AbiValue::Uint(U256::from_u32(*self), *bits)),
            _ => Err(encode_error("u32", abi_type)),
        }
    }

    fn absent_to_abi_value(abi_type: &AbiType) -> (r: Result<AbiValue, Error>) {
        0u32.to_abi_value(abi_type)
    }
}

impl ToAbiValue for u128 {
    open spec fn spec_abi(&self, t: AbiType) -> Result<AbiV, ErrorV> {
        uint_abi(*self as nat, "u128"@, t)
    }

    open spec fn spec_abi_absent(t: AbiType) -> Result<AbiV, ErrorV> {
        uint_abi(0, "u128"@, t)
    }

    fn to_abi_value(&self, abi_type: &AbiType) -> (r: Result<AbiValue, Error>) {
        match abi_type {
            AbiType::Uint(bits) => Ok(AbiValue::Uint(U256::from_u128(*self), *bits)),
            _ => Err(encode_error("u128", abi_type)),
        }
    }

    fn absent_to_abi_value(abi_type: &AbiType) -> (r: Result<AbiValue, Error>) {
        0u128.to_abi_value(abi_type)
    }
}

impl ToAbiValue for U256 {
    open spec fn spec_abi(&self, t: AbiType) -> Result<AbiV, ErrorV> {
        uint_abi(self.value(), "U256"@, t)
    }

    open spec fn spec_abi_absent(t: AbiType) -> Result<AbiV, ErrorV> {
        uint_abi(0, "U256"@, t)
    }

    fn to_abi_value(&self, abi_type: &AbiType) -> (r: Result<AbiValue, Error>) {
        match abi_type {
            AbiType::Uint(bits) => Ok(AbiValue::Uint(*self, *bits)),
            _ => Err(encode_error("U256", abi_type)),
        }
    }

    fn absent_to_abi_value(abi_type: &AbiType) -> (r: Result<AbiValue, Error>) {
        U256::zero().to_abi_value(abi_type)
    }
}

/// An optional field encodes as its value when present, and as the default value of its
/// type when absent (an empty string, the zero address, zero, `false`).
impl<T: ToAbiValue> ToAbiValue for Option<T> {
    open spec fn spec_abi(&self, t: AbiType) -> Result<AbiV, ErrorV> {
        match self {
            Some(inner) => inner.spec_abi(t),
            None => T::spec_abi_absent(t),
        }
    }

    open spec fn spec_abi_absent(t: AbiType) -> Result<AbiV, ErrorV> {
        T::spec_abi_absent(t)
    }

    fn to_abi_value(&self, abi_type: &AbiType) -> (r: Result<AbiValue, Error>) {
        match self {
            Some(inner) => inner.to_abi_value(abi_type),
            None => T::absent_to_abi_value(abi_type),
        }
    }

    fn absent_to_abi_value(abi_type: &AbiType) -> (r: Result<AbiValue, Error>) {
        T::absent_to_abi_value(abi_type)
    }
}


/// Encoding an unsigned integer as `uint<bits>` keeps its value, whatever its Rust width and
/// whatever width is asked; an absent optional integer encodes as zero. Addresses encode as
/// their bytes and booleans as themselves.
pub proof fn lemma_abi_keeps_values(a: u32, b: u64, c: u128, d: U256, e: Address, f: bool, bits: usize)
    ensures
        a.spec_abi(AbiType::Uint(bits)) == Ok::<AbiV, ErrorV>(AbiV::Uint(a as nat, bits as nat)),
        b.spec_abi(AbiType::Uint(bits)) == Ok::<AbiV, ErrorV>(AbiV::Uint(b as nat, bits as nat)),
        c.spec_abi(AbiType::Uint(bits)) == Ok::<AbiV, ErrorV>(AbiV::Uint(c as nat, bits as nat)),
        d.spec_abi(AbiType::Uint(bits)) == Ok::<AbiV, ErrorV>(AbiV::Uint(d.value(), bits as nat)),
        Some(b).spec_abi(AbiType::Uint(bits)) == Ok::<AbiV, ErrorV>(AbiV::Uint(b as nat, bits as nat)),
        None::<u64>.spec_abi(AbiType::Uint(bits)) == Ok::<AbiV, ErrorV>(AbiV::Uint(0, bits as nat)),
        None::<u32>.spec_abi(AbiType::Uint(bits)) == Ok::<AbiV, ErrorV>(AbiV::Uint(0, bits as nat)),
        e.spec_abi(AbiType::Address) == Ok::<AbiV, ErrorV>(AbiV::Address(e.0@)),
        f.spec_abi(AbiType::Bool) == Ok::<AbiV, ErrorV>(AbiV::Bool(f)),
{
}

/// Two unsigned integers encode as the same `uint<bits>` value only when they are equal.
pub proof fn lemma_uint_abi_injective(x: u64, y: u64, bits: usize)
    ensures
        x.spec_abi(AbiType::Uint(bits)) == y.spec_abi(AbiType::Uint(bits)) ==> x == y,
{
}


/// Text fields encode as `string`: the Keccak-256 of the UTF-8 bytes of their text, as 32
/// fixed bytes. For a decimal that text is the number written out; for an address asked
/// as a string, its lowercase hex text.
pub proof fn lemma_abi_hashes_text(x: String, d: Decimal, e: Address)
    ensures
        x.spec_abi(AbiType::String) == Ok::<AbiV, ErrorV>(
            AbiV::FixedBytes(keccak256_spec(vstd::utf8::encode_utf8(x@)), 32),
        ),
        d.spec_abi(AbiType::String) == Ok::<AbiV, ErrorV>(
            AbiV::FixedBytes(
                keccak256_spec(vstd::utf8::encode_utf8(decimal_text(d.spec_mantissa(), d.spec_scale()))),
                32,
            ),
        ),
        e.spec_abi(AbiType::String) == Ok::<AbiV, ErrorV>(
            AbiV::FixedBytes(keccak256_spec(vstd::utf8::encode_utf8(address_lower_hex(e))), 32),
        ),
{
}

} // verus!
