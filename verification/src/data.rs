//! Instruction payloads: a one-byte tag, a fixed header that is reinterpreted
//! in place, and an optional trailing value in a variable-length encoding.
use vstd::prelude::*;
use vstd::bytes::{lemma_auto_spec_u32_to_from_le_bytes, spec_u32_from_le_bytes, spec_u32_to_le_bytes};
use vstd::slice::slice_subrange;
use crate::errors::{DecodeError, ErrorCode};

verus! {

/// The error type of borsh's readers and writers.
#[verifier::external_type_specification]
#[verifier::external_body]
pub struct ExBorshError(borsh::io::Error);

/// Whether `bytes` is the borsh encoding of a byte vector: a little-endian
/// `u32` count followed by exactly that many bytes.
pub open spec fn is_borsh_bytes(bytes: Seq<u8>) -> bool {
    bytes.len() >= 4 && bytes.len() - 4 == spec_u32_from_le_bytes(bytes.subrange(0, 4))
}

/// The borsh encoding of the byte vector `value`.
pub open spec fn borsh_bytes(value: Seq<u8>) -> Seq<u8> {
    spec_u32_to_le_bytes(value.len() as u32) + value
}

/// Calls `borsh::from_slice` for a byte vector. It succeeds exactly on a
/// little-endian `u32` count followed by that many bytes and nothing more,
/// and then returns those bytes.
#[verifier::external_body]
fn borsh_from_slice(bytes: &[u8]) -> (decoded: Result<Vec<u8>, borsh::io::Error>)
    ensures
        decoded is Ok <==> is_borsh_bytes(bytes@),
        decoded matches Ok(value) ==> value@ == bytes@.subrange(4, bytes@.len() as int),
{
    borsh::from_slice::<Vec<u8>>(bytes)
}

/// Calls `borsh::to_vec` for a byte vector. It fails exactly where the count
/// does not fit a `u32`, and otherwise returns the count in little-endian
/// order followed by the bytes.
#[verifier::external_body]
fn borsh_to_vec(value: &Vec<u8>) -> (encoded: Result<Vec<u8>, borsh::io::Error>)
    ensures
        encoded is Ok <==> value@.len() <= u32::MAX,
        encoded matches Ok(bytes) ==> bytes@ == borsh_bytes(value@),
{
    borsh::to_vec(value)
}

/// Calls `bytemuck::from_bytes` for an array of `N` bytes, which reads the
/// slice in place as that array. bytemuck panics on a slice of another
/// length; a byte array has no alignment to miss.
#[verifier::external_body]
fn header_from_bytes<const N: usize>(bytes: &[u8]) -> (header: &[u8; N])
    requires
        bytes@.len() == N,
    ensures
        header@ == bytes@,
{
    bytemuck::from_bytes::<[u8; N]>(bytes)
}

/// Calls `bytemuck::bytes_of` for an array of `N` bytes, which hands out the
/// array's own bytes.
#[verifier::external_body]
fn bytes_of_array<const N: usize>(array: &[u8; N]) -> (bytes: &[u8])
    ensures
        bytes@ == array@,
{
    bytemuck::bytes_of::<[u8; N]>(array)
}

/// The bytes of a fixed-layout value, as they go on the wire.
pub fn fixed_bytes<const N: usize>(value: &[u8; N]) -> (bytes: Vec<u8>)
    ensures
        bytes@ == value@,
{
    vstd::slice::slice_to_vec(bytes_of_array(value))
}

/// A value that may follow the fixed header of a payload.
///
/// A type declares how its values read from the bytes that remain after the
/// header, and which value stands where no bytes remain.
pub trait TrailingData: View + Sized {
    /// The value that a non-empty run of trailing bytes encodes, if it
    /// encodes one.
    spec fn parse(bytes: Seq<u8>) -> Option<Self::V>;

    /// The value of a payload that ends with its header.
    spec fn empty_value() -> Self::V;

    /// The bytes that encode `value`, if it can be encoded.
    spec fn serialize(value: Self::V) -> Option<Seq<u8>>;

    /// The value of a payload that ends with its header.
    fn empty() -> (value: Self)
        ensures
            value@ == Self::empty_value(),
    ;

    /// Reads a value from all of `bytes`.
    fn decode(bytes: &[u8]) -> (decoded: Result<Self, ErrorCode>)
        ensures
            match decoded {
                Ok(value) => Self::parse(bytes@) == Some(value@),
                Err(e) => Self::parse(bytes@) is None && e == ErrorCode::Decode(
                    DecodeError::MalformedTrailing,
                ),
            },
    ;

    /// Writes the value as trailing bytes; `None` where it has no encoding.
    fn encode(&self) -> (encoded: Option<Vec<u8>>)
        ensures
            match encoded {
                Some(bytes) => Self::serialize(self@) == Some(bytes@),
                None => Self::serialize(self@) is None,
            },
    ;

    /// What is written reads back: an encoding without bytes belongs to the
    /// empty value, and any other parses to the value it was written from.
    proof fn lemma_serialize_parse(value: Self::V)
        ensures
            Self::serialize(value) matches Some(bytes) ==> if bytes.len() == 0 {
                value == Self::empty_value()
            } else {
                Self::parse(bytes) == Some(value)
            },
    ;
}

/// No trailing value: every trailing byte is malformed.
impl TrailingData for () {
    open spec fn parse(bytes: Seq<u8>) -> Option<()> {
        if bytes.len() == 0 {
            Some(())
        } else {
            None
        }
    }

    open spec fn empty_value() -> () {
        ()
    }

    open spec fn serialize(value: ()) -> Option<Seq<u8>> {
        Some(Seq::empty())
    }

    fn empty() -> (value: ()) {
        ()
    }

    fn decode(bytes: &[u8]) -> (decoded: Result<(), ErrorCode>) {
        if bytes.len() == 0 {
            Ok(())
        } else {
            Err(ErrorCode::Decode(DecodeError::MalformedTrailing))
        }
    }

    fn encode(&self) -> (encoded: Option<Vec<u8>>) {
        Some(Vec::new())
    }

    proof fn lemma_serialize_parse(value: ()) {
    }
}

/// A trailing list of bytes in borsh's encoding; the empty list by default.
impl TrailingData for Vec<u8> {
    open spec fn parse(bytes: Seq<u8>) -> Option<Seq<u8>> {
        if is_borsh_bytes(bytes) {
            Some(bytes.subrange(4, bytes.len() as int))
        } else {
            None
        }
    }

    open spec fn empty_value() -> Seq<u8> {
        Seq::empty()
    }

    open spec fn serialize(value: Seq<u8>) -> Option<Seq<u8>> {
        if value.len() <= u32::MAX {
            Some(borsh_bytes(value))
        } else {
            None
        }
    }

    fn empty() -> (value: Vec<u8>) {
        Vec::new()
    }

    fn decode(bytes: &[u8]) -> (decoded: Result<Vec<u8>, ErrorCode>) {
        match borsh_from_slice(bytes) {
            Ok(value) => Ok(value),
            Err(_) => Err(ErrorCode::Decode(DecodeError::MalformedTrailing)),
        }
    }

    fn encode(&self) -> (encoded: Option<Vec<u8>>) {
        match borsh_to_vec(self) {
            Ok(bytes) => Some(bytes),
            Err(_) => None,
        }
    }

    proof fn lemma_serialize_parse(value: Seq<u8>) {
        if value.len() <= u32::MAX {
            lemma_auto_spec_u32_to_from_le_bytes();
            let bytes = borsh_bytes(value);
            let count = spec_u32_to_le_bytes(value.len() as u32);
            assert(bytes.subrange(0, 4) =~= count);
        }
    }
}

/// A decoded payload: the fixed header, bit for bit, and the trailing value.
#[derive(Clone, Debug, PartialEq, Eq)]
pub struct InstructionData<const N: usize, T> {
    /// The `N` bytes of the fixed header.
    pub header: [u8; N],
    /// The value after the header, or the type's empty value.
    pub trailing: T,
}

/// What decoding `data` with a header of `n` bytes yields: the header bytes
/// and the view of the trailing value.
pub open spec fn decode_data_spec<T: TrailingData>(n: nat, data: Seq<u8>) -> Result<
    (Seq<u8>, T::V),
    ErrorCode,
> {
    if data.len() < n {
        Err(ErrorCode::Decode(DecodeError::TooShort { expected: n as usize, actual: data.len() as usize }))
    } else if data.len() == n {
        Ok((data, T::empty_value()))
    } else {
        match T::parse(data.subrange(n as int, data.len() as int)) {
            Some(trailing) => Ok((data.subrange(0, n as int), trailing)),
            None => Err(ErrorCode::Decode(DecodeError::MalformedTrailing)),
        }
    }
}

/// The bytes that carry a header and a trailing value, where the trailing
/// value can be encoded.
pub open spec fn encode_data_spec<T: TrailingData>(header: Seq<u8>, trailing: T::V) -> Option<
    Seq<u8>,
> {
    match T::serialize(trailing) {
        Some(bytes) => Some(header + bytes),
        None => None,
    }
}

/// Decodes the payload that remains after the tag. The first `N` bytes are
/// read in place as the header; a shorter payload is `TooShort` with both
/// lengths and yields no value at all. Bytes after the header are decoded as
/// the trailing value, and are `MalformedTrailing` where they encode none;
/// where no bytes remain the trailing value is the type's empty value.
pub fn decode_data<const N: usize, T: TrailingData>(data: &[u8]) -> (decoded: Result<
    InstructionData<N, T>,
    ErrorCode,
>)
    ensures
        match decoded {
            Ok(value) => decode_data_spec::<T>(N as nat, data@) == Ok::<(Seq<u8>, T::V), ErrorCode>(
                (value.header@, value.trailing@),
            ),
            Err(e) => decode_data_spec::<T>(N as nat, data@) == Err::<(Seq<u8>, T::V), ErrorCode>(e),
        },
{
    let len = data.len();
    if len < N {
        return Err(ErrorCode::Decode(DecodeError::TooShort { expected: N, actual: len }));
    }
    let header: [u8; N] = *header_from_bytes::<N>(slice_subrange(data, 0, N));
    if len == N {
        assert(data@.subrange(0, N as int) =~= data@);
        Ok(InstructionData { header, trailing: T::empty() })
    } else {
        match T::decode(slice_subrange(data, N, len)) {
            Ok(trailing) => Ok(InstructionData { header, trailing }),
            Err(e) => Err(e),
        }
    }
}

/// Encodes a header and a trailing value as the payload after the tag;
/// `None` where the trailing value has no encoding.
pub fn encode_data<const N: usize, T: TrailingData>(header: &[u8; N], trailing: &T) -> (encoded:
    Option<Vec<u8>>)
    ensures
        match encoded {
            Some(bytes) => encode_data_spec::<T>(header@, trailing@) == Some(bytes@),
            None => encode_data_spec::<T>(header@, trailing@) is None,
        },
{
    match trailing.encode() {
        None => None,
        Some(tail) => {
            let mut bytes = fixed_bytes(header);
            let mut tail = tail;
            bytes.append(&mut tail);
            Some(bytes)
        },
    }
}

/// A payload shorter than the header is `TooShort` with both lengths,
/// whatever it holds: no header and no trailing value come out of it.
pub proof fn lemma_short_payload_is_too_short<T: TrailingData>(n: nat, data: Seq<u8>)
    requires
        data.len() < n,
    ensures
        decode_data_spec::<T>(n, data) == Err::<(Seq<u8>, T::V), ErrorCode>(
            ErrorCode::Decode(
                DecodeError::TooShort { expected: n as usize, actual: data.len() as usize },
            ),
        ),
{
}

/// Round trip: whatever `encode_data` writes for a header of `n` bytes and a
/// trailing value, `decode_data` reads back as the same header, bit for bit,
/// and the same trailing value.
pub proof fn lemma_decode_encode<T: TrailingData>(n: nat, header: Seq<u8>, trailing: T::V)
    requires
        header.len() == n,
    ensures
        encode_data_spec::<T>(header, trailing) matches Some(bytes) ==> decode_data_spec::<T>(
            n,
            bytes,
        ) == Ok::<(Seq<u8>, T::V), ErrorCode>((header, trailing)),
{
    T::lemma_serialize_parse(trailing);
    match T::serialize(trailing) {
        Some(tail) => {
            let bytes = header + tail;
            assert(bytes.subrange(0, n as int) =~= header);
            assert(bytes.subrange(n as int, bytes.len() as int) =~= tail);
            if tail.len() == 0 {
            }
        },
        None => {},
    }
}

/// Splits a payload into its leading tag and the rest. A payload without a
/// tag is `TooShort`.
pub fn split_discriminant(payload: &[u8]) -> (split: Result<(u8, &[u8]), ErrorCode>)
    ensures
        match split {
            Ok((tag, rest)) => payload@.len() >= 1 && tag == payload@[0] && rest@
                == payload@.subrange(1, payload@.len() as int),
            Err(e) => payload@.len() == 0 && e == ErrorCode::Decode(
                DecodeError::TooShort { expected: 1, actual: 0 },
            ),
        },
{
    if payload.len() == 0 {
        Err(ErrorCode::Decode(DecodeError::TooShort { expected: 1, actual: 0 }))
    } else {
        Ok((payload[0], slice_subrange(payload, 1, payload.len())))
    }
}

/// A tag followed by a payload, as a nested call or a client sends it.
pub fn tag_payload(tag: u8, data: &[u8]) -> (payload: Vec<u8>)
    ensures
        payload@ == seq![tag] + data@,
{
    let mut payload: Vec<u8> = Vec::new();
    payload.push(tag);
    payload.extend_from_slice(data);
    payload
}

} // verus!
