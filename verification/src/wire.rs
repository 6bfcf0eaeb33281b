//! The building blocks of the canonical binary encoding: little-endian
//! integers, byte strings prefixed by their length, optional values behind a
//! flag byte, and byte arrays of fixed size.
//!
//! Each block has an encoding, a parser that splits an input into the value
//! read and the bytes that follow it, and a proof that the parser undoes the
//! encoding.

use borsh::{BorshDeserialize, BorshSerialize};
use vstd::bytes::{
    lemma_auto_spec_u32_to_from_le_bytes, lemma_auto_spec_u64_to_from_le_bytes,
    spec_u32_from_le_bytes, spec_u32_to_le_bytes, spec_u64_from_le_bytes, spec_u64_to_le_bytes,
};
use vstd::prelude::*;
use vstd::slice::{slice_subrange, slice_to_vec};

verus! {

/// Why bytes could not be written or read in the canonical encoding.
#[derive(Clone, Copy, Debug, PartialEq, Eq, Structural)]
pub enum DataError {
    /// The input ends before the value is complete.
    UnexpectedEnd,
    /// A flag, a length or a curve point holds a value that the encoding
    /// does not allow.
    Malformed,
    /// Bytes follow the value where none may.
    TrailingBytes,
    /// The value is too large to be written.
    TooLong,
}

/// The encoding of an integer: eight bytes, least significant first.
pub open spec fn word(x: u64) -> Seq<u8> {
    spec_u64_to_le_bytes(x)
}

/// The encoding of a byte string: its length in four bytes, least
/// significant first, then the bytes.
pub open spec fn frame(data: Seq<u8>) -> Seq<u8> {
    spec_u32_to_le_bytes(data.len() as u32) + data
}

/// The encoding of a byte string of any length: its length as an integer,
/// then the bytes.
pub open spec fn long_frame(data: Seq<u8>) -> Seq<u8> {
    word(data.len() as u64) + data
}

/// The encoding of an optional byte string: a zero byte for none, a one byte
/// and the long frame of the string otherwise.
pub open spec fn optional_frame(data: Option<Seq<u8>>) -> Seq<u8> {
    match data {
        None => seq![0u8],
        Some(d) => seq![1u8] + long_frame(d),
    }
}

/// The view of an optional byte vector.
pub open spec fn spec_option_view(data: Option<Vec<u8>>) -> Option<Seq<u8>> {
    match data {
        None => None,
        Some(d) => Some(d@),
    }
}

/// Reads an integer from the front of `input`.
pub open spec fn parse_word(input: Seq<u8>) -> Option<(u64, Seq<u8>)> {
    if input.len() < 8 {
        None
    } else {
        Some((spec_u64_from_le_bytes(input.subrange(0, 8)), input.subrange(8, input.len() as int)))
    }
}

/// Reads `n` bytes from the front of `input`.
pub open spec fn parse_fixed(input: Seq<u8>, n: nat) -> Option<(Seq<u8>, Seq<u8>)> {
    if input.len() < n {
        None
    } else {
        Some((input.subrange(0, n as int), input.subrange(n as int, input.len() as int)))
    }
}

/// Reads a framed byte string from the front of `input`.
pub open spec fn parse_frame(input: Seq<u8>) -> Option<(Seq<u8>, Seq<u8>)> {
    if input.len() < 4 {
        None
    } else {
        parse_fixed(
            input.subrange(4, input.len() as int),
            spec_u32_from_le_bytes(input.subrange(0, 4)) as nat,
        )
    }
}

/// Reads a long frame from the front of `input`.
pub open spec fn parse_long_frame(input: Seq<u8>) -> Option<(Seq<u8>, Seq<u8>)> {
    match parse_word(input) {
        None => None,
        Some((n, body)) => parse_fixed(body, n as nat),
    }
}

/// Reads an optional byte string from the front of `input`.
pub open spec fn parse_optional_frame(input: Seq<u8>) -> Result<
    (Option<Seq<u8>>, Seq<u8>),
    DataError,
> {
    if input.len() < 1 {
        Err(DataError::UnexpectedEnd)
    } else if input[0] == 0 {
        Ok((None, input.subrange(1, input.len() as int)))
    } else if input[0] == 1 {
        match parse_long_frame(input.subrange(1, input.len() as int)) {
            Some((data, rest)) => Ok((Some(data), rest)),
            None => Err(DataError::UnexpectedEnd),
        }
    } else {
        Err(DataError::Malformed)
    }
}

/// `borsh::BorshSerialize::serialize` for `u64`, into a vector: appends the
/// eight bytes of `x`, least significant first. Writing to a vector cannot
/// fail.
#[verifier::external_body]
pub(crate) fn put_word(out: &mut Vec<u8>, x: u64)
    ensures
        final(out)@ == old(out)@ + word(x),
{
    x.serialize(out).unwrap()
}

/// `borsh::BorshSerialize::serialize` for a byte slice, into a vector:
/// appends the length in four bytes and then the bytes. A slice longer than
/// `u32::MAX` is refused before anything is written.
#[verifier::external_body]
pub(crate) fn put_frame(out: &mut Vec<u8>, data: &[u8]) -> (written: bool)
    ensures
        written == (data@.len() <= u32::MAX),
        written ==> final(out)@ == old(out)@ + frame(data@),
        !written ==> final(out)@ == old(out)@,
{
    data.serialize(out).is_ok()
}

/// `borsh::BorshDeserialize::deserialize` for `u64`: reads eight bytes, least
/// significant first, and hands back what follows them; fails on a shorter
/// input.
#[verifier::external_body]
pub(crate) fn take_word<'a>(input: &'a [u8]) -> (taken: Option<(u64, &'a [u8])>)
    ensures
        taken.is_some() == parse_word(input@).is_some(),
        taken matches Some((x, rest)) ==> parse_word(input@) == Some((x, rest@)),
{
    let mut rest = input;
    match u64::deserialize(&mut rest) {
        Ok(x) => Some((x, rest)),
        Err(_) => None,
    }
}

/// `borsh::BorshDeserialize::deserialize` for `Vec<u8>`: reads a length of
/// four bytes and then that many bytes, and hands back what follows them;
/// fails where the input is shorter than that.
#[verifier::external_body]
pub(crate) fn take_frame<'a>(input: &'a [u8]) -> (taken: Option<(Vec<u8>, &'a [u8])>)
    ensures
        taken.is_some() == parse_frame(input@).is_some(),
        taken matches Some((data, rest)) ==> parse_frame(input@) == Some((data@, rest@)),
{
    let mut rest = input;
    match Vec::<u8>::deserialize(&mut rest) {
        Ok(data) => Some((data, rest)),
        Err(_) => None,
    }
}

/// Appends bytes as they are.
pub fn put_bytes(out: &mut Vec<u8>, bytes: &[u8])
    ensures
        final(out)@ == old(out)@ + bytes@,
{
    let mut i: usize = 0;
    while i < bytes.len()
        invariant
            i <= bytes@.len(),
            out@ == old(out)@ + bytes@.subrange(0, i as int),
        decreases bytes@.len() - i,
    {
        out.push(bytes[i]);
        assert(bytes@.subrange(0, i + 1) == bytes@.subrange(0, i as int).push(bytes@[i as int]));
        i += 1;
    }
    assert(bytes@.subrange(0, bytes@.len() as int) == bytes@);
}

/// Appends a byte string of any length behind its length.
pub fn put_long_frame(out: &mut Vec<u8>, data: &[u8])
    ensures
        final(out)@ == old(out)@ + long_frame(data@),
{
    put_word(out, data.len() as u64);
    put_bytes(out, data);
    assert(out@ == old(out)@ + (word(data@.len() as u64) + data@));
}

/// Reads a long frame from the front of `input`.
pub fn take_long_frame<'a>(input: &'a [u8]) -> (taken: Option<(Vec<u8>, &'a [u8])>)
    ensures
        taken.is_some() == parse_long_frame(input@).is_some(),
        taken matches Some((data, rest)) ==> parse_long_frame(input@) == Some((data@, rest@)),
{
    match take_word(input) {
        None => None,
        Some((n, body)) => {
            if n > body.len() as u64 {
                return None;
            }
            let data = slice_to_vec(slice_subrange(body, 0, n as usize));
            Some((data, slice_subrange(body, n as usize, body.len())))
        },
    }
}

/// Reads an array of `N` bytes from the front of `input`.
pub fn take_fixed<'a, const N: usize>(input: &'a [u8]) -> (taken: Option<([u8; N], &'a [u8])>)
    ensures
        taken.is_some() == parse_fixed(input@, N as nat).is_some(),
        taken matches Some((bytes, rest)) ==> parse_fixed(input@, N as nat) == Some(
            (bytes@, rest@),
        ),
{
    if input.len() < N {
        return None;
    }
    let mut bytes: [u8; N] = [0u8; N];
    let mut i: usize = 0;
    while i < N
        invariant
            i <= N <= input@.len(),
            forall|j: int| 0 <= j < i ==> bytes@[j] == input@[j],
        decreases N - i,
    {
        bytes[i] = input[i];
        i += 1;
    }
    assert(bytes@ == input@.subrange(0, N as int));
    Some((bytes, slice_subrange(input, N, input.len())))
}

/// Appends an optional byte string.
pub fn put_optional_frame(out: &mut Vec<u8>, data: &Option<Vec<u8>>)
    ensures
        final(out)@ == old(out)@ + optional_frame(spec_option_view(*data)),
{
    match data {
        None => {
            out.push(0u8);
            assert(out@ == old(out)@ + seq![0u8]);
        },
        Some(d) => {
            out.push(1u8);
            put_long_frame(out, d.as_slice());
            assert(out@ == old(out)@ + (seq![1u8] + long_frame(d@)));
        },
    }
}

/// Reads an optional byte string from the front of `input`.
pub fn take_optional_frame<'a>(input: &'a [u8]) -> (taken: Result<
    (Option<Vec<u8>>, &'a [u8]),
    DataError,
>)
    ensures
        taken matches Ok((data, rest)) ==> parse_optional_frame(input@) == Ok::<_, DataError>(
            (spec_option_view(data), rest@),
        ),
        taken matches Err(e) ==> parse_optional_frame(input@) == Err::<
            (Option<Seq<u8>>, Seq<u8>),
            _,
        >(e),
{
    if input.len() < 1 {
        return Err(DataError::UnexpectedEnd);
    }
    let flag: u8 = input[0];
    let body = slice_subrange(input, 1, input.len());
    if flag == 0 {
        Ok((None, body))
    } else if flag == 1 {
        match take_long_frame(body) {
            Some((data, rest)) => Ok((Some(data), rest)),
            None => Err(DataError::UnexpectedEnd),
        }
    } else {
        Err(DataError::Malformed)
    }
}

/// Compares two byte strings.
pub fn same_bytes(a: &[u8], b: &[u8]) -> (same: bool)
    ensures
        same == (a@ == b@),
{
    if a.len() != b.len() {
        return false;
    }
    let mut i: usize = 0;
    while i < a.len()
        invariant
            i <= a@.len() == b@.len(),
            forall|j: int| 0 <= j < i ==> a@[j] == b@[j],
        decreases a@.len() - i,
    {
        if a[i] != b[i] {
            return false;
        }
        i += 1;
    }
    assert(a@ =~= b@);
    true
}

/// An integer is read back from its encoding, whatever follows it.
pub proof fn lemma_parse_word(x: u64, rest: Seq<u8>)
    ensures
        parse_word(word(x) + rest) == Some((x, rest)),
{
    lemma_auto_spec_u64_to_from_le_bytes();
    let input = word(x) + rest;
    assert(input.subrange(0, 8) == word(x));
    assert(input.subrange(8, input.len() as int) == rest);
}

/// Bytes of a known count are read back, whatever follows them.
pub proof fn lemma_parse_fixed(bytes: Seq<u8>, rest: Seq<u8>)
    ensures
        parse_fixed(bytes + rest, bytes.len()) == Some((bytes, rest)),
{
    let input = bytes + rest;
    assert(input.subrange(0, bytes.len() as int) == bytes);
    assert(input.subrange(bytes.len() as int, input.len() as int) == rest);
}

/// A byte string is read back from its frame, whatever follows it.
pub proof fn lemma_parse_frame(data: Seq<u8>, rest: Seq<u8>)
    requires
        data.len() <= u32::MAX,
    ensures
        parse_frame(frame(data) + rest) == Some((data, rest)),
{
    lemma_auto_spec_u32_to_from_le_bytes();
    let head = spec_u32_to_le_bytes(data.len() as u32);
    let input = frame(data) + rest;
    assert(input.subrange(0, 4) == head);
    assert(input.subrange(4, input.len() as int) == data + rest);
    lemma_parse_fixed(data, rest);
}

/// A byte string is read back from its long frame, whatever follows it.
pub proof fn lemma_parse_long_frame(data: Seq<u8>, rest: Seq<u8>)
    requires
        data.len() <= u64::MAX,
    ensures
        parse_long_frame(long_frame(data) + rest) == Some((data, rest)),
{
    assert(long_frame(data) + rest == word(data.len() as u64) + (data + rest));
    lemma_parse_word(data.len() as u64, data + rest);
    lemma_parse_fixed(data, rest);
}

/// An optional byte string is read back from its encoding, whatever follows
/// it.
pub proof fn lemma_parse_optional_frame(data: Option<Seq<u8>>, rest: Seq<u8>)
    requires
        data matches Some(d) ==> d.len() <= u64::MAX,
    ensures
        parse_optional_frame(optional_frame(data) + rest) == Ok::<_, DataError>((data, rest)),
{
    let input = optional_frame(data) + rest;
    match data {
        None => {
            assert(input.subrange(1, input.len() as int) == rest);
        },
        Some(d) => {
            assert(input.subrange(1, input.len() as int) == long_frame(d) + rest);
            lemma_parse_long_frame(d, rest);
        },
    }
}

/// What the parser of frames accepts is a frame followed by the rest, so no
/// two inputs give the same byte string and rest.
pub proof fn lemma_frame_of_parse(input: Seq<u8>)
    requires
        parse_frame(input).is_some(),
    ensures
        input == frame(parse_frame(input).unwrap().0) + parse_frame(input).unwrap().1,
        parse_frame(input).unwrap().0.len() <= u32::MAX,
{
    lemma_auto_spec_u32_to_from_le_bytes();
    let n = spec_u32_from_le_bytes(input.subrange(0, 4));
    let (data, rest) = parse_frame(input).unwrap();
    assert(spec_u32_to_le_bytes(n) == input.subrange(0, 4));
    assert(input =~= input.subrange(0, 4) + data + rest);
}

} // verus!
