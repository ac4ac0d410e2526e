//! Contract ABI words: decoding of event topics and payloads, and the
//! 32-byte receiver slot used when dispatching a message.
use ethers::abi::{AbiDecode, AbiEncode};
use ethers::types::{Address as EthAddress, Bytes as EthBytes, H160, H256};
use vstd::prelude::*;

verus! {

#[verifier::external_type_specification]
#[verifier::external_body]
pub struct ExAbiError(ethers::abi::AbiError);

/// Value of the big-endian unsigned integer held in `b`.
pub open spec fn be_value(b: Seq<u8>) -> nat
    decreases b.len(),
{
    if b.len() == 0 {
        0
    } else {
        be_value(b.drop_last()) * 256 + b.last() as nat
    }
}

/// The 20-byte address held in the low end of a 32-byte word.
pub open spec fn low_address(word: Seq<u8>) -> Seq<u8> {
    word.subrange(12, 32)
}

/// A 20-byte address left-padded with zeros into a 32-byte word.
pub open spec fn padded_address(addr: Seq<u8>) -> Seq<u8> {
    Seq::new(12, |i: int| 0u8) + addr
}

/// The 32-bit integer that a 32-byte word decodes to: its lowest four bytes.
pub open spec fn word_u32(word: Seq<u8>) -> u32 {
    be_value(word.subrange(28, 32)) as u32
}

/// The length or offset held by the word at `at`, when the word lies within
/// `data` and its first 28 bytes are zero.
pub open spec fn small_word(data: Seq<u8>, at: int) -> Option<int> {
    if 0 <= at && at + 32 <= data.len() && (forall|i: int| at <= i < at + 28 ==> data[i] == 0) {
        Some(be_value(data.subrange(at + 28, at + 32)) as int)
    } else {
        None
    }
}

/// The byte string that ABI-encoded `data` holds: a head word with the offset
/// of the tail, whose first word is the length of the bytes that follow it.
pub open spec fn abi_bytes(data: Seq<u8>) -> Option<Seq<u8>> {
    match small_word(data, 0) {
        None => None,
        Some(offset) => match small_word(data, offset) {
            None => None,
            Some(len) => if offset + 32 + len <= data.len() {
                Some(data.subrange(offset + 32, offset + 32 + len))
            } else {
                None
            },
        },
    }
}

/// Relies on ethers' `AbiDecode` for `Address`: the word's low 20 bytes,
/// never an error on a full 32-byte word.
#[verifier::external_body]
pub(crate) fn abi_decode_address(word: [u8; 32]) -> (r: Result<[u8; 20], ethers::abi::AbiError>)
    ensures
        match r {
            Ok(a) => a@ == low_address(word@),
            Err(_) => false,
        },
{
    <EthAddress as AbiDecode>::decode(word).map(|a| a.0)
}

/// Relies on ethers' `AbiDecode` for `u32`: the low 32 bits of the word read
/// as a big-endian integer, never an error on a full 32-byte word.
#[verifier::external_body]
pub(crate) fn abi_decode_u32(word: [u8; 32]) -> (r: Result<u32, ethers::abi::AbiError>)
    ensures
        match r {
            Ok(v) => v == word_u32(word@),
            Err(_) => false,
        },
{
    <u32 as AbiDecode>::decode(word)
}

/// Relies on ethers' `AbiDecode` for `[u8; 32]`: the word itself.
#[verifier::external_body]
pub(crate) fn abi_decode_word(word: [u8; 32]) -> (r: Result<[u8; 32], ethers::abi::AbiError>)
    ensures
        match r {
            Ok(w) => w@ == word@,
            Err(_) => false,
        },
{
    <[u8; 32] as AbiDecode>::decode(word)
}

/// Relies on ethers' `AbiDecode` for `Bytes`: a dynamic byte string, or an
/// error where the offset, the length or the bytes do not fit.
#[verifier::external_body]
pub(crate) fn abi_decode_bytes(data: &Vec<u8>) -> (r: Result<Vec<u8>, ethers::abi::AbiError>)
    ensures
        match r {
            Ok(v) => abi_bytes(data@) == Some(v@),
            Err(_) => abi_bytes(data@) is None,
        },
{
    <EthBytes as AbiDecode>::decode(data).map(|b| b.to_vec())
}

/// Relies on ethers' `H256::from(H160)`, which left-pads the address with
/// zeros, and on `AbiEncode` for `H256`, which writes the 32 bytes as they are.
#[verifier::external_body]
pub(crate) fn abi_encode_address(addr: [u8; 20]) -> (r: Vec<u8>)
    ensures
        r@ == padded_address(addr@),
{
    AbiEncode::encode(H256::from(H160(addr)))
}

/// The address held in the low 20 bytes of a 32-byte word.
pub fn address_from_word(word: &[u8; 32]) -> (r: [u8; 20])
    ensures
        r@ == low_address(word@),
{
    let mut r: [u8; 20] = [0u8; 20];
    let mut i: usize = 0;
    while i < 20
        invariant
            0 <= i <= 20,
            forall|k: int| 0 <= k < i ==> r@[k] == word@[k + 12],
        decreases 20 - i,
    {
        r[i] = word[i + 12];
        i = i + 1;
    }
    assert(r@ =~= low_address(word@));
    r
}

/// An address padded into a 32-byte word gives the same address back from
/// the word's low 20 bytes.
pub proof fn lemma_receiver_round_trip(addr: Seq<u8>)
    requires
        addr.len() == 20,
    ensures
        padded_address(addr).len() == 32,
        low_address(padded_address(addr)) == addr,
{
    assert(low_address(padded_address(addr)) =~= addr);
}

} // verus!
