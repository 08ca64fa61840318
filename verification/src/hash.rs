//! Bytecode hashing and deterministic address derivation.
//!
//! The two digests themselves are outside work; everything framed around
//! them — the versioned code-hash layout, the create-address preimage, the
//! balance storage key — is this library's own logic.

use vstd::prelude::*;

use crate::types::{zeros, make_zeros, extend_bytes, Address, H256};

verus! {

/// The SHA-256 digest of a byte sequence.
pub uninterp spec fn sha256_of(data: Seq<u8>) -> Seq<u8>;

/// The Keccak-256 digest of a byte sequence.
pub uninterp spec fn keccak256_of(data: Seq<u8>) -> Seq<u8>;

/// Relies on sha2's Sha256: the digest is 32 bytes and depends on the
/// input bytes alone.
#[verifier::external_body]
fn sha256(data: &Vec<u8>) -> (r: Vec<u8>)
    ensures
        r@ == sha256_of(data@),
        r@.len() == 32,
{
    <sha2::Sha256 as sha2::Digest>::digest(data).to_vec()
}

/// Relies on sha3's Keccak256: the digest is 32 bytes and depends on the
/// input bytes alone.
#[verifier::external_body]
fn keccak256(data: &Vec<u8>) -> (r: Vec<u8>)
    ensures
        r@ == keccak256_of(data@),
        r@.len() == 32,
{
    <sha3::Keccak256 as sha3::Digest>::digest(data).to_vec()
}

/// Bytecode the protocol can hash: a whole, odd number of 32-byte words,
/// fewer than 2^16 of them.
pub open spec fn valid_bytecode_shape(code: Seq<u8>) -> bool {
    &&& code.len() % 32 == 0
    &&& (code.len() / 32) % 2 == 1
    &&& code.len() / 32 < 65536
}

/// The code hash of a bytecode: its SHA-256 digest with the first byte
/// replaced by the format version (1), the second zeroed, and the third and
/// fourth holding the big-endian count of 32-byte words.
pub open spec fn bytecode_hash_of(code: Seq<u8>) -> Seq<u8> {
    let digest = sha256_of(code);
    let words = code.len() / 32;
    Seq::new(
        32,
        |i: int|
            if i == 0 {
                1u8
            } else if i == 1 {
                0u8
            } else if i == 2 {
                ((words / 256) % 256) as u8
            } else if i == 3 {
                (words % 256) as u8
            } else {
                digest[i]
            },
    )
}

/// Hashes a bytecode, rejecting byte sequences that are not a whole, odd
/// number of 32-byte words or that are too long to fit the length field.
/// Identical bytecode always yields the identical hash.
pub fn hash_bytecode(code: &Vec<u8>) -> (r: Result<H256, crate::HarnessError>)
    ensures
        r is Ok <==> valid_bytecode_shape(code@),
        r matches Ok(h) ==> h@ == bytecode_hash_of(code@) && h.wf(),
        r matches Err(e) ==> e == crate::HarnessError::InvalidBytecodeShape,
{
    let len = code.len();
    if len % 32 != 0 || (len / 32) % 2 != 1 || len / 32 >= 65536 {
        return Err(crate::HarnessError::InvalidBytecodeShape);
    }
    let words = len / 32;
    let mut digest = sha256(code);
    digest.set(0, 1u8);
    digest.set(1, 0u8);
    digest.set(2, ((words / 256) % 256) as u8);
    digest.set(3, (words % 256) as u8);
    proof {
        assert(digest@ =~= bytecode_hash_of(code@));
    }
    Ok(H256 { bytes: digest })
}

/// Re-hashing the same bytecode byte sequence always yields the same stored
/// code hash: the code hash is a pure function of the bytecode's bytes.
pub proof fn lemma_bytecode_hash_deterministic(a: Seq<u8>, b: Seq<u8>)
    requires
        a == b,
    ensures
        bytecode_hash_of(a) == bytecode_hash_of(b),
{
}

/// A 20-byte address left-padded with zeros to a 32-byte word.
pub open spec fn padded_address(addr: Seq<u8>) -> Seq<u8> {
    zeros(12) + addr
}

/// Pads an address to a 32-byte word.
pub fn pad_address(addr: &Address) -> (r: Vec<u8>)
    requires
        addr.wf(),
    ensures
        r@ == padded_address(addr@),
        r@.len() == 32,
{
    let mut r = make_zeros(12);
    extend_bytes(&mut r, &addr.bytes);
    r
}

/// The ASCII bytes of the create-address domain separator, `zksyncCreate`.
pub open spec fn create_prefix_bytes() -> Seq<u8> {
    seq![0x7au8, 0x6bu8, 0x73u8, 0x79u8, 0x6eu8, 0x63u8, 0x43u8, 0x72u8, 0x65u8, 0x61u8, 0x74u8, 0x65u8]
}

/// The address a deployment by `sender` with the given nonce lands at:
/// the last 20 bytes of the Keccak-256 digest of the domain-separator hash,
/// the padded sender address and the nonce as a 32-byte word.
pub open spec fn create_address_of(sender: Seq<u8>, nonce: u64) -> Seq<u8> {
    let preimage = keccak256_of(create_prefix_bytes()) + padded_address(sender)
        + crate::types::u256_bytes_of_u64(nonce);
    keccak256_of(preimage).skip(12)
}

/// Derives the deployment address for a sender and the nonce its deployment
/// transaction uses. A pure function of the pair: two deployments from the
/// same sender at the same nonce land at the same address, whatever world
/// state they run in.
pub fn deployed_address_create(sender: &Address, nonce: u64) -> (r: Address)
    requires
        sender.wf(),
    ensures
        r@ == create_address_of(sender@, nonce),
        r.wf(),
{
    let mut prefix: Vec<u8> = Vec::new();
    prefix.push(0x7a);
    prefix.push(0x6b);
    prefix.push(0x73);
    prefix.push(0x79);
    prefix.push(0x6e);
    prefix.push(0x63);
    prefix.push(0x43);
    prefix.push(0x72);
    prefix.push(0x65);
    prefix.push(0x61);
    prefix.push(0x74);
    prefix.push(0x65);
    proof {
        assert(prefix@ =~= create_prefix_bytes());
    }
    let mut preimage = keccak256(&prefix);
    let padded = pad_address(sender);
    extend_bytes(&mut preimage, &padded);
    let nonce_word = crate::types::U256::from_u64(nonce);
    extend_bytes(&mut preimage, &nonce_word.bytes);
    let digest = keccak256(&preimage);
    let mut out: Vec<u8> = Vec::new();
    let mut i: usize = 12;
    while i < 32
        invariant
            12 <= i <= 32,
            digest@.len() == 32,
            out@ == digest@.subrange(12, i as int),
        decreases 32 - i,
    {
        out.push(digest[i]);
        proof {
            assert(digest@.subrange(12, i + 1) =~= digest@.subrange(12, i as int).push(
                digest@[i as int],
            ));
        }
        i = i + 1;
    }
    proof {
        assert(out@ =~= keccak256_of(preimage@).skip(12));
    }
    Address { bytes: out }
}

/// Deriving a deployment address reads nothing but the sender and the
/// nonce: equal pairs give the identical address, in independent world
/// states as much as in one.
pub proof fn lemma_create_address_deterministic(s1: Seq<u8>, n1: u64, s2: Seq<u8>, n2: u64)
    requires
        s1 == s2,
        n1 == n2,
    ensures
        create_address_of(s1, n1) == create_address_of(s2, n2),
{
}

/// The storage slot inside the ether-token ledger that holds an address's
/// balance: the Keccak-256 digest of the padded address followed by the
/// 32-byte index of the balances mapping (zero).
pub open spec fn balance_slot_of(addr: Seq<u8>) -> Seq<u8> {
    keccak256_of(padded_address(addr) + zeros(32))
}

/// Computes the balance storage slot for an address.
pub fn key_for_eth_balance(addr: &Address) -> (r: H256)
    requires
        addr.wf(),
    ensures
        r@ == balance_slot_of(addr@),
        r.wf(),
{
    let mut preimage = pad_address(addr);
    let z = make_zeros(32);
    extend_bytes(&mut preimage, &z);
    let digest = keccak256(&preimage);
    H256 { bytes: digest }
}

/// The hash a pre-protocol block is labelled with: the Keccak-256 digest of
/// the block number's four big-endian bytes.
pub open spec fn legacy_block_hash_of(number: u32) -> Seq<u8> {
    keccak256_of(
        seq![
            ((number >> 24u32) & 0xff) as u8,
            ((number >> 16u32) & 0xff) as u8,
            ((number >> 8u32) & 0xff) as u8,
            (number & 0xff) as u8,
        ],
    )
}

/// Computes the legacy hash for a block number.
pub fn legacy_miniblock_hash(number: u32) -> (r: H256)
    ensures
        r@ == legacy_block_hash_of(number),
        r.wf(),
{
    let mut preimage: Vec<u8> = Vec::new();
    preimage.push(((number >> 24u32) & 0xff) as u8);
    preimage.push(((number >> 16u32) & 0xff) as u8);
    preimage.push(((number >> 8u32) & 0xff) as u8);
    preimage.push((number & 0xff) as u8);
    proof {
        assert(preimage@ =~= seq![
            ((number >> 24u32) & 0xff) as u8,
            ((number >> 16u32) & 0xff) as u8,
            ((number >> 8u32) & 0xff) as u8,
            (number & 0xff) as u8,
        ]);
    }
    let digest = keccak256(&preimage);
    H256 { bytes: digest }
}

} // verus!
