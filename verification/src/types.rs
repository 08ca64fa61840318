//! Plain-value models of the protocol's primitive types: 20-byte account
//! addresses, 32-byte hashes and 256-bit integers held as big-endian bytes.

use vstd::prelude::*;

verus! {

/// A 20-byte account identifier.
#[derive(Debug)]
pub struct Address {
    pub bytes: Vec<u8>,
}

impl View for Address {
    type V = Seq<u8>;

    open spec fn view(&self) -> Seq<u8> {
        self.bytes@
    }
}

impl Address {
    /// The length invariant every address carries.
    pub open spec fn wf(&self) -> bool {
        self@.len() == 20
    }

    /// Builds an address from exactly 20 bytes.
    pub fn from_bytes(bytes: Vec<u8>) -> (r: Address)
        requires
            bytes@.len() == 20,
        ensures
            r@ == bytes@,
            r.wf(),
    {
        Address { bytes }
    }

    pub fn dup(&self) -> (r: Address)
        ensures
            r@ == self@,
    {
        Address { bytes: copy_bytes(&self.bytes) }
    }
}

/// A 32-byte value: a storage slot's content, a code hash, a block hash.
#[derive(Debug)]
pub struct H256 {
    pub bytes: Vec<u8>,
}

impl View for H256 {
    type V = Seq<u8>;

    open spec fn view(&self) -> Seq<u8> {
        self.bytes@
    }
}

impl H256 {
    pub open spec fn wf(&self) -> bool {
        self@.len() == 32
    }

    /// The all-zero word, the value an unwritten storage slot reads as.
    pub fn zero() -> (r: H256)
        ensures
            r@ == zeros(32),
            r.wf(),
    {
        let bytes = make_zeros(32);
        H256 { bytes }
    }

    pub fn dup(&self) -> (r: H256)
        ensures
            r@ == self@,
    {
        H256 { bytes: copy_bytes(&self.bytes) }
    }
}

/// An unsigned 256-bit integer held as 32 big-endian bytes.
#[derive(Debug)]
pub struct U256 {
    pub bytes: Vec<u8>,
}

impl View for U256 {
    type V = Seq<u8>;

    open spec fn view(&self) -> Seq<u8> {
        self.bytes@
    }
}

/// The 32 big-endian bytes of a 64-bit value: 24 zero bytes, then the
/// value's own bytes from most significant to least significant.
pub open spec fn u256_bytes_of_u64(n: u64) -> Seq<u8> {
    Seq::new(32, |i: int| if i < 24 { 0u8 } else { ((n >> ((31 - i) * 8) as u64) & 0xff) as u8 })
}

impl U256 {
    pub open spec fn wf(&self) -> bool {
        self@.len() == 32
    }

    pub fn zero() -> (r: U256)
        ensures
            r@ == zeros(32),
            r.wf(),
    {
        let bytes = make_zeros(32);
        U256 { bytes }
    }

    pub fn from_u64(n: u64) -> (r: U256)
        ensures
            r@ == u256_bytes_of_u64(n),
            r.wf(),
    {
        let mut bytes = make_zeros(24);
        let mut j: usize = 0;
        while j < 8
            invariant
                j <= 8,
                bytes@.len() == 24 + j,
                forall|i: int| 0 <= i < 24 ==> bytes@[i] == 0u8,
                forall|i: int|
                    24 <= i < 24 + j ==> bytes@[i] == ((n >> ((31 - i) * 8) as u64) & 0xff) as u8,
            decreases 8 - j,
        {
            let shift: u64 = ((7 - j) * 8) as u64;
            bytes.push(((n >> shift) & 0xff) as u8);
            j = j + 1;
        }
        proof {
            assert(bytes@ =~= u256_bytes_of_u64(n));
        }
        U256 { bytes }
    }
}

/// A sequence of `n` zero bytes.
pub open spec fn zeros(n: nat) -> Seq<u8> {
    Seq::new(n, |i: int| 0u8)
}

/// Allocates `n` zero bytes.
pub fn make_zeros(n: usize) -> (r: Vec<u8>)
    ensures
        r@ == zeros(n as nat),
{
    let mut r: Vec<u8> = Vec::new();
    let mut i: usize = 0;
    while i < n
        invariant
            i <= n,
            r@.len() == i,
            forall|j: int| 0 <= j < i ==> r@[j] == 0u8,
        decreases n - i,
    {
        r.push(0u8);
        i = i + 1;
    }
    proof {
        assert(r@ =~= zeros(n as nat));
    }
    r
}

/// Copies a byte vector.
pub fn copy_bytes(a: &Vec<u8>) -> (r: Vec<u8>)
    ensures
        r@ == a@,
{
    let mut r: Vec<u8> = Vec::new();
    let mut i: usize = 0;
    while i < a.len()
        invariant
            i <= a@.len(),
            r@ == a@.take(i as int),
        decreases a@.len() - i,
    {
        r.push(a[i]);
        proof {
            assert(a@.take(i + 1) =~= a@.take(i as int).push(a@[i as int]));
        }
        i = i + 1;
    }
    proof {
        assert(a@.take(a@.len() as int) =~= a@);
    }
    r
}

/// Byte-for-byte equality of two vectors.
pub fn bytes_eq(a: &Vec<u8>, b: &Vec<u8>) -> (r: bool)
    ensures
        r <==> a@ == b@,
{
    if a.len() != b.len() {
        proof {
            assert(a@ != b@);
        }
        return false;
    }
    let mut i: usize = 0;
    while i < a.len()
        invariant
            i <= a@.len(),
            a@.len() == b@.len(),
            forall|j: int| 0 <= j < i ==> a@[j] == b@[j],
        decreases a@.len() - i,
    {
        if a[i] != b[i] {
            proof {
                assert(a@ != b@);
            }
            return false;
        }
        i = i + 1;
    }
    proof {
        assert(a@ =~= b@);
    }
    true
}

/// Appends a copy of `src` to `dst`.
pub fn extend_bytes(dst: &mut Vec<u8>, src: &Vec<u8>)
    ensures
        final(dst)@ == old(dst)@ + src@,
{
    let mut i: usize = 0;
    while i < src.len()
        invariant
            i <= src@.len(),
            dst@ == old(dst)@ + src@.take(i as int),
        decreases src@.len() - i,
    {
        dst.push(src[i]);
        proof {
            assert(old(dst)@ + src@.take(i + 1) =~= (old(dst)@ + src@.take(i as int)).push(
                src@[i as int],
            ));
        }
        i = i + 1;
    }
    proof {
        assert(old(dst)@ + src@.take(src@.len() as int) =~= old(dst)@ + src@);
    }
}

} // verus!
