//! Artifact handling: decoding the hex-encoded bytecode field of a
//! precompiled artifact, and resolving a contract out of a compiler's
//! combined output.
//!
//! Reading artifact files and parsing their JSON shells happens outside
//! this library; what arrives here are the plain values those documents
//! carry.

use vstd::prelude::*;

use crate::abi::Interface;
use crate::HarnessError;

verus! {

/// Whether a byte is an ASCII hexadecimal digit.
pub open spec fn is_hex_digit(b: u8) -> bool {
    (0x30 <= b <= 0x39) || (0x41 <= b <= 0x46) || (0x61 <= b <= 0x66)
}

/// The value of an ASCII hexadecimal digit.
pub open spec fn hex_digit_value(b: u8) -> u8 {
    if 0x30 <= b <= 0x39 {
        (b - 0x30) as u8
    } else if 0x41 <= b <= 0x46 {
        (b - 0x41 + 10) as u8
    } else {
        (b - 0x61 + 10) as u8
    }
}

/// The bytes a hexadecimal string denotes: each pair of digits, high
/// nibble first, becomes one byte.
pub open spec fn hex_decoded(s: Seq<u8>) -> Seq<u8> {
    Seq::new(
        s.len() / 2,
        |i: int| (hex_digit_value(s[2 * i]) * 16 + hex_digit_value(s[2 * i + 1])) as u8,
    )
}

/// Relies on hex::decode: it succeeds exactly on even-length, all-digit
/// input, and turns each digit pair into one byte, high nibble first.
#[verifier::external_body]
fn hex_decode(data: &Vec<u8>) -> (r: Option<Vec<u8>>)
    ensures
        r is Some <==> (data@.len() % 2 == 0 && forall|i: int|
            0 <= i < data@.len() ==> is_hex_digit(#[trigger] data@[i])),
        r matches Some(v) ==> v@ == hex_decoded(data@),
{
    hex::decode(data).ok()
}

/// Whether an artifact's bytecode field is well-formed: the `0x` marker
/// followed by an even number of hexadecimal digits.
pub open spec fn valid_bytecode_field(s: Seq<u8>) -> bool {
    &&& s.len() >= 2
    &&& s[0] == 0x30u8
    &&& s[1] == 0x78u8
    &&& s.len() % 2 == 0
    &&& forall|i: int| 2 <= i < s.len() ==> is_hex_digit(#[trigger] s[i])
}

/// Decodes the bytecode field of a precompiled artifact: the field's
/// bytes must start with the `0x` marker, and the rest must be an even
/// number of hexadecimal digits. Succeeds exactly on such input, with the
/// digits decoded pairwise.
pub fn decode_bytecode_hex(field: &Vec<u8>) -> (r: Result<Vec<u8>, HarnessError>)
    ensures
        r is Ok <==> valid_bytecode_field(field@),
        r matches Ok(v) ==> v@ == hex_decoded(field@.skip(2)),
        r matches Err(e) ==> (if field@.len() >= 2 && field@[0] == 0x30u8 && field@[1] == 0x78u8 {
            e == HarnessError::InvalidHex
        } else {
            e == HarnessError::MissingHexPrefix
        }),
{
    if field.len() < 2 || *field.get(0).unwrap() != 0x30 || *field.get(1).unwrap() != 0x78 {
        return Err(HarnessError::MissingHexPrefix);
    }
    let mut digits: Vec<u8> = Vec::new();
    let mut i: usize = 2;
    while i < field.len()
        invariant
            2 <= i <= field@.len(),
            digits@ == field@.subrange(2, i as int),
        decreases field@.len() - i,
    {
        digits.push(*field.get(i).unwrap());
        proof {
            assert(field@.subrange(2, i + 1) =~= field@.subrange(2, i as int).push(
                field@[i as int],
            ));
        }
        i = i + 1;
    }
    proof {
        assert(digits@ =~= field@.skip(2));
    }
    match hex_decode(&digits) {
        Some(v) => {
            proof {
                assert(field@.len() % 2 == 0);
                assert forall|j: int| 2 <= j < field@.len() implies is_hex_digit(
                    #[trigger] field@[j],
                ) by {
                    assert(field@[j] == digits@[j - 2]);
                    assert(is_hex_digit(digits@[j - 2]));
                }
                assert(valid_bytecode_field(field@));
            }
            Ok(v)
        },
        None => {
            proof {
                if valid_bytecode_field(field@) {
                    assert(digits@.len() % 2 == 0);
                    assert(forall|j: int|
                        0 <= j < digits@.len() ==> is_hex_digit(#[trigger] digits@[j]));
                }
            }
            Err(HarnessError::InvalidHex)
        },
    }
}

/// One compiled contract of a combined compiler output: its resolved
/// interface and its deployable bytecode, either of which the compiler may
/// have been asked to omit.
#[derive(Clone, Debug)]
pub struct ZKSArtifact {
    pub abi: Option<Interface>,
    pub bin: Option<Vec<u8>>,
}

/// A compiler's combined output: artifacts keyed by
/// `<source path>:<contract name>`.
pub struct CompilationOutput {
    pub contracts: Vec<(String, ZKSArtifact)>,
}

/// The first artifact stored under the given key, if any.
pub open spec fn find_artifact(entries: Seq<(String, ZKSArtifact)>, key: Seq<char>) -> Option<
    ZKSArtifact,
>
    decreases entries.len(),
{
    if entries.len() == 0 {
        None
    } else if entries[0].0@ == key {
        Some(entries[0].1)
    } else {
        find_artifact(entries.skip(1), key)
    }
}

/// The combined-output key of a contract: its source path and its name,
/// joined by a colon.
pub fn combined_key(path: &str, name: &str) -> (r: String)
    ensures
        r@ == path@ + ":"@ + name@,
{
    let mut r: String = path.to_owned();
    r.append(":");
    r.append(name);
    r
}

impl CompilationOutput {
    /// Resolves the artifact a compilation produced for one contract of
    /// one source file. Absence of the requested key is a fatal
    /// compilation mismatch.
    pub fn find_contract(&self, path: &str, name: &str) -> (r: Result<&ZKSArtifact, HarnessError>)
        ensures
            r is Ok <==> find_artifact(self.contracts@, path@ + ":"@ + name@) is Some,
            r matches Ok(a) ==> find_artifact(self.contracts@, path@ + ":"@ + name@) == Some(*a),
            r matches Err(e) ==> e == HarnessError::ArtifactNotFound,
    {
        let want = combined_key(path, name);
        let ghost key = path@ + ":"@ + name@;
        let n = self.contracts.len();
        proof {
            assert(self.contracts@.skip(0) =~= self.contracts@);
        }
        let mut i: usize = 0;
        while i < n
            invariant
                i <= n,
                n == self.contracts@.len(),
                want@ == key,
                key == path@ + ":"@ + name@,
                find_artifact(self.contracts@, key) == find_artifact(
                    self.contracts@.skip(i as int),
                    key,
                ),
            decreases n - i,
        {
            proof {
                assert(self.contracts@.skip(i as int)[0] == self.contracts@[i as int]);
                assert(self.contracts@.skip(i as int).skip(1) =~= self.contracts@.skip(i as int + 1));
            }
            if self.contracts[i].0 == want {
                proof {
                    assert(find_artifact(self.contracts@.skip(i as int), key) == Some(
                        self.contracts@[i as int].1,
                    ));
                }
                return Ok(&self.contracts[i].1);
            }
            i = i + 1;
        }
        proof {
            assert(self.contracts@.skip(n as int) =~= Seq::<(String, ZKSArtifact)>::empty());
        }
        Err(HarnessError::ArtifactNotFound)
    }
}

} // verus!
