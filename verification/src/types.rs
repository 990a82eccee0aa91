//! Core data types: proof-system modes, the error taxonomy, and the decoded
//! proof structure with its mathematical view.

use vstd::prelude::*;

verus! {

/// The proof format version this verifier understands. A version tag
/// accompanies every proof buffer and is checked before verification.
pub const PROOF_VERSION: u16 = 1;

/// Every embedded field element must lie below this prime modulus.
pub const FIELD_MODULUS: u64 = 0xFFFF_FFFF_0000_0001;

/// Number of field elements a Groth16 proof carries.
pub const GROTH16_ELEMENT_COUNT: usize = 8;

/// Number of field elements a PLONK proof carries.
pub const PLONK_ELEMENT_COUNT: usize = 12;

/// Smallest possible well-formed proof buffer: a version tag (2 bytes), a
/// mode tag (1), three length prefixes (4 each), and the seal (8), with all
/// variable-length slots empty.
pub const MIN_PROOF_LEN: usize = 23;

/// The three supported proof systems, a closed enumeration.
#[derive(Clone, Copy, PartialEq, Eq, Structural, Debug)]
pub enum Mode {
    Stark,
    Groth16,
    Plonk,
}

impl Mode {
    /// The byte tag that marks a proof buffer as belonging to this mode.
    pub open spec fn spec_tag(self) -> u8 {
        match self {
            Mode::Stark => 1,
            Mode::Groth16 => 2,
            Mode::Plonk => 3,
        }
    }

    /// Executable counterpart of [`Mode::spec_tag`].
    pub fn tag(self) -> (r: u8)
        ensures
            r == self.spec_tag(),
    {
        match self {
            Mode::Stark => 1,
            Mode::Groth16 => 2,
            Mode::Plonk => 3,
        }
    }

    /// The canonical name of this mode.
    pub open spec fn spec_name(self) -> Seq<char> {
        match self {
            Mode::Stark => "stark"@,
            Mode::Groth16 => "groth16"@,
            Mode::Plonk => "plonk"@,
        }
    }

    /// Executable counterpart of [`Mode::spec_name`].
    pub fn name(self) -> (r: &'static str)
        ensures
            r@ == self.spec_name(),
    {
        match self {
            Mode::Stark => "stark",
            Mode::Groth16 => "groth16",
            Mode::Plonk => "plonk",
        }
    }

    /// Which mode a name selects: exactly one of the three canonical
    /// names, an exhaustive enumeration with no silent fallback.
    pub open spec fn spec_parse(h: Seq<char>) -> Option<Mode> {
        if h == "stark"@ {
            Some(Mode::Stark)
        } else if h == "groth16"@ {
            Some(Mode::Groth16)
        } else if h == "plonk"@ {
            Some(Mode::Plonk)
        } else {
            None
        }
    }

    /// Parse a mode name.
    pub fn parse(s: &str) -> (r: Option<Mode>)
        ensures
            r == Mode::spec_parse(s@),
    {
        let t = String::from_str(s);
        if t == String::from_str("stark") {
            Some(Mode::Stark)
        } else if t == String::from_str("groth16") {
            Some(Mode::Groth16)
        } else if t == String::from_str("plonk") {
            Some(Mode::Plonk)
        } else {
            None
        }
    }

    /// How many field elements a proof of this mode must carry.
    pub open spec fn spec_count_ok(self, n: nat) -> bool {
        match self {
            Mode::Stark => n >= 1,
            Mode::Groth16 => n == GROTH16_ELEMENT_COUNT,
            Mode::Plonk => n == PLONK_ELEMENT_COUNT,
        }
    }
}

/// Why a verification call rejected its input. All variants are expected,
/// recoverable outcomes at the call site.
#[derive(Clone, Copy, PartialEq, Eq, Structural, Debug)]
pub enum VerifyError {
    /// Structural failure while decoding the proof buffer.
    MalformedInput,
    /// The proof's format version tag is not supported.
    VersionIncompatible,
    /// The proof is bound to a key other than the one presented.
    KeyMismatch,
    /// The presented public values disagree with the proof's commitment.
    PublicInputMismatch,
    /// The proof decoded and bound correctly but the final check failed.
    CryptographicCheckFailed,
}

/// The mathematical content of a decoded proof.
#[verifier::ext_equal]
pub struct ProofView {
    pub version: u16,
    pub mode: Mode,
    pub vk: Seq<u8>,
    pub public_values: Seq<u8>,
    pub elements: Seq<u64>,
    pub seal: u64,
}

impl ProofView {
    /// Structural well-formedness: what the decoder guarantees of every
    /// proof it hands out.
    pub open spec fn wf(self) -> bool {
        &&& self.version == PROOF_VERSION
        &&& self.mode.spec_count_ok(self.elements.len())
        &&& forall|i: int| 0 <= i < self.elements.len() ==> self.elements[i] < FIELD_MODULUS
        &&& self.vk.len() < 0x1_0000_0000
        &&& self.public_values.len() < 0x1_0000_0000
        &&& self.elements.len() < 0x1_0000_0000
    }
}

/// A structured proof, produced only by the decoder.
pub struct DecodedProof {
    pub version: u16,
    pub mode: Mode,
    pub vk: Vec<u8>,
    pub public_values: Vec<u8>,
    pub elements: Vec<u64>,
    pub seal: u64,
}

impl View for DecodedProof {
    type V = ProofView;

    open spec fn view(&self) -> ProofView {
        ProofView {
            version: self.version,
            mode: self.mode,
            vk: self.vk@,
            public_values: self.public_values@,
            elements: self.elements@,
            seal: self.seal,
        }
    }
}

} // verus!
