//! The decisions that drive the wrapping of a RISC-V program proof.
//!
//! The proof passes through three phases: the RISC wrapper (a STARK over the
//! program proof), the compression (a STARK over the wrapper proof) and the
//! SNARK wrapper (a PLONK proof over the compressed proof). After each phase
//! the new proof is checked by its verifier, and a proof that does not verify
//! stops the run with an error that names the phase (a phase on its own
//! returns that error; a whole run panics with it). The proving itself and
//! the file I/O are done by the caller; this module says what to do next and
//! with which parameters.
use vstd::arithmetic::power2::{lemma2_to64, pow2};
use vstd::prelude::*;

verus! {

/// Base-two logarithm of the evaluation domain of the SNARK wrapper circuit.
pub const L1_VERIFIER_DOMAIN_SIZE_LOG: usize = 24;

/// Size of the SNARK wrapper evaluation domain: 2 to the power
/// `L1_VERIFIER_DOMAIN_SIZE_LOG`.
pub const L1_VERIFIER_DOMAIN_SIZE: usize = 16777216;

/// Number of random padding terms added when the SNARK is made zero-knowledge:
/// witness polynomials are opened at two points, and the grand products of the
/// permutation and of the lookup are opened indirectly, two points each.
pub const NUM_PADDING_TERMS: usize = 6;

/// A phase of the wrapping pipeline.
#[derive(Clone, Copy, Debug, PartialEq, Eq, Structural)]
pub enum Phase {
    RiscWrapper,
    Compression,
    SnarkWrapper,
}

/// Why a run stopped.
#[derive(Clone, Copy, Debug, PartialEq, Eq)]
pub enum PipelineError {
    /// The proof produced in `phase` was rejected by its verifier.
    ProofNotValid { phase: Phase },
}

impl PipelineError {
    /// The text of the error.
    pub fn message(&self) -> (msg: &'static str)
        ensures
            (match *self {
                PipelineError::ProofNotValid { phase: Phase::RiscWrapper } => msg@
                    == "Risc wrapper proof is not valid"@,
                PipelineError::ProofNotValid { phase: Phase::Compression } => msg@
                    == "Compression proof is not valid"@,
                PipelineError::ProofNotValid { phase: Phase::SnarkWrapper } => msg@
                    == "Snark wrapper proof is not valid"@,
            }),
    {
        match self {
            PipelineError::ProofNotValid { phase: Phase::RiscWrapper } => {
                "Risc wrapper proof is not valid"
            },
            PipelineError::ProofNotValid { phase: Phase::Compression } => {
                "Compression proof is not valid"
            },
            PipelineError::ProofNotValid { phase: Phase::SnarkWrapper } => {
                "Snark wrapper proof is not valid"
            },
        }
    }
}

/// The outcome of checking the proof of `phase`: it goes on when the verifier
/// accepted the proof and stops with the phase's error otherwise.
pub open spec fn spec_check_proof(phase: Phase, is_valid: bool) -> Result<(), PipelineError> {
    if is_valid {
        Ok(())
    } else {
        Err(PipelineError::ProofNotValid { phase })
    }
}

/// Turns the verdict of the verifier of `phase` into the run's outcome.
pub fn check_proof(phase: Phase, is_valid: bool) -> (r: Result<(), PipelineError>)
    ensures
        r == spec_check_proof(phase, is_valid),
        r is Ok <==> is_valid,
{
    if is_valid {
        Ok(())
    } else {
        Err(PipelineError::ProofNotValid { phase })
    }
}

/// Where the KZG reference string of the SNARK comes from.
#[derive(Clone, Copy, Debug, PartialEq, Eq, Structural)]
pub enum CrsSource {
    /// Read from the trusted setup file that the caller named.
    TrustedSetupFile,
    /// Generated deterministically for a domain of `size` points.
    Generated { size: usize },
}

/// The reference string is read from the trusted setup file when one is
/// named, and generated for the whole SNARK domain otherwise.
pub open spec fn spec_crs_source(has_trusted_setup_file: bool) -> CrsSource {
    if has_trusted_setup_file {
        CrsSource::TrustedSetupFile
    } else {
        CrsSource::Generated { size: L1_VERIFIER_DOMAIN_SIZE }
    }
}

/// Chooses where the reference string comes from.
pub fn crs_source(trusted_setup_file: &Option<String>) -> (src: CrsSource)
    ensures
        src == spec_crs_source(trusted_setup_file is Some),
        src matches CrsSource::Generated { size } ==> size == pow2(
            L1_VERIFIER_DOMAIN_SIZE_LOG as nat,
        ),
{
    proof {
        lemma_domain_size();
    }
    match trusted_setup_file {
        Some(_) => CrsSource::TrustedSetupFile,
        None => CrsSource::Generated { size: 1usize << L1_VERIFIER_DOMAIN_SIZE_LOG },
    }
}

/// The size of the SNARK domain is 2 to the power of its logarithm, as the
/// generator of the reference string requires.
pub proof fn lemma_domain_size()
    ensures
        L1_VERIFIER_DOMAIN_SIZE == pow2(L1_VERIFIER_DOMAIN_SIZE_LOG as nat),
        (1usize << L1_VERIFIER_DOMAIN_SIZE_LOG) == L1_VERIFIER_DOMAIN_SIZE,
{
    lemma2_to64();
    assert((1usize << 24usize) == 16777216usize) by (bit_vector);
}

/// A generated reference string has one point for every row of the domain
/// the SNARK circuit is finalised to, with or without zero-knowledge padding.
pub proof fn lemma_generated_crs_covers_domain(use_zk: bool)
    ensures
        spec_crs_source(false) == (CrsSource::Generated {
            size: pow2(spec_snark_finalization(use_zk).domain_size_log as nat) as usize,
        }),
{
    lemma_domain_size();
}

/// How the SNARK circuit is finalised before proving.
#[derive(Clone, Copy, Debug, PartialEq, Eq, Structural)]
pub struct SnarkFinalization {
    /// Base-two logarithm of the size the circuit is padded to.
    pub domain_size_log: usize,
    /// Number of random padding terms, when the proof is made zero-knowledge.
    pub padding_terms: Option<usize>,
}

/// The circuit is always padded to the full domain; zero-knowledge proving
/// adds the random padding terms.
pub open spec fn spec_snark_finalization(use_zk: bool) -> SnarkFinalization {
    SnarkFinalization {
        domain_size_log: L1_VERIFIER_DOMAIN_SIZE_LOG,
        padding_terms: if use_zk {
            Some(NUM_PADDING_TERMS)
        } else {
            None
        },
    }
}

/// Chooses how the SNARK circuit is finalised.
pub fn snark_finalization(use_zk: bool) -> (f: SnarkFinalization)
    ensures
        f == spec_snark_finalization(use_zk),
{
    SnarkFinalization {
        domain_size_log: L1_VERIFIER_DOMAIN_SIZE_LOG,
        padding_terms: if use_zk {
            Some(2 + 2 + 2)
        } else {
            None
        },
    }
}

/// The line that announces the proving mode.
pub fn proving_mode_message(use_zk: bool) -> (msg: &'static str)
    ensures
        use_zk ==> msg@ == "using zk (padding) proving"@,
        !use_zk ==> msg@ == "using non-zk (no padding) proving"@,
{
    if use_zk {
        "using zk (padding) proving"
    } else {
        "using non-zk (no padding) proving"
    }
}

/// A file that a run writes into its output directory.
#[derive(Clone, Copy, Debug, PartialEq, Eq, Structural)]
pub enum OutputFile {
    RiscWrapperVk,
    RiscWrapperProof,
    SnarkProof,
    SnarkVk,
    ExpectedRiscWrapperVk,
    ExpectedSnarkVk,
}

impl OutputFile {
    /// The file's name inside the output directory.
    pub fn file_name(&self) -> (name: &'static str)
        ensures
            (match *self {
                OutputFile::RiscWrapperVk => name@ == "risc_wrapper_vk.json"@,
                OutputFile::RiscWrapperProof => name@ == "risc_wrapper_proof.json"@,
                OutputFile::SnarkProof => name@ == "snark_proof.json"@,
                OutputFile::SnarkVk => name@ == "snark_vk.json"@,
                OutputFile::ExpectedRiscWrapperVk => name@ == "risc_wrapper_vk_expected.json"@,
                OutputFile::ExpectedSnarkVk => name@ == "snark_vk_expected.json"@,
            }),
    {
        match self {
            OutputFile::RiscWrapperVk => "risc_wrapper_vk.json",
            OutputFile::RiscWrapperProof => "risc_wrapper_proof.json",
            OutputFile::SnarkProof => "snark_proof.json",
            OutputFile::SnarkVk => "snark_vk.json",
            OutputFile::ExpectedRiscWrapperVk => "risc_wrapper_vk_expected.json",
            OutputFile::ExpectedSnarkVk => "snark_vk_expected.json",
        }
    }
}

/// The commitment to the program that the RISC wrapper circuit is built for:
/// the parameters at the end of the program's execution and those of the
/// recursion chain that proved it.
#[derive(Clone, Copy, Debug, PartialEq, Eq)]
pub struct BinaryCommitment {
    pub end_params: [u32; 8],
    pub aux_params: [u32; 8],
}

/// The text of the panic when a program proof carries no recursion chain hash.
pub fn missing_recursion_chain_hash_message() -> (msg: &'static str)
    ensures
        msg@ == "Recursion chain hash is missing only in base layer"@,
{
    "Recursion chain hash is missing only in base layer"
}

/// The commitment for a program proof: its end parameters, with the hash of
/// its recursion chain as auxiliary parameters. Only a proof past the base
/// layer carries that hash.
pub fn binary_commitment(end_params: [u32; 8], recursion_chain_hash: Option<[u32; 8]>) -> (c:
    BinaryCommitment)
    requires
        recursion_chain_hash is Some,
    ensures
        c.end_params == end_params,
        c.aux_params == recursion_chain_hash->0,
{
    BinaryCommitment { end_params, aux_params: recursion_chain_hash.unwrap() }
}

} // verus!
