use wrapper::pipeline::{
    binary_commitment, check_proof, missing_recursion_chain_hash_message, BinaryCommitment, crs_source, proving_mode_message, snark_finalization, CrsSource, OutputFile,
    Phase, PipelineError, SnarkFinalization, L1_VERIFIER_DOMAIN_SIZE,
    L1_VERIFIER_DOMAIN_SIZE_LOG, NUM_PADDING_TERMS,
};
use wrapper::prove_flow::{ProveAction, ProveEvent, ProveFlow, ProveRequest, ProveStage};

fn request(risc_wrapper_only: bool, file: Option<&str>, use_zk: bool) -> ProveRequest {
    ProveRequest {
        risc_wrapper_only,
        trusted_setup_file: file.map(|s| s.to_string()),
        use_zk,
    }
}

fn drive(req: ProveRequest, verdicts: &[bool]) -> (Vec<ProveAction>, ProveStage) {
    let mut flow = ProveFlow::new(req);
    let mut actions = Vec::new();
    let mut verdicts = verdicts.iter();
    let mut event = ProveEvent::Start;
    loop {
        assert!(flow.accepts(event));
        let action = flow.step(event);
        actions.push(action);
        event = match action {
            ProveAction::ProveRiscWrapper
            | ProveAction::ProveCompression
            | ProveAction::ProveSnarkWrapper { .. } => ProveEvent::ProofChecked {
                is_valid: *verdicts.next().expect("a verdict for every proof"),
            },
            ProveAction::WriteOutputs { .. } => ProveEvent::OutputsWritten,
            ProveAction::Finish | ProveAction::Abort { .. } => break,
        };
    }
    assert!(flow.is_finished());
    (actions, flow.stage)
}

#[test]
fn error_messages_name_the_phase() {
    let m = |phase| PipelineError::ProofNotValid { phase }.message();
    assert_eq!(m(Phase::RiscWrapper), "Risc wrapper proof is not valid");
    assert_eq!(m(Phase::Compression), "Compression proof is not valid");
    assert_eq!(m(Phase::SnarkWrapper), "Snark wrapper proof is not valid");
}

#[test]
fn check_proof_passes_valid_and_stops_invalid() {
    assert_eq!(check_proof(Phase::Compression, true), Ok(()));
    assert_eq!(
        check_proof(Phase::Compression, false),
        Err(PipelineError::ProofNotValid { phase: Phase::Compression })
    );
    assert_eq!(
        check_proof(Phase::SnarkWrapper, false),
        Err(PipelineError::ProofNotValid { phase: Phase::SnarkWrapper })
    );
}

#[test]
fn crs_comes_from_file_or_is_generated_for_the_domain() {
    assert_eq!(crs_source(&Some("setup.key".to_string())), CrsSource::TrustedSetupFile);
    assert_eq!(crs_source(&None), CrsSource::Generated { size: 1 << 24 });
    assert_eq!(L1_VERIFIER_DOMAIN_SIZE, 16777216);
    assert_eq!(L1_VERIFIER_DOMAIN_SIZE_LOG, 24);
    assert!(L1_VERIFIER_DOMAIN_SIZE.is_power_of_two());
}

#[test]
fn zk_proving_adds_six_padding_terms() {
    assert_eq!(NUM_PADDING_TERMS, 6);
    assert_eq!(
        snark_finalization(true),
        SnarkFinalization { domain_size_log: 24, padding_terms: Some(6) }
    );
    assert_eq!(
        snark_finalization(false),
        SnarkFinalization { domain_size_log: 24, padding_terms: None }
    );
    assert_eq!(proving_mode_message(true), "using zk (padding) proving");
    assert_eq!(proving_mode_message(false), "using non-zk (no padding) proving");
}

#[test]
fn output_file_names() {
    assert_eq!(OutputFile::RiscWrapperVk.file_name(), "risc_wrapper_vk.json");
    assert_eq!(OutputFile::RiscWrapperProof.file_name(), "risc_wrapper_proof.json");
    assert_eq!(OutputFile::SnarkProof.file_name(), "snark_proof.json");
    assert_eq!(OutputFile::SnarkVk.file_name(), "snark_vk.json");
    assert_eq!(OutputFile::ExpectedRiscWrapperVk.file_name(), "risc_wrapper_vk_expected.json");
    assert_eq!(OutputFile::ExpectedSnarkVk.file_name(), "snark_vk_expected.json");
}

#[test]
fn full_run_makes_three_proofs_then_writes_the_snark() {
    let (actions, stage) = drive(request(false, None, true), &[true, true, true]);
    assert_eq!(stage, ProveStage::Finished);
    assert_eq!(
        actions,
        vec![
            ProveAction::ProveRiscWrapper,
            ProveAction::ProveCompression,
            ProveAction::ProveSnarkWrapper {
                crs: CrsSource::Generated { size: 16777216 },
                finalization: SnarkFinalization { domain_size_log: 24, padding_terms: Some(6) },
            },
            ProveAction::WriteOutputs { first: OutputFile::SnarkProof, second: OutputFile::SnarkVk },
            ProveAction::Finish,
        ]
    );
}

#[test]
fn full_run_with_trusted_setup_and_without_zk() {
    let (actions, _) = drive(request(false, Some("crs"), false), &[true, true, true]);
    assert_eq!(
        actions[2],
        ProveAction::ProveSnarkWrapper {
            crs: CrsSource::TrustedSetupFile,
            finalization: SnarkFinalization { domain_size_log: 24, padding_terms: None },
        }
    );
}

#[test]
fn risc_wrapper_only_run_writes_the_wrapper_key_and_proof() {
    let (actions, _) = drive(request(true, None, true), &[true]);
    assert_eq!(
        actions,
        vec![
            ProveAction::ProveRiscWrapper,
            ProveAction::WriteOutputs {
                first: OutputFile::RiscWrapperVk,
                second: OutputFile::RiscWrapperProof,
            },
            ProveAction::Finish,
        ]
    );
}

#[test]
fn rejected_risc_wrapper_proof_stops_the_run() {
    for only in [false, true] {
        let (actions, _) = drive(request(only, None, false), &[false]);
        assert_eq!(
            actions,
            vec![
                ProveAction::ProveRiscWrapper,
                ProveAction::Abort { error: PipelineError::ProofNotValid { phase: Phase::RiscWrapper } },
            ]
        );
    }
}

#[test]
fn rejected_compression_proof_stops_before_the_snark() {
    let (actions, _) = drive(request(false, None, false), &[true, false]);
    assert_eq!(actions.len(), 3);
    assert_eq!(
        actions[2],
        ProveAction::Abort { error: PipelineError::ProofNotValid { phase: Phase::Compression } }
    );
}

#[test]
fn rejected_snark_proof_writes_nothing() {
    let (actions, _) = drive(request(false, None, true), &[true, true, false]);
    assert_eq!(actions.len(), 4);
    assert!(actions.iter().all(|a| !matches!(a, ProveAction::WriteOutputs { .. })));
    assert_eq!(
        actions[3],
        ProveAction::Abort { error: PipelineError::ProofNotValid { phase: Phase::SnarkWrapper } }
    );
}

#[test]
fn flow_awaits_only_the_expected_event() {
    let mut flow = ProveFlow::new(request(false, None, false));
    assert!(flow.accepts(ProveEvent::Start));
    assert!(!flow.accepts(ProveEvent::OutputsWritten));
    assert!(!flow.accepts(ProveEvent::ProofChecked { is_valid: true }));
    flow.step(ProveEvent::Start);
    assert_eq!(flow.stage, ProveStage::ProvingRiscWrapper);
    assert!(!flow.accepts(ProveEvent::Start));
    assert!(flow.accepts(ProveEvent::ProofChecked { is_valid: false }));
    flow.step(ProveEvent::ProofChecked { is_valid: false });
    assert!(flow.is_finished());
    assert!(!flow.accepts(ProveEvent::Start));
    assert!(!flow.accepts(ProveEvent::OutputsWritten));
}

#[test]
fn binary_commitment_takes_the_recursion_chain_hash() {
    let end = [1, 2, 3, 4, 5, 6, 7, 8];
    let chain = [9, 10, 11, 12, 13, 14, 15, 16];
    assert_eq!(
        binary_commitment(end, Some(chain)),
        BinaryCommitment { end_params: end, aux_params: chain }
    );
    assert_eq!(
        missing_recursion_chain_hash_message(),
        "Recursion chain hash is missing only in base layer"
    );
}
