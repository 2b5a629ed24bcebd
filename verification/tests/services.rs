use virtualization::binder_status::ExceptionCode;
use virtualization::composd::{
    to_binder_result, ExitCode, ForcedCompileError, IsolatedCompilationService,
};
use virtualization::compsvc::{
    to_formatted_digest, CompOsService, CompileStep, CompilerOutput,
    signed_compilation_result,
};
use virtualization::vm::{command_stop, service_cid, StopError};

fn formatted(digest: [u8; 32]) -> Vec<u8> {
    let mut v = b"FSVerity".to_vec();
    v.extend_from_slice(&1u16.to_le_bytes());
    v.extend_from_slice(&32u16.to_le_bytes());
    v.extend_from_slice(&digest);
    v
}

#[test]
fn signing_key_is_set_once() {
    let mut service = CompOsService::new();
    assert!(service.initialize_signing_key(&[1, 2, 3]).is_ok());
    let e = service.initialize_signing_key(&[4, 5]).unwrap_err();
    assert_eq!(e.exception, ExceptionCode::IllegalState);
    assert_eq!(e.service_specific_error, 0);
    assert_eq!(e.message, "Cannot re-initialize the key");
    assert_eq!(service.initialized_key().unwrap(), &[1, 2, 3]);
}

#[test]
fn empty_key_can_be_replaced() {
    let mut service = CompOsService::new();
    assert!(service.initialize_signing_key(&[]).is_ok());
    assert!(service.initialize_signing_key(&[7]).is_ok());
    assert_eq!(service.initialized_key().unwrap(), &[7]);
}

#[test]
fn signing_without_key_is_refused() {
    let service = CompOsService::new();
    let e = service.initialized_key().unwrap_err();
    assert_eq!(e.exception, ExceptionCode::IllegalState);
    assert_eq!(e.message, "Key is not initialized");
}

#[test]
fn key_service_errors_are_illegal_state() {
    assert_eq!(CompOsService::key_service_outcome::<Vec<u8>>(Ok(vec![1])).unwrap(), vec![1]);
    let e = CompOsService::key_service_outcome::<Vec<u8>>(Err("no keystore".to_string()))
        .unwrap_err();
    assert_eq!(e.exception, ExceptionCode::IllegalState);
    assert_eq!(e.message, "no keystore");
}

#[test]
fn formatted_digest_layout() {
    let mut digest = [0u8; 32];
    for (i, b) in digest.iter_mut().enumerate() {
        *b = i as u8 * 3;
    }
    let r = to_formatted_digest(&digest);
    assert_eq!(r.len(), 44);
    assert_eq!(r, formatted(digest));
    assert_eq!(&r[..12], &[0x46, 0x53, 0x56, 0x65, 0x72, 0x69, 0x74, 0x79, 1, 0, 32, 0]);
}

#[test]
fn failed_signing_gives_empty_signature() {
    assert_eq!(CompOsService::generate_raw_fsverity_signature(Ok(vec![5, 6])), vec![5, 6]);
    assert!(CompOsService::generate_raw_fsverity_signature(Err("denied".into())).is_empty());
}

#[test]
fn odrefresh_arguments_are_checked() {
    assert!(CompOsService::check_odrefresh_args(3, 4, "zygote64").is_ok());
    assert!(CompOsService::check_odrefresh_args(0, 0, "zygote64_32").is_ok());
    let e = CompOsService::check_odrefresh_args(-1, 4, "zygote64").unwrap_err();
    assert_eq!(e.exception, ExceptionCode::IllegalArgument);
    assert_eq!(e.message, "The remote FDs are expected to be non-negative");
    let e = CompOsService::check_odrefresh_args(1, -4, "bogus").unwrap_err();
    assert_eq!(e.message, "The remote FDs are expected to be non-negative");
    let e = CompOsService::check_odrefresh_args(1, 4, "zygote32").unwrap_err();
    assert_eq!(e.exception, ExceptionCode::IllegalArgument);
    assert_eq!(e.message, "Invalid zygote arch");
}

#[test]
fn odrefresh_outcomes() {
    let r = CompOsService::odrefresh_outcome(Ok(CompilerOutput::ExitCode(80))).unwrap();
    assert_eq!(r.exit_code, 80);
    assert!(r.oat_signature.is_empty() && r.vdex_signature.is_empty() && r.image_signature.is_empty());
    let e = CompOsService::odrefresh_outcome(Err("boom".into())).unwrap_err();
    assert_eq!(e.exception, ExceptionCode::ServiceSpecific);
    assert_eq!(e.message, "odrefresh failed: boom");
    let e = CompOsService::odrefresh_outcome(Ok(CompilerOutput::Digests {
        oat: [0; 32],
        vdex: [0; 32],
        image: [0; 32],
    }))
    .unwrap_err();
    assert_eq!(e.message, "odrefresh failed");
}

#[test]
fn compile_cmd_outcomes() {
    let mut service = CompOsService::new();
    let digests = || CompilerOutput::Digests { oat: [1; 32], vdex: [2; 32], image: [3; 32] };

    let e = service.compile_cmd_outcome(Ok(digests())).unwrap_err();
    assert_eq!(e.exception, ExceptionCode::IllegalState);
    assert_eq!(e.message, "Key is not initialized");

    let e = service.compile_cmd_outcome(Err("dex2oat crashed".into())).unwrap_err();
    assert_eq!(e.exception, ExceptionCode::ServiceSpecific);
    assert_eq!(e.message, "Compilation failed: dex2oat crashed");

    match service.compile_cmd_outcome(Ok(CompilerOutput::ExitCode(-3))).unwrap() {
        CompileStep::Finished(r) => assert_eq!(r.exit_code, -3),
        other => panic!("unexpected {:?}", other),
    }

    service.initialize_signing_key(&[42]).unwrap();
    match service.compile_cmd_outcome(Ok(digests())).unwrap() {
        CompileStep::SignDigests { key_blob, oat, vdex, image } => {
            assert_eq!(key_blob, vec![42]);
            assert_eq!(oat, formatted([1; 32]));
            assert_eq!(vdex, formatted([2; 32]));
            assert_eq!(image, formatted([3; 32]));
        }
        other => panic!("unexpected {:?}", other),
    }

    let r = signed_compilation_result(vec![1], vec![2], vec![]);
    assert_eq!((r.exit_code, r.oat_signature, r.vdex_signature, r.image_signature), (0, vec![1], vec![2], vec![]));
}

#[test]
fn binary_compile_is_unsupported() {
    let e = CompOsService::compile().unwrap_err();
    assert_eq!(e.exception, ExceptionCode::UnsupportedOperation);
    assert_eq!(e.message, "Not yet implemented");

    let composd = IsolatedCompilationService::new("manager");
    let e = composd.compile().unwrap_err();
    assert_eq!(e.exception, ExceptionCode::ServiceSpecific);
    assert_eq!(e.service_specific_error, -1);
    assert_eq!(e.message, "Not yet implemented");
    assert_eq!(*composd.instance_manager(), "manager");
}

#[test]
fn forced_compile_needs_compilation_success() {
    let composd = IsolatedCompilationService::new(());
    assert!(composd.do_run_forced_compile_for_test(ExitCode::CompilationSuccess).is_ok());
    for code in [ExitCode::Okay, ExitCode::CompilationRequired, ExitCode::CompilationFailed, ExitCode::CleanupFailed] {
        assert_eq!(
            composd.do_run_forced_compile_for_test(code),
            Err(ForcedCompileError::UnexpectedOdrefreshResult(code))
        );
    }
}

#[test]
fn odrefresh_exit_codes() {
    assert_eq!(ExitCode::from_raw(0), Some(ExitCode::Okay));
    assert_eq!(ExitCode::from_raw(80), Some(ExitCode::CompilationRequired));
    assert_eq!(ExitCode::from_raw(81), Some(ExitCode::CompilationSuccess));
    assert_eq!(ExitCode::from_raw(82), Some(ExitCode::CompilationFailed));
    assert_eq!(ExitCode::from_raw(83), Some(ExitCode::CleanupFailed));
    assert_eq!(ExitCode::from_raw(1), None);
    assert_eq!(ExitCode::from_raw(84), None);
    assert_eq!(ExitCode::from_raw(-1), None);
}

#[test]
fn binder_results() {
    assert_eq!(to_binder_result::<u8>(Ok(4)).unwrap(), 4);
    let e = to_binder_result::<u8>(Err("Starting CompOS".into())).unwrap_err();
    assert_eq!(e.exception, ExceptionCode::ServiceSpecific);
    assert_eq!(e.service_specific_error, -1);
    assert_eq!(e.message, "Starting CompOS");
}

#[test]
fn vm_stop() {
    assert_eq!(service_cid(5), 5);
    assert_eq!(service_cid(u32::MAX), -1);
    assert_eq!(service_cid(0x8000_0000), i32::MIN);
    assert_eq!(service_cid(u32::MAX), u32::MAX as i32);
    assert_eq!(command_stop(true), Ok(()));
    assert_eq!(command_stop(false), Err(StopError::NoSuchVm));
}

#[test]
fn key_verification_answer() {
    assert!(CompOsService::signing_key_verified(Ok(())));
    assert!(!CompOsService::signing_key_verified(Err("mismatch".to_string())));
}
