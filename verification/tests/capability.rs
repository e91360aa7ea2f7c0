use tdx_seal::caps::{
    check_root_privileges, check_tdx_attributes, check_tdx_capabilities, check_tdx_features,
    get_tdx_info, synthetic_tdinfo, TdInfo, TDX_ATTRIBUTES_MIGRATABLE_BIT,
    TDX_FEATURES0_SEALING_BIT,
};
use tdx_seal::error::TdxError;
use tdx_seal::pipeline::run_derivation;

fn descriptor(features0: u64, attributes: u64) -> TdInfo {
    TdInfo { tdx_features0: features0, tdx_attributes: attributes }
}

#[test]
fn rejects_unset_sealing_bit_regardless_of_attributes() {
    for attributes in [0u64, 1, 0xFFFF_FFFF_FFFF_FFFE, u64::MAX] {
        let info = descriptor(0, attributes);
        assert_eq!(check_tdx_features(&info), Err(TdxError::CapabilityUnavailable));
        assert_eq!(check_tdx_capabilities(&info), Err(TdxError::CapabilityUnavailable));
    }
}

#[test]
fn rejects_migratable_bit_regardless_of_features() {
    for features0 in [0u64, 1, 0xFFFF_FFFF_FFFF_FFFE, u64::MAX] {
        let info = descriptor(features0, 1);
        assert_eq!(check_tdx_attributes(&info), Err(TdxError::CapabilityUnavailable));
        assert_eq!(check_tdx_capabilities(&info), Err(TdxError::CapabilityUnavailable));
    }
}

#[test]
fn accepts_only_sealing_set_and_migratable_clear() {
    let good = descriptor(TDX_FEATURES0_SEALING_BIT, 0);
    assert_eq!(check_tdx_features(&good), Ok(()));
    assert_eq!(check_tdx_attributes(&good), Ok(()));
    assert_eq!(check_tdx_capabilities(&good), Ok(()));

    // Only bit 0 of each word decides.
    let with_high_bits = descriptor(0xFF01, 0xFF00 & !TDX_ATTRIBUTES_MIGRATABLE_BIT);
    assert_eq!(check_tdx_capabilities(&with_high_bits), Ok(()));
}

#[test]
fn probe_outcome_becomes_descriptor_or_probe_failure() {
    assert_eq!(
        get_tdx_info(Some((7, 2))),
        Ok(descriptor(7, 2))
    );
    assert_eq!(get_tdx_info(None), Err(TdxError::CapabilityProbeFailed));
}

#[test]
fn synthetic_descriptor_passes_both_checks() {
    let info = synthetic_tdinfo();
    assert_eq!(info.tdx_features0, TDX_FEATURES0_SEALING_BIT);
    assert_eq!(info.tdx_attributes, 0);
    assert_eq!(check_tdx_capabilities(&info), Ok(()));
}

#[test]
fn privilege_check_accepts_only_root() {
    assert_eq!(check_root_privileges(0), Ok(()));
    assert_eq!(check_root_privileges(1000), Err(TdxError::PrivilegeDenied));
    assert_eq!(check_root_privileges(u32::MAX), Err(TdxError::PrivilegeDenied));
}

#[test]
fn unprivileged_run_yields_no_key_material() {
    let r = run_derivation(1000, None);
    assert!(matches!(r, Err(TdxError::PrivilegeDenied)));
}

#[test]
fn failed_probe_falls_back_to_synthetic_descriptor() {
    let km = run_derivation(0, None).unwrap();
    assert_eq!(km.mrenclave.len(), 32);
    assert_eq!(km.sealing_key.len(), 32);
    assert_eq!(km.private_key.len(), 32);
}

#[test]
fn probed_descriptor_decides_the_run() {
    let ok = run_derivation(0, Some((TDX_FEATURES0_SEALING_BIT, 0)));
    assert!(ok.is_ok());

    let unsealed = run_derivation(0, Some((0, 0)));
    assert!(matches!(unsealed, Err(TdxError::CapabilityUnavailable)));

    let migratable = run_derivation(0, Some((TDX_FEATURES0_SEALING_BIT, 1)));
    assert!(matches!(migratable, Err(TdxError::CapabilityUnavailable)));
}

#[test]
fn error_messages_name_the_failure() {
    assert_eq!(
        TdxError::PrivilegeDenied.message(),
        "This program must be run as root to access TDX features"
    );
    assert_eq!(
        TdxError::CapabilityProbeFailed.message(),
        "TDX not available in current environment"
    );
    assert_eq!(TdxError::CapabilityUnavailable.message(), "TDX sealing is not available");
    assert_eq!(
        TdxError::MeasurementUnavailable.message(),
        "Failed to get TDX measurement report"
    );
    assert_eq!(TdxError::SealingKeyDenied.message(), "Failed to get sealing key");
}
