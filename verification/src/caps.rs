//! The capability descriptor and the checks that gate sealing on it.
use vstd::prelude::*;

use crate::error::TdxError;

verus! {

/// Bit of the TDX_FEATURES0 word that signals sealing-key support.
pub const TDX_FEATURES0_SEALING_BIT: u64 = 0x00000001;

/// Bit of the ATTRIBUTES word that marks the guest as migratable.
pub const TDX_ATTRIBUTES_MIGRATABLE_BIT: u64 = 0x00000001;

/// Capability descriptor: the guest's feature-flags word and attributes word,
/// produced once per run and read-only afterwards.
#[derive(Clone, Copy, Debug, PartialEq, Eq, Structural)]
pub struct TdInfo {
    pub tdx_features0: u64,
    pub tdx_attributes: u64,
}

/// Whether a descriptor admits deterministic sealing: the sealing feature is
/// present and the guest is not migratable. Both conditions are independent
/// and both must hold.
pub open spec fn sealing_supported(info: TdInfo) -> bool {
    &&& info.tdx_features0 & TDX_FEATURES0_SEALING_BIT != 0
    &&& info.tdx_attributes & TDX_ATTRIBUTES_MIGRATABLE_BIT == 0
}

/// A descriptor with an unset sealing feature bit is rejected whatever its
/// attributes; one with the migratable bit set is rejected whatever its
/// features; only (sealing bit set, migratable bit clear) is accepted.
pub proof fn lemma_capability_check(info: TdInfo)
    ensures
        info.tdx_features0 & TDX_FEATURES0_SEALING_BIT == 0 ==> !sealing_supported(info),
        info.tdx_attributes & TDX_ATTRIBUTES_MIGRATABLE_BIT != 0 ==> !sealing_supported(info),
        sealing_supported(info) <==> (info.tdx_features0 & TDX_FEATURES0_SEALING_BIT != 0
            && info.tdx_attributes & TDX_ATTRIBUTES_MIGRATABLE_BIT == 0),
{
}

/// Decides whether the caller may use the platform: only effective user id 0
/// passes. The caller obtains the effective user id of the process and exits
/// without printing any key material when this check fails.
pub fn check_root_privileges(euid: u32) -> (r: Result<(), TdxError>)
    ensures
        r is Ok <==> euid == 0,
        r is Err ==> r == Err::<(), TdxError>(TdxError::PrivilegeDenied),
{
    if euid != 0 {
        Err(TdxError::PrivilegeDenied)
    } else {
        Ok(())
    }
}

/// Builds the capability descriptor from the platform probe's outcome: the
/// probed feature-flags and attributes words verbatim on success, the probe
/// failure otherwise. The platform call itself is the caller's; it hands the
/// two words in, or `None` where the call failed.
pub fn get_tdx_info(probe: Option<(u64, u64)>) -> (r: Result<TdInfo, TdxError>)
    ensures
        probe matches Some(w) ==> (r matches Ok(info) && info.tdx_features0 == w.0
            && info.tdx_attributes == w.1),
        probe is None ==> r == Err::<TdInfo, TdxError>(TdxError::CapabilityProbeFailed),
{
    match probe {
        Some((features0, attributes)) => Ok(
            TdInfo { tdx_features0: features0, tdx_attributes: attributes },
        ),
        None => Err(TdxError::CapabilityProbeFailed),
    }
}

/// The synthetic capability descriptor substituted when the platform probe
/// fails: sealing supported, not migratable, so the demonstration can proceed
/// outside a confidential-computing host.
pub fn synthetic_tdinfo() -> (r: TdInfo)
    ensures
        r.tdx_features0 == TDX_FEATURES0_SEALING_BIT,
        r.tdx_attributes == 0,
        sealing_supported(r),
{
    proof {
        assert(1u64 & 1u64 != 0 && 0u64 & 1u64 == 0) by (bit_vector);
    }
    TdInfo { tdx_features0: TDX_FEATURES0_SEALING_BIT, tdx_attributes: 0 }
}

/// Accepts the descriptor exactly when the sealing feature bit is set.
pub fn check_tdx_features(td_info: &TdInfo) -> (r: Result<(), TdxError>)
    ensures
        r is Ok <==> td_info.tdx_features0 & TDX_FEATURES0_SEALING_BIT != 0,
        r is Err ==> r == Err::<(), TdxError>(TdxError::CapabilityUnavailable),
{
    if td_info.tdx_features0 & TDX_FEATURES0_SEALING_BIT == 0 {
        Err(TdxError::CapabilityUnavailable)
    } else {
        Ok(())
    }
}

/// Accepts the descriptor exactly when the migratable attribute bit is clear.
pub fn check_tdx_attributes(td_info: &TdInfo) -> (r: Result<(), TdxError>)
    ensures
        r is Ok <==> td_info.tdx_attributes & TDX_ATTRIBUTES_MIGRATABLE_BIT == 0,
        r is Err ==> r == Err::<(), TdxError>(TdxError::CapabilityUnavailable),
{
    if td_info.tdx_attributes & TDX_ATTRIBUTES_MIGRATABLE_BIT != 0 {
        Err(TdxError::CapabilityUnavailable)
    } else {
        Ok(())
    }
}

/// Runs both capability checks: accepts exactly the descriptors that admit
/// deterministic sealing.
pub fn check_tdx_capabilities(td_info: &TdInfo) -> (r: Result<(), TdxError>)
    ensures
        r is Ok <==> sealing_supported(*td_info),
        r is Err ==> r == Err::<(), TdxError>(TdxError::CapabilityUnavailable),
{
    match check_tdx_features(td_info) {
        Ok(()) => check_tdx_attributes(td_info),
        Err(e) => Err(e),
    }
}

} // verus!
