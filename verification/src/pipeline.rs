//! The derivation pipeline: from privilege check and capability descriptor
//! to the three key buffers, as one result-returning sequence.
use vstd::prelude::*;

use crate::caps::{check_tdx_capabilities, get_tdx_info, sealing_supported, synthetic_tdinfo,
    TdInfo};
use crate::error::TdxError;
use crate::keys::{derive_private_key, domain_separator, get_sealing_key,
    get_tdx_measurement_report, sealing_byte, sha256_of, simulated_measurement_byte};

verus! {

/// The three buffers a successful run produces. All are ephemeral: the caller
/// zeroes them once they are printed.
pub struct KeyMaterial {
    /// The 32-byte measurement value.
    pub mrenclave: Vec<u8>,
    /// The 32-byte sealing key derived from the measurement.
    pub sealing_key: Vec<u8>,
    /// The 32-byte private key hashed out of the sealing key.
    pub private_key: Vec<u8>,
}

/// What a successful run's buffers hold: the simulated measurement, its
/// per-byte sealing transform, and the domain-separated digest of the
/// sealing key.
pub open spec fn valid_key_material(km: KeyMaterial) -> bool {
    &&& km.mrenclave@.len() == 32
    &&& (forall|i: int| 0 <= i < 32 ==> #[trigger] km.mrenclave@[i] == simulated_measurement_byte(i))
    &&& km.sealing_key@.len() == 32
    &&& (forall|i: int| 0 <= i < 32 ==> #[trigger] km.sealing_key@[i] == sealing_byte(km.mrenclave@[i]))
    &&& km.private_key@ == sha256_of(domain_separator() + km.sealing_key@)
    &&& km.private_key@.len() == 32
}

/// Runs the three derivation stages on an already accepted capability
/// descriptor: measurement, sealing key, private key.
pub fn derive_key_material(td_info: &TdInfo) -> (r: Result<KeyMaterial, TdxError>)
    requires
        sealing_supported(*td_info),
    ensures
        r is Ok,
        r matches Ok(km) ==> valid_key_material(km),
{
    let mrenclave = match get_tdx_measurement_report() {
        Ok(m) => m,
        Err(e) => {
            return Err(e);
        },
    };
    let sealing_key = match get_sealing_key(&mrenclave) {
        Ok(k) => k,
        Err(e) => {
            return Err(e);
        },
    };
    let private_key = match derive_private_key(&sealing_key) {
        Ok(k) => k,
        Err(e) => {
            return Err(e);
        },
    };
    Ok(KeyMaterial { mrenclave, sealing_key, private_key })
}

/// The whole run as one pipeline: reject an unprivileged caller, build the
/// capability descriptor from the probe's outcome (substituting the synthetic
/// descriptor when the probe failed), check it, and derive the keys. Exactly
/// the unprivileged caller and the rejected descriptor fail.
pub fn run_derivation(euid: u32, probe: Option<(u64, u64)>) -> (r: Result<KeyMaterial, TdxError>)
    ensures
        euid != 0 ==> r == Err::<KeyMaterial, TdxError>(TdxError::PrivilegeDenied),
        euid == 0 && probe is None ==> r is Ok,
        euid == 0 ==> (probe matches Some(w) ==> (r is Ok <==> sealing_supported(
            (TdInfo { tdx_features0: w.0, tdx_attributes: w.1 }),
        ))),
        euid == 0 && r is Err ==> (r == Err::<KeyMaterial, TdxError>(
            TdxError::CapabilityUnavailable,
        )),
        r matches Ok(km) ==> valid_key_material(km),
{
    if let Err(e) = crate::caps::check_root_privileges(euid) {
        return Err(e);
    }
    let td_info = match get_tdx_info(probe) {
        Ok(info) => info,
        Err(_) => synthetic_tdinfo(),
    };
    if let Err(e) = check_tdx_capabilities(&td_info) {
        return Err(e);
    }
    derive_key_material(&td_info)
}

} // verus!
