//! The license manager: install, activate, deactivate and status of a signed
//! entitlement, plus the derivation rules for the license state.
//!
//! `LicenseStore` models what the license directory holds: the installed,
//! already signature-checked payload, the local activation record, and the
//! persistent device id. The surrounding binary keeps the files in step with
//! the model and parses the payload JSON into `LicensePayloadV1`.

use vstd::prelude::*;
use vstd::string::StringExecFns;
use crate::config::strs_view;
use crate::text::{str_eq, trim_spec, trim_str};
use crate::types::{new_uuid_string, parse_uuid_ok, uuid_parses, view_opt_str};

verus! {

/// The embedded base64url verifying key for license payloads, a placeholder
/// to be replaced by the production key.
pub fn license_pubkey_b64url() -> (r: String)
    ensures
        r@ == "AAAAAAAAAAAAAAAAAAAAAAAAAAAAAAAAAAAAAAAAAAA"@,
{
    String::from_str("AAAAAAAAAAAAAAAAAAAAAAAAAAAAAAAAAAAAAAAAAAA")
}

#[derive(Debug, Clone, Copy, PartialEq, Eq, Structural)]
pub enum LicenseState {
    Community,
    ProActive,
    ProExpired,
    ProInvalid,
}

/// The signed entitlement payload.
#[derive(Debug)]
pub struct LicensePayloadV1 {
    pub version: u32,
    pub license_id: String,
    pub user_id: String,
    pub plan: String,
    pub seats: u32,
    pub issued_at: u64,
    pub expires_at: Option<u64>,
    pub features: Vec<String>,
    pub issuer: Option<String>,
}

#[verifier::ext_equal]
pub struct LicensePayloadM {
    pub version: u32,
    pub license_id: Seq<char>,
    pub user_id: Seq<char>,
    pub plan: Seq<char>,
    pub seats: u32,
    pub issued_at: u64,
    pub expires_at: Option<u64>,
    pub features: Seq<Seq<char>>,
    pub issuer: Option<Seq<char>>,
}

impl View for LicensePayloadV1 {
    type V = LicensePayloadM;

    open spec fn view(&self) -> LicensePayloadM {
        LicensePayloadM {
            version: self.version,
            license_id: self.license_id@,
            user_id: self.user_id@,
            plan: self.plan@,
            seats: self.seats,
            issued_at: self.issued_at,
            expires_at: self.expires_at,
            features: strs_view(self.features@),
            issuer: view_opt_str(self.issuer),
        }
    }
}

impl Clone for LicensePayloadV1 {
    fn clone(&self) -> (r: Self)
        ensures
            r@ == self@,
    {
        let r = LicensePayloadV1 {
            version: self.version,
            license_id: self.license_id.clone(),
            user_id: self.user_id.clone(),
            plan: self.plan.clone(),
            seats: self.seats,
            issued_at: self.issued_at,
            expires_at: self.expires_at,
            features: crate::config::clone_strings(&self.features),
            issuer: crate::engine::clone_opt_string(&self.issuer),
        };
        proof {
            assert(r@ =~= self@);
        }
        r
    }
}

/// The local, device-scoped activation record.
#[derive(Debug)]
pub struct ActivationState {
    pub device_id: String,
    pub activated_at: u64,
    pub license_id: String,
    pub last_verified_at: u64,
}

#[verifier::ext_equal]
pub struct ActivationM {
    pub device_id: Seq<char>,
    pub activated_at: u64,
    pub license_id: Seq<char>,
    pub last_verified_at: u64,
}

impl View for ActivationState {
    type V = ActivationM;

    open spec fn view(&self) -> ActivationM {
        ActivationM {
            device_id: self.device_id@,
            activated_at: self.activated_at,
            license_id: self.license_id@,
            last_verified_at: self.last_verified_at,
        }
    }
}

impl Clone for ActivationState {
    fn clone(&self) -> (r: Self)
        ensures
            r@ == self@,
    {
        ActivationState {
            device_id: self.device_id.clone(),
            activated_at: self.activated_at,
            license_id: self.license_id.clone(),
            last_verified_at: self.last_verified_at,
        }
    }
}

/// The field-level validity of a payload: schema checks in order, then the
/// expiry against the clock.
pub open spec fn license_field_state(p: LicensePayloadM, now_unix_s: u64) -> LicenseState {
    if p.version != 1 {
        LicenseState::ProInvalid
    } else if !uuid_parses(trim_spec(p.license_id)) {
        LicenseState::ProInvalid
    } else if trim_spec(p.plan) != "pro"@ {
        LicenseState::ProInvalid
    } else if p.seats < 1 {
        LicenseState::ProInvalid
    } else if trim_spec(p.user_id).len() == 0 {
        LicenseState::ProInvalid
    } else if p.issued_at == 0 {
        LicenseState::ProInvalid
    } else if p.expires_at matches Some(e) && e <= now_unix_s {
        LicenseState::ProExpired
    } else {
        LicenseState::ProActive
    }
}

/// Schema validation of a payload: `ProInvalid` on any schema violation,
/// `ProExpired` past the expiry, `ProActive` otherwise, with a reason for
/// everything but `ProActive`.
pub fn validate_fields(payload: &LicensePayloadV1, now_unix_s: u64) -> (r: (
    LicenseState,
    Option<String>,
))
    ensures
        r.0 == license_field_state(payload@, now_unix_s),
        r.1 is Some <==> r.0 != LicenseState::ProActive,
{
    if payload.version != 1 {
        return (LicenseState::ProInvalid, Some(String::from_str("unsupported license version")));
    }
    if !parse_uuid_ok(trim_str(payload.license_id.as_str())) {
        return (LicenseState::ProInvalid, Some(String::from_str("license_id must be a UUID")));
    }
    if !str_eq(trim_str(payload.plan.as_str()), "pro") {
        return (LicenseState::ProInvalid, Some(String::from_str("plan must be \"pro\"")));
    }
    if payload.seats < 1 {
        return (LicenseState::ProInvalid, Some(String::from_str("seats must be >= 1")));
    }
    if trim_str(payload.user_id.as_str()).is_empty() {
        return (LicenseState::ProInvalid, Some(String::from_str("user_id must be present")));
    }
    if payload.issued_at == 0 {
        return (LicenseState::ProInvalid, Some(String::from_str("issued_at must be set")));
    }
    if let Some(exp) = payload.expires_at {
        if exp <= now_unix_s {
            return (LicenseState::ProExpired, Some(String::from_str("license expired")));
        }
    }
    (LicenseState::ProActive, None)
}

/// What `status` reports.
#[derive(Debug)]
pub struct LicenseStatus {
    pub state: LicenseState,
    pub license_id: Option<String>,
    pub plan: Option<String>,
    pub seats: Option<u32>,
    pub expires_at_unix_seconds: Option<u64>,
    pub last_verified_at_unix_seconds: Option<u64>,
    pub checked_at_unix_seconds: u64,
    pub reason: Option<String>,
}

/// The license directory as a model: the installed payload with the verdict
/// of its signature check, the activation record, and the device id.
#[derive(Debug)]
pub struct LicenseStore {
    pub installed: Option<(LicensePayloadV1, bool)>,
    pub activation: Option<ActivationState>,
    pub device_id: Option<String>,
}

#[verifier::ext_equal]
pub struct LicenseStoreM {
    pub installed: Option<(LicensePayloadM, bool)>,
    pub activation: Option<ActivationM>,
    pub device_id: Option<Seq<char>>,
}

impl View for LicenseStore {
    type V = LicenseStoreM;

    open spec fn view(&self) -> LicenseStoreM {
        LicenseStoreM {
            installed: match &self.installed {
                Some((p, ok)) => Some((p@, *ok)),
                None => None,
            },
            activation: match &self.activation {
                Some(a) => Some(a@),
                None => None,
            },
            device_id: view_opt_str(self.device_id),
        }
    }
}

/// The state `status` derives from the store: no artifacts means community, a
/// failed signature or schema means invalid, expiry wins next, and a valid
/// unexpired license is active exactly when an activation with a matching
/// license id exists.
pub open spec fn derived_state(s: LicenseStoreM, now_unix_s: u64) -> LicenseState {
    match s.installed {
        None => LicenseState::Community,
        Some((p, sig_ok)) => {
            if !sig_ok {
                LicenseState::ProInvalid
            } else {
                let fs = license_field_state(p, now_unix_s);
                if fs != LicenseState::ProActive {
                    fs
                } else {
                    match s.activation {
                        Some(a) => {
                            if a.license_id == p.license_id {
                                LicenseState::ProActive
                            } else {
                                LicenseState::ProInvalid
                            }
                        },
                        None => LicenseState::ProInvalid,
                    }
                }
            }
        },
    }
}

impl LicenseStore {
    /// An empty license directory.
    pub fn new() -> (r: LicenseStore)
        ensures
            r@.installed is None,
            r@.activation is None,
            r@.device_id is None,
    {
        LicenseStore { installed: None, activation: None, device_id: None }
    }

    /// Installs a new entitlement after its signature and schema were
    /// checked: rejected unless the signature holds and the fields are valid
    /// (expired is accepted). An install never auto-activates: the activation
    /// record is left as it is, and the status it reports demands activation
    /// unless a matching activation already exists.
    pub fn install_license(
        &mut self,
        payload: &LicensePayloadV1,
        sig_ok: bool,
        now_unix_s: u64,
    ) -> (r: Result<LicenseStatus, String>)
        ensures
            r is Ok <==> (sig_ok && license_field_state(payload@, now_unix_s)
                != LicenseState::ProInvalid),
            r is Ok ==> final(self)@.installed == Some((payload@, true)) && final(self)@.device_id
                == old(self)@.device_id && (final(self)@.activation == old(self)@.activation || (
            old(self)@.activation matches Some(a0) && final(self)@.activation == Some(
                (ActivationM { last_verified_at: now_unix_s, ..a0 }),
            ))),
            r is Err ==> final(self)@ == old(self)@,
            r matches Ok(st) ==> st.state == derived_state(final(self)@, now_unix_s)
                && view_opt_str(st.license_id) == Some(payload@.license_id)
                && st.checked_at_unix_seconds == now_unix_s,
    {
        let (fs, reason) = validate_fields(payload, now_unix_s);
        if !sig_ok {
            return Err(String::from_str("signature verification failed"));
        }
        if fs == LicenseState::ProInvalid {
            return Err(
                match reason {
                    Some(r) => r,
                    None => String::from_str("license validation failed"),
                },
            );
        }
        self.installed = Some((payload.clone(), true));
        proof {
            assert(self@ =~= (LicenseStoreM { installed: Some((payload@, true)), ..old(self)@ }));
        }
        Ok(self.status(now_unix_s))
    }

    /// Activates the installed entitlement on this device: rejected without a
    /// valid installed license; an expired one only refreshes the status.
    /// Otherwise a device id is loaded or created and the activation record
    /// is written with `activated_at` and `last_verified_at` set to now.
    pub fn activate(&mut self, now_unix_s: u64) -> (r: Result<LicenseStatus, String>)
        ensures
            r is Ok <==> (old(self)@.installed matches Some((p, sig_ok)) && sig_ok
                && license_field_state(p, now_unix_s) != LicenseState::ProInvalid),
            final(self)@.installed == old(self)@.installed,
            old(self)@.installed matches Some((p, sig_ok)) ==> ((sig_ok && license_field_state(
                p,
                now_unix_s,
            ) == LicenseState::ProActive) ==> {
                &&& (final(self)@.activation matches Some(a) && a.license_id == p.license_id
                    && a.activated_at == now_unix_s && a.last_verified_at == now_unix_s
                    && a.device_id == final(self)@.device_id->Some_0)
                &&& final(self)@.device_id is Some
                &&& (old(self)@.device_id is Some ==> final(self)@.device_id == old(
                    self,
                )@.device_id)
            }),
            !(old(self)@.installed matches Some((p, sig_ok)) && sig_ok && license_field_state(
                p,
                now_unix_s,
            ) == LicenseState::ProActive) ==> final(self)@.activation == old(self)@.activation
                && final(self)@.device_id == old(self)@.device_id,
            r matches Ok(st) ==> ((old(self)@.installed matches Some((p, sig_ok)) && sig_ok
                && license_field_state(p, now_unix_s) == LicenseState::ProActive) ==> st.state
                == LicenseState::ProActive),
            r matches Ok(st) ==> ((old(self)@.installed matches Some((p, sig_ok)) && sig_ok
                && license_field_state(p, now_unix_s) == LicenseState::ProExpired) ==> st.state
                == LicenseState::ProExpired),
    {
        let (payload, sig_ok) = match &self.installed {
            Some((p, ok)) => (p.clone(), *ok),
            None => {
                return Err(String::from_str("no license installed"));
            },
        };
        if !sig_ok {
            return Err(String::from_str("invalid license"));
        }
        let (fs, reason) = validate_fields(&payload, now_unix_s);
        if fs == LicenseState::ProExpired {
            return Ok(self.status(now_unix_s));
        }
        if fs != LicenseState::ProActive {
            return Err(
                match reason {
                    Some(r) => r,
                    None => String::from_str("invalid license"),
                },
            );
        }
        let device_id = match &self.device_id {
            Some(d) => d.clone(),
            None => new_uuid_string(),
        };
        self.device_id = Some(device_id.clone());
        self.activation = Some(
            ActivationState {
                device_id,
                activated_at: now_unix_s,
                license_id: payload.license_id.clone(),
                last_verified_at: now_unix_s,
            },
        );
        let st = self.status(now_unix_s);
        proof {
            assert(derived_state(self@, now_unix_s) == LicenseState::ProActive);
        }
        Ok(st)
    }

    /// Removes the activation record, if any, and reports the status that
    /// leaves behind.
    pub fn deactivate(&mut self, now_unix_s: u64) -> (st: LicenseStatus)
        ensures
            final(self)@.installed == old(self)@.installed,
            final(self)@.device_id == old(self)@.device_id,
            final(self)@.activation is None,
            st.state == derived_state(final(self)@, now_unix_s),
    {
        self.activation = None;
        self.status(now_unix_s)
    }

    /// Derives the current status. For an active license the activation's
    /// `last_verified_at` is refreshed to now.
    pub fn status(&mut self, now_unix_s: u64) -> (st: LicenseStatus)
        ensures
            st.state == derived_state(old(self)@, now_unix_s),
            st.checked_at_unix_seconds == now_unix_s,
            final(self)@.installed == old(self)@.installed,
            final(self)@.device_id == old(self)@.device_id,
            st.state == LicenseState::ProActive ==> (final(self)@.activation matches Some(a) && (
            old(self)@.activation matches Some(a0) && a == (ActivationM {
                last_verified_at: now_unix_s,
                ..a0
            }))),
            st.state != LicenseState::ProActive ==> final(self)@.activation == old(
                self,
            )@.activation,
            st.state != LicenseState::ProActive ==> st.reason is Some,
            old(self)@.installed matches Some((p, _)) ==> (view_opt_str(st.license_id) == Some(
                p.license_id,
            ) && view_opt_str(st.plan) == Some(p.plan) && st.seats == Some(p.seats)
                && st.expires_at_unix_seconds == p.expires_at),
            old(self)@.installed is None ==> st.state == LicenseState::Community,
            st.state == LicenseState::ProActive ==> st.last_verified_at_unix_seconds == Some(
                now_unix_s,
            ),
    {
        let (payload, sig_ok) = match &self.installed {
            Some((p, ok)) => (p.clone(), *ok),
            None => {
                return LicenseStatus {
                    state: LicenseState::Community,
                    license_id: None,
                    plan: None,
                    seats: None,
                    expires_at_unix_seconds: None,
                    last_verified_at_unix_seconds: None,
                    checked_at_unix_seconds: now_unix_s,
                    reason: Some(String::from_str("no license installed")),
                };
            },
        };
        if !sig_ok {
            return LicenseStatus {
                state: LicenseState::ProInvalid,
                license_id: Some(payload.license_id),
                plan: Some(payload.plan),
                seats: Some(payload.seats),
                expires_at_unix_seconds: payload.expires_at,
                last_verified_at_unix_seconds: None,
                checked_at_unix_seconds: now_unix_s,
                reason: Some(String::from_str("invalid license signature")),
            };
        }
        let (fs, reason) = validate_fields(&payload, now_unix_s);
        if fs == LicenseState::ProExpired {
            return LicenseStatus {
                state: LicenseState::ProExpired,
                license_id: Some(payload.license_id),
                plan: Some(payload.plan),
                seats: Some(payload.seats),
                expires_at_unix_seconds: payload.expires_at,
                last_verified_at_unix_seconds: None,
                checked_at_unix_seconds: now_unix_s,
                reason,
            };
        }
        if fs != LicenseState::ProActive {
            return LicenseStatus {
                state: LicenseState::ProInvalid,
                license_id: Some(payload.license_id),
                plan: Some(payload.plan),
                seats: Some(payload.seats),
                expires_at_unix_seconds: payload.expires_at,
                last_verified_at_unix_seconds: None,
                checked_at_unix_seconds: now_unix_s,
                reason: match reason {
                    Some(r) => Some(r),
                    None => Some(String::from_str("invalid license")),
                },
            };
        }
        let activated = match &self.activation {
            Some(a) => {
                let m = a.license_id.eq(&payload.license_id);
                m
            },
            None => false,
        };
        if !activated {
            return LicenseStatus {
                state: LicenseState::ProInvalid,
                license_id: Some(payload.license_id),
                plan: Some(payload.plan),
                seats: Some(payload.seats),
                expires_at_unix_seconds: payload.expires_at,
                last_verified_at_unix_seconds: match &self.activation {
                    Some(a) => Some(a.last_verified_at),
                    None => None,
                },
                checked_at_unix_seconds: now_unix_s,
                reason: Some(String::from_str("license is valid but not activated on this device")),
            };
        }
        let refreshed = match &self.activation {
            Some(a) => {
                ActivationState {
                    device_id: a.device_id.clone(),
                    activated_at: a.activated_at,
                    license_id: a.license_id.clone(),
                    last_verified_at: now_unix_s,
                }
            },
            None => {
                return LicenseStatus {
                    state: LicenseState::ProInvalid,
                    license_id: Some(payload.license_id),
                    plan: Some(payload.plan),
                    seats: Some(payload.seats),
                    expires_at_unix_seconds: payload.expires_at,
                    last_verified_at_unix_seconds: None,
                    checked_at_unix_seconds: now_unix_s,
                    reason: Some(String::from_str("license is valid but not activated on this device")),
                };
            },
        };
        self.activation = Some(refreshed);
        LicenseStatus {
            state: LicenseState::ProActive,
            license_id: Some(payload.license_id),
            plan: Some(payload.plan),
            seats: Some(payload.seats),
            expires_at_unix_seconds: payload.expires_at,
            last_verified_at_unix_seconds: Some(now_unix_s),
            checked_at_unix_seconds: now_unix_s,
            reason: None,
        }
    }
}

/// The activation round trip. Installing a valid, unexpired, correctly
/// signed entitlement and then activating yields `ProActive`; deactivating
/// afterwards drops back to `ProInvalid` (activation missing), never to a
/// state that keeps the entitlement active.
pub proof fn lemma_license_lifecycle(s: LicenseStoreM, p: LicensePayloadM, now: u64)
    requires
        license_field_state(p, now) == LicenseState::ProActive,
    ensures
        ({
            let installed = LicenseStoreM { installed: Some((p, true)), ..s };
            forall|a: ActivationM, dev: Seq<char>|
                a.license_id == p.license_id ==> #[trigger] derived_state(
                    (LicenseStoreM { activation: Some(a), device_id: Some(dev), ..installed }),
                    now,
                ) == LicenseState::ProActive
        }),
        derived_state(
            (LicenseStoreM { installed: Some((p, true)), activation: None, ..s }),
            now,
        ) == LicenseState::ProInvalid,
{
}

} // verus!
