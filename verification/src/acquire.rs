//! Credential acquisition: obtaining initial ticket-granting
//! credentials for a principal, via a password or a keytab, and
//! storing them into the session's private cache.
//!
//! The operation is a fixed sequence of native calls — parse the
//! principal, (for a keytab) resolve the keytab, request initial
//! credentials, initialize the cache, store the credentials — each of
//! which may fail. Three transient native resources arise along the
//! way (the parsed principal, the keytab reference, the acquired
//! credential contents), and every one of them must be released
//! exactly once on every path, success or failure. [`Acquisition`]
//! tracks which are live; each event says which the embedding layer
//! must release now, and a finished acquisition holds none.

use vstd::prelude::*;
use vstd::string::StringExecFns;

use crate::errors::{spec_translated_krb5, NativeFailure, SessionError};

verus! {

/// The Kerberos status code for "cannot contact any KDC for the
/// requested realm".
pub const KRB5_KDC_UNREACH: i32 = -1765328228;

/// The Kerberos status code for "cannot resolve network address for
/// KDC in the requested realm".
pub const KRB5_REALM_CANT_RESOLVE: i32 = -1765328164;

/// How the initial credentials are requested.
#[derive(Clone, Copy, PartialEq, Eq, Structural, Debug)]
pub enum AcquireMethod {
    Password,
    Keytab,
}

/// The native release calls one acquisition event demands.
#[derive(Clone, Copy, PartialEq, Eq, Structural, Debug)]
pub struct ReleasePlan {
    pub free_principal: bool,
    pub close_keytab: bool,
    pub free_cred_contents: bool,
}

/// No release due.
pub open spec fn spec_no_release() -> ReleasePlan {
    ReleasePlan { free_principal: false, close_keytab: false, free_cred_contents: false }
}

/// The releases due after the keytab-resolve call: on failure the
/// parsed principal is freed; no keytab reference was acquired.
pub open spec fn spec_resolve_release(ret: i32) -> ReleasePlan {
    ReleasePlan { free_principal: ret != 0, close_keytab: false, free_cred_contents: false }
}

/// The releases due after the initial-credentials request: the keytab
/// reference, if one was resolved, is closed in every case; on failure
/// the principal is freed too.
pub open spec fn spec_acquired_release(keytab_was_live: bool, ret: i32) -> ReleasePlan {
    ReleasePlan { free_principal: ret != 0, close_keytab: keytab_was_live, free_cred_contents: false }
}

/// The releases due after cache initialization: on failure both the
/// principal and the acquired credential contents are released.
pub open spec fn spec_cache_init_release(ret: i32) -> ReleasePlan {
    ReleasePlan { free_principal: ret != 0, close_keytab: false, free_cred_contents: ret != 0 }
}

/// The releases due after the final cache-store call: the principal
/// and the credential contents are released in every case.
pub open spec fn spec_store_release() -> ReleasePlan {
    ReleasePlan { free_principal: true, close_keytab: false, free_cred_contents: true }
}

/// The failing-operation prefix of a credential-acquisition failure.
pub open spec fn spec_acquire_prefix(method: AcquireMethod) -> Seq<char> {
    if method is Password {
        "krb5_get_init_creds_password failed"@
    } else {
        "krb5_get_init_creds_keytab failed"@
    }
}

/// Gate for keytab acquisition: a keytab path that does not exist
/// fails before any native call is made.
pub fn keytab_precheck(path: &str, path_exists: bool) -> (r: Result<(), SessionError>)
    ensures
        path_exists <==> r is Ok,
        !path_exists ==> (r matches Err(e) && e matches SessionError::KeytabNotFound { path: p }
            && p@ == path@),
{
    if path_exists {
        Ok(())
    } else {
        Err(SessionError::KeytabNotFound { path: String::from_str(path) })
    }
}

/// The resolver name under which the native library opens a keytab
/// file.
pub fn keytab_resolver_name(path: &str) -> (r: String)
    ensures
        r@ == "FILE:"@ + path@,
{
    let mut s = String::from_str("FILE:");
    s.append(path);
    s
}

/// One in-flight acquisition: which transient native resources are
/// currently live, and whether the operation has finished (with
/// either outcome).
pub struct Acquisition {
    pub method: AcquireMethod,
    pub principal_live: bool,
    pub keytab_live: bool,
    pub creds_live: bool,
    pub finished: bool,
}

impl Acquisition {
    /// A finished acquisition holds no transient native resource.
    pub open spec fn inv(&self) -> bool {
        self.finished ==> (!self.principal_live && !self.keytab_live && !self.creds_live)
    }

    /// Starts an acquisition: nothing is live yet.
    pub fn begin(method: AcquireMethod) -> (a: Acquisition)
        ensures
            a.method == method,
            !a.principal_live,
            !a.keytab_live,
            !a.creds_live,
            !a.finished,
            a.inv(),
    {
        Acquisition {
            method,
            principal_live: false,
            keytab_live: false,
            creds_live: false,
            finished: false,
        }
    }

    /// Interprets the principal-parse status. On failure the operation
    /// ends with `InvalidPrincipal`; no resource was acquired, so none
    /// is released.
    pub fn on_principal_parsed(&mut self, ret: i32, native_text: String) -> (r: Result<
        (),
        SessionError,
    >)
        requires
            !old(self).finished,
            !old(self).principal_live,
            !old(self).keytab_live,
            !old(self).creds_live,
            old(self).inv(),
        ensures
            final(self).inv(),
            final(self).method == old(self).method,
            final(self).keytab_live == old(self).keytab_live,
            final(self).creds_live == old(self).creds_live,
            ret == 0 ==> (r is Ok && final(self).principal_live && !final(self).finished),
            ret != 0 ==> (r matches Err(e) && e matches SessionError::InvalidPrincipal {
                failure,
            } && spec_translated_krb5(failure, "krb5_parse_name failed"@, native_text@, ret)
                && !final(self).principal_live && final(self).finished),
    {
        if ret == 0 {
            self.principal_live = true;
            Ok(())
        } else {
            self.finished = true;
            let failure = NativeFailure {
                prefix: String::from_str("krb5_parse_name failed"),
                detail: native_text,
                code: ret,
            };
            Err(SessionError::InvalidPrincipal { failure })
        }
    }

    /// Interprets the keytab-resolve status. On failure the parsed
    /// principal is freed and the operation ends with a translated
    /// error.
    pub fn on_keytab_resolved(&mut self, ret: i32, native_text: String) -> (r: (
        Result<(), SessionError>,
        ReleasePlan,
    ))
        requires
            !old(self).finished,
            old(self).method is Keytab,
            old(self).principal_live,
            !old(self).keytab_live,
            !old(self).creds_live,
            old(self).inv(),
        ensures
            final(self).inv(),
            final(self).method == old(self).method,
            !final(self).creds_live,
            r.1 == spec_resolve_release(ret),
            ret == 0 ==> (r.0 is Ok && final(self).principal_live && final(self).keytab_live
                && !final(self).finished),
            ret != 0 ==> (r.0 matches Err(e) && e
                matches SessionError::CredentialAcquisitionFailed { failure }
                && spec_translated_krb5(failure, "krb5_kt_resolve failed"@, native_text@, ret)
                && final(self).finished && !final(self).principal_live
                && !final(self).keytab_live),
    {
        if ret == 0 {
            self.keytab_live = true;
            (
                Ok(()),
                ReleasePlan { free_principal: false, close_keytab: false, free_cred_contents: false },
            )
        } else {
            self.principal_live = false;
            self.finished = true;
            let failure = NativeFailure {
                prefix: String::from_str("krb5_kt_resolve failed"),
                detail: native_text,
                code: ret,
            };
            (
                Err(SessionError::CredentialAcquisitionFailed { failure }),
                ReleasePlan { free_principal: true, close_keytab: false, free_cred_contents: false },
            )
        }
    }

    /// Interprets the initial-credentials request. The keytab
    /// reference, if one was resolved, is closed now in every case —
    /// it is not needed afterwards. A KDC-unreachable report surfaces
    /// as `KdcUnreachable` and an unresolvable realm as
    /// `RealmUnresolvable`; any other failure is a translated native
    /// error. On every failure the principal is freed and the
    /// operation ends.
    pub fn on_credentials_acquired(&mut self, ret: i32, native_text: String) -> (r: (
        Result<(), SessionError>,
        ReleasePlan,
    ))
        requires
            !old(self).finished,
            old(self).principal_live,
            !old(self).creds_live,
            old(self).keytab_live == (old(self).method is Keytab),
            old(self).inv(),
        ensures
            final(self).inv(),
            final(self).method == old(self).method,
            !final(self).keytab_live,
            r.1 == spec_acquired_release(old(self).keytab_live, ret),
            ret == 0 ==> (r.0 is Ok && final(self).principal_live && final(self).creds_live
                && !final(self).finished),
            ret != 0 ==> (final(self).finished && !final(self).principal_live
                && !final(self).creds_live),
            ret == KRB5_KDC_UNREACH ==> (r.0 matches Err(e) && e is KdcUnreachable),
            ret == KRB5_REALM_CANT_RESOLVE ==> (r.0 matches Err(e) && e is RealmUnresolvable),
            (ret != 0 && ret != KRB5_KDC_UNREACH && ret != KRB5_REALM_CANT_RESOLVE) ==> (r.0
                matches Err(e) && e matches SessionError::CredentialAcquisitionFailed { failure }
                && spec_translated_krb5(
                failure,
                spec_acquire_prefix(old(self).method),
                native_text@,
                ret,
            )),
    {
        let close_keytab = self.keytab_live;
        self.keytab_live = false;
        if ret == 0 {
            self.creds_live = true;
            (
                Ok(()),
                ReleasePlan { free_principal: false, close_keytab, free_cred_contents: false },
            )
        } else {
            self.principal_live = false;
            self.finished = true;
            let plan = ReleasePlan { free_principal: true, close_keytab, free_cred_contents: false };
            if ret == KRB5_KDC_UNREACH {
                (Err(SessionError::KdcUnreachable), plan)
            } else if ret == KRB5_REALM_CANT_RESOLVE {
                (Err(SessionError::RealmUnresolvable), plan)
            } else {
                let prefix = match self.method {
                    AcquireMethod::Password => String::from_str(
                        "krb5_get_init_creds_password failed",
                    ),
                    AcquireMethod::Keytab => String::from_str("krb5_get_init_creds_keytab failed"),
                };
                let failure = NativeFailure { prefix, detail: native_text, code: ret };
                (Err(SessionError::CredentialAcquisitionFailed { failure }), plan)
            }
        }
    }

    /// Interprets the cache-initialization status. On failure the
    /// principal is freed and the acquired credential contents are
    /// released before the translated error is returned.
    pub fn on_cache_initialized(&mut self, ret: i32, native_text: String) -> (r: (
        Result<(), SessionError>,
        ReleasePlan,
    ))
        requires
            !old(self).finished,
            old(self).principal_live,
            old(self).creds_live,
            !old(self).keytab_live,
            old(self).inv(),
        ensures
            final(self).inv(),
            final(self).method == old(self).method,
            !final(self).keytab_live,
            r.1 == spec_cache_init_release(ret),
            ret == 0 ==> (r.0 is Ok && final(self).principal_live && final(self).creds_live
                && !final(self).finished),
            ret != 0 ==> (r.0 matches Err(e) && e matches SessionError::CacheInitFailed { failure }
                && spec_translated_krb5(failure, "krb5_cc_initialize failed"@, native_text@, ret)
                && final(self).finished && !final(self).principal_live
                && !final(self).creds_live),
    {
        if ret == 0 {
            (
                Ok(()),
                ReleasePlan { free_principal: false, close_keytab: false, free_cred_contents: false },
            )
        } else {
            self.principal_live = false;
            self.creds_live = false;
            self.finished = true;
            let failure = NativeFailure {
                prefix: String::from_str("krb5_cc_initialize failed"),
                detail: native_text,
                code: ret,
            };
            (
                Err(SessionError::CacheInitFailed { failure }),
                ReleasePlan { free_principal: true, close_keytab: false, free_cred_contents: true },
            )
        }
    }

    /// Interprets the cache-store status, the final step. The
    /// principal and the credential contents are released now in every
    /// case; a failure surfaces as a translated error.
    pub fn on_credentials_stored(&mut self, ret: i32, native_text: String) -> (r: (
        Result<(), SessionError>,
        ReleasePlan,
    ))
        requires
            !old(self).finished,
            old(self).principal_live,
            old(self).creds_live,
            !old(self).keytab_live,
            old(self).inv(),
        ensures
            final(self).inv(),
            final(self).method == old(self).method,
            final(self).finished,
            !final(self).principal_live,
            !final(self).keytab_live,
            !final(self).creds_live,
            r.1 == spec_store_release(),
            ret == 0 <==> r.0 is Ok,
            ret != 0 ==> (r.0 matches Err(e) && e matches SessionError::CacheStoreFailed { failure }
                && spec_translated_krb5(failure, "krb5_cc_store_cred failed"@, native_text@, ret)),
    {
        self.principal_live = false;
        self.creds_live = false;
        self.finished = true;
        let plan = ReleasePlan {
            free_principal: true,
            close_keytab: false,
            free_cred_contents: true,
        };
        if ret == 0 {
            (Ok(()), plan)
        } else {
            let failure = NativeFailure {
                prefix: String::from_str("krb5_cc_store_cred failed"),
                detail: native_text,
                code: ret,
            };
            (Err(SessionError::CacheStoreFailed { failure }), plan)
        }
    }
}

/// Whatever path an acquisition took — success, a failed parse, an
/// unreachable KDC, a failed cache step — once it has finished it
/// holds no transient native resource: principal, keytab reference
/// and credential contents have all been released.
pub proof fn lemma_finished_acquisition_clean(a: Acquisition)
    requires
        a.inv(),
        a.finished,
    ensures
        !a.principal_live,
        !a.keytab_live,
        !a.creds_live,
{
}

/// Which transient resources one full acquisition run acquires and
/// releases, and whether it succeeds.
pub struct AcquireLedger {
    pub principal_acquired: bool,
    pub principal_released: bool,
    pub keytab_resolved: bool,
    pub keytab_closed: bool,
    pub creds_acquired: bool,
    pub creds_released: bool,
    pub succeeded: bool,
}

/// A full password acquisition, given the status of each native call
/// in order (a later status matters only when every earlier call
/// succeeded): parse the principal, request credentials, initialize
/// the cache, store the credentials. Each step's releases are the ones
/// its event demands.
pub open spec fn spec_password_run(parse: i32, acq: i32, init: i32, store: i32) -> AcquireLedger {
    if parse != 0 {
        AcquireLedger {
            principal_acquired: false,
            principal_released: false,
            keytab_resolved: false,
            keytab_closed: false,
            creds_acquired: false,
            creds_released: false,
            succeeded: false,
        }
    } else if acq != 0 {
        let p = spec_acquired_release(false, acq);
        AcquireLedger {
            principal_acquired: true,
            principal_released: p.free_principal,
            keytab_resolved: false,
            keytab_closed: p.close_keytab,
            creds_acquired: false,
            creds_released: p.free_cred_contents,
            succeeded: false,
        }
    } else if init != 0 {
        let p = spec_cache_init_release(init);
        AcquireLedger {
            principal_acquired: true,
            principal_released: p.free_principal,
            keytab_resolved: false,
            keytab_closed: false,
            creds_acquired: true,
            creds_released: p.free_cred_contents,
            succeeded: false,
        }
    } else {
        let p = spec_store_release();
        AcquireLedger {
            principal_acquired: true,
            principal_released: p.free_principal,
            keytab_resolved: false,
            keytab_closed: false,
            creds_acquired: true,
            creds_released: p.free_cred_contents,
            succeeded: store == 0,
        }
    }
}

/// A full keytab acquisition: as the password flow, with the keytab
/// resolved after the principal parse and closed at the
/// credentials-request step in every case.
pub open spec fn spec_keytab_run(
    parse: i32,
    resolve: i32,
    acq: i32,
    init: i32,
    store: i32,
) -> AcquireLedger {
    if parse != 0 {
        AcquireLedger {
            principal_acquired: false,
            principal_released: false,
            keytab_resolved: false,
            keytab_closed: false,
            creds_acquired: false,
            creds_released: false,
            succeeded: false,
        }
    } else if resolve != 0 {
        let p = spec_resolve_release(resolve);
        AcquireLedger {
            principal_acquired: true,
            principal_released: p.free_principal,
            keytab_resolved: false,
            keytab_closed: p.close_keytab,
            creds_acquired: false,
            creds_released: p.free_cred_contents,
            succeeded: false,
        }
    } else if acq != 0 {
        let p = spec_acquired_release(true, acq);
        AcquireLedger {
            principal_acquired: true,
            principal_released: p.free_principal,
            keytab_resolved: true,
            keytab_closed: p.close_keytab,
            creds_acquired: false,
            creds_released: p.free_cred_contents,
            succeeded: false,
        }
    } else if init != 0 {
        let p = spec_cache_init_release(init);
        AcquireLedger {
            principal_acquired: true,
            principal_released: p.free_principal,
            keytab_resolved: true,
            keytab_closed: spec_acquired_release(true, acq).close_keytab,
            creds_acquired: true,
            creds_released: p.free_cred_contents,
            succeeded: false,
        }
    } else {
        let p = spec_store_release();
        AcquireLedger {
            principal_acquired: true,
            principal_released: p.free_principal,
            keytab_resolved: true,
            keytab_closed: spec_acquired_release(true, acq).close_keytab,
            creds_acquired: true,
            creds_released: p.free_cred_contents,
            succeeded: store == 0,
        }
    }
}

/// On every path of a password acquisition, each transient resource
/// that was acquired is released — exactly the acquired ones — and the
/// run succeeds exactly when every native call reported success.
pub proof fn lemma_password_run_releases_all(parse: i32, acq: i32, init: i32, store: i32)
    ensures
        ({
            let l = spec_password_run(parse, acq, init, store);
            &&& l.principal_released == l.principal_acquired
            &&& l.keytab_closed == l.keytab_resolved
            &&& l.creds_released == l.creds_acquired
            &&& (l.succeeded <==> parse == 0 && acq == 0 && init == 0 && store == 0)
        }),
{
}

/// On every path of a keytab acquisition, each transient resource that
/// was acquired is released — exactly the acquired ones — and the run
/// succeeds exactly when every native call reported success.
pub proof fn lemma_keytab_run_releases_all(parse: i32, resolve: i32, acq: i32, init: i32, store: i32)
    ensures
        ({
            let l = spec_keytab_run(parse, resolve, acq, init, store);
            &&& l.principal_released == l.principal_acquired
            &&& l.keytab_closed == l.keytab_resolved
            &&& l.creds_released == l.creds_acquired
            &&& (l.succeeded <==> parse == 0 && resolve == 0 && acq == 0 && init == 0 && store
                == 0)
        }),
{
}

} // verus!
