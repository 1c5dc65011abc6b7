//! The failure taxonomy of a session, and the translation of native
//! status codes into descriptive text.
//!
//! Two code families exist: Kerberos-library status codes (a signed
//! code plus a looked-up message) and GSSAPI major/minor status pairs
//! (whose human-readable fragments come from a status-display lookup
//! that is made once for the major code and, when the minor code is
//! non-zero, once more for the minor code). The lookups themselves are
//! native calls that the embedding layer performs; this module states
//! exactly what text each translated failure carries.

use vstd::prelude::*;
use vstd::string::StringExecFns;

use crate::digits::{decimal_i32, decimal_u32, spec_decimal_int, spec_decimal_nat};

verus! {

/// A translated Kerberos-library failure: the operation that failed,
/// the human-readable native message, and the raw status code.
#[derive(Debug)]
pub struct NativeFailure {
    pub prefix: String,
    pub detail: String,
    pub code: i32,
}

/// A translated GSSAPI failure: the operation that failed, the
/// concatenated human-readable fragments (when the status-display
/// lookup itself succeeded), and the raw major/minor codes.
#[derive(Debug)]
pub struct GssFailure {
    pub prefix: String,
    pub detail: String,
    pub known: bool,
    pub major: u32,
    pub minor: u32,
}

/// Everything that can go wrong over a session's lifetime.
#[derive(Debug)]
pub enum SessionError {
    ConfigWriteFailed { detail: String },
    ContextInitFailed { code: i32 },
    CacheOpenFailed { code: i32 },
    InvalidPrincipal { failure: NativeFailure },
    KeytabNotFound { path: String },
    KdcUnreachable,
    RealmUnresolvable,
    CredentialAcquisitionFailed { failure: NativeFailure },
    CacheInitFailed { failure: NativeFailure },
    CacheStoreFailed { failure: NativeFailure },
    NameImportFailed { failure: GssFailure },
    NegotiationFailed { failure: GssFailure },
    ContextNotEstablished,
    ProtectionFailed { failure: GssFailure },
}

/// The message of a translated Kerberos failure.
pub open spec fn spec_krb5_text(f: NativeFailure) -> Seq<char> {
    f.prefix@ + ": "@ + f.detail@ + ". (error code "@ + spec_decimal_int(f.code as int) + ")"@
}

/// The message of a translated GSSAPI failure. When the status-display
/// lookup failed, only the raw major code can be reported.
pub open spec fn spec_gss_text(f: GssFailure) -> Seq<char> {
    if f.known {
        f.prefix@ + ": "@ + f.detail@ + ". (error code "@ + spec_decimal_nat(f.major as nat)
            + " - "@ + spec_decimal_nat(f.minor as nat) + ")"@
    } else {
        f.prefix@ + ": unknown error. (error code "@ + spec_decimal_nat(f.major as nat) + ")"@
    }
}

/// What a freshly translated Kerberos failure holds.
pub open spec fn spec_translated_krb5(
    f: NativeFailure,
    prefix: Seq<char>,
    detail: Seq<char>,
    code: i32,
) -> bool {
    &&& f.prefix@ == prefix
    &&& f.detail@ == detail
    &&& f.code == code
}

/// What a freshly translated GSSAPI failure holds, given the outcome of
/// the two status-display lookups: absent major text means the lookup
/// itself failed; minor text is appended to major text when present.
pub open spec fn spec_translated_gss(
    f: GssFailure,
    prefix: Seq<char>,
    major: u32,
    minor: u32,
    major_text: Option<Seq<char>>,
    minor_text: Option<Seq<char>>,
) -> bool {
    &&& f.prefix@ == prefix
    &&& f.major == major
    &&& f.minor == minor
    &&& match major_text {
        Option::None => !f.known,
        Option::Some(mt) => f.known && f.detail@ == mt + match minor_text {
            Option::Some(nt) => nt,
            Option::None => Seq::<char>::empty(),
        },
    }
}

/// Whether the secondary (minor-status) display lookup is to be made:
/// only after a successful major-code lookup, and only for a non-zero
/// minor code, exactly as the native contract requires.
pub fn wants_minor_lookup(major_lookup_ok: bool, minor: u32) -> (b: bool)
    ensures
        b == (major_lookup_ok && minor != 0),
{
    major_lookup_ok && minor != 0
}

/// Builds a translated GSSAPI failure from the raw codes and the
/// fragments the status-display lookups returned.
pub fn translate_gss(
    prefix: String,
    major: u32,
    minor: u32,
    major_text: Option<String>,
    minor_text: Option<String>,
) -> (f: GssFailure)
    requires
        minor == 0 ==> minor_text is None,
    ensures
        spec_translated_gss(f, prefix@, major, minor, major_text.deep_view(), minor_text.deep_view()),
{
    match major_text {
        Option::Some(mt) => {
            let mut detail = mt;
            match minor_text {
                Option::Some(nt) => {
                    detail.append(nt.as_str());
                },
                Option::None => {},
            }
            GssFailure { prefix, detail, known: true, major, minor }
        },
        Option::None => {
            GssFailure { prefix, detail: String::new(), known: false, major, minor }
        },
    }
}

fn krb5_text(f: &NativeFailure) -> (m: String)
    ensures
        m@ == spec_krb5_text(*f),
{
    let mut s = String::from_str(f.prefix.as_str());
    s.append(": ");
    s.append(f.detail.as_str());
    s.append(". (error code ");
    let code = decimal_i32(f.code);
    s.append(code.as_str());
    s.append(")");
    s
}

fn gss_text(f: &GssFailure) -> (m: String)
    ensures
        m@ == spec_gss_text(*f),
{
    let mut s = String::from_str(f.prefix.as_str());
    if f.known {
        s.append(": ");
        s.append(f.detail.as_str());
        s.append(". (error code ");
        let major = decimal_u32(f.major);
        s.append(major.as_str());
        s.append(" - ");
        let minor = decimal_u32(f.minor);
        s.append(minor.as_str());
        s.append(")");
    } else {
        s.append(": unknown error. (error code ");
        let major = decimal_u32(f.major);
        s.append(major.as_str());
        s.append(")");
    }
    s
}

/// The descriptive message of each failure.
pub open spec fn spec_message(e: SessionError) -> Seq<char> {
    match e {
        SessionError::ConfigWriteFailed { detail } => "Failed to write Kerberos config: "@ + detail@,
        SessionError::ContextInitFailed { code } => "krb5_init_context failed with error code "@
            + spec_decimal_int(code as int) + "."@,
        SessionError::CacheOpenFailed { code } => "krb5_cc_default failed with error code "@
            + spec_decimal_int(code as int) + "."@,
        SessionError::InvalidPrincipal { failure } => spec_krb5_text(failure),
        SessionError::KeytabNotFound { path } => "Keytab file not found: "@ + path@,
        SessionError::KdcUnreachable => "Unable to reach the KDC."@,
        SessionError::RealmUnresolvable => "Cannot resolve the realm."@,
        SessionError::CredentialAcquisitionFailed { failure } => spec_krb5_text(failure),
        SessionError::CacheInitFailed { failure } => spec_krb5_text(failure),
        SessionError::CacheStoreFailed { failure } => spec_krb5_text(failure),
        SessionError::NameImportFailed { failure } => spec_gss_text(failure),
        SessionError::NegotiationFailed { failure } => spec_gss_text(failure),
        SessionError::ContextNotEstablished => "The security context is not established."@,
        SessionError::ProtectionFailed { failure } => spec_gss_text(failure),
    }
}

impl SessionError {
    /// The descriptive, human-readable message of this failure.
    pub fn message(&self) -> (m: String)
        ensures
            m@ == spec_message(*self),
    {
        match self {
            SessionError::ConfigWriteFailed { detail } => {
                let mut s = String::from_str("Failed to write Kerberos config: ");
                s.append(detail.as_str());
                s
            },
            SessionError::ContextInitFailed { code } => {
                let mut s = String::from_str("krb5_init_context failed with error code ");
                let c = decimal_i32(*code);
                s.append(c.as_str());
                s.append(".");
                s
            },
            SessionError::CacheOpenFailed { code } => {
                let mut s = String::from_str("krb5_cc_default failed with error code ");
                let c = decimal_i32(*code);
                s.append(c.as_str());
                s.append(".");
                s
            },
            SessionError::InvalidPrincipal { failure } => krb5_text(failure),
            SessionError::KeytabNotFound { path } => {
                let mut s = String::from_str("Keytab file not found: ");
                s.append(path.as_str());
                s
            },
            SessionError::KdcUnreachable => String::from_str("Unable to reach the KDC."),
            SessionError::RealmUnresolvable => String::from_str("Cannot resolve the realm."),
            SessionError::CredentialAcquisitionFailed { failure } => krb5_text(failure),
            SessionError::CacheInitFailed { failure } => krb5_text(failure),
            SessionError::CacheStoreFailed { failure } => krb5_text(failure),
            SessionError::NameImportFailed { failure } => gss_text(failure),
            SessionError::NegotiationFailed { failure } => gss_text(failure),
            SessionError::ContextNotEstablished => String::from_str(
                "The security context is not established.",
            ),
            SessionError::ProtectionFailed { failure } => gss_text(failure),
        }
    }
}

} // verus!
