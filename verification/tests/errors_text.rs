use krb5_session::digits::{decimal_i32, decimal_u32, decimal_u64};
use krb5_session::errors::{translate_gss, GssFailure, NativeFailure, SessionError, wants_minor_lookup};

#[test]
fn decimal_zero() {
    assert_eq!(decimal_u64(0).as_str(), "0");
}

#[test]
fn decimal_multi_digit() {
    assert_eq!(decimal_u64(305).as_str(), "305");
    assert_eq!(decimal_u64(18446744073709551615).as_str(), "18446744073709551615");
    assert_eq!(decimal_u32(4294967295).as_str(), "4294967295");
}

#[test]
fn decimal_negative() {
    assert_eq!(decimal_i32(-8).as_str(), "-8");
    assert_eq!(decimal_i32(-2147483648).as_str(), "-2147483648");
    assert_eq!(decimal_i32(2147483647).as_str(), "2147483647");
}

#[test]
fn config_write_failed_message() {
    let e = SessionError::ConfigWriteFailed { detail: String::from("No space left on device") };
    assert_eq!(e.message().as_str(), "Failed to write Kerberos config: No space left on device");
}

#[test]
fn context_init_failed_message() {
    let e = SessionError::ContextInitFailed { code: 5 };
    assert_eq!(e.message().as_str(), "krb5_init_context failed with error code 5.");
}

#[test]
fn cache_open_failed_message() {
    let e = SessionError::CacheOpenFailed { code: -3 };
    assert_eq!(e.message().as_str(), "krb5_cc_default failed with error code -3.");
}

#[test]
fn invalid_principal_message() {
    let e = SessionError::InvalidPrincipal {
        failure: NativeFailure {
            prefix: String::from("krb5_parse_name failed"),
            detail: String::from("Malformed representation of principal"),
            code: -1765328253,
        },
    };
    assert_eq!(
        e.message().as_str(),
        "krb5_parse_name failed: Malformed representation of principal. (error code -1765328253)"
    );
}

#[test]
fn keytab_not_found_message() {
    let e = SessionError::KeytabNotFound { path: String::from("/etc/nothing.keytab") };
    assert_eq!(e.message().as_str(), "Keytab file not found: /etc/nothing.keytab");
}

#[test]
fn kdc_unreachable_message() {
    assert_eq!(SessionError::KdcUnreachable.message().as_str(), "Unable to reach the KDC.");
}

#[test]
fn realm_unresolvable_message() {
    assert_eq!(SessionError::RealmUnresolvable.message().as_str(), "Cannot resolve the realm.");
}

#[test]
fn acquisition_failed_message() {
    let e = SessionError::CredentialAcquisitionFailed {
        failure: NativeFailure {
            prefix: String::from("krb5_get_init_creds_password failed"),
            detail: String::from("Preauthentication failed"),
            code: -1765328360,
        },
    };
    assert_eq!(
        e.message().as_str(),
        "krb5_get_init_creds_password failed: Preauthentication failed. (error code -1765328360)"
    );
}

#[test]
fn cache_init_failed_message() {
    let e = SessionError::CacheInitFailed {
        failure: NativeFailure {
            prefix: String::from("krb5_cc_initialize failed"),
            detail: String::from("Permission denied"),
            code: 13,
        },
    };
    assert_eq!(
        e.message().as_str(),
        "krb5_cc_initialize failed: Permission denied. (error code 13)"
    );
}

#[test]
fn cache_store_failed_message() {
    let e = SessionError::CacheStoreFailed {
        failure: NativeFailure {
            prefix: String::from("krb5_cc_store_cred failed"),
            detail: String::from("Internal credentials cache error"),
            code: -1765328188,
        },
    };
    assert_eq!(
        e.message().as_str(),
        "krb5_cc_store_cred failed: Internal credentials cache error. (error code -1765328188)"
    );
}

#[test]
fn gss_known_failure_message() {
    let e = SessionError::ProtectionFailed {
        failure: GssFailure {
            prefix: String::from("gss_wrap failed"),
            detail: String::from("No context has been established"),
            known: true,
            major: 524288,
            minor: 0,
        },
    };
    assert_eq!(
        e.message().as_str(),
        "gss_wrap failed: No context has been established. (error code 524288 - 0)"
    );
}

#[test]
fn gss_unknown_failure_message() {
    let e = SessionError::NameImportFailed {
        failure: GssFailure {
            prefix: String::from("gss_import_name failed"),
            detail: String::new(),
            known: false,
            major: 7,
            minor: 0,
        },
    };
    assert_eq!(e.message().as_str(), "gss_import_name failed: unknown error. (error code 7)");
}

#[test]
fn context_not_established_message() {
    assert_eq!(
        SessionError::ContextNotEstablished.message().as_str(),
        "The security context is not established."
    );
}

#[test]
fn translate_gss_concatenates_fragments() {
    let f = translate_gss(
        String::from("gss_init_sec_context failed"),
        851968,
        2529638919,
        Some(String::from("Miscellaneous failure. ")),
        Some(String::from("Server not found in Kerberos database")),
    );
    assert!(f.known);
    assert_eq!(f.detail.as_str(), "Miscellaneous failure. Server not found in Kerberos database");
    let e = SessionError::NegotiationFailed { failure: f };
    assert_eq!(
        e.message().as_str(),
        "gss_init_sec_context failed: Miscellaneous failure. Server not found in Kerberos database. (error code 851968 - 2529638919)"
    );
}

#[test]
fn translate_gss_lookup_failed() {
    let f = translate_gss(String::from("gss_unwrap failed"), 16, 0, None, None);
    assert!(!f.known);
    let e = SessionError::ProtectionFailed { failure: f };
    assert_eq!(e.message().as_str(), "gss_unwrap failed: unknown error. (error code 16)");
}

#[test]
fn minor_lookup_only_when_nonzero() {
    assert!(wants_minor_lookup(true, 5));
    assert!(!wants_minor_lookup(true, 0));
    assert!(!wants_minor_lookup(false, 5));
}
