use krb5_session::acquire::{
    keytab_precheck, keytab_resolver_name, AcquireMethod, Acquisition, KRB5_KDC_UNREACH,
    KRB5_REALM_CANT_RESOLVE,
};
use krb5_session::envscope::{AmbientConfig, EnvManager};
use krb5_session::errors::SessionError;
use krb5_session::session::{
    ContextState, GSSAPI, GSS_S_COMPLETE, GSS_S_CONTINUE_NEEDED,
};
use krb5_session::setup::{
    build_cache_path, build_config_path, cache_open_decision, config_write_failure,
    context_init_decision, finish_construction, render_config, SessionPlan,
};

fn fresh_session() -> GSSAPI {
    let plan = SessionPlan::new("kdc.example.com", "EXAMPLE.COM", "/tmp");
    finish_construction(plan)
}

#[test]
fn planned_paths_carry_the_session_id() {
    let plan = SessionPlan::new("kdc.example.com", "EXAMPLE.COM", "/tmp");
    assert_eq!(plan.session_id.len(), 36);
    assert_eq!(
        plan.config_path,
        format!("/tmp/plt-kafka-krb5-{}.conf", plan.session_id)
    );
    assert_eq!(
        plan.cache_path,
        format!("/tmp/plt-kafka-krb5-{}.cache", plan.session_id)
    );
}

#[test]
fn two_plans_use_distinct_ids() {
    let a = SessionPlan::new("kdc.example.com", "EXAMPLE.COM", "/tmp");
    let b = SessionPlan::new("kdc.example.com", "EXAMPLE.COM", "/tmp");
    assert_ne!(a.session_id, b.session_id);
}

#[test]
fn rendered_config_is_exact() {
    let text = render_config("EXAMPLE.COM", "kdc.example.com", "/tmp/krb.cache");
    assert_eq!(
        text.as_str(),
        "\n[libdefaults]\n  default_realm = EXAMPLE.COM\n  default_ccache_name = FILE:/tmp/krb.cache\n\n[realms]\n  EXAMPLE.COM = {\n    kdc = kdc.example.com\n  }\n"
    );
}

#[test]
fn built_paths_are_exact() {
    assert_eq!(build_config_path("/tmp", "abc").as_str(), "/tmp/plt-kafka-krb5-abc.conf");
    assert_eq!(build_cache_path("/tmp", "abc").as_str(), "/tmp/plt-kafka-krb5-abc.cache");
}

#[test]
fn config_write_failure_is_fatal() {
    let e = config_write_failure(String::from("Read-only file system"));
    assert!(matches!(e, SessionError::ConfigWriteFailed { .. }));
}

#[test]
fn context_init_failure_cleans_both_files() {
    assert!(context_init_decision(0).is_ok());
    let (e, cleanup) = context_init_decision(7).unwrap_err();
    assert!(matches!(e, SessionError::ContextInitFailed { code: 7 }));
    assert!(cleanup.remove_config_file);
    assert!(cleanup.remove_cache_file);
    assert!(!cleanup.free_context);
}

#[test]
fn cache_open_failure_frees_context_and_removes_config() {
    assert!(cache_open_decision(0).is_ok());
    let (e, cleanup) = cache_open_decision(9).unwrap_err();
    assert!(matches!(e, SessionError::CacheOpenFailed { code: 9 }));
    assert!(cleanup.remove_config_file);
    assert!(!cleanup.remove_cache_file);
    assert!(cleanup.free_context);
}

#[test]
fn scope_restores_previous_values() {
    let mut env = AmbientConfig {
        krb5_config: Some(String::from("/etc/krb5.conf")),
        krb5_ccname: None,
    };
    let guard = EnvManager::new(&mut env, "/tmp/a.conf", "/tmp/a.cache");
    assert_eq!(env.krb5_config.as_deref(), Some("/tmp/a.conf"));
    assert_eq!(env.krb5_ccname.as_deref(), Some("/tmp/a.cache"));
    guard.restore(&mut env);
    assert_eq!(env.krb5_config.as_deref(), Some("/etc/krb5.conf"));
    assert_eq!(env.krb5_ccname, None);
}

#[test]
fn nested_scopes_restore_in_order() {
    let mut env = AmbientConfig { krb5_config: None, krb5_ccname: None };
    let outer = EnvManager::new(&mut env, "/tmp/outer.conf", "/tmp/outer.cache");
    let inner = EnvManager::new(&mut env, "/tmp/inner.conf", "/tmp/inner.cache");
    assert_eq!(env.krb5_config.as_deref(), Some("/tmp/inner.conf"));
    inner.restore(&mut env);
    assert_eq!(env.krb5_config.as_deref(), Some("/tmp/outer.conf"));
    assert_eq!(env.krb5_ccname.as_deref(), Some("/tmp/outer.cache"));
    outer.restore(&mut env);
    assert_eq!(env.krb5_config, None);
    assert_eq!(env.krb5_ccname, None);
}

#[test]
fn scope_for_a_session_uses_its_paths() {
    let session = fresh_session();
    let mut env = AmbientConfig { krb5_config: None, krb5_ccname: None };
    let guard = EnvManager::new_from_api(&mut env, &session);
    assert_eq!(env.krb5_config.as_deref(), Some(session.config_path.as_str()));
    assert_eq!(env.krb5_ccname.as_deref(), Some(session.cache_path.as_str()));
    guard.restore(&mut env);
    assert_eq!(env.krb5_config, None);
    assert_eq!(env.krb5_ccname, None);
}

#[test]
fn negotiation_runs_to_completion() {
    let mut session = fresh_session();
    assert_eq!(session.state, ContextState::Uninitialized);

    let first = session
        .step_decision(GSS_S_CONTINUE_NEEDED, vec![1, 2, 3])
        .expect("continue-needed is not fatal");
    assert!(!first.completed);
    assert_eq!(first.output, vec![1, 2, 3]);
    assert_eq!(session.state, ContextState::Negotiating);

    let second = session
        .step_decision(GSS_S_COMPLETE, vec![4, 5])
        .expect("complete is not fatal");
    assert!(second.completed);
    assert_eq!(second.output, vec![4, 5]);
    assert_eq!(session.state, ContextState::Established);
}

#[test]
fn fatal_negotiation_round_leaves_negotiating() {
    let mut session = fresh_session();
    let r = session.step_decision(851968, Vec::new());
    assert!(r.is_none());
    assert_eq!(session.state, ContextState::Negotiating);
    assert!(session.gss_live);
}

#[test]
fn wrap_and_unwrap_refused_before_establishment() {
    let session = fresh_session();
    assert!(matches!(
        session.wrap_precheck(),
        Err(SessionError::ContextNotEstablished)
    ));
    assert!(matches!(
        session.unwrap_precheck(),
        Err(SessionError::ContextNotEstablished)
    ));
}

#[test]
fn wrap_and_unwrap_allowed_once_established() {
    let mut session = fresh_session();
    session.step_decision(GSS_S_COMPLETE, Vec::new());
    assert!(session.wrap_precheck().is_ok());
    assert!(session.unwrap_precheck().is_ok());
}

#[test]
fn teardown_releases_everything_once() {
    let mut session = fresh_session();
    session.step_decision(GSS_S_CONTINUE_NEEDED, Vec::new());

    let first = session.teardown();
    assert!(first.delete_config_file);
    assert!(first.delete_cache_file);
    assert!(first.release_security_context);
    assert!(first.close_cache);
    assert!(first.free_context);

    let second = session.teardown();
    assert!(!second.release_security_context);
    assert!(!second.close_cache);
    assert!(!second.free_context);
}

#[test]
fn password_acquisition_success_releases_all() {
    let mut a = Acquisition::begin(AcquireMethod::Password);
    assert!(a.on_principal_parsed(0, String::new()).is_ok());
    let (r, plan) = a.on_credentials_acquired(0, String::new());
    assert!(r.is_ok());
    assert!(!plan.close_keytab);
    let (r, plan) = a.on_cache_initialized(0, String::new());
    assert!(r.is_ok());
    assert!(!plan.free_principal);
    let (r, plan) = a.on_credentials_stored(0, String::new());
    assert!(r.is_ok());
    assert!(plan.free_principal);
    assert!(plan.free_cred_contents);
    assert!(a.finished);
    assert!(!a.principal_live && !a.keytab_live && !a.creds_live);
}

#[test]
fn bad_principal_ends_acquisition() {
    let mut a = Acquisition::begin(AcquireMethod::Password);
    let r = a.on_principal_parsed(-1765328253, String::from("Malformed representation of principal"));
    assert!(matches!(r, Err(SessionError::InvalidPrincipal { .. })));
    assert!(a.finished);
    assert!(!a.principal_live);
}

#[test]
fn unreachable_kdc_is_classified() {
    let mut a = Acquisition::begin(AcquireMethod::Password);
    a.on_principal_parsed(0, String::new()).unwrap();
    let (r, plan) = a.on_credentials_acquired(KRB5_KDC_UNREACH, String::new());
    assert!(matches!(r, Err(SessionError::KdcUnreachable)));
    assert!(plan.free_principal);
    assert!(a.finished);
}

#[test]
fn unresolvable_realm_is_classified() {
    let mut a = Acquisition::begin(AcquireMethod::Password);
    a.on_principal_parsed(0, String::new()).unwrap();
    let (r, _) = a.on_credentials_acquired(KRB5_REALM_CANT_RESOLVE, String::new());
    assert!(matches!(r, Err(SessionError::RealmUnresolvable)));
}

#[test]
fn other_acquisition_failure_is_translated() {
    let mut a = Acquisition::begin(AcquireMethod::Password);
    a.on_principal_parsed(0, String::new()).unwrap();
    let (r, _) = a.on_credentials_acquired(-1765328360, String::from("Preauthentication failed"));
    match r {
        Err(SessionError::CredentialAcquisitionFailed { failure }) => {
            assert_eq!(failure.prefix.as_str(), "krb5_get_init_creds_password failed");
            assert_eq!(failure.detail.as_str(), "Preauthentication failed");
            assert_eq!(failure.code, -1765328360);
        }
        _ => panic!("expected a translated acquisition failure"),
    }
}

#[test]
fn missing_keytab_fails_before_any_native_call() {
    let r = keytab_precheck("/etc/nothing.keytab", false);
    match r {
        Err(SessionError::KeytabNotFound { path }) => {
            assert_eq!(path.as_str(), "/etc/nothing.keytab")
        }
        _ => panic!("expected KeytabNotFound"),
    }
    assert!(keytab_precheck("/etc/present.keytab", true).is_ok());
}

#[test]
fn keytab_resolver_name_is_prefixed() {
    assert_eq!(keytab_resolver_name("/etc/svc.keytab").as_str(), "FILE:/etc/svc.keytab");
}

#[test]
fn keytab_acquisition_closes_keytab_on_every_path() {
    let mut a = Acquisition::begin(AcquireMethod::Keytab);
    a.on_principal_parsed(0, String::new()).unwrap();
    let (r, plan) = a.on_keytab_resolved(0, String::new());
    assert!(r.is_ok());
    assert!(!plan.free_principal);
    let (r, plan) = a.on_credentials_acquired(KRB5_KDC_UNREACH, String::new());
    assert!(matches!(r, Err(SessionError::KdcUnreachable)));
    assert!(plan.close_keytab);
    assert!(plan.free_principal);
    assert!(a.finished);
    assert!(!a.keytab_live);
}

#[test]
fn keytab_resolve_failure_frees_principal() {
    let mut a = Acquisition::begin(AcquireMethod::Keytab);
    a.on_principal_parsed(0, String::new()).unwrap();
    let (r, plan) = a.on_keytab_resolved(2, String::from("No such file or directory"));
    assert!(matches!(r, Err(SessionError::CredentialAcquisitionFailed { .. })));
    assert!(plan.free_principal);
    assert!(a.finished);
}

#[test]
fn cache_init_failure_releases_principal_and_creds() {
    let mut a = Acquisition::begin(AcquireMethod::Password);
    a.on_principal_parsed(0, String::new()).unwrap();
    let (r, _) = a.on_credentials_acquired(0, String::new());
    assert!(r.is_ok());
    let (r, plan) = a.on_cache_initialized(13, String::from("Permission denied"));
    assert!(matches!(r, Err(SessionError::CacheInitFailed { .. })));
    assert!(plan.free_principal);
    assert!(plan.free_cred_contents);
    assert!(a.finished);
    assert!(!a.principal_live && !a.creds_live);
}

#[test]
fn cache_store_failure_still_releases_everything() {
    let mut a = Acquisition::begin(AcquireMethod::Password);
    a.on_principal_parsed(0, String::new()).unwrap();
    let (r, _) = a.on_credentials_acquired(0, String::new());
    assert!(r.is_ok());
    let (r, _) = a.on_cache_initialized(0, String::new());
    assert!(r.is_ok());
    let (r, plan) = a.on_credentials_stored(-1765328188, String::from("Internal credentials cache error"));
    assert!(matches!(r, Err(SessionError::CacheStoreFailed { .. })));
    assert!(plan.free_principal);
    assert!(plan.free_cred_contents);
    assert!(!a.principal_live && !a.creds_live);
}
