//! The environment scope guard.
//!
//! The native library reads two pieces of process-wide ambient
//! configuration — the configuration-file location and the
//! credential-cache location — instead of taking them as parameters.
//! Every operation that calls into it must therefore run inside a
//! scope that overrides both values and restores the previous ones on
//! exit. The process-wide values themselves live outside this crate;
//! the embedding layer mirrors them into an [`AmbientConfig`] value,
//! holds a process-wide lock while a scope is active (entry is a
//! mutual-exclusion point and is not re-entrant), and writes the
//! guard's decisions back to the real environment.

use vstd::prelude::*;
use vstd::string::StringExecFns;

verus! {

/// The two ambient configuration values, as the process currently
/// holds them: `None` stands for an unset value.
pub struct AmbientConfig {
    pub krb5_config: Option<String>,
    pub krb5_ccname: Option<String>,
}

/// The abstract content of the ambient configuration.
pub struct AmbientSnapshot {
    pub config: Option<Seq<char>>,
    pub ccname: Option<Seq<char>>,
}

impl View for AmbientConfig {
    type V = AmbientSnapshot;

    open spec fn view(&self) -> AmbientSnapshot {
        AmbientSnapshot { config: self.krb5_config.deep_view(), ccname: self.krb5_ccname.deep_view() }
    }
}

/// An active scope: the ambient values as they stood before entry,
/// to be written back exactly on exit.
pub struct EnvManager {
    pub saved_config: Option<String>,
    pub saved_ccname: Option<String>,
}

impl View for EnvManager {
    type V = AmbientSnapshot;

    open spec fn view(&self) -> AmbientSnapshot {
        AmbientSnapshot { config: self.saved_config.deep_view(), ccname: self.saved_ccname.deep_view() }
    }
}

/// Entering a scope: both ambient values are overridden, and the prior
/// ambient state is captured for the exit.
pub open spec fn spec_enter(
    env: AmbientSnapshot,
    config_path: Seq<char>,
    cache_path: Seq<char>,
) -> (AmbientSnapshot, AmbientSnapshot) {
    (AmbientSnapshot { config: Option::Some(config_path), ccname: Option::Some(cache_path) }, env)
}

/// Exiting a scope: whatever the guarded region left in the ambient
/// configuration, the captured prior state is written back exactly —
/// values that existed are re-set, values that did not are cleared.
pub open spec fn spec_exit(env_now: AmbientSnapshot, saved: AmbientSnapshot) -> AmbientSnapshot {
    saved
}

impl EnvManager {
    /// Captures the current ambient values and replaces them with the
    /// session's private paths.
    pub fn new(env: &mut AmbientConfig, config_path: &str, cache_path: &str) -> (g: EnvManager)
        ensures
            final(env)@ == spec_enter(old(env)@, config_path@, cache_path@).0,
            g@ == spec_enter(old(env)@, config_path@, cache_path@).1,
    {
        let saved_config = env.krb5_config.take();
        let saved_ccname = env.krb5_ccname.take();
        env.krb5_config = Option::Some(String::from_str(config_path));
        env.krb5_ccname = Option::Some(String::from_str(cache_path));
        EnvManager { saved_config, saved_ccname }
    }

    /// Enters a scope for an already-constructed session, overriding
    /// the ambient values with that session's private paths.
    pub fn new_from_api(env: &mut AmbientConfig, api: &crate::session::GSSAPI) -> (g: EnvManager)
        ensures
            final(env)@ == spec_enter(old(env)@, api.config_path@, api.cache_path@).0,
            g@ == spec_enter(old(env)@, api.config_path@, api.cache_path@).1,
    {
        EnvManager::new(env, api.config_path.as_str(), api.cache_path.as_str())
    }

    /// Restores the previous ambient values exactly, consuming the
    /// scope.
    pub fn restore(self, env: &mut AmbientConfig)
        ensures
            final(env)@ == spec_exit(old(env)@, self@),
    {
        env.krb5_config = self.saved_config;
        env.krb5_ccname = self.saved_ccname;
    }
}

/// A nest of scopes: enter the first, run the remaining scopes inside
/// it, then exit. Only entry and exit touch the ambient configuration
/// — the guard is its sole permitted mutator — so the state the inner
/// region leaves is whatever the inner scopes produced.
pub open spec fn spec_nested_scopes(
    env: AmbientSnapshot,
    scopes: Seq<(Seq<char>, Seq<char>)>,
) -> AmbientSnapshot
    decreases scopes.len(),
{
    if scopes.len() == 0 {
        env
    } else {
        let entered = spec_enter(env, scopes[0].0, scopes[0].1);
        let after_inner = spec_nested_scopes(entered.0, scopes.drop_first());
        spec_exit(after_inner, entered.1)
    }
}

/// One scope entered and exited in sequence, then the next.
pub open spec fn spec_sequential_scopes(
    env: AmbientSnapshot,
    scopes: Seq<(Seq<char>, Seq<char>)>,
) -> AmbientSnapshot
    decreases scopes.len(),
{
    if scopes.len() == 0 {
        env
    } else {
        let entered = spec_enter(env, scopes[0].0, scopes[0].1);
        let after_one = spec_exit(entered.0, entered.1);
        spec_sequential_scopes(after_one, scopes.drop_first())
    }
}

/// For any nested `enter` invocations, the ambient configuration after
/// the last exit equals the configuration before the first entry, even
/// if the guarded operation fails (exit writes the captured state back
/// unconditionally).
pub proof fn lemma_nested_scopes_restore(env: AmbientSnapshot, scopes: Seq<(Seq<char>, Seq<char>)>)
    ensures
        spec_nested_scopes(env, scopes) == env,
    decreases scopes.len(),
{
    if scopes.len() > 0 {
        let entered = spec_enter(env, scopes[0].0, scopes[0].1);
        lemma_nested_scopes_restore(entered.0, scopes.drop_first());
    }
}

/// For any sequential `enter` invocations, the ambient configuration
/// after the last exit equals the configuration before the first entry.
pub proof fn lemma_sequential_scopes_restore(
    env: AmbientSnapshot,
    scopes: Seq<(Seq<char>, Seq<char>)>,
)
    ensures
        spec_sequential_scopes(env, scopes) == env,
    decreases scopes.len(),
{
    if scopes.len() > 0 {
        let entered = spec_enter(env, scopes[0].0, scopes[0].1);
        lemma_sequential_scopes_restore(spec_exit(entered.0, entered.1), scopes.drop_first());
    }
}

} // verus!
