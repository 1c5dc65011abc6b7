//! Session construction: the per-session private file paths, the
//! generated configuration file, and the cleanup decisions on each
//! construction failure.
//!
//! Construction proceeds in order: plan the paths and configuration
//! text, write the configuration file, open the native library
//! context, open the credential cache. A failure at any point is fatal
//! and must leave no private file on disk and no native handle held.

use vstd::prelude::*;
use vstd::string::StringExecFns;

use crate::errors::SessionError;
use crate::session::{ContextState, GSSAPI};

verus! {

/// The private configuration-file path for a session identifier.
pub open spec fn spec_config_path(dir: Seq<char>, id: Seq<char>) -> Seq<char> {
    dir + "/plt-kafka-krb5-"@ + id + ".conf"@
}

/// The private credential-cache path for a session identifier.
pub open spec fn spec_cache_path(dir: Seq<char>, id: Seq<char>) -> Seq<char> {
    dir + "/plt-kafka-krb5-"@ + id + ".cache"@
}

/// The generated configuration file: the session's realm and KDC host,
/// with the private cache file as the default credential cache.
pub open spec fn spec_config_text(realm: Seq<char>, kdc: Seq<char>, cache: Seq<char>) -> Seq<char> {
    "\n[libdefaults]\n  default_realm = "@ + realm + "\n  default_ccache_name = FILE:"@ + cache
        + "\n\n[realms]\n  "@ + realm + " = {\n    kdc = "@ + kdc + "\n  }\n"@
}

/// Relies on `uuid::Uuid::new_v4` and the `Display` of `uuid::Uuid`:
/// a fresh random version-4 identifier rendered in its default
/// hyphenated form, which is always 36 characters. Nothing further is
/// promised of a random value.
#[verifier::external_body]
fn fresh_session_id() -> (r: String)
    ensures
        r@.len() == 36,
{
    uuid::Uuid::new_v4().to_string()
}

/// Builds the private configuration-file path.
pub fn build_config_path(dir: &str, id: &str) -> (r: String)
    ensures
        r@ == spec_config_path(dir@, id@),
{
    let mut s = String::from_str(dir);
    s.append("/plt-kafka-krb5-");
    s.append(id);
    s.append(".conf");
    s
}

/// Builds the private credential-cache path.
pub fn build_cache_path(dir: &str, id: &str) -> (r: String)
    ensures
        r@ == spec_cache_path(dir@, id@),
{
    let mut s = String::from_str(dir);
    s.append("/plt-kafka-krb5-");
    s.append(id);
    s.append(".cache");
    s
}

/// Renders the session's configuration file.
pub fn render_config(realm: &str, kdc: &str, cache: &str) -> (r: String)
    ensures
        r@ == spec_config_text(realm@, kdc@, cache@),
{
    let mut s = String::from_str("\n[libdefaults]\n  default_realm = ");
    s.append(realm);
    s.append("\n  default_ccache_name = FILE:");
    s.append(cache);
    s.append("\n\n[realms]\n  ");
    s.append(realm);
    s.append(" = {\n    kdc = ");
    s.append(kdc);
    s.append("\n  }\n");
    s
}

/// Everything a new session needs before the first native call: its
/// fresh identifier, its two private paths under the temporary-file
/// area, and the configuration text to write.
pub struct SessionPlan {
    pub session_id: String,
    pub config_path: String,
    pub cache_path: String,
    pub config_text: String,
}

impl SessionPlan {
    /// Plans a session for the given KDC host and realm, under the
    /// given temporary-file directory (named without a trailing
    /// separator).
    pub fn new(kdc: &str, realm: &str, temp_dir: &str) -> (p: SessionPlan)
        ensures
            p.session_id@.len() == 36,
            p.config_path@ == spec_config_path(temp_dir@, p.session_id@),
            p.cache_path@ == spec_cache_path(temp_dir@, p.session_id@),
            p.config_text@ == spec_config_text(realm@, kdc@, p.cache_path@),
    {
        let session_id = fresh_session_id();
        let config_path = build_config_path(temp_dir, session_id.as_str());
        let cache_path = build_cache_path(temp_dir, session_id.as_str());
        let config_text = render_config(realm, kdc, cache_path.as_str());
        SessionPlan { session_id, config_path, cache_path, config_text }
    }
}

/// The cleanup a construction failure demands before the failure is
/// returned.
#[derive(Clone, Copy, PartialEq, Eq, Structural, Debug)]
pub struct BuildCleanup {
    pub remove_config_file: bool,
    pub remove_cache_file: bool,
    pub free_context: bool,
}

/// Cleanup after the native library context could not be opened: both
/// private paths are removed (best-effort); no handle was acquired,
/// so none is freed.
pub open spec fn spec_context_init_cleanup() -> BuildCleanup {
    BuildCleanup { remove_config_file: true, remove_cache_file: true, free_context: false }
}

/// Cleanup after the credential cache could not be opened: the
/// already-opened library context is freed and the written
/// configuration file removed.
pub open spec fn spec_cache_open_cleanup() -> BuildCleanup {
    BuildCleanup { remove_config_file: true, remove_cache_file: false, free_context: true }
}

/// The failure construction returns when the configuration file could
/// not be written; nothing was created, so nothing is cleaned up.
pub fn config_write_failure(detail: String) -> (e: SessionError)
    ensures
        e matches SessionError::ConfigWriteFailed { detail: d } && d == detail,
{
    SessionError::ConfigWriteFailed { detail }
}

/// Interprets the native library-context initialization status.
pub fn context_init_decision(ret: i32) -> (r: Result<(), (SessionError, BuildCleanup)>)
    ensures
        ret == 0 <==> r is Ok,
        ret != 0 ==> (r matches Err((e, c)) && e matches SessionError::ContextInitFailed {
            code,
        } && code == ret && c == spec_context_init_cleanup()),
{
    if ret == 0 {
        Ok(())
    } else {
        Err(
            (
                SessionError::ContextInitFailed { code: ret },
                BuildCleanup { remove_config_file: true, remove_cache_file: true, free_context: false },
            ),
        )
    }
}

/// Interprets the credential-cache open status.
pub fn cache_open_decision(ret: i32) -> (r: Result<(), (SessionError, BuildCleanup)>)
    ensures
        ret == 0 <==> r is Ok,
        ret != 0 ==> (r matches Err((e, c)) && e matches SessionError::CacheOpenFailed {
            code,
        } && code == ret && c == spec_cache_open_cleanup()),
{
    if ret == 0 {
        Ok(())
    } else {
        Err(
            (
                SessionError::CacheOpenFailed { code: ret },
                BuildCleanup { remove_config_file: true, remove_cache_file: false, free_context: true },
            ),
        )
    }
}

/// Assembles the session once the configuration file is written, the
/// library context is open and the cache handle is open: both handles
/// are owned live, and no security context exists yet.
pub fn finish_construction(plan: SessionPlan) -> (s: GSSAPI)
    ensures
        s.config_path == plan.config_path,
        s.cache_path == plan.cache_path,
        s.context_live,
        s.cache_live,
        !s.gss_live,
        s.state == ContextState::Uninitialized,
        s.wf(),
{
    GSSAPI {
        config_path: plan.config_path,
        cache_path: plan.cache_path,
        context_live: true,
        cache_live: true,
        gss_live: false,
        state: ContextState::Uninitialized,
    }
}

/// What one construction run leaves behind, given the outcome of each
/// of its three fallible steps (a later outcome matters only when the
/// earlier ones succeeded).
pub struct BuildTrace {
    pub config_file_on_disk: bool,
    pub context_held: bool,
    pub cache_held: bool,
    pub succeeded: bool,
}

/// The construction run: the configuration file is written first; a
/// context-initialization failure removes it again (and the cache
/// path, best-effort); a cache-open failure frees the context and
/// removes the configuration file.
pub open spec fn spec_build_outcome(write_ok: bool, ctx_ret: i32, cache_ret: i32) -> BuildTrace {
    if !write_ok {
        BuildTrace {
            config_file_on_disk: false,
            context_held: false,
            cache_held: false,
            succeeded: false,
        }
    } else if ctx_ret != 0 {
        let c = spec_context_init_cleanup();
        BuildTrace {
            config_file_on_disk: !c.remove_config_file,
            context_held: false,
            cache_held: false,
            succeeded: false,
        }
    } else if cache_ret != 0 {
        let c = spec_cache_open_cleanup();
        BuildTrace {
            config_file_on_disk: !c.remove_config_file,
            context_held: !c.free_context,
            cache_held: false,
            succeeded: false,
        }
    } else {
        BuildTrace {
            config_file_on_disk: true,
            context_held: true,
            cache_held: true,
            succeeded: true,
        }
    }
}

/// A construction that fails — at whichever step — leaves no private
/// file on disk and holds no native handle.
pub proof fn lemma_failed_construction_is_clean(write_ok: bool, ctx_ret: i32, cache_ret: i32)
    ensures
        !spec_build_outcome(write_ok, ctx_ret, cache_ret).succeeded ==> {
            let t = spec_build_outcome(write_ok, ctx_ret, cache_ret);
            !t.config_file_on_disk && !t.context_held && !t.cache_held
        },
{
}

} // verus!
