//! The session: private file paths, native-handle ownership, the
//! security-context negotiation state machine, message-protection
//! gating, and teardown.
//!
//! A session owns exactly one credential-cache handle and at most one
//! security-context handle; no handle is shared across sessions. The
//! handles themselves are opaque values the embedding layer holds;
//! here each is tracked as live or released, and every transition says
//! which native release calls the embedding layer must make, so that
//! every handle acquired is released exactly once.

use vstd::prelude::*;
use vstd::string::StringExecFns;

use crate::errors::{spec_translated_gss, translate_gss, SessionError};

verus! {

/// The negotiation status a context-initialization call reports
/// completion with.
pub const GSS_S_COMPLETE: u32 = 0;

/// The negotiation status meaning another token round is needed.
pub const GSS_S_CONTINUE_NEEDED: u32 = 1;

/// The security-context negotiation states.
#[derive(Clone, Copy, PartialEq, Eq, Structural, Debug)]
pub enum ContextState {
    Uninitialized,
    Negotiating,
    Established,
}

/// One negotiation round's result: the token to send to the peer
/// (possibly empty) and whether negotiation has completed.
pub struct StepResult {
    pub output: Vec<u8>,
    pub completed: bool,
}

/// A session: its two private file paths, the liveness of its three
/// native handles, and its negotiation state.
pub struct GSSAPI {
    pub config_path: String,
    pub cache_path: String,
    pub context_live: bool,
    pub cache_live: bool,
    pub gss_live: bool,
    pub state: ContextState,
}

/// The native release calls one teardown pass must make. File deletion
/// is best-effort and always attempted; a handle is released only when
/// it is still live.
#[derive(Clone, Copy, PartialEq, Eq, Structural, Debug)]
pub struct TeardownActions {
    pub delete_config_file: bool,
    pub delete_cache_file: bool,
    pub release_security_context: bool,
    pub close_cache: bool,
    pub free_context: bool,
}

/// The state a completed negotiation round leaves the session in.
pub open spec fn spec_step_state(major: u32) -> ContextState {
    if major == GSS_S_COMPLETE {
        ContextState::Established
    } else {
        ContextState::Negotiating
    }
}

/// Whether a round's status sets the completion flag.
pub open spec fn spec_step_completed(major: u32) -> bool {
    major == GSS_S_COMPLETE
}

/// The session state after one teardown pass: nothing live.
pub open spec fn spec_torn_down(s: GSSAPI) -> GSSAPI {
    GSSAPI {
        context_live: false,
        cache_live: false,
        gss_live: false,
        state: ContextState::Uninitialized,
        ..s
    }
}

/// The release calls one teardown pass makes on a session.
pub open spec fn spec_teardown_actions(s: GSSAPI) -> TeardownActions {
    TeardownActions {
        delete_config_file: true,
        delete_cache_file: true,
        release_security_context: s.gss_live,
        close_cache: s.cache_live,
        free_context: s.context_live,
    }
}

impl GSSAPI {
    /// A session holds a security-context handle exactly while
    /// negotiation has begun.
    pub open spec fn wf(&self) -> bool {
        self.gss_live <==> self.state != ContextState::Uninitialized
    }

    /// Interprets one context-initialization call. `Complete` ends the
    /// negotiation as `Established` with the completion flag set;
    /// `ContinueNeeded` stays `Negotiating` with the flag clear; any
    /// other status is a fatal negotiation failure (`None`: the caller
    /// translates it and abandons the session), and the state remains
    /// `Negotiating`. The call may have allocated or extended the
    /// context handle in place, so the handle counts as live from here
    /// on, whatever the status.
    pub fn step_decision(&mut self, major: u32, output: Vec<u8>) -> (r: Option<StepResult>)
        requires
            old(self).wf(),
            old(self).state != ContextState::Established,
        ensures
            final(self).wf(),
            final(self).state == spec_step_state(major),
            final(self).gss_live,
            final(self).context_live == old(self).context_live,
            final(self).cache_live == old(self).cache_live,
            final(self).config_path == old(self).config_path,
            final(self).cache_path == old(self).cache_path,
            major == GSS_S_COMPLETE ==> (r matches Some(sr) && sr.completed && sr.output@
                == output@),
            major == GSS_S_CONTINUE_NEEDED ==> (r matches Some(sr) && !sr.completed && sr.output@
                == output@),
            (major != GSS_S_COMPLETE && major != GSS_S_CONTINUE_NEEDED) ==> r is None,
            r matches Some(sr) ==> sr.completed == spec_step_completed(major),
    {
        self.gss_live = true;
        if major == GSS_S_COMPLETE {
            self.state = ContextState::Established;
            Some(StepResult { output, completed: true })
        } else if major == GSS_S_CONTINUE_NEEDED {
            self.state = ContextState::Negotiating;
            Some(StepResult { output, completed: false })
        } else {
            self.state = ContextState::Negotiating;
            None
        }
    }

    /// Gate for `wrap`: succeeds exactly when the context is
    /// established, so that no native call is made before that point.
    pub fn wrap_precheck(&self) -> (r: Result<(), SessionError>)
        ensures
            r is Ok <==> self.state == ContextState::Established,
            r matches Err(e) ==> e is ContextNotEstablished,
    {
        if self.state == ContextState::Established {
            Ok(())
        } else {
            Err(SessionError::ContextNotEstablished)
        }
    }

    /// Gate for `unwrap`: succeeds exactly when the context is
    /// established, so that no native call is made before that point.
    pub fn unwrap_precheck(&self) -> (r: Result<(), SessionError>)
        ensures
            r is Ok <==> self.state == ContextState::Established,
            r matches Err(e) ==> e is ContextNotEstablished,
    {
        if self.state == ContextState::Established {
            Ok(())
        } else {
            Err(SessionError::ContextNotEstablished)
        }
    }

    /// One teardown pass: names the release calls to make — each
    /// handle only if it is still live — and marks everything
    /// released. Running it again therefore releases nothing.
    pub fn teardown(&mut self) -> (t: TeardownActions)
        ensures
            t == spec_teardown_actions(*old(self)),
            final(self).context_live == false,
            final(self).cache_live == false,
            final(self).gss_live == false,
            final(self).state == ContextState::Uninitialized,
            final(self).config_path == old(self).config_path,
            final(self).cache_path == old(self).cache_path,
            final(self).wf(),
    {
        let t = TeardownActions {
            delete_config_file: true,
            delete_cache_file: true,
            release_security_context: self.gss_live,
            close_cache: self.cache_live,
            free_context: self.context_live,
        };
        self.gss_live = false;
        self.cache_live = false;
        self.context_live = false;
        self.state = ContextState::Uninitialized;
        t
    }
}

/// Teardown is idempotent: after one pass no handle is live, and a
/// second pass releases no handle, so nothing is freed twice.
pub proof fn lemma_teardown_idempotent(s: GSSAPI)
    ensures
        !spec_torn_down(s).context_live,
        !spec_torn_down(s).cache_live,
        !spec_torn_down(s).gss_live,
        !spec_teardown_actions(spec_torn_down(s)).release_security_context,
        !spec_teardown_actions(spec_torn_down(s)).close_cache,
        !spec_teardown_actions(spec_torn_down(s)).free_context,
{
}

/// The negotiation state after a sequence of rounds with the given
/// statuses.
pub open spec fn spec_run_rounds(s: ContextState, majors: Seq<u32>) -> ContextState
    decreases majors.len(),
{
    if majors.len() == 0 {
        s
    } else {
        spec_run_rounds(spec_step_state(majors[0]), majors.drop_first())
    }
}

/// A negotiation fed genuine peer responses — some number of
/// continue-needed rounds and then a completing round — terminates in
/// `Established`; the completion flag is clear on every earlier round
/// and set exactly on the last, and before it the session is still
/// `Negotiating`.
pub proof fn lemma_negotiation_terminates(s: ContextState, majors: Seq<u32>)
    requires
        majors.len() > 0,
        forall|i: int| 0 <= i < majors.len() - 1 ==> majors[i] == GSS_S_CONTINUE_NEEDED,
        majors[majors.len() - 1] == GSS_S_COMPLETE,
    ensures
        spec_run_rounds(s, majors) == ContextState::Established,
        forall|i: int| 0 <= i < majors.len() ==> (spec_step_completed(majors[i]) <==> i
            == majors.len() - 1),
        forall|i: int|
            0 <= i < majors.len() - 1 ==> #[trigger] spec_run_rounds(s, majors.take(i + 1))
                == ContextState::Negotiating,
    decreases majors.len(),
{
    if majors.len() == 1 {
        let rest0 = majors.drop_first();
        assert(rest0.len() == 0);
        assert(spec_run_rounds(spec_step_state(majors[0]), rest0) == spec_step_state(majors[0]));
        assert(spec_run_rounds(s, majors) == spec_run_rounds(spec_step_state(majors[0]), rest0));
    } else {
        let rest = majors.drop_first();
        assert(rest[rest.len() - 1] == majors[majors.len() - 1]);
        assert(forall|i: int| 0 <= i < rest.len() - 1 ==> rest[i] == majors[i + 1]
            && rest[i] == GSS_S_CONTINUE_NEEDED);
        lemma_negotiation_terminates(spec_step_state(majors[0]), rest);
        assert forall|i: int| 0 <= i < majors.len() - 1 implies #[trigger] spec_run_rounds(
            s,
            majors.take(i + 1),
        ) == ContextState::Negotiating by {
            assert(majors[0] == GSS_S_CONTINUE_NEEDED);
            if i == 0 {
                let one = majors.take(1);
                let one_rest = one.drop_first();
                assert(one.len() == 1);
                assert(one[0] == majors[0]);
                assert(one_rest.len() == 0);
                assert(spec_run_rounds(spec_step_state(one[0]), one_rest) == spec_step_state(
                    one[0],
                ));
                assert(spec_run_rounds(s, one) == spec_run_rounds(
                    spec_step_state(one[0]),
                    one_rest,
                ));
            } else {
                let t = majors.take(i + 1);
                let j = i - 1;
                assert(t.len() == i + 1);
                assert(t[0] == majors[0]);
                assert(rest.take(j + 1) =~= t.drop_first());
                assert(spec_run_rounds(s, t) == spec_run_rounds(
                    spec_step_state(t[0]),
                    t.drop_first(),
                ));
                assert(spec_run_rounds(spec_step_state(majors[0]), rest.take(j + 1))
                    == ContextState::Negotiating);
            }
        }
    }
}

/// Translates a failed target-name import.
pub fn name_import_failure(
    major: u32,
    minor: u32,
    major_text: Option<String>,
    minor_text: Option<String>,
) -> (e: SessionError)
    requires
        minor == 0 ==> minor_text is None,
    ensures
        e matches SessionError::NameImportFailed { failure } && spec_translated_gss(
            failure,
            "gss_import_name failed"@,
            major,
            minor,
            major_text.deep_view(),
            minor_text.deep_view(),
        ),
{
    let failure = translate_gss(
        String::from_str("gss_import_name failed"),
        major,
        minor,
        major_text,
        minor_text,
    );
    SessionError::NameImportFailed { failure }
}

/// Translates a fatally failed negotiation round.
pub fn negotiation_failure(
    major: u32,
    minor: u32,
    major_text: Option<String>,
    minor_text: Option<String>,
) -> (e: SessionError)
    requires
        minor == 0 ==> minor_text is None,
    ensures
        e matches SessionError::NegotiationFailed { failure } && spec_translated_gss(
            failure,
            "gss_init_sec_context failed"@,
            major,
            minor,
            major_text.deep_view(),
            minor_text.deep_view(),
        ),
{
    let failure = translate_gss(
        String::from_str("gss_init_sec_context failed"),
        major,
        minor,
        major_text,
        minor_text,
    );
    SessionError::NegotiationFailed { failure }
}

/// Translates a failed wrap call.
pub fn wrap_failure(
    major: u32,
    minor: u32,
    major_text: Option<String>,
    minor_text: Option<String>,
) -> (e: SessionError)
    requires
        minor == 0 ==> minor_text is None,
    ensures
        e matches SessionError::ProtectionFailed { failure } && spec_translated_gss(
            failure,
            "gss_wrap failed"@,
            major,
            minor,
            major_text.deep_view(),
            minor_text.deep_view(),
        ),
{
    let failure = translate_gss(
        String::from_str("gss_wrap failed"),
        major,
        minor,
        major_text,
        minor_text,
    );
    SessionError::ProtectionFailed { failure }
}

/// Translates a failed unwrap call.
pub fn unwrap_failure(
    major: u32,
    minor: u32,
    major_text: Option<String>,
    minor_text: Option<String>,
) -> (e: SessionError)
    requires
        minor == 0 ==> minor_text is None,
    ensures
        e matches SessionError::ProtectionFailed { failure } && spec_translated_gss(
            failure,
            "gss_unwrap failed"@,
            major,
            minor,
            major_text.deep_view(),
            minor_text.deep_view(),
        ),
{
    let failure = translate_gss(
        String::from_str("gss_unwrap failed"),
        major,
        minor,
        major_text,
        minor_text,
    );
    SessionError::ProtectionFailed { failure }
}

} // verus!
