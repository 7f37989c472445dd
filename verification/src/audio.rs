//! The mute-state query.
//!
//! The query answers one question on demand: is the system's default
//! audio-capture device currently muted?  The operating system is consulted
//! through a chain of short-lived capabilities — device enumerator, default
//! endpoint for the capture direction under the console role, mute control —
//! and each link can fail on its own.  What those platform calls observe is
//! carried here as an [`AudioSystemSnapshot`] of plain values, and every
//! decision made on it is verified: which endpoint is consulted, which error
//! is reported for which failure, and how the outcome is rendered for the
//! front-end surface.

use vstd::prelude::*;
use vstd::string::StringExecFns;

verus! {

/// The usage role a default-device lookup targets.  The query deliberately
/// uses [`DeviceRole::Console`] — the device a typical voice application
/// records from — rather than the communications or multimedia roles; with
/// several microphones present the roles can name different devices.
#[derive(Clone, Copy, PartialEq, Eq, Structural, Debug)]
pub enum DeviceRole {
    Console,
    Communications,
    Multimedia,
}

/// What the platform reports about one capture endpoint while the query
/// runs: whether a mute control can be bound to it, whether reading the
/// mute flag succeeds, and the flag itself.
#[derive(Clone, Copy, PartialEq, Eq, Structural, Debug)]
pub struct CaptureEndpoint {
    /// Binding the endpoint's mute-control capability succeeds.
    pub has_mute_control: bool,
    /// Reading the mute flag from the bound control succeeds.
    pub mute_readable: bool,
    /// The mute flag: `true` when the endpoint is muted.
    pub muted: bool,
}

/// One observation of the OS audio subsystem, taken fresh for every query
/// because the default device can change between calls.  It covers the
/// capture direction: the enumeration facility and, per usage role, the
/// default capture endpoint — `None` when no default is configured for
/// that role.
#[derive(Clone, Copy, Debug)]
pub struct AudioSystemSnapshot {
    /// The device-enumeration facility could be created at all.
    pub enumerator_available: bool,
    /// Default capture endpoint under the console role.
    pub console_capture: Option<CaptureEndpoint>,
    /// Default capture endpoint under the communications role.
    pub communications_capture: Option<CaptureEndpoint>,
    /// Default capture endpoint under the multimedia role.
    pub multimedia_capture: Option<CaptureEndpoint>,
}

/// Why the mute-state query failed.  Exactly one link of the query chain is
/// named; the caller is never handed a guessed boolean instead.
#[derive(Clone, Copy, PartialEq, Eq, Structural, Debug)]
pub enum PlatformAudioError {
    /// The audio subsystem could not be reached: creating the device
    /// enumerator failed.
    SubsystemUnreachable,
    /// No default capture device is configured for the console role.
    NoDefaultCaptureDevice,
    /// The default capture device exposes no mute-control capability.
    MuteControlUnavailable,
    /// The mute-control capability was bound but reading the flag failed.
    MuteReadFailed,
}

/// The default capture endpoint a snapshot holds for a role.
pub open spec fn spec_default_capture(
    snap: AudioSystemSnapshot,
    role: DeviceRole,
) -> Option<CaptureEndpoint> {
    match role {
        DeviceRole::Console => snap.console_capture,
        DeviceRole::Communications => snap.communications_capture,
        DeviceRole::Multimedia => snap.multimedia_capture,
    }
}

/// The outcome the mute-state query owes for a snapshot: the mute flag of
/// the console-role default capture endpoint, or the error naming the first
/// link of the chain that fails.
pub open spec fn spec_query_mute(snap: AudioSystemSnapshot) -> Result<bool, PlatformAudioError> {
    if !snap.enumerator_available {
        Err(PlatformAudioError::SubsystemUnreachable)
    } else {
        match spec_default_capture(snap, DeviceRole::Console) {
            None => Err(PlatformAudioError::NoDefaultCaptureDevice),
            Some(ep) => if !ep.has_mute_control {
                Err(PlatformAudioError::MuteControlUnavailable)
            } else if !ep.mute_readable {
                Err(PlatformAudioError::MuteReadFailed)
            } else {
                Ok(ep.muted)
            },
        }
    }
}

/// The default capture endpoint recorded for `role`.
pub fn default_capture_endpoint(
    snap: &AudioSystemSnapshot,
    role: DeviceRole,
) -> (r: Option<CaptureEndpoint>)
    ensures
        r == spec_default_capture(*snap, role),
{
    match role {
        DeviceRole::Console => snap.console_capture,
        DeviceRole::Communications => snap.communications_capture,
        DeviceRole::Multimedia => snap.multimedia_capture,
    }
}

/// Is the default capture device muted?  A pure read: the snapshot is only
/// borrowed, and the result is a function of it alone.  Success is owed
/// exactly when the chain holds — the enumerator is available, a console-role
/// default capture endpoint exists, it has a mute control, and the flag is
/// readable; every other snapshot yields the error naming the first broken
/// link.
pub fn get_default_mic_mute_status(
    snap: &AudioSystemSnapshot,
) -> (r: Result<bool, PlatformAudioError>)
    ensures
        r == spec_query_mute(*snap),
{
    if !snap.enumerator_available {
        return Err(PlatformAudioError::SubsystemUnreachable);
    }
    match default_capture_endpoint(snap, DeviceRole::Console) {
        None => Err(PlatformAudioError::NoDefaultCaptureDevice),
        Some(ep) => {
            if !ep.has_mute_control {
                Err(PlatformAudioError::MuteControlUnavailable)
            } else if !ep.mute_readable {
                Err(PlatformAudioError::MuteReadFailed)
            } else {
                Ok(ep.muted)
            }
        },
    }
}

/// Wherever a console-role default capture device exists and its mute flag
/// is reachable, the query reports that flag: `true` when muted, `false`
/// when unmuted — never a guess.
pub proof fn lemma_query_reports_mute_state(snap: AudioSystemSnapshot, ep: CaptureEndpoint)
    requires
        snap.enumerator_available,
        spec_default_capture(snap, DeviceRole::Console) == Some(ep),
        ep.has_mute_control,
        ep.mute_readable,
    ensures
        spec_query_mute(snap) == Ok::<bool, PlatformAudioError>(ep.muted),
{
}

/// When no console-role default capture device is configured, the query
/// yields an error-shaped outcome, never a boolean.
pub proof fn lemma_no_device_yields_error(snap: AudioSystemSnapshot)
    requires
        snap.console_capture is None,
    ensures
        spec_query_mute(snap) is Err,
{
}

/// The sequence of outcomes that `n` back-to-back queries observe on one
/// unchanged snapshot.
pub open spec fn spec_repeated_queries(
    snap: AudioSystemSnapshot,
    n: nat,
) -> Seq<Result<bool, PlatformAudioError>> {
    Seq::new(n, |i: int| spec_query_mute(snap))
}

/// The query is an idempotent read: it mutates nothing, so any number of
/// back-to-back calls with no external change to the audio subsystem all
/// return the same outcome.
pub proof fn lemma_query_idempotent(snap: AudioSystemSnapshot, n: nat)
    ensures
        forall|i: int, j: int|
            0 <= i < n && 0 <= j < n ==> spec_repeated_queries(snap, n)[i]
                == spec_repeated_queries(snap, n)[j],
{
}

/// The diagnostic text for a query error.
pub open spec fn spec_error_message(e: PlatformAudioError) -> Seq<char> {
    match e {
        PlatformAudioError::SubsystemUnreachable => "audio subsystem unreachable"@,
        PlatformAudioError::NoDefaultCaptureDevice => "no default capture device"@,
        PlatformAudioError::MuteControlUnavailable => "no mute control on the default capture device"@,
        PlatformAudioError::MuteReadFailed => "reading the mute state failed"@,
    }
}

/// The text handed to the front-end surface for a query outcome: the literal
/// boolean on success, an `"Error: "`-marked diagnostic on failure.
pub open spec fn spec_status_message(r: Result<bool, PlatformAudioError>) -> Seq<char> {
    match r {
        Ok(b) => if b {
            "true"@
        } else {
            "false"@
        },
        Err(e) => "Error: "@ + spec_error_message(e),
    }
}

impl PlatformAudioError {
    /// The diagnostic text naming the failed link of the query chain.
    pub fn message(&self) -> (r: &'static str)
        ensures
            r@ == spec_error_message(*self),
    {
        match self {
            PlatformAudioError::SubsystemUnreachable => "audio subsystem unreachable",
            PlatformAudioError::NoDefaultCaptureDevice => "no default capture device",
            PlatformAudioError::MuteControlUnavailable => "no mute control on the default capture device",
            PlatformAudioError::MuteReadFailed => "reading the mute state failed",
        }
    }
}

/// Render a query outcome for the front-end surface.
pub fn format_mic_status(r: &Result<bool, PlatformAudioError>) -> (s: String)
    ensures
        s@ == spec_status_message(*r),
{
    match r {
        Ok(true) => "true".to_owned(),
        Ok(false) => "false".to_owned(),
        Err(e) => String::from_str("Error: ").concat(e.message()),
    }
}

/// The one operation exposed across the core/front-end boundary: query the
/// default capture device's mute state and render the outcome as text.
pub fn get_mic_status(snap: &AudioSystemSnapshot) -> (s: String)
    ensures
        s@ == spec_status_message(spec_query_mute(*snap)),
{
    let r = get_default_mic_mute_status(snap);
    format_mic_status(&r)
}

/// A failed query is rendered as the error marker followed by a non-empty
/// diagnostic — an error never reads as a bare boolean.
pub proof fn lemma_error_status_is_marked(e: PlatformAudioError)
    ensures
        spec_status_message(Err(e)) == "Error: "@ + spec_error_message(e),
        spec_error_message(e).len() > 0,
{
    match e {
        PlatformAudioError::SubsystemUnreachable => {
            reveal_strlit("audio subsystem unreachable");
        },
        PlatformAudioError::NoDefaultCaptureDevice => {
            reveal_strlit("no default capture device");
        },
        PlatformAudioError::MuteControlUnavailable => {
            reveal_strlit("no mute control on the default capture device");
        },
        PlatformAudioError::MuteReadFailed => {
            reveal_strlit("reading the mute state failed");
        },
    }
}

/// The three observable outcomes — muted, unmuted, and error — render as
/// three distinct texts, so the front-end can always tell them apart.
pub proof fn lemma_status_outcomes_distinct(e: PlatformAudioError)
    ensures
        spec_status_message(Ok(true)) != spec_status_message(Ok(false)),
        spec_status_message(Ok(true)) != spec_status_message(Err(e)),
        spec_status_message(Ok(false)) != spec_status_message(Err(e)),
{
    reveal_strlit("true");
    reveal_strlit("false");
    reveal_strlit("Error: ");
    lemma_error_status_is_marked(e);
    assert("true"@.len() == 4);
    assert("false"@.len() == 5);
    assert(spec_status_message(Ok::<bool, PlatformAudioError>(true)) == "true"@);
    assert(spec_status_message(Ok::<bool, PlatformAudioError>(false)) == "false"@);
    assert(spec_status_message(Err(e)).len() >= 8);
}

} // verus!
