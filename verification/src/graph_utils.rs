//! Rendering the lazily-built computation graph behind an array, for debugging.
//!
//! MLX renders a graph only into a C `FILE*`. Rendering into text therefore goes through a
//! temporary file: open it, let MLX render into it, flush it, take its size, read it back and
//! close it. The decisions between those steps are made here, by [`capture_step`], from what
//! each step reported; the steps themselves are done by the caller, which hands back what
//! happened. Every path that opened the file closes it exactly once.

use vstd::prelude::*;
use vstd::utf8::encode_utf8;

use crate::error::Exception;
use crate::fast::last_mlx_error;
use crate::utils::{nul_free, CText};

verus! {

/// The message of the error for a node name that cannot be passed to C.
pub open spec fn invalid_node_name_message() -> Seq<char> {
    "Invalid node name"@
}

/// The name handed to MLX when naming a node, or the error when `name` holds a nul byte (and
/// MLX is not called).
pub fn node_name_arg(name: &str) -> (r: Result<CText, Exception>)
    ensures
        r is Ok <==> nul_free(name@),
        r matches Ok(t) ==> t@ == encode_utf8(name@),
        r matches Err(e) ==> e@ == invalid_node_name_message(),
{
    match CText::new(name) {
        Some(t) => Ok(t),
        None => Err(Exception::custom("Invalid node name")),
    }
}

/// Where a capture stands: which step's outcome it waits for.
#[derive(Clone, Copy, Debug, PartialEq, Eq, Structural)]
pub enum CaptureState {
    /// Waiting for the temporary file to be opened.
    Opening,
    /// Waiting for MLX to render into the open file.
    Rendering,
    /// Waiting for the file to be flushed.
    Flushing,
    /// Waiting for the size of the file.
    Sizing,
    /// Waiting for the file, rewound, to be read into a buffer of `len` bytes.
    Reading { len: usize },
    /// The capture is over; the file, if it was opened, is closed.
    Finished,
}

/// What a step of a capture reported.
pub enum CaptureEvent {
    /// The temporary file was opened; `is_null` when that failed.
    Opened { is_null: bool },
    /// MLX rendered into the file with status `status` (0 for success), and `recorded` is the
    /// error message MLX recorded, if any.
    Rendered { status: i32, recorded: Option<Exception> },
    /// The file was flushed with status `status` (0 for success).
    Flushed { status: i32 },
    /// The position at the end of the file is `len` (negative for a failure).
    Sized { len: i64 },
    /// `count` bytes were read.
    Read { count: usize },
}

/// What the caller does next.
pub enum CaptureAction {
    /// Hand the open file to MLX to render into.
    Render,
    /// Flush the file.
    Flush,
    /// Ask for the position at the end of the file.
    Tell,
    /// Rewind the file and read it into a buffer of `len` zero bytes.
    RewindAndRead { len: usize },
    /// Close the file if `close`, and fail with `error`.
    Fail { close: bool, error: Exception },
    /// Close the file, keep the first `keep` bytes of the buffer (all of it if it is shorter)
    /// and return them as text, invalid UTF-8 replaced.
    Finish { keep: usize },
}

/// The kind of a [`CaptureAction`], without the error it carries.
#[derive(Clone, Copy, Debug, PartialEq, Eq, Structural)]
pub enum CaptureActionKind {
    Render,
    Flush,
    Tell,
    RewindAndRead { len: usize },
    Fail { close: bool },
    Finish { keep: usize },
}

/// The kind of an action.
pub open spec fn action_kind(a: CaptureAction) -> CaptureActionKind {
    match a {
        CaptureAction::Render => CaptureActionKind::Render,
        CaptureAction::Flush => CaptureActionKind::Flush,
        CaptureAction::Tell => CaptureActionKind::Tell,
        CaptureAction::RewindAndRead { len } => CaptureActionKind::RewindAndRead { len },
        CaptureAction::Fail { close, .. } => CaptureActionKind::Fail { close },
        CaptureAction::Finish { keep } => CaptureActionKind::Finish { keep },
    }
}

/// Whether `event` is the report of the step that `state` waits for.
pub open spec fn event_fits(state: CaptureState, event: CaptureEvent) -> bool {
    match (state, event) {
        (CaptureState::Opening, CaptureEvent::Opened { .. }) => true,
        (CaptureState::Rendering, CaptureEvent::Rendered { .. }) => true,
        (CaptureState::Flushing, CaptureEvent::Flushed { .. }) => true,
        (CaptureState::Sizing, CaptureEvent::Sized { .. }) => true,
        (CaptureState::Reading { .. }, CaptureEvent::Read { .. }) => true,
        _ => false,
    }
}

/// The state after `state` has received `event`.
pub open spec fn capture_next(state: CaptureState, event: CaptureEvent) -> CaptureState {
    match event {
        CaptureEvent::Opened { is_null } => if is_null {
            CaptureState::Finished
        } else {
            CaptureState::Rendering
        },
        CaptureEvent::Rendered { status, .. } => if status != 0 {
            CaptureState::Finished
        } else {
            CaptureState::Flushing
        },
        CaptureEvent::Flushed { status } => if status != 0 {
            CaptureState::Finished
        } else {
            CaptureState::Sizing
        },
        CaptureEvent::Sized { len } => if len < 0 {
            CaptureState::Finished
        } else {
            CaptureState::Reading { len: len as usize }
        },
        CaptureEvent::Read { .. } => CaptureState::Finished,
    }
}

/// The kind of the action that follows `event`.
pub open spec fn capture_next_action(event: CaptureEvent) -> CaptureActionKind {
    match event {
        CaptureEvent::Opened { is_null } => if is_null {
            CaptureActionKind::Fail { close: false }
        } else {
            CaptureActionKind::Render
        },
        CaptureEvent::Rendered { status, .. } => if status != 0 {
            CaptureActionKind::Fail { close: true }
        } else {
            CaptureActionKind::Flush
        },
        CaptureEvent::Flushed { status } => if status != 0 {
            CaptureActionKind::Fail { close: true }
        } else {
            CaptureActionKind::Tell
        },
        CaptureEvent::Sized { len } => if len < 0 {
            CaptureActionKind::Fail { close: true }
        } else {
            CaptureActionKind::RewindAndRead { len: len as usize }
        },
        CaptureEvent::Read { count } => CaptureActionKind::Finish { keep: count },
    }
}

/// The message of the error that follows `event`, when it is a failure.
pub open spec fn capture_error_message(event: CaptureEvent) -> Seq<char> {
    match event {
        CaptureEvent::Opened { .. } => "Failed to open a temporary file"@,
        CaptureEvent::Rendered { recorded, .. } => match recorded {
            Some(r) => r@,
            None => "Failed to render the graph"@,
        },
        CaptureEvent::Flushed { .. } => "Failed to flush the rendered graph"@,
        CaptureEvent::Sized { .. } => "Failed to size the rendered graph"@,
        CaptureEvent::Read { .. } => Seq::empty(),
    }
}

/// Whether the temporary file is open in `state`.
pub open spec fn file_is_open(state: CaptureState) -> bool {
    match state {
        CaptureState::Rendering | CaptureState::Flushing | CaptureState::Sizing
        | CaptureState::Reading { .. } => true,
        _ => false,
    }
}

/// Whether an action closes the file.
pub open spec fn closes_file(a: CaptureActionKind) -> bool {
    match a {
        CaptureActionKind::Fail { close } => close,
        CaptureActionKind::Finish { .. } => true,
        _ => false,
    }
}

/// The next state and action of a capture in `state` that has received `event`.
pub fn capture_step(state: CaptureState, event: CaptureEvent) -> (r: (CaptureState, CaptureAction))
    requires
        event_fits(state, event),
    ensures
        r.0 == capture_next(state, event),
        action_kind(r.1) == capture_next_action(event),
        r.1 matches CaptureAction::Fail { error, .. } ==> error@ == capture_error_message(event),
        event matches CaptureEvent::Sized { len } ==> (len >= 0 ==> (r.1 matches CaptureAction::RewindAndRead {
            len: asked,
        } && asked == len as usize)),
        event matches CaptureEvent::Read { count } ==> (r.1 matches CaptureAction::Finish {
            keep,
        } && keep == count),
{
    match event {
        CaptureEvent::Opened { is_null } => {
            if is_null {
                (
                    CaptureState::Finished,
                    CaptureAction::Fail {
                        close: false,
                        error: Exception::custom("Failed to open a temporary file"),
                    },
                )
            } else {
                (CaptureState::Rendering, CaptureAction::Render)
            }
        },
        CaptureEvent::Rendered { status, recorded } => {
            if status != 0 {
                (
                    CaptureState::Finished,
                    CaptureAction::Fail {
                        close: true,
                        error: last_mlx_error(recorded, "Failed to render the graph"),
                    },
                )
            } else {
                (CaptureState::Flushing, CaptureAction::Flush)
            }
        },
        CaptureEvent::Flushed { status } => {
            if status != 0 {
                (
                    CaptureState::Finished,
                    CaptureAction::Fail {
                        close: true,
                        error: Exception::custom("Failed to flush the rendered graph"),
                    },
                )
            } else {
                (CaptureState::Sizing, CaptureAction::Tell)
            }
        },
        CaptureEvent::Sized { len } => {
            if len < 0 {
                (
                    CaptureState::Finished,
                    CaptureAction::Fail {
                        close: true,
                        error: Exception::custom("Failed to size the rendered graph"),
                    },
                )
            } else {
                let n: usize = len as usize;
                (CaptureState::Reading { len: n }, CaptureAction::RewindAndRead { len: n })
            }
        },
        CaptureEvent::Read { count } => (CaptureState::Finished, CaptureAction::Finish { keep: count }),
    }
}

/// Whether each report of `events` fits the state the capture is in when it arrives, starting
/// from `state`.
pub open spec fn fits_all(state: CaptureState, events: Seq<CaptureEvent>) -> bool
    decreases events.len(),
{
    events.len() == 0 || (event_fits(state, events[0]) && fits_all(
        capture_next(state, events[0]),
        events.drop_first(),
    ))
}

/// The state a capture reaches from `state` after `events`.
pub open spec fn run_state(state: CaptureState, events: Seq<CaptureEvent>) -> CaptureState
    decreases events.len(),
{
    if events.len() == 0 {
        state
    } else {
        run_state(capture_next(state, events[0]), events.drop_first())
    }
}

/// How many of the actions that follow `events`, starting from `state`, close the file.
pub open spec fn closes_in(state: CaptureState, events: Seq<CaptureEvent>) -> nat
    decreases events.len(),
{
    if events.len() == 0 {
        0
    } else {
        (if closes_file(capture_next_action(events[0])) {
            1nat
        } else {
            0nat
        }) + closes_in(capture_next(state, events[0]), events.drop_first())
    }
}

/// Whether the first report of `events` is that the temporary file was opened.
pub open spec fn opens_file(events: Seq<CaptureEvent>) -> bool {
    &&& events.len() > 0
    &&& events[0] matches CaptureEvent::Opened { is_null }
    &&& !is_null
}

/// A single step closes the file exactly when the file was open and the capture ends there;
/// a capture that does not end keeps its file open.
pub proof fn law_step_closes_when_ending(state: CaptureState, event: CaptureEvent)
    requires
        event_fits(state, event),
    ensures
        closes_file(capture_next_action(event)) <==> (file_is_open(state) && capture_next(
            state,
            event,
        ) == CaptureState::Finished),
        capture_next(state, event) == CaptureState::Finished || file_is_open(
            capture_next(state, event),
        ),
{
}

proof fn lemma_open_capture_closes_once(state: CaptureState, events: Seq<CaptureEvent>)
    requires
        file_is_open(state),
        fits_all(state, events),
    ensures
        closes_in(state, events) == (if run_state(state, events) == CaptureState::Finished {
            1nat
        } else {
            0nat
        }),
    decreases events.len(),
{
    if events.len() > 0 {
        let next = capture_next(state, events[0]);
        law_step_closes_when_ending(state, events[0]);
        if next == CaptureState::Finished {
            assert(fits_all(next, events.drop_first()));
            assert(events.drop_first().len() == 0) by {
                if events.drop_first().len() > 0 {
                    assert(!event_fits(next, events.drop_first()[0]));
                    assert(!fits_all(next, events.drop_first()));
                }
            }
            assert(closes_in(next, events.drop_first()) == 0);
            assert(run_state(next, events.drop_first()) == next);
        } else {
            assert(fits_all(next, events.drop_first()));
            lemma_open_capture_closes_once(next, events.drop_first());
            assert(run_state(next, events.drop_first()) == run_state(
                capture_next(state, events[0]),
                events.drop_first(),
            ));
        }
    }
}

/// Over any run of a capture, the temporary file is closed exactly once if it was opened and
/// the capture ended, and otherwise never.
pub proof fn law_capture_closes_file_once(events: Seq<CaptureEvent>)
    requires
        fits_all(CaptureState::Opening, events),
    ensures
        closes_in(CaptureState::Opening, events) == (if opens_file(events) && run_state(
            CaptureState::Opening,
            events,
        ) == CaptureState::Finished {
            1nat
        } else {
            0nat
        }),
{
    if events.len() > 0 {
        let next = capture_next(CaptureState::Opening, events[0]);
        if next == CaptureState::Finished {
            assert(fits_all(next, events.drop_first()));
            assert(events.drop_first().len() == 0) by {
                if events.drop_first().len() > 0 {
                    assert(!event_fits(next, events.drop_first()[0]));
                    assert(!fits_all(next, events.drop_first()));
                }
            }
            assert(closes_in(next, events.drop_first()) == 0);
            assert(run_state(next, events.drop_first()) == next);
        } else {
            assert(fits_all(next, events.drop_first()));
            lemma_open_capture_closes_once(next, events.drop_first());
        }
    }
}

/// Once the file reports its size, the whole file is read: the capture asks for exactly as many
/// bytes as the file holds, and when that many were read it keeps every one of them.
pub proof fn law_capture_reads_whole_file(len: i64, count: usize)
    requires
        0 <= len <= usize::MAX,
    ensures
        capture_next(CaptureState::Sizing, CaptureEvent::Sized { len }) == (CaptureState::Reading {
            len: len as usize,
        }),
        capture_next_action(CaptureEvent::Sized { len }) matches CaptureActionKind::RewindAndRead {
            len: asked,
        } && asked == len,
        capture_next_action(CaptureEvent::Read { count }) matches CaptureActionKind::Finish {
            keep,
        } && keep == count,
{
}

} // verus!
