//! Getting the Store context, step by step.
//!
//! The context is made once, tied to the main window, and kept. The host performs
//! each step and reports what came of it.

use crate::error::rejected;
use crate::error::Error;
use crate::error::ErrorView;
use crate::error::WindowsError;
use crate::iap::Iap;
use vstd::prelude::*;
use vstd::string::StringExecFns;

verus! {

/// What came of the last step.
#[derive(Debug)]
pub enum ContextEvent {
    /// The lock on the kept context could not be taken.
    LockFailed(String),
    /// The lock was taken; a context is kept already or is not.
    Locked { present: bool },
    /// The user's default context was made.
    Created,
    /// The user's default context could not be made.
    CreateFailed(WindowsError),
    /// The main window was looked for.
    WindowSought { found: bool },
    /// The main window's handle is known.
    HandleKnown,
    /// The main window has no handle.
    HandleFailed(String),
    /// The context was tied to the window.
    Bound,
    /// The context could not be tied to the window.
    BindFailed(WindowsError),
    /// The kept context was looked for.
    KeptSought { present: bool },
}

/// What to do next.
#[derive(Debug)]
pub enum ContextStep {
    /// Make the user's default context.
    Create,
    /// Look for the main window.
    SeekWindow,
    /// Ask the window for its handle.
    AskHandle,
    /// Tie the context to the window.
    Bind,
    /// Keep the new context.
    Keep,
    /// Look for the kept context.
    SeekKept,
    /// Hand the kept context out.
    Use,
    /// Give up.
    Fail(Error),
}

/// The contents of a [`ContextStep`].
pub enum ContextStepView {
    Create,
    SeekWindow,
    AskHandle,
    Bind,
    Keep,
    SeekKept,
    Use,
    Fail(ErrorView),
}

impl View for ContextStep {
    type V = ContextStepView;

    open spec fn view(&self) -> ContextStepView {
        match self {
            ContextStep::Create => ContextStepView::Create,
            ContextStep::SeekWindow => ContextStepView::SeekWindow,
            ContextStep::AskHandle => ContextStepView::AskHandle,
            ContextStep::Bind => ContextStepView::Bind,
            ContextStep::Keep => ContextStepView::Keep,
            ContextStep::SeekKept => ContextStepView::SeekKept,
            ContextStep::Use => ContextStepView::Use,
            ContextStep::Fail(error) => ContextStepView::Fail(error@),
        }
    }
}

/// The step after an event.
pub open spec fn next_step(event: ContextEvent) -> ContextStepView {
    match event {
        ContextEvent::LockFailed(detail) => ContextStepView::Fail(
            rejected("internalError"@, "Failed to acquire write lock: "@ + detail@),
        ),
        ContextEvent::Locked { present: true } => ContextStepView::SeekKept,
        ContextEvent::Locked { present: false } => ContextStepView::Create,
        ContextEvent::Created => ContextStepView::SeekWindow,
        ContextEvent::CreateFailed(error) => ContextStepView::Fail(ErrorView::Windows(error@)),
        ContextEvent::WindowSought { found: true } => ContextStepView::AskHandle,
        ContextEvent::WindowSought { found: false } => ContextStepView::Fail(
            rejected("windowError"@, "Failed to get main window"@),
        ),
        ContextEvent::HandleKnown => ContextStepView::Bind,
        ContextEvent::HandleFailed(detail) => ContextStepView::Fail(
            rejected("windowError"@, "Failed to get window handle: "@ + detail@),
        ),
        ContextEvent::Bound => ContextStepView::Keep,
        ContextEvent::BindFailed(error) => ContextStepView::Fail(ErrorView::Windows(error@)),
        ContextEvent::KeptSought { present: true } => ContextStepView::Use,
        ContextEvent::KeptSought { present: false } => ContextStepView::Fail(
            rejected("storeNotInitialized"@, "Store context not initialized"@),
        ),
    }
}

impl Iap {
    /// The step after an event on the way to the Store context.
    pub fn get_store_context(event: ContextEvent) -> (step: ContextStep)
        ensures
            step@ == next_step(event),
    {
        match event {
            ContextEvent::LockFailed(detail) => {
                let mut message = "Failed to acquire write lock: ".to_owned();
                message.append(detail.as_str());
                ContextStep::Fail(Self::reject("internalError", message))
            },
            ContextEvent::Locked { present } => if present {
                ContextStep::SeekKept
            } else {
                ContextStep::Create
            },
            ContextEvent::Created => ContextStep::SeekWindow,
            ContextEvent::CreateFailed(error) => ContextStep::Fail(Error::Windows(error)),
            ContextEvent::WindowSought { found } => if found {
                ContextStep::AskHandle
            } else {
                ContextStep::Fail(
                    Self::reject("windowError", "Failed to get main window".to_owned()),
                )
            },
            ContextEvent::HandleKnown => ContextStep::Bind,
            ContextEvent::HandleFailed(detail) => {
                let mut message = "Failed to get window handle: ".to_owned();
                message.append(detail.as_str());
                ContextStep::Fail(Self::reject("windowError", message))
            },
            ContextEvent::Bound => ContextStep::Keep,
            ContextEvent::BindFailed(error) => ContextStep::Fail(Error::Windows(error)),
            ContextEvent::KeptSought { present } => if present {
                ContextStep::Use
            } else {
                ContextStep::Fail(
                    Self::reject(
                        "storeNotInitialized",
                        "Store context not initialized".to_owned(),
                    ),
                )
            },
        }
    }
}

/// How the steps towards a new context go on a given machine: each fails with
/// the error, or succeeds.
pub struct ContextWorld {
    pub create_error: Option<WindowsError>,
    pub window_found: bool,
    pub handle_error: Option<String>,
    pub bind_error: Option<WindowsError>,
}

/// What the host reports for a step, and whether a context is kept after it.
pub open spec fn reported(step: ContextStepView, kept: bool, world: ContextWorld) -> (
    ContextEvent,
    bool,
) {
    match step {
        ContextStepView::Create => match world.create_error {
            Some(error) => (ContextEvent::CreateFailed(error), kept),
            None => (ContextEvent::Created, kept),
        },
        ContextStepView::SeekWindow => (
            ContextEvent::WindowSought { found: world.window_found },
            kept,
        ),
        ContextStepView::AskHandle => match world.handle_error {
            Some(detail) => (ContextEvent::HandleFailed(detail), kept),
            None => (ContextEvent::HandleKnown, kept),
        },
        ContextStepView::Bind => match world.bind_error {
            Some(error) => (ContextEvent::BindFailed(error), kept),
            None => (ContextEvent::Bound, kept),
        },
        ContextStepView::Keep => (ContextEvent::Locked { present: true }, true),
        _ => (ContextEvent::KeptSought { present: kept }, kept),
    }
}

/// Where a number of steps at most lead from an event: to the last step, and to
/// whether a context is kept then. Handing a context out and giving up end the
/// way.
pub open spec fn walked(event: ContextEvent, kept: bool, world: ContextWorld, steps: nat) -> (
    ContextStepView,
    bool,
)
    decreases steps,
{
    let step = next_step(event);
    if steps == 0 || step is Use || step is Fail {
        (step, kept)
    } else {
        let (next, kept_then) = reported(step, kept, world);
        walked(next, kept_then, world, (steps - 1) as nat)
    }
}

/// A kept context is handed out as it is, on every machine. Without one, a
/// context is made, tied to the main window, kept and handed out; the first of
/// these that fails gives the error, and nothing is kept then.
pub proof fn law_context_made_once(kept: bool, world: ContextWorld)
    ensures
        walked(ContextEvent::Locked { present: kept }, kept, world, 7) == (if kept {
            (ContextStepView::Use, true)
        } else if world.create_error is Some {
            (ContextStepView::Fail(ErrorView::Windows(world.create_error->Some_0@)), false)
        } else if !world.window_found {
            (
                ContextStepView::Fail(rejected("windowError"@, "Failed to get main window"@)),
                false,
            )
        } else if world.handle_error is Some {
            (
                ContextStepView::Fail(
                    rejected(
                        "windowError"@,
                        "Failed to get window handle: "@ + world.handle_error->Some_0@,
                    ),
                ),
                false,
            )
        } else if world.bind_error is Some {
            (ContextStepView::Fail(ErrorView::Windows(world.bind_error->Some_0@)), false)
        } else {
            (ContextStepView::Use, true)
        }),
{
    reveal_with_fuel(walked, 9);
}

/// The way to the context fails exactly on a failed step. What Windows reported is
/// handed on as it is; the other failures have their own codes and messages.
pub proof fn law_context_failures(detail: String, error: WindowsError, event: ContextEvent)
    ensures
        next_step(event) is Fail <==> event is LockFailed || event is CreateFailed || event == (
        ContextEvent::WindowSought { found: false }) || event is HandleFailed
            || event is BindFailed || event == (ContextEvent::KeptSought { present: false }),
        next_step(ContextEvent::CreateFailed(error)) == ContextStepView::Fail(
            ErrorView::Windows(error@),
        ),
        next_step(ContextEvent::BindFailed(error)) == ContextStepView::Fail(
            ErrorView::Windows(error@),
        ),
        next_step(ContextEvent::LockFailed(detail)) == ContextStepView::Fail(
            ErrorView::Rejected {
                code: Some("internalError"@),
                message: Some("Failed to acquire write lock: "@ + detail@),
            },
        ),
        next_step(ContextEvent::HandleFailed(detail)) == ContextStepView::Fail(
            ErrorView::Rejected {
                code: Some("windowError"@),
                message: Some("Failed to get window handle: "@ + detail@),
            },
        ),
        next_step(ContextEvent::WindowSought { found: false }) == ContextStepView::Fail(
            ErrorView::Rejected {
                code: Some("windowError"@),
                message: Some("Failed to get main window"@),
            },
        ),
        next_step(ContextEvent::KeptSought { present: false }) == ContextStepView::Fail(
            ErrorView::Rejected {
                code: Some("storeNotInitialized"@),
                message: Some("Store context not initialized"@),
            },
        ),
{
}

/// No step is taken out of turn: each follows on one event alone.
pub proof fn law_context_order(event: ContextEvent)
    ensures
        next_step(event) is Create <==> event == (ContextEvent::Locked { present: false }),
        next_step(event) is SeekWindow <==> event is Created,
        next_step(event) is AskHandle <==> event == (ContextEvent::WindowSought { found: true }),
        next_step(event) is Bind <==> event is HandleKnown,
        next_step(event) is Keep <==> event is Bound,
        next_step(event) is SeekKept <==> event == (ContextEvent::Locked { present: true }),
        next_step(event) is Use <==> event == (ContextEvent::KeptSought { present: true }),
{
}

/// A step's contents are the step itself, with the contents of its error.
pub proof fn law_step_contents(step: ContextStep)
    ensures
        step@ is Create <==> step is Create,
        step@ is SeekWindow <==> step is SeekWindow,
        step@ is AskHandle <==> step is AskHandle,
        step@ is Bind <==> step is Bind,
        step@ is Keep <==> step is Keep,
        step@ is SeekKept <==> step is SeekKept,
        step@ is Use <==> step is Use,
        step matches ContextStep::Fail(error) ==> step@ == ContextStepView::Fail(error@),
{
}

} // verus!
