//! Which context is current on the calling thread.
//!
//! Native contexts are bound to threads. Nothing here moves a context between
//! threads: every call that an operation names is performed on the thread that
//! runs the operation.

use crate::device::{Context, ContextView, Device};
use crate::egl;
use crate::egl::EGLContext;
use crate::error::Error;
use crate::native::{NativeBinding, NativeCall, NativeReply, Step};
use vstd::prelude::*;

verus! {

/// What was current on a thread before a context was made current for a while.
#[derive(Clone, Copy, PartialEq, Eq, Debug, Structural)]
pub struct CurrentContextGuard {
    pub old: NativeBinding,
}

/// A request to make a context current that waits for its answer.
#[derive(Clone, Copy, PartialEq, Eq, Debug, Structural)]
pub struct MakingCurrent {}

/// Making a context current for a while: the steps up to the guard.
#[derive(Clone, Copy, PartialEq, Eq, Debug, Structural)]
pub enum MakingCurrentTemporarily {
    /// The thread's binding is being read; `request` is the call to make next.
    Saving { request: NativeCall },
    /// The context is being made current.
    Entering { guard: CurrentContextGuard },
    /// Making the context current failed and the saved binding is being restored.
    Restoring { error: Error },
}

/// One call that is made while a context is current for its sake alone: the
/// thread's binding is saved, the context made current, the call performed,
/// and the binding restored. The call is skipped if the context cannot be
/// made current.
#[derive(Clone, Copy, PartialEq, Eq, Debug, Structural)]
pub enum ScopedCall {
    /// The context is being made current; `body` is the call to make then.
    Entering { entering: MakingCurrentTemporarily, body: NativeCall },
    /// The call is being performed.
    Running { guard: CurrentContextGuard },
    /// The saved binding is being restored.
    Restoring,
}

/// Where making a context current stands, or how it ended.
pub type CurrentStep = Step<MakingCurrent, Result<(), Error>>;

/// Where making a context current for a while stands, or how it ended: with
/// the guard, or with the reason why the context is not current.
pub type TemporaryStep = Step<MakingCurrentTemporarily, Result<CurrentContextGuard, Error>>;

/// Where a scoped call stands, or that it is over.
pub type ScopedStep = Step<ScopedCall, ()>;

/// What a reply to a request to make a context current means.
pub open spec fn spec_made_current(reply: NativeReply) -> Result<(), Error> {
    match reply.spec_status() {
        Ok(()) => Ok(()),
        Err(error) => Err(Error::MakeCurrentFailed(error)),
    }
}

/// Reads the reply to a request to make a context current: the native error, if
/// the request failed, is reported as `MakeCurrentFailed`.
#[verifier::when_used_as_spec(spec_made_current)]
pub fn made_current(reply: NativeReply) -> (result: Result<(), Error>)
    ensures
        result == spec_made_current(reply),
{
    match reply.status() {
        Ok(()) => Ok(()),
        Err(error) => Err(Error::MakeCurrentFailed(error)),
    }
}

impl CurrentContextGuard {
    /// The call that restores what the guard saved, if anything was current then.
    pub open spec fn spec_release(self) -> Option<NativeCall> {
        if self.old.display != egl::NO_DISPLAY {
            Some(
                NativeCall::MakeCurrent {
                    display: self.old.display,
                    draw: self.old.draw,
                    read: self.old.read,
                    context: self.old.context,
                },
            )
        } else {
            None
        }
    }

    /// Ends the guard: names the call that makes current again what was current
    /// when the guard was taken, or nothing if no display was current then.
    #[verifier::when_used_as_spec(spec_release)]
    pub fn release(self) -> (call: Option<NativeCall>)
        ensures
            call == self.spec_release(),
    {
        if self.old.display != egl::NO_DISPLAY {
            Some(
                NativeCall::MakeCurrent {
                    display: self.old.display,
                    draw: self.old.draw,
                    read: self.old.read,
                    context: self.old.context,
                },
            )
        } else {
            None
        }
    }
}

impl MakingCurrent {
    /// Takes the reply to the request: the operation is over, with success or
    /// with `MakeCurrentFailed` and the native error.
    pub fn resume(self, reply: NativeReply) -> (step: CurrentStep)
        ensures
            step == CurrentStep::Done(spec_made_current(reply)),
    {
        Step::Done(made_current(reply))
    }
}

impl MakingCurrentTemporarily {
    /// The operation after the pending call was answered with `reply`.
    pub open spec fn spec_resume(self, reply: NativeReply) -> TemporaryStep {
        match self {
            MakingCurrentTemporarily::Saving { request } => Step::Call(
                request,
                MakingCurrentTemporarily::Entering {
                    guard: CurrentContextGuard { old: reply.spec_binding() },
                },
            ),
            MakingCurrentTemporarily::Entering { guard } => match spec_made_current(reply) {
                Ok(()) => Step::Done(Ok(guard)),
                Err(error) => match guard.spec_release() {
                    Some(restore) => Step::Call(
                        restore,
                        MakingCurrentTemporarily::Restoring { error },
                    ),
                    None => Step::Done(Err(error)),
                },
            },
            MakingCurrentTemporarily::Restoring { error } => Step::Done(Err(error)),
        }
    }

    /// An upper bound on the number of native calls that are still to be answered.
    pub open spec fn spec_calls_left(&self) -> nat {
        match *self {
            MakingCurrentTemporarily::Saving { .. } => 3,
            MakingCurrentTemporarily::Entering { .. } => 2,
            MakingCurrentTemporarily::Restoring { .. } => 1,
        }
    }

    /// Takes the reply to the pending call. The saved binding becomes the guard;
    /// the guard is handed over once the context is current. If the context
    /// cannot be made current the saved binding is restored and the failure
    /// reported.
    pub fn resume(self, reply: NativeReply) -> (step: TemporaryStep)
        ensures
            step == self.spec_resume(reply),
    {
        match self {
            MakingCurrentTemporarily::Saving { request } => Step::Call(
                request,
                MakingCurrentTemporarily::Entering {
                    guard: CurrentContextGuard { old: reply.binding() },
                },
            ),
            MakingCurrentTemporarily::Entering { guard } => match made_current(reply) {
                Ok(()) => Step::Done(Ok(guard)),
                Err(error) => match guard.release() {
                    Some(restore) => Step::Call(
                        restore,
                        MakingCurrentTemporarily::Restoring { error },
                    ),
                    None => Step::Done(Err(error)),
                },
            },
            MakingCurrentTemporarily::Restoring { error } => Step::Done(Err(error)),
        }
    }
}

impl ScopedCall {
    /// The first step of `body` performed with `context` current.
    pub open spec fn spec_start(
        device: &Device,
        context: ContextView,
        body: NativeCall,
    ) -> ScopedStep {
        Step::Call(
            NativeCall::GetCurrentBinding,
            ScopedCall::Entering {
                entering: MakingCurrentTemporarily::Saving {
                    request: device.spec_make_current_call(context),
                },
                body,
            },
        )
    }

    /// The scoped call after the pending call was answered with `reply`.
    pub open spec fn spec_resume(self, reply: NativeReply) -> ScopedStep {
        match self {
            ScopedCall::Entering { entering, body } => match entering.spec_resume(reply) {
                Step::Call(call, entering) => Step::Call(
                    call,
                    ScopedCall::Entering { entering, body },
                ),
                Step::Done(Ok(guard)) => Step::Call(body, ScopedCall::Running { guard }),
                Step::Done(Err(_)) => Step::Done(()),
            },
            ScopedCall::Running { guard } => match guard.spec_release() {
                Some(restore) => Step::Call(restore, ScopedCall::Restoring),
                None => Step::Done(()),
            },
            ScopedCall::Restoring => Step::Done(()),
        }
    }

    /// The calls of a whole scoped call, where `saved` answers the reading of the
    /// thread's binding and `entered` the request to make the context current:
    /// the binding is read and the request made; `body` follows only if the
    /// context became current; and what was current before, if anything was,
    /// is made current again in either case.
    pub open spec fn spec_calls(
        request: NativeCall,
        body: NativeCall,
        saved: NativeReply,
        entered: NativeReply,
    ) -> Seq<NativeCall> {
        let guard = CurrentContextGuard { old: saved.spec_binding() };
        seq![NativeCall::GetCurrentBinding, request] + (if spec_made_current(entered) is Ok {
            seq![body]
        } else {
            Seq::empty()
        }) + (match guard.spec_release() {
            Some(restore) => seq![restore],
            None => Seq::empty(),
        })
    }

    /// The calls that a scoped call makes from `step` on while they are answered
    /// with `replies`, one after the other, and where the scoped call stands then.
    pub open spec fn spec_run(step: ScopedStep, replies: Seq<NativeReply>) -> (
        Seq<NativeCall>,
        ScopedStep,
    )
        decreases replies.len(),
    {
        match step {
            Step::Call(call, state) => if replies.len() == 0 {
                (seq![call], step)
            } else {
                let (calls, last) = ScopedCall::spec_run(
                    state.spec_resume(replies[0]),
                    replies.drop_first(),
                );
                (seq![call] + calls, last)
            },
            Step::Done(_) => (Seq::empty(), step),
        }
    }

    /// An upper bound on the number of native calls that are still to be answered.
    pub open spec fn spec_calls_left(&self) -> nat {
        match *self {
            ScopedCall::Entering { entering, .. } => entering.spec_calls_left() + 1,
            ScopedCall::Running { .. } => 2,
            ScopedCall::Restoring => 1,
        }
    }

    pub(crate) fn start(device: &Device, context: &Context, body: NativeCall) -> (step: ScopedStep)
        ensures
            step == ScopedCall::spec_start(device, context@, body),
    {
        Step::Call(
            NativeCall::GetCurrentBinding,
            ScopedCall::Entering {
                entering: MakingCurrentTemporarily::Saving {
                    request: device.make_current_call(context),
                },
                body,
            },
        )
    }

    /// Takes the reply to the pending call and names the next one.
    pub fn resume(self, reply: NativeReply) -> (step: ScopedStep)
        ensures
            step == self.spec_resume(reply),
    {
        match self {
            ScopedCall::Entering { entering, body } => match entering.resume(reply) {
                Step::Call(call, entering) => Step::Call(
                    call,
                    ScopedCall::Entering { entering, body },
                ),
                Step::Done(Ok(guard)) => Step::Call(body, ScopedCall::Running { guard }),
                Step::Done(Err(_)) => Step::Done(()),
            },
            ScopedCall::Running { guard } => match guard.release() {
                Some(restore) => Step::Call(restore, ScopedCall::Restoring),
                None => Step::Done(()),
            },
            ScopedCall::Restoring => Step::Done(()),
        }
    }
}

impl Device {
    /// Starts making `context` current on the calling thread, with the surface
    /// that is attached to it, with its external surfaces, or with no surface.
    pub fn make_context_current(&self, context: &Context) -> (step: CurrentStep)
        ensures
            step == CurrentStep::Call(self.spec_make_current_call(context@), MakingCurrent {}),
    {
        Step::Call(self.make_current_call(context), MakingCurrent {})
    }

    /// Starts leaving the calling thread without a current context.
    pub fn make_no_context_current(&self) -> (step: CurrentStep)
        ensures
            step == CurrentStep::Call(self.spec_make_none_current_call(), MakingCurrent {}),
    {
        Step::Call(self.make_none_current_call(), MakingCurrent {})
    }

    /// Starts making `context` current for a while. The operation ends with a
    /// guard that remembers what was current before; releasing the guard names
    /// the call that restores it.
    pub fn temporarily_make_context_current(&self, context: &Context) -> (step: TemporaryStep)
        ensures
            step == TemporaryStep::Call(
                NativeCall::GetCurrentBinding,
                MakingCurrentTemporarily::Saving { request: self.spec_make_current_call(context@) },
            ),
    {
        Step::Call(
            NativeCall::GetCurrentBinding,
            MakingCurrentTemporarily::Saving { request: self.make_current_call(context) },
        )
    }

    /// Whether `context` is the context whose handle the native API reported as
    /// current.
    pub fn context_is_current(&self, context: &Context, current: EGLContext) -> (is_current: bool)
        ensures
            is_current == (current == context@.egl_context),
    {
        current == context.handle()
    }
}

} // verus!
