//! Attaching a surface to a context and detaching it again.
//!
//! A context goes from "nothing attached" to "surface attached" and back only
//! through the two operations of this module. A context that renders to external
//! surfaces never changes.

use crate::current::{ScopedCall, ScopedStep};
use crate::device::{Context, ContextView, Device};
use crate::error::Error;
use crate::native::{NativeCall, NativeReply, Step, INFINITE, S_OK};
use crate::surface::{Framebuffer, Surface};
use vstd::prelude::*;

verus! {

/// Where the attachment of a surface stands, or how it ended: on failure the
/// surface comes back with the error.
pub type BindStep = Step<BindingSurface, Result<(), (Error, Surface)>>;

/// Where the detachment of a surface stands, or how it ended: with the
/// surface that was attached, if one was.
pub type UnbindStep = Step<UnbindingSurface, Result<Option<Surface>, Error>>;

/// The attachment of a surface that is under way. The surface stays with the
/// operation until it is attached.
#[derive(PartialEq, Eq, Debug, Structural)]
pub enum BindingSurface {
    /// Commands are being finished with the context current for that alone.
    Finishing { scoped: ScopedCall, surface: Surface },
    /// The thread's current context is being read.
    QueryingCurrent { surface: Surface },
    /// The surface's keyed mutex is being acquired.
    Acquiring { surface: Surface, is_current: bool },
    /// The surface is attached, and the context, which was current, is being
    /// made current again with it.
    Reasserting,
}

/// The detachment of a surface that is under way.
#[derive(PartialEq, Eq, Debug, Structural)]
pub enum UnbindingSurface {
    /// Commands are being flushed with the context current for that alone. The
    /// surface is still attached.
    Flushing { scoped: ScopedCall },
    /// The surface is detached and its keyed mutex is being released.
    Releasing { surface: Surface },
}

impl BindingSurface {
    /// What follows a step of finishing commands: its next call, or the query
    /// for the thread's current context once it is over.
    pub open spec fn spec_finishing(step: ScopedStep, surface: Surface) -> BindStep {
        match step {
            Step::Call(call, scoped) => Step::Call(
                call,
                BindingSurface::Finishing { scoped, surface },
            ),
            Step::Done(()) => Step::Call(
                NativeCall::GetCurrentContext,
                BindingSurface::QueryingCurrent { surface },
            ),
        }
    }

    /// The first step of attaching `surface` to `context`.
    pub open spec fn spec_start(
        device: &Device,
        context: ContextView,
        surface: Surface,
    ) -> BindStep {
        match context.rejection(surface) {
            Some(error) => Step::Done(Err((error, surface))),
            None => if surface.spec_uses_gl_finish() {
                BindingSurface::spec_finishing(
                    ScopedCall::spec_start(device, context, NativeCall::Finish),
                    surface,
                )
            } else {
                Step::Call(
                    NativeCall::GetCurrentContext,
                    BindingSurface::QueryingCurrent { surface },
                )
            },
        }
    }

    /// The attachment itself: the context takes the surface unless it rejects it,
    /// and is made current again if it was current.
    pub open spec fn spec_attach(
        device: &Device,
        context: ContextView,
        surface: Surface,
        is_current: bool,
    ) -> (ContextView, BindStep) {
        match context.rejection(surface) {
            Some(error) => (context, Step::Done(Err((error, surface)))),
            None => (
                context.bound(surface),
                if is_current {
                    Step::Call(
                        device.spec_make_current_call(context.bound(surface)),
                        BindingSurface::Reasserting,
                    )
                } else {
                    Step::Done(Ok(()))
                },
            ),
        }
    }

    /// The context and the operation after the pending call was answered with
    /// `reply`.
    pub open spec fn spec_resume(
        self,
        device: &Device,
        context: ContextView,
        reply: NativeReply,
    ) -> (ContextView, BindStep) {
        match self {
            BindingSurface::Finishing { scoped, surface } => (
                context,
                BindingSurface::spec_finishing(scoped.spec_resume(reply), surface),
            ),
            BindingSurface::QueryingCurrent { surface } => {
                let is_current = reply.spec_handle() == context.egl_context;
                match surface.spec_keyed_mutex() {
                    Some(mutex) => (
                        context,
                        Step::Call(
                            NativeCall::AcquireSync { mutex, key: 0, timeout: INFINITE },
                            BindingSurface::Acquiring { surface, is_current },
                        ),
                    ),
                    None => BindingSurface::spec_attach(device, context, surface, is_current),
                }
            },
            BindingSurface::Acquiring { surface, is_current } => BindingSurface::spec_attach(
                device,
                context,
                surface,
                is_current,
            ),
            BindingSurface::Reasserting => (context, Step::Done(Ok(()))),
        }
    }

    /// What an attachment comes to in the end: a surface that the context rejects
    /// comes back with the reason and the context is as before; any other
    /// surface is attached.
    pub open spec fn spec_outcome(context: ContextView, surface: Surface) -> (
        ContextView,
        Result<(), (Error, Surface)>,
    ) {
        match context.rejection(surface) {
            Some(error) => (context, Err((error, surface))),
            None => (context.bound(surface), Ok(())),
        }
    }

    /// The context and the operation after the pending calls were answered with
    /// `replies`, one after the other. The run stops where the operation is
    /// over, where the replies end, and at a reply that stops the process.
    pub open spec fn spec_run(
        device: &Device,
        context: ContextView,
        step: BindStep,
        replies: Seq<NativeReply>,
    ) -> (ContextView, BindStep)
        decreases replies.len(),
    {
        match step {
            Step::Call(_, state) => if replies.len() == 0 || state.spec_aborts_on(replies[0]) {
                (context, step)
            } else {
                let (context, step) = state.spec_resume(device, context, replies[0]);
                BindingSurface::spec_run(device, context, step, replies.drop_first())
            },
            Step::Done(_) => (context, step),
        }
    }

    /// An upper bound on the number of native calls that are still to be answered.
    pub open spec fn spec_calls_left(&self) -> nat {
        match *self {
            BindingSurface::Finishing { scoped, .. } => scoped.spec_calls_left() + 3,
            BindingSurface::QueryingCurrent { .. } => 3,
            BindingSurface::Acquiring { .. } => 2,
            BindingSurface::Reasserting => 1,
        }
    }

    /// Whether `reply` reports that the keyed mutex could not be acquired. There
    /// is no recovery from that: the process must stop instead of resuming.
    pub open spec fn spec_aborts_on(&self, reply: NativeReply) -> bool {
        *self is Acquiring && reply != NativeReply::HResult(S_OK)
    }

    #[verifier::when_used_as_spec(spec_aborts_on)]
    pub fn aborts_on(&self, reply: NativeReply) -> (aborts: bool)
        ensures
            aborts == self.spec_aborts_on(reply),
    {
        match self {
            BindingSurface::Acquiring { .. } => match reply {
                NativeReply::HResult(code) => code != S_OK,
                _ => true,
            },
            _ => false,
        }
    }

    fn finishing(step: ScopedStep, surface: Surface) -> (next: BindStep)
        ensures
            next == BindingSurface::spec_finishing(step, surface),
    {
        match step {
            Step::Call(call, scoped) => Step::Call(
                call,
                BindingSurface::Finishing { scoped, surface },
            ),
            Step::Done(()) => Step::Call(
                NativeCall::GetCurrentContext,
                BindingSurface::QueryingCurrent { surface },
            ),
        }
    }

    fn attach(device: &Device, context: &mut Context, surface: Surface, is_current: bool) -> (step:
        BindStep)
        ensures
            (final(context)@, step) == BindingSurface::spec_attach(
                device,
                old(context)@,
                surface,
                is_current,
            ),
            final(context)@.well_formed(),
    {
        proof {
            use_type_invariant(&*context);
        }
        match context.rejection(&surface) {
            Some(error) => Step::Done(Err((error, surface))),
            None => {
                context.attach(surface);
                if is_current {
                    // The surfaces of the context changed: it has to be made
                    // current again. Whether that succeeds is not reported.
                    Step::Call(device.make_current_call(context), BindingSurface::Reasserting)
                } else {
                    Step::Done(Ok(()))
                }
            },
        }
    }

    /// Takes the reply to the pending call.
    ///
    /// Once commands are finished, the thread's current context is read. Then
    /// the surface's keyed mutex, if it has one, is acquired with an unbounded
    /// wait, and only then is the surface attached. A context that was current
    /// is made current again with its new surface; a failure of that last call
    /// is not reported, since the surface is attached by then.
    ///
    /// The context is looked at again when the surface is about to be attached:
    /// if it rejects the surface by then, the surface comes back with the reason.
    pub fn resume(self, device: &Device, context: &mut Context, reply: NativeReply) -> (step:
        BindStep)
        requires
            !self.spec_aborts_on(reply),
        ensures
            (final(context)@, step) == self.spec_resume(device, old(context)@, reply),
            final(context)@.well_formed(),
    {
        proof {
            use_type_invariant(&*context);
        }
        match self {
            BindingSurface::Finishing { scoped, surface } => BindingSurface::finishing(
                scoped.resume(reply),
                surface,
            ),
            BindingSurface::QueryingCurrent { surface } => {
                let is_current = device.context_is_current(context, reply.handle());
                match surface.keyed_mutex() {
                    Some(mutex) => Step::Call(
                        NativeCall::AcquireSync { mutex, key: 0, timeout: INFINITE },
                        BindingSurface::Acquiring { surface, is_current },
                    ),
                    None => BindingSurface::attach(device, context, surface, is_current),
                }
            },
            BindingSurface::Acquiring { surface, is_current } => BindingSurface::attach(
                device,
                context,
                surface,
                is_current,
            ),
            BindingSurface::Reasserting => Step::Done(Ok(())),
        }
    }
}

impl UnbindingSurface {
    /// The detachment itself: the context gives up the surface it holds, and the
    /// surface's keyed mutex, if it has one, is released.
    pub open spec fn spec_detach(context: ContextView) -> (ContextView, UnbindStep) {
        match context.framebuffer {
            Framebuffer::Unbound => (context, Step::Done(Ok(None))),
            Framebuffer::External(_) => (context, Step::Done(Err(Error::ExternalRenderTarget))),
            Framebuffer::Surface(surface) => (
                context.unbound(),
                match surface.spec_keyed_mutex() {
                    Some(mutex) => Step::Call(
                        NativeCall::ReleaseSync { mutex, key: 0 },
                        UnbindingSurface::Releasing { surface },
                    ),
                    None => Step::Done(Ok(Some(surface))),
                },
            ),
        }
    }

    /// What follows a step of flushing commands: its next call, or the
    /// detachment once it is over.
    pub open spec fn spec_flushing(step: ScopedStep, context: ContextView) -> (
        ContextView,
        UnbindStep,
    ) {
        match step {
            Step::Call(call, scoped) => (
                context,
                Step::Call(call, UnbindingSurface::Flushing { scoped }),
            ),
            Step::Done(()) => UnbindingSurface::spec_detach(context),
        }
    }

    /// The first step of detaching the surface of `context`.
    pub open spec fn spec_start(device: &Device, context: ContextView) -> UnbindStep {
        if context.framebuffer is Surface {
            UnbindingSurface::spec_flushing(
                ScopedCall::spec_start(device, context, NativeCall::Flush),
                context,
            ).1
        } else {
            UnbindingSurface::spec_detach(context).1
        }
    }

    /// The context and the operation after the pending call was answered with
    /// `reply`.
    pub open spec fn spec_resume(self, context: ContextView, reply: NativeReply) -> (
        ContextView,
        UnbindStep,
    ) {
        match self {
            UnbindingSurface::Flushing { scoped } => UnbindingSurface::spec_flushing(
                scoped.spec_resume(reply),
                context,
            ),
            UnbindingSurface::Releasing { surface } => (context, Step::Done(Ok(Some(surface)))),
        }
    }

    /// What a detachment comes to in the end: the surface that was attached is
    /// handed over and the context has nothing attached. With nothing attached
    /// there is nothing to hand over, and a context that renders to external
    /// surfaces gives none up; either is left as it was.
    pub open spec fn spec_outcome(context: ContextView) -> (
        ContextView,
        Result<Option<Surface>, Error>,
    ) {
        match context.framebuffer {
            Framebuffer::Unbound => (context, Ok(None)),
            Framebuffer::External(_) => (context, Err(Error::ExternalRenderTarget)),
            Framebuffer::Surface(surface) => (context.unbound(), Ok(Some(surface))),
        }
    }

    /// The context and the operation after the pending calls were answered with
    /// `replies`, one after the other. The run stops where the operation is
    /// over, where the replies end, and at a reply that stops the process.
    pub open spec fn spec_run(
        context: ContextView,
        step: UnbindStep,
        replies: Seq<NativeReply>,
    ) -> (ContextView, UnbindStep)
        decreases replies.len(),
    {
        match step {
            Step::Call(_, state) => if replies.len() == 0 || state.spec_aborts_on(replies[0]) {
                (context, step)
            } else {
                let (context, step) = state.spec_resume(context, replies[0]);
                UnbindingSurface::spec_run(context, step, replies.drop_first())
            },
            Step::Done(_) => (context, step),
        }
    }

    /// An upper bound on the number of native calls that are still to be answered.
    pub open spec fn spec_calls_left(&self) -> nat {
        match *self {
            UnbindingSurface::Flushing { scoped } => scoped.spec_calls_left() + 1,
            UnbindingSurface::Releasing { .. } => 1,
        }
    }

    /// Whether `reply` reports that the keyed mutex could not be released. There
    /// is no recovery from that: the process must stop instead of resuming.
    pub open spec fn spec_aborts_on(&self, reply: NativeReply) -> bool {
        *self is Releasing && reply != NativeReply::HResult(S_OK)
    }

    #[verifier::when_used_as_spec(spec_aborts_on)]
    pub fn aborts_on(&self, reply: NativeReply) -> (aborts: bool)
        ensures
            aborts == self.spec_aborts_on(reply),
    {
        match self {
            UnbindingSurface::Releasing { .. } => match reply {
                NativeReply::HResult(code) => code != S_OK,
                _ => true,
            },
            _ => false,
        }
    }

    fn detach(context: &mut Context) -> (step: UnbindStep)
        ensures
            (final(context)@, step) == UnbindingSurface::spec_detach(old(context)@),
            final(context)@.well_formed(),
    {
        match context.detach() {
            Some(surface) => match surface.keyed_mutex() {
                Some(mutex) => Step::Call(
                    NativeCall::ReleaseSync { mutex, key: 0 },
                    UnbindingSurface::Releasing { surface },
                ),
                None => Step::Done(Ok(Some(surface))),
            },
            None => match context.detachable() {
                Err(error) => Step::Done(Err(error)),
                Ok(_) => Step::Done(Ok(None)),
            },
        }
    }

    fn flushing(step: ScopedStep, context: &mut Context) -> (next: UnbindStep)
        ensures
            (final(context)@, next) == UnbindingSurface::spec_flushing(step, old(context)@),
            final(context)@.well_formed(),
    {
        proof {
            use_type_invariant(&*context);
        }
        match step {
            Step::Call(call, scoped) => Step::Call(call, UnbindingSurface::Flushing { scoped }),
            Step::Done(()) => UnbindingSurface::detach(context),
        }
    }

    /// Takes the reply to the pending call.
    ///
    /// Once the commands that target the surface are flushed, the surface is
    /// taken out of the context. Its keyed mutex, if it has one, is released
    /// before the surface is handed over. If the context cannot be made current
    /// there is nothing to flush with, and the surface is taken out all the same.
    pub fn resume(self, context: &mut Context, reply: NativeReply) -> (step: UnbindStep)
        requires
            !self.spec_aborts_on(reply),
        ensures
            (final(context)@, step) == self.spec_resume(old(context)@, reply),
            final(context)@.well_formed(),
    {
        proof {
            use_type_invariant(&*context);
        }
        match self {
            UnbindingSurface::Flushing { scoped } => UnbindingSurface::flushing(
                scoped.resume(reply),
                context,
            ),
            UnbindingSurface::Releasing { surface } => Step::Done(Ok(Some(surface))),
        }
    }
}

impl Device {
    /// Starts attaching `surface` to `context`, which takes ownership of it.
    ///
    /// The surface is rejected, and handed back with the error, if it was
    /// created for another context (`IncompatibleSurface`), or else if the
    /// context renders to external surfaces (`ExternalRenderTarget`) or already
    /// has a surface (`SurfaceAlreadyBound`). A rejection leaves the context as
    /// it is and names no native call.
    ///
    /// If the surface asks for it, commands are finished first, with the context
    /// current for that alone. The context does not change before the operation
    /// is resumed.
    pub fn bind_surface_to_context(&self, context: &mut Context, surface: Surface) -> (step:
        BindStep)
        ensures
            step == BindingSurface::spec_start(self, old(context)@, surface),
            final(context)@ == old(context)@,
            final(context)@.well_formed(),
    {
        proof {
            use_type_invariant(&*context);
        }
        match context.rejection(&surface) {
            Some(error) => Step::Done(Err((error, surface))),
            None => if surface.uses_gl_finish() {
                BindingSurface::finishing(
                    ScopedCall::start(self, context, NativeCall::Finish),
                    surface,
                )
            } else {
                Step::Call(
                    NativeCall::GetCurrentContext,
                    BindingSurface::QueryingCurrent { surface },
                )
            },
        }
    }

    /// Starts detaching the surface of `context`.
    ///
    /// A context with nothing attached yields `Ok(None)` at once, and a context
    /// that renders to external surfaces `ExternalRenderTarget`; neither names a
    /// native call. Otherwise the commands that target the surface are flushed
    /// first, with the context current for that alone, so that the surface can be
    /// read as soon as it is handed over. The context does not change before the
    /// operation is resumed.
    pub fn unbind_surface_from_context(&self, context: &mut Context) -> (step: UnbindStep)
        ensures
            step == UnbindingSurface::spec_start(self, old(context)@),
            final(context)@ == old(context)@,
            final(context)@.well_formed(),
    {
        proof {
            use_type_invariant(&*context);
        }
        match context.detachable() {
            Ok(true) => {
                let flush = ScopedCall::start(self, context, NativeCall::Flush);
                UnbindingSurface::flushing(flush, context)
            },
            Ok(false) => Step::Done(Ok(None)),
            Err(error) => Step::Done(Err(error)),
        }
    }
}

} // verus!
