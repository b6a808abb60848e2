//! What holds of the operations whatever the native API answers.
//!
//! An operation is run by answering its calls one after the other. The laws
//! below speak of every such run: the replies are arbitrary.

use crate::binding::{BindStep, BindingSurface, UnbindStep, UnbindingSurface};
use crate::context::{ContextAttributeFlags, ContextDescriptor, ContextID, ContextIdAllocator};
use crate::current::{
    spec_made_current, CurrentContextGuard, MakingCurrentTemporarily, ScopedCall, ScopedStep,
    TemporaryStep,
};
use crate::device::{ContextView, Device};
use crate::egl::EGLContext;
use crate::error::Error;
use crate::gl;
use crate::lifecycle::{CreateStepView, CreatingContext, DestroyStep, DestroyingContext};
use crate::native::{NativeCall, NativeReply, Step, S_OK};
use crate::renderbuffers::{AllocatingRenderbuffers, AllocationStep, Renderbuffers};
use crate::surface::{Framebuffer, Size2D, Surface, SurfaceInfo};
use vstd::prelude::*;

verus! {

/// No two of `live` have the same identity.
pub open spec fn distinct_identities(live: Seq<ContextView>) -> bool {
    forall|i: int, j: int|
        0 <= i < j < live.len() ==> (#[trigger] live[i]).id != (#[trigger] live[j]).id
}

/// Every one of `live` got its identity from `allocator`.
pub open spec fn issued_by(allocator: ContextIdAllocator, live: Seq<ContextView>) -> bool {
    forall|i: int| 0 <= i < live.len() ==> allocator.has_issued((#[trigger] live[i]).id)
}

/// Contexts that are alive together have different identities. If that holds
/// of the contexts that an allocator has served so far, it still holds when a
/// context is created with the allocator's next identity and the allocator
/// moves on by one.
pub proof fn lemma_created_identity_is_fresh(
    before: ContextIdAllocator,
    after: ContextIdAllocator,
    live: Seq<ContextView>,
    created: ContextView,
)
    requires
        distinct_identities(live),
        issued_by(before, live),
        !before.spec_is_exhausted(),
        created.id == before.next_id(),
        after.next_id() == ContextID((before.next_id().0 + 1) as u64),
    ensures
        distinct_identities(live.push(created)),
        issued_by(after, live.push(created)),
{
    let grown = live.push(created);
    assert forall|i: int, j: int| 0 <= i < j < grown.len() implies (#[trigger] grown[i]).id != (
    #[trigger] grown[j]).id by {
        if j < live.len() {
            assert(live[i].id != live[j].id);
        } else {
            assert(before.has_issued(live[i].id));
        }
    }
    assert forall|i: int| 0 <= i < grown.len() implies after.has_issued(
        (#[trigger] grown[i]).id,
    ) by {
        if i < live.len() {
            assert(before.has_issued(live[i].id));
        }
    }
}

/// Identities stay different when a context goes away.
pub proof fn lemma_identities_survive_departure(
    allocator: ContextIdAllocator,
    live: Seq<ContextView>,
    gone: int,
)
    requires
        distinct_identities(live),
        issued_by(allocator, live),
        0 <= gone < live.len(),
    ensures
        distinct_identities(live.remove(gone)),
        issued_by(allocator, live.remove(gone)),
{
    let rest = live.remove(gone);
    assert forall|i: int, j: int| 0 <= i < j < rest.len() implies (#[trigger] rest[i]).id != (
    #[trigger] rest[j]).id by {
        let from_i = if i < gone { i } else { i + 1 };
        let from_j = if j < gone { j } else { j + 1 };
        assert(rest[i] == live[from_i]);
        assert(rest[j] == live[from_j]);
    }
    assert forall|i: int| 0 <= i < rest.len() implies allocator.has_issued(
        (#[trigger] rest[i]).id,
    ) by {
        let from_i = if i < gone { i } else { i + 1 };
        assert(rest[i] == live[from_i]);
    }
}

/// A context keeps its identity and stays well-formed: no step of an
/// attachment, a detachment or a destruction changes the one or breaks the
/// other.
pub proof fn lemma_steps_keep_identity_and_form(
    device: &Device,
    context: ContextView,
    binding: BindingSurface,
    unbinding: UnbindingSurface,
    destroying: DestroyingContext,
    reply: NativeReply,
)
    requires
        context.well_formed(),
    ensures
        binding.spec_resume(device, context, reply).0.id == context.id,
        binding.spec_resume(device, context, reply).0.well_formed(),
        unbinding.spec_resume(context, reply).0.id == context.id,
        unbinding.spec_resume(context, reply).0.well_formed(),
        destroying.spec_resume(device, context, reply).0.id == context.id,
        destroying.spec_resume(device, context, reply).0.well_formed(),
{
}

/// What creating a context comes to. If the native context cannot be created
/// the creation fails with `ContextCreationFailed`, and the new context is not
/// made current; if the new context cannot be made current, the creation fails
/// with `MakeCurrentFailed`. Each carries the native error. Otherwise the
/// creation hands over a context that is well-formed and alive.
pub proof fn lemma_create_outcome(
    device: &Device,
    descriptor: ContextDescriptor,
    share_with: EGLContext,
    id: ContextID,
    created: NativeReply,
    current: NativeReply,
)
    ensures
        ({
            let outcome = CreatingContext::spec_outcome(id, created, current);
            &&& CreatingContext::spec_start(device, descriptor, share_with) matches Step::Call(
                _,
                creating,
            ) && (match creating.spec_resume(device, id, created) {
                Step::Call(_, making_current) => making_current.spec_resume(device, id, current)
                    == CreateStepView::Done(outcome),
                Step::Done(result) => result == outcome && created.spec_created() is Err,
            })
            &&& outcome matches Ok(context) ==> context.well_formed() && !context.is_destroyed()
        }),
{
}

/// A surface that was created for another context is never attached: the
/// attachment is over at once, names no native call, and hands the surface back
/// unchanged with `IncompatibleSurface`.
pub proof fn lemma_incompatible_surface_is_rejected(
    device: &Device,
    context: ContextView,
    surface: Surface,
)
    requires
        surface.context_id != context.id,
    ensures
        BindingSurface::spec_start(device, context, surface) == BindStep::Done(
            Err((Error::IncompatibleSurface, surface)),
        ),
{
}

/// A context holds one surface at most: attaching a surface of the context's
/// own to a context that already holds one is over at once, names no native
/// call, and hands the surface back with `SurfaceAlreadyBound`.
pub proof fn lemma_second_surface_is_rejected(
    device: &Device,
    context: ContextView,
    surface: Surface,
)
    requires
        context.framebuffer is Surface,
        surface.context_id == context.id,
    ensures
        BindingSurface::spec_start(device, context, surface) == BindStep::Done(
            Err((Error::SurfaceAlreadyBound, surface)),
        ),
{
}

/// Where an attachment of `surface` to a context that accepts it can stand:
/// the context is untouched while the surface is with the operation, and holds
/// the surface from then on. The attachment cannot fail.
spec fn attaching(
    before: ContextView,
    surface: Surface,
    context: ContextView,
    step: BindStep,
) -> bool {
    match step {
        Step::Call(_, BindingSurface::Finishing { surface: held, .. }) => held == surface
            && context == before,
        Step::Call(_, BindingSurface::QueryingCurrent { surface: held }) => held == surface
            && context == before,
        Step::Call(_, BindingSurface::Acquiring { surface: held, .. }) => held == surface
            && context == before,
        Step::Call(_, BindingSurface::Reasserting) => context == before.bound(surface),
        Step::Done(Ok(())) => context == before.bound(surface),
        Step::Done(Err(_)) => false,
    }
}

proof fn lemma_attaching_run(
    device: &Device,
    before: ContextView,
    surface: Surface,
    context: ContextView,
    step: BindStep,
    replies: Seq<NativeReply>,
)
    requires
        before.rejection(surface) is None,
        attaching(before, surface, context, step),
    ensures
        attaching(
            before,
            surface,
            BindingSurface::spec_run(device, context, step, replies).0,
            BindingSurface::spec_run(device, context, step, replies).1,
        ),
    decreases replies.len(),
{
    if let Step::Call(_, state) = step {
        if replies.len() > 0 && !state.spec_aborts_on(replies[0]) {
            let (next_context, next_step) = state.spec_resume(device, context, replies[0]);
            lemma_attaching_run(
                device,
                before,
                surface,
                next_context,
                next_step,
                replies.drop_first(),
            );
        }
    }
}

/// What attaching a surface comes to. Whatever the native API answers, an
/// attachment that runs to its end has one of two outcomes: a surface that the
/// context rejects comes back with the reason and the context is as before; any
/// other surface is attached and the operation succeeds.
pub proof fn lemma_bind_outcome(
    device: &Device,
    context: ContextView,
    surface: Surface,
    replies: Seq<NativeReply>,
)
    ensures
        ({
            let (after, step) = BindingSurface::spec_run(
                device,
                context,
                BindingSurface::spec_start(device, context, surface),
                replies,
            );
            step matches Step::Done(result) ==> (after, result) == BindingSurface::spec_outcome(
                context,
                surface,
            )
        }),
{
    let start = BindingSurface::spec_start(device, context, surface);
    if context.rejection(surface) is None {
        lemma_attaching_run(device, context, surface, context, start, replies);
        if let Step::Done(result) = BindingSurface::spec_run(device, context, start, replies).1 {
            assert(result->Ok_0 == ());
        }
    }
}

/// A surface is attached only once its keyed mutex is held. The one step of an
/// attachment that changes the context is the step that attaches the surface,
/// and it answers the acquisition of the keyed mutex with success, or, for a
/// surface without a keyed mutex, the query for the thread's current context.
pub proof fn lemma_attachment_follows_acquisition(
    device: &Device,
    context: ContextView,
    state: BindingSurface,
    reply: NativeReply,
)
    requires
        !state.spec_aborts_on(reply),
        state.spec_resume(device, context, reply).0 != context,
    ensures
        match state {
            BindingSurface::Acquiring { surface, .. } => {
                &&& reply == NativeReply::HResult(S_OK)
                &&& state.spec_resume(device, context, reply).0 == context.bound(surface)
            },
            BindingSurface::QueryingCurrent { surface } => {
                &&& surface.spec_keyed_mutex() is None
                &&& state.spec_resume(device, context, reply).0 == context.bound(surface)
            },
            _ => false,
        },
{
}

/// A keyed mutex is released only once its surface is detached. The one step
/// of a detachment that changes the context is the step that ends the flushing
/// of commands: it takes the surface out, and it is that step that names the
/// release of the surface's keyed mutex, or hands the surface over if it has none.
pub proof fn lemma_release_follows_detachment(
    context: ContextView,
    state: UnbindingSurface,
    reply: NativeReply,
)
    requires
        state.spec_resume(context, reply).0 != context,
    ensures
        state is Flushing,
        context.attached() matches Some(surface) && state.spec_resume(context, reply) == (
            context.unbound(),
            match surface.spec_keyed_mutex() {
                Some(mutex) => UnbindStep::Call(
                    NativeCall::ReleaseSync { mutex, key: 0 },
                    UnbindingSurface::Releasing { surface },
                ),
                None => UnbindStep::Done(Ok(Some(surface))),
            },
        ),
{
}

/// Detaching from a context with nothing attached is over at once: it yields
/// `Ok(None)` and names no native call, so there is none that could fail.
pub proof fn lemma_unbind_of_nothing(device: &Device, context: ContextView)
    requires
        context.framebuffer is Unbound,
    ensures
        UnbindingSurface::spec_start(device, context) == UnbindStep::Done(Ok(None)),
{
}

/// Where a detachment from a context that holds `surface` can stand: the
/// surface is attached until the commands are flushed, and with the operation or
/// with the caller from then on. The detachment cannot fail.
spec fn detaching(
    before: ContextView,
    surface: Surface,
    context: ContextView,
    step: UnbindStep,
) -> bool {
    match step {
        Step::Call(_, UnbindingSurface::Flushing { .. }) => context == before,
        Step::Call(_, UnbindingSurface::Releasing { surface: held }) => held == surface && context
            == before.unbound(),
        Step::Done(result) => result == Ok::<Option<Surface>, Error>(Some(surface)) && context
            == before.unbound(),
    }
}

proof fn lemma_detaching_run(
    before: ContextView,
    surface: Surface,
    context: ContextView,
    step: UnbindStep,
    replies: Seq<NativeReply>,
)
    requires
        before.attached() == Some(surface),
        detaching(before, surface, context, step),
    ensures
        detaching(
            before,
            surface,
            UnbindingSurface::spec_run(context, step, replies).0,
            UnbindingSurface::spec_run(context, step, replies).1,
        ),
    decreases replies.len(),
{
    if let Step::Call(_, state) = step {
        if replies.len() > 0 && !state.spec_aborts_on(replies[0]) {
            let (next_context, next_step) = state.spec_resume(context, replies[0]);
            lemma_detaching_run(before, surface, next_context, next_step, replies.drop_first());
        }
    }
}

/// What detaching comes to. Whatever the native API answers, a detachment that
/// runs to its end hands over the surface that was attached and leaves the
/// context with nothing attached; with nothing attached it yields nothing, and on
/// a context that renders to external surfaces it fails. In the last two cases
/// the context is as before.
pub proof fn lemma_unbind_outcome(device: &Device, context: ContextView, replies: Seq<NativeReply>)
    ensures
        ({
            let (after, step) = UnbindingSurface::spec_run(
                context,
                UnbindingSurface::spec_start(device, context),
                replies,
            );
            step matches Step::Done(result) ==> (after, result) == UnbindingSurface::spec_outcome(
                context,
            )
        }),
{
    if let Framebuffer::Surface(surface) = context.framebuffer {
        lemma_detaching_run(
            context,
            surface,
            context,
            UnbindingSurface::spec_start(device, context),
            replies,
        );
    }
}

/// Detaching and attaching again restores the context. From a well-formed
/// context that holds a surface, a detachment that runs to its end hands that
/// surface over, and an attachment of it that runs to its end succeeds and
/// leaves the context exactly as it was at first, whatever the native API
/// answers to either.
pub proof fn lemma_unbind_then_bind_restores(
    device: &Device,
    context: ContextView,
    surface: Surface,
    unbind_replies: Seq<NativeReply>,
    bind_replies: Seq<NativeReply>,
)
    requires
        context.well_formed(),
        context.attached() == Some(surface),
    ensures
        ({
            let (unbound, unbinding) = UnbindingSurface::spec_run(
                context,
                UnbindingSurface::spec_start(device, context),
                unbind_replies,
            );
            let (rebound, binding) = BindingSurface::spec_run(
                device,
                unbound,
                BindingSurface::spec_start(device, unbound, surface),
                bind_replies,
            );
            unbinding matches Step::Done(handed) ==> {
                &&& handed == Ok::<Option<Surface>, Error>(Some(surface))
                &&& binding matches Step::Done(result) ==> result is Ok && rebound == context
            }
        }),
{
    lemma_unbind_outcome(device, context, unbind_replies);
    let (unbound, unbinding) = UnbindingSurface::spec_run(
        context,
        UnbindingSurface::spec_start(device, context),
        unbind_replies,
    );
    if unbinding is Done {
        lemma_bind_outcome(device, unbound, surface, bind_replies);
    }
}

/// A context that renders to external surfaces takes no surface, gives none
/// up, and has none to describe: attaching a surface of its own, detaching,
/// and asking for the surface's description all fail with
/// `ExternalRenderTarget`, at once and without a native call.
pub proof fn lemma_external_render_target(device: &Device, context: ContextView, surface: Surface)
    requires
        context.framebuffer is External,
        surface.context_id == context.id,
    ensures
        BindingSurface::spec_start(device, context, surface) == BindStep::Done(
            Err((Error::ExternalRenderTarget, surface)),
        ),
        UnbindingSurface::spec_start(device, context) == UnbindStep::Done(
            Err(Error::ExternalRenderTarget),
        ),
        Device::spec_context_surface_info(context) == Err::<Option<SurfaceInfo>, Error>(
            Error::ExternalRenderTarget,
        ),
{
}

/// A context that renders to external surfaces stays so: no step of an
/// attachment, a detachment or a destruction changes what it renders to.
pub proof fn lemma_external_is_terminal(
    device: &Device,
    context: ContextView,
    binding: BindingSurface,
    unbinding: UnbindingSurface,
    destroying: DestroyingContext,
    reply: NativeReply,
)
    requires
        context.framebuffer is External,
    ensures
        binding.spec_resume(device, context, reply).0 == context,
        unbinding.spec_resume(context, reply).0 == context,
        destroying.spec_resume(device, context, reply).0.framebuffer == context.framebuffer,
{
}

/// Where the destruction of a context that is not yet destroyed can stand: the
/// surface is attached until the commands are flushed and gone from then on,
/// and the native handle is the sentinel once the destruction is over. The
/// destruction cannot fail.
spec fn destroying(before: ContextView, context: ContextView, step: DestroyStep) -> bool {
    match step {
        Step::Call(
            _,
            DestroyingContext::Unbinding { unbinding: UnbindingSurface::Flushing { .. } },
        ) => context == before,
        Step::Call(_, _) => context == before.detached(),
        Step::Done(result) => result is Ok && context == before.detached().destroyed(),
    }
}

proof fn lemma_destroying_run(
    device: &Device,
    before: ContextView,
    context: ContextView,
    step: DestroyStep,
    replies: Seq<NativeReply>,
)
    requires
        destroying(before, context, step),
    ensures
        destroying(
            before,
            DestroyingContext::spec_run(device, context, step, replies).0,
            DestroyingContext::spec_run(device, context, step, replies).1,
        ),
    decreases replies.len(),
{
    if let Step::Call(_, state) = step {
        if replies.len() > 0 && !state.spec_aborts_on(replies[0]) {
            let (next_context, next_step) = state.spec_resume(device, context, replies[0]);
            lemma_destroying_run(device, before, next_context, next_step, replies.drop_first());
        }
    }
}

/// What destroying a context comes to. Whatever the native API answers, a
/// destruction that runs to its end succeeds and leaves the context destroyed:
/// a context that was destroyed before is as it was, and any other is without
/// its surface and has the sentinel for a native handle.
pub proof fn lemma_destroy_outcome(device: &Device, context: ContextView, replies: Seq<NativeReply>)
    ensures
        ({
            let (after, step) = DestroyingContext::spec_run(
                device,
                context,
                DestroyingContext::spec_start(device, context),
                replies,
            );
            step matches Step::Done(result) ==> {
                &&& result is Ok
                &&& after == DestroyingContext::spec_outcome(context)
                &&& after.is_destroyed()
            }
        }),
{
    if !context.is_destroyed() {
        lemma_destroying_run(
            device,
            context,
            context,
            DestroyingContext::spec_start(device, context),
            replies,
        );
    }
}

/// Destroying a context twice is safe. After a destruction that ran to its
/// end, a second one is over at once: it succeeds, names no native call, and
/// would leave the context as the first left it.
pub proof fn lemma_destroy_is_idempotent(
    device: &Device,
    context: ContextView,
    replies: Seq<NativeReply>,
)
    ensures
        ({
            let (after, step) = DestroyingContext::spec_run(
                device,
                context,
                DestroyingContext::spec_start(device, context),
                replies,
            );
            step is Done ==> {
                &&& DestroyingContext::spec_start(device, after) matches Step::Done(result)
                    && result is Ok
                &&& DestroyingContext::spec_outcome(after) == after
            }
        }),
{
    lemma_destroy_outcome(device, context, replies);
}

/// What making a context current for a while comes to. The thread's binding
/// is read first and kept in the guard. If the context becomes current the
/// guard is handed over, and releasing it names the call that restores what
/// it kept. If not, what was current before is restored before the failure is
/// reported as `MakeCurrentFailed`, and the answer to that restoring call does
/// not matter.
pub proof fn lemma_temporarily_current_outcome(
    device: &Device,
    context: ContextView,
    saved: NativeReply,
    entered: NativeReply,
    restored: NativeReply,
)
    ensures
        ({
            let saving = MakingCurrentTemporarily::Saving {
                request: device.spec_make_current_call(context),
            };
            let guard = CurrentContextGuard { old: saved.spec_binding() };
            &&& saving.spec_resume(saved) matches Step::Call(request, entering)
            &&& request == device.spec_make_current_call(context)
            &&& match spec_made_current(entered) {
                Ok(()) => entering.spec_resume(entered) == TemporaryStep::Done(Ok(guard)),
                Err(error) => match guard.spec_release() {
                    Some(restore) => {
                        &&& entering.spec_resume(entered) matches Step::Call(call, restoring)
                        &&& call == restore
                        &&& restoring.spec_resume(restored) == TemporaryStep::Done(Err(error))
                    },
                    None => entering.spec_resume(entered) == TemporaryStep::Done(Err(error)),
                },
            }
        }),
{
}

/// What a call in the scope of a context comes to. The call is made only with
/// the context current, and whatever was current before is current again
/// afterwards: the thread's binding is read, the context made current, the call
/// made unless that failed, and the binding restored if there was one.
pub proof fn lemma_scoped_call_outcome(
    device: &Device,
    context: ContextView,
    body: NativeCall,
    replies: Seq<NativeReply>,
)
    requires
        replies.len() >= 4,
    ensures
        ScopedCall::spec_run(ScopedCall::spec_start(device, context, body), replies) == (
            ScopedCall::spec_calls(
                device.spec_make_current_call(context),
                body,
                replies[0],
                replies[1],
            ),
            ScopedStep::Done(()),
        ),
{
    let start = ScopedCall::spec_start(device, context, body);
    let expected = ScopedCall::spec_calls(
        device.spec_make_current_call(context),
        body,
        replies[0],
        replies[1],
    );
    let rest1 = replies.drop_first();
    let rest2 = rest1.drop_first();
    let rest3 = rest2.drop_first();
    let rest4 = rest3.drop_first();
    let step1 = start->Call_1.spec_resume(replies[0]);
    let run1 = ScopedCall::spec_run(step1, rest1);
    let step2 = step1->Call_1.spec_resume(rest1[0]);
    let run2 = ScopedCall::spec_run(step2, rest2);
    assert(rest1[0] == replies[1]);
    if let Step::Call(call2, state2) = step2 {
        let step3 = state2.spec_resume(rest2[0]);
        let run3 = ScopedCall::spec_run(step3, rest3);
        if let Step::Call(call3, state3) = step3 {
            let step4 = state3.spec_resume(rest3[0]);
            let run4 = ScopedCall::spec_run(step4, rest4);
            assert(step4 is Done);
            assert(run4.0 =~= Seq::<NativeCall>::empty());
            assert(run3.0 =~= seq![call3]);
        } else {
            assert(run3.0 =~= Seq::<NativeCall>::empty());
        }
        assert(run2.0 =~= seq![call2] + run3.0);
    } else {
        assert(run2.0 =~= Seq::<NativeCall>::empty());
    }
    assert(run1.0 =~= seq![step1->Call_0] + run2.0);
    let run = ScopedCall::spec_run(start, replies);
    assert(run.0 =~= seq![start->Call_0] + run1.0);
    assert(run.0 =~= expected);
    assert(run.1 == ScopedStep::Done(()));
}

/// Making a context current for a while comes to an end: each reply leaves
/// fewer native calls to answer than there were, and there are three at most.
pub proof fn lemma_temporarily_current_progress(state: MakingCurrentTemporarily, reply: NativeReply)
    ensures
        state.spec_resume(reply) matches Step::Call(_, next) ==> next.spec_calls_left()
            < state.spec_calls_left(),
        0 < state.spec_calls_left() <= 3,
{
}

/// A call made with a context current for its sake comes to an end: each reply
/// leaves fewer native calls to answer than there were, and there are four at
/// most.
pub proof fn lemma_scoped_call_progress(state: ScopedCall, reply: NativeReply)
    ensures
        state.spec_resume(reply) matches Step::Call(_, next) ==> next.spec_calls_left()
            < state.spec_calls_left(),
        0 < state.spec_calls_left() <= 4,
{
}

/// An attachment comes to an end: each reply leaves fewer native calls to
/// answer than there were, and there are seven at most.
pub proof fn lemma_bind_progress(
    device: &Device,
    context: ContextView,
    surface: Surface,
    state: BindingSurface,
    reply: NativeReply,
)
    ensures
        state.spec_resume(device, context, reply).1 matches Step::Call(_, next)
            ==> next.spec_calls_left() < state.spec_calls_left(),
        0 < state.spec_calls_left(),
        BindingSurface::spec_start(device, context, surface) matches Step::Call(_, first)
            ==> first.spec_calls_left() <= 7,
{
    if let BindingSurface::Finishing { scoped, .. } = state {
        lemma_scoped_call_progress(scoped, reply);
    }
}

/// A detachment comes to an end: each reply leaves fewer native calls to
/// answer than there were, and there are five at most.
pub proof fn lemma_unbind_progress(
    device: &Device,
    context: ContextView,
    state: UnbindingSurface,
    reply: NativeReply,
)
    ensures
        state.spec_resume(context, reply).1 matches Step::Call(_, next) ==> next.spec_calls_left()
            < state.spec_calls_left(),
        0 < state.spec_calls_left(),
        UnbindingSurface::spec_start(device, context) matches Step::Call(_, first)
            ==> first.spec_calls_left() <= 5,
{
    if let UnbindingSurface::Flushing { scoped } = state {
        lemma_scoped_call_progress(scoped, reply);
    }
}

/// A destruction comes to an end: each reply leaves fewer native calls to
/// answer than there were, and there are eight at most.
pub proof fn lemma_destroy_progress(
    device: &Device,
    context: ContextView,
    state: DestroyingContext,
    reply: NativeReply,
)
    ensures
        state.spec_resume(device, context, reply).1 matches Step::Call(_, next)
            ==> next.spec_calls_left() < state.spec_calls_left(),
        0 < state.spec_calls_left(),
        DestroyingContext::spec_start(device, context) matches Step::Call(_, first)
            ==> first.spec_calls_left() <= 8,
{
    if let DestroyingContext::Unbinding { unbinding } = state {
        lemma_unbind_progress(device, context, unbinding, reply);
    }
}

/// What allocating renderbuffers comes to. With both depth and stencil
/// requested, one renderbuffer is generated and given combined storage of the
/// surface's size. With one of the two requested, one renderbuffer is generated
/// and given storage for that one. The binding point is cleared last. The set
/// holds the generated name in the matching place and the null name elsewhere;
/// with nothing requested it holds null names only and nothing is generated.
pub proof fn lemma_allocation_outcome(
    size: Size2D,
    flags: ContextAttributeFlags,
    replies: Seq<NativeReply>,
)
    requires
        replies.len() >= 4,
    ensures
        AllocatingRenderbuffers::spec_run(Renderbuffers::spec_new(size, flags), replies) == (
            Renderbuffers::spec_allocation_calls(size, flags, replies[0].spec_name()),
            AllocationStep::Done(Renderbuffers::spec_allocated(flags, replies[0].spec_name())),
        ),
{
    let start = Renderbuffers::spec_new(size, flags);
    let (calls, step) = AllocatingRenderbuffers::spec_run(start, replies);
    let name = replies[0].spec_name();
    let unbind = seq![NativeCall::BindRenderbuffer { target: gl::RENDERBUFFER, renderbuffer: 0 }];
    let rest1 = replies.drop_first();
    let rest2 = rest1.drop_first();
    let rest3 = rest2.drop_first();
    let rest4 = rest3.drop_first();
    let step1 = start->Call_1.spec_resume(replies[0]);
    let run1 = AllocatingRenderbuffers::spec_run(step1, rest1);
    if Renderbuffers::spec_attachment(flags) is Some {
        let step2 = step1->Call_1.spec_resume(rest1[0]);
        let run2 = AllocatingRenderbuffers::spec_run(step2, rest2);
        let step3 = step2->Call_1.spec_resume(rest2[0]);
        let run3 = AllocatingRenderbuffers::spec_run(step3, rest3);
        let step4 = step3->Call_1.spec_resume(rest3[0]);
        let run4 = AllocatingRenderbuffers::spec_run(step4, rest4);
        assert(step4 is Done);
        assert(run4.0 =~= Seq::<NativeCall>::empty());
        assert(run3.0 =~= unbind);
        assert(run2.0 =~= seq![step2->Call_0] + unbind);
        assert(run1.0 =~= seq![step1->Call_0, step2->Call_0] + unbind);
        assert(calls =~= seq![start->Call_0, step1->Call_0, step2->Call_0] + unbind);
        assert(calls =~= Renderbuffers::spec_allocation_calls(size, flags, name));
    } else {
        assert(step1 is Done);
        assert(run1.0 =~= Seq::<NativeCall>::empty());
        assert(calls =~= Renderbuffers::spec_allocation_calls(size, flags, name));
    }
}

/// Destroying a set of renderbuffers twice is safe, and so is using a set that
/// holds nothing: once a set is destroyed or leaked, destroying it releases
/// nothing and only clears the binding point, and attaching it attaches nothing.
pub proof fn lemma_cleared_renderbuffers_are_inert(renderbuffers: Renderbuffers)
    ensures
        renderbuffers.spec_cleared().spec_is_destroyed(),
        renderbuffers.spec_cleared().spec_cleared() == renderbuffers.spec_cleared(),
        renderbuffers.spec_cleared().spec_destroy_calls() == seq![
            NativeCall::BindRenderbuffer { target: gl::RENDERBUFFER, renderbuffer: 0 },
        ],
        renderbuffers.spec_cleared().spec_attach_calls() == Seq::<NativeCall>::empty(),
{
    let cleared = renderbuffers.spec_cleared();
    assert(cleared.spec_destroy_calls() =~= seq![
        NativeCall::BindRenderbuffer { target: gl::RENDERBUFFER, renderbuffer: 0 },
    ]);
    assert(cleared.spec_attach_calls() =~= Seq::<NativeCall>::empty());
}

} // verus!
