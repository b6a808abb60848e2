//! Creating and destroying contexts, and resolving the descriptors they are
//! created from.

use crate::binding::{UnbindStep, UnbindingSurface};
use crate::context::{
    lemma_contains, ContextAttributeFlags, ContextAttributes, ContextDescriptor, ContextID,
    ContextIdAllocator, GLVersion,
};
use crate::current::{made_current, spec_made_current};
use crate::device::{Context, ContextView, Device};
use crate::egl;
use crate::egl::{EGLContext, EGLint};
use crate::error::Error;
use crate::native::{NativeCall, NativeReply, Step};
use crate::surface::{Framebuffer, Surface};
use vstd::prelude::*;

verus! {

/// Where the creation of a context stands, or how it ended.
pub type CreateStep = Step<CreatingContext, Result<Context, Error>>;

/// A step of a creation, with what the context holds in place of the context.
pub type CreateStepView = Step<CreatingContext, Result<ContextView, Error>>;

/// Where the destruction of a context stands, or how it ended.
pub type DestroyStep = Step<DestroyingContext, Result<(), Error>>;

/// The creation of a context that is under way.
#[derive(Clone, Copy, PartialEq, Eq, Debug, Structural)]
pub enum CreatingContext {
    /// The native context is being created.
    Creating,
    /// The new native context is being made current, with no surface.
    MakingCurrent { egl_context: EGLContext },
}

/// The destruction of a context that is under way.
#[derive(PartialEq, Eq, Debug, Structural)]
pub enum DestroyingContext {
    /// The attached surface is being detached.
    Unbinding { unbinding: UnbindingSurface },
    /// The surface that was attached is being destroyed.
    DestroyingSurface,
    /// The thread is being left without a current context.
    ClearingCurrent,
    /// The native context is being destroyed.
    DestroyingNative,
}

/// The attribute list that selects a native configuration: eight bits for each
/// color channel, the sizes that `flags` asks for, a buffer that can be bound
/// to a texture, off-screen surfaces, and an OpenGL ES 2 renderer.
pub open spec fn spec_config_attributes(flags: ContextAttributeFlags) -> Seq<EGLint> {
    seq![
        egl::RED_SIZE,
        8,
        egl::GREEN_SIZE,
        8,
        egl::BLUE_SIZE,
        8,
        egl::ALPHA_SIZE,
        if flags.has_alpha() {
            8
        } else {
            0
        },
        egl::DEPTH_SIZE,
        if flags.has_depth() {
            24
        } else {
            0
        },
        egl::STENCIL_SIZE,
        if flags.has_stencil() {
            8
        } else {
            0
        },
        egl::BIND_TO_TEXTURE_RGBA,
        1,
        egl::SURFACE_TYPE,
        egl::PBUFFER_BIT,
        egl::RENDERABLE_TYPE,
        egl::OPENGL_ES2_BIT,
        egl::NONE,
        0,
        0,
        0,
    ]
}

/// The descriptor that resolving `attributes` yields when the native API
/// answers with `config`, the identity of the first matching configuration.
pub open spec fn spec_descriptor(
    attributes: ContextAttributes,
    config: Option<EGLint>,
) -> Result<ContextDescriptor, Error> {
    match config {
        Some(egl_config_id) => Ok(
            ContextDescriptor {
                egl_config_id,
                gl_version: attributes.version,
                compatibility_profile: attributes.flags.has_compatibility_profile(),
            },
        ),
        None => Err(Error::NoAvailablePixelFormat),
    }
}

impl CreatingContext {
    /// The first step of creating a context that shares objects with the native
    /// context `share_with`, or with none where that is the sentinel.
    pub open spec fn spec_start(
        device: &Device,
        descriptor: ContextDescriptor,
        share_with: EGLContext,
    ) -> CreateStepView {
        Step::Call(
            NativeCall::CreateContext { display: device.display(), descriptor, share_with },
            CreatingContext::Creating,
        )
    }

    /// The creation after the pending call was answered with `reply`, where `id`
    /// is the identity that the next context gets.
    pub open spec fn spec_resume(
        self,
        device: &Device,
        id: ContextID,
        reply: NativeReply,
    ) -> CreateStepView {
        match self {
            CreatingContext::Creating => match reply.spec_created() {
                Ok(egl_context) => Step::Call(
                    NativeCall::MakeCurrent {
                        display: device.display(),
                        draw: egl::NO_SURFACE,
                        read: egl::NO_SURFACE,
                        context: egl_context,
                    },
                    CreatingContext::MakingCurrent { egl_context },
                ),
                Err(error) => Step::Done(Err(Error::ContextCreationFailed(error))),
            },
            CreatingContext::MakingCurrent { egl_context } => match spec_made_current(reply) {
                Ok(()) => Step::Done(
                    Ok(
                        ContextView {
                            egl_context,
                            id,
                            framebuffer: Framebuffer::Unbound,
                            context_is_owned: true,
                        },
                    ),
                ),
                Err(error) => Step::Done(Err(error)),
            },
        }
    }

    /// What a creation comes to in the end, where `created` answers the creation
    /// of the native context and `current` the request to make it current: the
    /// native error of the one that failed, or else a context that is owned by
    /// the library, has nothing attached, and has the native handle that was
    /// created and the identity `id`.
    pub open spec fn spec_outcome(
        id: ContextID,
        created: NativeReply,
        current: NativeReply,
    ) -> Result<ContextView, Error> {
        match created.spec_created() {
            Err(error) => Err(Error::ContextCreationFailed(error)),
            Ok(egl_context) => match spec_made_current(current) {
                Err(error) => Err(error),
                Ok(()) => Ok(
                    ContextView {
                        egl_context,
                        id,
                        framebuffer: Framebuffer::Unbound,
                        context_is_owned: true,
                    },
                ),
            },
        }
    }

    /// A step of a creation, with what the context holds in place of the context.
    pub open spec fn spec_view(step: CreateStep) -> CreateStepView {
        match step {
            Step::Call(call, state) => Step::Call(call, state),
            Step::Done(Ok(context)) => Step::Done(Ok(context@)),
            Step::Done(Err(error)) => Step::Done(Err(error)),
        }
    }

    /// Takes the reply to the pending call.
    ///
    /// A native context that could not be created ends the operation with
    /// `ContextCreationFailed`. A new native context is made current on the
    /// calling thread with no surface; if that fails the operation ends with
    /// `MakeCurrentFailed`, and otherwise with a context that has the next
    /// identity of `allocator` and nothing attached. The allocator moves on
    /// only when a context is handed over.
    pub fn resume(
        self,
        device: &Device,
        allocator: &mut ContextIdAllocator,
        reply: NativeReply,
    ) -> (step: CreateStep)
        requires
            self.spec_resume(device, old(allocator).next_id(), reply) matches Step::Done(Ok(_))
                ==> !old(allocator).spec_is_exhausted(),
        ensures
            CreatingContext::spec_view(step) == self.spec_resume(
                device,
                old(allocator).next_id(),
                reply,
            ),
            step matches Step::Done(Ok(context)) ==> context@.well_formed(),
            final(allocator).next_id() == (if step matches Step::Done(Ok(_)) {
                ContextID((old(allocator).next_id().0 + 1) as u64)
            } else {
                old(allocator).next_id()
            }),
    {
        match self {
            CreatingContext::Creating => match reply.created() {
                Ok(egl_context) => Step::Call(
                    NativeCall::MakeCurrent {
                        display: device.egl_display(),
                        draw: egl::NO_SURFACE,
                        read: egl::NO_SURFACE,
                        context: egl_context,
                    },
                    CreatingContext::MakingCurrent { egl_context },
                ),
                Err(error) => Step::Done(Err(Error::ContextCreationFailed(error))),
            },
            CreatingContext::MakingCurrent { egl_context } => match made_current(reply) {
                Ok(()) => {
                    let id = allocator.allocate();
                    Step::Done(Ok(Context::new_owned(egl_context, id)))
                },
                Err(error) => Step::Done(Err(error)),
            },
        }
    }
}

impl DestroyingContext {
    /// What follows a step of detaching the surface: once the surface is out, it
    /// is destroyed if it belongs to the context, and the thread is left without
    /// a current context.
    pub open spec fn spec_unbinding(
        device: &Device,
        context: ContextView,
        step: UnbindStep,
    ) -> DestroyStep {
        match step {
            Step::Call(call, unbinding) => Step::Call(
                call,
                DestroyingContext::Unbinding { unbinding },
            ),
            Step::Done(Ok(Some(surface))) => if surface.context_id == context.id {
                Step::Call(
                    NativeCall::DestroySurface {
                        display: device.display(),
                        surface: surface.egl_surface,
                    },
                    DestroyingContext::DestroyingSurface,
                )
            } else {
                Step::Call(device.spec_make_none_current_call(), DestroyingContext::ClearingCurrent)
            },
            Step::Done(_) => Step::Call(
                device.spec_make_none_current_call(),
                DestroyingContext::ClearingCurrent,
            ),
        }
    }

    /// The first step of destroying `context`.
    pub open spec fn spec_start(device: &Device, context: ContextView) -> DestroyStep {
        if context.is_destroyed() {
            Step::Done(Ok(()))
        } else {
            DestroyingContext::spec_unbinding(
                device,
                context,
                UnbindingSurface::spec_start(device, context),
            )
        }
    }

    /// The context and the operation after the pending call was answered with
    /// `reply`.
    pub open spec fn spec_resume(
        self,
        device: &Device,
        context: ContextView,
        reply: NativeReply,
    ) -> (ContextView, DestroyStep) {
        match self {
            DestroyingContext::Unbinding { unbinding } => {
                let (context, step) = unbinding.spec_resume(context, reply);
                (context, DestroyingContext::spec_unbinding(device, context, step))
            },
            DestroyingContext::DestroyingSurface => (
                context,
                Step::Call(
                    device.spec_make_none_current_call(),
                    DestroyingContext::ClearingCurrent,
                ),
            ),
            DestroyingContext::ClearingCurrent => if context.context_is_owned {
                (
                    context,
                    Step::Call(
                        NativeCall::DestroyContext {
                            display: device.display(),
                            context: context.egl_context,
                        },
                        DestroyingContext::DestroyingNative,
                    ),
                )
            } else {
                (context.destroyed(), Step::Done(Ok(())))
            },
            DestroyingContext::DestroyingNative => (context.destroyed(), Step::Done(Ok(()))),
        }
    }

    /// What a destruction comes to in the end: a context that was destroyed
    /// before is as it was, and any other is without its surface and has the
    /// sentinel for a native handle. Identity, external surfaces and ownership
    /// stay.
    pub open spec fn spec_outcome(context: ContextView) -> ContextView {
        if context.is_destroyed() {
            context
        } else {
            context.detached().destroyed()
        }
    }

    /// The context and the operation after the pending calls were answered with
    /// `replies`, one after the other. The run stops where the operation is
    /// over, where the replies end, and at a reply that stops the process.
    pub open spec fn spec_run(
        device: &Device,
        context: ContextView,
        step: DestroyStep,
        replies: Seq<NativeReply>,
    ) -> (ContextView, DestroyStep)
        decreases replies.len(),
    {
        match step {
            Step::Call(_, state) => if replies.len() == 0 || state.spec_aborts_on(replies[0]) {
                (context, step)
            } else {
                let (context, step) = state.spec_resume(device, context, replies[0]);
                DestroyingContext::spec_run(device, context, step, replies.drop_first())
            },
            Step::Done(_) => (context, step),
        }
    }

    /// An upper bound on the number of native calls that are still to be answered.
    pub open spec fn spec_calls_left(&self) -> nat {
        match *self {
            DestroyingContext::Unbinding { unbinding } => unbinding.spec_calls_left() + 3,
            DestroyingContext::DestroyingSurface => 3,
            DestroyingContext::ClearingCurrent => 2,
            DestroyingContext::DestroyingNative => 1,
        }
    }

    /// Whether `reply` reports a failure from which there is no recovery: the
    /// keyed mutex of the surface could not be released, or the native context
    /// could not be destroyed. The process must stop instead of resuming.
    pub open spec fn spec_aborts_on(&self, reply: NativeReply) -> bool {
        match *self {
            DestroyingContext::Unbinding { unbinding } => unbinding.spec_aborts_on(reply),
            DestroyingContext::DestroyingNative => reply.spec_status() is Err,
            _ => false,
        }
    }

    #[verifier::when_used_as_spec(spec_aborts_on)]
    pub fn aborts_on(&self, reply: NativeReply) -> (aborts: bool)
        ensures
            aborts == self.spec_aborts_on(reply),
    {
        match self {
            DestroyingContext::Unbinding { unbinding } => unbinding.aborts_on(reply),
            DestroyingContext::DestroyingNative => reply.status().is_err(),
            _ => false,
        }
    }

    fn unbinding(device: &Device, context: &Context, step: UnbindStep) -> (next: DestroyStep)
        ensures
            next == DestroyingContext::spec_unbinding(device, context@, step),
    {
        match step {
            Step::Call(call, unbinding) => Step::Call(
                call,
                DestroyingContext::Unbinding { unbinding },
            ),
            Step::Done(Ok(Some(surface))) => {
                let mut surface = surface;
                // A surface that cannot be destroyed does not keep the context alive.
                match device.destroy_surface(context, &mut surface) {
                    Ok(call) => Step::Call(call, DestroyingContext::DestroyingSurface),
                    Err(_) => Step::Call(
                        device.make_none_current_call(),
                        DestroyingContext::ClearingCurrent,
                    ),
                }
            },
            Step::Done(_) => Step::Call(
                device.make_none_current_call(),
                DestroyingContext::ClearingCurrent,
            ),
        }
    }

    /// Takes the reply to the pending call.
    ///
    /// The surface that was attached is destroyed, the thread is left without a
    /// current context, and the native context is destroyed if this library
    /// created it. Whether the surface could be destroyed and whether the
    /// thread's context could be cleared does not matter: destruction goes on.
    /// It ends with the native handle set to the sentinel.
    pub fn resume(self, device: &Device, context: &mut Context, reply: NativeReply) -> (step:
        DestroyStep)
        requires
            !self.spec_aborts_on(reply),
        ensures
            (final(context)@, step) == self.spec_resume(device, old(context)@, reply),
            final(context)@.well_formed(),
    {
        proof {
            use_type_invariant(&*context);
        }
        match self {
            DestroyingContext::Unbinding { unbinding } => {
                let step = unbinding.resume(context, reply);
                DestroyingContext::unbinding(device, context, step)
            },
            DestroyingContext::DestroyingSurface => Step::Call(
                device.make_none_current_call(),
                DestroyingContext::ClearingCurrent,
            ),
            DestroyingContext::ClearingCurrent => {
                if context.is_owned() {
                    Step::Call(
                        NativeCall::DestroyContext {
                            display: device.egl_display(),
                            context: context.handle(),
                        },
                        DestroyingContext::DestroyingNative,
                    )
                } else {
                    context.mark_destroyed();
                    Step::Done(Ok(()))
                }
            },
            DestroyingContext::DestroyingNative => {
                context.mark_destroyed();
                Step::Done(Ok(()))
            },
        }
    }
}

impl Device {
    /// The attribute list with which the native API is asked for a configuration
    /// that offers what `attributes` requests.
    pub fn config_attributes(&self, attributes: &ContextAttributes) -> (list: Vec<EGLint>)
        ensures
            list@ == spec_config_attributes(attributes.flags),
    {
        let flags = attributes.flags;
        proof {
            lemma_contains(flags);
        }
        let alpha_size: EGLint = if flags.contains(ContextAttributeFlags::alpha()) {
            8
        } else {
            0
        };
        let depth_size: EGLint = if flags.contains(ContextAttributeFlags::depth()) {
            24
        } else {
            0
        };
        let stencil_size: EGLint = if flags.contains(ContextAttributeFlags::stencil()) {
            8
        } else {
            0
        };
        let list = vec![
            egl::RED_SIZE,
            8,
            egl::GREEN_SIZE,
            8,
            egl::BLUE_SIZE,
            8,
            egl::ALPHA_SIZE,
            alpha_size,
            egl::DEPTH_SIZE,
            depth_size,
            egl::STENCIL_SIZE,
            stencil_size,
            egl::BIND_TO_TEXTURE_RGBA,
            1,
            egl::SURFACE_TYPE,
            egl::PBUFFER_BIT,
            egl::RENDERABLE_TYPE,
            egl::OPENGL_ES2_BIT,
            egl::NONE,
            0,
            0,
            0,
        ];
        assert(list@ =~= spec_config_attributes(attributes.flags));
        list
    }

    /// Resolves `attributes` into a descriptor, given the identity of the first
    /// native configuration that matches the list of `config_attributes`.
    /// Without a match there is no pixel format to describe.
    pub fn create_context_descriptor(
        &self,
        attributes: &ContextAttributes,
        config: Option<EGLint>,
    ) -> (result: Result<ContextDescriptor, Error>)
        ensures
            result == spec_descriptor(*attributes, config),
    {
        proof {
            lemma_contains(attributes.flags);
        }
        match config {
            Some(egl_config_id) => Ok(
                ContextDescriptor {
                    egl_config_id,
                    gl_version: attributes.version,
                    compatibility_profile: attributes.flags.contains(
                        ContextAttributeFlags::compatibility_profile(),
                    ),
                },
            ),
            None => Err(Error::NoAvailablePixelFormat),
        }
    }

    /// Starts the creation of a context of the described format. Its objects are
    /// shared with `share_with`, if one is given.
    ///
    /// Identities are unique in the whole process, so the caller holds the lock
    /// of the one allocator from here until the operation is over.
    pub fn create_context(
        &mut self,
        descriptor: &ContextDescriptor,
        share_with: Option<&Context>,
    ) -> (step: CreateStep)
        ensures
            CreatingContext::spec_view(step) == CreatingContext::spec_start(
                old(self),
                *descriptor,
                match share_with {
                    Some(context) => context@.egl_context,
                    None => egl::NO_CONTEXT,
                },
            ),
            *final(self) == *old(self),
    {
        let share_with = match share_with {
            Some(context) => context.handle(),
            None => egl::NO_CONTEXT,
        };
        Step::Call(
            NativeCall::CreateContext {
                display: self.egl_display(),
                descriptor: *descriptor,
                share_with,
            },
            CreatingContext::Creating,
        )
    }

    /// Starts the destruction of `context`. On a context that is already
    /// destroyed there is nothing to do: the operation is over at once and the
    /// context stays as it is. Otherwise the attached surface, if there is one,
    /// is detached first. The context does not change before the operation is
    /// resumed.
    pub fn destroy_context(&self, context: &mut Context) -> (step: DestroyStep)
        ensures
            step == DestroyingContext::spec_start(self, old(context)@),
            final(context)@ == old(context)@,
            final(context)@.well_formed(),
    {
        proof {
            use_type_invariant(&*context);
        }
        if context.handle() == egl::NO_CONTEXT {
            return Step::Done(Ok(()));
        }
        let step = self.unbind_surface_from_context(context);
        DestroyingContext::unbinding(self, context, step)
    }

    /// Names the call that destroys `surface` and clears its native handle. A
    /// surface that belongs to another context is left alone.
    pub fn destroy_surface(&self, context: &Context, surface: &mut Surface) -> (result:
        Result<NativeCall, Error>)
        ensures
            result == (if old(surface).context_id == context@.id {
                Ok(
                    NativeCall::DestroySurface {
                        display: self.display(),
                        surface: old(surface).egl_surface,
                    },
                )
            } else {
                Err(Error::IncompatibleSurface)
            }),
            *final(surface) == (if result is Ok {
                Surface { egl_surface: egl::NO_SURFACE, ..*old(surface) }
            } else {
                *old(surface)
            }),
    {
        if self.context_id(context).0 != surface.context_id.0 {
            return Err(Error::IncompatibleSurface);
        }
        let call = NativeCall::DestroySurface {
            display: self.egl_display(),
            surface: surface.egl_surface,
        };
        surface.egl_surface = egl::NO_SURFACE;
        Ok(call)
    }

    /// The descriptor of the format that `context` was created with, from what
    /// the native API reports of the context.
    pub fn context_descriptor(
        &self,
        context: &Context,
        egl_config_id: EGLint,
        gl_version: GLVersion,
        compatibility_profile: bool,
    ) -> (descriptor: ContextDescriptor)
        ensures
            descriptor == (ContextDescriptor { egl_config_id, gl_version, compatibility_profile }),
    {
        ContextDescriptor { egl_config_id, gl_version, compatibility_profile }
    }

    /// The attributes that a descriptor stands for, from the channel sizes that
    /// the native API reports of its configuration: a capability is present
    /// where the size is not zero.
    pub fn context_descriptor_attributes(
        &self,
        context_descriptor: &ContextDescriptor,
        alpha_size: EGLint,
        depth_size: EGLint,
        stencil_size: EGLint,
    ) -> (attributes: ContextAttributes)
        ensures
            attributes == (ContextAttributes {
                version: context_descriptor.gl_version,
                flags: ContextAttributeFlags::spec_of(
                    alpha_size != 0,
                    depth_size != 0,
                    stencil_size != 0,
                    context_descriptor.compatibility_profile,
                ),
            }),
            attributes.flags.has_alpha() == (alpha_size != 0),
            attributes.flags.has_depth() == (depth_size != 0),
            attributes.flags.has_stencil() == (stencil_size != 0),
            attributes.flags.has_compatibility_profile()
                == context_descriptor.compatibility_profile,
    {
        ContextAttributes {
            version: context_descriptor.gl_version,
            flags: ContextAttributeFlags::of(
                alpha_size != 0,
                depth_size != 0,
                stencil_size != 0,
                context_descriptor.compatibility_profile,
            ),
        }
    }
}

} // verus!
