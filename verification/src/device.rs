//! Contexts, and the device that creates them, destroys them and attaches surfaces to them.

use crate::context::{ContextID, ContextIdAllocator};
use crate::egl;
use crate::egl::{EGLContext, EGLDisplay, EGLSurface};
use crate::error::Error;
use crate::native::NativeCall;
use crate::surface::{ExternalEGLSurfaces, Framebuffer, Surface, SurfaceID, SurfaceInfo};
use vstd::prelude::*;

verus! {

/// A connection to a display, through which contexts are managed.
#[derive(Debug)]
pub struct Device {
    egl_display: EGLDisplay,
}

/// A rendering context.
///
/// A context is created with nothing attached. It takes ownership of the surface
/// that is attached to it and gives it back when the surface is detached. A context
/// must be destroyed with `destroy_context` before it is dropped.
#[derive(Debug)]
pub struct Context {
    egl_context: EGLContext,
    id: ContextID,
    framebuffer: Framebuffer<Surface, ExternalEGLSurfaces>,
    context_is_owned: bool,
}

/// What a context holds.
pub struct ContextView {
    /// The native handle; the "no context" sentinel once the context is destroyed.
    pub egl_context: EGLContext,
    pub id: ContextID,
    pub framebuffer: Framebuffer<Surface, ExternalEGLSurfaces>,
    /// Whether the native context was created by this library, which then
    /// destroys it; a wrapped context is left to its owner.
    pub context_is_owned: bool,
}

/// A native context with the surfaces it draws to and reads from.
#[derive(Clone, Copy, PartialEq, Eq, Debug, Structural)]
pub struct NativeContext {
    pub egl_context: EGLContext,
    pub egl_draw_surface: EGLSurface,
    pub egl_read_surface: EGLSurface,
}

impl ContextView {
    /// An attached surface belongs to the context, and exactly the contexts that
    /// wrap a foreign native context render to external surfaces.
    pub open spec fn well_formed(self) -> bool {
        &&& self.framebuffer matches Framebuffer::Surface(surface) ==> surface.context_id == self.id
        &&& self.context_is_owned <==> !(self.framebuffer is External)
    }

    /// The surfaces that the native API is given when the context is made current.
    pub open spec fn surfaces(self) -> (EGLSurface, EGLSurface) {
        match self.framebuffer {
            Framebuffer::Surface(surface) => (surface.egl_surface, surface.egl_surface),
            Framebuffer::Unbound => (egl::NO_SURFACE, egl::NO_SURFACE),
            Framebuffer::External(surfaces) => (surfaces.draw, surfaces.read),
        }
    }

    /// Whether the context has been destroyed.
    pub open spec fn is_destroyed(self) -> bool {
        self.egl_context == egl::NO_CONTEXT
    }

    /// The surface that is attached, if one is.
    pub open spec fn attached(self) -> Option<Surface> {
        match self.framebuffer {
            Framebuffer::Surface(surface) => Some(surface),
            _ => None,
        }
    }

    /// Why `surface` cannot be attached, if it cannot: it belongs to another
    /// context, or else the context renders to external surfaces or already has a
    /// surface.
    pub open spec fn rejection(self, surface: Surface) -> Option<Error> {
        if surface.context_id != self.id {
            Some(Error::IncompatibleSurface)
        } else {
            match self.framebuffer {
                Framebuffer::Unbound => None,
                Framebuffer::External(_) => Some(Error::ExternalRenderTarget),
                Framebuffer::Surface(_) => Some(Error::SurfaceAlreadyBound),
            }
        }
    }

    /// The context with `surface` attached.
    pub open spec fn bound(self, surface: Surface) -> ContextView {
        ContextView { framebuffer: Framebuffer::Surface(surface), ..self }
    }

    /// The context with nothing attached.
    pub open spec fn unbound(self) -> ContextView {
        ContextView { framebuffer: Framebuffer::Unbound, ..self }
    }

    /// The context without the surface it may hold: external surfaces stay.
    pub open spec fn detached(self) -> ContextView {
        if self.framebuffer is Surface {
            self.unbound()
        } else {
            self
        }
    }

    /// The context after its destruction: the native handle is the sentinel.
    pub open spec fn destroyed(self) -> ContextView {
        ContextView { egl_context: egl::NO_CONTEXT, ..self }
    }
}

impl View for Context {
    type V = ContextView;

    closed spec fn view(&self) -> ContextView {
        ContextView {
            egl_context: self.egl_context,
            id: self.id,
            framebuffer: self.framebuffer,
            context_is_owned: self.context_is_owned,
        }
    }
}

impl Context {
    #[verifier::type_invariant]
    pub(crate) open spec fn holds_together(self) -> bool {
        self@.well_formed()
    }

    /// A context that this library created, with nothing attached.
    pub(crate) fn new_owned(egl_context: EGLContext, id: ContextID) -> (context: Context)
        ensures
            context@ == (ContextView {
                egl_context,
                id,
                framebuffer: Framebuffer::Unbound,
                context_is_owned: true,
            }),
            context@.well_formed(),
    {
        Context { egl_context, id, framebuffer: Framebuffer::Unbound, context_is_owned: true }
    }

    pub(crate) fn handle(&self) -> (egl_context: EGLContext)
        ensures
            egl_context == self@.egl_context,
            self@.well_formed(),
    {
        proof {
            use_type_invariant(self);
        }
        self.egl_context
    }

    pub(crate) fn is_owned(&self) -> (owned: bool)
        ensures
            owned == self@.context_is_owned,
    {
        self.context_is_owned
    }

    /// Why `surface` cannot be attached to the context, if it cannot.
    pub(crate) fn rejection(&self, surface: &Surface) -> (error: Option<Error>)
        ensures
            error == self@.rejection(*surface),
    {
        if self.id.0 != surface.context_id.0 {
            return Some(Error::IncompatibleSurface);
        }
        match &self.framebuffer {
            Framebuffer::Unbound => None,
            Framebuffer::External(_) => Some(Error::ExternalRenderTarget),
            Framebuffer::Surface(_) => Some(Error::SurfaceAlreadyBound),
        }
    }

    pub(crate) fn attach(&mut self, surface: Surface)
        requires
            old(self)@.rejection(surface) is None,
        ensures
            final(self)@ == old(self)@.bound(surface),
            final(self)@.well_formed(),
    {
        proof {
            use_type_invariant(&*self);
        }
        self.framebuffer = Framebuffer::Surface(surface);
    }

    /// Takes the attached surface out of the context, if one is attached.
    pub(crate) fn detach(&mut self) -> (surface: Option<Surface>)
        ensures
            surface == old(self)@.attached(),
            final(self)@ == (if surface is Some {
                old(self)@.unbound()
            } else {
                old(self)@
            }),
            final(self)@.well_formed(),
    {
        proof {
            use_type_invariant(&*self);
        }
        let mut framebuffer = Framebuffer::Unbound;
        if let Framebuffer::Surface(_) = &self.framebuffer {
            core::mem::swap(&mut self.framebuffer, &mut framebuffer);
        }
        match framebuffer {
            Framebuffer::Surface(surface) => Some(surface),
            _ => None,
        }
    }

    pub(crate) fn detachable(&self) -> (result: Result<bool, Error>)
        ensures
            result == (match self@.framebuffer {
                Framebuffer::Unbound => Ok(false),
                Framebuffer::External(_) => Err(Error::ExternalRenderTarget),
                Framebuffer::Surface(_) => Ok(true),
            }),
    {
        match &self.framebuffer {
            Framebuffer::Unbound => Ok(false),
            Framebuffer::External(_) => Err(Error::ExternalRenderTarget),
            Framebuffer::Surface(_) => Ok(true),
        }
    }

    pub(crate) fn mark_destroyed(&mut self)
        ensures
            final(self)@ == old(self)@.destroyed(),
            final(self)@.well_formed(),
    {
        proof {
            use_type_invariant(&*self);
        }
        self.egl_context = egl::NO_CONTEXT;
    }

    /// Whether dropping the context now would leak a native context: it is owned
    /// by this library and has not been destroyed. The owner must treat such a
    /// drop as fatal.
    pub fn leaks_if_dropped(&self) -> (leaks: bool)
        ensures
            leaks == (self@.context_is_owned && !self@.is_destroyed()),
            self@.well_formed(),
    {
        proof {
            use_type_invariant(self);
        }
        self.context_is_owned && self.egl_context != egl::NO_CONTEXT
    }
}

impl Device {
    /// The display that the device is connected to.
    pub closed spec fn display(&self) -> EGLDisplay {
        self.egl_display
    }

    /// A device on the given display.
    pub fn new(egl_display: EGLDisplay) -> (device: Device)
        ensures
            device.display() == egl_display,
    {
        Device { egl_display }
    }

    /// The display that the device is connected to.
    pub fn egl_display(&self) -> (display: EGLDisplay)
        ensures
            display == self.display(),
    {
        self.egl_display
    }

    /// The call that makes a context current with the surfaces it renders to.
    pub open spec fn spec_make_current_call(&self, context: ContextView) -> NativeCall {
        NativeCall::MakeCurrent {
            display: self.display(),
            draw: context.surfaces().0,
            read: context.surfaces().1,
            context: context.egl_context,
        }
    }

    /// The call that leaves the thread without a current context.
    pub open spec fn spec_make_none_current_call(&self) -> NativeCall {
        NativeCall::MakeCurrent {
            display: self.display(),
            draw: egl::NO_SURFACE,
            read: egl::NO_SURFACE,
            context: egl::NO_CONTEXT,
        }
    }

    pub(crate) fn make_current_call(&self, context: &Context) -> (call: NativeCall)
        ensures
            call == self.spec_make_current_call(context@),
    {
        let (draw, read) = match &context.framebuffer {
            Framebuffer::Surface(surface) => (surface.egl_surface, surface.egl_surface),
            Framebuffer::Unbound => (egl::NO_SURFACE, egl::NO_SURFACE),
            Framebuffer::External(surfaces) => (surfaces.draw, surfaces.read),
        };
        NativeCall::MakeCurrent {
            display: self.egl_display,
            draw,
            read,
            context: context.egl_context,
        }
    }

    pub(crate) fn make_none_current_call(&self) -> (call: NativeCall)
        ensures
            call == self.spec_make_none_current_call(),
    {
        NativeCall::MakeCurrent {
            display: self.egl_display,
            draw: egl::NO_SURFACE,
            read: egl::NO_SURFACE,
            context: egl::NO_CONTEXT,
        }
    }

    /// Wraps a native context that someone else created and keeps alive. The
    /// wrapper renders to the surfaces that came with the native context, never
    /// takes a surface of its own, and never destroys the native context.
    pub fn create_context_from_native_context(
        &self,
        allocator: &mut ContextIdAllocator,
        native_context: NativeContext,
    ) -> (result: Result<Context, Error>)
        requires
            !old(allocator).spec_is_exhausted(),
        ensures
            result matches Ok(context) && context@ == (ContextView {
                egl_context: native_context.egl_context,
                id: old(allocator).next_id(),
                framebuffer: Framebuffer::External(
                    ExternalEGLSurfaces {
                        draw: native_context.egl_draw_surface,
                        read: native_context.egl_read_surface,
                    },
                ),
                context_is_owned: false,
            }) && context@.well_formed(),
            final(allocator).next_id() == ContextID((old(allocator).next_id().0 + 1) as u64),
    {
        let id = allocator.allocate();
        Ok(
            Context {
                egl_context: native_context.egl_context,
                id,
                framebuffer: Framebuffer::External(
                    ExternalEGLSurfaces {
                        draw: native_context.egl_draw_surface,
                        read: native_context.egl_read_surface,
                    },
                ),
                context_is_owned: false,
            },
        )
    }

    /// The identity of a context.
    pub fn context_id(&self, context: &Context) -> (id: ContextID)
        ensures
            id == context@.id,
            context@.well_formed(),
    {
        proof {
            use_type_invariant(context);
        }
        context.id
    }

    /// What a renderer needs to know of a surface.
    pub open spec fn spec_surface_info(surface: Surface) -> SurfaceInfo {
        SurfaceInfo {
            size: surface.size,
            id: SurfaceID(surface.egl_surface),
            context_id: surface.context_id,
            framebuffer_object: 0,
        }
    }

    /// Describes a surface: its size, its identity, the context it belongs to, and
    /// the framebuffer object to render to, which is the default one.
    pub fn surface_info(&self, surface: &Surface) -> (info: SurfaceInfo)
        ensures
            info == Device::spec_surface_info(*surface),
    {
        SurfaceInfo {
            size: surface.size,
            id: SurfaceID(surface.egl_surface),
            context_id: surface.context_id,
            framebuffer_object: 0,
        }
    }

    /// What there is to know of the surface that is attached to a context.
    pub open spec fn spec_context_surface_info(context: ContextView) -> Result<
        Option<SurfaceInfo>,
        Error,
    > {
        match context.framebuffer {
            Framebuffer::Unbound => Ok(None),
            Framebuffer::External(_) => Err(Error::ExternalRenderTarget),
            Framebuffer::Surface(surface) => Ok(Some(Device::spec_surface_info(surface))),
        }
    }

    /// Describes the surface that is attached to a context, if one is. A context
    /// that renders to external surfaces has nothing to describe.
    pub fn context_surface_info(&self, context: &Context) -> (result: Result<
        Option<SurfaceInfo>,
        Error,
    >)
        ensures
            result == Device::spec_context_surface_info(context@),
            context@.well_formed(),
    {
        proof {
            use_type_invariant(context);
        }
        match &context.framebuffer {
            Framebuffer::Unbound => Ok(None),
            Framebuffer::External(_) => Err(Error::ExternalRenderTarget),
            Framebuffer::Surface(surface) => Ok(Some(self.surface_info(surface))),
        }
    }

    /// The native context behind a context, with the surfaces it renders to.
    pub fn native_context(&self, context: &Context) -> (native: NativeContext)
        ensures
            native == (NativeContext {
                egl_context: context@.egl_context,
                egl_draw_surface: context@.surfaces().0,
                egl_read_surface: context@.surfaces().1,
            }),
            context@.well_formed(),
    {
        proof {
            use_type_invariant(context);
        }
        let (egl_draw_surface, egl_read_surface) = match &context.framebuffer {
            Framebuffer::Surface(surface) => (surface.egl_surface, surface.egl_surface),
            Framebuffer::External(surfaces) => (surfaces.draw, surfaces.read),
            Framebuffer::Unbound => (egl::NO_SURFACE, egl::NO_SURFACE),
        };
        NativeContext { egl_context: context.egl_context, egl_draw_surface, egl_read_surface }
    }
}

} // verus!
