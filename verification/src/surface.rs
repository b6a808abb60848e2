//! Surfaces and the attachment state of a context.

use crate::context::ContextID;
use crate::egl::EGLSurface;
use crate::gl::GLuint;
use vstd::prelude::*;

verus! {

/// A size in pixels.
#[derive(Clone, Copy, PartialEq, Eq, Debug, Structural)]
pub struct Size2D {
    pub width: i32,
    pub height: i32,
}

/// How access to a surface is coordinated with the other API that shares its memory.
#[derive(Clone, Copy, PartialEq, Eq, Debug, Structural)]
pub enum Synchronization {
    /// A keyed mutex, by its handle: acquired before GPU access, released after.
    KeyedMutex(usize),
    /// Commands are finished before the surface changes hands.
    GLFinish,
    /// Nothing is needed.
    Unsynchronized,
}

/// What backs a surface on the windowing side.
#[derive(Clone, Copy, PartialEq, Eq, Debug, Structural)]
pub enum Win32Objects {
    /// The surface presents to a native window.
    Window,
    /// The surface is an off-screen buffer that is shared as a texture.
    Pbuffer { share_handle: usize, synchronization: Synchronization },
}

/// A GPU-backed drawable. It belongs to the context it was created for and can
/// be attached to no other.
#[derive(PartialEq, Eq, Debug, Structural)]
pub struct Surface {
    pub egl_surface: EGLSurface,
    pub size: Size2D,
    pub context_id: ContextID,
    pub win32_objects: Win32Objects,
}

/// The identity of a surface.
#[derive(Clone, Copy, PartialEq, Eq, Debug, Hash, Structural)]
pub struct SurfaceID(pub usize);

/// What a renderer needs to know of an attached surface.
#[derive(Clone, Copy, PartialEq, Eq, Debug, Structural)]
pub struct SurfaceInfo {
    pub size: Size2D,
    pub id: SurfaceID,
    pub context_id: ContextID,
    /// The framebuffer object to render to; zero is the default framebuffer.
    pub framebuffer_object: GLuint,
}

/// The draw and read surfaces of a context that this library did not create.
#[derive(Clone, Copy, PartialEq, Eq, Debug, Structural)]
pub struct ExternalEGLSurfaces {
    pub draw: EGLSurface,
    pub read: EGLSurface,
}

/// What a context renders to.
#[derive(PartialEq, Eq, Debug, Structural)]
pub enum Framebuffer<S, E> {
    /// Nothing is attached.
    Unbound,
    /// The context owns the attached surface.
    Surface(S),
    /// The context renders to surfaces owned by someone else.
    External(E),
}

impl Surface {
    /// Whether commands must be finished before the surface is attached.
    pub open spec fn spec_uses_gl_finish(&self) -> bool {
        self.win32_objects matches Win32Objects::Pbuffer {
            synchronization: Synchronization::GLFinish,
            ..
        }
    }

    #[verifier::when_used_as_spec(spec_uses_gl_finish)]
    pub fn uses_gl_finish(&self) -> (uses: bool)
        ensures
            uses == self.spec_uses_gl_finish(),
    {
        match self.win32_objects {
            Win32Objects::Pbuffer { synchronization: Synchronization::GLFinish, .. } => true,
            _ => false,
        }
    }

    /// The keyed mutex that guards the surface, if it has one.
    pub open spec fn spec_keyed_mutex(&self) -> Option<usize> {
        match self.win32_objects {
            Win32Objects::Pbuffer { synchronization, .. } => match synchronization {
                Synchronization::KeyedMutex(mutex) => Some(mutex),
                _ => None,
            },
            Win32Objects::Window => None,
        }
    }

    #[verifier::when_used_as_spec(spec_keyed_mutex)]
    pub fn keyed_mutex(&self) -> (mutex: Option<usize>)
        ensures
            mutex == self.spec_keyed_mutex(),
    {
        match self.win32_objects {
            Win32Objects::Pbuffer { synchronization, .. } => match synchronization {
                Synchronization::KeyedMutex(mutex) => Some(mutex),
                _ => None,
            },
            Win32Objects::Window => None,
        }
    }
}

} // verus!
