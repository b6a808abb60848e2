//! The boundary to the native graphics stack.
//!
//! The library never performs a native call. It names the call as a [`NativeCall`],
//! the caller performs it and hands back what it returned as a [`NativeReply`].

use crate::context::ContextDescriptor;
use crate::egl;
use crate::egl::{EGLBoolean, EGLContext, EGLDisplay, EGLSurface, EGLint};
use crate::error::{to_windowing_api_error, windowing_api_error, WindowingApiError};
use crate::gl::{GLenum, GLsizei, GLuint};
use vstd::prelude::*;

verus! {

/// The result code with which a synchronization call reports success.
pub const S_OK: i32 = 0;

/// The timeout that makes a synchronization call wait without bound.
pub const INFINITE: u32 = 0xFFFF_FFFF;

/// The display, surfaces and context that are current on a thread.
#[derive(Clone, Copy, PartialEq, Eq, Debug, Structural)]
pub struct NativeBinding {
    pub display: EGLDisplay,
    pub draw: EGLSurface,
    pub read: EGLSurface,
    pub context: EGLContext,
}

/// One call into the native graphics stack, with its arguments.
#[derive(Clone, Copy, PartialEq, Eq, Debug, Structural)]
pub enum NativeCall {
    /// Create a context of the described format, sharing objects with `share_with`
    /// unless that is the "no context" sentinel. Answered by `Handle`.
    CreateContext { display: EGLDisplay, descriptor: ContextDescriptor, share_with: EGLContext },
    /// Make `context` current on this thread with the given surfaces. Answered by `Boolean`.
    MakeCurrent { display: EGLDisplay, draw: EGLSurface, read: EGLSurface, context: EGLContext },
    /// Destroy a context. Answered by `Boolean`.
    DestroyContext { display: EGLDisplay, context: EGLContext },
    /// Destroy a surface. Answered by `Boolean`.
    DestroySurface { display: EGLDisplay, surface: EGLSurface },
    /// Ask which context is current on this thread. Answered by `Handle`.
    GetCurrentContext,
    /// Ask for everything that is current on this thread. Answered by `Binding`.
    GetCurrentBinding,
    /// Block until the commands issued on the current context have completed.
    Finish,
    /// Submit the commands issued on the current context.
    Flush,
    /// Acquire a keyed mutex, waiting up to `timeout` milliseconds. Answered by `HResult`.
    AcquireSync { mutex: usize, key: u64, timeout: u32 },
    /// Release a keyed mutex. Answered by `HResult`.
    ReleaseSync { mutex: usize, key: u64 },
    /// Generate one renderbuffer name. Answered by `Name`.
    GenRenderbuffer,
    BindRenderbuffer { target: GLenum, renderbuffer: GLuint },
    RenderbufferStorage {
        target: GLenum,
        internal_format: GLenum,
        width: GLsizei,
        height: GLsizei,
    },
    FramebufferRenderbuffer {
        target: GLenum,
        attachment: GLenum,
        renderbuffer_target: GLenum,
        renderbuffer: GLuint,
    },
    DeleteRenderbuffer { renderbuffer: GLuint },
}

/// What a native call returned.
#[derive(Clone, Copy, PartialEq, Eq, Debug, Structural)]
pub enum NativeReply {
    /// The call returns nothing.
    Nothing,
    /// The call's boolean result, and the thread's error code read after the call.
    Boolean { result: EGLBoolean, error: EGLint },
    /// The handle that the call returned, and the thread's error code read after the call.
    Handle { handle: usize, error: EGLint },
    /// The thread's current display, surfaces and context.
    Binding(NativeBinding),
    /// The result code of a synchronization call.
    HResult(i32),
    /// The object name that the call generated.
    Name(GLuint),
}

/// Where an operation stands: it either waits for a native call to be performed
/// and answered, or it has finished with a result.
#[derive(PartialEq, Eq, Debug)]
pub enum Step<S, T> {
    /// Perform the call, then resume the state with the reply.
    Call(NativeCall, S),
    /// The operation is over.
    Done(T),
}

impl NativeBinding {
    /// The binding of a thread on which nothing is current.
    pub open spec fn spec_none() -> NativeBinding {
        NativeBinding {
            display: egl::NO_DISPLAY,
            draw: egl::NO_SURFACE,
            read: egl::NO_SURFACE,
            context: egl::NO_CONTEXT,
        }
    }

    #[verifier::when_used_as_spec(spec_none)]
    pub fn none() -> (binding: NativeBinding)
        ensures
            binding == NativeBinding::spec_none(),
    {
        NativeBinding {
            display: egl::NO_DISPLAY,
            draw: egl::NO_SURFACE,
            read: egl::NO_SURFACE,
            context: egl::NO_CONTEXT,
        }
    }
}

impl NativeReply {
    /// The reply read as the outcome of a call that reports with a boolean: success
    /// on a non-zero result, the classified error code otherwise. A reply of another
    /// shape is an unclassified failure.
    pub open spec fn spec_status(&self) -> Result<(), WindowingApiError> {
        match *self {
            NativeReply::Boolean { result, error } => if result != egl::FALSE {
                Ok(())
            } else {
                Err(windowing_api_error(error))
            },
            _ => Err(WindowingApiError::Failed),
        }
    }

    #[verifier::when_used_as_spec(spec_status)]
    pub fn status(&self) -> (status: Result<(), WindowingApiError>)
        ensures
            status == self.spec_status(),
    {
        match *self {
            NativeReply::Boolean { result, error } => if result != egl::FALSE {
                Ok(())
            } else {
                Err(to_windowing_api_error(error))
            },
            _ => Err(WindowingApiError::Failed),
        }
    }

    /// The reply read as the outcome of a call that creates an object: the handle
    /// unless it is null, the classified error code otherwise. A reply of another
    /// shape is an unclassified failure.
    pub open spec fn spec_created(&self) -> Result<usize, WindowingApiError> {
        match *self {
            NativeReply::Handle { handle, error } => if handle != 0 {
                Ok(handle)
            } else {
                Err(windowing_api_error(error))
            },
            _ => Err(WindowingApiError::Failed),
        }
    }

    #[verifier::when_used_as_spec(spec_created)]
    pub fn created(&self) -> (created: Result<usize, WindowingApiError>)
        ensures
            created == self.spec_created(),
    {
        match *self {
            NativeReply::Handle { handle, error } => if handle != 0 {
                Ok(handle)
            } else {
                Err(to_windowing_api_error(error))
            },
            _ => Err(WindowingApiError::Failed),
        }
    }

    /// The reply read as the answer to a query for a handle; null for a reply of
    /// another shape.
    pub open spec fn spec_handle(&self) -> usize {
        match *self {
            NativeReply::Handle { handle, .. } => handle,
            _ => 0,
        }
    }

    #[verifier::when_used_as_spec(spec_handle)]
    pub fn handle(&self) -> (handle: usize)
        ensures
            handle == self.spec_handle(),
    {
        match *self {
            NativeReply::Handle { handle, .. } => handle,
            _ => 0,
        }
    }

    /// The reply read as the thread's binding; a reply of another shape stands for a
    /// thread on which nothing is current.
    pub open spec fn spec_binding(&self) -> NativeBinding {
        match *self {
            NativeReply::Binding(binding) => binding,
            _ => NativeBinding::spec_none(),
        }
    }

    #[verifier::when_used_as_spec(spec_binding)]
    pub fn binding(&self) -> (binding: NativeBinding)
        ensures
            binding == self.spec_binding(),
    {
        match *self {
            NativeReply::Binding(binding) => binding,
            _ => NativeBinding::none(),
        }
    }

    /// The reply read as a generated object name; the null name for a reply of
    /// another shape.
    pub open spec fn spec_name(&self) -> GLuint {
        match *self {
            NativeReply::Name(name) => name,
            _ => 0,
        }
    }

    #[verifier::when_used_as_spec(spec_name)]
    pub fn name(&self) -> (name: GLuint)
        ensures
            name == self.spec_name(),
    {
        match *self {
            NativeReply::Name(name) => name,
            _ => 0,
        }
    }
}

} // verus!
