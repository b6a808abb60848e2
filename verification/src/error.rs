//! The error taxonomy shared by every operation.

use crate::egl;
use crate::egl::EGLint;
use vstd::prelude::*;

verus! {

/// What the windowing API reported when one of its calls failed.
#[derive(Clone, Copy, PartialEq, Eq, Debug, Structural)]
pub enum WindowingApiError {
    /// A failure that the API did not classify.
    Failed,
    NotInitialized,
    BadAccess,
    BadAlloc,
    BadAttribute,
    BadConfig,
    BadContext,
    BadCurrentSurface,
    BadDisplay,
    BadSurface,
    BadMatch,
    BadParameter,
    BadNativePixmap,
    BadNativeWindow,
    ContextLost,
}

/// The failures that an operation of this library can report.
#[derive(Clone, Copy, PartialEq, Eq, Debug, Structural)]
pub enum Error {
    /// No native configuration matches the requested attributes.
    NoAvailablePixelFormat,
    /// The native API could not create the context.
    ContextCreationFailed(WindowingApiError),
    /// The native API could not make the context current.
    MakeCurrentFailed(WindowingApiError),
    /// The surface was created for another context.
    IncompatibleSurface,
    /// The context already has a surface attached.
    SurfaceAlreadyBound,
    /// The context renders to surfaces that this library does not manage.
    ExternalRenderTarget,
}

/// The classification of a native error code.
pub open spec fn windowing_api_error(code: EGLint) -> WindowingApiError {
    if code == egl::NOT_INITIALIZED {
        WindowingApiError::NotInitialized
    } else if code == egl::BAD_ACCESS {
        WindowingApiError::BadAccess
    } else if code == egl::BAD_ALLOC {
        WindowingApiError::BadAlloc
    } else if code == egl::BAD_ATTRIBUTE {
        WindowingApiError::BadAttribute
    } else if code == egl::BAD_CONFIG {
        WindowingApiError::BadConfig
    } else if code == egl::BAD_CONTEXT {
        WindowingApiError::BadContext
    } else if code == egl::BAD_CURRENT_SURFACE {
        WindowingApiError::BadCurrentSurface
    } else if code == egl::BAD_DISPLAY {
        WindowingApiError::BadDisplay
    } else if code == egl::BAD_SURFACE {
        WindowingApiError::BadSurface
    } else if code == egl::BAD_MATCH {
        WindowingApiError::BadMatch
    } else if code == egl::BAD_PARAMETER {
        WindowingApiError::BadParameter
    } else if code == egl::BAD_NATIVE_PIXMAP {
        WindowingApiError::BadNativePixmap
    } else if code == egl::BAD_NATIVE_WINDOW {
        WindowingApiError::BadNativeWindow
    } else if code == egl::CONTEXT_LOST {
        WindowingApiError::ContextLost
    } else {
        WindowingApiError::Failed
    }
}

/// Classifies a native error code; a code outside the documented range is `Failed`.
pub fn to_windowing_api_error(code: EGLint) -> (error: WindowingApiError)
    ensures
        error == windowing_api_error(code),
{
    match code {
        egl::NOT_INITIALIZED => WindowingApiError::NotInitialized,
        egl::BAD_ACCESS => WindowingApiError::BadAccess,
        egl::BAD_ALLOC => WindowingApiError::BadAlloc,
        egl::BAD_ATTRIBUTE => WindowingApiError::BadAttribute,
        egl::BAD_CONFIG => WindowingApiError::BadConfig,
        egl::BAD_CONTEXT => WindowingApiError::BadContext,
        egl::BAD_CURRENT_SURFACE => WindowingApiError::BadCurrentSurface,
        egl::BAD_DISPLAY => WindowingApiError::BadDisplay,
        egl::BAD_SURFACE => WindowingApiError::BadSurface,
        egl::BAD_MATCH => WindowingApiError::BadMatch,
        egl::BAD_PARAMETER => WindowingApiError::BadParameter,
        egl::BAD_NATIVE_PIXMAP => WindowingApiError::BadNativePixmap,
        egl::BAD_NATIVE_WINDOW => WindowingApiError::BadNativeWindow,
        egl::CONTEXT_LOST => WindowingApiError::ContextLost,
        _ => WindowingApiError::Failed,
    }
}

} // verus!
