//! Lifecycle coordination for GPU rendering contexts and the surfaces bound to them.
//!
//! The crate holds the decisions of the protocol and none of the native work: an
//! operation is a small state machine that names the next native call to perform
//! and is resumed with what that call returned. The caller runs it to its end:
//!
//! ```text
//! let mut step = device.bind_surface_to_context(&mut context, surface);
//! let result = loop {
//!     match step {
//!         Step::Done(result) => break result,
//!         Step::Call(call, state) => {
//!             let reply = perform(call);
//!             if state.aborts_on(reply) {
//!                 // there is no recovery: stop the process
//!             }
//!             step = state.resume(&device, &mut context, reply);
//!         }
//!     }
//! };
//! ```
//!
//! What an operation comes to does not depend on how it is run: the module
//! `laws` states, for every sequence of replies, what each operation yields and
//! what it leaves of the context.

pub mod binding;
pub mod context;
pub mod current;
pub mod device;
pub mod egl;
pub mod error;
pub mod gl;
pub mod laws;
pub mod lifecycle;
pub mod native;
pub mod renderbuffers;
pub mod surface;

pub use crate::context::{
    ContextAttributeFlags, ContextAttributes, ContextDescriptor, ContextID, ContextIdAllocator,
    GLVersion,
};
pub use crate::device::{Context, Device, NativeContext};
pub use crate::error::{Error, WindowingApiError};
pub use crate::native::{NativeCall, NativeReply, Step};
pub use crate::renderbuffers::Renderbuffers;
pub use crate::surface::{Size2D, Surface, SurfaceID, SurfaceInfo};
