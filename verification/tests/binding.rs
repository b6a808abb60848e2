use surfman::binding::{BindStep, BindingSurface, UnbindStep, UnbindingSurface};
use surfman::context::{ContextDescriptor, ContextID, ContextIdAllocator, GLVersion};
use surfman::device::{Context, Device, NativeContext};
use surfman::egl;
use surfman::error::Error;
use surfman::native::{NativeBinding, NativeCall, NativeReply, Step};
use surfman::surface::{Size2D, Surface, SurfaceID, SurfaceInfo, Synchronization, Win32Objects};

const DISPLAY: usize = 0xD1;

/// A native side that keeps track of what is current and answers every call
/// with success, unless it is told to refuse to make a context current.
struct Native {
    binding: NativeBinding,
    refuse_make_current: Option<i32>,
    calls: Vec<NativeCall>,
}

impl Native {
    fn new() -> Native {
        Native { binding: NativeBinding::none(), refuse_make_current: None, calls: Vec::new() }
    }

    fn with_current(binding: NativeBinding) -> Native {
        Native { binding, refuse_make_current: None, calls: Vec::new() }
    }

    fn perform(&mut self, call: NativeCall) -> NativeReply {
        self.calls.push(call);
        match call {
            NativeCall::CreateContext { .. } => {
                NativeReply::Handle { handle: 0xC0, error: egl::SUCCESS }
            }
            NativeCall::MakeCurrent { display, draw, read, context } => {
                match self.refuse_make_current {
                    Some(error) => NativeReply::Boolean { result: egl::FALSE, error },
                    None => {
                        self.binding = NativeBinding { display, draw, read, context };
                        NativeReply::Boolean { result: egl::TRUE, error: egl::SUCCESS }
                    }
                }
            }
            NativeCall::DestroyContext { .. } | NativeCall::DestroySurface { .. } => {
                NativeReply::Boolean { result: egl::TRUE, error: egl::SUCCESS }
            }
            NativeCall::GetCurrentContext => {
                NativeReply::Handle { handle: self.binding.context, error: egl::SUCCESS }
            }
            NativeCall::GetCurrentBinding => NativeReply::Binding(self.binding),
            NativeCall::AcquireSync { .. } | NativeCall::ReleaseSync { .. } => {
                NativeReply::HResult(0)
            }
            NativeCall::GenRenderbuffer => NativeReply::Name(1),
            _ => NativeReply::Nothing,
        }
    }
}

fn new_context(device: &mut Device, allocator: &mut ContextIdAllocator, handle: usize) -> Context {
    let descriptor = ContextDescriptor {
        egl_config_id: 1,
        gl_version: GLVersion { major: 3, minor: 0 },
        compatibility_profile: false,
    };
    let Step::Call(_, state) = device.create_context(&descriptor, None) else {
        panic!("creation starts with a native call");
    };
    let created = NativeReply::Handle { handle, error: egl::SUCCESS };
    let Step::Call(_, state) = state.resume(device, allocator, created) else {
        panic!("the new context is made current");
    };
    let made_current = NativeReply::Boolean { result: egl::TRUE, error: egl::SUCCESS };
    match state.resume(device, allocator, made_current) {
        Step::Done(Ok(context)) => context,
        _ => panic!("the context is created"),
    }
}

fn external_context(device: &Device, allocator: &mut ContextIdAllocator) -> Context {
    let native_context =
        NativeContext { egl_context: 0xE0, egl_draw_surface: 0xE1, egl_read_surface: 0xE2 };
    device
        .create_context_from_native_context(allocator, native_context)
        .expect("wrapping a native context succeeds")
}

fn surface(egl_surface: usize, context_id: ContextID, win32_objects: Win32Objects) -> Surface {
    Surface { egl_surface, size: Size2D { width: 800, height: 600 }, context_id, win32_objects }
}

fn pbuffer(synchronization: Synchronization) -> Win32Objects {
    Win32Objects::Pbuffer { share_handle: 0xAB, synchronization }
}

fn finish_bind(
    device: &Device,
    context: &mut Context,
    native: &mut Native,
    mut step: BindStep,
) -> Result<(), (Error, Surface)> {
    loop {
        match step {
            Step::Done(result) => return result,
            Step::Call(call, state) => {
                let reply = native.perform(call);
                assert!(!state.aborts_on(reply));
                step = state.resume(device, context, reply);
            }
        }
    }
}

fn bind(
    device: &Device,
    context: &mut Context,
    native: &mut Native,
    surface: Surface,
) -> Result<(), (Error, Surface)> {
    let step = device.bind_surface_to_context(context, surface);
    finish_bind(device, context, native, step)
}

fn unbind(
    device: &Device,
    context: &mut Context,
    native: &mut Native,
) -> Result<Option<Surface>, Error> {
    let mut step: UnbindStep = device.unbind_surface_from_context(context);
    loop {
        match step {
            Step::Done(result) => return result,
            Step::Call(call, state) => {
                let reply = native.perform(call);
                assert!(!state.aborts_on(reply));
                step = state.resume(context, reply);
            }
        }
    }
}

fn make_current(draw: usize, read: usize, context: usize) -> NativeCall {
    NativeCall::MakeCurrent { display: DISPLAY, draw, read, context }
}

#[test]
fn surface_of_another_context_is_rejected_and_handed_back() {
    let mut device = Device::new(DISPLAY);
    let mut allocator = ContextIdAllocator::new();
    let mut context = new_context(&mut device, &mut allocator, 0xC0);
    assert_eq!(device.context_id(&context), ContextID(0));

    let foreign = surface(0x51, ContextID(5), Win32Objects::Window);
    let step = device.bind_surface_to_context(&mut context, foreign);
    assert_eq!(
        step,
        Step::Done(Err((
            Error::IncompatibleSurface,
            surface(0x51, ContextID(5), Win32Objects::Window)
        )))
    );
    assert_eq!(device.context_surface_info(&context), Ok(None));
}

#[test]
fn surface_of_another_context_is_rejected_whatever_it_needs() {
    let mut device = Device::new(DISPLAY);
    let mut allocator = ContextIdAllocator::new();
    let mut context = new_context(&mut device, &mut allocator, 0xC0);
    let mut native = Native::new();

    let keyed = surface(0x51, ContextID(9), pbuffer(Synchronization::KeyedMutex(0x77)));
    let result = bind(&device, &mut context, &mut native, keyed);
    assert_eq!(
        result,
        Err((
            Error::IncompatibleSurface,
            surface(0x51, ContextID(9), pbuffer(Synchronization::KeyedMutex(0x77)))
        ))
    );
    let finished = surface(0x52, ContextID(9), pbuffer(Synchronization::GLFinish));
    let result = bind(&device, &mut context, &mut native, finished);
    assert!(matches!(result, Err((Error::IncompatibleSurface, _))));
    assert_eq!(native.calls, vec![]);
}

#[test]
fn second_surface_is_rejected_and_the_first_stays() {
    let mut device = Device::new(DISPLAY);
    let mut allocator = ContextIdAllocator::new();
    let mut context = new_context(&mut device, &mut allocator, 0xC0);
    let mut native = Native::new();
    let id = device.context_id(&context);

    let window = surface(0x51, id, Win32Objects::Window);
    assert_eq!(bind(&device, &mut context, &mut native, window), Ok(()));
    let before = device.native_context(&context);
    native.calls.clear();

    let second = surface(0x52, id, Win32Objects::Window);
    let step = device.bind_surface_to_context(&mut context, second);
    assert_eq!(
        step,
        Step::Done(Err((Error::SurfaceAlreadyBound, surface(0x52, id, Win32Objects::Window))))
    );
    assert_eq!(device.native_context(&context), before);
    assert_eq!(
        device.context_surface_info(&context),
        Ok(Some(SurfaceInfo {
            size: Size2D { width: 800, height: 600 },
            id: SurfaceID(0x51),
            context_id: id,
            framebuffer_object: 0
        }))
    );
}

#[test]
fn a_surface_of_another_context_is_incompatible_even_if_one_is_bound() {
    let mut device = Device::new(DISPLAY);
    let mut allocator = ContextIdAllocator::new();
    let mut context = new_context(&mut device, &mut allocator, 0xC0);
    let mut native = Native::new();
    let id = device.context_id(&context);
    let window = surface(0x51, id, Win32Objects::Window);
    assert_eq!(bind(&device, &mut context, &mut native, window), Ok(()));

    let foreign = surface(0x52, ContextID(3), Win32Objects::Window);
    let result = bind(&device, &mut context, &mut native, foreign);
    assert!(matches!(result, Err((Error::IncompatibleSurface, _))));
}

#[test]
fn unbind_then_bind_restores_the_context() {
    let mut device = Device::new(DISPLAY);
    let mut allocator = ContextIdAllocator::new();
    let mut context = new_context(&mut device, &mut allocator, 0xC0);
    let mut native = Native::new();
    let id = device.context_id(&context);
    let bound = surface(0x51, id, pbuffer(Synchronization::KeyedMutex(0x77)));
    assert_eq!(bind(&device, &mut context, &mut native, bound), Ok(()));
    let native_before = device.native_context(&context);
    let info_before = device.context_surface_info(&context);

    let detached = unbind(&device, &mut context, &mut native)
        .expect("a surface can be detached")
        .expect("the surface that was attached");
    assert_eq!(detached, surface(0x51, id, pbuffer(Synchronization::KeyedMutex(0x77))));
    assert_eq!(device.context_surface_info(&context), Ok(None));

    assert_eq!(bind(&device, &mut context, &mut native, detached), Ok(()));
    assert_eq!(device.native_context(&context), native_before);
    assert_eq!(device.context_surface_info(&context), info_before);
    assert_eq!(device.context_id(&context), id);
}

#[test]
fn unbind_with_nothing_attached_yields_nothing_and_calls_nothing() {
    let mut device = Device::new(DISPLAY);
    let mut allocator = ContextIdAllocator::new();
    let mut context = new_context(&mut device, &mut allocator, 0xC0);
    let before = device.native_context(&context);

    let step = device.unbind_surface_from_context(&mut context);
    assert_eq!(step, Step::Done(Ok(None)));
    assert_eq!(device.native_context(&context), before);
}

#[test]
fn external_context_refuses_bind_unbind_and_surface_info() {
    let device = Device::new(DISPLAY);
    let mut allocator = ContextIdAllocator::new();
    let mut context = external_context(&device, &mut allocator);
    let id = device.context_id(&context);
    let before = device.native_context(&context);

    let own = surface(0x51, id, Win32Objects::Window);
    let step = device.bind_surface_to_context(&mut context, own);
    assert_eq!(
        step,
        Step::Done(Err((Error::ExternalRenderTarget, surface(0x51, id, Win32Objects::Window))))
    );
    assert_eq!(
        device.unbind_surface_from_context(&mut context),
        Step::Done(Err(Error::ExternalRenderTarget))
    );
    assert_eq!(device.context_surface_info(&context), Err(Error::ExternalRenderTarget));
    assert_eq!(device.native_context(&context), before);
}

#[test]
fn external_context_reports_a_foreign_surface_as_incompatible() {
    let device = Device::new(DISPLAY);
    let mut allocator = ContextIdAllocator::new();
    let mut context = external_context(&device, &mut allocator);

    let step = device.bind_surface_to_context(
        &mut context,
        surface(0x51, ContextID(8), Win32Objects::Window),
    );
    assert!(matches!(step, Step::Done(Err((Error::IncompatibleSurface, _)))));
}

#[test]
fn plain_surface_is_attached_after_reading_the_current_context() {
    let mut device = Device::new(DISPLAY);
    let mut allocator = ContextIdAllocator::new();
    let mut context = new_context(&mut device, &mut allocator, 0xC0);
    let mut native = Native::new();
    let id = device.context_id(&context);

    let window = surface(0x51, id, Win32Objects::Window);
    assert_eq!(bind(&device, &mut context, &mut native, window), Ok(()));
    assert_eq!(native.calls, vec![NativeCall::GetCurrentContext]);
    assert_eq!(
        device.native_context(&context),
        NativeContext { egl_context: 0xC0, egl_draw_surface: 0x51, egl_read_surface: 0x51 }
    );
}

#[test]
fn unsynchronized_pbuffer_is_attached_like_a_window() {
    let mut device = Device::new(DISPLAY);
    let mut allocator = ContextIdAllocator::new();
    let mut context = new_context(&mut device, &mut allocator, 0xC0);
    let mut native = Native::new();
    let id = device.context_id(&context);

    let plain = surface(0x51, id, pbuffer(Synchronization::Unsynchronized));
    assert_eq!(bind(&device, &mut context, &mut native, plain), Ok(()));
    assert_eq!(native.calls, vec![NativeCall::GetCurrentContext]);
}

#[test]
fn current_context_is_made_current_again_with_its_new_surface() {
    let mut device = Device::new(DISPLAY);
    let mut allocator = ContextIdAllocator::new();
    let mut context = new_context(&mut device, &mut allocator, 0xC0);
    let current = NativeBinding { display: DISPLAY, draw: 0, read: 0, context: 0xC0 };
    let mut native = Native::with_current(current);
    let id = device.context_id(&context);

    let window = surface(0x51, id, Win32Objects::Window);
    assert_eq!(bind(&device, &mut context, &mut native, window), Ok(()));
    assert_eq!(native.calls, vec![NativeCall::GetCurrentContext, make_current(0x51, 0x51, 0xC0)]);
}

#[test]
fn failure_to_become_current_again_is_not_reported() {
    let mut device = Device::new(DISPLAY);
    let mut allocator = ContextIdAllocator::new();
    let mut context = new_context(&mut device, &mut allocator, 0xC0);
    let current = NativeBinding { display: DISPLAY, draw: 0, read: 0, context: 0xC0 };
    let mut native = Native::with_current(current);
    native.refuse_make_current = Some(egl::BAD_SURFACE);
    let id = device.context_id(&context);

    let window = surface(0x51, id, Win32Objects::Window);
    assert_eq!(bind(&device, &mut context, &mut native, window), Ok(()));
    assert_eq!(native.calls, vec![NativeCall::GetCurrentContext, make_current(0x51, 0x51, 0xC0)]);
    assert_eq!(device.native_context(&context).egl_draw_surface, 0x51);
}

#[test]
fn commands_are_finished_with_the_context_current_and_the_binding_restored() {
    let mut device = Device::new(DISPLAY);
    let mut allocator = ContextIdAllocator::new();
    let mut context = new_context(&mut device, &mut allocator, 0xC0);
    let other = NativeBinding { display: 0xD2, draw: 0x61, read: 0x62, context: 0x99 };
    let mut native = Native::with_current(other);
    let id = device.context_id(&context);

    let finished = surface(0x51, id, pbuffer(Synchronization::GLFinish));
    assert_eq!(bind(&device, &mut context, &mut native, finished), Ok(()));
    assert_eq!(
        native.calls,
        vec![
            NativeCall::GetCurrentBinding,
            make_current(0, 0, 0xC0),
            NativeCall::Finish,
            NativeCall::MakeCurrent { display: 0xD2, draw: 0x61, read: 0x62, context: 0x99 },
            NativeCall::GetCurrentContext,
        ]
    );
    assert_eq!(native.binding, other);
}

#[test]
fn finish_is_skipped_when_the_context_cannot_be_made_current() {
    let mut device = Device::new(DISPLAY);
    let mut allocator = ContextIdAllocator::new();
    let mut context = new_context(&mut device, &mut allocator, 0xC0);
    let other = NativeBinding { display: 0xD2, draw: 0x61, read: 0x62, context: 0x99 };
    let id = device.context_id(&context);
    let finished = surface(0x51, id, pbuffer(Synchronization::GLFinish));

    let mut calls = Vec::new();
    let mut step = device.bind_surface_to_context(&mut context, finished);
    let replies = [
        NativeReply::Binding(other),
        NativeReply::Boolean { result: egl::FALSE, error: egl::BAD_ACCESS },
        NativeReply::Boolean { result: egl::TRUE, error: egl::SUCCESS },
        NativeReply::Handle { handle: 0x99, error: egl::SUCCESS },
    ];
    let mut replies = replies.iter();
    let result = loop {
        match step {
            Step::Done(result) => break result,
            Step::Call(call, state) => {
                calls.push(call);
                let reply = *replies.next().expect("a reply for every call");
                step = state.resume(&device, &mut context, reply);
            }
        }
    };
    assert_eq!(result, Ok(()));
    assert_eq!(
        calls,
        vec![
            NativeCall::GetCurrentBinding,
            make_current(0, 0, 0xC0),
            NativeCall::MakeCurrent { display: 0xD2, draw: 0x61, read: 0x62, context: 0x99 },
            NativeCall::GetCurrentContext,
        ]
    );
    assert_eq!(device.native_context(&context).egl_draw_surface, 0x51);
}

#[test]
fn nothing_is_restored_when_nothing_was_current() {
    let mut device = Device::new(DISPLAY);
    let mut allocator = ContextIdAllocator::new();
    let mut context = new_context(&mut device, &mut allocator, 0xC0);
    let id = device.context_id(&context);
    let finished = surface(0x51, id, pbuffer(Synchronization::GLFinish));

    let mut calls = Vec::new();
    let mut step = device.bind_surface_to_context(&mut context, finished);
    let replies = [
        NativeReply::Binding(NativeBinding::none()),
        NativeReply::Boolean { result: egl::TRUE, error: egl::SUCCESS },
        NativeReply::Nothing,
        NativeReply::Handle { handle: 0xC0, error: egl::SUCCESS },
        NativeReply::Boolean { result: egl::TRUE, error: egl::SUCCESS },
    ];
    let mut replies = replies.iter();
    let result = loop {
        match step {
            Step::Done(result) => break result,
            Step::Call(call, state) => {
                calls.push(call);
                let reply = *replies.next().expect("a reply for every call");
                step = state.resume(&device, &mut context, reply);
            }
        }
    };
    assert_eq!(result, Ok(()));
    assert_eq!(
        calls,
        vec![
            NativeCall::GetCurrentBinding,
            make_current(0, 0, 0xC0),
            NativeCall::Finish,
            NativeCall::GetCurrentContext,
            make_current(0x51, 0x51, 0xC0),
        ]
    );
}

#[test]
fn keyed_mutex_is_acquired_without_timeout_before_the_surface_is_attached() {
    let mut device = Device::new(DISPLAY);
    let mut allocator = ContextIdAllocator::new();
    let mut context = new_context(&mut device, &mut allocator, 0xC0);
    let id = device.context_id(&context);
    let keyed = surface(0x51, id, pbuffer(Synchronization::KeyedMutex(0x77)));

    let Step::Call(call, state) = device.bind_surface_to_context(&mut context, keyed) else {
        panic!("the current context is read first");
    };
    assert_eq!(call, NativeCall::GetCurrentContext);
    let not_current = NativeReply::Handle { handle: 0, error: egl::SUCCESS };
    let Step::Call(call, state) = state.resume(&device, &mut context, not_current) else {
        panic!("the keyed mutex is acquired next");
    };
    assert_eq!(call, NativeCall::AcquireSync { mutex: 0x77, key: 0, timeout: 0xFFFF_FFFF });
    assert_eq!(device.context_surface_info(&context), Ok(None));

    assert!(!state.aborts_on(NativeReply::HResult(0)));
    let step = state.resume(&device, &mut context, NativeReply::HResult(0));
    assert_eq!(step, Step::Done(Ok(())));
    assert!(matches!(device.context_surface_info(&context), Ok(Some(_))));
}

#[test]
fn a_keyed_mutex_that_cannot_be_acquired_stops_the_process() {
    let keyed = surface(0x51, ContextID(0), pbuffer(Synchronization::KeyedMutex(0x77)));
    let acquiring = BindingSurface::Acquiring { surface: keyed, is_current: false };
    assert!(acquiring.aborts_on(NativeReply::HResult(-2147024809)));
    assert!(acquiring.aborts_on(NativeReply::HResult(1)));
    assert!(acquiring.aborts_on(NativeReply::Nothing));
    assert!(!acquiring.aborts_on(NativeReply::HResult(0)));

    let querying = BindingSurface::QueryingCurrent {
        surface: surface(0x51, ContextID(0), Win32Objects::Window),
    };
    assert!(!querying.aborts_on(NativeReply::HResult(1)));
    assert!(!BindingSurface::Reasserting.aborts_on(NativeReply::Nothing));
}

#[test]
fn a_keyed_mutex_that_cannot_be_released_stops_the_process() {
    let keyed = surface(0x51, ContextID(0), pbuffer(Synchronization::KeyedMutex(0x77)));
    let releasing = UnbindingSurface::Releasing { surface: keyed };
    assert!(releasing.aborts_on(NativeReply::HResult(-1)));
    assert!(releasing.aborts_on(NativeReply::Boolean { result: 1, error: 0x3000 }));
    assert!(!releasing.aborts_on(NativeReply::HResult(0)));
}

#[test]
fn a_surface_is_not_attached_to_another_context_than_it_was_started_with() {
    let mut device = Device::new(DISPLAY);
    let mut allocator = ContextIdAllocator::new();
    let mut first = new_context(&mut device, &mut allocator, 0xC0);
    let mut second = new_context(&mut device, &mut allocator, 0xC1);
    let id = device.context_id(&first);

    let Step::Call(_, state) =
        device.bind_surface_to_context(&mut first, surface(0x51, id, Win32Objects::Window))
    else {
        panic!("the current context is read first");
    };
    let reply = NativeReply::Handle { handle: 0, error: egl::SUCCESS };
    let step = state.resume(&device, &mut second, reply);
    assert_eq!(
        step,
        Step::Done(Err((Error::IncompatibleSurface, surface(0x51, id, Win32Objects::Window))))
    );
    assert_eq!(device.context_surface_info(&second), Ok(None));
    assert_eq!(device.context_surface_info(&first), Ok(None));
}

#[test]
fn detaching_flushes_first_and_releases_the_keyed_mutex_last() {
    let mut device = Device::new(DISPLAY);
    let mut allocator = ContextIdAllocator::new();
    let mut context = new_context(&mut device, &mut allocator, 0xC0);
    let other = NativeBinding { display: 0xD2, draw: 0x61, read: 0x62, context: 0x99 };
    let mut native = Native::with_current(other);
    let id = device.context_id(&context);
    let keyed = surface(0x51, id, pbuffer(Synchronization::KeyedMutex(0x77)));
    assert_eq!(bind(&device, &mut context, &mut native, keyed), Ok(()));
    native.calls.clear();

    let detached = unbind(&device, &mut context, &mut native);
    assert_eq!(
        detached,
        Ok(Some(surface(0x51, id, pbuffer(Synchronization::KeyedMutex(0x77)))))
    );
    assert_eq!(
        native.calls,
        vec![
            NativeCall::GetCurrentBinding,
            make_current(0x51, 0x51, 0xC0),
            NativeCall::Flush,
            NativeCall::MakeCurrent { display: 0xD2, draw: 0x61, read: 0x62, context: 0x99 },
            NativeCall::ReleaseSync { mutex: 0x77, key: 0 },
        ]
    );
    assert_eq!(
        device.native_context(&context),
        NativeContext { egl_context: 0xC0, egl_draw_surface: 0, egl_read_surface: 0 }
    );
}

#[test]
fn the_surface_stays_attached_while_commands_are_flushed() {
    let mut device = Device::new(DISPLAY);
    let mut allocator = ContextIdAllocator::new();
    let mut context = new_context(&mut device, &mut allocator, 0xC0);
    let mut native = Native::new();
    let id = device.context_id(&context);
    let window = surface(0x51, id, Win32Objects::Window);
    assert_eq!(bind(&device, &mut context, &mut native, window), Ok(()));

    let Step::Call(call, state) = device.unbind_surface_from_context(&mut context) else {
        panic!("detaching a surface starts with a native call");
    };
    assert_eq!(call, NativeCall::GetCurrentBinding);
    assert!(matches!(device.context_surface_info(&context), Ok(Some(_))));
    let nothing_current = NativeReply::Binding(NativeBinding::none());
    let Step::Call(call, state) = state.resume(&mut context, nothing_current) else {
        panic!("the context is made current next");
    };
    assert_eq!(call, make_current(0x51, 0x51, 0xC0));
    let made_current = NativeReply::Boolean { result: egl::TRUE, error: egl::SUCCESS };
    let Step::Call(call, state) = state.resume(&mut context, made_current) else {
        panic!("commands are flushed next");
    };
    assert_eq!(call, NativeCall::Flush);
    assert!(matches!(device.context_surface_info(&context), Ok(Some(_))));
    let step = state.resume(&mut context, NativeReply::Nothing);
    assert_eq!(step, Step::Done(Ok(Some(surface(0x51, id, Win32Objects::Window)))));
    assert_eq!(device.context_surface_info(&context), Ok(None));
}

#[test]
fn detaching_goes_on_when_the_context_cannot_be_made_current() {
    let mut device = Device::new(DISPLAY);
    let mut allocator = ContextIdAllocator::new();
    let mut context = new_context(&mut device, &mut allocator, 0xC0);
    let mut native = Native::new();
    let id = device.context_id(&context);
    let window = surface(0x51, id, Win32Objects::Window);
    assert_eq!(bind(&device, &mut context, &mut native, window), Ok(()));
    native.calls.clear();
    native.refuse_make_current = Some(egl::CONTEXT_LOST);

    let detached = unbind(&device, &mut context, &mut native);
    assert_eq!(detached, Ok(Some(surface(0x51, id, Win32Objects::Window))));
    assert_eq!(native.calls, vec![NativeCall::GetCurrentBinding, make_current(0x51, 0x51, 0xC0)]);
}

#[test]
fn a_second_unbind_yields_nothing() {
    let mut device = Device::new(DISPLAY);
    let mut allocator = ContextIdAllocator::new();
    let mut context = new_context(&mut device, &mut allocator, 0xC0);
    let mut native = Native::new();
    let id = device.context_id(&context);
    let window = surface(0x51, id, Win32Objects::Window);
    assert_eq!(bind(&device, &mut context, &mut native, window), Ok(()));

    assert!(matches!(unbind(&device, &mut context, &mut native), Ok(Some(_))));
    native.calls.clear();
    assert_eq!(unbind(&device, &mut context, &mut native), Ok(None));
    assert_eq!(native.calls, vec![]);
}

#[test]
fn surface_synchronization_is_read_from_its_backing() {
    let id = ContextID(0);
    assert!(surface(1, id, pbuffer(Synchronization::GLFinish)).uses_gl_finish());
    assert!(!surface(1, id, pbuffer(Synchronization::KeyedMutex(2))).uses_gl_finish());
    assert!(!surface(1, id, pbuffer(Synchronization::Unsynchronized)).uses_gl_finish());
    assert!(!surface(1, id, Win32Objects::Window).uses_gl_finish());
    assert_eq!(surface(1, id, pbuffer(Synchronization::KeyedMutex(2))).keyed_mutex(), Some(2));
    assert_eq!(surface(1, id, pbuffer(Synchronization::GLFinish)).keyed_mutex(), None);
    assert_eq!(surface(1, id, Win32Objects::Window).keyed_mutex(), None);
}
