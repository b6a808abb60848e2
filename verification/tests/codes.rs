use surfman::context::{ContextAttributeFlags, ContextID, ContextIdAllocator};
use surfman::egl;
use surfman::error::{to_windowing_api_error, WindowingApiError};
use surfman::native::{NativeBinding, NativeReply, INFINITE, S_OK};

#[test]
fn every_documented_error_code_is_classified() {
    assert_eq!(to_windowing_api_error(0x3001), WindowingApiError::NotInitialized);
    assert_eq!(to_windowing_api_error(0x3002), WindowingApiError::BadAccess);
    assert_eq!(to_windowing_api_error(0x3003), WindowingApiError::BadAlloc);
    assert_eq!(to_windowing_api_error(0x3004), WindowingApiError::BadAttribute);
    assert_eq!(to_windowing_api_error(0x3005), WindowingApiError::BadConfig);
    assert_eq!(to_windowing_api_error(0x3006), WindowingApiError::BadContext);
    assert_eq!(to_windowing_api_error(0x3007), WindowingApiError::BadCurrentSurface);
    assert_eq!(to_windowing_api_error(0x3008), WindowingApiError::BadDisplay);
    assert_eq!(to_windowing_api_error(0x3009), WindowingApiError::BadMatch);
    assert_eq!(to_windowing_api_error(0x300A), WindowingApiError::BadNativePixmap);
    assert_eq!(to_windowing_api_error(0x300B), WindowingApiError::BadNativeWindow);
    assert_eq!(to_windowing_api_error(0x300C), WindowingApiError::BadParameter);
    assert_eq!(to_windowing_api_error(0x300D), WindowingApiError::BadSurface);
    assert_eq!(to_windowing_api_error(0x300E), WindowingApiError::ContextLost);
}

#[test]
fn other_codes_are_unclassified_failures() {
    assert_eq!(to_windowing_api_error(0x3000), WindowingApiError::Failed);
    assert_eq!(to_windowing_api_error(0x300F), WindowingApiError::Failed);
    assert_eq!(to_windowing_api_error(0), WindowingApiError::Failed);
    assert_eq!(to_windowing_api_error(-1), WindowingApiError::Failed);
    assert_eq!(to_windowing_api_error(i32::MAX), WindowingApiError::Failed);
}

#[test]
fn a_boolean_reply_succeeds_on_any_non_zero_result() {
    assert_eq!(NativeReply::Boolean { result: 1, error: 0x3000 }.status(), Ok(()));
    assert_eq!(NativeReply::Boolean { result: 2, error: 0x3009 }.status(), Ok(()));
    assert_eq!(
        NativeReply::Boolean { result: 0, error: 0x3009 }.status(),
        Err(WindowingApiError::BadMatch)
    );
    assert_eq!(
        NativeReply::Boolean { result: 0, error: 0x3000 }.status(),
        Err(WindowingApiError::Failed)
    );
}

#[test]
fn a_reply_of_another_shape_is_a_failed_status() {
    assert_eq!(NativeReply::Nothing.status(), Err(WindowingApiError::Failed));
    assert_eq!(NativeReply::Name(1).status(), Err(WindowingApiError::Failed));
    assert_eq!(NativeReply::HResult(0).status(), Err(WindowingApiError::Failed));
    assert_eq!(
        NativeReply::Handle { handle: 1, error: 0x3000 }.status(),
        Err(WindowingApiError::Failed)
    );
}

#[test]
fn a_handle_reply_creates_unless_the_handle_is_null() {
    assert_eq!(NativeReply::Handle { handle: 0x10, error: 0x3000 }.created(), Ok(0x10));
    assert_eq!(
        NativeReply::Handle { handle: 0, error: 0x3003 }.created(),
        Err(WindowingApiError::BadAlloc)
    );
    assert_eq!(NativeReply::Nothing.created(), Err(WindowingApiError::Failed));
    assert_eq!(
        NativeReply::Boolean { result: 1, error: 0x3000 }.created(),
        Err(WindowingApiError::Failed)
    );
}

#[test]
fn replies_read_as_plain_values() {
    assert_eq!(NativeReply::Handle { handle: 0x10, error: 0x3003 }.handle(), 0x10);
    assert_eq!(NativeReply::Nothing.handle(), 0);
    assert_eq!(NativeReply::Name(12).name(), 12);
    assert_eq!(NativeReply::Handle { handle: 3, error: 0 }.name(), 0);
    let binding = NativeBinding { display: 1, draw: 2, read: 3, context: 4 };
    assert_eq!(NativeReply::Binding(binding).binding(), binding);
    assert_eq!(NativeReply::Nothing.binding(), NativeBinding::none());
    assert_eq!(
        NativeBinding::none(),
        NativeBinding {
            display: egl::NO_DISPLAY,
            draw: egl::NO_SURFACE,
            read: egl::NO_SURFACE,
            context: egl::NO_CONTEXT
        }
    );
}

#[test]
fn synchronization_constants() {
    assert_eq!(S_OK, 0);
    assert_eq!(INFINITE, 4294967295);
}

#[test]
fn flags_have_one_bit_each() {
    assert_eq!(ContextAttributeFlags::empty().bits, 0);
    assert_eq!(ContextAttributeFlags::alpha().bits, 1);
    assert_eq!(ContextAttributeFlags::depth().bits, 2);
    assert_eq!(ContextAttributeFlags::stencil().bits, 4);
    assert_eq!(ContextAttributeFlags::compatibility_profile().bits, 8);
}

#[test]
fn flags_union_and_contains() {
    let depth = ContextAttributeFlags::depth();
    let stencil = ContextAttributeFlags::stencil();
    let both = depth.union(stencil);
    assert_eq!(both.bits, 6);
    assert!(both.contains(depth));
    assert!(both.contains(stencil));
    assert!(both.contains(both));
    assert!(!depth.contains(both));
    assert!(!depth.contains(stencil));
    assert!(depth.contains(ContextAttributeFlags::empty()));
    assert!(!both.contains(ContextAttributeFlags::alpha()));
}

#[test]
fn flags_from_switches() {
    assert_eq!(ContextAttributeFlags::of(false, false, false, false).bits, 0);
    assert_eq!(ContextAttributeFlags::of(true, false, false, false).bits, 1);
    assert_eq!(ContextAttributeFlags::of(false, true, false, false).bits, 2);
    assert_eq!(ContextAttributeFlags::of(false, false, true, false).bits, 4);
    assert_eq!(ContextAttributeFlags::of(false, false, false, true).bits, 8);
    assert_eq!(ContextAttributeFlags::of(true, true, true, true).bits, 15);
}

#[test]
fn allocator_hands_out_increasing_identities() {
    let mut allocator = ContextIdAllocator::new();
    assert!(!allocator.is_exhausted());
    assert_eq!(allocator.allocate(), ContextID(0));
    assert_eq!(allocator.allocate(), ContextID(1));
    assert_eq!(allocator.allocate(), ContextID(2));
    assert!(!allocator.is_exhausted());
}
