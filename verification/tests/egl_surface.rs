use flutter_drm::egl_util::ffi;
use flutter_drm::egl_util::{
    Acquisition, AcquisitionPhase, ContextError, EglCall, EglReply, Fault, PixelFormat,
    PresentError, Step, SurfacePhase, WrappedContext, WrappedSurface,
};

const DISPLAY: usize = 0x10;
const CONTEXT: usize = 0x20;
const CONFIG: usize = 0x30;
const SURFACE: usize = 0x40;
const NEW_SURFACE: usize = 0x50;

fn context() -> WrappedContext {
    WrappedContext {
        display: DISPLAY,
        context: CONTEXT,
        double_buffer: Some(true),
        config_id: CONFIG,
        pixel_format: PixelFormat {
            hardware_accelerated: true,
            color_bits: 24,
            alpha_bits: 8,
            depth_bits: 24,
            stencil_bits: 8,
            stereoscopy: false,
            double_buffer: true,
            multisampling: None,
            srgb: false,
        },
    }
}

fn surface() -> WrappedSurface {
    context().create_surface(SURFACE).unwrap()
}

/// Runs one operation against scripted replies and returns the calls made and
/// how the operation ended.
fn drive(
    surface: &mut WrappedSurface,
    first: Step,
    replies: Vec<EglReply>,
) -> (Vec<EglCall>, Step) {
    let mut calls = Vec::new();
    let mut step = first;
    let mut replies = replies.into_iter();
    while let Step::Call(call) = step {
        calls.push(call);
        let reply = replies.next().expect("the script ran out of replies");
        step = surface.resume(&reply);
    }
    assert!(replies.next().is_none(), "replies were left over");
    (calls, step)
}

#[test]
fn surface_is_bound_to_its_context() {
    assert_eq!(
        context().surface_call(),
        EglCall::CreateWindowSurface {
            display: DISPLAY,
            config: CONFIG
        }
    );
    let s = surface();
    assert_eq!(s.context, CONTEXT);
    assert_eq!(s.display, DISPLAY);
    assert_eq!(s.config_id, CONFIG);
    assert_eq!(s.surface, SURFACE);
    assert_eq!(s.double_buffer, Some(true));
    assert_eq!(s.phase, SurfacePhase::Idle);
    assert_eq!(
        s.surface_attributes(),
        vec![ffi::RENDER_BUFFER, ffi::BACK_BUFFER, ffi::NONE]
    );
}

#[test]
fn invalid_native_window_fails_creation() {
    assert_eq!(
        context().create_surface(0),
        Err(ContextError::SurfaceCreationFailed)
    );
    assert_eq!(
        WrappedSurface::create(CONTEXT, DISPLAY, CONFIG, None, 0),
        Err(ContextError::SurfaceCreationFailed)
    );
}

#[test]
fn plain_present_swaps_and_is_done() {
    let mut s = surface();
    let first = s.swap_buffers();
    let (calls, end) = drive(
        &mut s,
        first,
        vec![
            EglReply::Status { ok: true },
            EglReply::NativeSwap { result: Ok(()) },
            EglReply::Flag { raised: false },
        ],
    );
    assert_eq!(
        calls,
        vec![
            EglCall::SwapBuffers {
                display: DISPLAY,
                surface: SURFACE
            },
            EglCall::SwapNative,
            EglCall::NeedsRecreation,
        ]
    );
    assert_eq!(end, Step::Done(Ok(())));
    assert_eq!(s, surface());
}

#[test]
fn present_recreates_exactly_once_when_asked() {
    let mut s = surface();
    let first = s.swap_buffers();
    let (calls, end) = drive(
        &mut s,
        first,
        vec![
            EglReply::Status { ok: true },
            EglReply::NativeSwap { result: Ok(()) },
            EglReply::Flag { raised: true },
            EglReply::Status { ok: true },
            EglReply::Status { ok: true },
            EglReply::Handle {
                handle: NEW_SURFACE,
            },
        ],
    );
    assert_eq!(
        calls,
        vec![
            EglCall::SwapBuffers {
                display: DISPLAY,
                surface: SURFACE
            },
            EglCall::SwapNative,
            EglCall::NeedsRecreation,
            EglCall::DestroySurface {
                display: DISPLAY,
                surface: SURFACE
            },
            EglCall::RecreateNative,
            EglCall::CreateWindowSurface {
                display: DISPLAY,
                config: CONFIG
            },
        ]
    );
    let creations = calls
        .iter()
        .filter(|c| matches!(c, EglCall::CreateWindowSurface { .. }))
        .count();
    assert_eq!(creations, 1);
    assert_eq!(end, Step::Done(Ok(())));
    assert_eq!(s.surface, NEW_SURFACE);
    assert_eq!(s.config_id, CONFIG);
    assert_eq!(s.context, CONTEXT);
    assert_eq!(s.display, DISPLAY);
    assert_eq!(s.double_buffer, Some(true));
    assert_eq!(s.phase, SurfacePhase::Idle);
}

#[test]
fn present_without_a_handle_recreates_first() {
    let mut s = surface();
    s.surface = 0;
    let first = s.swap_buffers();
    let (calls, end) = drive(
        &mut s,
        first,
        vec![
            EglReply::Flag { raised: false },
            EglReply::Status { ok: true },
            EglReply::Handle {
                handle: NEW_SURFACE,
            },
        ],
    );
    assert_eq!(
        calls,
        vec![
            EglCall::NeedsRecreation,
            EglCall::RecreateNative,
            EglCall::CreateWindowSurface {
                display: DISPLAY,
                config: CONFIG
            },
        ]
    );
    assert_eq!(end, Step::Done(Ok(())));
    assert_eq!(s.surface, NEW_SURFACE);

    let first = s.swap_buffers();
    let (calls, end) = drive(
        &mut s,
        first,
        vec![
            EglReply::Status { ok: true },
            EglReply::NativeSwap { result: Ok(()) },
            EglReply::Flag { raised: false },
        ],
    );
    assert_eq!(
        calls[0],
        EglCall::SwapBuffers {
            display: DISPLAY,
            surface: NEW_SURFACE
        }
    );
    assert_eq!(calls.len(), 3);
    assert_eq!(end, Step::Done(Ok(())));
}

#[test]
fn first_recreation_failure_leaves_no_handle() {
    let mut s = surface();
    let first = s.swap_buffers();
    let (_, end) = drive(
        &mut s,
        first,
        vec![
            EglReply::Status { ok: true },
            EglReply::NativeSwap { result: Ok(()) },
            EglReply::Flag { raised: true },
            EglReply::Status { ok: true },
            EglReply::Status { ok: true },
            EglReply::Handle { handle: 0 },
        ],
    );
    assert_eq!(end, Step::Done(Ok(())));
    assert_eq!(s.surface, 0);
    assert_eq!(s.phase, SurfacePhase::Idle);
}

#[test]
fn second_recreation_failure_in_a_row_is_fatal() {
    let mut s = surface();
    s.surface = 0;
    let first = s.swap_buffers();
    let (calls, end) = drive(
        &mut s,
        first,
        vec![
            EglReply::Flag { raised: true },
            EglReply::Status { ok: true },
            EglReply::Handle { handle: 0 },
        ],
    );
    assert_eq!(calls.len(), 3);
    assert_eq!(end, Step::Fatal(Fault::RecreationFailed));
    assert_eq!(s.surface, 0);
}

#[test]
fn lost_context_on_swap_is_recoverable() {
    let mut s = surface();
    let first = s.swap_buffers();
    let (calls, end) = drive(
        &mut s,
        first,
        vec![
            EglReply::Status { ok: false },
            EglReply::Error {
                code: ffi::CONTEXT_LOST,
            },
        ],
    );
    assert_eq!(
        calls,
        vec![
            EglCall::SwapBuffers {
                display: DISPLAY,
                surface: SURFACE
            },
            EglCall::GetError
        ]
    );
    assert_eq!(end, Step::Done(Err(PresentError::ContextLost)));
    assert!(PresentError::ContextLost.is_recoverable());
    assert_eq!(s.surface, SURFACE);
}

#[test]
fn other_swap_errors_are_unknown() {
    let mut s = surface();
    let first = s.swap_buffers();
    let (_, end) = drive(
        &mut s,
        first,
        vec![
            EglReply::Status { ok: false },
            EglReply::Error { code: 0x300D },
        ],
    );
    assert_eq!(
        end,
        Step::Done(Err(PresentError::Unknown { code: 0x300D }))
    );
    assert!(!PresentError::Unknown { code: 0x300D }.is_recoverable());
    assert!(!PresentError::AlreadySwapped.is_recoverable());
}

#[test]
fn native_swap_error_ends_the_present() {
    let mut s = surface();
    let first = s.swap_buffers();
    let (calls, end) = drive(
        &mut s,
        first,
        vec![
            EglReply::Status { ok: true },
            EglReply::NativeSwap {
                result: Err(PresentError::AlreadySwapped),
            },
        ],
    );
    assert_eq!(calls.len(), 2);
    assert_eq!(end, Step::Done(Err(PresentError::AlreadySwapped)));
}

/// Runs a binding against scripted replies and returns the calls made and how
/// the binding ended.
fn acquire(mut acquisition: Acquisition, replies: Vec<EglReply>) -> (Vec<EglCall>, Step) {
    let mut calls = Vec::new();
    let mut step = acquisition.step();
    let mut replies = replies.into_iter();
    while let Step::Call(call) = step {
        calls.push(call);
        let reply = replies.next().expect("the script ran out of replies");
        step = acquisition.resume(&reply);
        assert_eq!(step, acquisition.step());
    }
    assert!(replies.next().is_none(), "replies were left over");
    (calls, step)
}

#[test]
fn make_current_binds_surface_and_context() {
    let s = surface();
    let (calls, end) = acquire(s.make_current(), vec![EglReply::Status { ok: true }]);
    assert_eq!(
        calls,
        vec![EglCall::MakeCurrent {
            display: DISPLAY,
            draw: SURFACE,
            read: SURFACE,
            context: CONTEXT
        }]
    );
    assert_eq!(end, Step::Done(Ok(())));
}

#[test]
fn make_current_reports_a_lost_context() {
    let s = surface();
    let (calls, end) = acquire(
        s.make_current(),
        vec![
            EglReply::Status { ok: false },
            EglReply::Error {
                code: ffi::CONTEXT_LOST,
            },
        ],
    );
    assert_eq!(calls.len(), 2);
    assert_eq!(calls[1], EglCall::GetError);
    assert_eq!(end, Step::Done(Err(PresentError::ContextLost)));
}

#[test]
fn make_current_with_a_stale_handle_is_fatal() {
    let s = surface();
    let (_, end) = acquire(
        s.make_current(),
        vec![
            EglReply::Status { ok: false },
            EglReply::Error { code: 0x300D },
        ],
    );
    assert_eq!(
        end,
        Step::Fatal(Fault::MakeCurrentFailed { code: 0x300D })
    );
}

#[test]
fn resource_context_is_bound_without_a_surface() {
    let (calls, end) = acquire(
        context().make_current(),
        vec![EglReply::Status { ok: true }],
    );
    assert_eq!(
        calls,
        vec![EglCall::MakeCurrent {
            display: DISPLAY,
            draw: 0,
            read: 0,
            context: CONTEXT
        }]
    );
    assert_eq!(end, Step::Done(Ok(())));
    let (_, end) = acquire(
        context().make_current(),
        vec![
            EglReply::Status { ok: false },
            EglReply::Error {
                code: ffi::CONTEXT_LOST,
            },
        ],
    );
    assert_eq!(end, Step::Done(Err(PresentError::ContextLost)));
}

#[test]
fn a_binding_that_ended_stays_ended() {
    let mut acquisition = surface().make_current();
    assert_eq!(acquisition.phase, AcquisitionPhase::MakeCurrent);
    assert_eq!(
        acquisition.resume(&EglReply::Status { ok: true }),
        Step::Done(Ok(()))
    );
    assert_eq!(
        acquisition.resume(&EglReply::Status { ok: false }),
        Step::Done(Ok(()))
    );
    assert_eq!(
        acquisition.resume(&EglReply::Error { code: 1 }),
        Step::Done(Ok(()))
    );
}

#[test]
fn a_binding_refuses_replies_of_the_wrong_kind() {
    let mut acquisition = surface().make_current();
    assert_eq!(
        acquisition.resume(&EglReply::Handle { handle: 1 }),
        Step::Fatal(Fault::UnexpectedReply)
    );
    let mut acquisition = surface().make_current();
    acquisition.resume(&EglReply::Status { ok: false });
    assert_eq!(
        acquisition.resume(&EglReply::Status { ok: true }),
        Step::Fatal(Fault::UnexpectedReply)
    );
}

#[test]
fn unexpected_replies_are_faults() {
    let mut s = surface();
    assert_eq!(
        s.resume(&EglReply::Status { ok: true }),
        Step::Fatal(Fault::UnexpectedReply)
    );
    s.swap_buffers();
    assert_eq!(
        s.resume(&EglReply::Handle { handle: 1 }),
        Step::Fatal(Fault::UnexpectedReply)
    );
    assert_eq!(s.phase, SurfacePhase::Idle);
    assert_eq!(s.surface, SURFACE);
}

#[test]
fn surface_knows_whether_it_is_current() {
    let s = surface();
    assert!(s.is_current(SURFACE, SURFACE));
    assert!(!s.is_current(SURFACE, 0));
    assert!(!s.is_current(0, SURFACE));
    assert!(!s.is_current(NEW_SURFACE, NEW_SURFACE));
}

#[test]
fn destroying_releases_the_native_handle() {
    assert_eq!(
        surface().destroy(),
        EglCall::DestroySurface {
            display: DISPLAY,
            surface: SURFACE
        }
    );
}
