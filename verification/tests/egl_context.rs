use flutter_drm::egl_util::attributes::surface_attributes as surface_list;
use flutter_drm::egl_util::context::attribute_to_query;
use flutter_drm::egl_util::ffi;
use flutter_drm::egl_util::{
    ContextError, ContextStep, EglCall, EglReply, Negotiation, NegotiationPhase, PixelFormat,
    PixelFormatRequirements, WrappedContext, WrappedDisplay,
};

const DISPLAY: usize = 0x1000;
const SHARE: usize = 0x2000;
const CONFIG: usize = 0x3000;
const CONTEXT: usize = 0x4000;

/// A driver that answers every call the way a healthy EGL 1.5 would.
fn healthy(call: &EglCall) -> EglReply {
    match *call {
        EglCall::Initialize { display } => {
            assert_eq!(display, DISPLAY);
            EglReply::Version {
                ok: true,
                major: 1,
                minor: 5,
            }
        }
        EglCall::QueryExtensions { display } => {
            assert_eq!(display, DISPLAY);
            EglReply::Extensions {
                list: b"EGL_KHR_image EGL_KHR_create_context".to_vec(),
            }
        }
        EglCall::BindApi { api } => {
            assert_eq!(api, ffi::OPENGL_ES_API);
            EglReply::Status { ok: true }
        }
        EglCall::ChooseConfig {
            display,
            config_size,
        } => {
            assert_eq!(display, DISPLAY);
            assert_eq!(config_size, 1);
            EglReply::Config {
                ok: true,
                config: CONFIG,
                count: 1,
            }
        }
        EglCall::GetConfigAttrib {
            display,
            config,
            attribute,
        } => {
            assert_eq!(display, DISPLAY);
            assert_eq!(config, CONFIG);
            let value = match attribute {
                a if a == ffi::CONFIG_CAVEAT => ffi::NONE,
                a if a == ffi::RED_SIZE => 8,
                a if a == ffi::GREEN_SIZE => 9,
                a if a == ffi::BLUE_SIZE => 7,
                a if a == ffi::ALPHA_SIZE => 8,
                a if a == ffi::DEPTH_SIZE => 24,
                a if a == ffi::STENCIL_SIZE => 8,
                a if a == ffi::SAMPLES => 4,
                other => panic!("unexpected attribute {:#x}", other),
            };
            EglReply::Attribute { ok: true, value }
        }
        EglCall::CreateContext {
            display,
            config,
            share_context,
        } => {
            assert_eq!(display, DISPLAY);
            assert_eq!(config, CONFIG);
            assert_eq!(share_context, SHARE);
            EglReply::Handle { handle: CONTEXT }
        }
        other => panic!("unexpected call {:?}", other),
    }
}

fn run(mut n: Negotiation, driver: &dyn Fn(&EglCall) -> EglReply) -> (Negotiation, Vec<EglCall>) {
    let mut calls = Vec::new();
    let mut step = n.step();
    let mut budget = 64;
    while let ContextStep::Call(call) = step {
        budget -= 1;
        assert!(budget > 0);
        calls.push(call);
        step = n.resume(&driver(&call));
        assert_eq!(step, n.step());
    }
    (n, calls)
}

#[test]
fn display_must_be_current() {
    assert_eq!(
        WrappedDisplay::get_current(0),
        Err(ContextError::NoCurrentDisplay)
    );
    assert_eq!(
        WrappedDisplay::get_current(DISPLAY),
        Ok(WrappedDisplay { display: DISPLAY })
    );
}

#[test]
fn clearing_releases_everything() {
    let display = WrappedDisplay { display: DISPLAY };
    assert_eq!(
        display.clear_current(),
        EglCall::MakeCurrent {
            display: DISPLAY,
            draw: 0,
            read: 0,
            context: 0
        }
    );
}

#[test]
fn resource_context_needs_a_current_display() {
    assert_eq!(
        WrappedContext::create_context(SHARE, 0),
        Err(ContextError::NoCurrentDisplay)
    );
    let n = WrappedContext::create_context(SHARE, DISPLAY).unwrap();
    assert_eq!(n.display, DISPLAY);
    assert_eq!(n.share_context, SHARE);
    assert_eq!(n.version, (3, 0));
    assert_eq!(n.requirements, PixelFormatRequirements::default());
    assert_eq!(n.phase, NegotiationPhase::Initialize);
}

#[test]
fn negotiation_starts_with_initialize() {
    let n = WrappedContext::create_context_dir(SHARE, DISPLAY);
    assert_eq!(
        n.step(),
        ContextStep::Call(EglCall::Initialize { display: DISPLAY })
    );
    assert_eq!(n.finish(), None);
}

#[test]
fn healthy_negotiation_yields_a_context() {
    let n = WrappedContext::create_context_dir(SHARE, DISPLAY);
    let (n, calls) = run(n, &healthy);
    assert_eq!(n.step(), ContextStep::Ready);
    assert_eq!(
        calls,
        vec![
            EglCall::Initialize { display: DISPLAY },
            EglCall::QueryExtensions { display: DISPLAY },
            EglCall::BindApi {
                api: ffi::OPENGL_ES_API
            },
            EglCall::ChooseConfig {
                display: DISPLAY,
                config_size: 1
            },
            EglCall::GetConfigAttrib {
                display: DISPLAY,
                config: CONFIG,
                attribute: ffi::CONFIG_CAVEAT
            },
            EglCall::GetConfigAttrib {
                display: DISPLAY,
                config: CONFIG,
                attribute: ffi::RED_SIZE
            },
            EglCall::GetConfigAttrib {
                display: DISPLAY,
                config: CONFIG,
                attribute: ffi::BLUE_SIZE
            },
            EglCall::GetConfigAttrib {
                display: DISPLAY,
                config: CONFIG,
                attribute: ffi::GREEN_SIZE
            },
            EglCall::GetConfigAttrib {
                display: DISPLAY,
                config: CONFIG,
                attribute: ffi::ALPHA_SIZE
            },
            EglCall::GetConfigAttrib {
                display: DISPLAY,
                config: CONFIG,
                attribute: ffi::DEPTH_SIZE
            },
            EglCall::GetConfigAttrib {
                display: DISPLAY,
                config: CONFIG,
                attribute: ffi::STENCIL_SIZE
            },
            EglCall::GetConfigAttrib {
                display: DISPLAY,
                config: CONFIG,
                attribute: ffi::SAMPLES
            },
            EglCall::CreateContext {
                display: DISPLAY,
                config: CONFIG,
                share_context: SHARE
            },
        ]
    );
    let context = n.finish().unwrap();
    assert_eq!(
        context,
        WrappedContext {
            display: DISPLAY,
            context: CONTEXT,
            double_buffer: Some(true),
            config_id: CONFIG,
            pixel_format: PixelFormat {
                hardware_accelerated: true,
                color_bits: 24,
                alpha_bits: 8,
                depth_bits: 24,
                stencil_bits: 8,
                stereoscopy: false,
                double_buffer: true,
                multisampling: Some(4),
                srgb: false,
            },
        }
    );
    assert_eq!(context.pixel_format.color_bits, 8 + 9 + 7);
    assert_eq!(
        context.surface_attributes(),
        surface_list(Some(true))
    );
}

#[test]
fn attribute_lists_go_with_their_calls() {
    let mut n = WrappedContext::create_context_dir(SHARE, DISPLAY);
    assert_eq!(n.config_attributes(), None);
    assert_eq!(n.context_attributes(), None);
    let mut step = n.step();
    let mut seen_config = false;
    let mut seen_context = false;
    while let ContextStep::Call(call) = step {
        match call {
            EglCall::ChooseConfig { .. } => {
                let list = n.config_attributes().unwrap();
                assert_eq!(list.len(), 23);
                assert_eq!(list[0], ffi::COLOR_BUFFER_TYPE);
                assert_eq!(*list.last().unwrap(), ffi::NONE);
                assert_eq!(n.context_attributes(), None);
                seen_config = true;
            }
            EglCall::CreateContext { .. } => {
                assert_eq!(
                    n.context_attributes().unwrap(),
                    vec![
                        ffi::CONTEXT_MAJOR_VERSION,
                        3,
                        ffi::CONTEXT_MINOR_VERSION,
                        0,
                        ffi::CONTEXT_FLAGS_KHR,
                        0,
                        ffi::NONE
                    ]
                );
                assert_eq!(n.config_attributes(), None);
                seen_context = true;
            }
            _ => {
                assert_eq!(n.config_attributes(), None);
                assert_eq!(n.context_attributes(), None);
            }
        }
        step = n.resume(&healthy(&call));
    }
    assert!(seen_config && seen_context);
}

#[test]
fn old_egl_skips_extensions_and_api_binding() {
    let driver = |call: &EglCall| match *call {
        EglCall::Initialize { .. } => EglReply::Version {
            ok: true,
            major: 1,
            minor: 1,
        },
        other => panic!("unexpected call {:?}", other),
    };
    let (n, calls) = run(WrappedContext::create_context_dir(SHARE, DISPLAY), &driver);
    assert_eq!(calls, vec![EglCall::Initialize { display: DISPLAY }]);
    assert_eq!(
        n.step(),
        ContextStep::Failed(ContextError::OpenGlVersionNotSupported { major: 3, minor: 0 })
    );
}

#[test]
fn egl_1_4_without_the_extension_asks_by_client_version() {
    let driver = |call: &EglCall| match *call {
        EglCall::Initialize { .. } => EglReply::Version {
            ok: true,
            major: 1,
            minor: 4,
        },
        EglCall::QueryExtensions { .. } => EglReply::Extensions {
            list: b"EGL_KHR_image".to_vec(),
        },
        _ => healthy(call),
    };
    let mut n = WrappedContext::create_context_dir(SHARE, DISPLAY);
    let mut step = n.step();
    let mut list = None;
    while let ContextStep::Call(call) = step {
        if let EglCall::CreateContext { .. } = call {
            list = n.context_attributes();
        }
        step = n.resume(&driver(&call));
    }
    assert_eq!(step, ContextStep::Ready);
    assert_eq!(list, Some(vec![ffi::CONTEXT_CLIENT_VERSION, 3, ffi::NONE]));
}

fn failing_at(fail: EglCall, reply: fn() -> EglReply) -> ContextStep {
    let driver = move |call: &EglCall| {
        if std::mem::discriminant(call) == std::mem::discriminant(&fail) {
            reply()
        } else {
            healthy(call)
        }
    };
    let (n, _) = run(WrappedContext::create_context_dir(SHARE, DISPLAY), &driver);
    n.step()
}

#[test]
fn failed_initialize_is_fatal() {
    assert_eq!(
        failing_at(EglCall::Initialize { display: 0 }, || EglReply::Version {
            ok: false,
            major: 0,
            minor: 0
        }),
        ContextStep::Failed(ContextError::InitializeFailed)
    );
}

#[test]
fn failed_api_binding_is_fatal() {
    assert_eq!(
        failing_at(EglCall::BindApi { api: 0 }, || EglReply::Status { ok: false }),
        ContextStep::Failed(ContextError::OpenGlesNotSupported)
    );
}

#[test]
fn failed_choose_config_is_fatal() {
    assert_eq!(
        failing_at(
            EglCall::ChooseConfig {
                display: 0,
                config_size: 0
            },
            || EglReply::Config {
                ok: false,
                config: 0,
                count: 0
            }
        ),
        ContextStep::Failed(ContextError::ConfigFailed)
    );
}

#[test]
fn zero_matching_configs_is_fatal() {
    assert_eq!(
        failing_at(
            EglCall::ChooseConfig {
                display: 0,
                config_size: 0
            },
            || EglReply::Config {
                ok: true,
                config: 0,
                count: 0
            }
        ),
        ContextStep::Failed(ContextError::NoAvailablePixelFormat)
    );
}

#[test]
fn failed_attribute_query_is_fatal() {
    assert_eq!(
        failing_at(
            EglCall::GetConfigAttrib {
                display: 0,
                config: 0,
                attribute: 0
            },
            || EglReply::Attribute {
                ok: false,
                value: 0
            }
        ),
        ContextStep::Failed(ContextError::AttributeQueryFailed {
            attribute: ffi::CONFIG_CAVEAT
        })
    );
}

#[test]
fn impossible_attribute_value_is_fatal() {
    assert_eq!(
        failing_at(
            EglCall::GetConfigAttrib {
                display: 0,
                config: 0,
                attribute: 0
            },
            || EglReply::Attribute {
                ok: true,
                value: 100
            }
        ),
        ContextStep::Failed(ContextError::ColorBitsOutOfRange { bits: 300 })
    );
}

#[test]
fn rejected_context_attributes_are_fatal() {
    let driver = |call: &EglCall| match *call {
        EglCall::CreateContext { .. } => EglReply::Handle { handle: 0 },
        EglCall::GetError => EglReply::Error {
            code: ffi::BAD_ATTRIBUTE,
        },
        _ => healthy(call),
    };
    let (n, calls) = run(WrappedContext::create_context_dir(SHARE, DISPLAY), &driver);
    assert_eq!(*calls.last().unwrap(), EglCall::GetError);
    assert_eq!(n.step(), ContextStep::Failed(ContextError::CreationFailed));
    assert_eq!(n.finish(), None);
}

#[test]
fn other_creation_errors_carry_their_code() {
    let driver = |call: &EglCall| match *call {
        EglCall::CreateContext { .. } => EglReply::Handle { handle: 0 },
        EglCall::GetError => EglReply::Error { code: 0x3003 },
        _ => healthy(call),
    };
    let (n, _) = run(WrappedContext::create_context_dir(SHARE, DISPLAY), &driver);
    assert_eq!(
        n.step(),
        ContextStep::Failed(ContextError::Unknown { code: 0x3003 })
    );
}

#[test]
fn a_failed_negotiation_is_never_retried() {
    let mut n = WrappedContext::create_context_dir(SHARE, DISPLAY);
    n.resume(&EglReply::Version {
        ok: false,
        major: 0,
        minor: 0,
    });
    let failed = n;
    for reply in [
        EglReply::Version {
            ok: true,
            major: 1,
            minor: 5,
        },
        EglReply::Status { ok: true },
        EglReply::Handle { handle: CONTEXT },
    ] {
        assert_eq!(
            n.resume(&reply),
            ContextStep::Failed(ContextError::InitializeFailed)
        );
        assert_eq!(n, failed);
    }
}

#[test]
fn a_reply_of_the_wrong_kind_ends_the_negotiation() {
    let mut n = WrappedContext::create_context_dir(SHARE, DISPLAY);
    assert_eq!(
        n.resume(&EglReply::Status { ok: true }),
        ContextStep::Failed(ContextError::UnexpectedReply)
    );
}

#[test]
fn a_ready_negotiation_ignores_replies() {
    let (mut n, _) = run(WrappedContext::create_context_dir(SHARE, DISPLAY), &healthy);
    let ready = n;
    assert_eq!(n.resume(&EglReply::Handle { handle: 0 }), ContextStep::Ready);
    assert_eq!(n, ready);
}

#[test]
fn queries_follow_the_fixed_order() {
    let order: Vec<i32> = (0..8).map(attribute_to_query).collect();
    assert_eq!(
        order,
        vec![
            ffi::CONFIG_CAVEAT,
            ffi::RED_SIZE,
            ffi::BLUE_SIZE,
            ffi::GREEN_SIZE,
            ffi::ALPHA_SIZE,
            ffi::DEPTH_SIZE,
            ffi::STENCIL_SIZE,
            ffi::SAMPLES
        ]
    );
}

fn context() -> WrappedContext {
    run(WrappedContext::create_context_dir(SHARE, DISPLAY), &healthy)
        .0
        .finish()
        .unwrap()
}

#[test]
fn context_knows_whether_it_is_current() {
    assert!(context().is_current(CONTEXT));
    assert!(!context().is_current(0));
    assert!(!context().is_current(SHARE));
}

#[test]
fn proc_names_are_zero_terminated() {
    assert_eq!(
        context().get_proc_address("glClear"),
        Some(b"glClear\0".to_vec())
    );
    assert_eq!(context().get_proc_address(""), Some(vec![0]));
    assert_eq!(context().get_proc_address("gl\0Clear"), None);
}

#[test]
fn stereoscopy_ends_the_negotiation_before_a_config_is_asked_for() {
    let mut reqs = PixelFormatRequirements::default();
    reqs.stereoscopy = true;
    let (n, calls) = run(Negotiation::new((3, 0), SHARE, DISPLAY, reqs), &healthy);
    assert_eq!(
        calls,
        vec![
            EglCall::Initialize { display: DISPLAY },
            EglCall::QueryExtensions { display: DISPLAY },
            EglCall::BindApi {
                api: ffi::OPENGL_ES_API
            },
        ]
    );
    assert_eq!(
        n.step(),
        ContextStep::Failed(ContextError::StereoscopyUnsupported)
    );
}

#[test]
fn version_two_contexts_can_be_negotiated() {
    let mut n = Negotiation::new((2, 0), 0, DISPLAY, PixelFormatRequirements::default());
    let mut step = n.step();
    let mut config_list = None;
    let mut context_list = None;
    while let ContextStep::Call(call) = step {
        match call {
            EglCall::ChooseConfig { .. } => config_list = n.config_attributes(),
            EglCall::CreateContext { share_context, .. } => {
                assert_eq!(share_context, 0);
                context_list = n.context_attributes();
            }
            _ => {}
        }
        let reply = match call {
            EglCall::CreateContext { .. } => EglReply::Handle { handle: CONTEXT },
            _ => healthy(&call),
        };
        step = n.resume(&reply);
    }
    assert_eq!(step, ContextStep::Ready);
    let config_list = config_list.unwrap();
    assert_eq!(config_list[5], ffi::OPENGL_ES2_BIT);
    assert_eq!(config_list[7], ffi::OPENGL_ES2_BIT);
    assert_eq!(
        context_list.unwrap(),
        vec![
            ffi::CONTEXT_MAJOR_VERSION,
            2,
            ffi::CONTEXT_MINOR_VERSION,
            0,
            ffi::CONTEXT_FLAGS_KHR,
            0,
            ffi::NONE
        ]
    );
}

#[test]
fn unsupported_client_version_ends_the_negotiation() {
    let (n, _) = run(
        Negotiation::new((1, 1), SHARE, DISPLAY, PixelFormatRequirements::default()),
        &healthy,
    );
    assert_eq!(
        n.step(),
        ContextStep::Failed(ContextError::OpenGlVersionNotSupported { major: 1, minor: 1 })
    );
}
