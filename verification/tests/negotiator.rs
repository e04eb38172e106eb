use wgl_bootstrap::attributes::FormatRequest;
use wgl_bootstrap::format::{PixelFormatDescriptor, PFD_TYPE_RGBA};
use wgl_bootstrap::negotiator::{
    chooser_address, Action, Event, Negotiator, SetupError, Stage, Surface,
};
use wgl_bootstrap::runs::bootstrap;
use wgl_bootstrap::surface::{Role, Window, WindowClass, WindowRequest};
use wgl_bootstrap::symbols::{Probe, Source};

const INSTANCE: isize = 0x40_0000;
const TEMP_WINDOW: isize = 0x101;
const TEMP_DC: isize = 0x102;
const TEMP_CONTEXT: isize = 0x103;
const REAL_WINDOW: isize = 0x201;
const REAL_DC: isize = 0x202;
const REAL_CONTEXT: isize = 0x203;
const LIBRARY: isize = 0x7000;
const CHOOSER: usize = 0x7F00;
const BASIC_FORMAT: i32 = 7;
const NEGOTIATED_FORMAT: i32 = 42;

/// The descriptor that the simulated driver reports for the negotiated
/// format.
fn described() -> PixelFormatDescriptor {
    PixelFormatDescriptor {
        size: 40,
        version: 1,
        flags: 0x25,
        pixel_type: PFD_TYPE_RGBA,
        color_bits: 24,
        red_bits: 8,
        green_bits: 8,
        blue_bits: 8,
        depth_bits: 24,
        stencil_bits: 8,
        ..PixelFormatDescriptor::zeroed()
    }
}

/// A platform on which every call succeeds.
fn answer(action: Action) -> Event {
    match action {
        Action::GetInstance => Event::Instance { found: true, instance: INSTANCE },
        Action::RegisterClass { .. } => Event::ClassRegistered { atom: 0xC001, last_error: 0 },
        Action::CreateWindow { role: Role::Temporary, .. } => Event::WindowCreated(TEMP_WINDOW),
        Action::CreateWindow { role: Role::Rendering, .. } => Event::WindowCreated(REAL_WINDOW),
        Action::GetDeviceContext { window } => {
            Event::DeviceContext(if window == TEMP_WINDOW { TEMP_DC } else { REAL_DC })
        }
        Action::ChooseBasicFormat { .. } => Event::BasicFormat(BASIC_FORMAT),
        Action::ApplyFormat { .. } => Event::FormatApplied(true),
        Action::CreateContext { dc } => {
            Event::ContextCreated(if dc == TEMP_DC { TEMP_CONTEXT } else { REAL_CONTEXT })
        }
        Action::MakeCurrent { .. } => Event::MadeCurrent(true),
        Action::LocateLibrary => Event::Library(LIBRARY),
        Action::LoadFunctions { .. } => Event::FunctionsLoaded,
        Action::ResolveChooser => {
            Event::EntryPoint(Probe::Resolved { address: CHOOSER, source: Source::Extension })
        }
        Action::ChooseNegotiatedFormat { .. } => {
            Event::Negotiated { accepted: true, format: NEGOTIATED_FORMAT, matches: 1 }
        }
        Action::DescribeFormat { .. } => Event::Described { result: 1, descriptor: described() },
        Action::Show { .. } => Event::Shown,
        Action::Abort(_) | Action::Done => unreachable!("nothing answers {:?}", action),
    }
}

/// Runs a bootstrap on the platform on which every call succeeds, except
/// that the request for which `spoil` gives an event is answered with it.
fn run(spoil: &dyn Fn(&Action) -> Option<Event>) -> (Negotiator, Vec<Action>) {
    let mut negotiator = Negotiator::new();
    let mut requests = Vec::new();
    let mut action = negotiator.step(Event::Start);
    loop {
        requests.push(action);
        match action {
            Action::Abort(_) | Action::Done => break,
            _ => {}
        }
        let event = match spoil(&action) {
            Some(event) => event,
            None => answer(action),
        };
        action = negotiator.step(event);
    }
    (negotiator, requests)
}

fn run_to_the_end() -> (Negotiator, Vec<Action>) {
    run(&|_| None)
}

fn failure_of(spoil: &dyn Fn(&Action) -> Option<Event>) -> (Option<SetupError>, Vec<Action>) {
    let (negotiator, requests) = run(spoil);
    (negotiator.failure(), requests)
}

#[test]
fn new_negotiator_knows_nothing() {
    let negotiator = Negotiator::new();
    assert_eq!(negotiator.stage, Stage::Idle);
    assert_eq!(negotiator.instance, 0);
    assert_eq!(negotiator.temporary, Surface::unknown());
    assert_eq!(negotiator.rendering, Surface::unknown());
    assert_eq!(negotiator.temporary_context, 0);
    assert_eq!(negotiator.rendering_context, 0);
    assert_eq!(negotiator.library, 0);
    assert_eq!(negotiator.entry_point, 0);
    assert_eq!(negotiator.current, None);
    assert!(!negotiator.is_ready());
    assert_eq!(negotiator.failure(), None);
    assert_eq!(negotiator.window(), None);
    assert_eq!(negotiator.temporary_window(), None);
}

#[test]
fn unknown_surface_is_all_zero() {
    let surface = Surface::unknown();
    assert_eq!(surface.window, 0);
    assert_eq!(surface.dc, 0);
    assert_eq!(surface.format, 0);
    assert_eq!(surface.descriptor, PixelFormatDescriptor::zeroed());
}

#[test]
fn successful_bootstrap_issues_the_requests_in_order() {
    let (negotiator, requests) = run_to_the_end();
    let basic = PixelFormatDescriptor::basic();
    let placement = WindowRequest {
        extended_style: 0,
        style: 0x00CF_0000,
        x: i32::MIN,
        y: i32::MIN,
        width: i32::MIN,
        height: i32::MIN,
    };
    assert_eq!(
        requests,
        vec![
            Action::GetInstance,
            Action::RegisterClass {
                role: Role::Temporary,
                instance: INSTANCE,
                class: WindowClass { style: 0x2B, cursor: 32512, handler: Role::Temporary }
            },
            Action::CreateWindow { role: Role::Temporary, instance: INSTANCE, request: placement },
            Action::GetDeviceContext { window: TEMP_WINDOW },
            Action::ChooseBasicFormat { dc: TEMP_DC, descriptor: basic },
            Action::ApplyFormat { dc: TEMP_DC, format: BASIC_FORMAT, descriptor: basic },
            Action::CreateContext { dc: TEMP_DC },
            Action::MakeCurrent { dc: TEMP_DC, context: TEMP_CONTEXT },
            Action::LocateLibrary,
            Action::LoadFunctions { library: LIBRARY },
            Action::ResolveChooser,
            Action::ChooseNegotiatedFormat {
                chooser: CHOOSER,
                dc: TEMP_DC,
                wanted: FormatRequest { color_bits: 24, depth_bits: 24, stencil_bits: 8, samples: 4 },
                max_formats: 1
            },
            Action::DescribeFormat { dc: TEMP_DC, format: NEGOTIATED_FORMAT },
            Action::GetInstance,
            Action::RegisterClass {
                role: Role::Rendering,
                instance: INSTANCE,
                class: WindowClass { style: 0x2B, cursor: 32512, handler: Role::Rendering }
            },
            Action::CreateWindow { role: Role::Rendering, instance: INSTANCE, request: placement },
            Action::GetDeviceContext { window: REAL_WINDOW },
            Action::ApplyFormat {
                dc: REAL_DC,
                format: NEGOTIATED_FORMAT,
                descriptor: described()
            },
            Action::CreateContext { dc: REAL_DC },
            Action::MakeCurrent { dc: REAL_DC, context: REAL_CONTEXT },
            Action::Show { window: REAL_WINDOW },
            Action::Done,
        ]
    );
    assert_eq!(requests.len(), 22);
    assert!(negotiator.is_ready());
    assert_eq!(negotiator.stage, Stage::Ready);
    assert_eq!(negotiator.failure(), None);
}

#[test]
fn end_to_end_basic_then_negotiated_surface() {
    let (negotiator, requests) = run_to_the_end();
    // the temporary surface carries the basic format
    assert_eq!(negotiator.temporary.window, TEMP_WINDOW);
    assert_eq!(negotiator.temporary.dc, TEMP_DC);
    assert_eq!(negotiator.temporary.format, BASIC_FORMAT);
    assert_eq!(negotiator.temporary.descriptor.pixel_type, PFD_TYPE_RGBA);
    assert_eq!(negotiator.temporary.descriptor.color_bits, 32);
    assert_eq!(negotiator.temporary.descriptor.depth_bits, 24);
    assert_eq!(negotiator.temporary.descriptor.stencil_bits, 8);
    assert!(negotiator.temporary.descriptor.has_flag(0x1));
    // the rendering surface carries the negotiated one
    assert_eq!(negotiator.rendering.window, REAL_WINDOW);
    assert_eq!(negotiator.rendering.dc, REAL_DC);
    assert_eq!(negotiator.rendering.format, NEGOTIATED_FORMAT);
    assert_eq!(negotiator.rendering.descriptor.depth_bits, 24);
    assert_eq!(negotiator.rendering.descriptor.stencil_bits, 8);
    assert_eq!(negotiator.rendering.descriptor, described());
    // which came from the extended chooser: the generic one was asked once,
    // for the temporary surface
    let generic: Vec<&Action> =
        requests.iter().filter(|a| matches!(a, Action::ChooseBasicFormat { .. })).collect();
    assert_eq!(generic.len(), 1);
    assert!(matches!(generic[0], Action::ChooseBasicFormat { dc: TEMP_DC, .. }));
    let extended =
        requests.iter().position(|a| matches!(a, Action::ChooseNegotiatedFormat { .. })).unwrap();
    let applied = requests
        .iter()
        .position(|a| matches!(a, Action::ApplyFormat { dc: REAL_DC, .. }))
        .unwrap();
    assert!(extended < applied);
    assert_eq!(negotiator.entry_point, CHOOSER);
    assert_eq!(negotiator.library, LIBRARY);
    assert_eq!(negotiator.current, Some(Role::Rendering));
    assert_eq!(negotiator.temporary_context, TEMP_CONTEXT);
    assert_eq!(negotiator.rendering_context, REAL_CONTEXT);
}

#[test]
fn completed_bootstrap_hands_out_both_windows() {
    let (negotiator, _) = run_to_the_end();
    assert_eq!(negotiator.window(), Some(Window::new(REAL_WINDOW, REAL_DC, REAL_CONTEXT)));
    assert_eq!(
        negotiator.temporary_window(),
        Some(Window::new(TEMP_WINDOW, TEMP_DC, TEMP_CONTEXT))
    );
}

#[test]
fn completed_bootstrap_has_nothing_left_to_ask() {
    let (mut negotiator, _) = run_to_the_end();
    let before = negotiator;
    assert_eq!(negotiator.step(Event::Start), Action::Done);
    assert_eq!(negotiator.step(Event::MadeCurrent(false)), Action::Done);
    assert_eq!(negotiator.step(Event::Instance { found: false, instance: 0 }), Action::Done);
    assert_eq!(negotiator, before);
}

#[test]
fn minimal_context_is_current_before_any_extension_is_resolved() {
    let (_, requests) = run_to_the_end();
    let activation = requests
        .iter()
        .position(|a| *a == Action::MakeCurrent { dc: TEMP_DC, context: TEMP_CONTEXT })
        .unwrap();
    for (at, request) in requests.iter().enumerate() {
        if matches!(
            request,
            Action::LoadFunctions { .. }
                | Action::ResolveChooser
                | Action::ChooseNegotiatedFormat { .. }
        ) {
            assert!(activation < at);
        }
    }
}

#[test]
fn extension_resolution_waits_for_the_activation_to_succeed() {
    let (negotiator, requests) = run(&|action| match action {
        Action::MakeCurrent { .. } => Some(Event::MadeCurrent(false)),
        _ => None,
    });
    assert_eq!(negotiator.failure(), Some(SetupError::ContextActivation));
    assert_eq!(negotiator.current, None);
    assert!(!requests.iter().any(|a| matches!(
        a,
        Action::LocateLibrary
            | Action::LoadFunctions { .. }
            | Action::ResolveChooser
            | Action::ChooseNegotiatedFormat { .. }
    )));
    assert_eq!(requests.len(), 9);
    assert_eq!(requests[8], Action::Abort(SetupError::ContextActivation));
}

#[test]
fn zero_matches_abort_before_the_rendering_surface() {
    let (negotiator, requests) = run(&|action| match action {
        Action::ChooseNegotiatedFormat { .. } => {
            Some(Event::Negotiated { accepted: true, format: 0, matches: 0 })
        }
        _ => None,
    });
    assert_eq!(negotiator.failure(), Some(SetupError::NoAcceptableFormat));
    assert_eq!(*requests.last().unwrap(), Action::Abort(SetupError::NoAcceptableFormat));
    assert_eq!(requests.len(), 13);
    assert!(!requests.iter().any(|a| matches!(
        a,
        Action::RegisterClass { role: Role::Rendering, .. }
            | Action::CreateWindow { role: Role::Rendering, .. }
    )));
    assert_eq!(negotiator.rendering, Surface::unknown());
    assert_eq!(negotiator.rendering_context, 0);
    assert_eq!(negotiator.window(), None);
    assert_eq!(negotiator.current, Some(Role::Temporary));
}

#[test]
fn refused_negotiation_aborts_even_with_a_match_count() {
    let (error, requests) = failure_of(&|action| match action {
        Action::ChooseNegotiatedFormat { .. } => {
            Some(Event::Negotiated { accepted: false, format: 42, matches: 3 })
        }
        _ => None,
    });
    assert_eq!(error, Some(SetupError::NoAcceptableFormat));
    assert_eq!(requests.len(), 13);
}

#[test]
fn failed_bootstrap_repeats_the_abort() {
    let (mut negotiator, _) = run(&|action| match action {
        Action::ChooseNegotiatedFormat { .. } => {
            Some(Event::Negotiated { accepted: true, format: 0, matches: 0 })
        }
        _ => None,
    });
    let before = negotiator;
    assert_eq!(negotiator.step(Event::Start), Action::Abort(SetupError::NoAcceptableFormat));
    assert_eq!(
        negotiator.step(Event::Negotiated { accepted: true, format: 42, matches: 1 }),
        Action::Abort(SetupError::NoAcceptableFormat)
    );
    assert_eq!(negotiator, before);
}

#[test]
fn missing_instance_is_fatal() {
    let (error, requests) = failure_of(&|action| match action {
        Action::GetInstance => Some(Event::Instance { found: true, instance: 0 }),
        _ => None,
    });
    assert_eq!(error, Some(SetupError::NoInstance));
    assert_eq!(requests, vec![Action::GetInstance, Action::Abort(SetupError::NoInstance)]);
}

#[test]
fn instance_that_the_platform_did_not_find_is_fatal() {
    let (error, requests) = failure_of(&|action| match action {
        Action::GetInstance => Some(Event::Instance { found: false, instance: INSTANCE }),
        _ => None,
    });
    assert_eq!(error, Some(SetupError::NoInstance));
    assert_eq!(requests.len(), 2);
}

#[test]
fn failed_class_registration_is_fatal() {
    let (error, requests) = failure_of(&|action| match action {
        Action::RegisterClass { .. } => Some(Event::ClassRegistered { atom: 0, last_error: 8 }),
        _ => None,
    });
    assert_eq!(error, Some(SetupError::ClassRegistration));
    assert_eq!(requests.len(), 3);
}

#[test]
fn class_that_exists_already_is_tolerated() {
    let (negotiator, requests) = run(&|action| match action {
        Action::RegisterClass { .. } => Some(Event::ClassRegistered { atom: 0, last_error: 1410 }),
        _ => None,
    });
    assert!(negotiator.is_ready());
    assert_eq!(requests.len(), 22);
}

#[test]
fn failed_window_creation_is_fatal() {
    let (error, requests) = failure_of(&|action| match action {
        Action::CreateWindow { .. } => Some(Event::WindowCreated(0)),
        _ => None,
    });
    assert_eq!(error, Some(SetupError::WindowCreation));
    assert_eq!(requests.len(), 4);
}

#[test]
fn missing_device_context_is_fatal() {
    let (error, requests) = failure_of(&|action| match action {
        Action::GetDeviceContext { .. } => Some(Event::DeviceContext(0)),
        _ => None,
    });
    assert_eq!(error, Some(SetupError::NoDeviceContext));
    assert_eq!(requests.len(), 5);
}

#[test]
fn unmatched_basic_format_is_fatal() {
    let (error, requests) = failure_of(&|action| match action {
        Action::ChooseBasicFormat { .. } => Some(Event::BasicFormat(0)),
        _ => None,
    });
    assert_eq!(error, Some(SetupError::NoBasicFormat));
    assert_eq!(requests.len(), 6);
}

#[test]
fn rejected_pixel_format_is_fatal() {
    let (error, requests) = failure_of(&|action| match action {
        Action::ApplyFormat { .. } => Some(Event::FormatApplied(false)),
        _ => None,
    });
    assert_eq!(error, Some(SetupError::FormatRejected));
    assert_eq!(requests.len(), 7);
}

#[test]
fn failed_context_creation_is_fatal() {
    let (error, requests) = failure_of(&|action| match action {
        Action::CreateContext { .. } => Some(Event::ContextCreated(0)),
        _ => None,
    });
    assert_eq!(error, Some(SetupError::ContextCreation));
    assert_eq!(requests.len(), 8);
}

#[test]
fn missing_graphics_library_is_fatal() {
    let (error, requests) = failure_of(&|action| match action {
        Action::LocateLibrary => Some(Event::Library(0)),
        _ => None,
    });
    assert_eq!(error, Some(SetupError::NoGraphicsLibrary));
    assert_eq!(requests.len(), 10);
}

#[test]
fn unresolved_chooser_is_fatal() {
    let (negotiator, requests) = run(&|action| match action {
        Action::ResolveChooser => Some(Event::EntryPoint(Probe::Missing)),
        _ => None,
    });
    assert_eq!(negotiator.failure(), Some(SetupError::NoEntryPoint));
    assert_eq!(requests.len(), 12);
    assert!(!requests.iter().any(|a| matches!(a, Action::ChooseNegotiatedFormat { .. })));
}

#[test]
fn chooser_counts_only_from_the_extension_resolver() {
    let endings = [
        Probe::Resolved { address: CHOOSER, source: Source::Module },
        Probe::Resolved { address: 0, source: Source::Extension },
        Probe::Ask(Source::Extension),
        Probe::Missing,
    ];
    for ending in endings {
        let (error, requests) = failure_of(&|action| match action {
            Action::ResolveChooser => Some(Event::EntryPoint(ending)),
            _ => None,
        });
        assert_eq!(error, Some(SetupError::NoEntryPoint));
        assert_eq!(requests.len(), 12);
    }
    assert_eq!(
        chooser_address(Probe::Resolved { address: CHOOSER, source: Source::Extension }),
        CHOOSER
    );
    assert_eq!(chooser_address(Probe::Resolved { address: CHOOSER, source: Source::Module }), 0);
    assert_eq!(chooser_address(Probe::Missing), 0);
}

#[test]
fn undescribed_format_is_fatal() {
    let (negotiator, requests) = run(&|action| match action {
        Action::DescribeFormat { .. } => {
            Some(Event::Described { result: 0, descriptor: described() })
        }
        _ => None,
    });
    assert_eq!(negotiator.failure(), Some(SetupError::NoDescription));
    assert_eq!(requests.len(), 14);
    assert_eq!(negotiator.rendering.descriptor, PixelFormatDescriptor::zeroed());
    assert_eq!(negotiator.rendering.window, 0);
}

#[test]
fn failure_of_the_rendering_surface_keeps_the_temporary_one() {
    let (negotiator, requests) = run(&|action| match action {
        Action::CreateWindow { role: Role::Rendering, .. } => Some(Event::WindowCreated(0)),
        _ => None,
    });
    assert_eq!(negotiator.failure(), Some(SetupError::WindowCreation));
    assert_eq!(requests.len(), 17);
    assert_eq!(negotiator.window(), None);
    assert_eq!(
        negotiator.temporary_window(),
        Some(Window::new(TEMP_WINDOW, TEMP_DC, TEMP_CONTEXT))
    );
    assert_eq!(negotiator.current, Some(Role::Temporary));
}

#[test]
fn failed_activation_of_the_rendering_context_is_fatal() {
    let (negotiator, requests) = run(&|action| match action {
        Action::MakeCurrent { dc: REAL_DC, .. } => Some(Event::MadeCurrent(false)),
        _ => None,
    });
    assert_eq!(negotiator.failure(), Some(SetupError::ContextActivation));
    assert_eq!(requests.len(), 21);
    assert!(!requests.iter().any(|a| matches!(a, Action::Show { .. })));
    assert_eq!(negotiator.current, Some(Role::Temporary));
    assert_eq!(negotiator.rendering_context, REAL_CONTEXT);
}

#[test]
fn bootstrap_is_ready_only_when_the_window_is_shown() {
    let mut negotiator = Negotiator::new();
    let mut action = negotiator.step(Event::Start);
    while !matches!(action, Action::Show { .. }) {
        action = negotiator.step(answer(action));
    }
    assert_eq!(action, Action::Show { window: REAL_WINDOW });
    assert_eq!(negotiator.stage, Stage::AwaitShown);
    assert!(!negotiator.is_ready());
    assert_eq!(negotiator.window(), None);
    assert_eq!(negotiator.current, Some(Role::Rendering));
    let mut early = negotiator;
    assert_eq!(early.step(Event::MadeCurrent(true)), Action::Abort(SetupError::OutOfTurn));
    assert_eq!(negotiator.step(Event::Shown), Action::Done);
    assert!(negotiator.is_ready());
    assert_eq!(negotiator.window(), Some(Window::new(REAL_WINDOW, REAL_DC, REAL_CONTEXT)));
}

#[test]
fn driver_runs_the_bootstrap_to_the_end() {
    let performed = std::cell::RefCell::new(Vec::new());
    let end = bootstrap(&|action| {
        performed.borrow_mut().push(action);
        answer(action)
    });
    let (by_hand, requests) = run_to_the_end();
    assert!(end.is_ready());
    assert_eq!(end, by_hand);
    assert_eq!(performed.borrow().len(), 21);
    assert_eq!(performed.borrow()[..], requests[..21]);
    assert_eq!(*performed.borrow().last().unwrap(), Action::Show { window: REAL_WINDOW });
}

#[test]
fn driver_stops_at_the_first_failure() {
    let performed = std::cell::RefCell::new(Vec::new());
    let end = bootstrap(&|action| {
        performed.borrow_mut().push(action);
        match action {
            Action::ChooseNegotiatedFormat { .. } => {
                Event::Negotiated { accepted: true, format: 0, matches: 0 }
            }
            _ => answer(action),
        }
    });
    assert_eq!(end.failure(), Some(SetupError::NoAcceptableFormat));
    assert_eq!(performed.borrow().len(), 12);
    assert!(!performed.borrow().iter().any(|a| matches!(
        a,
        Action::RegisterClass { role: Role::Rendering, .. }
            | Action::CreateWindow { role: Role::Rendering, .. }
            | Action::Abort(_)
    )));
    assert_eq!(end.rendering, Surface::unknown());
}

#[test]
fn driver_fails_on_an_answer_of_the_wrong_kind() {
    let end = bootstrap(&|_| Event::FunctionsLoaded);
    assert_eq!(end.failure(), Some(SetupError::OutOfTurn));
    assert_eq!(end.instance, 0);
}

#[test]
fn answer_out_of_turn_is_fatal() {
    let mut negotiator = Negotiator::new();
    assert_eq!(
        negotiator.step(Event::Instance { found: true, instance: INSTANCE }),
        Action::Abort(SetupError::OutOfTurn)
    );
    assert_eq!(negotiator.failure(), Some(SetupError::OutOfTurn));

    let mut negotiator = Negotiator::new();
    assert_eq!(negotiator.step(Event::Start), Action::GetInstance);
    assert_eq!(negotiator.step(Event::Start), Action::Abort(SetupError::OutOfTurn));

    let mut negotiator = Negotiator::new();
    negotiator.step(Event::Start);
    negotiator.step(Event::Instance { found: true, instance: INSTANCE });
    assert_eq!(
        negotiator.step(Event::WindowCreated(TEMP_WINDOW)),
        Action::Abort(SetupError::OutOfTurn)
    );
    assert_eq!(negotiator.temporary.window, 0);
}

#[test]
fn missing_symbols_do_not_fail_the_load() {
    let mut negotiator = Negotiator::new();
    let mut action = negotiator.step(Event::Start);
    while !matches!(action, Action::LoadFunctions { .. }) {
        action = negotiator.step(answer(action));
    }
    assert_eq!(negotiator.step(Event::FunctionsLoaded), Action::ResolveChooser);
    assert_eq!(negotiator.stage, Stage::AwaitEntryPoint);
}

#[test]
fn device_context_of_each_surface() {
    let (negotiator, _) = run_to_the_end();
    assert_eq!(negotiator.device_context(Role::Temporary), TEMP_DC);
    assert_eq!(negotiator.device_context(Role::Rendering), REAL_DC);
    assert_eq!(Negotiator::new().device_context(Role::Temporary), 0);
}

#[test]
fn every_failure_has_its_diagnostic() {
    assert_eq!(SetupError::FormatRejected.message(), "Can't set pixel format !");
    assert_eq!(SetupError::ContextActivation.message(), "Could not make context current !");
    let all = [
        SetupError::NoInstance,
        SetupError::ClassRegistration,
        SetupError::WindowCreation,
        SetupError::NoDeviceContext,
        SetupError::NoBasicFormat,
        SetupError::FormatRejected,
        SetupError::ContextCreation,
        SetupError::ContextActivation,
        SetupError::NoGraphicsLibrary,
        SetupError::NoEntryPoint,
        SetupError::NoAcceptableFormat,
        SetupError::NoDescription,
        SetupError::OutOfTurn,
    ];
    for (i, a) in all.iter().enumerate() {
        assert!(!a.message().is_empty());
        for b in all.iter().skip(i + 1) {
            assert_ne!(a.message(), b.message());
        }
    }
}
