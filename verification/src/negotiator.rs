//! The context negotiator: the two-phase bootstrap as a state machine.
//!
//! The negotiator performs no platform call. It issues one request at a
//! time; the program around it performs the request and hands the
//! platform's answer back with `step`, which records what was learned and
//! issues the next request. A failed platform call is fatal: the
//! negotiator asks for the abort and stays failed.
//!
//! Phase one builds a throwaway surface with the basic pixel format, makes
//! a minimal context current on it and has the function table loaded.
//! Phase two resolves the extended format chooser through that context,
//! negotiates an accelerated multisample format, and only then builds the
//! surface that is rendered to, with the negotiated format.

use crate::attributes::{FormatRequest, REQUESTED_FORMATS};
use crate::format::PixelFormatDescriptor;
use crate::surface::{
    class_registered, spec_class_registered, spec_window_class, spec_window_request,
    window_class, window_request, Role, Window, WindowClass, WindowData, WindowRequest,
};
use crate::symbols::{Probe, Source};
use vstd::prelude::*;

verus! {

/// Why a bootstrap was given up.
#[derive(Clone, Copy, Debug, PartialEq, Eq, Structural)]
pub enum SetupError {
    /// The module instance of the process could not be had.
    NoInstance,
    /// The window class could not be registered.
    ClassRegistration,
    /// The native window could not be created.
    WindowCreation,
    /// The window gave no device context.
    NoDeviceContext,
    /// The generic chooser found no format for the basic descriptor.
    NoBasicFormat,
    /// The device context did not take the pixel format.
    FormatRejected,
    /// No rendering context could be created.
    ContextCreation,
    /// The rendering context could not be made current.
    ContextActivation,
    /// The graphics runtime module is not loaded.
    NoGraphicsLibrary,
    /// The extended format chooser could not be resolved.
    NoEntryPoint,
    /// The extended chooser failed or matched no format.
    NoAcceptableFormat,
    /// The negotiated format could not be described.
    NoDescription,
    /// An answer arrived that the pending request cannot have produced.
    OutOfTurn,
}

/// Where a bootstrap stands: which answer it waits for.
#[derive(Clone, Copy, Debug, PartialEq, Eq, Structural)]
pub enum Stage {
    Idle,
    AwaitInstance(Role),
    AwaitClass(Role),
    AwaitWindow(Role),
    AwaitDeviceContext(Role),
    AwaitBasicFormat,
    AwaitFormatApplied(Role),
    AwaitContext(Role),
    AwaitCurrent(Role),
    AwaitLibrary,
    AwaitFunctions,
    AwaitEntryPoint,
    AwaitNegotiation,
    AwaitDescription,
    AwaitShown,
    Ready,
    Failed(SetupError),
}

/// A request to the platform.
#[derive(Clone, Copy, Debug, PartialEq, Eq, Structural)]
pub enum Action {
    /// Get the module instance of the process.
    GetInstance,
    /// Register the window class of `role` for `instance`, as `class`
    /// says.
    RegisterClass { role: Role, instance: isize, class: WindowClass },
    /// Create the window of `role`, of the class registered for it, as
    /// `request` says.
    CreateWindow { role: Role, instance: isize, request: WindowRequest },
    /// Get the device context of `window`.
    GetDeviceContext { window: isize },
    /// Let the generic chooser match `descriptor` on `dc`.
    ChooseBasicFormat { dc: isize, descriptor: PixelFormatDescriptor },
    /// Set the pixel format `format`, described by `descriptor`, on `dc`.
    ApplyFormat { dc: isize, format: i32, descriptor: PixelFormatDescriptor },
    /// Create a rendering context for `dc`.
    CreateContext { dc: isize },
    /// Make `context` current on `dc` for the calling thread.
    MakeCurrent { dc: isize, context: isize },
    /// Find the loaded graphics runtime module.
    LocateLibrary,
    /// Load the function table: every symbol from the export table of
    /// `library` first, from the extension resolver if it is not there.
    LoadFunctions { library: isize },
    /// Resolve the extended format chooser by its name, through the
    /// extension resolver alone.
    ResolveChooser,
    /// Call the extended chooser at `chooser` on `dc` with the attribute
    /// list of `wanted`, for at most `max_formats` formats.
    ChooseNegotiatedFormat { chooser: usize, dc: isize, wanted: FormatRequest, max_formats: u32 },
    /// Describe the pixel format `format` of `dc`.
    DescribeFormat { dc: isize, format: i32 },
    /// Show `window`.
    Show { window: isize },
    /// Give the bootstrap up.
    Abort(SetupError),
    /// Nothing is left to do.
    Done,
}

/// An answer of the platform, or the signal to begin.
#[derive(Clone, Copy, Debug, PartialEq, Eq, Structural)]
pub enum Event {
    /// Begin the bootstrap.
    Start,
    /// Whether the platform found the module instance, and the instance
    /// it wrote.
    Instance { found: bool, instance: isize },
    /// The atom of the registered class, zero on failure, and the error
    /// code that the platform holds after the call.
    ClassRegistered { atom: u16, last_error: u32 },
    /// The new window; null on failure.
    WindowCreated(isize),
    /// The device context; null on failure.
    DeviceContext(isize),
    /// The format index that the generic chooser picked; zero on failure.
    BasicFormat(i32),
    /// Whether the device context took the format.
    FormatApplied(bool),
    /// The new rendering context; null on failure.
    ContextCreated(isize),
    /// Whether the context is current now.
    MadeCurrent(bool),
    /// The graphics runtime module; null if it is not loaded.
    Library(isize),
    /// The function table has been loaded. Symbols that no source knew
    /// are left null in it.
    FunctionsLoaded,
    /// How the resolution of the extended chooser ended.
    EntryPoint(Probe),
    /// What the extended chooser returned: whether it succeeded, the first
    /// format it wrote, and how many formats matched.
    Negotiated { accepted: bool, format: i32, matches: u32 },
    /// What describing a format returned: zero on failure, and the
    /// descriptor it filled.
    Described { result: i32, descriptor: PixelFormatDescriptor },
    /// The window has been shown.
    Shown,
}

/// A native window with its device context, and the pixel format chosen
/// for it. A handle is null and the format zero until it is known.
#[derive(Clone, Copy, Debug, PartialEq, Eq, Structural)]
pub struct Surface {
    pub window: isize,
    pub dc: isize,
    pub format: i32,
    pub descriptor: PixelFormatDescriptor,
}

/// The state of a bootstrap.
#[derive(Clone, Copy, Debug, PartialEq, Eq, Structural)]
pub struct Negotiator {
    pub stage: Stage,
    /// The module instance that the surface under construction is made for.
    pub instance: isize,
    pub temporary: Surface,
    pub temporary_context: isize,
    /// The graphics runtime module.
    pub library: isize,
    /// The address of the extended format chooser.
    pub entry_point: usize,
    pub rendering: Surface,
    pub rendering_context: isize,
    /// Whose context is current on the bootstrap thread, if any.
    pub current: Option<Role>,
}

/// The address that a resolution gives for the extended chooser: the one
/// that the extension resolver resolved it to, and null for a resolution
/// that ended in any other way.
pub open spec fn spec_chooser_address(probe: Probe) -> usize {
    match probe {
        Probe::Resolved { address, source: Source::Extension } => address,
        _ => 0,
    }
}

#[verifier::when_used_as_spec(spec_chooser_address)]
pub fn chooser_address(probe: Probe) -> (address: usize)
    ensures
        address == spec_chooser_address(probe),
{
    match probe {
        Probe::Resolved { address, source: Source::Extension } => address,
        _ => 0,
    }
}

impl Surface {
    /// The surface of which nothing is known yet.
    pub open spec fn spec_unknown() -> Surface {
        Surface { window: 0, dc: 0, format: 0, descriptor: PixelFormatDescriptor::spec_zeroed() }
    }

    #[verifier::when_used_as_spec(spec_unknown)]
    pub fn unknown() -> (surface: Surface)
        ensures
            surface == Self::spec_unknown(),
    {
        Surface { window: 0, dc: 0, format: 0, descriptor: PixelFormatDescriptor::zeroed() }
    }
}

impl Negotiator {
    /// The state before anything was asked.
    pub open spec fn initial() -> Negotiator {
        Negotiator {
            stage: Stage::Idle,
            instance: 0,
            temporary: Surface::spec_unknown(),
            temporary_context: 0,
            library: 0,
            entry_point: 0,
            rendering: Surface::spec_unknown(),
            rendering_context: 0,
            current: None,
        }
    }

    /// The surface of `role`.
    pub open spec fn surface(self, role: Role) -> Surface {
        match role {
            Role::Temporary => self.temporary,
            Role::Rendering => self.rendering,
        }
    }

    /// The rendering context of `role`.
    pub open spec fn context(self, role: Role) -> isize {
        match role {
            Role::Temporary => self.temporary_context,
            Role::Rendering => self.rendering_context,
        }
    }

    /// The state with the surface of `role` replaced.
    pub open spec fn with_surface(self, role: Role, surface: Surface) -> Negotiator {
        match role {
            Role::Temporary => Negotiator { temporary: surface, ..self },
            Role::Rendering => Negotiator { rendering: surface, ..self },
        }
    }

    /// The state with the rendering context of `role` replaced.
    pub open spec fn with_context(self, role: Role, context: isize) -> Negotiator {
        match role {
            Role::Temporary => Negotiator { temporary_context: context, ..self },
            Role::Rendering => Negotiator { rendering_context: context, ..self },
        }
    }

    /// The state at another stage.
    pub open spec fn at(self, stage: Stage) -> Negotiator {
        Negotiator { stage, ..self }
    }

    /// Giving up: the state is kept as it was when the failure showed.
    pub open spec fn fail(self, error: SetupError) -> (Negotiator, Action) {
        (self.at(Stage::Failed(error)), Action::Abort(error))
    }

    /// The transition: the state after `event`, and the request that
    /// follows it.
    ///
    /// Each stage takes the answer to its own request. A null handle, a
    /// zero result or a refusal fails the bootstrap with the error of that
    /// stage; an event of another kind fails it as out of turn. The
    /// temporary surface lets the generic chooser match the basic
    /// descriptor; the rendering surface takes the format that was
    /// negotiated before it was begun, and makes no match of its own.
    pub open spec fn next(self, event: Event) -> (Negotiator, Action) {
        match (self.stage, event) {
            (Stage::Idle, Event::Start) => (
                self.at(Stage::AwaitInstance(Role::Temporary)),
                Action::GetInstance,
            ),
            (Stage::AwaitInstance(role), Event::Instance { found, instance }) => if !found
                || instance == 0 {
                self.fail(SetupError::NoInstance)
            } else {
                (
                    Negotiator { instance, ..self }.at(Stage::AwaitClass(role)),
                    Action::RegisterClass { role, instance, class: spec_window_class(role) },
                )
            },
            (Stage::AwaitClass(role), Event::ClassRegistered { atom, last_error }) => if
                !spec_class_registered(atom, last_error) {
                self.fail(SetupError::ClassRegistration)
            } else {
                (
                    self.at(Stage::AwaitWindow(role)),
                    Action::CreateWindow {
                        role,
                        instance: self.instance,
                        request: spec_window_request(),
                    },
                )
            },
            (Stage::AwaitWindow(role), Event::WindowCreated(window)) => if window == 0 {
                self.fail(SetupError::WindowCreation)
            } else {
                (
                    self.with_surface(role, Surface { window, ..self.surface(role) }).at(
                        Stage::AwaitDeviceContext(role),
                    ),
                    Action::GetDeviceContext { window },
                )
            },
            (Stage::AwaitDeviceContext(role), Event::DeviceContext(dc)) => if dc == 0 {
                self.fail(SetupError::NoDeviceContext)
            } else {
                match role {
                    Role::Temporary => (
                        self.with_surface(role, Surface { dc, ..self.temporary }).at(
                            Stage::AwaitBasicFormat,
                        ),
                        Action::ChooseBasicFormat {
                            dc,
                            descriptor: PixelFormatDescriptor::spec_basic(),
                        },
                    ),
                    Role::Rendering => (
                        self.with_surface(role, Surface { dc, ..self.rendering }).at(
                            Stage::AwaitFormatApplied(role),
                        ),
                        Action::ApplyFormat {
                            dc,
                            format: self.rendering.format,
                            descriptor: self.rendering.descriptor,
                        },
                    ),
                }
            },
            (Stage::AwaitBasicFormat, Event::BasicFormat(format)) => if format == 0 {
                self.fail(SetupError::NoBasicFormat)
            } else {
                (
                    self.with_surface(
                        Role::Temporary,
                        Surface {
                            format,
                            descriptor: PixelFormatDescriptor::spec_basic(),
                            ..self.temporary
                        },
                    ).at(Stage::AwaitFormatApplied(Role::Temporary)),
                    Action::ApplyFormat {
                        dc: self.temporary.dc,
                        format,
                        descriptor: PixelFormatDescriptor::spec_basic(),
                    },
                )
            },
            (Stage::AwaitFormatApplied(role), Event::FormatApplied(applied)) => if !applied {
                self.fail(SetupError::FormatRejected)
            } else {
                (
                    self.at(Stage::AwaitContext(role)),
                    Action::CreateContext { dc: self.surface(role).dc },
                )
            },
            (Stage::AwaitContext(role), Event::ContextCreated(context)) => if context == 0 {
                self.fail(SetupError::ContextCreation)
            } else {
                (
                    self.with_context(role, context).at(Stage::AwaitCurrent(role)),
                    Action::MakeCurrent { dc: self.surface(role).dc, context },
                )
            },
            (Stage::AwaitCurrent(role), Event::MadeCurrent(current)) => if !current {
                self.fail(SetupError::ContextActivation)
            } else {
                match role {
                    Role::Temporary => (
                        Negotiator { current: Some(role), ..self }.at(Stage::AwaitLibrary),
                        Action::LocateLibrary,
                    ),
                    Role::Rendering => (
                        Negotiator { current: Some(role), ..self }.at(Stage::AwaitShown),
                        Action::Show { window: self.rendering.window },
                    ),
                }
            },
            (Stage::AwaitLibrary, Event::Library(library)) => if library == 0 {
                self.fail(SetupError::NoGraphicsLibrary)
            } else {
                (
                    Negotiator { library, ..self }.at(Stage::AwaitFunctions),
                    Action::LoadFunctions { library },
                )
            },
            (Stage::AwaitFunctions, Event::FunctionsLoaded) => (
                self.at(Stage::AwaitEntryPoint),
                Action::ResolveChooser,
            ),
            (Stage::AwaitEntryPoint, Event::EntryPoint(probe)) => if spec_chooser_address(probe)
                == 0 {
                self.fail(SetupError::NoEntryPoint)
            } else {
                (
                    Negotiator { entry_point: spec_chooser_address(probe), ..self }.at(
                        Stage::AwaitNegotiation,
                    ),
                    Action::ChooseNegotiatedFormat {
                        chooser: spec_chooser_address(probe),
                        dc: self.temporary.dc,
                        wanted: FormatRequest::spec_negotiated(),
                        max_formats: REQUESTED_FORMATS,
                    },
                )
            },
            (Stage::AwaitNegotiation, Event::Negotiated { accepted, format, matches }) => if
                !accepted || matches == 0 {
                self.fail(SetupError::NoAcceptableFormat)
            } else {
                (
                    self.with_surface(Role::Rendering, Surface { format, ..self.rendering }).at(
                        Stage::AwaitDescription,
                    ),
                    Action::DescribeFormat { dc: self.temporary.dc, format },
                )
            },
            (Stage::AwaitDescription, Event::Described { result, descriptor }) => if result == 0 {
                self.fail(SetupError::NoDescription)
            } else {
                (
                    self.with_surface(
                        Role::Rendering,
                        Surface { descriptor, ..self.rendering },
                    ).at(Stage::AwaitInstance(Role::Rendering)),
                    Action::GetInstance,
                )
            },
            (Stage::AwaitShown, Event::Shown) => (self.at(Stage::Ready), Action::Done),
            (Stage::Ready, _) => (self, Action::Done),
            (Stage::Failed(error), _) => (self, Action::Abort(error)),
            _ => self.fail(SetupError::OutOfTurn),
        }
    }
}

impl Negotiator {
    /// A bootstrap that has not begun.
    pub fn new() -> (negotiator: Negotiator)
        ensures
            negotiator == Self::initial(),
    {
        Negotiator {
            stage: Stage::Idle,
            instance: 0,
            temporary: Surface::unknown(),
            temporary_context: 0,
            library: 0,
            entry_point: 0,
            rendering: Surface::unknown(),
            rendering_context: 0,
            current: None,
        }
    }

    /// Gives the bootstrap up with `error`.
    fn give_up(&mut self, error: SetupError) -> (action: Action)
        ensures
            (*final(self), action) == old(self).fail(error),
    {
        self.stage = Stage::Failed(error);
        Action::Abort(error)
    }

    /// Begins: asks for the module instance, for the temporary surface.
    fn take_start(&mut self, event: Event) -> (action: Action)
        requires
            old(self).stage == Stage::Idle,
        ensures
            (*final(self), action) == old(self).next(event),
    {
        match event {
            Event::Start => {
                self.stage = Stage::AwaitInstance(Role::Temporary);
                Action::GetInstance
            },
            _ => self.give_up(SetupError::OutOfTurn),
        }
    }

    /// With the module instance, registers the window class of `role`.
    fn take_instance(&mut self, role: Role, event: Event) -> (action: Action)
        requires
            old(self).stage == Stage::AwaitInstance(role),
        ensures
            (*final(self), action) == old(self).next(event),
    {
        match event {
            Event::Instance { found, instance } => {
                if !found || instance == 0 {
                    self.give_up(SetupError::NoInstance)
                } else {
                    self.instance = instance;
                    self.stage = Stage::AwaitClass(role);
                    Action::RegisterClass { role, instance, class: window_class(role) }
                }
            },
            _ => self.give_up(SetupError::OutOfTurn),
        }
    }

    /// With the class registered, creates the window of `role`.
    fn take_class(&mut self, role: Role, event: Event) -> (action: Action)
        requires
            old(self).stage == Stage::AwaitClass(role),
        ensures
            (*final(self), action) == old(self).next(event),
    {
        match event {
            Event::ClassRegistered { atom, last_error } => {
                if !class_registered(atom, last_error) {
                    self.give_up(SetupError::ClassRegistration)
                } else {
                    self.stage = Stage::AwaitWindow(role);
                    Action::CreateWindow { role, instance: self.instance, request: window_request() }
                }
            },
            _ => self.give_up(SetupError::OutOfTurn),
        }
    }

    /// With the window, asks for its device context.
    fn take_window(&mut self, role: Role, event: Event) -> (action: Action)
        requires
            old(self).stage == Stage::AwaitWindow(role),
        ensures
            (*final(self), action) == old(self).next(event),
    {
        match event {
            Event::WindowCreated(window) => {
                if window == 0 {
                    self.give_up(SetupError::WindowCreation)
                } else {
                    match role {
                        Role::Temporary => {
                            self.temporary.window = window;
                        },
                        Role::Rendering => {
                            self.rendering.window = window;
                        },
                    }
                    self.stage = Stage::AwaitDeviceContext(role);
                    Action::GetDeviceContext { window }
                }
            },
            _ => self.give_up(SetupError::OutOfTurn),
        }
    }

    /// With the device context, selects the pixel format of `role`.
    fn take_device_context(&mut self, role: Role, event: Event) -> (action: Action)
        requires
            old(self).stage == Stage::AwaitDeviceContext(role),
        ensures
            (*final(self), action) == old(self).next(event),
    {
        match event {
            Event::DeviceContext(dc) => {
                if dc == 0 {
                    self.give_up(SetupError::NoDeviceContext)
                } else {
                    match role {
                        Role::Temporary => {
                            self.temporary.dc = dc;
                            self.stage = Stage::AwaitBasicFormat;
                            Action::ChooseBasicFormat {
                                dc,
                                descriptor: PixelFormatDescriptor::basic(),
                            }
                        },
                        Role::Rendering => {
                            self.rendering.dc = dc;
                            self.stage = Stage::AwaitFormatApplied(role);
                            Action::ApplyFormat {
                                dc,
                                format: self.rendering.format,
                                descriptor: self.rendering.descriptor,
                            }
                        },
                    }
                }
            },
            _ => self.give_up(SetupError::OutOfTurn),
        }
    }

    /// With the format of the generic chooser, applies it.
    fn take_basic_format(&mut self, event: Event) -> (action: Action)
        requires
            old(self).stage == Stage::AwaitBasicFormat,
        ensures
            (*final(self), action) == old(self).next(event),
    {
        match event {
            Event::BasicFormat(format) => {
                if format == 0 {
                    self.give_up(SetupError::NoBasicFormat)
                } else {
                    let descriptor = PixelFormatDescriptor::basic();
                    self.temporary.format = format;
                    self.temporary.descriptor = descriptor;
                    self.stage = Stage::AwaitFormatApplied(Role::Temporary);
                    Action::ApplyFormat { dc: self.temporary.dc, format, descriptor }
                }
            },
            _ => self.give_up(SetupError::OutOfTurn),
        }
    }

    /// With the format applied, creates the rendering context.
    fn take_format_applied(&mut self, role: Role, event: Event) -> (action: Action)
        requires
            old(self).stage == Stage::AwaitFormatApplied(role),
        ensures
            (*final(self), action) == old(self).next(event),
    {
        match event {
            Event::FormatApplied(applied) => {
                if !applied {
                    self.give_up(SetupError::FormatRejected)
                } else {
                    self.stage = Stage::AwaitContext(role);
                    Action::CreateContext { dc: self.device_context(role) }
                }
            },
            _ => self.give_up(SetupError::OutOfTurn),
        }
    }

    /// With the rendering context, makes it current.
    fn take_new_context(&mut self, role: Role, event: Event) -> (action: Action)
        requires
            old(self).stage == Stage::AwaitContext(role),
        ensures
            (*final(self), action) == old(self).next(event),
    {
        match event {
            Event::ContextCreated(context) => {
                if context == 0 {
                    self.give_up(SetupError::ContextCreation)
                } else {
                    match role {
                        Role::Temporary => {
                            self.temporary_context = context;
                        },
                        Role::Rendering => {
                            self.rendering_context = context;
                        },
                    }
                    self.stage = Stage::AwaitCurrent(role);
                    Action::MakeCurrent { dc: self.device_context(role), context }
                }
            },
            _ => self.give_up(SetupError::OutOfTurn),
        }
    }

    /// With the context current, goes on to the function table, or shows
    /// the window.
    fn take_current_context(&mut self, role: Role, event: Event) -> (action: Action)
        requires
            old(self).stage == Stage::AwaitCurrent(role),
        ensures
            (*final(self), action) == old(self).next(event),
    {
        match event {
            Event::MadeCurrent(current) => {
                if !current {
                    self.give_up(SetupError::ContextActivation)
                } else {
                    self.current = Some(role);
                    match role {
                        Role::Temporary => {
                            self.stage = Stage::AwaitLibrary;
                            Action::LocateLibrary
                        },
                        Role::Rendering => {
                            self.stage = Stage::AwaitShown;
                            Action::Show { window: self.rendering.window }
                        },
                    }
                }
            },
            _ => self.give_up(SetupError::OutOfTurn),
        }
    }

    /// With the graphics runtime module, loads the function table.
    fn take_library(&mut self, event: Event) -> (action: Action)
        requires
            old(self).stage == Stage::AwaitLibrary,
        ensures
            (*final(self), action) == old(self).next(event),
    {
        match event {
            Event::Library(library) => {
                if library == 0 {
                    self.give_up(SetupError::NoGraphicsLibrary)
                } else {
                    self.library = library;
                    self.stage = Stage::AwaitFunctions;
                    Action::LoadFunctions { library }
                }
            },
            _ => self.give_up(SetupError::OutOfTurn),
        }
    }

    /// With the function table, resolves the extended chooser.
    fn take_functions(&mut self, event: Event) -> (action: Action)
        requires
            old(self).stage == Stage::AwaitFunctions,
        ensures
            (*final(self), action) == old(self).next(event),
    {
        match event {
            Event::FunctionsLoaded => {
                self.stage = Stage::AwaitEntryPoint;
                Action::ResolveChooser
            },
            _ => self.give_up(SetupError::OutOfTurn),
        }
    }

    /// With the extended chooser, negotiates the format.
    fn take_entry_point(&mut self, event: Event) -> (action: Action)
        requires
            old(self).stage == Stage::AwaitEntryPoint,
        ensures
            (*final(self), action) == old(self).next(event),
    {
        match event {
            Event::EntryPoint(probe) => {
                let address = chooser_address(probe);
                if address == 0 {
                    self.give_up(SetupError::NoEntryPoint)
                } else {
                    self.entry_point = address;
                    self.stage = Stage::AwaitNegotiation;
                    Action::ChooseNegotiatedFormat {
                        chooser: address,
                        dc: self.temporary.dc,
                        wanted: FormatRequest::negotiated(),
                        max_formats: REQUESTED_FORMATS,
                    }
                }
            },
            _ => self.give_up(SetupError::OutOfTurn),
        }
    }

    /// With a negotiated format, has it described.
    fn take_negotiation(&mut self, event: Event) -> (action: Action)
        requires
            old(self).stage == Stage::AwaitNegotiation,
        ensures
            (*final(self), action) == old(self).next(event),
    {
        match event {
            Event::Negotiated { accepted, format, matches } => {
                if !accepted || matches == 0 {
                    self.give_up(SetupError::NoAcceptableFormat)
                } else {
                    self.rendering.format = format;
                    self.stage = Stage::AwaitDescription;
                    Action::DescribeFormat { dc: self.temporary.dc, format }
                }
            },
            _ => self.give_up(SetupError::OutOfTurn),
        }
    }

    /// With the description, begins the rendering surface.
    fn take_description(&mut self, event: Event) -> (action: Action)
        requires
            old(self).stage == Stage::AwaitDescription,
        ensures
            (*final(self), action) == old(self).next(event),
    {
        match event {
            Event::Described { result, descriptor } => {
                if result == 0 {
                    self.give_up(SetupError::NoDescription)
                } else {
                    self.rendering.descriptor = descriptor;
                    self.stage = Stage::AwaitInstance(Role::Rendering);
                    Action::GetInstance
                }
            },
            _ => self.give_up(SetupError::OutOfTurn),
        }
    }

    /// With the window shown, the bootstrap is complete.
    fn take_shown(&mut self, event: Event) -> (action: Action)
        requires
            old(self).stage == Stage::AwaitShown,
        ensures
            (*final(self), action) == old(self).next(event),
    {
        match event {
            Event::Shown => {
                self.stage = Stage::Ready;
                Action::Done
            },
            _ => self.give_up(SetupError::OutOfTurn),
        }
    }

    /// Takes the platform's answer to the pending request, or the signal
    /// to begin, and issues the next request.
    ///
    /// The first failed platform call ends the bootstrap: the request is
    /// `Abort` with the reason, and every later one repeats it. Once the
    /// rendering window is shown the bootstrap is ready and the request is
    /// `Done`.
    pub fn step(&mut self, event: Event) -> (action: Action)
        ensures
            (*final(self), action) == old(self).next(event),
    {
        match self.stage {
            Stage::Idle => self.take_start(event),
            Stage::AwaitInstance(role) => self.take_instance(role, event),
            Stage::AwaitClass(role) => self.take_class(role, event),
            Stage::AwaitWindow(role) => self.take_window(role, event),
            Stage::AwaitDeviceContext(role) => self.take_device_context(role, event),
            Stage::AwaitBasicFormat => self.take_basic_format(event),
            Stage::AwaitFormatApplied(role) => self.take_format_applied(role, event),
            Stage::AwaitContext(role) => self.take_new_context(role, event),
            Stage::AwaitCurrent(role) => self.take_current_context(role, event),
            Stage::AwaitLibrary => self.take_library(event),
            Stage::AwaitFunctions => self.take_functions(event),
            Stage::AwaitEntryPoint => self.take_entry_point(event),
            Stage::AwaitNegotiation => self.take_negotiation(event),
            Stage::AwaitDescription => self.take_description(event),
            Stage::AwaitShown => self.take_shown(event),
            Stage::Ready => Action::Done,
            Stage::Failed(error) => Action::Abort(error),
        }
    }

    /// The device context of the surface of `role`.
    pub fn device_context(&self, role: Role) -> (dc: isize)
        ensures
            dc == self.surface(role).dc,
    {
        match role {
            Role::Temporary => self.temporary.dc,
            Role::Rendering => self.rendering.dc,
        }
    }
}

impl SetupError {
    /// The diagnostic that goes with the failure.
    pub open spec fn spec_message(self) -> Seq<char> {
        match self {
            SetupError::NoInstance => "Can't get the module instance !"@,
            SetupError::ClassRegistration => "Can't register the window class !"@,
            SetupError::WindowCreation => "Can't create the window !"@,
            SetupError::NoDeviceContext => "Can't get the device context !"@,
            SetupError::NoBasicFormat => "Can't choose a pixel format !"@,
            SetupError::FormatRejected => "Can't set pixel format !"@,
            SetupError::ContextCreation => "Could not create context !"@,
            SetupError::ContextActivation => "Could not make context current !"@,
            SetupError::NoGraphicsLibrary => "Could not find the graphics library !"@,
            SetupError::NoEntryPoint => "Could not resolve the pixel format chooser !"@,
            SetupError::NoAcceptableFormat => "No accelerated multisample pixel format !"@,
            SetupError::NoDescription => "Can't describe the pixel format !"@,
            SetupError::OutOfTurn => "Answer out of turn !"@,
        }
    }

    pub fn message(self) -> (text: &'static str)
        ensures
            text@ == self.spec_message(),
    {
        match self {
            SetupError::NoInstance => "Can't get the module instance !",
            SetupError::ClassRegistration => "Can't register the window class !",
            SetupError::WindowCreation => "Can't create the window !",
            SetupError::NoDeviceContext => "Can't get the device context !",
            SetupError::NoBasicFormat => "Can't choose a pixel format !",
            SetupError::FormatRejected => "Can't set pixel format !",
            SetupError::ContextCreation => "Could not create context !",
            SetupError::ContextActivation => "Could not make context current !",
            SetupError::NoGraphicsLibrary => "Could not find the graphics library !",
            SetupError::NoEntryPoint => "Could not resolve the pixel format chooser !",
            SetupError::NoAcceptableFormat => "No accelerated multisample pixel format !",
            SetupError::NoDescription => "Can't describe the pixel format !",
            SetupError::OutOfTurn => "Answer out of turn !",
        }
    }
}

impl Negotiator {
    /// The window that a completed bootstrap has made: the rendering
    /// surface with the context that is current on it.
    pub open spec fn spec_window(&self) -> Option<Window> {
        if self.stage is Ready {
            Some(
                Window {
                    window_handle: self.rendering.window,
                    dc: self.rendering.dc,
                    context: self.rendering_context,
                    window_data: WindowData { destroyed: false },
                },
            )
        } else {
            None
        }
    }

    /// The temporary surface with its context, once the context exists.
    /// A bootstrap does not release it: it is its owner's to tear down.
    pub open spec fn spec_temporary_window(&self) -> Option<Window> {
        if self.temporary_context != 0 {
            Some(
                Window {
                    window_handle: self.temporary.window,
                    dc: self.temporary.dc,
                    context: self.temporary_context,
                    window_data: WindowData { destroyed: false },
                },
            )
        } else {
            None
        }
    }

    /// Whether the bootstrap is complete.
    pub fn is_ready(&self) -> (ready: bool)
        ensures
            ready == (self.stage is Ready),
    {
        match self.stage {
            Stage::Ready => true,
            _ => false,
        }
    }

    /// Why the bootstrap was given up, if it was.
    pub fn failure(&self) -> (error: Option<SetupError>)
        ensures
            error == (match self.stage {
                Stage::Failed(error) => Some(error),
                _ => None,
            }),
    {
        match self.stage {
            Stage::Failed(error) => Some(error),
            _ => None,
        }
    }

    #[verifier::when_used_as_spec(spec_window)]
    pub fn window(&self) -> (window: Option<Window>)
        ensures
            window == self.spec_window(),
    {
        match self.stage {
            Stage::Ready => Some(
                Window::new(self.rendering.window, self.rendering.dc, self.rendering_context),
            ),
            _ => None,
        }
    }

    #[verifier::when_used_as_spec(spec_temporary_window)]
    pub fn temporary_window(&self) -> (window: Option<Window>)
        ensures
            window == self.spec_temporary_window(),
    {
        if self.temporary_context != 0 {
            Some(Window::new(self.temporary.window, self.temporary.dc, self.temporary_context))
        } else {
            None
        }
    }
}

} // verus!
