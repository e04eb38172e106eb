//! The surface provider: what a native window is made from, how its
//! message handler answers, and how it is torn down.

use vstd::prelude::*;

verus! {

/// Redraw the whole window when its height changes.
pub const CS_VREDRAW: u32 = 0x0001;

/// Redraw the whole window when its width changes.
pub const CS_HREDRAW: u32 = 0x0002;

/// Deliver double-click messages.
pub const CS_DBLCLKS: u32 = 0x0008;

/// Give each window of the class a device context of its own.
pub const CS_OWNDC: u32 = 0x0020;

/// Class style of every window this library asks for: the four styles
/// above together.
pub const CLASS_STYLE: u32 = 0x002B;

/// Window style: an overlapped window with caption, system menu, sizing
/// border and minimize and maximize boxes.
pub const WS_OVERLAPPEDWINDOW: u32 = 0x00CF_0000;

/// Lets the platform choose a position or a size.
pub const CW_USEDEFAULT: i32 = -0x8000_0000;

/// Resource identifier of the standard arrow cursor.
pub const IDC_ARROW: u16 = 32512;

/// Show command: activate the window in its current size and position.
pub const SW_SHOW: i32 = 5;

/// The error that a registration reports for a class that already exists.
pub const ERROR_CLASS_ALREADY_EXISTS: u32 = 1410;

/// The window was created.
pub const WM_CREATE: u32 = 0x0001;

/// The window is being destroyed.
pub const WM_DESTROY: u32 = 0x0002;

/// The window should paint itself.
pub const WM_PAINT: u32 = 0x000F;

/// The window is asked to close.
pub const WM_CLOSE: u32 = 0x0010;

/// Which of the two surfaces of a bootstrap.
#[derive(Clone, Copy, Debug, PartialEq, Eq, Structural)]
pub enum Role {
    /// The throwaway surface that carries the minimal context.
    Temporary,
    /// The surface that is rendered to.
    Rendering,
}

/// What a window class is registered with, apart from its name.
#[derive(Clone, Copy, Debug, PartialEq, Eq, Structural)]
pub struct WindowClass {
    /// Class style bits.
    pub style: u32,
    /// Resource identifier of the class cursor.
    pub cursor: u16,
    /// Whose message handler the class dispatches to.
    pub handler: Role,
}

/// What a window is created with, apart from its class and title. It has
/// no parent and no menu.
#[derive(Clone, Copy, Debug, PartialEq, Eq, Structural)]
pub struct WindowRequest {
    pub extended_style: u32,
    pub style: u32,
    pub x: i32,
    pub y: i32,
    pub width: i32,
    pub height: i32,
}

/// What a message handler tells the platform layer to do with a message.
#[derive(Clone, Copy, Debug, PartialEq, Eq, Structural)]
pub enum Reply {
    /// Nothing more to do: answer zero.
    Handled,
    /// Ask the platform to destroy the window, then answer zero.
    DestroyWindow,
    /// Post the quit message with exit code zero, then answer zero.
    PostQuit,
    /// Hand the message to the platform's default handler, unmodified, and
    /// answer what it answers.
    Default,
}

/// One release of a platform resource.
#[derive(Clone, Copy, Debug, PartialEq, Eq, Structural)]
pub enum Release {
    /// Delete a rendering context.
    Context(isize),
    /// Release the device context `dc` of the window `window`.
    DeviceContext { window: isize, dc: isize },
    /// Destroy a native window.
    Window(isize),
}

/// What the owner of a window keeps about its lifetime.
#[derive(Clone, Copy, Debug, PartialEq, Eq, Structural)]
pub struct WindowData {
    /// The platform has told the handler that the window is gone.
    pub destroyed: bool,
}

/// A native window with its device context and the rendering context
/// bound to it.
#[derive(Clone, Copy, Debug, PartialEq, Eq, Structural)]
pub struct Window {
    pub window_handle: isize,
    pub dc: isize,
    pub context: isize,
    pub window_data: WindowData,
}

/// The class of the surface `role`.
pub open spec fn spec_window_class(role: Role) -> WindowClass {
    WindowClass { style: CLASS_STYLE, cursor: IDC_ARROW, handler: role }
}

/// The window every surface asks for: default position and size.
pub open spec fn spec_window_request() -> WindowRequest {
    WindowRequest {
        extended_style: 0,
        style: WS_OVERLAPPEDWINDOW,
        x: CW_USEDEFAULT,
        y: CW_USEDEFAULT,
        width: CW_USEDEFAULT,
        height: CW_USEDEFAULT,
    }
}

/// The name under which the class of the surface `role` is registered.
pub open spec fn spec_class_name(role: Role) -> Seq<char> {
    match role {
        Role::Temporary => "Temporary window class"@,
        Role::Rendering => "Renderer window class"@,
    }
}

/// The title of the window of the surface `role`.
pub open spec fn spec_window_title(role: Role) -> Seq<char> {
    match role {
        Role::Temporary => "Temporary window"@,
        Role::Rendering => "Rendered window"@,
    }
}

/// A registration counts as done when it gave an atom, and also when it
/// failed only because the class is registered already.
pub open spec fn spec_class_registered(atom: u16, last_error: u32) -> bool {
    atom != 0 || last_error == ERROR_CLASS_ALREADY_EXISTS
}

#[verifier::when_used_as_spec(spec_window_class)]
pub fn window_class(role: Role) -> (class: WindowClass)
    ensures
        class == spec_window_class(role),
        class.style == CS_HREDRAW | CS_VREDRAW | CS_OWNDC | CS_DBLCLKS,
{
    let style = CS_HREDRAW | CS_VREDRAW | CS_OWNDC | CS_DBLCLKS;
    proof {
        assert(0x0002u32 | 0x0001u32 | 0x0020u32 | 0x0008u32 == 0x002Bu32) by (bit_vector);
    }
    WindowClass { style, cursor: IDC_ARROW, handler: role }
}

#[verifier::when_used_as_spec(spec_window_request)]
pub fn window_request() -> (request: WindowRequest)
    ensures
        request == spec_window_request(),
{
    WindowRequest {
        extended_style: 0,
        style: WS_OVERLAPPEDWINDOW,
        x: CW_USEDEFAULT,
        y: CW_USEDEFAULT,
        width: CW_USEDEFAULT,
        height: CW_USEDEFAULT,
    }
}

pub fn class_name(role: Role) -> (name: &'static str)
    ensures
        name@ == spec_class_name(role),
{
    match role {
        Role::Temporary => "Temporary window class",
        Role::Rendering => "Renderer window class",
    }
}

pub fn window_title(role: Role) -> (title: &'static str)
    ensures
        title@ == spec_window_title(role),
{
    match role {
        Role::Temporary => "Temporary window",
        Role::Rendering => "Rendered window",
    }
}

#[verifier::when_used_as_spec(spec_class_registered)]
pub fn class_registered(atom: u16, last_error: u32) -> (done: bool)
    ensures
        done == spec_class_registered(atom, last_error),
{
    atom != 0 || last_error == ERROR_CLASS_ALREADY_EXISTS
}

impl Window {
    /// The window after its handler has seen `message`: the notification
    /// that the window is gone is remembered, nothing else changes.
    pub open spec fn noted(self, message: u32) -> Window {
        if message == WM_DESTROY {
            Window { window_data: WindowData { destroyed: true }, ..self }
        } else {
            self
        }
    }

    /// The answer of the rendering surface's handler to `message`.
    pub open spec fn spec_reply(message: u32) -> Reply {
        if message == WM_PAINT || message == WM_CREATE {
            Reply::Handled
        } else if message == WM_CLOSE {
            Reply::DestroyWindow
        } else if message == WM_DESTROY {
            Reply::PostQuit
        } else {
            Reply::Default
        }
    }

    /// The answer of the temporary surface's handler to `message`.
    pub open spec fn spec_temp_reply(message: u32) -> Reply {
        if message == WM_DESTROY || message == WM_CREATE {
            Reply::Handled
        } else {
            Reply::Default
        }
    }

    /// What is released when the window's owner lets go of it, in order:
    /// the rendering context, then the device context, then the window. Of
    /// a window that the platform has destroyed already, only the
    /// rendering context is left to release.
    pub open spec fn teardown_plan(self) -> Seq<Release> {
        if self.window_data.destroyed {
            seq![Release::Context(self.context)]
        } else {
            seq![
                Release::Context(self.context),
                Release::DeviceContext { window: self.window_handle, dc: self.dc },
                Release::Window(self.window_handle),
            ]
        }
    }

    /// The window after its handler has seen each of `messages` in turn.
    pub open spec fn noted_all(self, messages: Seq<u32>) -> Window
        decreases messages.len(),
    {
        if messages.len() == 0 {
            self
        } else {
            self.noted_all(messages.drop_last()).noted(messages.last())
        }
    }

    #[verifier::when_used_as_spec(spec_reply)]
    pub fn reply(message: u32) -> (reply: Reply)
        ensures
            reply == Self::spec_reply(message),
    {
        if message == WM_PAINT || message == WM_CREATE {
            Reply::Handled
        } else if message == WM_CLOSE {
            Reply::DestroyWindow
        } else if message == WM_DESTROY {
            Reply::PostQuit
        } else {
            Reply::Default
        }
    }

    #[verifier::when_used_as_spec(spec_temp_reply)]
    pub fn temp_reply(message: u32) -> (reply: Reply)
        ensures
            reply == Self::spec_temp_reply(message),
    {
        if message == WM_DESTROY || message == WM_CREATE {
            Reply::Handled
        } else {
            Reply::Default
        }
    }

    /// A window that lives, with its device context and rendering context.
    pub fn new(window_handle: isize, dc: isize, context: isize) -> (window: Window)
        ensures
            window == (Window {
                window_handle,
                dc,
                context,
                window_data: WindowData { destroyed: false },
            }),
    {
        Window { window_handle, dc, context, window_data: WindowData { destroyed: false } }
    }

    /// The message handler of the rendering surface.
    pub fn wndproc(&mut self, message: u32) -> (reply: Reply)
        ensures
            *final(self) == old(self).noted(message),
            reply == Self::spec_reply(message),
    {
        if message == WM_DESTROY {
            self.window_data.destroyed = true;
        }
        Window::reply(message)
    }

    /// The message handler of the temporary surface.
    pub fn temp_wndproc(&mut self, message: u32) -> (reply: Reply)
        ensures
            *final(self) == old(self).noted(message),
            reply == Self::spec_temp_reply(message),
    {
        if message == WM_DESTROY {
            self.window_data.destroyed = true;
        }
        Window::temp_reply(message)
    }

    /// The releases that tearing the window down takes, in order.
    pub fn teardown(&self) -> (plan: Vec<Release>)
        ensures
            plan@ == self.teardown_plan(),
    {
        let mut plan: Vec<Release> = Vec::new();
        plan.push(Release::Context(self.context));
        if !self.window_data.destroyed {
            plan.push(Release::DeviceContext { window: self.window_handle, dc: self.dc });
            plan.push(Release::Window(self.window_handle));
        }
        plan
    }
}

/// Where a release stands in the order of a teardown.
pub open spec fn release_rank(release: Release) -> int {
    match release {
        Release::Context(_) => 0,
        Release::DeviceContext { .. } => 1,
        Release::Window(_) => 2,
    }
}

/// Handling messages changes nothing of a window but what it remembers of
/// its destruction: that is remembered from the first `WM_DESTROY` on.
pub proof fn messages_only_mark_destruction(window: Window, messages: Seq<u32>)
    ensures
        window.noted_all(messages) == (Window {
            window_data: WindowData {
                destroyed: window.window_data.destroyed || messages.contains(WM_DESTROY),
            },
            ..window
        }),
    decreases messages.len(),
{
    if messages.len() > 0 {
        let earlier = messages.drop_last();
        messages_only_mark_destruction(window, earlier);
        assert(messages.contains(WM_DESTROY) <==> earlier.contains(WM_DESTROY) || messages.last()
            == WM_DESTROY) by {
            if earlier.contains(WM_DESTROY) {
                let i = choose|i: int| 0 <= i < earlier.len() && earlier[i] == WM_DESTROY;
                assert(messages[i] == WM_DESTROY);
            }
            if messages.last() == WM_DESTROY {
                assert(messages[messages.len() - 1] == WM_DESTROY);
            }
            if messages.contains(WM_DESTROY) {
                let i = choose|i: int| 0 <= i < messages.len() && messages[i] == WM_DESTROY;
                if i < earlier.len() {
                    assert(earlier[i] == WM_DESTROY);
                }
            }
        }
    }
}

/// A window that the platform destroyed on its own is not released a
/// second time: once its handler has seen `WM_DESTROY`, whatever came
/// before or after, tearing it down deletes the rendering context and
/// touches neither the device context nor the window.
pub proof fn destroyed_window_is_released_once(window: Window, messages: Seq<u32>)
    requires
        messages.contains(WM_DESTROY),
    ensures
        window.noted_all(messages).teardown_plan() == seq![Release::Context(window.context)],
        forall|i: int|
            0 <= i < window.noted_all(messages).teardown_plan().len() ==> {
                let release = #[trigger] window.noted_all(messages).teardown_plan()[i];
                release !is DeviceContext && release !is Window
            },
{
    messages_only_mark_destruction(window, messages);
}

/// A window that no notification has marked is released in full, and in
/// the reverse of the order of creation: rendering context, device
/// context, window.
pub proof fn living_window_is_released_in_full(window: Window, messages: Seq<u32>)
    requires
        !window.window_data.destroyed,
        !messages.contains(WM_DESTROY),
    ensures
        window.noted_all(messages).teardown_plan() == seq![
            Release::Context(window.context),
            Release::DeviceContext { window: window.window_handle, dc: window.dc },
            Release::Window(window.window_handle),
        ],
{
    messages_only_mark_destruction(window, messages);
}

/// Every teardown releases a rendering context before a device context
/// and a device context before a window, and nothing twice.
pub proof fn teardown_is_ordered(window: Window)
    ensures
        forall|i: int, j: int|
            0 <= i < j < window.teardown_plan().len() ==> release_rank(
                #[trigger] window.teardown_plan()[i],
            ) < release_rank(#[trigger] window.teardown_plan()[j]),
{
}

} // verus!
