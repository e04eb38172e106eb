//! The side table of windows, keyed by window handle.
//!
//! A message handler is called by the platform with nothing but a window
//! handle. The table is where it finds what the owner of that window
//! keeps, so that a destruction the platform carried out on its own is
//! known when the owner tears the window down.

use crate::surface::{Release, Reply, Role, Window};
use vstd::prelude::*;

verus! {

/// The answer of the handler of `role` to `message`.
pub open spec fn reply_of(role: Role, message: u32) -> Reply {
    match role {
        Role::Temporary => Window::spec_temp_reply(message),
        Role::Rendering => Window::spec_reply(message),
    }
}

/// The windows that are owned, each under its handle.
pub struct SurfaceTable {
    windows: Vec<Window>,
}

/// The position in `windows` of the entry for `handle`, or the length if
/// there is none.
spec fn position_of(windows: Seq<Window>, handle: isize) -> int
    decreases windows.len(),
{
    if windows.len() == 0 {
        0
    } else if windows[0].window_handle == handle {
        0
    } else {
        1 + position_of(windows.skip(1), handle)
    }
}

/// No two entries of `windows` have the same handle.
spec fn distinct_handles(windows: Seq<Window>) -> bool {
    forall|i: int, j: int|
        0 <= i < j < windows.len() ==> (#[trigger] windows[i]).window_handle != (
        #[trigger] windows[j]).window_handle
}

/// The map from handle to window that `windows` stands for.
spec fn as_map(windows: Seq<Window>) -> Map<isize, Window> {
    Map::new(
        |handle: isize| position_of(windows, handle) < windows.len(),
        |handle: isize| windows[position_of(windows, handle)],
    )
}

/// `position_of` finds the first entry with the handle, and only that.
proof fn position_is_first(windows: Seq<Window>, handle: isize)
    ensures
        0 <= position_of(windows, handle) <= windows.len(),
        position_of(windows, handle) < windows.len() ==> windows[position_of(
            windows,
            handle,
        )].window_handle == handle,
        forall|i: int|
            0 <= i < position_of(windows, handle) ==> (#[trigger] windows[i]).window_handle
                != handle,
    decreases windows.len(),
{
    if windows.len() > 0 && windows[0].window_handle != handle {
        let rest = windows.skip(1);
        position_is_first(rest, handle);
        assert forall|i: int| 0 <= i < position_of(windows, handle) implies (
        #[trigger] windows[i]).window_handle != handle by {
            if i > 0 {
                assert(rest[i - 1] == windows[i]);
            }
        }
    }
}

/// `at` is where the entry for `handle` stands, if it has the properties
/// of the first such entry.
proof fn position_is_unique(windows: Seq<Window>, handle: isize, at: int)
    requires
        0 <= at <= windows.len(),
        forall|i: int| 0 <= i < at ==> (#[trigger] windows[i]).window_handle != handle,
        at < windows.len() ==> windows[at].window_handle == handle,
    ensures
        position_of(windows, handle) == at,
{
    position_is_first(windows, handle);
    let found = position_of(windows, handle);
    if found < at {
        assert(windows[found].window_handle != handle);
    }
}

/// Entering a window under its handle: in place of the entry that has the
/// handle, or at the end if there is none.
proof fn entering_inserts(windows: Seq<Window>, window: Window)
    requires
        distinct_handles(windows),
    ensures
        ({
            let at = position_of(windows, window.window_handle);
            let entered = if at < windows.len() {
                windows.update(at, window)
            } else {
                windows.push(window)
            };
            &&& distinct_handles(entered)
            &&& as_map(entered) == as_map(windows).insert(window.window_handle, window)
        }),
{
    let handle = window.window_handle;
    let at = position_of(windows, handle);
    position_is_first(windows, handle);
    let entered = if at < windows.len() {
        windows.update(at, window)
    } else {
        windows.push(window)
    };
    assert(distinct_handles(entered)) by {
        assert forall|i: int, j: int| 0 <= i < j < entered.len() implies (
        #[trigger] entered[i]).window_handle != (#[trigger] entered[j]).window_handle by {
            if i < windows.len() {
                assert(entered[i].window_handle == windows[i].window_handle);
            }
            if j < windows.len() {
                assert(entered[j].window_handle == windows[j].window_handle);
                assert(windows[i].window_handle != windows[j].window_handle);
            }
        }
    }
    let expected = as_map(windows).insert(handle, window);
    assert forall|other: isize|
        #[trigger] as_map(entered).dom().contains(other) == expected.dom().contains(other) && (
        as_map(entered).dom().contains(other) ==> as_map(entered)[other]
            == expected[other]) by {
        position_is_first(windows, other);
        let was = position_of(windows, other);
        if other == handle {
            position_is_unique(entered, other, at);
        } else if was < windows.len() {
            assert forall|i: int| 0 <= i < was implies (#[trigger] entered[i]).window_handle
                != other by {
                assert(windows[i].window_handle != other);
            }
            position_is_unique(entered, other, was);
        } else {
            assert forall|i: int| 0 <= i < entered.len() implies (
            #[trigger] entered[i]).window_handle != other by {
                if i < windows.len() {
                    assert(windows[i].window_handle != other);
                }
            }
            position_is_unique(entered, other, entered.len() as int);
        }
    }
    assert(as_map(entered) =~= expected);
}

/// Taking the entry at `at` out removes its handle from the map, and
/// nothing else.
proof fn leaving_removes(windows: Seq<Window>, at: int)
    requires
        distinct_handles(windows),
        0 <= at < windows.len(),
    ensures
        distinct_handles(windows.remove(at)),
        as_map(windows.remove(at)) == as_map(windows).remove(windows[at].window_handle),
{
    let handle = windows[at].window_handle;
    let left = windows.remove(at);
    assert forall|i: int| 0 <= i < left.len() implies (#[trigger] left[i]).window_handle
        == windows[if i < at {
        i
    } else {
        i + 1
    }].window_handle by {}
    assert(distinct_handles(left)) by {
        assert forall|i: int, j: int| 0 <= i < j < left.len() implies (
        #[trigger] left[i]).window_handle != (#[trigger] left[j]).window_handle by {
            let from_i = if i < at {
                i
            } else {
                i + 1
            };
            let from_j = if j < at {
                j
            } else {
                j + 1
            };
            assert(left[i] == windows[from_i]);
            assert(left[j] == windows[from_j]);
            assert(windows[from_i].window_handle != windows[from_j].window_handle);
        }
    }
    let expected = as_map(windows).remove(handle);
    assert forall|other: isize|
        #[trigger] as_map(left).dom().contains(other) == expected.dom().contains(other) && (
        as_map(left).dom().contains(other) ==> as_map(left)[other] == expected[other]) by {
        position_is_first(windows, other);
        let was = position_of(windows, other);
        if other == handle {
            assert forall|i: int| 0 <= i < left.len() implies (#[trigger] left[i]).window_handle
                != other by {
                let from = if i < at {
                    i
                } else {
                    i + 1
                };
                assert(left[i] == windows[from]);
                if from < at {
                    assert(windows[from].window_handle != windows[at].window_handle);
                } else {
                    assert(windows[at].window_handle != windows[from].window_handle);
                }
            }
            position_is_unique(left, other, left.len() as int);
        } else {
            let now = if was > at {
                was - 1
            } else {
                was
            };
            assert forall|i: int| 0 <= i < now implies (#[trigger] left[i]).window_handle
                != other by {
                let from = if i < at {
                    i
                } else {
                    i + 1
                };
                assert(left[i] == windows[from]);
                assert(windows[from].window_handle != other);
            }
            if was < windows.len() {
                assert(left[now] == windows[was]);
            }
            position_is_unique(left, other, now);
        }
    }
    assert(as_map(left) =~= expected);
}

impl SurfaceTable {
    /// What every table holds to: no handle is entered twice.
    pub closed spec fn well_formed(&self) -> bool {
        distinct_handles(self.windows@)
    }

    /// The windows of the table, each under its handle.
    pub closed spec fn view(&self) -> Map<isize, Window> {
        as_map(self.windows@)
    }

    /// The empty table.
    pub fn new() -> (table: SurfaceTable)
        ensures
            table.well_formed(),
            table@ == Map::<isize, Window>::empty(),
    {
        let table = SurfaceTable { windows: Vec::new() };
        assert(table@ =~= Map::<isize, Window>::empty());
        table
    }

    /// Where the entry for `handle` stands, if there is one.
    fn find(&self, handle: isize) -> (at: usize)
        ensures
            at == position_of(self.windows@, handle),
            at <= self.windows.len(),
    {
        let mut at: usize = 0;
        while at < self.windows.len() && self.windows[at].window_handle != handle
            invariant
                at <= self.windows.len(),
                forall|i: int|
                    0 <= i < at ==> (#[trigger] self.windows@[i]).window_handle != handle,
            decreases self.windows.len() - at,
        {
            at = at + 1;
        }
        proof {
            position_is_first(self.windows@, handle);
        }
        at
    }

    /// The window entered under `handle`, if there is one.
    pub fn get(&self, handle: isize) -> (window: Option<Window>)
        ensures
            window == (if self@.contains_key(handle) {
                Some(self@[handle])
            } else {
                None
            }),
    {
        let at = self.find(handle);
        if at < self.windows.len() {
            Some(self.windows[at])
        } else {
            None
        }
    }
}

impl SurfaceTable {
    /// Enters `window` under its handle, in place of what was entered
    /// under that handle before.
    pub fn insert(&mut self, window: Window)
        requires
            old(self).well_formed(),
        ensures
            final(self).well_formed(),
            final(self)@ == old(self)@.insert(window.window_handle, window),
    {
        proof {
            entering_inserts(self.windows@, window);
        }
        let at = self.find(window.window_handle);
        if at < self.windows.len() {
            self.windows.set(at, window);
        } else {
            self.windows.push(window);
        }
    }

    /// The message handler of the surface `role`, for the window `handle`.
    ///
    /// The answer depends on the message alone. That the window is gone
    /// is noted in its entry, if it has one.
    pub fn notify(&mut self, role: Role, handle: isize, message: u32) -> (reply: Reply)
        requires
            old(self).well_formed(),
        ensures
            final(self).well_formed(),
            reply == reply_of(role, message),
            final(self)@ == (if old(self)@.contains_key(handle) {
                old(self)@.insert(handle, old(self)@[handle].noted(message))
            } else {
                old(self)@
            }),
    {
        let at = self.find(handle);
        if at < self.windows.len() {
            let mut window = self.windows[at];
            let reply = match role {
                Role::Temporary => window.temp_wndproc(message),
                Role::Rendering => window.wndproc(message),
            };
            proof {
                position_is_first(self.windows@, handle);
                entering_inserts(self.windows@, window);
            }
            self.windows.set(at, window);
            reply
        } else {
            match role {
                Role::Temporary => Window::temp_reply(message),
                Role::Rendering => Window::reply(message),
            }
        }
    }

    /// Takes the window `handle` out of the table and says what its
    /// teardown releases. Of a window that is not in the table, torn down
    /// before or never entered, nothing is released.
    pub fn teardown(&mut self, handle: isize) -> (plan: Vec<Release>)
        requires
            old(self).well_formed(),
        ensures
            final(self).well_formed(),
            plan@ == (if old(self)@.contains_key(handle) {
                old(self)@[handle].teardown_plan()
            } else {
                Seq::<Release>::empty()
            }),
            final(self)@ == old(self)@.remove(handle),
    {
        let at = self.find(handle);
        if at < self.windows.len() {
            proof {
                position_is_first(self.windows@, handle);
                leaving_removes(self.windows@, at as int);
            }
            let window = self.windows.remove(at);
            window.teardown()
        } else {
            assert(old(self)@.remove(handle) =~= old(self)@);
            Vec::new()
        }
    }
}

/// A surface is torn down at most once: whatever the table held, once a
/// window was taken out of it, taking it out again finds nothing to
/// release.
pub proof fn second_teardown_releases_nothing(table: Map<isize, Window>, handle: isize)
    ensures
        !table.remove(handle).contains_key(handle),
{
}

} // verus!
