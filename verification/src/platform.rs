//! The seam between a window and the platform that backs it.

use vstd::prelude::*;

verus! {

/// A platform's window: how one is made and how it is kept running. Each
/// platform backend implements this for its own window type; what an
/// implementation does is its own affair, and nothing here is proved
/// through it.
///
/// A caller that runs what `create` gives asks for
/// `WindowImplType: WindowImpl` itself: the trait cannot name itself in
/// the bound of its own associated type.
pub trait WindowImpl {
    type WindowImplType;

    fn create() -> Self::WindowImplType;

    fn run(&self);
}

} // verus!
