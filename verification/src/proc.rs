//! Per-thread bookkeeping for the component library that the drawing
//! backend rests on.
//!
//! The library must be initialized once for a thread before the first use
//! and uninitialized after the last. Handles are counted here; the caller
//! performs the native calls that the answers order.

use vstd::prelude::*;

verus! {

/// The count of handles that are out on one thread.
pub struct ComLibrary {
    strong: usize,
}

impl View for ComLibrary {
    type V = nat;

    closed spec fn view(&self) -> nat {
        self.strong as nat
    }
}

impl ComLibrary {
    /// The bookkeeping of a thread on which the library is not in use.
    pub fn new() -> (library: ComLibrary)
        ensures
            library@ == 0,
    {
        ComLibrary { strong: 0 }
    }

    /// The number of handles that are out.
    pub fn handles(&self) -> (count: usize)
        ensures
            count == self@,
    {
        self.strong
    }
}

/// A handle which stands for the component library being loaded for a
/// thread. The library stays initialized while any handle is out.
#[derive(Debug)]
pub struct ComLibraryHandle(());

impl ComLibraryHandle {
    /// Acquires a counted handle to the library for the calling thread. The
    /// flag tells whether this is the first handle, in which case the
    /// caller must initialize the library.
    pub fn acquire(library: &mut ComLibrary) -> (res: (ComLibraryHandle, bool))
        requires
            old(library)@ < usize::MAX,
        ensures
            final(library)@ == old(library)@ + 1,
            res.1 == (old(library)@ == 0),
    {
        let initialize = library.strong == 0;
        library.strong = library.strong + 1;
        (ComLibraryHandle(()), initialize)
    }

    /// Gives the handle back. Returns `true` if it was the last one, in
    /// which case the caller must uninitialize the library.
    pub fn release(self, library: &mut ComLibrary) -> (uninitialize: bool)
        requires
            old(library)@ > 0,
        ensures
            final(library)@ == old(library)@ - 1,
            uninitialize == (old(library)@ == 1),
    {
        library.strong = library.strong - 1;
        library.strong == 0
    }
}

} // verus!
