//! Fundamental types shared by the window and drawing layers.

use vstd::prelude::*;

use crate::strings::{decimal, isize_to_string};

verus! {

/// A reference to a compiled native resource (icons, cursors, etc).
#[derive(Clone, Copy, Debug, PartialEq, Eq, Structural)]
pub struct ResourceId(pub isize);

impl ResourceId {
    /// The integer that identifies the resource.
    pub fn value(&self) -> (value: isize)
        ensures
            value == self.0,
    {
        self.0
    }

    /// The identifier in decimal, as it appears in window class names.
    pub fn to_string(&self) -> (text: String)
        ensures
            text@ == decimal(self.0 as int),
    {
        isize_to_string(self.0)
    }
}

impl Default for ResourceId {
    fn default() -> (id: ResourceId)
        ensures
            id == ResourceId(0),
    {
        ResourceId(0)
    }
}

impl From<isize> for ResourceId {
    fn from(val: isize) -> (id: ResourceId) {
        ResourceId(val)
    }
}

impl vstd::std_specs::convert::FromSpecImpl<isize> for ResourceId {
    open spec fn obeys_from_spec() -> bool {
        true
    }

    open spec fn from_spec(val: isize) -> ResourceId {
        ResourceId(val)
    }
}

/// A native window handle. Zero is the null handle.
#[derive(Clone, Copy, Debug, PartialEq, Eq, Structural)]
pub struct Hwnd(pub isize);

/// A resource definition which is compiled into the binary.
#[derive(Clone, Copy, Debug)]
pub struct Resource {
    path: &'static str,
    id: isize,
}

impl Resource {
    /// Defines the resource found at `path`, compiled under `id`.
    pub fn new(path: &'static str, id: isize) -> (resource: Resource)
        ensures
            resource.spec_path() == path,
            resource.spec_id() == id,
    {
        Resource { path, id }
    }

    /// The path of the resource.
    pub closed spec fn spec_path(&self) -> &'static str {
        self.path
    }

    /// The identifier of the resource.
    pub closed spec fn spec_id(&self) -> isize {
        self.id
    }

    /// Resource path relative to the root of the crate.
    pub fn path(&self) -> (path: &'static str)
        ensures
            path == self.spec_path(),
    {
        self.path
    }

    /// The compiled resource ID, as can be found in the resource script.
    pub fn id(&self) -> (id: isize)
        ensures
            id == self.spec_id(),
    {
        self.id
    }

    /// The compiled resource ID in decimal.
    pub fn id_string(&self) -> (text: String)
        ensures
            text@ == decimal(self.spec_id() as int),
    {
        isize_to_string(self.id)
    }
}

} // verus!
