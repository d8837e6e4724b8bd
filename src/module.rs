use vstd::prelude::*;

verus! {

/// What the engine logic needs to know of an intermediate-representation
/// module: its name, the address of its native resource, and whether the
/// module itself is still the one that must release that resource.
pub struct Module {
    name: String,
    handle: usize,
    owned: bool,
}

impl Module {
    pub closed spec fn name_spec(&self) -> Seq<char> {
        self.name@
    }

    pub closed spec fn handle_spec(&self) -> usize {
        self.handle
    }

    pub closed spec fn owns_spec(&self) -> bool {
        self.owned
    }

    /// `next` is `self` after its claim on the resource was given up, and
    /// `dispose` says whether the resource was still the module's to release.
    pub open spec fn release_step(self, dispose: bool, next: Module) -> bool {
        &&& dispose == self.owns_spec()
        &&& !next.owns_spec()
        &&& next.handle_spec() == self.handle_spec()
        &&& next.name_spec() == self.name_spec()
    }

    /// A module that owns the native resource at `handle`.
    pub fn new(name: String, handle: usize) -> (r: Module)
        ensures
            r.name_spec() == name@,
            r.handle_spec() == handle,
            r.owns_spec(),
    {
        Module { name, handle, owned: true }
    }

    pub fn name(&self) -> (r: &String)
        ensures
            r@ == self.name_spec(),
    {
        &self.name
    }

    /// The native reference to pass to the compiler.
    pub fn to_ref(&self) -> (r: usize)
        ensures
            r == self.handle_spec(),
    {
        self.handle
    }

    pub fn owns_resource(&self) -> (r: bool)
        ensures
            r == self.owns_spec(),
    {
        self.owned
    }

    /// Gives up the module's claim on its resource for good; calling it again
    /// changes nothing.
    pub fn unown(&mut self)
        ensures
            !final(self).owns_spec(),
            final(self).handle_spec() == old(self).handle_spec(),
            final(self).name_spec() == old(self).name_spec(),
    {
        self.owned = false;
    }

    /// The module's teardown: says whether the caller must release the native
    /// resource now, and leaves the module with no claim on it, so that a
    /// second teardown releases nothing.
    pub fn release(&mut self) -> (dispose: bool)
        ensures
            old(self).release_step(dispose, *final(self)),
    {
        let dispose = self.owned;
        self.owned = false;
        dispose
    }
}

} // verus!
