use vstd::prelude::*;

use crate::module::Module;
use crate::options::{lemma_native_options_faithful, NativeOptions, Options};

verus! {

/// Why an engine could not be had.
#[derive(Clone, Debug, PartialEq, Eq)]
pub enum ErrorKind {
    /// The native compiler refused the module or the configuration; the
    /// message is its own diagnostic, copied out.
    EngineCreationFailed(String),
}

/// What goes to the native "create compiler for module" call.
#[derive(Clone, Copy, Debug, PartialEq, Eq, Structural)]
pub struct CreationRequest {
    pub module_ref: usize,
    pub options: NativeOptions,
}

/// A just-in-time execution engine: the address of its native handle, and
/// whether this value is the one that must dispose of it. It cannot be
/// copied, so at most one value owns a given handle.
pub struct Engine {
    engine: usize,
    owned: bool,
}

impl Engine {
    pub closed spec fn handle_spec(&self) -> usize {
        self.engine
    }

    pub closed spec fn owns_spec(&self) -> bool {
        self.owned
    }

    /// The module gave up its resource and the request names it and carries
    /// the translated options.
    pub open spec fn hand_over(module: Module, options: Options, next: Module, r: CreationRequest) -> bool {
        &&& !next.owns_spec()
        &&& next.handle_spec() == module.handle_spec()
        &&& next.name_spec() == module.name_spec()
        &&& r.module_ref == module.handle_spec()
        &&& r.options == options.native_spec()
    }

    /// What creation yields from the native call's status, handle and
    /// diagnostic: an owning engine on the handle when the status is 0, the
    /// diagnostic as `EngineCreationFailed` otherwise.
    pub open spec fn created(status: libc::c_int, engine_ref: usize, error: Seq<char>, r: Result<Engine, ErrorKind>) -> bool {
        match r {
            Ok(e) => status == 0 && e.handle_spec() == engine_ref && e.owns_spec(),
            Err(ErrorKind::EngineCreationFailed(m)) => status != 0 && m@ == error,
        }
    }

    /// `next` is `self` with no claim left on its handle, and `dispose` says
    /// whether the handle was still this engine's to dispose of.
    pub open spec fn release_step(self, dispose: bool, next: Engine) -> bool {
        &&& dispose == self.owns_spec()
        &&& !next.owns_spec()
        &&& next.handle_spec() == self.handle_spec()
    }

    /// The first step of creation: the module gives up its claim on its
    /// resource, since the compiler takes it whatever the outcome, and the
    /// options become the native record.
    pub fn prepare(module: &mut Module, options: &Options) -> (r: CreationRequest)
        requires
            old(module).owns_spec(),
        ensures
            Engine::hand_over(*old(module), *options, *final(module), r),
    {
        module.unown();
        CreationRequest { module_ref: module.to_ref(), options: options.to_native() }
    }

    /// The second step of creation, from what the native call handed back:
    /// its status (0 on success), the handle it wrote, and its diagnostic,
    /// already copied out of the native buffer.
    pub fn new(status: libc::c_int, engine_ref: usize, error: String) -> (r: Result<Engine, ErrorKind>)
        ensures
            Engine::created(status, engine_ref, error@, r),
    {
        if status != 0 {
            Err(ErrorKind::EngineCreationFailed(error))
        } else {
            Ok(Engine { engine: engine_ref, owned: true })
        }
    }

    /// The native handle, for calls that need the engine.
    pub fn to_ref(&self) -> (r: usize)
        ensures
            r == self.handle_spec(),
    {
        self.engine
    }

    pub fn is_owned(&self) -> (r: bool)
        ensures
            r == self.owns_spec(),
    {
        self.owned
    }

    /// The engine's teardown: says whether the caller must dispose of the
    /// native handle now, and leaves the engine with no claim on it, so that a
    /// second teardown disposes of nothing.
    pub fn release(&mut self) -> (dispose: bool)
        ensures
            old(self).release_step(dispose, *final(self)),
    {
        let dispose = self.owned;
        self.owned = false;
        dispose
    }
}

/// Whatever options are chosen, a creation that the native call reports as
/// successful yields an engine that owns the handle it was given, and the
/// record handed to the call holds a level from 0 to 3, fast instruction
/// selection on and the no-frame-pointer-elimination flag at 0.
pub proof fn lemma_success_yields_owning_engine(
    module: Module,
    options: Options,
    next: Module,
    request: CreationRequest,
    engine_ref: usize,
    error: Seq<char>,
    r: Result<Engine, ErrorKind>,
)
    requires
        module.owns_spec(),
        Engine::hand_over(module, options, next, request),
        Engine::created(0, engine_ref, error, r),
    ensures
        r is Ok,
        r->Ok_0.owns_spec(),
        r->Ok_0.handle_spec() == engine_ref,
        request.options.opt_level <= 3,
        request.options.enable_fast_isel == 1,
        request.options.no_frame_pointer_elim == 0,
{
    lemma_native_options_faithful(options, options);
}

/// An engine disposes of its handle at most once: a first teardown disposes
/// of it exactly when the engine owned it, a second never does.
pub proof fn lemma_disposed_at_most_once(e0: Engine, d1: bool, e1: Engine, d2: bool, e2: Engine)
    requires
        e0.release_step(d1, e1),
        e1.release_step(d2, e2),
    ensures
        d1 == e0.owns_spec(),
        !d2,
        e2.handle_spec() == e0.handle_spec(),
{
}

/// Once a module has been handed to the compiler its own teardown releases
/// nothing, whatever the outcome; when an engine came of it, the engine's
/// teardown disposes of the engine's handle, so exactly one of the two
/// releases anything.
pub proof fn lemma_single_release_after_creation(
    m0: Module,
    options: Options,
    m1: Module,
    request: CreationRequest,
    dm: bool,
    m2: Module,
    status: libc::c_int,
    engine_ref: usize,
    error: Seq<char>,
    e0: Engine,
    de: bool,
    e1: Engine,
)
    requires
        Engine::hand_over(m0, options, m1, request),
        m1.release_step(dm, m2),
        Engine::created(status, engine_ref, error, Ok(e0)),
        e0.release_step(de, e1),
    ensures
        !dm,
        de,
        e1.handle_spec() == engine_ref,
{
}

/// Two engines created one after the other are torn down independently: in
/// either order each disposes of its own handle exactly once, and a later
/// teardown of either disposes of nothing.
pub proof fn lemma_independent_engines(
    sa: libc::c_int,
    ra: usize,
    ea: Seq<char>,
    a0: Engine,
    sb: libc::c_int,
    rb: usize,
    eb: Seq<char>,
    b0: Engine,
    da: bool,
    a1: Engine,
    db: bool,
    b1: Engine,
    da2: bool,
    a2: Engine,
    db2: bool,
    b2: Engine,
)
    requires
        Engine::created(sa, ra, ea, Ok(a0)),
        Engine::created(sb, rb, eb, Ok(b0)),
        a0.release_step(da, a1),
        b0.release_step(db, b1),
        a1.release_step(da2, a2),
        b1.release_step(db2, b2),
    ensures
        da && db,
        !da2 && !db2,
        a1.handle_spec() == ra && b1.handle_spec() == rb,
{
}

} // verus!
