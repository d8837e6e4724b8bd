use vstd::prelude::*;

verus! {

/// How aggressively the compiler transforms code.
#[derive(Clone, Copy, Debug, PartialEq, Eq, Structural)]
pub enum OptimizationLevel {
    NoOptimizations,
    Level1,
    Level2,
    Level3,
}

/// The addressing strategy the compiler uses when it emits machine code.
#[derive(Clone, Copy, Debug, PartialEq, Eq, Structural)]
pub enum CodeModel {
    Default,
    JITDefault,
    Kernel,
    Large,
    Medium,
    Small,
}

/// What a caller chooses when it asks for an engine.
#[derive(Clone, Copy, Debug, PartialEq, Eq, Structural)]
pub struct Options {
    pub level: OptimizationLevel,
    pub code_model: CodeModel,
}

/// The native compiler's configuration record, field for field, without the
/// memory-manager pointer, which is always null.
#[derive(Clone, Copy, Debug, PartialEq, Eq, Structural)]
pub struct NativeOptions {
    pub opt_level: libc::c_uint,
    pub code_model: libc::c_uint,
    pub no_frame_pointer_elim: libc::c_int,
    pub enable_fast_isel: libc::c_int,
}

impl OptimizationLevel {
    /// The ordinal that the native compiler reads as its optimization level.
    pub open spec fn ordinal_spec(self) -> u32 {
        match self {
            OptimizationLevel::NoOptimizations => 0,
            OptimizationLevel::Level1 => 1,
            OptimizationLevel::Level2 => 2,
            OptimizationLevel::Level3 => 3,
        }
    }

    pub fn ordinal(&self) -> (r: libc::c_uint)
        ensures
            r == self.ordinal_spec(),
    {
        match self {
            OptimizationLevel::NoOptimizations => 0,
            OptimizationLevel::Level1 => 1,
            OptimizationLevel::Level2 => 2,
            OptimizationLevel::Level3 => 3,
        }
    }
}

impl CodeModel {
    /// The value of the matching variant of the native code-model enumeration
    /// (Default 0, JITDefault 1, Tiny 2, Small 3, Kernel 4, Medium 5, Large 6).
    pub open spec fn native_spec(self) -> u32 {
        match self {
            CodeModel::Default => 0,
            CodeModel::JITDefault => 1,
            CodeModel::Small => 3,
            CodeModel::Kernel => 4,
            CodeModel::Medium => 5,
            CodeModel::Large => 6,
        }
    }

    pub fn native_value(&self) -> (r: libc::c_uint)
        ensures
            r == self.native_spec(),
    {
        match self {
            CodeModel::Default => 0,
            CodeModel::JITDefault => 1,
            CodeModel::Small => 3,
            CodeModel::Kernel => 4,
            CodeModel::Medium => 5,
            CodeModel::Large => 6,
        }
    }
}

impl Options {
    /// The record handed to the native compiler: the two chosen fields
    /// translated, the no-frame-pointer-elimination flag at 0, fast instruction
    /// selection always on.
    pub open spec fn native_spec(self) -> NativeOptions {
        NativeOptions {
            opt_level: self.level.ordinal_spec(),
            code_model: self.code_model.native_spec(),
            no_frame_pointer_elim: 0,
            enable_fast_isel: 1,
        }
    }

    pub fn to_native(&self) -> (r: NativeOptions)
        ensures
            r == self.native_spec(),
    {
        NativeOptions {
            opt_level: self.level.ordinal(),
            code_model: self.code_model.native_value(),
            no_frame_pointer_elim: 0,
            enable_fast_isel: 1,
        }
    }
}

/// Distinct options give distinct native records, and each record is one
/// the native compiler accepts: a level from 0 to 3, a code model other than
/// Tiny, the no-frame-pointer-elimination flag at 0, fast instruction
/// selection on.
pub proof fn lemma_native_options_faithful(a: Options, b: Options)
    ensures
        a.native_spec() == b.native_spec() ==> a == b,
        a.native_spec().opt_level <= 3,
        a.native_spec().code_model <= 6,
        a.native_spec().code_model != 2,
        a.native_spec().no_frame_pointer_elim == 0,
        a.native_spec().enable_fast_isel == 1,
{
}

} // verus!
