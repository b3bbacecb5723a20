//! Core value types, limits, and the error taxonomy shared by every
//! component of the engine.
use vstd::prelude::*;

verus! {

/// Number of bytes in one linear-memory page (64 KiB).
pub const PAGE_SIZE: usize = 65536;

/// Implementation ceiling on memory pages when no maximum is declared
/// (32768 pages = 2 GiB of addressable bytes).
pub const MAX_MEMORY_PAGES: u32 = 32768;

/// Implementation ceiling on table elements when no maximum is declared.
pub const MAX_TABLE_ELEMS: u32 = 1000000;

/// A WebAssembly value type. This engine implements the integer subset;
/// modules using other value types are rejected at compile time with
/// `CompileError::Unsupported`.
#[derive(Clone, Copy, Debug, PartialEq, Eq, Structural)]
pub enum ValType {
    I32,
    I64,
}

/// A typed runtime value crossing the host/guest boundary.
#[derive(Clone, Copy, Debug, PartialEq, Eq, Structural)]
pub enum Val {
    I32(i32),
    I64(i64),
}

/// The zero value of a given type.
pub open spec fn zero_of_spec(t: ValType) -> Val {
    match t {
        ValType::I32 => Val::I32(0),
        ValType::I64 => Val::I64(0),
    }
}

impl Val {
    /// The value type this value inhabits.
    pub open spec fn ty_spec(self) -> ValType {
        match self {
            Val::I32(_) => ValType::I32,
            Val::I64(_) => ValType::I64,
        }
    }

    /// Executable twin of `ty_spec`.
    pub fn ty(&self) -> (t: ValType)
        ensures
            t == self.ty_spec(),
    {
        match self {
            Val::I32(_) => ValType::I32,
            Val::I64(_) => ValType::I64,
        }
    }

    /// The zero value of a given type, used for fresh locals and globals.
    pub fn zero_of(t: ValType) -> (v: Val)
        ensures
            v.ty_spec() == t,
            v == zero_of_spec(t),
    {
        match t {
            ValType::I32 => Val::I32(0),
            ValType::I64 => Val::I64(0),
        }
    }
}

/// Size bounds of a memory (in pages) or a table (in elements):
/// a mandatory initial size and an optional declared maximum.
#[derive(Clone, Copy, Debug)]
pub struct Limits {
    pub initial: u32,
    pub maximum: Option<u32>,
}

impl Limits {
    /// The effective maximum: the declared one, or the given
    /// implementation ceiling when none was declared.
    pub open spec fn effective_max_spec(self, ceiling: u32) -> u32 {
        match self.maximum {
            Some(m) => m,
            None => ceiling,
        }
    }

    /// Executable twin of `effective_max_spec`.
    pub fn effective_max(&self, ceiling: u32) -> (m: u32)
        ensures
            m == self.effective_max_spec(ceiling),
    {
        match self.maximum {
            Some(m) => m,
            None => ceiling,
        }
    }

    /// Internal consistency against an implementation ceiling:
    /// `initial <= maximum <= ceiling`.
    pub open spec fn valid_spec(self, ceiling: u32) -> bool {
        &&& self.initial <= self.effective_max_spec(ceiling)
        &&& self.effective_max_spec(ceiling) <= ceiling
    }

    /// Executable twin of `valid_spec`.
    pub fn valid(&self, ceiling: u32) -> (b: bool)
        ensures
            b == self.valid_spec(ceiling),
    {
        let m = self.effective_max(ceiling);
        self.initial <= m && m <= ceiling
    }
}

/// A runtime fault that aborts the current call without being a
/// host-level error; distinct from link and compile errors.
#[derive(Clone, Copy, Debug, PartialEq, Eq, Structural)]
pub enum Trap {
    MemoryOutOfBounds,
    TableOutOfBounds,
    IndirectCallTypeMismatch,
    IntegerDivideByZero,
    IntegerOverflow,
    Unreachable,
    StackOverflow,
    /// Raised by the host: here, on a call into a host-provided
    /// function import, which carries no executable behavior inside
    /// this core.
    HostRequested,
}

/// Failure of a `grow` operation on a memory or a table; the resource
/// is left byte-for-byte (element-for-element) unchanged.
#[derive(Clone, Copy, Debug, PartialEq, Eq, Structural)]
pub enum GrowError {
    /// The requested size would pass the declared (or ceiling) maximum.
    ExceedsMaximum,
    /// The host could not provide the additional storage. This
    /// engine's allocator aborts instead of failing, so it never
    /// returns this variant; it is part of the grow contract for
    /// backends whose allocation can fail.
    HostAllocationFailed,
}

/// Failure to turn raw bytes into a `Module`. No partial module is
/// ever returned on failure.
#[derive(Clone, Debug, PartialEq, Eq)]
pub enum CompileError {
    /// Malformed binary structure.
    Malformed,
    /// A well-formed binary that breaks a validation rule.
    Validation(String),
    /// A well-formed binary using a feature this backend does not implement.
    Unsupported(String),
    /// Backend-internal resource exhaustion.
    BackendFailure,
}

/// Failure to bind a `Module` to import values. No partially
/// instantiated instance is ever returned on failure.
#[derive(Clone, Copy, Debug, PartialEq, Eq, Structural)]
pub enum LinkError {
    /// An import declaration had no matching entry in the import set.
    MissingImport,
    /// A provided import value had the wrong kind or an incompatible type.
    IncompatibleImport,
    /// A data or element segment would fall outside its target at
    /// instantiation time.
    SegmentOutOfBounds,
    /// The start function trapped; the instance is not returned.
    StartTrapped(Trap),
}

/// Failure of `call` on an instance export.
#[derive(Clone, Copy, Debug, PartialEq, Eq, Structural)]
pub enum CallError {
    /// The name is not exported, or is not a function.
    NoSuchExport,
    /// Wrong argument count, an argument of the wrong type, or an
    /// argument string that does not parse as the parameter type.
    ArgumentType,
    /// Guest execution trapped.
    Trap(Trap),
}

/// Failure of the combined compile-and-instantiate entry point.
#[derive(Clone, Debug, PartialEq, Eq)]
pub enum EngineError {
    Compile(CompileError),
    Link(LinkError),
}

} // verus!
