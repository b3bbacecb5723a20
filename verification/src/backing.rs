//! The per-instance runtime storage handed to executing guest code:
//! concrete memories, tables and global slots. Guest code reaches
//! these only by reference for the duration of one call, so the
//! growable containers stay the single source of truth: a successful
//! `grow` updates them in place and no caller can hold a stale
//! base/length view across it.
use vstd::prelude::*;

use crate::memory::Memory;
use crate::table::Table;
use crate::types::Val;

verus! {

/// Concrete runtime storage of one instance: the memory and table
/// index spaces (imported entries first, then locally allocated
/// ones) and the global slots.
pub struct Backing {
    pub memories: Vec<Memory>,
    pub tables: Vec<Table>,
    pub globals: Vec<Val>,
}

/// The mathematical value of the backing storage, which the
/// specification-level interpreter steps over.
#[verifier::ext_equal]
pub ghost struct BackingV {
    pub memories: Seq<crate::memory::MemV>,
    pub tables: Seq<crate::table::TableV>,
    pub globals: Seq<Val>,
}

impl View for Backing {
    type V = BackingV;

    open spec fn view(&self) -> BackingV {
        BackingV {
            memories: self.memories@.map_values(|m: Memory| m@),
            tables: self.tables@.map_values(|t: Table| t@),
            globals: self.globals@,
        }
    }
}

impl Backing {
    /// Every memory and table satisfies its structural invariant.
    pub open spec fn wf(&self) -> bool {
        &&& forall|i: int| 0 <= i < self.memories@.len() ==> (#[trigger] self.memories@[i]).wf()
        &&& forall|i: int| 0 <= i < self.tables@.len() ==> (#[trigger] self.tables@[i]).wf()
    }

    /// Empty storage, before instantiation fills it.
    pub fn new() -> (b: Backing)
        ensures
            b.wf(),
            b.memories@.len() == 0,
            b.tables@.len() == 0,
            b.globals@.len() == 0,
    {
        Backing { memories: Vec::new(), tables: Vec::new(), globals: Vec::new() }
    }
}

} // verus!
