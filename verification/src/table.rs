//! Growable array of typed function references, used for indirect
//! calls. Growth mirrors linear memory: monotonic, all-or-nothing,
//! with new slots initialized to a null reference that traps when
//! called through.
use vstd::prelude::*;

use crate::sig_registry::distinct_sigs;
use crate::sig_registry::SigHandle;
use crate::sig_registry::SigV;
use crate::types::GrowError;
use crate::types::Limits;
use crate::types::Trap;
use crate::types::MAX_TABLE_ELEMS;

verus! {

/// A reference to a function in an instance's function index space,
/// carrying its interned signature handle for O(1) indirect-call
/// type checks.
#[derive(Clone, Copy, Debug, PartialEq, Eq, Structural)]
pub struct FuncRef {
    pub func: u32,
    pub sig: SigHandle,
}

/// A table: a growable vector of nullable function references.
pub struct Table {
    pub elems: Vec<Option<FuncRef>>,
    pub max_elems: u32,
}

/// The mathematical value of a table.
#[verifier::ext_equal]
pub ghost struct TableV {
    pub slots: Seq<Option<FuncRef>>,
    pub max_elems: u32,
}

impl View for Table {
    type V = TableV;

    open spec fn view(&self) -> TableV {
        TableV { slots: self.elems@, max_elems: self.max_elems }
    }
}

impl Table {
    /// Structural invariant: element count within the maximum, the
    /// maximum within the engine ceiling.
    pub open spec fn wf(&self) -> bool {
        &&& self.elems@.len() <= self.max_elems
        &&& self.max_elems <= MAX_TABLE_ELEMS
    }

    /// Allocate a table at its initial size, all slots null.
    pub fn new(limits: &Limits) -> (t: Table)
        requires
            limits.valid_spec(MAX_TABLE_ELEMS),
        ensures
            t.wf(),
            t.elems@.len() == limits.initial,
            t.max_elems == limits.effective_max_spec(MAX_TABLE_ELEMS),
            forall|i: int| 0 <= i < t.elems@.len() ==> t.elems@[i] is None,
    {
        let max_elems = limits.effective_max(MAX_TABLE_ELEMS);
        let mut elems: Vec<Option<FuncRef>> = Vec::new();
        let mut j: u32 = 0;
        while j < limits.initial
            invariant
                j <= limits.initial,
                elems@.len() == j,
                forall|i: int| 0 <= i < j ==> elems@[i] is None,
            decreases limits.initial - j,
        {
            elems.push(None);
            j = j + 1;
        }
        Table { elems, max_elems }
    }

    /// Current element count.
    pub fn size(&self) -> (n: u32)
        requires
            self.wf(),
        ensures
            n == self.elems@.len(),
    {
        self.elems.len() as u32
    }

    /// Grow by `delta` elements. All-or-nothing: succeeds and returns
    /// the size before growth iff `size + delta <= max_elems`; new
    /// slots are null and old slots are untouched. On failure the
    /// table is unchanged.
    pub fn grow(&mut self, delta: u32) -> (r: Result<u32, GrowError>)
        requires
            old(self).wf(),
        ensures
            final(self).wf(),
            final(self).max_elems == old(self).max_elems,
            match r {
                Ok(before) => {
                    &&& old(self).elems@.len() + delta <= old(self).max_elems
                    &&& before == old(self).elems@.len()
                    &&& final(self).elems@.len() == old(self).elems@.len() + delta
                    &&& forall|i: int|
                        0 <= i < old(self).elems@.len()
                            ==> final(self).elems@[i] == old(self).elems@[i]
                    &&& forall|i: int|
                        old(self).elems@.len() <= i < final(self).elems@.len()
                            ==> final(self).elems@[i] is None
                },
                Err(e) => {
                    &&& e == GrowError::ExceedsMaximum
                    &&& old(self).elems@.len() + delta > old(self).max_elems
                    &&& *final(self) == *old(self)
                },
            },
    {
        let n = self.elems.len() as u32;
        if delta > self.max_elems - n {
            return Err(GrowError::ExceedsMaximum);
        }
        let mut j: u32 = 0;
        while j < delta
            invariant
                j <= delta,
                self.max_elems == old(self).max_elems,
                self.elems@.len() == old(self).elems@.len() + j,
                old(self).elems@.len() + delta <= old(self).max_elems,
                forall|i: int|
                    0 <= i < old(self).elems@.len() ==> self.elems@[i] == old(self).elems@[i],
                forall|i: int|
                    old(self).elems@.len() <= i < self.elems@.len() ==> self.elems@[i] is None,
            decreases delta - j,
        {
            self.elems.push(None);
            j = j + 1;
        }
        Ok(n)
    }

    /// An element-for-element copy, used when a provided table import
    /// is moved into an instance's exclusively owned storage.
    pub fn duplicate(&self) -> (t: Table)
        ensures
            t.elems@ == self.elems@,
            t.max_elems == self.max_elems,
    {
        let mut elems: Vec<Option<FuncRef>> = Vec::new();
        let mut j: usize = 0;
        while j < self.elems.len()
            invariant
                j <= self.elems@.len(),
                elems@ == self.elems@.subrange(0, j as int),
            decreases self.elems@.len() - j,
        {
            elems.push(self.elems[j]);
            proof {
                assert(elems@ =~= self.elems@.subrange(0, j + 1));
            }
            j = j + 1;
        }
        proof {
            assert(elems@ =~= self.elems@);
        }
        Table { elems, max_elems: self.max_elems }
    }

    /// Read the slot at `index`. Succeeds iff `index < size`; any
    /// access past the end traps with `Trap::TableOutOfBounds`.
    pub fn get(&self, index: u32) -> (r: Result<Option<FuncRef>, Trap>)
        ensures
            match r {
                Ok(slot) => index < self.elems@.len() && slot == self.elems@[index as int],
                Err(t) => t == Trap::TableOutOfBounds && index >= self.elems@.len(),
            },
    {
        if (index as usize) < self.elems.len() {
            Ok(self.elems[index as usize])
        } else {
            Err(Trap::TableOutOfBounds)
        }
    }

    /// Write the slot at `index`. Succeeds iff `index < size`; on
    /// failure the table is unchanged.
    pub fn set(&mut self, index: u32, slot: Option<FuncRef>) -> (r: Result<(), Trap>)
        requires
            old(self).wf(),
        ensures
            final(self).wf(),
            final(self).max_elems == old(self).max_elems,
            final(self).elems@.len() == old(self).elems@.len(),
            match r {
                Ok(()) => {
                    &&& index < old(self).elems@.len()
                    &&& final(self).elems@ == old(self).elems@.update(index as int, slot)
                },
                Err(t) => {
                    &&& t == Trap::TableOutOfBounds
                    &&& index >= old(self).elems@.len()
                    &&& *final(self) == *old(self)
                },
            },
    {
        if (index as usize) < self.elems.len() {
            self.elems[index as usize] = slot;
            Ok(())
        } else {
            Err(Trap::TableOutOfBounds)
        }
    }
}

/// Type check for an indirect call: the slot must hold a function
/// reference whose interned signature handle matches the call site's
/// expected handle exactly; a null slot or a differing handle traps
/// with `Trap::IndirectCallTypeMismatch`.
pub fn check_indirect_call(expected: SigHandle, slot: Option<FuncRef>) -> (r: Result<
    FuncRef,
    Trap,
>)
    ensures
        match r {
            Ok(f) => slot == Some(f) && f.sig == expected,
            Err(t) => {
                &&& t == Trap::IndirectCallTypeMismatch
                &&& match slot {
                    Some(f) => f.sig != expected,
                    None => true,
                }
            },
        },
{
    match slot {
        Some(f) => {
            if f.sig == expected {
                Ok(f)
            } else {
                Err(Trap::IndirectCallTypeMismatch)
            }
        },
        None => Err(Trap::IndirectCallTypeMismatch),
    }
}

/// Law: an indirect call type-checks iff the call site's expected
/// parameter/result type lists are structurally equal to the target
/// function's, for every combination of type lists: within one
/// well-formed registry, handle equality and structural signature
/// equality coincide.
pub proof fn lemma_indirect_signature_match(regv: Seq<SigV>, expected: SigHandle, target: SigHandle)
    requires
        distinct_sigs(regv),
        expected.id < regv.len(),
        target.id < regv.len(),
    ensures
        (target == expected) <==> (regv[target.id as int] == regv[expected.id as int]),
{
    crate::sig_registry::lemma_registry_structural(
        regv,
        target.id as int,
        expected.id as int,
    );
}

} // verus!
