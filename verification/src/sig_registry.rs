//! Structural interning of function signatures. A (parameter-types,
//! result-types) pair maps to exactly one handle for the lifetime of
//! the registry, so signature equality on every indirect call or
//! import check is a single handle comparison.
use vstd::prelude::*;

use crate::types::ValType;

verus! {

/// An interned, O(1)-comparable identifier for a function's
/// parameter/result type list. Handles are only comparable when they
/// come from the same registry.
#[derive(Clone, Copy, Debug, PartialEq, Eq, Structural)]
pub struct SigHandle {
    pub id: usize,
}

/// A function signature: parameter types and result types.
#[derive(Debug)]
pub struct FuncSig {
    pub params: Vec<ValType>,
    pub results: Vec<ValType>,
}

/// The mathematical value of a signature: its two type lists.
#[verifier::ext_equal]
pub ghost struct SigV {
    pub params: Seq<ValType>,
    pub results: Seq<ValType>,
}

impl View for FuncSig {
    type V = SigV;

    open spec fn view(&self) -> SigV {
        SigV { params: self.params@, results: self.results@ }
    }
}

/// No two entries of the registry hold structurally equal signatures.
pub open spec fn distinct_sigs(regv: Seq<SigV>) -> bool {
    forall|i: int, j: int| 0 <= i < j < regv.len() ==> regv[i] != regv[j]
}

/// Copy a list of value types.
fn copy_valtypes(v: &Vec<ValType>) -> (r: Vec<ValType>)
    ensures
        r@ == v@,
{
    let mut r: Vec<ValType> = Vec::new();
    let mut i: usize = 0;
    while i < v.len()
        invariant
            i <= v@.len(),
            r@ == v@.subrange(0, i as int),
        decreases v@.len() - i,
    {
        r.push(v[i]);
        proof {
            assert(r@ =~= v@.subrange(0, i + 1));
        }
        i = i + 1;
    }
    proof {
        assert(r@ =~= v@);
    }
    r
}

/// Compare two type lists structurally.
pub fn valtypes_eq(a: &Vec<ValType>, b: &Vec<ValType>) -> (r: bool)
    ensures
        r == (a@ == b@),
{
    if a.len() != b.len() {
        return false;
    }
    let mut i: usize = 0;
    while i < a.len()
        invariant
            i <= a@.len(),
            a@.len() == b@.len(),
            forall|k: int| 0 <= k < i ==> a@[k] == b@[k],
        decreases a@.len() - i,
    {
        if a[i] != b[i] {
            return false;
        }
        i = i + 1;
    }
    proof {
        assert(a@ =~= b@);
    }
    true
}

impl FuncSig {
    /// A structurally equal copy of this signature.
    pub fn duplicate(&self) -> (r: FuncSig)
        ensures
            r@ == self@,
    {
        let r = FuncSig { params: copy_valtypes(&self.params), results: copy_valtypes(
            &self.results,
        ) };
        proof {
            assert(r@ =~= self@);
        }
        r
    }

    /// Structural equality of two signatures.
    pub fn sig_eq(&self, other: &FuncSig) -> (r: bool)
        ensures
            r == (self@ == other@),
    {
        let r = valtypes_eq(&self.params, &other.params) && valtypes_eq(
            &self.results,
            &other.results,
        );
        proof {
            if self@.params == other@.params && self@.results == other@.results {
                assert(self@ =~= other@);
            }
        }
        r
    }
}

/// The registry: an append-only list of pairwise-distinct signatures,
/// scoped to one engine session and shared by every module and
/// instance built within it.
pub struct SignatureRegistry {
    pub sigs: Vec<FuncSig>,
}

impl View for SignatureRegistry {
    type V = Seq<SigV>;

    open spec fn view(&self) -> Seq<SigV> {
        self.sigs@.map_values(|s: FuncSig| s@)
    }
}

impl SignatureRegistry {
    /// Entries are pairwise structurally distinct, so a handle
    /// determines its signature and vice versa.
    pub open spec fn wf(&self) -> bool {
        distinct_sigs(self@)
    }

    /// An empty registry.
    pub fn new() -> (r: SignatureRegistry)
        ensures
            r.wf(),
            r@.len() == 0,
    {
        SignatureRegistry { sigs: Vec::new() }
    }

    /// Intern a signature: return the existing handle when a
    /// structurally equal signature was interned before (leaving the
    /// registry unchanged), else append it under a fresh handle.
    /// Existing handles are never invalidated or remapped.
    pub fn intern(&mut self, sig: &FuncSig) -> (h: SigHandle)
        requires
            old(self).wf(),
        ensures
            final(self).wf(),
            h.id < final(self)@.len(),
            final(self)@[h.id as int] == sig@,
            old(self)@.len() <= final(self)@.len(),
            forall|k: int| 0 <= k < old(self)@.len() ==> final(self)@[k] == old(self)@[k],
            (exists|k: int| 0 <= k < old(self)@.len() && old(self)@[k] == sig@) ==> final(self)@
                == old(self)@,
            !(exists|k: int| 0 <= k < old(self)@.len() && old(self)@[k] == sig@) ==> {
                &&& final(self)@ == old(self)@.push(sig@)
                &&& h.id == old(self)@.len()
            },
    {
        let n = self.sigs.len();
        let mut i: usize = 0;
        while i < n
            invariant
                n == self.sigs@.len(),
                i <= n,
                old(self).wf(),
                *self == *old(self),
                forall|k: int| 0 <= k < i ==> self@[k] != sig@,
            decreases n - i,
        {
            if self.sigs[i].sig_eq(sig) {
                return SigHandle { id: i };
            }
            i = i + 1;
        }
        let h = SigHandle { id: n };
        self.sigs.push(sig.duplicate());
        proof {
            assert(self@ =~= old(self)@.push(sig@));
        }
        h
    }

    /// Resolve a handle back to its signature; `Some` iff the handle
    /// was issued by this registry.
    pub fn resolve(&self, h: SigHandle) -> (r: Option<&FuncSig>)
        ensures
            match r {
                Some(s) => h.id < self@.len() && s@ == self@[h.id as int],
                None => h.id >= self@.len(),
            },
    {
        if h.id < self.sigs.len() {
            Some(&self.sigs[h.id])
        } else {
            None
        }
    }
}

/// Law: the registry is a pure structural cache. Within one
/// well-formed registry, two handles resolve to structurally equal
/// signatures iff they are the same handle; together with `intern`'s
/// contract this gives the round trip (interning structurally equal
/// lists twice returns the same handle, differing lists return
/// different handles).
pub proof fn lemma_registry_structural(regv: Seq<SigV>, i: int, j: int)
    requires
        distinct_sigs(regv),
        0 <= i < regv.len(),
        0 <= j < regv.len(),
    ensures
        (regv[i] == regv[j]) <==> (i == j),
{
}

} // verus!
