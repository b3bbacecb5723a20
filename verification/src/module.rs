//! The immutable, validated representation of one WebAssembly binary:
//! types, imports, exports, memory/table/global declarations,
//! initialization segments, an optional start function, and function
//! bodies in the backend's internal callable form. All validation is
//! completed before a module becomes visible to callers; `wf` below is
//! exactly what validation establishes.
use vstd::prelude::*;

use crate::sig_registry::FuncSig;
use crate::sig_registry::SigHandle;
use crate::sig_registry::SigV;
use crate::types::Limits;
use crate::types::ValType;
use crate::types::MAX_MEMORY_PAGES;
use crate::types::MAX_TABLE_ELEMS;

verus! {

/// Name of the module an import comes from (raw bytes of the name).
pub type ModuleName = Vec<u8>;

/// Name of an imported or exported item (raw bytes of the name).
pub type ItemName = Vec<u8>;

/// Ceiling on declared locals per function body.
pub const MAX_LOCALS: usize = 10000;

/// The lowered, interpretable form of one instruction. Control-flow
/// constructs are not implemented by the baseline backend and are
/// rejected at compile time with `CompileError::Unsupported`.
#[derive(Clone, Copy, Debug, PartialEq, Eq, Structural)]
pub enum Instr {
    Unreachable,
    Drop,
    I32Const(i32),
    I64Const(i64),
    LocalGet(u32),
    LocalSet(u32),
    GlobalGet(u32),
    GlobalSet(u32),
    I32Add,
    I32Sub,
    I32Mul,
    I32DivS,
    I32DivU,
    I64Add,
    /// Load a little-endian i32 from linear memory at popped address
    /// plus the static offset.
    I32Load(u32),
    /// Store a popped i32 to linear memory at popped address plus the
    /// static offset.
    I32Store(u32),
    MemorySize,
    MemoryGrow,
    Call(u32),
    CallIndirect(u32),
}

/// One function body: declared local types (after the parameters) and
/// the instruction sequence.
#[derive(Debug)]
pub struct FuncBody {
    pub locals: Vec<ValType>,
    pub instrs: Vec<Instr>,
}

/// A constant initializer expression: a literal, or a read of an
/// already-resolved imported immutable global.
#[derive(Clone, Copy, Debug, PartialEq, Eq, Structural)]
pub enum ConstExpr {
    I32Const(i32),
    I64Const(i64),
    GlobalGet(u32),
}

/// The kind and type an import declaration expects.
#[derive(Clone, Copy, Debug)]
pub enum ImportDesc {
    /// A function with the given type index.
    Func(u32),
    Table(Limits),
    Memory(Limits),
    /// A global with the given value type and mutability.
    Global(ValType, bool),
}

/// One import declaration: (module name, item name, expected kind+type).
#[derive(Debug)]
pub struct ImportDecl {
    pub module: ModuleName,
    pub item: ItemName,
    pub desc: ImportDesc,
}

/// What an export points at: an internal index in the corresponding
/// index space (imported entries first, then locally defined ones).
#[derive(Clone, Copy, Debug, PartialEq, Eq, Structural)]
pub enum ExportDesc {
    Func(u32),
    Table(u32),
    Memory(u32),
    Global(u32),
}

/// One export declaration. Names are unique per module.
#[derive(Debug)]
pub struct ExportDecl {
    pub name: ItemName,
    pub desc: ExportDesc,
}

/// A memory initializer: target memory, offset expression, payload.
#[derive(Debug)]
pub struct DataSeg {
    pub mem: u32,
    pub offset: ConstExpr,
    pub bytes: Vec<u8>,
}

/// A table initializer: target table, offset expression, function
/// indices to install.
#[derive(Debug)]
pub struct ElemSeg {
    pub table: u32,
    pub offset: ConstExpr,
    pub funcs: Vec<u32>,
}

/// A locally declared global: type, mutability, initializer.
#[derive(Clone, Copy, Debug)]
pub struct GlobalDecl {
    pub ty: ValType,
    pub mutable: bool,
    pub init: ConstExpr,
}

/// The type indices of the function imports, in declaration order.
pub open spec fn funcs_of_imports(s: Seq<ImportDecl>) -> Seq<u32>
    decreases s.len(),
{
    if s.len() == 0 {
        Seq::empty()
    } else {
        let rest = funcs_of_imports(s.drop_last());
        match s.last().desc {
            ImportDesc::Func(ti) => rest.push(ti),
            _ => rest,
        }
    }
}

/// The limits of the memory imports, in declaration order.
pub open spec fn mems_of_imports(s: Seq<ImportDecl>) -> Seq<Limits>
    decreases s.len(),
{
    if s.len() == 0 {
        Seq::empty()
    } else {
        let rest = mems_of_imports(s.drop_last());
        match s.last().desc {
            ImportDesc::Memory(l) => rest.push(l),
            _ => rest,
        }
    }
}

/// The limits of the table imports, in declaration order.
pub open spec fn tables_of_imports(s: Seq<ImportDecl>) -> Seq<Limits>
    decreases s.len(),
{
    if s.len() == 0 {
        Seq::empty()
    } else {
        let rest = tables_of_imports(s.drop_last());
        match s.last().desc {
            ImportDesc::Table(l) => rest.push(l),
            _ => rest,
        }
    }
}

/// Type and mutability of the global imports, in declaration order.
pub open spec fn globals_of_imports(s: Seq<ImportDecl>) -> Seq<(ValType, bool)>
    decreases s.len(),
{
    if s.len() == 0 {
        Seq::empty()
    } else {
        let rest = globals_of_imports(s.drop_last());
        match s.last().desc {
            ImportDesc::Global(t, m) => rest.push((t, m)),
            _ => rest,
        }
    }
}

/// An immutable compiled module. Shareable and reusable across many
/// instantiations; never mutated after construction.
pub struct Module {
    /// Declared function types.
    pub types: Vec<FuncSig>,
    /// The interned handle of each declared type, parallel to `types`.
    pub type_handles: Vec<SigHandle>,
    /// Import declarations, in order.
    pub imports: Vec<ImportDecl>,
    /// Type index of every function in the function index space:
    /// imported functions first, then locally defined ones.
    pub func_type_idx: Vec<u32>,
    /// Locally declared tables.
    pub tables: Vec<Limits>,
    /// Locally declared memories.
    pub memories: Vec<Limits>,
    /// Locally declared globals.
    pub globals: Vec<GlobalDecl>,
    /// Export declarations.
    pub exports: Vec<ExportDecl>,
    /// Data segments (memory initializers).
    pub data: Vec<DataSeg>,
    /// Element segments (table initializers).
    pub elems: Vec<ElemSeg>,
    /// Optional start function, invoked at instantiation end.
    pub start: Option<u32>,
    /// Bodies of the locally defined functions, parallel to the local
    /// suffix of `func_type_idx`.
    pub code: Vec<FuncBody>,
    /// Count of imported functions (the length of the imported prefix
    /// of `func_type_idx`).
    pub n_imported_funcs: u32,
    /// Count of imported tables.
    pub n_imported_tables: u32,
    /// Count of imported memories.
    pub n_imported_memories: u32,
    /// Count of imported globals.
    pub n_imported_globals: u32,
}

impl Module {
    /// Size of the function index space.
    pub open spec fn total_funcs(&self) -> int {
        self.func_type_idx@.len() as int
    }

    /// Size of the memory index space.
    pub open spec fn total_mems(&self) -> int {
        self.n_imported_memories + self.memories@.len()
    }

    /// Size of the table index space.
    pub open spec fn total_tables(&self) -> int {
        self.n_imported_tables + self.tables@.len()
    }

    /// Type and mutability of every global in the global index space.
    pub open spec fn global_types(&self) -> Seq<(ValType, bool)> {
        globals_of_imports(self.imports@) + self.globals@.map_values(
            |g: GlobalDecl| (g.ty, g.mutable),
        )
    }

    /// Size of the global index space.
    pub open spec fn total_globals(&self) -> int {
        self.global_types().len() as int
    }

    /// The signature of function `f`, as a mathematical value.
    pub open spec fn func_sig(&self, f: int) -> SigV {
        self.types@[self.func_type_idx@[f] as int]@
    }

    /// A constant expression is valid as an initializer of type `ty`:
    /// a literal of that type, or a read of an imported immutable
    /// global of that type.
    pub open spec fn const_expr_wf(&self, e: ConstExpr, ty: ValType) -> bool {
        match e {
            ConstExpr::I32Const(_) => ty == ValType::I32,
            ConstExpr::I64Const(_) => ty == ValType::I64,
            ConstExpr::GlobalGet(g) => {
                &&& g < self.n_imported_globals
                &&& globals_of_imports(self.imports@)[g as int] == (ty, false)
            },
        }
    }

    /// Range validity of one instruction inside a body with
    /// `nlocals` accessible locals (parameters included).
    pub open spec fn instr_wf(&self, nlocals: int, ins: Instr) -> bool {
        match ins {
            Instr::LocalGet(l) => l < nlocals,
            Instr::LocalSet(l) => l < nlocals,
            Instr::GlobalGet(g) => g < self.total_globals(),
            Instr::GlobalSet(g) => {
                &&& g < self.total_globals()
                &&& self.global_types()[g as int].1 == true
            },
            Instr::I32Load(_) => self.total_mems() >= 1,
            Instr::I32Store(_) => self.total_mems() >= 1,
            Instr::MemorySize => self.total_mems() >= 1,
            Instr::MemoryGrow => self.total_mems() >= 1,
            Instr::Call(f) => f < self.total_funcs(),
            Instr::CallIndirect(ti) => {
                &&& ti < self.types@.len()
                &&& self.total_tables() >= 1
            },
            _ => true,
        }
    }

    /// Validity of the `k`-th local function body.
    pub open spec fn body_wf(&self, k: int) -> bool {
        let ti = self.func_type_idx@[self.n_imported_funcs + k] as int;
        let nlocals = self.types@[ti].params@.len() + self.code@[k].locals@.len();
        &&& self.code@[k].locals@.len() <= MAX_LOCALS
        &&& forall|i: int|
            0 <= i < self.code@[k].instrs@.len() ==> self.instr_wf(
                nlocals as int,
                #[trigger] self.code@[k].instrs@[i],
            )
    }

    /// Validity of one export target index.
    pub open spec fn export_wf(&self, d: ExportDesc) -> bool {
        match d {
            ExportDesc::Func(i) => i < self.total_funcs(),
            ExportDesc::Table(i) => i < self.total_tables(),
            ExportDesc::Memory(i) => i < self.total_mems(),
            ExportDesc::Global(i) => i < self.total_globals(),
        }
    }

    /// Structural well-formedness: everything validation establishes
    /// that does not mention the signature registry. Every index
    /// reference is in range, every declared limit is internally
    /// consistent, initializers are type-correct, and export names are
    /// unique.
    pub open spec fn wf_struct(&self) -> bool {
        &&& self.n_imported_funcs == funcs_of_imports(self.imports@).len()
        &&& self.n_imported_tables == tables_of_imports(self.imports@).len()
        &&& self.n_imported_memories == mems_of_imports(self.imports@).len()
        &&& self.n_imported_globals == globals_of_imports(self.imports@).len()
        &&& self.func_type_idx@.len() == self.n_imported_funcs + self.code@.len()
        &&& self.func_type_idx@.take(self.n_imported_funcs as int) == funcs_of_imports(
            self.imports@,
        )
        &&& forall|i: int|
            0 <= i < self.func_type_idx@.len() ==> #[trigger] self.func_type_idx@[i]
                < self.types@.len()
        &&& forall|i: int|
            0 <= i < self.imports@.len() ==> (match #[trigger] self.imports@[i].desc {
                ImportDesc::Func(ti) => ti < self.types@.len(),
                ImportDesc::Memory(l) => l.valid_spec(MAX_MEMORY_PAGES),
                ImportDesc::Table(l) => l.valid_spec(MAX_TABLE_ELEMS),
                ImportDesc::Global(_, _) => true,
            })
        &&& forall|i: int|
            0 <= i < self.memories@.len() ==> (#[trigger] self.memories@[i]).valid_spec(
                MAX_MEMORY_PAGES,
            )
        &&& forall|i: int|
            0 <= i < self.tables@.len() ==> (#[trigger] self.tables@[i]).valid_spec(
                MAX_TABLE_ELEMS,
            )
        &&& self.total_mems() <= 1
        &&& self.total_tables() <= 1
        &&& forall|i: int|
            0 <= i < self.globals@.len() ==> self.const_expr_wf(
                (#[trigger] self.globals@[i]).init,
                self.globals@[i].ty,
            )
        &&& forall|i: int|
            0 <= i < self.exports@.len() ==> self.export_wf((#[trigger] self.exports@[i]).desc)
        &&& forall|i: int, j: int|
            0 <= i < j < self.exports@.len() ==> self.exports@[i].name@ != self.exports@[j].name@
        &&& (match self.start {
            Some(f) => {
                &&& f < self.total_funcs()
                &&& self.func_sig(f as int).params.len() == 0
                &&& self.func_sig(f as int).results.len() == 0
            },
            None => true,
        })
        &&& forall|k: int| 0 <= k < self.code@.len() ==> #[trigger] self.body_wf(k)
        &&& forall|i: int|
            0 <= i < self.data@.len() ==> {
                &&& (#[trigger] self.data@[i]).mem < self.total_mems()
                &&& self.const_expr_wf(self.data@[i].offset, ValType::I32)
            }
        &&& forall|i: int|
            0 <= i < self.elems@.len() ==> {
                &&& (#[trigger] self.elems@[i]).table < self.total_tables()
                &&& self.const_expr_wf(self.elems@[i].offset, ValType::I32)
                &&& forall|j: int|
                    0 <= j < self.elems@[i].funcs@.len() ==> #[trigger] self.elems@[i].funcs@[j]
                        < self.total_funcs()
            }
    }

    /// The module's declared types are interned in the registry, and
    /// each handle resolves to the declared type list.
    pub open spec fn wf_types(&self, regv: Seq<SigV>) -> bool {
        &&& self.type_handles@.len() == self.types@.len()
        &&& forall|i: int|
            0 <= i < self.type_handles@.len() ==> {
                &&& (#[trigger] self.type_handles@[i]).id < regv.len()
                &&& regv[self.type_handles@[i].id as int] == self.types@[i]@
            }
    }

    /// Full well-formedness against the session registry it was
    /// compiled with. Monotone in the registry: extending the registry
    /// preserves it (see `lemma_wf_monotone`).
    pub open spec fn wf(&self, regv: Seq<SigV>) -> bool {
        &&& self.wf_struct()
        &&& self.wf_types(regv)
    }
}

/// Extending the registry with new interned signatures preserves a
/// module's well-formedness: existing handles are never remapped.
pub proof fn lemma_wf_monotone(m: &Module, r1: Seq<SigV>, r2: Seq<SigV>)
    requires
        m.wf(r1),
        r1.len() <= r2.len(),
        forall|k: int| 0 <= k < r1.len() ==> r2[k] == r1[k],
    ensures
        m.wf(r2),
{
}

} // verus!
