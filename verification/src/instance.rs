//! Instantiation and calls. An instance binds a module to concrete
//! import values, owns its own memory/table/global storage, and
//! exposes its exports by name. Instantiation is all-or-nothing:
//! failure at any step returns a `LinkError` and no instance, and the
//! borrowed import set is never modified.
use vstd::prelude::*;

use crate::backing::Backing;
use crate::memory::Memory;
use crate::module::ConstExpr;
use crate::module::ElemSeg;
use crate::module::ExportDesc;
use crate::module::GlobalDecl;
use crate::module::ImportDecl;
use crate::module::ImportDesc;
use crate::module::ItemName;
use crate::module::Module;
use crate::module::ModuleName;
use crate::module::globals_of_imports;
use crate::parse::parse_arg;
use crate::parse::parses_as;
use crate::sig_registry::FuncSig;
use crate::sig_registry::SignatureRegistry;
use crate::sig_registry::lemma_registry_structural;
use crate::table::FuncRef;
use crate::table::Table;
use crate::types::CallError;
use crate::types::LinkError;
use crate::types::Val;
use crate::types::ValType;
use crate::types::Trap;
use crate::types::PAGE_SIZE;
use crate::vm::exec_func;
use crate::vm::CALL_DEPTH_BUDGET;

verus! {

/// A host value provided to satisfy one import declaration.
///
/// A function import carries only its signature: host imports have no
/// executable behavior inside this core, and calling one traps with
/// `Trap::HostRequested`. Memory and table imports are moved into the
/// instance by copy, which then owns them exclusively.
pub enum ImportValue {
    Func(FuncSig),
    Memory(Memory),
    Table(Table),
    /// Declared type, mutability, and initial value.
    Global(ValType, bool, Val),
}

/// One named import value.
pub struct Import {
    pub module: ModuleName,
    pub item: ItemName,
    pub value: ImportValue,
}

/// The name-keyed set of import values handed to instantiation.
/// Lookup takes the first entry matching (module name, item name).
pub struct Imports {
    pub entries: Vec<Import>,
}

impl Imports {
    /// An empty import set.
    pub fn new() -> (r: Imports)
        ensures
            r.entries@.len() == 0,
            r.wf(),
    {
        Imports { entries: Vec::new() }
    }

    /// Every provided memory and table satisfies its structural
    /// invariant (hosts obtain them from `Memory::new` / `Table::new`,
    /// which guarantee it).
    pub open spec fn wf(&self) -> bool {
        forall|i: int|
            0 <= i < self.entries@.len() ==> (match (#[trigger] self.entries@[i]).value {
                ImportValue::Memory(mem) => mem.wf(),
                ImportValue::Table(t) => t.wf(),
                _ => true,
            })
    }

    /// Append one named value.
    pub fn add(&mut self, entry: Import)
        requires
            old(self).wf(),
            match entry.value {
                ImportValue::Memory(mem) => mem.wf(),
                ImportValue::Table(t) => t.wf(),
                _ => true,
            },
        ensures
            final(self).wf(),
            final(self).entries@ == old(self).entries@.push(entry),
    {
        self.entries.push(entry);
    }
}

/// First entry matching the two names, if any.
pub open spec fn lookup(entries: Seq<Import>, m: Seq<u8>, n: Seq<u8>) -> Option<Import>
    decreases entries.len(),
{
    if entries.len() == 0 {
        None
    } else if entries.first().module@ == m && entries.first().item@ == n {
        Some(entries.first())
    } else {
        lookup(entries.drop_first(), m, n)
    }
}

/// Kind and type compatibility of a provided value against a
/// declaration: function signatures must match structurally, a
/// provided memory/table must start at least as large as required and
/// promise at most the required maximum, and globals must match type
/// and mutability exactly.
pub open spec fn import_value_compatible(m: &Module, desc: ImportDesc, v: ImportValue) -> bool {
    match desc {
        ImportDesc::Func(ti) => match v {
            ImportValue::Func(sig) => sig@ == m.types@[ti as int]@,
            _ => false,
        },
        ImportDesc::Memory(req) => match v {
            ImportValue::Memory(mem) => {
                &&& mem.pages >= req.initial
                &&& match req.maximum {
                    Some(mx) => mem.max_pages <= mx,
                    None => true,
                }
            },
            _ => false,
        },
        ImportDesc::Table(req) => match v {
            ImportValue::Table(t) => {
                &&& t.elems@.len() >= req.initial
                &&& match req.maximum {
                    Some(mx) => t.max_elems <= mx,
                    None => true,
                }
            },
            _ => false,
        },
        ImportDesc::Global(ty, mu) => match v {
            ImportValue::Global(gty, gmu, gv) => gty == ty && gmu == mu && gv.ty_spec() == gty,
            _ => false,
        },
    }
}

/// The first link error among import declarations `i..`, processed in
/// declaration order: a missing entry, then an incompatible one.
pub open spec fn import_errors_from(m: &Module, entries: Seq<Import>, i: int) -> Option<LinkError>
    decreases m.imports@.len() - i when 0 <= i <= m.imports@.len()
{
    if i >= m.imports@.len() {
        None
    } else {
        match lookup(entries, m.imports@[i].module@, m.imports@[i].item@) {
            None => Some(LinkError::MissingImport),
            Some(e) => {
                if !import_value_compatible(m, m.imports@[i].desc, e.value) {
                    Some(LinkError::IncompatibleImport)
                } else {
                    import_errors_from(m, entries, i + 1)
                }
            },
        }
    }
}

/// The first import-resolution error, if any (step 1 of
/// instantiation).
pub open spec fn link_import_error(m: &Module, entries: Seq<Import>) -> Option<LinkError> {
    import_errors_from(m, entries, 0)
}

/// The import declarations of memory kind, in order.
pub open spec fn mem_import_decls(s: Seq<ImportDecl>) -> Seq<ImportDecl>
    decreases s.len(),
{
    if s.len() == 0 {
        Seq::empty()
    } else {
        let rest = mem_import_decls(s.drop_last());
        match s.last().desc {
            ImportDesc::Memory(_) => rest.push(s.last()),
            _ => rest,
        }
    }
}

/// The import declarations of table kind, in order.
pub open spec fn table_import_decls(s: Seq<ImportDecl>) -> Seq<ImportDecl>
    decreases s.len(),
{
    if s.len() == 0 {
        Seq::empty()
    } else {
        let rest = table_import_decls(s.drop_last());
        match s.last().desc {
            ImportDesc::Table(_) => rest.push(s.last()),
            _ => rest,
        }
    }
}

/// The import declarations of global kind, in order.
pub open spec fn global_import_decls(s: Seq<ImportDecl>) -> Seq<ImportDecl>
    decreases s.len(),
{
    if s.len() == 0 {
        Seq::empty()
    } else {
        let rest = global_import_decls(s.drop_last());
        match s.last().desc {
            ImportDesc::Global(_, _) => rest.push(s.last()),
            _ => rest,
        }
    }
}

/// The global-kind declarations line up with `globals_of_imports`.
pub proof fn lemma_global_decls_correspond(s: Seq<ImportDecl>)
    ensures
        global_import_decls(s).len() == globals_of_imports(s).len(),
        forall|g: int|
            0 <= g < global_import_decls(s).len() ==> (match (#[trigger] global_import_decls(
                s,
            )[g]).desc {
                ImportDesc::Global(t, mu) => globals_of_imports(s)[g] == (t, mu),
                _ => false,
            }),
    decreases s.len(),
{
    if s.len() > 0 {
        lemma_global_decls_correspond(s.drop_last());
    }
}

/// The value provided for one declaration, as resolved by lookup;
/// meaningful only when resolution succeeded.
pub open spec fn resolved_global_val(entries: Seq<Import>, d: ImportDecl) -> Val {
    match lookup(entries, d.module@, d.item@) {
        Some(e) => match e.value {
            ImportValue::Global(_, _, v) => v,
            _ => Val::I32(0),
        },
        None => Val::I32(0),
    }
}

/// Byte length of the instance's single memory right after local
/// allocation (before segments), if the module has one.
pub open spec fn mem0_size(m: &Module, entries: Seq<Import>) -> Option<int> {
    if mem_import_decls(m.imports@).len() >= 1 {
        let d = mem_import_decls(m.imports@)[0];
        match lookup(entries, d.module@, d.item@) {
            Some(e) => match e.value {
                ImportValue::Memory(mem) => Some(mem.data@.len() as int),
                _ => None,
            },
            None => None,
        }
    } else if m.memories@.len() >= 1 {
        Some(m.memories@[0].initial as int * PAGE_SIZE as int)
    } else {
        None
    }
}

/// Element count of the instance's single table right after local
/// allocation, if the module has one.
pub open spec fn table0_size(m: &Module, entries: Seq<Import>) -> Option<int> {
    if table_import_decls(m.imports@).len() >= 1 {
        let d = table_import_decls(m.imports@)[0];
        match lookup(entries, d.module@, d.item@) {
            Some(e) => match e.value {
                ImportValue::Table(t) => Some(t.elems@.len() as int),
                _ => None,
            },
            None => None,
        }
    } else if m.tables@.len() >= 1 {
        Some(m.tables@[0].initial as int)
    } else {
        None
    }
}

/// Bytes of the instance's single memory right after local
/// allocation: the provided import's bytes, or freshly zeroed pages.
pub open spec fn mem0_initial_bytes(m: &Module, entries: Seq<Import>) -> Seq<u8> {
    if mem_import_decls(m.imports@).len() >= 1 {
        let d = mem_import_decls(m.imports@)[0];
        match lookup(entries, d.module@, d.item@) {
            Some(e) => match e.value {
                ImportValue::Memory(mem) => mem.data@,
                _ => Seq::empty(),
            },
            None => Seq::empty(),
        }
    } else if m.memories@.len() >= 1 {
        Seq::new(m.memories@[0].initial as nat * PAGE_SIZE as nat, |i: int| 0u8)
    } else {
        Seq::empty()
    }
}

/// Page count of the instance's single memory right after local
/// allocation: the provided import's, or the declared initial size.
pub open spec fn mem0_pages(m: &Module, entries: Seq<Import>) -> int {
    if mem_import_decls(m.imports@).len() >= 1 {
        let d = mem_import_decls(m.imports@)[0];
        match lookup(entries, d.module@, d.item@) {
            Some(e) => match e.value {
                ImportValue::Memory(mem) => mem.pages as int,
                _ => 0,
            },
            None => 0,
        }
    } else if m.memories@.len() >= 1 {
        m.memories@[0].initial as int
    } else {
        0
    }
}

/// Recorded maximum of the instance's single memory: the provided
/// import's, or the declared maximum (engine ceiling when none).
pub open spec fn mem0_max_pages(m: &Module, entries: Seq<Import>) -> int {
    if mem_import_decls(m.imports@).len() >= 1 {
        let d = mem_import_decls(m.imports@)[0];
        match lookup(entries, d.module@, d.item@) {
            Some(e) => match e.value {
                ImportValue::Memory(mem) => mem.max_pages as int,
                _ => 0,
            },
            None => 0,
        }
    } else if m.memories@.len() >= 1 {
        m.memories@[0].effective_max_spec(crate::types::MAX_MEMORY_PAGES) as int
    } else {
        0
    }
}

/// Recorded maximum of the instance's single table.
pub open spec fn table0_max_elems(m: &Module, entries: Seq<Import>) -> int {
    if table_import_decls(m.imports@).len() >= 1 {
        let d = table_import_decls(m.imports@)[0];
        match lookup(entries, d.module@, d.item@) {
            Some(e) => match e.value {
                ImportValue::Table(t) => t.max_elems as int,
                _ => 0,
            },
            None => 0,
        }
    } else if m.tables@.len() >= 1 {
        m.tables@[0].effective_max_spec(crate::types::MAX_TABLE_ELEMS) as int
    } else {
        0
    }
}

/// One bounded write into a byte sequence.
pub open spec fn seq_write(data: Seq<u8>, off: int, bytes: Seq<u8>) -> Seq<u8> {
    Seq::new(
        data.len(),
        |i: int|
            if off <= i < off + bytes.len() {
                bytes[i - off]
            } else {
                data[i]
            },
    )
}

/// Memory 0 after the first `k` data segments have been written over
/// the freshly allocated bytes, in order (a later segment overwrites
/// an earlier one where they overlap).
pub open spec fn mem0_after_data(m: &Module, entries: Seq<Import>, k: int) -> Seq<u8>
    decreases k,
{
    if k <= 0 {
        mem0_initial_bytes(m, entries)
    } else {
        seq_write(
            mem0_after_data(m, entries, k - 1),
            offset_value(m, entries, m.data@[k - 1].offset),
            m.data@[k - 1].bytes@,
        )
    }
}

/// Bytes of memory 0 in a fresh instance: every data segment applied.
pub open spec fn mem0_contents(m: &Module, entries: Seq<Import>) -> Seq<u8> {
    mem0_after_data(m, entries, m.data@.len() as int)
}

/// Applying data segments never changes the byte length.
pub proof fn lemma_mem0_after_data_len(m: &Module, entries: Seq<Import>, k: int)
    ensures
        mem0_after_data(m, entries, k).len() == mem0_initial_bytes(m, entries).len(),
    decreases
        (if k >= 0 {
            k
        } else {
            0
        }),
{
    if k > 0 {
        lemma_mem0_after_data_len(m, entries, k - 1);
    }
}

/// The value a locally declared global starts with.
pub open spec fn init_global_value(m: &Module, entries: Seq<Import>, g: GlobalDecl) -> Val {
    match g.init {
        ConstExpr::I32Const(c) => Val::I32(c),
        ConstExpr::I64Const(c) => Val::I64(c),
        ConstExpr::GlobalGet(gi) => {
            if 0 <= gi < global_import_decls(m.imports@).len() {
                resolved_global_val(entries, global_import_decls(m.imports@)[gi as int])
            } else {
                Val::I32(0)
            }
        },
    }
}

/// The global slots of a fresh instance: the resolved imported values
/// followed by the locally declared initializer values.
pub open spec fn global_values(m: &Module, entries: Seq<Import>) -> Seq<Val> {
    global_import_decls(m.imports@).map_values(|d: ImportDecl| resolved_global_val(entries, d))
        + m.globals@.map_values(|g: GlobalDecl| init_global_value(m, entries, g))
}

/// The function reference installed in tables for function index
/// `fi`: the index itself with its interned signature handle.
pub open spec fn funcref_of(m: &Module, fi: u32) -> FuncRef {
    FuncRef { func: fi, sig: m.type_handles@[m.func_type_idx@[fi as int] as int] }
}

/// Slots of the instance's single table right after local
/// allocation: the provided import's slots, or all-null slots.
pub open spec fn table0_initial_slots(m: &Module, entries: Seq<Import>) -> Seq<Option<FuncRef>> {
    if table_import_decls(m.imports@).len() >= 1 {
        let d = table_import_decls(m.imports@)[0];
        match lookup(entries, d.module@, d.item@) {
            Some(e) => match e.value {
                ImportValue::Table(t) => t.elems@,
                _ => Seq::empty(),
            },
            None => Seq::empty(),
        }
    } else if m.tables@.len() >= 1 {
        Seq::new(m.tables@[0].initial as nat, |i: int| None)
    } else {
        Seq::empty()
    }
}

/// One bounded write of function references into table slots.
pub open spec fn write_slots(slots: Seq<Option<FuncRef>>, off: int, refs: Seq<FuncRef>) -> Seq<
    Option<FuncRef>,
> {
    Seq::new(
        slots.len(),
        |i: int|
            if off <= i < off + refs.len() {
                Some(refs[i - off])
            } else {
                slots[i]
            },
    )
}

/// The references one element segment installs.
pub open spec fn seg_funcrefs(m: &Module, seg: ElemSeg) -> Seq<FuncRef> {
    seg.funcs@.map_values(|fi: u32| funcref_of(m, fi))
}

/// Table 0 after the first `k` element segments have been applied.
pub open spec fn table0_after_elems(m: &Module, entries: Seq<Import>, k: int) -> Seq<
    Option<FuncRef>,
>
    decreases k,
{
    if k <= 0 {
        table0_initial_slots(m, entries)
    } else {
        write_slots(
            table0_after_elems(m, entries, k - 1),
            offset_value(m, entries, m.elems@[k - 1].offset),
            seg_funcrefs(m, m.elems@[k - 1]),
        )
    }
}

/// Slots of table 0 in a fresh instance: every element segment
/// applied.
pub open spec fn table0_contents(m: &Module, entries: Seq<Import>) -> Seq<Option<FuncRef>> {
    table0_after_elems(m, entries, m.elems@.len() as int)
}

/// The backing storage right after import resolution, local
/// allocation, segment initialization and export binding — the state
/// the start function (if any) runs in.
pub open spec fn post_init_backing(m: &Module, entries: Seq<Import>) -> crate::backing::BackingV {
    crate::backing::BackingV {
        memories: if mem_import_decls(m.imports@).len() + m.memories@.len() >= 1 {
            seq![
                crate::memory::MemV {
                    bytes: mem0_contents(m, entries),
                    pages: mem0_pages(m, entries) as u32,
                    max_pages: mem0_max_pages(m, entries) as u32,
                },
            ]
        } else {
            Seq::empty()
        },
        tables: if table_import_decls(m.imports@).len() + m.tables@.len() >= 1 {
            seq![
                crate::table::TableV {
                    slots: table0_contents(m, entries),
                    max_elems: table0_max_elems(m, entries) as u32,
                },
            ]
        } else {
            Seq::empty()
        },
        globals: global_values(m, entries),
    }
}

/// An i32 reinterpreted as an unsigned offset.
pub open spec fn offset_of_i32(v: int) -> int {
    if v >= 0 {
        v
    } else {
        v + 0x1_0000_0000
    }
}

/// Value of a segment offset expression under the resolved imports.
pub open spec fn offset_value(m: &Module, entries: Seq<Import>, e: ConstExpr) -> int {
    match e {
        ConstExpr::I32Const(v) => offset_of_i32(v as int),
        ConstExpr::GlobalGet(g) => {
            if 0 <= g < global_import_decls(m.imports@).len() {
                match resolved_global_val(entries, global_import_decls(m.imports@)[g as int]) {
                    Val::I32(v) => offset_of_i32(v as int),
                    Val::I64(_) => 0,
                }
            } else {
                0
            }
        },
        ConstExpr::I64Const(_) => 0,
    }
}

/// Every data segment fits its target memory and every element
/// segment fits its target table, evaluated against sizes at
/// instantiation time (step 3 of instantiation).
pub open spec fn segments_ok(m: &Module, entries: Seq<Import>) -> bool {
    &&& forall|i: int|
        0 <= i < m.data@.len() ==> offset_value(m, entries, (#[trigger] m.data@[i]).offset)
            + m.data@[i].bytes@.len() <= mem0_size(m, entries).unwrap_or(0)
    &&& forall|i: int|
        0 <= i < m.elems@.len() ==> offset_value(m, entries, (#[trigger] m.elems@[i]).offset)
            + m.elems@[i].funcs@.len() <= table0_size(m, entries).unwrap_or(0)
}

/// First export with the given name.
pub open spec fn find_export(m: &Module, name: Seq<u8>) -> Option<ExportDesc>
    decreases m.exports@.len(),
{
    find_export_from(m, name, 0)
}

/// First export with the given name among indices `i..`.
pub open spec fn find_export_from(m: &Module, name: Seq<u8>, i: int) -> Option<ExportDesc>
    decreases m.exports@.len() - i when 0 <= i <= m.exports@.len()
{
    if i >= m.exports@.len() {
        None
    } else if m.exports@[i].name@ == name {
        Some(m.exports@[i].desc)
    } else {
        find_export_from(m, name, i + 1)
    }
}

/// The argument list matches the parameter list of function `f`.
pub open spec fn args_match(m: &Module, f: int, args: Seq<Val>) -> bool {
    &&& args.len() == m.func_sig(f).params.len()
    &&& forall|k: int|
        0 <= k < args.len() ==> (#[trigger] args[k]).ty_spec() == m.func_sig(f).params[k]
}

/// Byte-wise equality of two names.
pub fn names_eq(a: &Vec<u8>, b: &Vec<u8>) -> (r: bool)
    ensures
        r == (a@ == b@),
{
    if a.len() != b.len() {
        return false;
    }
    let mut i: usize = 0;
    while i < a.len()
        invariant
            i <= a@.len(),
            a@.len() == b@.len(),
            forall|k: int| 0 <= k < i ==> a@[k] == b@[k],
        decreases a@.len() - i,
    {
        if a[i] != b[i] {
            return false;
        }
        i = i + 1;
    }
    proof {
        assert(a@ =~= b@);
    }
    true
}

/// Index of the first entry matching the two names.
fn lookup_entry(imports: &Imports, m: &Vec<u8>, n: &Vec<u8>) -> (r: Option<usize>)
    ensures
        match r {
            Some(idx) => {
                &&& idx < imports.entries@.len()
                &&& lookup(imports.entries@, m@, n@) == Some(imports.entries@[idx as int])
            },
            None => lookup(imports.entries@, m@, n@) is None,
        },
{
    let mut i: usize = 0;
    proof {
        assert(imports.entries@.skip(0) =~= imports.entries@);
    }
    while i < imports.entries.len()
        invariant
            i <= imports.entries@.len(),
            lookup(imports.entries@, m@, n@) == lookup(
                imports.entries@.skip(i as int),
                m@,
                n@,
            ),
        decreases imports.entries@.len() - i,
    {
        let e = &imports.entries[i];
        if names_eq(&e.module, m) && names_eq(&e.item, n) {
            proof {
                assert(imports.entries@.skip(i as int).first() == imports.entries@[i as int]);
            }
            return Some(i);
        }
        proof {
            assert(imports.entries@.skip(i as int).drop_first() =~= imports.entries@.skip(
                i as int + 1,
            ));
        }
        i = i + 1;
    }
    None
}

/// A runnable unit: one module bound to concrete storage. Owned by
/// the host embedder; calls mutate only the backing storage.
pub struct Instance {
    pub module: Module,
    pub backing: Backing,
}

impl Instance {
    /// The backing storage keeps its structural invariant across
    /// every call, even a trapped one, and the module was validated.
    pub open spec fn wf(&self) -> bool {
        &&& self.backing.wf()
        &&& self.module.wf_struct()
    }
}

/// The values the string arguments parse to, against function `f`'s
/// parameter types.
pub open spec fn parsed_args(m: &Module, f: int, args: Seq<String>) -> Seq<Val> {
    Seq::new(args.len(), |k: int| crate::parse::parsed_val(args[k]@, m.func_sig(f).params[k]))
}

/// The string arguments fit function `f`: right count, and each one
/// parses as its parameter type.
pub open spec fn str_args_ok(m: &Module, f: int, args: Seq<String>) -> bool {
    &&& args.len() == m.func_sig(f).params.len()
    &&& forall|k: int| 0 <= k < args.len() ==> parses_as((#[trigger] args[k])@, m.func_sig(f).params[k])
}

/// A found export points at an in-range internal index.
pub proof fn lemma_find_export_in_range(m: &Module, name: Seq<u8>, i: int)
    requires
        m.wf_struct(),
        0 <= i <= m.exports@.len(),
    ensures
        match find_export_from(m, name, i) {
            Some(d) => m.export_wf(d),
            None => true,
        },
    decreases m.exports@.len() - i,
{
    if i < m.exports@.len() {
        lemma_find_export_in_range(m, name, i + 1);
    }
}

/// First export with the given name, resolved executably.
fn find_export_entry(m: &Module, name: &Vec<u8>) -> (r: Option<ExportDesc>)
    ensures
        r == find_export(m, name@),
{
    let mut i: usize = 0;
    while i < m.exports.len()
        invariant
            i <= m.exports@.len(),
            find_export(m, name@) == find_export_from(m, name@, i as int),
        decreases m.exports@.len() - i,
    {
        if names_eq(&m.exports[i].name, name) {
            return Some(m.exports[i].desc);
        }
        i = i + 1;
    }
    None
}

/// The memory collected for declaration `d` is a field-for-field copy
/// of the provided one.
pub open spec fn mem_entry_ok(entries: Seq<Import>, d: ImportDecl, mem: Memory) -> bool {
    match lookup(entries, d.module@, d.item@) {
        Some(e) => match e.value {
            ImportValue::Memory(src) => {
                &&& mem.data@ == src.data@
                &&& mem.pages == src.pages
                &&& mem.max_pages == src.max_pages
                &&& mem.wf()
            },
            _ => false,
        },
        None => false,
    }
}

/// The table collected for declaration `d` is a copy of the provided
/// one.
pub open spec fn table_entry_ok(entries: Seq<Import>, d: ImportDecl, t: Table) -> bool {
    match lookup(entries, d.module@, d.item@) {
        Some(e) => match e.value {
            ImportValue::Table(src) => {
                &&& t.elems@ == src.elems@
                &&& t.max_elems == src.max_elems
                &&& t.wf()
            },
            _ => false,
        },
        None => false,
    }
}

/// Memory-kind declarations line up with `mems_of_imports`.
pub proof fn lemma_mem_decls_correspond(s: Seq<ImportDecl>)
    ensures
        mem_import_decls(s).len() == crate::module::mems_of_imports(s).len(),
    decreases s.len(),
{
    if s.len() > 0 {
        lemma_mem_decls_correspond(s.drop_last());
    }
}

/// Table-kind declarations line up with `tables_of_imports`.
pub proof fn lemma_table_decls_correspond(s: Seq<ImportDecl>)
    ensures
        table_import_decls(s).len() == crate::module::tables_of_imports(s).len(),
    decreases s.len(),
{
    if s.len() > 0 {
        lemma_table_decls_correspond(s.drop_last());
    }
}

impl Instance {
    /// Instantiate `module` against `imports` (steps in order: import
    /// resolution, local resource allocation, segment initialization,
    /// export binding, start invocation). Failure at any step aborts
    /// the whole operation: no instance is returned, and the borrowed
    /// import set is untouched. The returned error pins the failing
    /// step down exactly for resolution and segment errors;
    /// `StartTrapped` can occur only when everything before the start
    /// call succeeded.
    #[verifier::rlimit(100)]
    pub fn new(module: Module, imports: &Imports, registry: &mut SignatureRegistry) -> (r: Result<
        Box<Instance>,
        LinkError,
    >)
        requires
            old(registry).wf(),
            module.wf(old(registry)@),
            imports.wf(),
        ensures
            final(registry).wf(),
            old(registry)@.len() <= final(registry)@.len(),
            forall|k: int|
                0 <= k < old(registry)@.len() ==> final(registry)@[k] == old(registry)@[k],
            module.wf(final(registry)@),
            match r {
                Ok(inst) => {
                    &&& link_import_error(&module, imports.entries@) is None
                    &&& segments_ok(&module, imports.entries@)
                    &&& (*inst).wf()
                    &&& (*inst).module == module
                    &&& (*inst).backing.memories@.len() == module.total_mems()
                    &&& (*inst).backing.tables@.len() == module.total_tables()
                    &&& (*inst).backing.globals@.len() == module.total_globals()
                    &&& ((*inst).backing.memories@.len() >= 1 ==> {
                        &&& (*inst).backing.memories@[0].max_pages as int == mem0_max_pages(
                            &module,
                            imports.entries@,
                        )
                        &&& (*inst).backing.memories@[0].pages as int >= mem0_pages(
                            &module,
                            imports.entries@,
                        )
                    })
                    &&& ((*inst).backing.tables@.len() >= 1 ==> {
                        &&& (*inst).backing.tables@[0].max_elems as int == table0_max_elems(
                            &module,
                            imports.entries@,
                        )
                        &&& (*inst).backing.tables@[0].elems@.len() >= table0_size(
                            &module,
                            imports.entries@,
                        ).unwrap_or(0)
                    })
                    &&& (*inst).backing@ == (match module.start {
                        None => post_init_backing(&module, imports.entries@),
                        Some(f) => crate::vm::spec_exec(
                            &module,
                            post_init_backing(&module, imports.entries@),
                            f,
                            Seq::empty(),
                            CALL_DEPTH_BUDGET,
                        ).1,
                    })
                    &&& (match module.start {
                        Some(f) => crate::vm::spec_exec(
                            &module,
                            post_init_backing(&module, imports.entries@),
                            f,
                            Seq::empty(),
                            CALL_DEPTH_BUDGET,
                        ).0 is Ok,
                        None => true,
                    })
                    &&& (module.start is None ==> {
                        &&& (*inst).backing.globals@ == global_values(&module, imports.entries@)
                        &&& ((*inst).backing.memories@.len() >= 1 ==> {
                            &&& (*inst).backing.memories@[0].data@ == mem0_contents(
                                &module,
                                imports.entries@,
                            )
                            &&& (*inst).backing.memories@[0].pages as int == mem0_pages(
                                &module,
                                imports.entries@,
                            )
                        })
                        &&& ((*inst).backing.tables@.len() >= 1
                            ==> (*inst).backing.tables@[0].elems@.len() == table0_size(
                            &module,
                            imports.entries@,
                        ).unwrap_or(0))
                    })
                },
                Err(le) => match le {
                    LinkError::MissingImport => link_import_error(&module, imports.entries@)
                        == Some(LinkError::MissingImport),
                    LinkError::IncompatibleImport => link_import_error(&module, imports.entries@)
                        == Some(LinkError::IncompatibleImport),
                    LinkError::SegmentOutOfBounds => {
                        &&& link_import_error(&module, imports.entries@) is None
                        &&& !segments_ok(&module, imports.entries@)
                    },
                    LinkError::StartTrapped(t) => {
                        &&& link_import_error(&module, imports.entries@) is None
                        &&& segments_ok(&module, imports.entries@)
                        &&& (match module.start {
                            Some(f) => crate::vm::spec_exec(
                                &module,
                                post_init_backing(&module, imports.entries@),
                                f,
                                Seq::empty(),
                                CALL_DEPTH_BUDGET,
                            ).0 == Err::<Seq<Val>, Trap>(t),
                            None => false,
                        })
                    },
                },
            },
    {
        let ghost entries = imports.entries@;
        let n_imp = module.imports.len();
        let mut mem_vec: Vec<Memory> = Vec::new();
        let mut tab_vec: Vec<Table> = Vec::new();
        let mut glob_vals: Vec<Val> = Vec::new();
        let mut i: usize = 0;
        proof {
            assert(module.imports@.take(0) =~= Seq::<ImportDecl>::empty());
        }
        while i < n_imp
            invariant
                imports.wf(),
                entries == imports.entries@,
                n_imp == module.imports@.len(),
                i <= n_imp,
                registry.wf(),
                module.wf(registry@),
                old(registry)@.len() <= registry@.len(),
                forall|k: int|
                    0 <= k < old(registry)@.len() ==> registry@[k] == old(registry)@[k],
                import_errors_from(&module, entries, 0) == import_errors_from(
                    &module,
                    entries,
                    i as int,
                ),
                mem_vec@.len() == mem_import_decls(module.imports@.take(i as int)).len(),
                forall|k: int|
                    0 <= k < mem_vec@.len() ==> mem_entry_ok(
                        entries,
                        mem_import_decls(module.imports@.take(i as int))[k],
                        #[trigger] mem_vec@[k],
                    ),
                tab_vec@.len() == table_import_decls(module.imports@.take(i as int)).len(),
                forall|k: int|
                    0 <= k < tab_vec@.len() ==> table_entry_ok(
                        entries,
                        table_import_decls(module.imports@.take(i as int))[k],
                        #[trigger] tab_vec@[k],
                    ),
                glob_vals@.len() == global_import_decls(module.imports@.take(i as int)).len(),
                forall|k: int|
                    0 <= k < glob_vals@.len() ==> #[trigger] glob_vals@[k] == resolved_global_val(
                        entries,
                        global_import_decls(module.imports@.take(i as int))[k],
                    ),
            decreases n_imp - i,
        {
            let d = &module.imports[i];
            let found = lookup_entry(imports, &d.module, &d.item);
            let idx = match found {
                Some(idx) => idx,
                None => {
                    return Err(LinkError::MissingImport);
                },
            };
            let e = &imports.entries[idx];
            let compat: bool = match d.desc {
                ImportDesc::Func(ti) => {
                    match &e.value {
                        ImportValue::Func(sig) => {
                            let ghost pre = registry@;
                            let h = registry.intern(sig);
                            proof {
                                crate::module::lemma_wf_monotone(&module, pre, registry@);
                                lemma_registry_structural(
                                    registry@,
                                    h.id as int,
                                    module.type_handles@[ti as int].id as int,
                                );
                            }
                            let th = module.type_handles[ti as usize];
                            h.id == th.id
                        },
                        _ => false,
                    }
                },
                ImportDesc::Memory(req) => {
                    match &e.value {
                        ImportValue::Memory(mem) => {
                            mem.pages >= req.initial && (match req.maximum {
                                Some(mx) => mem.max_pages <= mx,
                                None => true,
                            })
                        },
                        _ => false,
                    }
                },
                ImportDesc::Table(req) => {
                    match &e.value {
                        ImportValue::Table(t) => {
                            (t.elems.len() as u32) >= req.initial && (match req.maximum {
                                Some(mx) => t.max_elems <= mx,
                                None => true,
                            })
                        },
                        _ => false,
                    }
                },
                ImportDesc::Global(ty, mu) => {
                    match &e.value {
                        ImportValue::Global(gty, gmu, gv) => {
                            let tv = gv.ty();
                            *gty == ty && *gmu == mu && tv == *gty
                        },
                        _ => false,
                    }
                },
            };
            proof {
                assert(compat == import_value_compatible(&module, d.desc, e.value));
            }
            if !compat {
                return Err(LinkError::IncompatibleImport);
            }
            proof {
                assert(module.imports@.take(i + 1).drop_last() =~= module.imports@.take(i as int));
                assert(module.imports@.take(i + 1).last() == module.imports@[i as int]);
            }
            match d.desc {
                ImportDesc::Memory(_) => {
                    match &e.value {
                        ImportValue::Memory(src) => {
                            mem_vec.push(src.duplicate());
                        },
                        _ => {
                            proof {
                                assert(false);
                            }
                        },
                    }
                },
                ImportDesc::Table(_) => {
                    match &e.value {
                        ImportValue::Table(src) => {
                            tab_vec.push(src.duplicate());
                        },
                        _ => {
                            proof {
                                assert(false);
                            }
                        },
                    }
                },
                ImportDesc::Global(_, _) => {
                    match &e.value {
                        ImportValue::Global(_, _, gv) => {
                            glob_vals.push(*gv);
                        },
                        _ => {
                            proof {
                                assert(false);
                            }
                        },
                    }
                },
                ImportDesc::Func(_) => {},
            }
            i = i + 1;
        }
        proof {
            assert(module.imports@.take(n_imp as int) =~= module.imports@);
            lemma_mem_decls_correspond(module.imports@);
            lemma_table_decls_correspond(module.imports@);
            lemma_global_decls_correspond(module.imports@);
            assert(import_errors_from(&module, entries, 0) is None);
        }
        // Step 2: allocate locally declared resources.
        let ghost n_imp_mems = mem_vec@.len();
        let mut k: usize = 0;
        while k < module.memories.len()
            invariant
                registry.wf(),
                module.wf(registry@),
                old(registry)@.len() <= registry@.len(),
                forall|q: int|
                    0 <= q < old(registry)@.len() ==> registry@[q] == old(registry)@[q],
                import_errors_from(&module, entries, 0) is None,
                entries == imports.entries@,
                n_imp_mems == mem_import_decls(module.imports@).len(),
                k <= module.memories@.len(),
                mem_vec@.len() == n_imp_mems + k,
                forall|j: int|
                    0 <= j < n_imp_mems ==> mem_entry_ok(
                        entries,
                        mem_import_decls(module.imports@)[j],
                        #[trigger] mem_vec@[j],
                    ),
                forall|j: int|
                    n_imp_mems <= j < mem_vec@.len() ==> {
                        &&& (#[trigger] mem_vec@[j]).wf()
                        &&& mem_vec@[j].data@.len() == module.memories@[j - n_imp_mems].initial
                            as int * PAGE_SIZE as int
                        &&& mem_vec@[j].pages == module.memories@[j - n_imp_mems].initial
                        &&& mem_vec@[j].max_pages == module.memories@[j
                            - n_imp_mems].effective_max_spec(crate::types::MAX_MEMORY_PAGES)
                        &&& forall|q: int|
                            0 <= q < mem_vec@[j].data@.len() ==> (#[trigger] mem_vec@[j].data@[q])
                                == 0u8
                    },
            decreases module.memories@.len() - k,
        {
            let lim = module.memories[k];
            mem_vec.push(Memory::new(&lim));
            k = k + 1;
        }
        let ghost n_imp_tabs = tab_vec@.len();
        proof {
            lemma_mem_decls_correspond(module.imports@);
        }
        let mut k2: usize = 0;
        while k2 < module.tables.len()
            invariant
                registry.wf(),
                module.wf(registry@),
                old(registry)@.len() <= registry@.len(),
                forall|q: int|
                    0 <= q < old(registry)@.len() ==> registry@[q] == old(registry)@[q],
                import_errors_from(&module, entries, 0) is None,
                entries == imports.entries@,
                n_imp_tabs == table_import_decls(module.imports@).len(),
                mem_vec@.len() == module.total_mems(),
                forall|j: int| 0 <= j < mem_vec@.len() ==> (#[trigger] mem_vec@[j]).wf(),
                mem_vec@.len() >= 1 ==> mem_vec@[0].data@.len() == mem0_size(
                    &module,
                    entries,
                ).unwrap_or(0),
                k2 <= module.tables@.len(),
                tab_vec@.len() == n_imp_tabs + k2,
                forall|j: int|
                    0 <= j < n_imp_tabs ==> table_entry_ok(
                        entries,
                        table_import_decls(module.imports@)[j],
                        #[trigger] tab_vec@[j],
                    ),
                forall|j: int|
                    n_imp_tabs <= j < tab_vec@.len() ==> {
                        &&& (#[trigger] tab_vec@[j]).wf()
                        &&& tab_vec@[j].elems@.len() == module.tables@[j - n_imp_tabs].initial
                        &&& tab_vec@[j].max_elems == module.tables@[j
                            - n_imp_tabs].effective_max_spec(crate::types::MAX_TABLE_ELEMS)
                        &&& forall|q: int|
                            0 <= q < tab_vec@[j].elems@.len() ==> (#[trigger] tab_vec@[j].elems@[q])
                                is None
                    },
            decreases module.tables@.len() - k2,
        {
            let lim = module.tables[k2];
            tab_vec.push(Table::new(&lim));
            k2 = k2 + 1;
        }
        let ghost n_imp_globs = glob_vals@.len();
        proof {
            lemma_table_decls_correspond(module.imports@);
            lemma_global_decls_correspond(module.imports@);
            assert(n_imp_globs == module.n_imported_globals as int);
        }
        let mut k3: usize = 0;
        while k3 < module.globals.len()
            invariant
                registry.wf(),
                module.wf(registry@),
                old(registry)@.len() <= registry@.len(),
                forall|q: int|
                    0 <= q < old(registry)@.len() ==> registry@[q] == old(registry)@[q],
                import_errors_from(&module, entries, 0) is None,
                entries == imports.entries@,
                mem_vec@.len() == module.total_mems(),
                forall|j: int| 0 <= j < mem_vec@.len() ==> (#[trigger] mem_vec@[j]).wf(),
                mem_vec@.len() >= 1 ==> mem_vec@[0].data@.len() == mem0_size(
                    &module,
                    entries,
                ).unwrap_or(0),
                tab_vec@.len() == module.total_tables(),
                forall|j: int| 0 <= j < tab_vec@.len() ==> (#[trigger] tab_vec@[j]).wf(),
                tab_vec@.len() >= 1 ==> tab_vec@[0].elems@.len() == table0_size(
                    &module,
                    entries,
                ).unwrap_or(0),
                k3 <= module.globals@.len(),
                n_imp_globs == module.n_imported_globals as int,
                glob_vals@.len() == n_imp_globs + k3,
                forall|j: int|
                    0 <= j < n_imp_globs ==> #[trigger] glob_vals@[j] == resolved_global_val(
                        entries,
                        global_import_decls(module.imports@)[j],
                    ),
                forall|j: int|
                    n_imp_globs <= j < glob_vals@.len() ==> #[trigger] glob_vals@[j]
                        == init_global_value(&module, entries, module.globals@[j - n_imp_globs]),
            decreases module.globals@.len() - k3,
        {
            proof {
                lemma_global_decls_correspond(module.imports@);
            }
            let g = module.globals[k3];
            let v: Val = match g.init {
                ConstExpr::I32Const(c) => Val::I32(c),
                ConstExpr::I64Const(c) => Val::I64(c),
                ConstExpr::GlobalGet(gi) => glob_vals[gi as usize],
            };
            glob_vals.push(v);
            k3 = k3 + 1;
        }
        // Step 3: apply data and element segments, bounds-checked
        // against the sizes allocated above.
        proof {
            lemma_global_decls_correspond(module.imports@);
            assert(glob_vals@ =~= global_values(&module, entries));
            lemma_mem_decls_correspond(module.imports@);
            if mem_vec@.len() >= 1 {
                if n_imp_mems == 0 {
                    assert(mem_vec@[0].data@ =~= mem0_initial_bytes(&module, entries));
                }
                assert(mem_vec@[0].data@ == mem0_after_data(&module, entries, 0));
            }
            lemma_table_decls_correspond(module.imports@);
            if tab_vec@.len() >= 1 {
                if n_imp_tabs == 0 {
                    assert(tab_vec@[0].elems@ =~= table0_initial_slots(&module, entries));
                }
                assert(tab_vec@[0].elems@ == table0_after_elems(&module, entries, 0));
            }
        }
        let mut si: usize = 0;
        while si < module.data.len()
            invariant
                registry.wf(),
                module.wf(registry@),
                old(registry)@.len() <= registry@.len(),
                forall|q: int|
                    0 <= q < old(registry)@.len() ==> registry@[q] == old(registry)@[q],
                import_errors_from(&module, entries, 0) is None,
                entries == imports.entries@,
                si <= module.data@.len(),
                mem_vec@.len() == module.total_mems(),
                tab_vec@.len() == module.total_tables(),
                forall|j: int| 0 <= j < tab_vec@.len() ==> (#[trigger] tab_vec@[j]).wf(),
                tab_vec@.len() >= 1 ==> tab_vec@[0].elems@.len() == table0_size(
                    &module,
                    entries,
                ).unwrap_or(0),
                n_imp_globs == module.n_imported_globals as int,
                glob_vals@.len() == module.total_globals(),
                forall|j: int|
                    0 <= j < n_imp_globs ==> #[trigger] glob_vals@[j] == resolved_global_val(
                        entries,
                        global_import_decls(module.imports@)[j],
                    ),
                forall|j: int| 0 <= j < mem_vec@.len() ==> (#[trigger] mem_vec@[j]).wf(),
                mem_vec@.len() >= 1 ==> {
                    &&& mem_vec@[0].data@ == mem0_after_data(&module, entries, si as int)
                    &&& mem_vec@[0].data@.len() == mem0_size(&module, entries).unwrap_or(0)
                    &&& mem_vec@[0].pages as int == mem0_pages(&module, entries)
                    &&& mem_vec@[0].max_pages as int == mem0_max_pages(&module, entries)
                },
                forall|j: int|
                    0 <= j < si ==> offset_value(&module, entries, (#[trigger] module.data@[j]).offset)
                        + module.data@[j].bytes@.len() <= mem0_size(&module, entries).unwrap_or(0),
            decreases module.data@.len() - si,
        {
            let seg = &module.data[si];
            let off: u64 = match seg.offset {
                ConstExpr::I32Const(v) => crate::vm::i32_bits_to_u32(v) as u64,
                ConstExpr::GlobalGet(gi) => {
                    match glob_vals[gi as usize] {
                        Val::I32(v) => crate::vm::i32_bits_to_u32(v) as u64,
                        Val::I64(_) => 0u64,
                    }
                },
                ConstExpr::I64Const(_) => 0u64,
            };
            proof {
                lemma_global_decls_correspond(module.imports@);
                assert(off as int == offset_value(&module, entries, seg.offset));
            }
            let ghost pre_bytes = mem_vec@[seg.mem as int].data@;
            let mref = &mut mem_vec[seg.mem as usize];
            let dlen: u64 = mref.data.len() as u64;
            if off > dlen || (seg.bytes.len() as u64) > dlen - off {
                return Err(LinkError::SegmentOutOfBounds);
            }
            match mref.write(off as usize, &seg.bytes) {
                Ok(()) => {},
                Err(_) => {
                    proof {
                        assert(false);
                    }
                },
            }
            proof {
                assert(seg.mem == 0);
                assert(mem_vec@[0].data@ =~= seq_write(pre_bytes, off as int, seg.bytes@));
                assert(mem_vec@[0].data@ == mem0_after_data(&module, entries, si + 1));
            }
            si = si + 1;
        }
        let mut si2: usize = 0;
        while si2 < module.elems.len()
            invariant
                registry.wf(),
                module.wf(registry@),
                old(registry)@.len() <= registry@.len(),
                forall|q: int|
                    0 <= q < old(registry)@.len() ==> registry@[q] == old(registry)@[q],
                import_errors_from(&module, entries, 0) is None,
                entries == imports.entries@,
                si2 <= module.elems@.len(),
                mem_vec@.len() == module.total_mems(),
                forall|j: int| 0 <= j < mem_vec@.len() ==> (#[trigger] mem_vec@[j]).wf(),
                forall|j: int|
                    0 <= j < module.data@.len() ==> offset_value(
                        &module,
                        entries,
                        (#[trigger] module.data@[j]).offset,
                    ) + module.data@[j].bytes@.len() <= mem0_size(&module, entries).unwrap_or(0),
                tab_vec@.len() == module.total_tables(),
                n_imp_globs == module.n_imported_globals as int,
                glob_vals@.len() == module.total_globals(),
                forall|j: int|
                    0 <= j < n_imp_globs ==> #[trigger] glob_vals@[j] == resolved_global_val(
                        entries,
                        global_import_decls(module.imports@)[j],
                    ),
                forall|j: int| 0 <= j < tab_vec@.len() ==> (#[trigger] tab_vec@[j]).wf(),
                tab_vec@.len() >= 1 ==> {
                    &&& tab_vec@[0].elems@.len() == table0_size(&module, entries).unwrap_or(0)
                    &&& tab_vec@[0].max_elems as int == table0_max_elems(&module, entries)
                    &&& tab_vec@[0].elems@ == table0_after_elems(&module, entries, si2 as int)
                },
                forall|j: int|
                    0 <= j < si2 ==> offset_value(
                        &module,
                        entries,
                        (#[trigger] module.elems@[j]).offset,
                    ) + module.elems@[j].funcs@.len() <= table0_size(&module, entries).unwrap_or(0),
            decreases module.elems@.len() - si2,
        {
            let seg = &module.elems[si2];
            let off: u64 = match seg.offset {
                ConstExpr::I32Const(v) => crate::vm::i32_bits_to_u32(v) as u64,
                ConstExpr::GlobalGet(gi) => {
                    match glob_vals[gi as usize] {
                        Val::I32(v) => crate::vm::i32_bits_to_u32(v) as u64,
                        Val::I64(_) => 0u64,
                    }
                },
                ConstExpr::I64Const(_) => 0u64,
            };
            proof {
                lemma_global_decls_correspond(module.imports@);
                assert(off as int == offset_value(&module, entries, seg.offset));
            }
            let tlen: u64 = tab_vec[seg.table as usize].elems.len() as u64;
            if off > tlen || (seg.funcs.len() as u64) > tlen - off {
                return Err(LinkError::SegmentOutOfBounds);
            }
            let mut fj: usize = 0;
            proof {
                assert(tab_vec@[0].elems@ =~= write_slots(
                    table0_after_elems(&module, entries, si2 as int),
                    off as int,
                    seg_funcrefs(&module, *seg).take(0),
                ));
            }
            while fj < seg.funcs.len()
                invariant
                    module.wf_struct(),
                    module.wf_types(registry@),
                    fj <= seg.funcs@.len(),
                    seg == module.elems@[si2 as int],
                    si2 < module.elems@.len(),
                    off + seg.funcs@.len() <= tab_vec@[seg.table as int].elems@.len(),
                    seg.table < tab_vec@.len(),
                    tab_vec@.len() == module.total_tables(),
                    forall|j: int| 0 <= j < tab_vec@.len() ==> (#[trigger] tab_vec@[j]).wf(),
                    entries == imports.entries@,
                    tab_vec@[0].elems@.len() == table0_size(&module, entries).unwrap_or(0),
                    tab_vec@[0].max_elems as int == table0_max_elems(&module, entries),
                    off as int == offset_value(&module, entries, seg.offset),
                    tab_vec@[0].elems@ == write_slots(
                        table0_after_elems(&module, entries, si2 as int),
                        off as int,
                        seg_funcrefs(&module, *seg).take(fj as int),
                    ),
                decreases seg.funcs@.len() - fj,
            {
                let fi = seg.funcs[fj];
                let fti = module.func_type_idx[fi as usize];
                let h = module.type_handles[fti as usize];
                let tref = &mut tab_vec[seg.table as usize];
                let res = tref.set((off + fj as u64) as u32, Some(FuncRef { func: fi, sig: h }));
                match res {
                    Ok(()) => {},
                    Err(_) => {
                        proof {
                            assert(false);
                        }
                    },
                }
                proof {
                    assert(seg.table == 0);
                    assert(tab_vec@[0].elems@ =~= write_slots(
                        table0_after_elems(&module, entries, si2 as int),
                        off as int,
                        seg_funcrefs(&module, *seg).take(fj + 1),
                    ));
                }
                fj = fj + 1;
            }
            proof {
                assert(seg_funcrefs(&module, *seg).take(seg.funcs@.len() as int) =~= seg_funcrefs(
                    &module,
                    *seg,
                ));
                assert(tab_vec@[0].elems@ =~= table0_after_elems(&module, entries, si2 + 1));
            }
            si2 = si2 + 1;
        }
        // Step 4: exports are bound by name through the module's
        // export declarations (see `call` and `get_export`).
        let mut backing = Backing { memories: mem_vec, tables: tab_vec, globals: glob_vals };
        proof {
            lemma_mem_decls_correspond(module.imports@);
            lemma_table_decls_correspond(module.imports@);
            lemma_global_decls_correspond(module.imports@);
            assert(backing@ =~= post_init_backing(&module, entries));
        }
        // Step 5: run the start function, if any; a trap here means
        // no instance is returned.
        match module.start {
            Some(f) => {
                match exec_func(&module, &mut backing, f, Vec::new(), CALL_DEPTH_BUDGET) {
                    Ok(_) => {},
                    Err(t) => {
                        return Err(LinkError::StartTrapped(t));
                    },
                }
            },
            None => {},
        }
        Ok(Box::new(Instance { module, backing }))
    }

    /// Look up an export by name: the declaration's kind and internal
    /// index, or `None` when the name is not exported.
    pub fn get_export(&self, name: &ItemName) -> (r: Option<ExportDesc>)
        ensures
            r == find_export(&self.module, name@),
    {
        find_export_entry(&self.module, name)
    }

    /// Call an exported function with typed arguments. Fails with
    /// `NoSuchExport` iff the name is absent or not a function, with
    /// `ArgumentType` (before any guest code executes) iff the
    /// argument count or a type differs from the signature; a runtime
    /// trap surfaces as `Trap` and leaves the instance usable.
    pub fn call(&mut self, name: &ItemName, args: Vec<Val>) -> (r: Result<Vec<Val>, CallError>)
        requires
            old(self).wf(),
        ensures
            final(self).wf(),
            final(self).module == old(self).module,
            match find_export(&old(self).module, name@) {
                Some(ExportDesc::Func(f)) => {
                    &&& (!args_match(&old(self).module, f as int, args@) ==> r == Err::<Vec<Val>, CallError>(
                        CallError::ArgumentType,
                    ) && *final(self) == *old(self))
                    &&& (args_match(&old(self).module, f as int, args@) ==> ({
                        let s = crate::vm::spec_exec(
                            &old(self).module,
                            old(self).backing@,
                            f,
                            args@,
                            CALL_DEPTH_BUDGET,
                        );
                        &&& s.1 == final(self).backing@
                        &&& match r {
                            Ok(vals) => s.0 == Ok::<Seq<Val>, Trap>(vals@),
                            Err(CallError::Trap(t)) => s.0 == Err::<Seq<Val>, Trap>(t),
                            Err(_) => false,
                        }
                    }))
                },
                _ => r == Err::<Vec<Val>, CallError>(CallError::NoSuchExport) && *final(self) == *old(
                    self,
                ),
            },
    {
        let fd = find_export_entry(&self.module, name);
        proof {
            lemma_find_export_in_range(&self.module, name@, 0);
        }
        match fd {
            Some(ExportDesc::Func(f)) => {
                let ti = self.module.func_type_idx[f as usize];
                let nparams = self.module.types[ti as usize].params.len();
                proof {
                    assert(old(self).module.func_sig(f as int).params == old(
                        self,
                    ).module.types@[ti as int].params@);
                }
                if args.len() != nparams {
                    return Err(CallError::ArgumentType);
                }
                let mut k: usize = 0;
                while k < nparams
                    invariant
                        *self == *old(self),
                        old(self).wf(),
                        find_export(&old(self).module, name@) == Some(ExportDesc::Func(f)),
                        k <= nparams,
                        f < old(self).module.func_type_idx@.len(),
                        ti == old(self).module.func_type_idx@[f as int],
                        ti < old(self).module.types@.len(),
                        nparams == old(self).module.types@[ti as int].params@.len(),
                        old(self).module.func_sig(f as int).params == old(
                            self,
                        ).module.types@[ti as int].params@,
                        args@.len() == nparams,
                        forall|j: int|
                            0 <= j < k ==> (#[trigger] args@[j]).ty_spec()
                                == old(self).module.types@[ti as int].params@[j],
                    decreases nparams - k,
                {
                    let at = args[k].ty();
                    if at != self.module.types[ti as usize].params[k] {
                        return Err(CallError::ArgumentType);
                    }
                    k = k + 1;
                }
                match exec_func(&self.module, &mut self.backing, f, args, CALL_DEPTH_BUDGET) {
                    Ok(vals) => Ok(vals),
                    Err(t) => Err(CallError::Trap(t)),
                }
            },
            _ => Err(CallError::NoSuchExport),
        }
    }

    /// Call an exported function with arguments given as decimal
    /// strings, parsing each against the declared parameter type.
    /// Fails with `NoSuchExport` iff the name is absent or not a
    /// function, and with `ArgumentType` (before any guest code
    /// executes) iff the count is wrong or some argument does not
    /// parse as its parameter type.
    pub fn invoke(&mut self, name: &ItemName, args: &Vec<String>) -> (r: Result<
        Vec<Val>,
        CallError,
    >)
        requires
            old(self).wf(),
        ensures
            final(self).wf(),
            final(self).module == old(self).module,
            match find_export(&old(self).module, name@) {
                Some(ExportDesc::Func(f)) => {
                    &&& (!str_args_ok(&old(self).module, f as int, args@) ==> r == Err::<Vec<Val>, CallError>(
                        CallError::ArgumentType,
                    ) && *final(self) == *old(self))
                    &&& (str_args_ok(&old(self).module, f as int, args@) ==> ({
                        let s = crate::vm::spec_exec(
                            &old(self).module,
                            old(self).backing@,
                            f,
                            parsed_args(&old(self).module, f as int, args@),
                            CALL_DEPTH_BUDGET,
                        );
                        &&& s.1 == final(self).backing@
                        &&& match r {
                            Ok(vals) => s.0 == Ok::<Seq<Val>, Trap>(vals@),
                            Err(CallError::Trap(t)) => s.0 == Err::<Seq<Val>, Trap>(t),
                            Err(_) => false,
                        }
                    }))
                },
                _ => r == Err::<Vec<Val>, CallError>(CallError::NoSuchExport) && *final(self) == *old(
                    self,
                ),
            },
    {
        let fd = find_export_entry(&self.module, name);
        proof {
            lemma_find_export_in_range(&self.module, name@, 0);
        }
        match fd {
            Some(ExportDesc::Func(f)) => {
                let ti = self.module.func_type_idx[f as usize];
                let nparams = self.module.types[ti as usize].params.len();
                proof {
                    assert(old(self).module.func_sig(f as int).params == old(
                        self,
                    ).module.types@[ti as int].params@);
                }
                if args.len() != nparams {
                    return Err(CallError::ArgumentType);
                }
                let mut vals: Vec<Val> = Vec::new();
                let mut k: usize = 0;
                while k < nparams
                    invariant
                        *self == *old(self),
                        find_export(&old(self).module, name@) == Some(ExportDesc::Func(f)),
                        old(self).module.func_sig(f as int).params == old(
                            self,
                        ).module.types@[ti as int].params@,
                        old(self).wf(),
                        k <= nparams,
                        f < old(self).module.func_type_idx@.len(),
                        ti == old(self).module.func_type_idx@[f as int],
                        ti < old(self).module.types@.len(),
                        nparams == old(self).module.types@[ti as int].params@.len(),
                        args@.len() == nparams,
                        vals@.len() == k,
                        forall|j: int|
                            0 <= j < k ==> parses_as(
                                (#[trigger] args@[j])@,
                                old(self).module.types@[ti as int].params@[j],
                            ),
                        forall|j: int|
                            0 <= j < k ==> #[trigger] vals@[j] == crate::parse::parsed_val(
                                args@[j]@,
                                old(self).module.types@[ti as int].params@[j],
                            ),
                    decreases nparams - k,
                {
                    let pt = self.module.types[ti as usize].params[k];
                    match parse_arg(args[k].as_str(), pt) {
                        Some(v) => {
                            vals.push(v);
                        },
                        None => {
                            return Err(CallError::ArgumentType);
                        },
                    }
                    k = k + 1;
                }
                proof {
                    assert(vals@ =~= parsed_args(&old(self).module, f as int, args@));
                }
                match exec_func(&self.module, &mut self.backing, f, vals, CALL_DEPTH_BUDGET) {
                    Ok(vs) => Ok(vs),
                    Err(t) => Err(CallError::Trap(t)),
                }
            },
            _ => Err(CallError::NoSuchExport),
        }
    }
}

} // verus!
