//! A small WebAssembly execution engine core: compiled modules, linked
//! instances, growable bounds-checked linear memories and tables, and
//! structurally interned function signatures for indirect-call checks.
use vstd::prelude::*;

pub mod types;
pub mod memory;
pub mod sig_registry;
pub mod table;
pub mod module;
pub mod backing;
pub mod vm;
pub mod parse;
pub mod instance;
pub mod backend;

pub use crate::backend::Compiler;
pub use crate::backend::BaselineCompiler;
pub use crate::instance::Import;
pub use crate::instance::Imports;
pub use crate::instance::Instance;
pub use crate::module::ItemName;
pub use crate::module::Module;
pub use crate::module::ModuleName;
pub use crate::sig_registry::SignatureRegistry;

verus! {

/// Compile a WebAssembly module using the provided compiler backend
/// and link it with the provided imports, interning signatures
/// through the session registry. No partial result escapes on
/// failure: either a fully linked instance is returned, or the
/// compile or link error that stopped it.
pub fn compile<C: Compiler>(
    compiler: &C,
    wasm: &[u8],
    imports: &Imports,
    registry: &mut crate::sig_registry::SignatureRegistry,
) -> (r: Result<Box<Instance>, crate::types::EngineError>)
    requires
        old(registry).wf(),
        imports.wf(),
    ensures
        final(registry).wf(),
        old(registry)@.len() <= final(registry)@.len(),
        forall|k: int| 0 <= k < old(registry)@.len() ==> final(registry)@[k] == old(registry)@[k],
        r matches Ok(inst) ==> {
            &&& (*inst).wf()
            &&& (*inst).module.wf(final(registry)@)
            &&& crate::instance::link_import_error(&(*inst).module, imports.entries@) is None
            &&& crate::instance::segments_ok(&(*inst).module, imports.entries@)
            &&& (*inst).backing.memories@.len() == (*inst).module.total_mems()
            &&& (*inst).backing.tables@.len() == (*inst).module.total_tables()
            &&& (*inst).backing.globals@.len() == (*inst).module.total_globals()
            &&& ((*inst).backing.memories@.len() >= 1 ==> {
                &&& (*inst).backing.memories@[0].max_pages as int
                    == crate::instance::mem0_max_pages(&(*inst).module, imports.entries@)
                &&& (*inst).backing.memories@[0].pages as int >= crate::instance::mem0_pages(
                    &(*inst).module,
                    imports.entries@,
                )
            })
            &&& ((*inst).backing.tables@.len() >= 1 ==> {
                &&& (*inst).backing.tables@[0].max_elems as int
                    == crate::instance::table0_max_elems(&(*inst).module, imports.entries@)
                &&& (*inst).backing.tables@[0].elems@.len() >= crate::instance::table0_size(
                    &(*inst).module,
                    imports.entries@,
                ).unwrap_or(0)
            })
            &&& (*inst).backing@ == (match (*inst).module.start {
                None => crate::instance::post_init_backing(&(*inst).module, imports.entries@),
                Some(f) => crate::vm::spec_exec(
                    &(*inst).module,
                    crate::instance::post_init_backing(&(*inst).module, imports.entries@),
                    f,
                    Seq::empty(),
                    crate::vm::CALL_DEPTH_BUDGET,
                ).1,
            })
            &&& ((*inst).module.start is None ==> {
                &&& (*inst).backing.globals@ == crate::instance::global_values(
                    &(*inst).module,
                    imports.entries@,
                )
                &&& ((*inst).backing.memories@.len() >= 1 ==> {
                    &&& (*inst).backing.memories@[0].data@ == crate::instance::mem0_contents(
                        &(*inst).module,
                        imports.entries@,
                    )
                    &&& (*inst).backing.memories@[0].pages as int == crate::instance::mem0_pages(
                        &(*inst).module,
                        imports.entries@,
                    )
                })
                &&& ((*inst).backing.tables@.len() >= 1
                    ==> (*inst).backing.tables@[0].elems@.len() == crate::instance::table0_size(
                    &(*inst).module,
                    imports.entries@,
                ).unwrap_or(0))
            })
        },
{
    let m = match compiler.compile(wasm, registry) {
        Ok(m) => m,
        Err(e) => {
            return Err(crate::types::EngineError::Compile(e));
        },
    };
    match Instance::new(m, imports, registry) {
        Ok(inst) => Ok(inst),
        Err(le) => Err(crate::types::EngineError::Link(le)),
    }
}

} // verus!
