//! The pluggable compiler capability: raw WebAssembly bytes to a
//! validated `Module`. The baseline backend decodes the binary
//! container, validates every index reference, limit, initializer and
//! body against the module's declarations, lowers bodies into the
//! interpretable instruction form, and interns all signatures through
//! the session's `SignatureRegistry`. No partial module is ever
//! returned on failure.
use vstd::prelude::*;

use crate::module::ConstExpr;
use crate::module::DataSeg;
use crate::module::ElemSeg;
use crate::module::ExportDecl;
use crate::module::ExportDesc;
use crate::module::FuncBody;
use crate::module::ImportDecl;
use crate::module::ImportDesc;
use crate::module::Instr;
use crate::module::Module;
use crate::module::funcs_of_imports;
use crate::module::globals_of_imports;
use crate::module::mems_of_imports;
use crate::module::tables_of_imports;
use crate::module::GlobalDecl;
use crate::module::MAX_LOCALS;
use crate::sig_registry::FuncSig;
use crate::sig_registry::SigHandle;
use crate::sig_registry::SignatureRegistry;
use crate::types::CompileError;
use crate::types::Limits;
use crate::types::ValType;
use crate::types::MAX_MEMORY_PAGES;
use crate::types::MAX_TABLE_ELEMS;

verus! {

/// A compiler backend: an interchangeable strategy turning raw bytes
/// into a validated module, interning signatures through the given
/// session registry. On success the module is well-formed against the
/// registry as extended; the registry only ever grows, and existing
/// handles keep their meaning.
pub trait Compiler {
    fn compile(&self, wasm: &[u8], registry: &mut SignatureRegistry) -> (r: Result<
        Module,
        CompileError,
    >)
        requires
            old(registry).wf(),
        ensures
            final(registry).wf(),
            old(registry)@.len() <= final(registry)@.len(),
            forall|k: int|
                0 <= k < old(registry)@.len() ==> final(registry)@[k] == old(registry)@[k],
            r matches Ok(m) ==> m.wf(final(registry)@),
    ;
}

/// The baseline interpreting backend.
pub struct BaselineCompiler {}

impl Compiler for BaselineCompiler {
    fn compile(&self, wasm: &[u8], registry: &mut SignatureRegistry) -> (r: Result<
        Module,
        CompileError,
    >) {
        compile_wasm(wasm, registry)
    }
}

/// Read one byte, advancing the cursor.
fn read_byte(b: &[u8], pos: &mut usize) -> (r: Result<u8, CompileError>)
    requires
        *old(pos) <= b@.len(),
    ensures
        *old(pos) <= *final(pos) <= b@.len(),
        r is Ok ==> *old(pos) < *final(pos),
{
    if *pos < b.len() {
        let v = b[*pos];
        *pos = *pos + 1;
        Ok(v)
    } else {
        Err(CompileError::Malformed)
    }
}

/// Read an unsigned 32-bit LEB128 value.
fn read_u32_leb(b: &[u8], pos: &mut usize) -> (r: Result<u32, CompileError>)
    requires
        *old(pos) <= b@.len(),
    ensures
        *old(pos) <= *final(pos) <= b@.len(),
        r is Ok ==> *old(pos) < *final(pos),
{
    let mut result: u32 = 0;
    let mut j: u32 = 0;
    while j < 5
        invariant
            j <= 5,
            *old(pos) <= *pos <= b@.len(),
        decreases 5 - j,
    {
        let byte = match read_byte(b, pos) {
            Ok(v) => v,
            Err(e) => {
                return Err(e);
            },
        };
        if j == 4 && (byte & 0xf0) != 0 {
            // The fifth byte may only carry the top four value bits;
            // an over-long encoding is malformed.
            return Err(CompileError::Malformed);
        }
        result = result | (((byte & 0x7f) as u32) << (7 * j));
        if byte & 0x80 == 0 {
            return Ok(result);
        }
        j = j + 1;
    }
    Err(CompileError::Malformed)
}

/// Reinterpret the bits of an unsigned 64-bit value as signed.
fn u64_bits_to_i64(u: u64) -> (r: i64) {
    if u < 0x8000_0000_0000_0000u64 {
        u as i64
    } else {
        ((u - 0x8000_0000_0000_0000u64) as i64) + (-0x7fff_ffff_ffff_ffffi64 - 1)
    }
}

/// Read a signed LEB128 value of at most `maxbits` bits (32 or 64),
/// returned sign-extended in 64 bits.
fn read_sleb(b: &[u8], pos: &mut usize, maxbits: u32) -> (r: Result<i64, CompileError>)
    requires
        *old(pos) <= b@.len(),
        maxbits == 32 || maxbits == 64,
    ensures
        *old(pos) <= *final(pos) <= b@.len(),
        r is Ok ==> *old(pos) < *final(pos),
{
    let mut result: u64 = 0;
    let mut shift: u32 = 0;
    let maxbytes: u32 = if maxbits == 32 {
        5
    } else {
        10
    };
    let mut j: u32 = 0;
    while j < maxbytes
        invariant
            j <= maxbytes,
            maxbytes <= 10,
            shift == 7 * j,
            *old(pos) <= *pos <= b@.len(),
        decreases maxbytes - j,
    {
        let byte = match read_byte(b, pos) {
            Ok(v) => v,
            Err(e) => {
                return Err(e);
            },
        };
        if j == maxbytes - 1 {
            // In the last permitted byte the unused payload bits must
            // all equal the sign bit; anything else is an over-long
            // or overflowing encoding.
            let ok: bool = if maxbits == 32 {
                if byte & 0x08 != 0 {
                    byte & 0xf0 == 0x70
                } else {
                    byte & 0xf0 == 0
                }
            } else {
                byte & 0x7f == 0x7f || byte & 0xfe == 0
            };
            if !ok {
                return Err(CompileError::Malformed);
            }
        }
        if shift < 64 {
            result = result | (((byte & 0x7f) as u64) << shift);
        }
        if byte & 0x80 == 0 {
            let end_shift: u32 = shift + 7;
            if end_shift < 64 && (byte & 0x40) != 0 {
                result = result | (0xffff_ffff_ffff_ffffu64 << end_shift);
            }
            return Ok(u64_bits_to_i64(result));
        }
        shift = shift + 7;
        j = j + 1;
    }
    Err(CompileError::Malformed)
}

/// Read a length-prefixed byte string (a name or a data payload).
fn read_bytes_vec(b: &[u8], pos: &mut usize) -> (r: Result<Vec<u8>, CompileError>)
    requires
        *old(pos) <= b@.len(),
    ensures
        *old(pos) <= *final(pos) <= b@.len(),
        r is Ok ==> *old(pos) < *final(pos),
{
    let n = match read_u32_leb(b, pos) {
        Ok(v) => v,
        Err(e) => {
            return Err(e);
        },
    };
    if (n as usize) > b.len() - *pos {
        return Err(CompileError::Malformed);
    }
    let mut out: Vec<u8> = Vec::new();
    let mut i: usize = 0;
    let start: usize = *pos;
    while i < (n as usize)
        invariant
            i <= n as usize,
            start + n as usize <= b@.len(),
            b@.len() <= usize::MAX,
        decreases n as usize - i,
    {
        out.push(b[start + i]);
        i = i + 1;
    }
    *pos = start + (n as usize);
    Ok(out)
}

/// Read a value type byte.
fn read_valtype(b: &[u8], pos: &mut usize) -> (r: Result<ValType, CompileError>)
    requires
        *old(pos) <= b@.len(),
    ensures
        *old(pos) <= *final(pos) <= b@.len(),
        r is Ok ==> *old(pos) < *final(pos),
{
    let v = match read_byte(b, pos) {
        Ok(v) => v,
        Err(e) => {
            return Err(e);
        },
    };
    if v == 0x7f {
        Ok(ValType::I32)
    } else if v == 0x7e {
        Ok(ValType::I64)
    } else if v == 0x7d || v == 0x7c {
        Err(CompileError::Unsupported("floating-point value types".to_owned()))
    } else {
        Err(CompileError::Malformed)
    }
}

/// Read size limits (initial, optional maximum).
fn read_limits(b: &[u8], pos: &mut usize) -> (r: Result<Limits, CompileError>)
    requires
        *old(pos) <= b@.len(),
    ensures
        *old(pos) <= *final(pos) <= b@.len(),
        r is Ok ==> *old(pos) < *final(pos),
{
    let flag = match read_byte(b, pos) {
        Ok(v) => v,
        Err(e) => {
            return Err(e);
        },
    };
    if flag == 0x00 {
        let initial = match read_u32_leb(b, pos) {
            Ok(v) => v,
            Err(e) => {
                return Err(e);
            },
        };
        Ok(Limits { initial, maximum: None })
    } else if flag == 0x01 {
        let initial = match read_u32_leb(b, pos) {
            Ok(v) => v,
            Err(e) => {
                return Err(e);
            },
        };
        let maximum = match read_u32_leb(b, pos) {
            Ok(v) => v,
            Err(e) => {
                return Err(e);
            },
        };
        Ok(Limits { initial, maximum: Some(maximum) })
    } else {
        Err(CompileError::Malformed)
    }
}

/// Read a function type (0x60, parameter types, result types).
fn read_functype(b: &[u8], pos: &mut usize) -> (r: Result<FuncSig, CompileError>)
    requires
        *old(pos) <= b@.len(),
    ensures
        *old(pos) <= *final(pos) <= b@.len(),
        r is Ok ==> *old(pos) < *final(pos),
{
    let tag = match read_byte(b, pos) {
        Ok(v) => v,
        Err(e) => {
            return Err(e);
        },
    };
    if tag != 0x60 {
        return Err(CompileError::Malformed);
    }
    let np = match read_u32_leb(b, pos) {
        Ok(v) => v,
        Err(e) => {
            return Err(e);
        },
    };
    let mut params: Vec<ValType> = Vec::new();
    let mut i: u32 = 0;
    while i < np
        invariant
            *old(pos) < *pos <= b@.len(),
        decreases np - i,
    {
        match read_valtype(b, pos) {
            Ok(t) => params.push(t),
            Err(e) => {
                return Err(e);
            },
        }
        i = i + 1;
    }
    let nr = match read_u32_leb(b, pos) {
        Ok(v) => v,
        Err(e) => {
            return Err(e);
        },
    };
    let mut results: Vec<ValType> = Vec::new();
    let mut k: u32 = 0;
    while k < nr
        invariant
            *old(pos) < *pos <= b@.len(),
        decreases nr - k,
    {
        match read_valtype(b, pos) {
            Ok(t) => results.push(t),
            Err(e) => {
                return Err(e);
            },
        }
        k = k + 1;
    }
    Ok(FuncSig { params, results })
}

/// Read a constant initializer expression terminated by `end`.
fn read_const_expr(b: &[u8], pos: &mut usize) -> (r: Result<ConstExpr, CompileError>)
    requires
        *old(pos) <= b@.len(),
    ensures
        *old(pos) <= *final(pos) <= b@.len(),
        r is Ok ==> *old(pos) < *final(pos),
{
    let op = match read_byte(b, pos) {
        Ok(v) => v,
        Err(e) => {
            return Err(e);
        },
    };
    let e: ConstExpr = if op == 0x41 {
        match read_sleb(b, pos, 32) {
            Ok(v) => ConstExpr::I32Const(v as i32),
            Err(e) => {
                return Err(e);
            },
        }
    } else if op == 0x42 {
        match read_sleb(b, pos, 64) {
            Ok(v) => ConstExpr::I64Const(v),
            Err(e) => {
                return Err(e);
            },
        }
    } else if op == 0x23 {
        match read_u32_leb(b, pos) {
            Ok(v) => ConstExpr::GlobalGet(v),
            Err(e) => {
                return Err(e);
            },
        }
    } else {
        return Err(CompileError::Unsupported("constant expression form".to_owned()));
    };
    let end = match read_byte(b, pos) {
        Ok(v) => v,
        Err(e) => {
            return Err(e);
        },
    };
    if end != 0x0b {
        return Err(CompileError::Malformed);
    }
    Ok(e)
}

/// Decode an instruction sequence up to its terminating `end` opcode.
fn read_instrs(b: &[u8], pos: &mut usize) -> (r: Result<Vec<Instr>, CompileError>)
    requires
        *old(pos) <= b@.len(),
    ensures
        *old(pos) <= *final(pos) <= b@.len(),
{
    let mut instrs: Vec<Instr> = Vec::new();
    loop
        invariant
            *old(pos) <= *pos <= b@.len(),
        decreases b@.len() - *pos,
    {
        let op = match read_byte(b, pos) {
            Ok(v) => v,
            Err(e) => {
                return Err(e);
            },
        };
        let ins: Instr = if op == 0x0b {
            return Ok(instrs);
        } else if op == 0x00 {
            Instr::Unreachable
        } else if op == 0x1a {
            Instr::Drop
        } else if op == 0x41 {
            match read_sleb(b, pos, 32) {
                Ok(v) => Instr::I32Const(v as i32),
                Err(e) => {
                    return Err(e);
                },
            }
        } else if op == 0x42 {
            match read_sleb(b, pos, 64) {
                Ok(v) => Instr::I64Const(v),
                Err(e) => {
                    return Err(e);
                },
            }
        } else if op == 0x20 || op == 0x21 || op == 0x23 || op == 0x24 || op == 0x10 {
            let idx = match read_u32_leb(b, pos) {
                Ok(v) => v,
                Err(e) => {
                    return Err(e);
                },
            };
            if op == 0x20 {
                Instr::LocalGet(idx)
            } else if op == 0x21 {
                Instr::LocalSet(idx)
            } else if op == 0x23 {
                Instr::GlobalGet(idx)
            } else if op == 0x24 {
                Instr::GlobalSet(idx)
            } else {
                Instr::Call(idx)
            }
        } else if op == 0x6a {
            Instr::I32Add
        } else if op == 0x6b {
            Instr::I32Sub
        } else if op == 0x6c {
            Instr::I32Mul
        } else if op == 0x6d {
            Instr::I32DivS
        } else if op == 0x6e {
            Instr::I32DivU
        } else if op == 0x7c {
            Instr::I64Add
        } else if op == 0x28 || op == 0x36 {
            let _align = match read_u32_leb(b, pos) {
                Ok(v) => v,
                Err(e) => {
                    return Err(e);
                },
            };
            let offset = match read_u32_leb(b, pos) {
                Ok(v) => v,
                Err(e) => {
                    return Err(e);
                },
            };
            if op == 0x28 {
                Instr::I32Load(offset)
            } else {
                Instr::I32Store(offset)
            }
        } else if op == 0x3f || op == 0x40 {
            let mem = match read_byte(b, pos) {
                Ok(v) => v,
                Err(e) => {
                    return Err(e);
                },
            };
            if mem != 0x00 {
                return Err(CompileError::Malformed);
            }
            if op == 0x3f {
                Instr::MemorySize
            } else {
                Instr::MemoryGrow
            }
        } else if op == 0x11 {
            let ti = match read_u32_leb(b, pos) {
                Ok(v) => v,
                Err(e) => {
                    return Err(e);
                },
            };
            let tb = match read_byte(b, pos) {
                Ok(v) => v,
                Err(e) => {
                    return Err(e);
                },
            };
            if tb != 0x00 {
                return Err(CompileError::Malformed);
            }
            Instr::CallIndirect(ti)
        } else if op == 0x02 || op == 0x03 || op == 0x04 || op == 0x05 || op == 0x0c || op == 0x0d
            || op == 0x0e || op == 0x0f {
            return Err(CompileError::Unsupported("control flow".to_owned()));
        } else {
            return Err(CompileError::Unsupported("instruction".to_owned()));
        };
        instrs.push(ins);
    }
}

/// Check every validation rule that can be read off the assembled
/// module: index ranges, limit consistency, initializer typing,
/// export uniqueness, start-function signature and body validity.
/// The caller passes the imported globals' types as collected during
/// decoding.
/// Decode, validate and assemble a module from a WebAssembly binary,
/// interning its declared types through the session registry.
#[verifier::loop_isolation(false)]
#[verifier::rlimit(100)]
pub fn compile_wasm(wasm: &[u8], registry: &mut SignatureRegistry) -> (r: Result<
    Module,
    CompileError,
>)
    requires
        old(registry).wf(),
    ensures
        final(registry).wf(),
        old(registry)@.len() <= final(registry)@.len(),
        forall|k: int| 0 <= k < old(registry)@.len() ==> final(registry)@[k] == old(registry)@[k],
        r matches Ok(m) ==> m.wf(final(registry)@),
{
    let b = wasm;
    if b.len() < 8 {
        return Err(CompileError::Malformed);
    }
    if b[0] != 0x00 || b[1] != 0x61 || b[2] != 0x73 || b[3] != 0x6d || b[4] != 0x01 || b[5] != 0x00
        || b[6] != 0x00 || b[7] != 0x00 {
        return Err(CompileError::Malformed);
    }
    let mut pos: usize = 8;
    let mut last_section: u8 = 0;
    let mut types: Vec<FuncSig> = Vec::new();
    let mut imports: Vec<ImportDecl> = Vec::new();
    let mut imported_func_tis: Vec<u32> = Vec::new();
    let mut imported_globs: Vec<(ValType, bool)> = Vec::new();
    let mut imported_mem_limits: Vec<Limits> = Vec::new();
    let mut imported_tab_limits: Vec<Limits> = Vec::new();
    let mut local_func_tis: Vec<u32> = Vec::new();
    let mut tables: Vec<Limits> = Vec::new();
    let mut memories: Vec<Limits> = Vec::new();
    let mut globals: Vec<GlobalDecl> = Vec::new();
    let mut exports: Vec<ExportDecl> = Vec::new();
    let mut data: Vec<DataSeg> = Vec::new();
    let mut elems: Vec<ElemSeg> = Vec::new();
    let mut start: Option<u32> = None;
    let mut code: Vec<FuncBody> = Vec::new();
    while pos < b.len()
        invariant
            pos <= b@.len(),
            registry.wf(),
            old(registry)@.len() <= registry@.len(),
            forall|k: int|
                0 <= k < old(registry)@.len() ==> registry@[k] == old(registry)@[k],
            imported_func_tis@ == funcs_of_imports(imports@),
            imported_globs@ == globals_of_imports(imports@),
            imported_mem_limits@ == mems_of_imports(imports@),
            imported_tab_limits@ == tables_of_imports(imports@),
        decreases b@.len() - pos,
    {
        let id = match read_byte(b, &mut pos) {
            Ok(v) => v,
            Err(e) => {
                return Err(e);
            },
        };
        let size = match read_u32_leb(b, &mut pos) {
            Ok(v) => v,
            Err(e) => {
                return Err(e);
            },
        };
        if (size as usize) > b.len() - pos {
            return Err(CompileError::Malformed);
        }
        if id != 0 {
            // Non-custom sections must appear at most once, in
            // ascending id order.
            if id <= last_section {
                return Err(CompileError::Malformed);
            }
            last_section = id;
        }
        let sec_end: usize = pos + (size as usize);
        if id == 0 {
            pos = sec_end;
        } else if id == 1 {
            let cnt = match read_u32_leb(b, &mut pos) {
                Ok(v) => v,
                Err(e) => {
                    return Err(e);
                },
            };
            let mut c: u32 = 0;
            while c < cnt
                invariant
                    pos <= b@.len(),
                decreases cnt - c,
            {
                match read_functype(b, &mut pos) {
                    Ok(ft) => types.push(ft),
                    Err(e) => {
                        return Err(e);
                    },
                }
                c = c + 1;
            }
        } else if id == 2 {
            let cnt = match read_u32_leb(b, &mut pos) {
                Ok(v) => v,
                Err(e) => {
                    return Err(e);
                },
            };
            let mut c: u32 = 0;
            while c < cnt
                invariant
                    pos <= b@.len(),
                    imported_func_tis@ == funcs_of_imports(imports@),
                    imported_globs@ == globals_of_imports(imports@),
                    imported_mem_limits@ == mems_of_imports(imports@),
                    imported_tab_limits@ == tables_of_imports(imports@),
                decreases cnt - c,
            {
                let mname = match read_bytes_vec(b, &mut pos) {
                    Ok(v) => v,
                    Err(e) => {
                        return Err(e);
                    },
                };
                let iname = match read_bytes_vec(b, &mut pos) {
                    Ok(v) => v,
                    Err(e) => {
                        return Err(e);
                    },
                };
                let kind = match read_byte(b, &mut pos) {
                    Ok(v) => v,
                    Err(e) => {
                        return Err(e);
                    },
                };
                let desc: ImportDesc = if kind == 0x00 {
                    match read_u32_leb(b, &mut pos) {
                        Ok(ti) => ImportDesc::Func(ti),
                        Err(e) => {
                            return Err(e);
                        },
                    }
                } else if kind == 0x01 {
                    let et = match read_byte(b, &mut pos) {
                        Ok(v) => v,
                        Err(e) => {
                            return Err(e);
                        },
                    };
                    if et != 0x70 {
                        return Err(CompileError::Malformed);
                    }
                    match read_limits(b, &mut pos) {
                        Ok(l) => ImportDesc::Table(l),
                        Err(e) => {
                            return Err(e);
                        },
                    }
                } else if kind == 0x02 {
                    match read_limits(b, &mut pos) {
                        Ok(l) => ImportDesc::Memory(l),
                        Err(e) => {
                            return Err(e);
                        },
                    }
                } else if kind == 0x03 {
                    let t = match read_valtype(b, &mut pos) {
                        Ok(v) => v,
                        Err(e) => {
                            return Err(e);
                        },
                    };
                    let mu = match read_byte(b, &mut pos) {
                        Ok(v) => v,
                        Err(e) => {
                            return Err(e);
                        },
                    };
                    if mu > 1 {
                        return Err(CompileError::Malformed);
                    }
                    ImportDesc::Global(t, mu == 1)
                } else {
                    return Err(CompileError::Malformed);
                };
                match desc {
                    ImportDesc::Func(ti) => imported_func_tis.push(ti),
                    ImportDesc::Table(l) => imported_tab_limits.push(l),
                    ImportDesc::Memory(l) => imported_mem_limits.push(l),
                    ImportDesc::Global(t, mu) => imported_globs.push((t, mu)),
                }
                let ghost pre = imports@;
                imports.push(ImportDecl { module: mname, item: iname, desc });
                proof {
                    assert(imports@.drop_last() =~= pre);
                    assert(imported_func_tis@ == funcs_of_imports(imports@));
                    assert(imported_globs@ == globals_of_imports(imports@));
                    assert(imported_mem_limits@ == mems_of_imports(imports@));
                    assert(imported_tab_limits@ == tables_of_imports(imports@));
                }
                c = c + 1;
            }
        } else if id == 3 {
            let cnt = match read_u32_leb(b, &mut pos) {
                Ok(v) => v,
                Err(e) => {
                    return Err(e);
                },
            };
            let mut c: u32 = 0;
            while c < cnt
                invariant
                    pos <= b@.len(),
                decreases cnt - c,
            {
                match read_u32_leb(b, &mut pos) {
                    Ok(ti) => local_func_tis.push(ti),
                    Err(e) => {
                        return Err(e);
                    },
                }
                c = c + 1;
            }
        } else if id == 4 {
            let cnt = match read_u32_leb(b, &mut pos) {
                Ok(v) => v,
                Err(e) => {
                    return Err(e);
                },
            };
            let mut c: u32 = 0;
            while c < cnt
                invariant
                    pos <= b@.len(),
                decreases cnt - c,
            {
                let et = match read_byte(b, &mut pos) {
                    Ok(v) => v,
                    Err(e) => {
                        return Err(e);
                    },
                };
                if et != 0x70 {
                    return Err(CompileError::Malformed);
                }
                match read_limits(b, &mut pos) {
                    Ok(l) => tables.push(l),
                    Err(e) => {
                        return Err(e);
                    },
                }
                c = c + 1;
            }
        } else if id == 5 {
            let cnt = match read_u32_leb(b, &mut pos) {
                Ok(v) => v,
                Err(e) => {
                    return Err(e);
                },
            };
            let mut c: u32 = 0;
            while c < cnt
                invariant
                    pos <= b@.len(),
                decreases cnt - c,
            {
                match read_limits(b, &mut pos) {
                    Ok(l) => memories.push(l),
                    Err(e) => {
                        return Err(e);
                    },
                }
                c = c + 1;
            }
        } else if id == 6 {
            let cnt = match read_u32_leb(b, &mut pos) {
                Ok(v) => v,
                Err(e) => {
                    return Err(e);
                },
            };
            let mut c: u32 = 0;
            while c < cnt
                invariant
                    pos <= b@.len(),
                decreases cnt - c,
            {
                let t = match read_valtype(b, &mut pos) {
                    Ok(v) => v,
                    Err(e) => {
                        return Err(e);
                    },
                };
                let mu = match read_byte(b, &mut pos) {
                    Ok(v) => v,
                    Err(e) => {
                        return Err(e);
                    },
                };
                if mu > 1 {
                    return Err(CompileError::Malformed);
                }
                match read_const_expr(b, &mut pos) {
                    Ok(init) => globals.push(GlobalDecl { ty: t, mutable: mu == 1, init }),
                    Err(e) => {
                        return Err(e);
                    },
                }
                c = c + 1;
            }
        } else if id == 7 {
            let cnt = match read_u32_leb(b, &mut pos) {
                Ok(v) => v,
                Err(e) => {
                    return Err(e);
                },
            };
            let mut c: u32 = 0;
            while c < cnt
                invariant
                    pos <= b@.len(),
                decreases cnt - c,
            {
                let name = match read_bytes_vec(b, &mut pos) {
                    Ok(v) => v,
                    Err(e) => {
                        return Err(e);
                    },
                };
                let kind = match read_byte(b, &mut pos) {
                    Ok(v) => v,
                    Err(e) => {
                        return Err(e);
                    },
                };
                let idx = match read_u32_leb(b, &mut pos) {
                    Ok(v) => v,
                    Err(e) => {
                        return Err(e);
                    },
                };
                let desc: ExportDesc = if kind == 0x00 {
                    ExportDesc::Func(idx)
                } else if kind == 0x01 {
                    ExportDesc::Table(idx)
                } else if kind == 0x02 {
                    ExportDesc::Memory(idx)
                } else if kind == 0x03 {
                    ExportDesc::Global(idx)
                } else {
                    return Err(CompileError::Malformed);
                };
                exports.push(ExportDecl { name, desc });
                c = c + 1;
            }
        } else if id == 8 {
            match read_u32_leb(b, &mut pos) {
                Ok(f) => {
                    start = Some(f);
                },
                Err(e) => {
                    return Err(e);
                },
            }
        } else if id == 9 {
            let cnt = match read_u32_leb(b, &mut pos) {
                Ok(v) => v,
                Err(e) => {
                    return Err(e);
                },
            };
            let mut c: u32 = 0;
            while c < cnt
                invariant
                    pos <= b@.len(),
                decreases cnt - c,
            {
                let tidx = match read_u32_leb(b, &mut pos) {
                    Ok(v) => v,
                    Err(e) => {
                        return Err(e);
                    },
                };
                let offset = match read_const_expr(b, &mut pos) {
                    Ok(v) => v,
                    Err(e) => {
                        return Err(e);
                    },
                };
                let fcnt = match read_u32_leb(b, &mut pos) {
                    Ok(v) => v,
                    Err(e) => {
                        return Err(e);
                    },
                };
                let mut funcs: Vec<u32> = Vec::new();
                let mut fc: u32 = 0;
                while fc < fcnt
                    invariant
                        pos <= b@.len(),
                    decreases fcnt - fc,
                {
                    match read_u32_leb(b, &mut pos) {
                        Ok(v) => funcs.push(v),
                        Err(e) => {
                            return Err(e);
                        },
                    }
                    fc = fc + 1;
                }
                elems.push(ElemSeg { table: tidx, offset, funcs });
                c = c + 1;
            }
        } else if id == 10 {
            let cnt = match read_u32_leb(b, &mut pos) {
                Ok(v) => v,
                Err(e) => {
                    return Err(e);
                },
            };
            let mut c: u32 = 0;
            while c < cnt
                invariant
                    pos <= b@.len(),
                decreases cnt - c,
            {
                let _bsize = match read_u32_leb(b, &mut pos) {
                    Ok(v) => v,
                    Err(e) => {
                        return Err(e);
                    },
                };
                let lcnt = match read_u32_leb(b, &mut pos) {
                    Ok(v) => v,
                    Err(e) => {
                        return Err(e);
                    },
                };
                let mut locals: Vec<ValType> = Vec::new();
                let mut lc: u32 = 0;
                while lc < lcnt
                    invariant
                        pos <= b@.len(),
                    decreases lcnt - lc,
                {
                    let n = match read_u32_leb(b, &mut pos) {
                        Ok(v) => v,
                        Err(e) => {
                            return Err(e);
                        },
                    };
                    let t = match read_valtype(b, &mut pos) {
                        Ok(v) => v,
                        Err(e) => {
                            return Err(e);
                        },
                    };
                    if (n as usize) > MAX_LOCALS || locals.len() > MAX_LOCALS {
                        return Err(CompileError::Unsupported("too many locals".to_owned()));
                    }
                    let mut z: u32 = 0;
                    while z < n
                        invariant
                            pos <= b@.len(),
                        decreases n - z,
                    {
                        locals.push(t);
                        z = z + 1;
                    }
                    lc = lc + 1;
                }
                match read_instrs(b, &mut pos) {
                    Ok(instrs) => code.push(FuncBody { locals, instrs }),
                    Err(e) => {
                        return Err(e);
                    },
                }
                c = c + 1;
            }
        } else if id == 11 {
            let cnt = match read_u32_leb(b, &mut pos) {
                Ok(v) => v,
                Err(e) => {
                    return Err(e);
                },
            };
            let mut c: u32 = 0;
            while c < cnt
                invariant
                    pos <= b@.len(),
                decreases cnt - c,
            {
                let midx = match read_u32_leb(b, &mut pos) {
                    Ok(v) => v,
                    Err(e) => {
                        return Err(e);
                    },
                };
                let offset = match read_const_expr(b, &mut pos) {
                    Ok(v) => v,
                    Err(e) => {
                        return Err(e);
                    },
                };
                let bytes = match read_bytes_vec(b, &mut pos) {
                    Ok(v) => v,
                    Err(e) => {
                        return Err(e);
                    },
                };
                data.push(DataSeg { mem: midx, offset, bytes });
                c = c + 1;
            }
        } else {
            return Err(CompileError::Malformed);
        }
        if pos != sec_end {
            return Err(CompileError::Malformed);
        }
    }
    // Assemble: intern the declared types, then lay out the function
    // index space (imported functions first).
    let mut type_handles: Vec<SigHandle> = Vec::new();
    let mut ti: usize = 0;
    while ti < types.len()
        invariant
            registry.wf(),
            old(registry)@.len() <= registry@.len(),
            forall|k: int|
                0 <= k < old(registry)@.len() ==> registry@[k] == old(registry)@[k],
            ti <= types@.len(),
            type_handles@.len() == ti,
            forall|k: int|
                0 <= k < ti ==> {
                    &&& (#[trigger] type_handles@[k]).id < registry@.len()
                    &&& registry@[type_handles@[k].id as int] == types@[k]@
                },
        decreases types@.len() - ti,
    {
        let h = registry.intern(&types[ti]);
        type_handles.push(h);
        ti = ti + 1;
    }
    if imported_func_tis.len() > (u32::MAX as usize) || imported_tab_limits.len() > (
    u32::MAX as usize) || imported_mem_limits.len() > (u32::MAX as usize)
        || imported_globs.len() > (u32::MAX as usize) {
        return Err(CompileError::Unsupported("too many imports".to_owned()));
    }
    let n_imported_funcs: u32 = imported_func_tis.len() as u32;
    let n_imported_tables: u32 = imported_tab_limits.len() as u32;
    let n_imported_memories: u32 = imported_mem_limits.len() as u32;
    let n_imported_globals: u32 = imported_globs.len() as u32;
    if local_func_tis.len() != code.len() {
        return Err(CompileError::Malformed);
    }
    let mut func_type_idx: Vec<u32> = imported_func_tis;
    func_type_idx.append(&mut local_func_tis);
    let m = Module {
        types,
        type_handles,
        imports,
        func_type_idx,
        tables,
        memories,
        globals,
        exports,
        data,
        elems,
        start,
        code,
        n_imported_funcs,
        n_imported_tables,
        n_imported_memories,
        n_imported_globals,
    };
    proof {
        assert(m.func_type_idx@.take(m.n_imported_funcs as int) =~= funcs_of_imports(m.imports@));
        assert(m.wf_types(registry@));
    }
    match validate(&m, &imported_globs) {
        Ok(()) => Ok(m),
        Err(e) => Err(e),
    }
}

fn validation_err() -> CompileError {
    CompileError::Validation("index or limit out of range".to_owned())
}

fn type_err() -> CompileError {
    CompileError::Validation("ill-typed function body".to_owned())
}

/// Pop an operand type, or fail the type check.
fn pop_ty(stack: &mut Vec<ValType>) -> (r: Result<ValType, CompileError>) {
    match stack.pop() {
        Some(t) => Ok(t),
        None => Err(type_err()),
    }
}

/// Pop an operand type and require it to be `want`.
fn expect_ty(stack: &mut Vec<ValType>, want: ValType) -> (r: Result<(), CompileError>) {
    match stack.pop() {
        Some(t) => {
            if t == want {
                Ok(())
            } else {
                Err(type_err())
            }
        },
        None => Err(type_err()),
    }
}

/// Check one body against the WebAssembly stack type discipline:
/// every instruction finds operands of the right types, and the final
/// stack is exactly the function's result list. Code after an
/// `unreachable` is accepted, as its stack type is polymorphic.
/// All index accesses are re-checked defensively, so this check is
/// meaningful on its own and total on any input.
fn check_body_types(m: &Module, imported_globs: &Vec<(ValType, bool)>, ti: u32, body: &FuncBody)
    -> (r: Result<(), CompileError>)
    requires
        ti < m.types@.len(),
{
    let mut locs: Vec<ValType> = Vec::new();
    let mut i: usize = 0;
    let params = &m.types[ti as usize].params;
    while i < params.len()
        invariant
            i <= params@.len(),
        decreases params@.len() - i,
    {
        locs.push(params[i]);
        i = i + 1;
    }
    let mut i2: usize = 0;
    while i2 < body.locals.len()
        invariant
            i2 <= body.locals@.len(),
        decreases body.locals@.len() - i2,
    {
        locs.push(body.locals[i2]);
        i2 = i2 + 1;
    }
    let mut stack: Vec<ValType> = Vec::new();
    let mut pc: usize = 0;
    let n = body.instrs.len();
    while pc < n
        invariant
            n == body.instrs@.len(),
            ti < m.types@.len(),
        decreases n - pc,
    {
        match body.instrs[pc] {
            Instr::Unreachable => {
                // Polymorphic from here on: nothing after it can be
                // ill-typed in a way that executes.
                return Ok(());
            },
            Instr::Drop => {
                let _ = pop_ty(&mut stack)?;
            },
            Instr::I32Const(_) => {
                stack.push(ValType::I32);
            },
            Instr::I64Const(_) => {
                stack.push(ValType::I64);
            },
            Instr::LocalGet(l) => {
                if (l as usize) >= locs.len() {
                    return Err(type_err());
                }
                stack.push(locs[l as usize]);
            },
            Instr::LocalSet(l) => {
                if (l as usize) >= locs.len() {
                    return Err(type_err());
                }
                expect_ty(&mut stack, locs[l as usize])?;
            },
            Instr::GlobalGet(g) => {
                let gt: ValType = if (g as usize) < imported_globs.len() {
                    imported_globs[g as usize].0
                } else if (g as usize) - imported_globs.len() < m.globals.len() {
                    m.globals[(g as usize) - imported_globs.len()].ty
                } else {
                    return Err(type_err());
                };
                stack.push(gt);
            },
            Instr::GlobalSet(g) => {
                let gt: ValType = if (g as usize) < imported_globs.len() {
                    imported_globs[g as usize].0
                } else if (g as usize) - imported_globs.len() < m.globals.len() {
                    m.globals[(g as usize) - imported_globs.len()].ty
                } else {
                    return Err(type_err());
                };
                expect_ty(&mut stack, gt)?;
            },
            Instr::I32Add | Instr::I32Sub | Instr::I32Mul | Instr::I32DivS | Instr::I32DivU => {
                expect_ty(&mut stack, ValType::I32)?;
                expect_ty(&mut stack, ValType::I32)?;
                stack.push(ValType::I32);
            },
            Instr::I64Add => {
                expect_ty(&mut stack, ValType::I64)?;
                expect_ty(&mut stack, ValType::I64)?;
                stack.push(ValType::I64);
            },
            Instr::I32Load(_) => {
                expect_ty(&mut stack, ValType::I32)?;
                stack.push(ValType::I32);
            },
            Instr::I32Store(_) => {
                expect_ty(&mut stack, ValType::I32)?;
                expect_ty(&mut stack, ValType::I32)?;
            },
            Instr::MemorySize => {
                stack.push(ValType::I32);
            },
            Instr::MemoryGrow => {
                expect_ty(&mut stack, ValType::I32)?;
                stack.push(ValType::I32);
            },
            Instr::Call(f) => {
                if (f as usize) >= m.func_type_idx.len() {
                    return Err(type_err());
                }
                let fti = m.func_type_idx[f as usize];
                if (fti as usize) >= m.types.len() {
                    return Err(type_err());
                }
                apply_sig(&mut stack, &m.types[fti as usize])?;
            },
            Instr::CallIndirect(t2) => {
                if (t2 as usize) >= m.types.len() {
                    return Err(type_err());
                }
                expect_ty(&mut stack, ValType::I32)?;
                apply_sig(&mut stack, &m.types[t2 as usize])?;
            },
        }
        pc = pc + 1;
    }
    // The final stack must be exactly the declared result list.
    let results = &m.types[ti as usize].results;
    if stack.len() != results.len() {
        return Err(type_err());
    }
    let mut k: usize = 0;
    while k < results.len()
        invariant
            k <= results@.len(),
            stack@.len() == results@.len(),
        decreases results@.len() - k,
    {
        if stack[k] != results[k] {
            return Err(type_err());
        }
        k = k + 1;
    }
    Ok(())
}

/// Pop a signature's parameters (last parameter on top) and push its
/// results, as a call does.
fn apply_sig(stack: &mut Vec<ValType>, sig: &FuncSig) -> (r: Result<(), CompileError>) {
    let np = sig.params.len();
    let mut j: usize = 0;
    while j < np
        invariant
            j <= np,
            np == sig.params@.len(),
        decreases np - j,
    {
        expect_ty(stack, sig.params[np - 1 - j])?;
        j = j + 1;
    }
    let mut q: usize = 0;
    while q < sig.results.len()
        invariant
            q <= sig.results@.len(),
        decreases sig.results@.len() - q,
    {
        stack.push(sig.results[q]);
        q = q + 1;
    }
    Ok(())
}

#[verifier::loop_isolation(false)]
#[verifier::rlimit(100)]
fn validate(m: &Module, imported_globs: &Vec<(ValType, bool)>) -> (r: Result<(), CompileError>)
    requires
        m.n_imported_funcs == funcs_of_imports(m.imports@).len(),
        m.n_imported_tables == tables_of_imports(m.imports@).len(),
        m.n_imported_memories == mems_of_imports(m.imports@).len(),
        m.n_imported_globals == globals_of_imports(m.imports@).len(),
        m.func_type_idx@.len() == m.n_imported_funcs + m.code@.len(),
        m.func_type_idx@.take(m.n_imported_funcs as int) == funcs_of_imports(m.imports@),
        imported_globs@ == globals_of_imports(m.imports@),
    ensures
        r is Ok ==> m.wf_struct(),
{
    if m.memories.len() > (u32::MAX as usize) || m.tables.len() > (u32::MAX as usize)
        || m.globals.len() > (u32::MAX as usize) {
        return Err(CompileError::Unsupported("too many declarations".to_owned()));
    }
    let n_funcs: usize = m.func_type_idx.len();
    let n_types: usize = m.types.len();
    let total_mems: u64 = (m.n_imported_memories as u64) + (m.memories.len() as u64);
    let total_tables: u64 = (m.n_imported_tables as u64) + (m.tables.len() as u64);
    let total_globals: u64 = (m.n_imported_globals as u64) + (m.globals.len() as u64);
    proof {
        assert(m.total_mems() == total_mems as int);
        assert(m.total_tables() == total_tables as int);
        assert(m.global_types().len() == total_globals as int);
    }
    if total_mems > 1 || total_tables > 1 {
        return Err(CompileError::Unsupported("multiple memories or tables".to_owned()));
    }
    let mut i: usize = 0;
    while i < n_funcs
        invariant
            forall|k: int|
                0 <= k < i ==> #[trigger] m.func_type_idx@[k] < m.types@.len(),
        decreases n_funcs - i,
    {
        if (m.func_type_idx[i] as usize) >= n_types {
            return Err(validation_err());
        }
        i = i + 1;
    }
    let mut i2: usize = 0;
    while i2 < m.imports.len()
        invariant
            forall|k: int|
                0 <= k < i2 ==> (match (#[trigger] m.imports@[k]).desc {
                    ImportDesc::Func(ti) => ti < m.types@.len(),
                    ImportDesc::Memory(l) => l.valid_spec(MAX_MEMORY_PAGES),
                    ImportDesc::Table(l) => l.valid_spec(MAX_TABLE_ELEMS),
                    ImportDesc::Global(_, _) => true,
                }),
        decreases m.imports@.len() - i2,
    {
        let ok: bool = match &m.imports[i2].desc {
            ImportDesc::Func(ti) => (*ti as usize) < n_types,
            ImportDesc::Memory(l) => l.valid(MAX_MEMORY_PAGES),
            ImportDesc::Table(l) => l.valid(MAX_TABLE_ELEMS),
            ImportDesc::Global(_, _) => true,
        };
        if !ok {
            return Err(validation_err());
        }
        i2 = i2 + 1;
    }
    let mut i3: usize = 0;
    while i3 < m.memories.len()
        invariant
            forall|k: int|
                0 <= k < i3 ==> (#[trigger] m.memories@[k]).valid_spec(MAX_MEMORY_PAGES),
        decreases m.memories@.len() - i3,
    {
        if !m.memories[i3].valid(MAX_MEMORY_PAGES) {
            return Err(CompileError::Unsupported("memory larger than the engine ceiling".to_owned()));
        }
        i3 = i3 + 1;
    }
    let mut i4: usize = 0;
    while i4 < m.tables.len()
        invariant
            forall|k: int|
                0 <= k < i4 ==> (#[trigger] m.tables@[k]).valid_spec(MAX_TABLE_ELEMS),
        decreases m.tables@.len() - i4,
    {
        if !m.tables[i4].valid(MAX_TABLE_ELEMS) {
            return Err(CompileError::Unsupported("table larger than the engine ceiling".to_owned()));
        }
        i4 = i4 + 1;
    }
    let mut i5: usize = 0;
    while i5 < m.globals.len()
        invariant
            forall|k: int|
                0 <= k < i5 ==> m.const_expr_wf(
                    (#[trigger] m.globals@[k]).init,
                    m.globals@[k].ty,
                ),
        decreases m.globals@.len() - i5,
    {
        let g = m.globals[i5];
        let ok: bool = match g.init {
            ConstExpr::I32Const(_) => matches!(g.ty, ValType::I32),
            ConstExpr::I64Const(_) => matches!(g.ty, ValType::I64),
            ConstExpr::GlobalGet(gi) => {
                if (gi as usize) < imported_globs.len() {
                    let p = imported_globs[gi as usize];
                    p.0 == g.ty && p.1 == false
                } else {
                    false
                }
            },
        };
        if !ok {
            return Err(validation_err());
        }
        i5 = i5 + 1;
    }
    let mut i6: usize = 0;
    while i6 < m.exports.len()
        invariant
            forall|k: int| 0 <= k < i6 ==> m.export_wf((#[trigger] m.exports@[k]).desc),
            forall|a: int, b2: int|
                0 <= a < b2 < i6 ==> m.exports@[a].name@ != m.exports@[b2].name@,
        decreases m.exports@.len() - i6,
    {
        let ok: bool = match m.exports[i6].desc {
            ExportDesc::Func(x) => (x as usize) < n_funcs,
            ExportDesc::Table(x) => (x as u64) < total_tables,
            ExportDesc::Memory(x) => (x as u64) < total_mems,
            ExportDesc::Global(x) => (x as u64) < total_globals,
        };
        if !ok {
            return Err(validation_err());
        }
        let mut j: usize = 0;
        while j < i6
            invariant
                j <= i6 < m.exports@.len(),
                forall|a: int| 0 <= a < j ==> m.exports@[a].name@ != m.exports@[i6 as int].name@,
            decreases i6 - j,
        {
            if crate::instance::names_eq(&m.exports[j].name, &m.exports[i6].name) {
                return Err(CompileError::Validation("duplicate export name".to_owned()));
            }
            j = j + 1;
        }
        i6 = i6 + 1;
    }
    match m.start {
        Some(f) => {
            if (f as usize) >= n_funcs {
                return Err(validation_err());
            }
            let ti = m.func_type_idx[f as usize];
            if m.types[ti as usize].params.len() != 0 || m.types[ti as usize].results.len() != 0 {
                return Err(CompileError::Validation("start function must take and return nothing".to_owned()));
            }
        },
        None => {},
    }
    let mut i7: usize = 0;
    while i7 < m.code.len()
        invariant
            forall|k: int| 0 <= k < i7 ==> #[trigger] m.body_wf(k),
        decreases m.code@.len() - i7,
    {
        let ti = m.func_type_idx[(m.n_imported_funcs as usize) + i7];
        let body = &m.code[i7];
        if body.locals.len() > MAX_LOCALS || m.types[ti as usize].params.len() > MAX_LOCALS {
            return Err(CompileError::Unsupported("too many locals".to_owned()));
        }
        let nlocals: u64 = (m.types[ti as usize].params.len() as u64) + (body.locals.len() as u64);
        let mut j: usize = 0;
        while j < body.instrs.len()
            invariant
                ti == m.func_type_idx@[m.n_imported_funcs + i7],
                i7 < m.code@.len(),
                body == m.code@[i7 as int],
                nlocals == m.types@[ti as int].params@.len() + body.locals@.len(),
                forall|k: int|
                    0 <= k < j ==> m.instr_wf(
                        nlocals as int,
                        #[trigger] body.instrs@[k],
                    ),
            decreases body.instrs@.len() - j,
        {
            let ok: bool = match body.instrs[j] {
                Instr::LocalGet(l) => (l as u64) < nlocals,
                Instr::LocalSet(l) => (l as u64) < nlocals,
                Instr::GlobalGet(g) => (g as u64) < total_globals,
                Instr::GlobalSet(g) => {
                    if (g as u64) < total_globals {
                        let mu: bool = if (g as usize) < imported_globs.len() {
                            imported_globs[g as usize].1
                        } else {
                            m.globals[(g as usize) - imported_globs.len()].mutable
                        };
                        proof {
                            assert(m.global_types()[g as int].1 == mu);
                        }
                        mu
                    } else {
                        false
                    }
                },
                Instr::I32Load(_) => total_mems >= 1,
                Instr::I32Store(_) => total_mems >= 1,
                Instr::MemorySize => total_mems >= 1,
                Instr::MemoryGrow => total_mems >= 1,
                Instr::Call(f2) => (f2 as usize) < n_funcs,
                Instr::CallIndirect(t2) => (t2 as usize) < n_types && total_tables >= 1,
                _ => true,
            };
            if !ok {
                return Err(validation_err());
            }
            j = j + 1;
        }
        match check_body_types(m, imported_globs, ti, body) {
            Ok(()) => {},
            Err(e) => {
                return Err(e);
            },
        }
        i7 = i7 + 1;
    }
    let mut i8: usize = 0;
    while i8 < m.data.len()
        invariant
            forall|k: int|
                0 <= k < i8 ==> {
                    &&& (#[trigger] m.data@[k]).mem < m.total_mems()
                    &&& m.const_expr_wf(m.data@[k].offset, ValType::I32)
                },
        decreases m.data@.len() - i8,
    {
        let seg = &m.data[i8];
        if (seg.mem as u64) >= total_mems {
            return Err(validation_err());
        }
        let offok: bool = match seg.offset {
            ConstExpr::I32Const(_) => true,
            ConstExpr::I64Const(_) => false,
            ConstExpr::GlobalGet(gi) => {
                if (gi as usize) < imported_globs.len() {
                    let p = imported_globs[gi as usize];
                    matches!(p.0, ValType::I32) && p.1 == false
                } else {
                    false
                }
            },
        };
        if !offok {
            return Err(validation_err());
        }
        i8 = i8 + 1;
    }
    let mut i9: usize = 0;
    while i9 < m.elems.len()
        invariant
            forall|k: int|
                0 <= k < i9 ==> {
                    &&& (#[trigger] m.elems@[k]).table < m.total_tables()
                    &&& m.const_expr_wf(m.elems@[k].offset, ValType::I32)
                    &&& forall|q: int|
                        0 <= q < m.elems@[k].funcs@.len() ==> #[trigger] m.elems@[k].funcs@[q]
                            < m.total_funcs()
                },
        decreases m.elems@.len() - i9,
    {
        let seg = &m.elems[i9];
        if (seg.table as u64) >= total_tables {
            return Err(validation_err());
        }
        let offok: bool = match seg.offset {
            ConstExpr::I32Const(_) => true,
            ConstExpr::I64Const(_) => false,
            ConstExpr::GlobalGet(gi) => {
                if (gi as usize) < imported_globs.len() {
                    let p = imported_globs[gi as usize];
                    matches!(p.0, ValType::I32) && p.1 == false
                } else {
                    false
                }
            },
        };
        if !offok {
            return Err(validation_err());
        }
        let mut q: usize = 0;
        while q < seg.funcs.len()
            invariant
                seg == m.elems@[i9 as int],
                i9 < m.elems@.len(),
                forall|x: int| 0 <= x < q ==> #[trigger] seg.funcs@[x] < m.total_funcs(),
            decreases seg.funcs@.len() - q,
        {
            if (seg.funcs[q] as usize) >= n_funcs {
                return Err(validation_err());
            }
            q = q + 1;
        }
        i9 = i9 + 1;
    }
    Ok(())
}

} // verus!
