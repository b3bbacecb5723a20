//! The interpreter that runs lowered function bodies against an
//! instance's backing storage, and its specification: `spec_exec`
//! defines one complete call as a mathematical function of the
//! module, the storage, the arguments and the call-depth budget, and
//! `exec_func` is proved to return exactly that.
//!
//! Execution is defensive: conditions that a validated module can
//! never reach (operand-stack underflow, out-of-range indices)
//! surface as `Trap::Unreachable` instead of aborting the host, so no
//! input can make the engine panic. Host-provided function imports
//! carry no executable behavior in this core; calling one traps with
//! `Trap::HostRequested`.
use vstd::prelude::*;

use crate::backing::Backing;
use crate::backing::BackingV;
use crate::memory::MemV;
use crate::module::Instr;
use crate::module::Module;
use crate::types::zero_of_spec;
use crate::types::Trap;
use crate::types::Val;
use crate::types::ValType;
use crate::types::PAGE_SIZE;

verus! {

/// Bound on nested call depth; exceeding it traps with
/// `Trap::StackOverflow`.
pub const CALL_DEPTH_BUDGET: u64 = 1024;

/// How execution may change backing storage: every memory and table
/// keeps its recorded maximum and only ever grows (growth is
/// monotonic; nothing shrinks or reallocates smaller).
pub open spec fn bk_evolves(pre: &Backing, post: &Backing) -> bool {
    &&& forall|j: int|
        0 <= j < pre.memories@.len() ==> {
            &&& (#[trigger] post.memories@[j]).max_pages == pre.memories@[j].max_pages
            &&& post.memories@[j].pages >= pre.memories@[j].pages
        }
    &&& forall|j: int|
        0 <= j < pre.tables@.len() ==> {
            &&& (#[trigger] post.tables@[j]).max_elems == pre.tables@[j].max_elems
            &&& post.tables@[j].elems@.len() >= pre.tables@[j].elems@.len()
        }
}

/// The signed value with the same 32 bits as `u`.
pub open spec fn i32_of_u32(u: u32) -> i32 {
    if u < 0x8000_0000 {
        u as i32
    } else {
        (u as int - 0x1_0000_0000) as i32
    }
}

/// The unsigned value with the same 32 bits as `v`.
pub open spec fn u32_of_i32(v: i32) -> u32 {
    if v >= 0 {
        v as u32
    } else {
        (v as int + 0x1_0000_0000) as u32
    }
}

/// Zero-initialized locals for the given declared types.
pub open spec fn zero_locals(ts: Seq<ValType>) -> Seq<Val> {
    ts.map_values(|t: ValType| zero_of_spec(t))
}

/// Top of the operand stack as an i32, if it is one.
pub open spec fn top_i32(stack: Seq<Val>) -> Option<i32> {
    if stack.len() >= 1 {
        match stack.last() {
            Val::I32(v) => Some(v),
            Val::I64(_) => None,
        }
    } else {
        None
    }
}

/// Top of the operand stack as an i64, if it is one.
pub open spec fn top_i64(stack: Seq<Val>) -> Option<i64> {
    if stack.len() >= 1 {
        match stack.last() {
            Val::I64(v) => Some(v),
            Val::I32(_) => None,
        }
    } else {
        None
    }
}

/// Reinterpret the bits of an unsigned 32-bit value as signed.
pub fn u32_bits_to_i32(u: u32) -> (r: i32)
    ensures
        r == i32_of_u32(u),
        r as int == (if u < 0x8000_0000 {
            u as int
        } else {
            u as int - 0x1_0000_0000
        }),
{
    if u < 0x8000_0000 {
        u as i32
    } else {
        ((u as i64) - 0x1_0000_0000i64) as i32
    }
}

/// Reinterpret the bits of a signed 32-bit value as unsigned.
pub fn i32_bits_to_u32(v: i32) -> (r: u32)
    ensures
        r == u32_of_i32(v),
        r as int == (if v >= 0 {
            v as int
        } else {
            v as int + 0x1_0000_0000
        }),
{
    if v >= 0 {
        v as u32
    } else {
        ((v as i64) + 0x1_0000_0000i64) as u32
    }
}

/// Pop one value; underflow is a defensive trap.
fn pop_val(stack: &mut Vec<Val>) -> (r: Result<Val, Trap>)
    ensures
        match r {
            Ok(v) => old(stack)@.len() >= 1 && v == old(stack)@.last() && final(stack)@ == old(
                stack,
            )@.drop_last(),
            Err(t) => t == Trap::Unreachable && old(stack)@.len() == 0 && final(stack)@ == old(
                stack,
            )@,
        },
{
    match stack.pop() {
        Some(v) => Ok(v),
        None => Err(Trap::Unreachable),
    }
}

/// Pop an i32 operand; a value of another type is a defensive trap.
fn pop_i32(stack: &mut Vec<Val>) -> (r: Result<i32, Trap>)
    ensures
        match r {
            Ok(v) => top_i32(old(stack)@) == Some(v) && final(stack)@ == old(stack)@.drop_last(),
            Err(t) => t == Trap::Unreachable && top_i32(old(stack)@) is None,
        },
{
    match stack.pop() {
        Some(Val::I32(v)) => Ok(v),
        Some(_) => Err(Trap::Unreachable),
        None => Err(Trap::Unreachable),
    }
}

/// Pop an i64 operand; a value of another type is a defensive trap.
fn pop_i64(stack: &mut Vec<Val>) -> (r: Result<i64, Trap>)
    ensures
        match r {
            Ok(v) => top_i64(old(stack)@) == Some(v) && final(stack)@ == old(stack)@.drop_last(),
            Err(t) => t == Trap::Unreachable && top_i64(old(stack)@) is None,
        },
{
    match stack.pop() {
        Some(Val::I64(v)) => Ok(v),
        Some(_) => Err(Trap::Unreachable),
        None => Err(Trap::Unreachable),
    }
}

/// Pop `n` values, returning them in the order they were pushed.
fn pop_many(stack: &mut Vec<Val>, n: usize) -> (r: Result<Vec<Val>, Trap>)
    ensures
        match r {
            Ok(vals) => {
                &&& old(stack)@.len() >= n
                &&& vals@ == old(stack)@.skip(old(stack)@.len() - n as int)
                &&& final(stack)@ == old(stack)@.take(old(stack)@.len() - n as int)
            },
            Err(t) => t == Trap::Unreachable && old(stack)@.len() < n,
        },
{
    let mut tmp: Vec<Val> = Vec::new();
    let mut j: usize = 0;
    while j < n
        invariant
            j <= n,
            tmp@.len() == j,
            j <= old(stack)@.len(),
            stack@ == old(stack)@.take(old(stack)@.len() - j as int),
            forall|q: int| 0 <= q < j ==> tmp@[q] == old(stack)@[old(stack)@.len() - 1 - q],
        decreases n - j,
    {
        match stack.pop() {
            Some(v) => {
                proof {
                    assert(stack@ =~= old(stack)@.take(old(stack)@.len() - (j + 1)));
                }
                tmp.push(v);
            },
            None => {
                return Err(Trap::Unreachable);
            },
        }
        j = j + 1;
    }
    let mut out: Vec<Val> = Vec::new();
    let mut k: usize = 0;
    while k < n
        invariant
            k <= n,
            n <= old(stack)@.len(),
            tmp@.len() == n,
            out@.len() == k,
            forall|q: int| 0 <= q < n ==> tmp@[q] == old(stack)@[old(stack)@.len() - 1 - q],
            forall|q: int| 0 <= q < k ==> out@[q] == old(stack)@[old(stack)@.len() - n + q],
        decreases n - k,
    {
        out.push(tmp[n - 1 - k]);
        k = k + 1;
    }
    proof {
        assert(out@ =~= old(stack)@.skip(old(stack)@.len() - n as int));
    }
    Ok(out)
}

/// One complete call of function `func`: the result (or trap) and the
/// backing storage after it, as a mathematical function of the
/// module, the storage before it, the arguments and the remaining
/// call-depth budget.
pub open spec fn spec_exec(m: &Module, bk: BackingV, func: u32, args: Seq<Val>, fuel: u64) -> (
    Result<Seq<Val>, Trap>,
    BackingV,
)
    decreases fuel, 1int, 0int,
{
    if fuel == 0 {
        (Err(Trap::StackOverflow), bk)
    } else if func < m.n_imported_funcs {
        (Err(Trap::HostRequested), bk)
    } else if func >= m.func_type_idx@.len() {
        (Err(Trap::Unreachable), bk)
    } else if m.func_type_idx@[func as int] >= m.types@.len() {
        (Err(Trap::Unreachable), bk)
    } else if func - m.n_imported_funcs >= m.code@.len() {
        (Err(Trap::Unreachable), bk)
    } else {
        let ti = m.func_type_idx@[func as int] as int;
        let body = m.code@[func - m.n_imported_funcs];
        if args.len() != m.types@[ti].params@.len() {
            (Err(Trap::Unreachable), bk)
        } else {
            spec_run(
                m,
                body.instrs@,
                m.types@[ti].results@.len() as int,
                bk,
                args + zero_locals(body.locals@),
                Seq::empty(),
                0,
                fuel,
            )
        }
    }
}

/// Run the instruction sequence from `pc` to the end, then pop the
/// declared results. The specification of the interpreter's main
/// loop.
pub open spec fn spec_run(
    m: &Module,
    instrs: Seq<Instr>,
    nresults: int,
    bk: BackingV,
    locals: Seq<Val>,
    stack: Seq<Val>,
    pc: int,
    fuel: u64,
) -> (Result<Seq<Val>, Trap>, BackingV)
    decreases fuel, 0int, instrs.len() - pc
        when fuel >= 1
{
    if pc < 0 || pc >= instrs.len() {
        if stack.len() < nresults {
            (Err(Trap::Unreachable), bk)
        } else {
            (Ok(stack.skip(stack.len() - nresults)), bk)
        }
    } else {
        match instrs[pc] {
            Instr::Unreachable => (Err(Trap::Unreachable), bk),
            Instr::Drop => {
                if stack.len() == 0 {
                    (Err(Trap::Unreachable), bk)
                } else {
                    spec_run(m, instrs, nresults, bk, locals, stack.drop_last(), pc + 1, fuel)
                }
            },
            Instr::I32Const(c) => spec_run(
                m,
                instrs,
                nresults,
                bk,
                locals,
                stack.push(Val::I32(c)),
                pc + 1,
                fuel,
            ),
            Instr::I64Const(c) => spec_run(
                m,
                instrs,
                nresults,
                bk,
                locals,
                stack.push(Val::I64(c)),
                pc + 1,
                fuel,
            ),
            Instr::LocalGet(l) => {
                if l >= locals.len() {
                    (Err(Trap::Unreachable), bk)
                } else {
                    spec_run(m, instrs, nresults, bk, locals, stack.push(locals[l as int]), pc + 1, fuel)
                }
            },
            Instr::LocalSet(l) => {
                if stack.len() == 0 {
                    (Err(Trap::Unreachable), bk)
                } else if l >= locals.len() {
                    (Err(Trap::Unreachable), bk)
                } else {
                    spec_run(
                        m,
                        instrs,
                        nresults,
                        bk,
                        locals.update(l as int, stack.last()),
                        stack.drop_last(),
                        pc + 1,
                        fuel,
                    )
                }
            },
            Instr::GlobalGet(g) => {
                if g >= bk.globals.len() {
                    (Err(Trap::Unreachable), bk)
                } else {
                    spec_run(
                        m,
                        instrs,
                        nresults,
                        bk,
                        locals,
                        stack.push(bk.globals[g as int]),
                        pc + 1,
                        fuel,
                    )
                }
            },
            Instr::GlobalSet(g) => {
                if stack.len() == 0 {
                    (Err(Trap::Unreachable), bk)
                } else if g >= bk.globals.len() {
                    (Err(Trap::Unreachable), bk)
                } else {
                    spec_run(
                        m,
                        instrs,
                        nresults,
                        BackingV { globals: bk.globals.update(g as int, stack.last()), ..bk },
                        locals,
                        stack.drop_last(),
                        pc + 1,
                        fuel,
                    )
                }
            },
            Instr::I32Add => {
                match (top_i32(stack), top_i32(stack.drop_last())) {
                    (Some(b), Some(a)) => spec_run(
                        m,
                        instrs,
                        nresults,
                        bk,
                        locals,
                        stack.drop_last().drop_last().push(Val::I32(a.wrapping_add(b))),
                        pc + 1,
                        fuel,
                    ),
                    _ => (Err(Trap::Unreachable), bk),
                }
            },
            Instr::I32Sub => {
                match (top_i32(stack), top_i32(stack.drop_last())) {
                    (Some(b), Some(a)) => spec_run(
                        m,
                        instrs,
                        nresults,
                        bk,
                        locals,
                        stack.drop_last().drop_last().push(Val::I32(a.wrapping_sub(b))),
                        pc + 1,
                        fuel,
                    ),
                    _ => (Err(Trap::Unreachable), bk),
                }
            },
            Instr::I32Mul => {
                match (top_i32(stack), top_i32(stack.drop_last())) {
                    (Some(b), Some(a)) => spec_run(
                        m,
                        instrs,
                        nresults,
                        bk,
                        locals,
                        stack.drop_last().drop_last().push(Val::I32(a.wrapping_mul(b))),
                        pc + 1,
                        fuel,
                    ),
                    _ => (Err(Trap::Unreachable), bk),
                }
            },
            Instr::I32DivS => {
                match (top_i32(stack), top_i32(stack.drop_last())) {
                    (Some(b), Some(a)) => {
                        if b == 0 {
                            (Err(Trap::IntegerDivideByZero), bk)
                        } else if a as int == -0x8000_0000 && b as int == -1 {
                            (Err(Trap::IntegerOverflow), bk)
                        } else {
                            let ua: u32 = if a >= 0 {
                                a as u32
                            } else {
                                (-(a as int)) as u32
                            };
                            let ub: u32 = if b >= 0 {
                                b as u32
                            } else {
                                (-(b as int)) as u32
                            };
                            let q: u32 = ua / ub;
                            let neg: bool = (a < 0) != (b < 0);
                            let q64: int = if neg {
                                -(q as int)
                            } else {
                                q as int
                            };
                            if q64 > 0x7fff_ffff || q64 < -0x8000_0000 {
                                (Err(Trap::IntegerOverflow), bk)
                            } else {
                                spec_run(
                                    m,
                                    instrs,
                                    nresults,
                                    bk,
                                    locals,
                                    stack.drop_last().drop_last().push(Val::I32(q64 as i32)),
                                    pc + 1,
                                    fuel,
                                )
                            }
                        }
                    },
                    _ => (Err(Trap::Unreachable), bk),
                }
            },
            Instr::I32DivU => {
                match (top_i32(stack), top_i32(stack.drop_last())) {
                    (Some(b), Some(a)) => {
                        if u32_of_i32(b) == 0 {
                            (Err(Trap::IntegerDivideByZero), bk)
                        } else {
                            spec_run(
                                m,
                                instrs,
                                nresults,
                                bk,
                                locals,
                                stack.drop_last().drop_last().push(
                                    Val::I32(i32_of_u32(u32_of_i32(a) / u32_of_i32(b))),
                                ),
                                pc + 1,
                                fuel,
                            )
                        }
                    },
                    _ => (Err(Trap::Unreachable), bk),
                }
            },
            Instr::I64Add => {
                match (top_i64(stack), top_i64(stack.drop_last())) {
                    (Some(b), Some(a)) => spec_run(
                        m,
                        instrs,
                        nresults,
                        bk,
                        locals,
                        stack.drop_last().drop_last().push(Val::I64(a.wrapping_add(b))),
                        pc + 1,
                        fuel,
                    ),
                    _ => (Err(Trap::Unreachable), bk),
                }
            },
            Instr::I32Load(off) => {
                match top_i32(stack) {
                    Some(addr) => {
                        if bk.memories.len() == 0 {
                            (Err(Trap::MemoryOutOfBounds), bk)
                        } else {
                            let ea = u32_of_i32(addr) as int + off as int;
                            let mem = bk.memories[0];
                            if ea + 4 > mem.bytes.len() {
                                (Err(Trap::MemoryOutOfBounds), bk)
                            } else {
                                let u = (mem.bytes[ea] as u32) | ((mem.bytes[ea + 1] as u32) << 8u32)
                                    | ((mem.bytes[ea + 2] as u32) << 16u32) | ((mem.bytes[ea
                                    + 3] as u32) << 24u32);
                                spec_run(
                                    m,
                                    instrs,
                                    nresults,
                                    bk,
                                    locals,
                                    stack.drop_last().push(Val::I32(i32_of_u32(u))),
                                    pc + 1,
                                    fuel,
                                )
                            }
                        }
                    },
                    None => (Err(Trap::Unreachable), bk),
                }
            },
            Instr::I32Store(off) => {
                match (top_i32(stack), top_i32(stack.drop_last())) {
                    (Some(v), Some(addr)) => {
                        if bk.memories.len() == 0 {
                            (Err(Trap::MemoryOutOfBounds), bk)
                        } else {
                            let ea = u32_of_i32(addr) as int + off as int;
                            let mem = bk.memories[0];
                            if ea + 4 > mem.bytes.len() {
                                (Err(Trap::MemoryOutOfBounds), bk)
                            } else {
                                let u = u32_of_i32(v);
                                let bytes2 = mem.bytes.update(ea, (u & 0xff) as u8).update(
                                    ea + 1,
                                    ((u >> 8u32) & 0xff) as u8,
                                ).update(ea + 2, ((u >> 16u32) & 0xff) as u8).update(
                                    ea + 3,
                                    ((u >> 24u32) & 0xff) as u8,
                                );
                                spec_run(
                                    m,
                                    instrs,
                                    nresults,
                                    BackingV {
                                        memories: bk.memories.update(
                                            0,
                                            MemV { bytes: bytes2, ..mem },
                                        ),
                                        ..bk
                                    },
                                    locals,
                                    stack.drop_last().drop_last(),
                                    pc + 1,
                                    fuel,
                                )
                            }
                        }
                    },
                    _ => (Err(Trap::Unreachable), bk),
                }
            },
            Instr::MemorySize => {
                if bk.memories.len() == 0 {
                    (Err(Trap::MemoryOutOfBounds), bk)
                } else {
                    spec_run(
                        m,
                        instrs,
                        nresults,
                        bk,
                        locals,
                        stack.push(Val::I32(bk.memories[0].pages as i32)),
                        pc + 1,
                        fuel,
                    )
                }
            },
            Instr::MemoryGrow => {
                match top_i32(stack) {
                    Some(n) => {
                        if bk.memories.len() == 0 {
                            (Err(Trap::MemoryOutOfBounds), bk)
                        } else if n < 0 {
                            spec_run(
                                m,
                                instrs,
                                nresults,
                                bk,
                                locals,
                                stack.drop_last().push(Val::I32(-1i32)),
                                pc + 1,
                                fuel,
                            )
                        } else {
                            let mem = bk.memories[0];
                            if mem.pages + n as u32 > mem.max_pages {
                                spec_run(
                                    m,
                                    instrs,
                                    nresults,
                                    bk,
                                    locals,
                                    stack.drop_last().push(Val::I32(-1i32)),
                                    pc + 1,
                                    fuel,
                                )
                            } else {
                                let mem2 = MemV {
                                    bytes: mem.bytes + Seq::new(
                                        n as nat * PAGE_SIZE as nat,
                                        |i: int| 0u8,
                                    ),
                                    pages: (mem.pages + n as u32) as u32,
                                    max_pages: mem.max_pages,
                                };
                                spec_run(
                                    m,
                                    instrs,
                                    nresults,
                                    BackingV { memories: bk.memories.update(0, mem2), ..bk },
                                    locals,
                                    stack.drop_last().push(Val::I32(mem.pages as i32)),
                                    pc + 1,
                                    fuel,
                                )
                            }
                        }
                    },
                    None => (Err(Trap::Unreachable), bk),
                }
            },
            Instr::Call(f) => {
                if f >= m.func_type_idx@.len() {
                    (Err(Trap::Unreachable), bk)
                } else if m.func_type_idx@[f as int] >= m.types@.len() {
                    (Err(Trap::Unreachable), bk)
                } else {
                    let np = m.types@[m.func_type_idx@[f as int] as int].params@.len() as int;
                    if stack.len() < np {
                        (Err(Trap::Unreachable), bk)
                    } else {
                        let sub = spec_exec(
                            m,
                            bk,
                            f,
                            stack.skip(stack.len() - np),
                            (fuel - 1) as u64,
                        );
                        match sub.0 {
                            Err(t) => (Err(t), sub.1),
                            Ok(vals) => spec_run(
                                m,
                                instrs,
                                nresults,
                                sub.1,
                                locals,
                                stack.take(stack.len() - np) + vals,
                                pc + 1,
                                fuel,
                            ),
                        }
                    }
                }
            },
            Instr::CallIndirect(ti_site) => {
                match top_i32(stack) {
                    Some(idx) => {
                        if bk.tables.len() == 0 {
                            (Err(Trap::TableOutOfBounds), bk)
                        } else if ti_site >= m.type_handles@.len() {
                            (Err(Trap::Unreachable), bk)
                        } else {
                            let rest = stack.drop_last();
                            let tidx = u32_of_i32(idx);
                            if tidx >= bk.tables[0].slots.len() {
                                (Err(Trap::TableOutOfBounds), bk)
                            } else {
                                match bk.tables[0].slots[tidx as int] {
                                    None => (Err(Trap::IndirectCallTypeMismatch), bk),
                                    Some(fref) => {
                                        if fref.sig != m.type_handles@[ti_site as int] {
                                            (Err(Trap::IndirectCallTypeMismatch), bk)
                                        } else if fref.func >= m.func_type_idx@.len() {
                                            (Err(Trap::Unreachable), bk)
                                        } else if m.func_type_idx@[fref.func as int]
                                            >= m.types@.len() {
                                            (Err(Trap::Unreachable), bk)
                                        } else {
                                            let np = m.types@[m.func_type_idx@[fref.func as int]
                                                as int].params@.len() as int;
                                            if rest.len() < np {
                                                (Err(Trap::Unreachable), bk)
                                            } else {
                                                let sub = spec_exec(
                                                    m,
                                                    bk,
                                                    fref.func,
                                                    rest.skip(rest.len() - np),
                                                    (fuel - 1) as u64,
                                                );
                                                match sub.0 {
                                                    Err(t) => (Err(t), sub.1),
                                                    Ok(vals) => spec_run(
                                                        m,
                                                        instrs,
                                                        nresults,
                                                        sub.1,
                                                        locals,
                                                        rest.take(rest.len() - np) + vals,
                                                        pc + 1,
                                                        fuel,
                                                    ),
                                                }
                                            }
                                        }
                                    },
                                }
                            }
                        }
                    },
                    None => (Err(Trap::Unreachable), bk),
                }
            },
        }
    }
}

/// Execute function `func` of `m` against backing storage `bk` with
/// the given arguments and remaining call-depth budget. Returns
/// exactly what `spec_exec` defines, leaves the backing storage
/// exactly as `spec_exec` defines it, and preserves its structural
/// invariant whatever happens, so subsequent calls on the same
/// instance remain valid after a trap.
#[verifier::loop_isolation(false)]
#[verifier::rlimit(100)]
pub fn exec_func(m: &Module, bk: &mut Backing, func: u32, args: Vec<Val>, fuel: u64) -> (r: Result<
    Vec<Val>,
    Trap,
>)
    requires
        old(bk).wf(),
    ensures
        final(bk).wf(),
        final(bk).memories@.len() == old(bk).memories@.len(),
        final(bk).tables@.len() == old(bk).tables@.len(),
        final(bk).globals@.len() == old(bk).globals@.len(),
        bk_evolves(old(bk), final(bk)),
        spec_exec(m, old(bk)@, func, args@, fuel).1 == final(bk)@,
        (match r {
            Ok(v) => spec_exec(m, old(bk)@, func, args@, fuel).0 == Ok::<Seq<Val>, Trap>(v@),
            Err(t) => spec_exec(m, old(bk)@, func, args@, fuel).0 == Err::<Seq<Val>, Trap>(t),
        }),
    decreases fuel,
{
    let ghost goal = spec_exec(m, old(bk)@, func, args@, fuel);
    if fuel == 0 {
        return Err(Trap::StackOverflow);
    }
    if func < m.n_imported_funcs {
        return Err(Trap::HostRequested);
    }
    if (func as usize) >= m.func_type_idx.len() {
        return Err(Trap::Unreachable);
    }
    let ti = m.func_type_idx[func as usize];
    if (ti as usize) >= m.types.len() {
        return Err(Trap::Unreachable);
    }
    let local_idx: usize = (func as usize) - (m.n_imported_funcs as usize);
    if local_idx >= m.code.len() {
        return Err(Trap::Unreachable);
    }
    let body = &m.code[local_idx];
    if args.len() != m.types[ti as usize].params.len() {
        return Err(Trap::Unreachable);
    }
    let nresults = m.types[ti as usize].results.len();
    let ghost args0 = args@;
    let mut locals: Vec<Val> = args;
    let mut li: usize = 0;
    while li < body.locals.len()
        invariant
            li <= body.locals@.len(),
            locals@ == args0 + zero_locals(body.locals@.take(li as int)),
        decreases body.locals@.len() - li,
    {
        locals.push(Val::zero_of(body.locals[li]));
        proof {
            assert(zero_locals(body.locals@.take(li + 1)) =~= zero_locals(
                body.locals@.take(li as int),
            ).push(zero_of_spec(body.locals@[li as int])));
            assert(locals@ =~= args0 + zero_locals(body.locals@.take(li + 1)));
        }
        li = li + 1;
    }
    proof {
        assert(body.locals@.take(body.locals@.len() as int) =~= body.locals@);
    }
    let mut stack: Vec<Val> = Vec::new();
    let n_instrs = body.instrs.len();
    let mut pc: usize = 0;
    proof {
        assert(goal == spec_run(
            m,
            body.instrs@,
            nresults as int,
            old(bk)@,
            locals@,
            stack@,
            0,
            fuel,
        ));
    }
    while pc < n_instrs
        invariant
            bk.wf(),
            bk.memories@.len() == old(bk).memories@.len(),
            bk.tables@.len() == old(bk).tables@.len(),
            bk.globals@.len() == old(bk).globals@.len(),
            bk_evolves(old(bk), bk),
            pc <= n_instrs,
            spec_run(m, body.instrs@, nresults as int, bk@, locals@, stack@, pc as int, fuel)
                == goal,
        decreases n_instrs - pc,
    {
        let ghost pre_bkv = bk@;
        let ghost pre_stack = stack@;
        let ins = body.instrs[pc];
        match ins {
            Instr::Unreachable => {
                return Err(Trap::Unreachable);
            },
            Instr::Drop => {
                let _ = pop_val(&mut stack)?;
            },
            Instr::I32Const(c) => {
                stack.push(Val::I32(c));
            },
            Instr::I64Const(c) => {
                stack.push(Val::I64(c));
            },
            Instr::LocalGet(l) => {
                if (l as usize) >= locals.len() {
                    return Err(Trap::Unreachable);
                }
                stack.push(locals[l as usize]);
            },
            Instr::LocalSet(l) => {
                let v = pop_val(&mut stack)?;
                if (l as usize) >= locals.len() {
                    return Err(Trap::Unreachable);
                }
                locals[l as usize] = v;
            },
            Instr::GlobalGet(g) => {
                if (g as usize) >= bk.globals.len() {
                    return Err(Trap::Unreachable);
                }
                stack.push(bk.globals[g as usize]);
            },
            Instr::GlobalSet(g) => {
                let v = pop_val(&mut stack)?;
                if (g as usize) >= bk.globals.len() {
                    return Err(Trap::Unreachable);
                }
                bk.globals[g as usize] = v;
                proof {
                    assert(bk@ =~= BackingV {
                        globals: pre_bkv.globals.update(g as int, v),
                        ..pre_bkv
                    });
                }
            },
            Instr::I32Add => {
                let b = pop_i32(&mut stack)?;
                let a = pop_i32(&mut stack)?;
                stack.push(Val::I32(a.wrapping_add(b)));
            },
            Instr::I32Sub => {
                let b = pop_i32(&mut stack)?;
                let a = pop_i32(&mut stack)?;
                stack.push(Val::I32(a.wrapping_sub(b)));
            },
            Instr::I32Mul => {
                let b = pop_i32(&mut stack)?;
                let a = pop_i32(&mut stack)?;
                stack.push(Val::I32(a.wrapping_mul(b)));
            },
            Instr::I32DivS => {
                let b2 = pop_i32(&mut stack)?;
                let a = pop_i32(&mut stack)?;
                if b2 == 0 {
                    return Err(Trap::IntegerDivideByZero);
                }
                if a == i32::MIN && b2 == -1 {
                    return Err(Trap::IntegerOverflow);
                }
                let ua: u32 = if a >= 0 {
                    a as u32
                } else {
                    (-(a as i64)) as u32
                };
                let ub: u32 = if b2 >= 0 {
                    b2 as u32
                } else {
                    (-(b2 as i64)) as u32
                };
                let q: u32 = ua / ub;
                let neg: bool = (a < 0) != (b2 < 0);
                let q64: i64 = if neg {
                    -(q as i64)
                } else {
                    q as i64
                };
                if q64 > 0x7fff_ffffi64 || q64 < -0x8000_0000i64 {
                    return Err(Trap::IntegerOverflow);
                }
                stack.push(Val::I32(q64 as i32));
            },
            Instr::I32DivU => {
                let b = pop_i32(&mut stack)?;
                let a = pop_i32(&mut stack)?;
                let bu = i32_bits_to_u32(b);
                if bu == 0 {
                    return Err(Trap::IntegerDivideByZero);
                }
                let au = i32_bits_to_u32(a);
                stack.push(Val::I32(u32_bits_to_i32(au / bu)));
            },
            Instr::I64Add => {
                let b = pop_i64(&mut stack)?;
                let a = pop_i64(&mut stack)?;
                stack.push(Val::I64(a.wrapping_add(b)));
            },
            Instr::I32Load(off) => {
                let addr = pop_i32(&mut stack)?;
                if bk.memories.len() == 0 {
                    return Err(Trap::MemoryOutOfBounds);
                }
                let ea: u64 = (i32_bits_to_u32(addr) as u64) + (off as u64);
                let mem = &bk.memories[0];
                if ea + 4 > (mem.data.len() as u64) {
                    return Err(Trap::MemoryOutOfBounds);
                }
                match mem.read(ea as usize, 4) {
                    Ok(bytes) => {
                        let u: u32 = (bytes[0] as u32) | ((bytes[1] as u32) << 8u32) | ((
                        bytes[2] as u32) << 16u32) | ((bytes[3] as u32) << 24u32);
                        stack.push(Val::I32(u32_bits_to_i32(u)));
                    },
                    Err(t) => {
                        return Err(t);
                    },
                }
            },
            Instr::I32Store(off) => {
                let v = pop_i32(&mut stack)?;
                let addr = pop_i32(&mut stack)?;
                if bk.memories.len() == 0 {
                    return Err(Trap::MemoryOutOfBounds);
                }
                let ea: u64 = (i32_bits_to_u32(addr) as u64) + (off as u64);
                let u = i32_bits_to_u32(v);
                let mut buf: Vec<u8> = Vec::new();
                buf.push(#[verifier::truncate] ((u & 0xff) as u8));
                buf.push(#[verifier::truncate] (((u >> 8u32) & 0xff) as u8));
                buf.push(#[verifier::truncate] (((u >> 16u32) & 0xff) as u8));
                buf.push(#[verifier::truncate] (((u >> 24u32) & 0xff) as u8));
                let mem = &mut bk.memories[0];
                let ghost pre_mem = mem@;
                if ea + 4 > (mem.data.len() as u64) {
                    return Err(Trap::MemoryOutOfBounds);
                }
                match mem.write(ea as usize, &buf) {
                    Ok(()) => {},
                    Err(t) => {
                        proof {
                            assert(false);
                        }
                        return Err(t);
                    },
                }
                proof {
                    let bytes2 = pre_mem.bytes.update(ea as int, (u & 0xff) as u8).update(
                        ea as int + 1,
                        ((u >> 8u32) & 0xff) as u8,
                    ).update(ea as int + 2, ((u >> 16u32) & 0xff) as u8).update(
                        ea as int + 3,
                        ((u >> 24u32) & 0xff) as u8,
                    );
                    assert(bk.memories@[0]@.bytes =~= bytes2);
                    assert(bk@ =~= BackingV {
                        memories: pre_bkv.memories.update(
                            0,
                            MemV { bytes: bytes2, ..pre_bkv.memories[0] },
                        ),
                        ..pre_bkv
                    });
                }
            },
            Instr::MemorySize => {
                if bk.memories.len() == 0 {
                    return Err(Trap::MemoryOutOfBounds);
                }
                let p = bk.memories[0].size();
                proof {
                    assert(bk.memories@[0].wf());
                }
                stack.push(Val::I32(p as i32));
            },
            Instr::MemoryGrow => {
                let n = pop_i32(&mut stack)?;
                if bk.memories.len() == 0 {
                    return Err(Trap::MemoryOutOfBounds);
                }
                if n < 0 {
                    stack.push(Val::I32(-1i32));
                } else {
                    let mem = &mut bk.memories[0];
                    let ghost pre_mem = mem@;
                    match mem.grow(n as u32) {
                        Ok(before) => {
                            proof {
                                let mem2 = MemV {
                                    bytes: pre_mem.bytes + Seq::new(
                                        n as nat * PAGE_SIZE as nat,
                                        |i: int| 0u8,
                                    ),
                                    pages: (pre_mem.pages + n as u32) as u32,
                                    max_pages: pre_mem.max_pages,
                                };
                                assert(bk.memories@[0]@.bytes =~= mem2.bytes);
                                assert(bk@ =~= BackingV {
                                    memories: pre_bkv.memories.update(0, mem2),
                                    ..pre_bkv
                                });
                            }
                            stack.push(Val::I32(before as i32));
                        },
                        Err(_) => {
                            proof {
                                assert(bk@ =~= pre_bkv);
                            }
                            stack.push(Val::I32(-1i32));
                        },
                    }
                }
            },
            Instr::Call(f) => {
                if (f as usize) >= m.func_type_idx.len() {
                    return Err(Trap::Unreachable);
                }
                let fti = m.func_type_idx[f as usize];
                if (fti as usize) >= m.types.len() {
                    return Err(Trap::Unreachable);
                }
                let nparams = m.types[fti as usize].params.len();
                let callargs = pop_many(&mut stack, nparams)?;
                let ghost mid_stack = stack@;
                match exec_func(m, bk, f, callargs, fuel - 1) {
                    Ok(results) => {
                        let mut k: usize = 0;
                        let nres = results.len();
                        while k < nres
                            invariant
                                k <= nres,
                                stack@ == mid_stack + results@.take(k as int),
                            decreases nres - k,
                        {
                            stack.push(results[k]);
                            proof {
                                assert(stack@ =~= mid_stack + results@.take(k + 1));
                            }
                            k = k + 1;
                        }
                        proof {
                            assert(results@.take(nres as int) =~= results@);
                        }
                    },
                    Err(t) => {
                        return Err(t);
                    },
                }
            },
            Instr::CallIndirect(ti_site) => {
                let idx = pop_i32(&mut stack)?;
                if bk.tables.len() == 0 {
                    return Err(Trap::TableOutOfBounds);
                }
                if (ti_site as usize) >= m.type_handles.len() {
                    return Err(Trap::Unreachable);
                }
                let expected = m.type_handles[ti_site as usize];
                let tbl = &bk.tables[0];
                let slot = tbl.get(i32_bits_to_u32(idx))?;
                let fref = crate::table::check_indirect_call(expected, slot)?;
                if (fref.func as usize) >= m.func_type_idx.len() {
                    return Err(Trap::Unreachable);
                }
                let fti = m.func_type_idx[fref.func as usize];
                if (fti as usize) >= m.types.len() {
                    return Err(Trap::Unreachable);
                }
                let nparams = m.types[fti as usize].params.len();
                let callargs = pop_many(&mut stack, nparams)?;
                let ghost mid_stack = stack@;
                match exec_func(m, bk, fref.func, callargs, fuel - 1) {
                    Ok(results) => {
                        let mut k: usize = 0;
                        let nres = results.len();
                        while k < nres
                            invariant
                                k <= nres,
                                stack@ == mid_stack + results@.take(k as int),
                            decreases nres - k,
                        {
                            stack.push(results[k]);
                            proof {
                                assert(stack@ =~= mid_stack + results@.take(k + 1));
                            }
                            k = k + 1;
                        }
                        proof {
                            assert(results@.take(nres as int) =~= results@);
                        }
                    },
                    Err(t) => {
                        return Err(t);
                    },
                }
            },
        }
        pc = pc + 1;
    }
    pop_many(&mut stack, nresults)
}

} // verus!
