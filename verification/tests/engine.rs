use wasm_engine::compile;
use wasm_engine::instance::Import;
use wasm_engine::instance::ImportValue;
use wasm_engine::instance::Imports;
use wasm_engine::sig_registry::FuncSig;
use wasm_engine::sig_registry::SignatureRegistry;
use wasm_engine::types::CallError;
use wasm_engine::types::CompileError;
use wasm_engine::types::EngineError;
use wasm_engine::types::LinkError;
use wasm_engine::types::Trap;
use wasm_engine::types::Val;
use wasm_engine::BaselineCompiler;

fn header() -> Vec<u8> {
    vec![0x00, 0x61, 0x73, 0x6d, 0x01, 0x00, 0x00, 0x00]
}

fn section(id: u8, contents: &[u8]) -> Vec<u8> {
    let mut out = vec![id, contents.len() as u8];
    out.extend_from_slice(contents);
    out
}

/// `(module (func (export "add") (param i32 i32) (result i32)
///    local.get 0 local.get 1 i32.add))`
fn add_module() -> Vec<u8> {
    let mut b = header();
    b.extend_from_slice(&section(1, &[0x01, 0x60, 0x02, 0x7f, 0x7f, 0x01, 0x7f]));
    b.extend_from_slice(&section(3, &[0x01, 0x00]));
    b.extend_from_slice(&section(7, &[0x01, 0x03, b'a', b'd', b'd', 0x00, 0x00]));
    b.extend_from_slice(&section(
        10,
        &[0x01, 0x07, 0x00, 0x20, 0x00, 0x20, 0x01, 0x6a, 0x0b],
    ));
    b
}

#[test]
fn scenario_add_three_four_yields_seven() {
    let mut reg = SignatureRegistry::new();
    let imports = Imports::new();
    let mut inst = compile(&BaselineCompiler {}, &add_module(), &imports, &mut reg).unwrap();
    let r = inst.call(&b"add".to_vec(), vec![Val::I32(3), Val::I32(4)]).unwrap();
    assert_eq!(r, vec![Val::I32(7)]);
    // The same through the string-argument path.
    let r2 = inst
        .invoke(&b"add".to_vec(), &vec!["3".to_string(), "4".to_string()])
        .unwrap();
    assert_eq!(r2, vec![Val::I32(7)]);
}

#[test]
fn scenario_bad_string_argument_fails_before_execution() {
    let mut reg = SignatureRegistry::new();
    let imports = Imports::new();
    let mut inst = compile(&BaselineCompiler {}, &add_module(), &imports, &mut reg).unwrap();
    let r = inst.invoke(&b"add".to_vec(), &vec!["abc".to_string(), "4".to_string()]);
    assert_eq!(r, Err(CallError::ArgumentType));
    // Typed mismatches are rejected the same way.
    assert_eq!(
        inst.call(&b"add".to_vec(), vec![Val::I32(3)]),
        Err(CallError::ArgumentType)
    );
    assert_eq!(
        inst.call(&b"add".to_vec(), vec![Val::I64(3), Val::I32(4)]),
        Err(CallError::ArgumentType)
    );
    // And the instance stays usable afterwards.
    let r2 = inst.call(&b"add".to_vec(), vec![Val::I32(1), Val::I32(2)]).unwrap();
    assert_eq!(r2, vec![Val::I32(3)]);
}

#[test]
fn scenario_no_such_export() {
    let mut reg = SignatureRegistry::new();
    let imports = Imports::new();
    let mut inst = compile(&BaselineCompiler {}, &add_module(), &imports, &mut reg).unwrap();
    assert_eq!(
        inst.call(&b"sub".to_vec(), vec![]),
        Err(CallError::NoSuchExport)
    );
}

/// A module whose only import is `env.missing_fn`.
fn missing_import_module() -> Vec<u8> {
    let mut b = header();
    b.extend_from_slice(&section(1, &[0x01, 0x60, 0x00, 0x00]));
    b.extend_from_slice(&section(
        2,
        &[
            0x01, 0x03, b'e', b'n', b'v', 0x0a, b'm', b'i', b's', b's', b'i', b'n', b'g', b'_',
            b'f', b'n', 0x00, 0x00,
        ],
    ));
    b
}

#[test]
fn scenario_missing_import_aborts_instantiation() {
    let mut reg = SignatureRegistry::new();
    let imports = Imports::new();
    let r = compile(&BaselineCompiler {}, &missing_import_module(), &imports, &mut reg);
    assert!(matches!(r, Err(EngineError::Link(LinkError::MissingImport))));
    // All-or-nothing: the import set is untouched and still usable to
    // instantiate a module whose imports it does satisfy.
    let mut inst = compile(&BaselineCompiler {}, &add_module(), &imports, &mut reg).unwrap();
    let v = inst.call(&b"add".to_vec(), vec![Val::I32(2), Val::I32(2)]).unwrap();
    assert_eq!(v, vec![Val::I32(4)]);
}

/// `div(a, b) = a / b` (unsigned), which traps on division by zero.
fn div_module() -> Vec<u8> {
    let mut b = header();
    b.extend_from_slice(&section(1, &[0x01, 0x60, 0x02, 0x7f, 0x7f, 0x01, 0x7f]));
    b.extend_from_slice(&section(3, &[0x01, 0x00]));
    b.extend_from_slice(&section(7, &[0x01, 0x03, b'd', b'i', b'v', 0x00, 0x00]));
    b.extend_from_slice(&section(
        10,
        &[0x01, 0x07, 0x00, 0x20, 0x00, 0x20, 0x01, 0x6e, 0x0b],
    ));
    b
}

#[test]
fn divide_by_zero_traps_and_instance_survives() {
    let mut reg = SignatureRegistry::new();
    let imports = Imports::new();
    let mut inst = compile(&BaselineCompiler {}, &div_module(), &imports, &mut reg).unwrap();
    assert_eq!(
        inst.call(&b"div".to_vec(), vec![Val::I32(7), Val::I32(0)]),
        Err(CallError::Trap(Trap::IntegerDivideByZero))
    );
    let r = inst.call(&b"div".to_vec(), vec![Val::I32(7), Val::I32(2)]).unwrap();
    assert_eq!(r, vec![Val::I32(3)]);
}

/// `sdiv(a, b) = a / b` (signed, truncating toward zero).
fn signed_div_module() -> Vec<u8> {
    let mut b = header();
    b.extend_from_slice(&section(1, &[0x01, 0x60, 0x02, 0x7f, 0x7f, 0x01, 0x7f]));
    b.extend_from_slice(&section(3, &[0x01, 0x00]));
    b.extend_from_slice(&section(
        7,
        &[0x01, 0x04, b's', b'd', b'i', b'v', 0x00, 0x00],
    ));
    b.extend_from_slice(&section(
        10,
        &[0x01, 0x07, 0x00, 0x20, 0x00, 0x20, 0x01, 0x6d, 0x0b],
    ));
    b
}

#[test]
fn signed_division_truncates_toward_zero_and_traps_on_overflow() {
    let mut reg = SignatureRegistry::new();
    let imports = Imports::new();
    let mut inst = compile(&BaselineCompiler {}, &signed_div_module(), &imports, &mut reg).unwrap();
    let name = b"sdiv".to_vec();
    assert_eq!(inst.call(&name, vec![Val::I32(7), Val::I32(-2)]).unwrap(), vec![Val::I32(-3)]);
    assert_eq!(inst.call(&name, vec![Val::I32(-7), Val::I32(2)]).unwrap(), vec![Val::I32(-3)]);
    assert_eq!(inst.call(&name, vec![Val::I32(-7), Val::I32(-2)]).unwrap(), vec![Val::I32(3)]);
    assert_eq!(
        inst.call(&name, vec![Val::I32(i32::MIN), Val::I32(-1)]),
        Err(CallError::Trap(Trap::IntegerOverflow))
    );
    assert_eq!(
        inst.call(&name, vec![Val::I32(1), Val::I32(0)]),
        Err(CallError::Trap(Trap::IntegerDivideByZero))
    );
}

/// An exported function that calls itself forever.
fn recursive_module() -> Vec<u8> {
    let mut b = header();
    b.extend_from_slice(&section(1, &[0x01, 0x60, 0x00, 0x00]));
    b.extend_from_slice(&section(3, &[0x01, 0x00]));
    b.extend_from_slice(&section(7, &[0x01, 0x03, b'r', b'e', b'c', 0x00, 0x00]));
    b.extend_from_slice(&section(10, &[0x01, 0x04, 0x00, 0x10, 0x00, 0x0b]));
    b
}

#[test]
fn unbounded_recursion_traps_with_stack_overflow() {
    let mut reg = SignatureRegistry::new();
    let imports = Imports::new();
    let mut inst = compile(&BaselineCompiler {}, &recursive_module(), &imports, &mut reg).unwrap();
    assert_eq!(
        inst.call(&b"rec".to_vec(), vec![]),
        Err(CallError::Trap(Trap::StackOverflow))
    );
}

#[test]
fn calling_a_host_import_traps_as_host_requested() {
    // Imports env.f : () -> () and exports go() that calls it.
    let mut b = header();
    b.extend_from_slice(&section(1, &[0x01, 0x60, 0x00, 0x00]));
    b.extend_from_slice(&section(
        2,
        &[0x01, 0x03, b'e', b'n', b'v', 0x01, b'f', 0x00, 0x00],
    ));
    b.extend_from_slice(&section(3, &[0x01, 0x00]));
    b.extend_from_slice(&section(7, &[0x01, 0x02, b'g', b'o', 0x00, 0x01]));
    b.extend_from_slice(&section(10, &[0x01, 0x04, 0x00, 0x10, 0x00, 0x0b]));
    let mut reg = SignatureRegistry::new();
    let mut imports = Imports::new();
    imports.add(Import {
        module: b"env".to_vec(),
        item: b"f".to_vec(),
        value: ImportValue::Func(FuncSig { params: vec![], results: vec![] }),
    });
    let mut inst = compile(&BaselineCompiler {}, &b, &imports, &mut reg).unwrap();
    assert_eq!(
        inst.call(&b"go".to_vec(), vec![]),
        Err(CallError::Trap(Trap::HostRequested))
    );
}

/// An exported function whose body is a single `unreachable`.
fn boom_module() -> Vec<u8> {
    let mut b = header();
    b.extend_from_slice(&section(1, &[0x01, 0x60, 0x00, 0x00]));
    b.extend_from_slice(&section(3, &[0x01, 0x00]));
    b.extend_from_slice(&section(7, &[0x01, 0x04, b'b', b'o', b'o', b'm', 0x00, 0x00]));
    b.extend_from_slice(&section(10, &[0x01, 0x03, 0x00, 0x00, 0x0b]));
    b
}

#[test]
fn unreachable_traps_without_poisoning_the_instance() {
    let mut reg = SignatureRegistry::new();
    let imports = Imports::new();
    let mut inst = compile(&BaselineCompiler {}, &boom_module(), &imports, &mut reg).unwrap();
    assert_eq!(
        inst.call(&b"boom".to_vec(), vec![]),
        Err(CallError::Trap(Trap::Unreachable))
    );
    assert_eq!(
        inst.call(&b"boom".to_vec(), vec![]),
        Err(CallError::Trap(Trap::Unreachable))
    );
}

/// Two functions of different signatures in a table, and an exported
/// `pick(i)` that does `call_indirect (type () -> i32)` on slot `i`.
fn indirect_module() -> Vec<u8> {
    let mut b = header();
    b.extend_from_slice(&section(
        1,
        &[0x02, 0x60, 0x00, 0x01, 0x7f, 0x60, 0x01, 0x7f, 0x01, 0x7f],
    ));
    b.extend_from_slice(&section(3, &[0x03, 0x00, 0x01, 0x01]));
    b.extend_from_slice(&section(4, &[0x01, 0x70, 0x00, 0x02]));
    b.extend_from_slice(&section(
        7,
        &[0x01, 0x04, b'p', b'i', b'c', b'k', 0x00, 0x02],
    ));
    b.extend_from_slice(&section(9, &[0x01, 0x00, 0x41, 0x00, 0x0b, 0x02, 0x00, 0x01]));
    b.extend_from_slice(&section(
        10,
        &[
            0x03, 0x04, 0x00, 0x41, 0x2a, 0x0b, 0x04, 0x00, 0x20, 0x00, 0x0b, 0x07, 0x00, 0x20,
            0x00, 0x11, 0x00, 0x00, 0x0b,
        ],
    ));
    b
}

#[test]
fn indirect_call_matches_and_mismatches_by_signature() {
    let mut reg = SignatureRegistry::new();
    let imports = Imports::new();
    let mut inst = compile(&BaselineCompiler {}, &indirect_module(), &imports, &mut reg).unwrap();
    // Slot 0 holds a function of the expected type () -> i32.
    let r = inst.call(&b"pick".to_vec(), vec![Val::I32(0)]).unwrap();
    assert_eq!(r, vec![Val::I32(42)]);
    // Slot 1 holds a function of a different type.
    assert_eq!(
        inst.call(&b"pick".to_vec(), vec![Val::I32(1)]),
        Err(CallError::Trap(Trap::IndirectCallTypeMismatch))
    );
    // Past the end of the table.
    assert_eq!(
        inst.call(&b"pick".to_vec(), vec![Val::I32(5)]),
        Err(CallError::Trap(Trap::TableOutOfBounds))
    );
}

/// One memory page initialized by a data segment, and an exported
/// `ld(addr)` that loads a little-endian i32.
fn load_module() -> Vec<u8> {
    let mut b = header();
    b.extend_from_slice(&section(1, &[0x01, 0x60, 0x01, 0x7f, 0x01, 0x7f]));
    b.extend_from_slice(&section(3, &[0x01, 0x00]));
    b.extend_from_slice(&section(5, &[0x01, 0x00, 0x01]));
    b.extend_from_slice(&section(7, &[0x01, 0x02, b'l', b'd', 0x00, 0x00]));
    b.extend_from_slice(&section(
        10,
        &[0x01, 0x07, 0x00, 0x20, 0x00, 0x28, 0x02, 0x00, 0x0b],
    ));
    b.extend_from_slice(&section(
        11,
        &[0x01, 0x00, 0x41, 0x00, 0x0b, 0x04, 0x2a, 0x00, 0x00, 0x00],
    ));
    b
}

#[test]
fn data_segment_is_applied_and_loads_are_bounds_checked() {
    let mut reg = SignatureRegistry::new();
    let imports = Imports::new();
    let mut inst = compile(&BaselineCompiler {}, &load_module(), &imports, &mut reg).unwrap();
    let r = inst.call(&b"ld".to_vec(), vec![Val::I32(0)]).unwrap();
    assert_eq!(r, vec![Val::I32(42)]);
    // Uninitialized memory reads as zero.
    let r2 = inst.call(&b"ld".to_vec(), vec![Val::I32(100)]).unwrap();
    assert_eq!(r2, vec![Val::I32(0)]);
    // One byte past the last full word traps.
    assert_eq!(
        inst.call(&b"ld".to_vec(), vec![Val::I32(65533)]),
        Err(CallError::Trap(Trap::MemoryOutOfBounds))
    );
}

/// A module whose start function hits `unreachable`.
fn trapping_start_module() -> Vec<u8> {
    let mut b = header();
    b.extend_from_slice(&section(1, &[0x01, 0x60, 0x00, 0x00]));
    b.extend_from_slice(&section(3, &[0x01, 0x00]));
    b.extend_from_slice(&section(8, &[0x00]));
    b.extend_from_slice(&section(10, &[0x01, 0x03, 0x00, 0x00, 0x0b]));
    b
}

#[test]
fn trapped_start_function_aborts_instantiation() {
    let mut reg = SignatureRegistry::new();
    let imports = Imports::new();
    let r = compile(&BaselineCompiler {}, &trapping_start_module(), &imports, &mut reg);
    assert!(matches!(
        r,
        Err(EngineError::Link(LinkError::StartTrapped(Trap::Unreachable)))
    ));
}

#[test]
fn malformed_and_unsupported_binaries_are_rejected() {
    let mut reg = SignatureRegistry::new();
    let imports = Imports::new();
    // Bad magic.
    let r = compile(&BaselineCompiler {}, &[0u8; 8], &imports, &mut reg);
    assert!(matches!(r, Err(EngineError::Compile(CompileError::Malformed))));
    // Truncated.
    let r2 = compile(&BaselineCompiler {}, &header()[..4], &imports, &mut reg);
    assert!(matches!(r2, Err(EngineError::Compile(CompileError::Malformed))));
    // A floating-point value type is not implemented by this backend.
    let mut b = header();
    b.extend_from_slice(&section(1, &[0x01, 0x60, 0x01, 0x7d, 0x00]));
    let r3 = compile(&BaselineCompiler {}, &b, &imports, &mut reg);
    assert!(matches!(r3, Err(EngineError::Compile(CompileError::Unsupported(_)))));
}

#[test]
fn container_format_is_checked_strictly() {
    let mut reg = SignatureRegistry::new();
    let imports = Imports::new();
    // Sections out of order: a function section before the type section.
    let mut b = header();
    b.extend_from_slice(&section(3, &[0x01, 0x00]));
    b.extend_from_slice(&section(1, &[0x01, 0x60, 0x00, 0x00]));
    b.extend_from_slice(&section(10, &[0x01, 0x02, 0x00, 0x0b]));
    let r = compile(&BaselineCompiler {}, &b, &imports, &mut reg);
    assert!(matches!(r, Err(EngineError::Compile(CompileError::Malformed))));
    // A repeated section of the same id.
    let mut b2 = header();
    b2.extend_from_slice(&section(1, &[0x01, 0x60, 0x00, 0x00]));
    b2.extend_from_slice(&section(1, &[0x01, 0x60, 0x00, 0x00]));
    let r2 = compile(&BaselineCompiler {}, &b2, &imports, &mut reg);
    assert!(matches!(r2, Err(EngineError::Compile(CompileError::Malformed))));
    // An over-long LEB128 count carrying bits past 32 is malformed,
    // not silently truncated.
    let mut b3 = header();
    b3.extend_from_slice(&section(1, &[0x90, 0x80, 0x80, 0x80, 0x70]));
    let r3 = compile(&BaselineCompiler {}, &b3, &imports, &mut reg);
    assert!(matches!(r3, Err(EngineError::Compile(CompileError::Malformed))));
}

#[test]
fn plus_signed_arguments_are_accepted() {
    let mut reg = SignatureRegistry::new();
    let imports = Imports::new();
    let mut inst = compile(&BaselineCompiler {}, &add_module(), &imports, &mut reg).unwrap();
    let r = inst
        .invoke(&b"add".to_vec(), &vec!["+3".to_string(), "4".to_string()])
        .unwrap();
    assert_eq!(r, vec![Val::I32(7)]);
}

#[test]
fn validation_rejects_ill_typed_bodies() {
    let mut reg = SignatureRegistry::new();
    let imports = Imports::new();
    // () -> (): i32.add with an empty operand stack.
    let mut b = header();
    b.extend_from_slice(&section(1, &[0x01, 0x60, 0x00, 0x00]));
    b.extend_from_slice(&section(3, &[0x01, 0x00]));
    b.extend_from_slice(&section(10, &[0x01, 0x03, 0x00, 0x6a, 0x0b]));
    let r = compile(&BaselineCompiler {}, &b, &imports, &mut reg);
    assert!(matches!(r, Err(EngineError::Compile(CompileError::Validation(_)))));
    // () -> (): leaves an i32 on the stack.
    let mut b2 = header();
    b2.extend_from_slice(&section(1, &[0x01, 0x60, 0x00, 0x00]));
    b2.extend_from_slice(&section(3, &[0x01, 0x00]));
    b2.extend_from_slice(&section(10, &[0x01, 0x04, 0x00, 0x41, 0x00, 0x0b]));
    let r2 = compile(&BaselineCompiler {}, &b2, &imports, &mut reg);
    assert!(matches!(r2, Err(EngineError::Compile(CompileError::Validation(_)))));
    // (i64) -> i64 body used where i32.add needs i32 operands.
    let mut b3 = header();
    b3.extend_from_slice(&section(1, &[0x01, 0x60, 0x02, 0x7e, 0x7e, 0x01, 0x7e]));
    b3.extend_from_slice(&section(3, &[0x01, 0x00]));
    b3.extend_from_slice(&section(
        10,
        &[0x01, 0x07, 0x00, 0x20, 0x00, 0x20, 0x01, 0x6a, 0x0b],
    ));
    let r3 = compile(&BaselineCompiler {}, &b3, &imports, &mut reg);
    assert!(matches!(r3, Err(EngineError::Compile(CompileError::Validation(_)))));
}

#[test]
fn i64_addition_works_through_the_string_path() {
    let mut reg = SignatureRegistry::new();
    let imports = Imports::new();
    // (i64, i64) -> i64: local.get 0; local.get 1; i64.add.
    let mut b = header();
    b.extend_from_slice(&section(1, &[0x01, 0x60, 0x02, 0x7e, 0x7e, 0x01, 0x7e]));
    b.extend_from_slice(&section(3, &[0x01, 0x00]));
    b.extend_from_slice(&section(7, &[0x01, 0x03, b'a', b'd', b'd', 0x00, 0x00]));
    b.extend_from_slice(&section(
        10,
        &[0x01, 0x07, 0x00, 0x20, 0x00, 0x20, 0x01, 0x7c, 0x0b],
    ));
    let mut inst = compile(&BaselineCompiler {}, &b, &imports, &mut reg).unwrap();
    let r = inst
        .invoke(
            &b"add".to_vec(),
            &vec!["-9223372036854775808".to_string(), "-1".to_string()],
        )
        .unwrap();
    // i64.add wraps around.
    assert_eq!(r, vec![Val::I64(i64::MAX)]);
}

#[test]
fn validation_rejects_out_of_range_exports_and_duplicates() {
    let mut reg = SignatureRegistry::new();
    let imports = Imports::new();
    // Export points at function index 1, but there is no function.
    let mut b = header();
    b.extend_from_slice(&section(7, &[0x01, 0x01, b'f', 0x00, 0x01]));
    let r = compile(&BaselineCompiler {}, &b, &imports, &mut reg);
    assert!(matches!(r, Err(EngineError::Compile(CompileError::Validation(_)))));
    // Two exports under one name.
    let mut b2 = header();
    b2.extend_from_slice(&section(1, &[0x01, 0x60, 0x00, 0x00]));
    b2.extend_from_slice(&section(3, &[0x01, 0x00]));
    b2.extend_from_slice(&section(
        7,
        &[0x02, 0x01, b'f', 0x00, 0x00, 0x01, b'f', 0x00, 0x00],
    ));
    b2.extend_from_slice(&section(10, &[0x01, 0x02, 0x00, 0x0b]));
    let r2 = compile(&BaselineCompiler {}, &b2, &imports, &mut reg);
    assert!(matches!(r2, Err(EngineError::Compile(CompileError::Validation(_)))));
}
