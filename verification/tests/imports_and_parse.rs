use wasm_engine::compile;
use wasm_engine::instance::Import;
use wasm_engine::instance::ImportValue;
use wasm_engine::instance::Imports;
use wasm_engine::memory::Memory;
use wasm_engine::parse::parse_i32;
use wasm_engine::parse::parse_i64;
use wasm_engine::sig_registry::FuncSig;
use wasm_engine::sig_registry::SignatureRegistry;
use wasm_engine::types::EngineError;
use wasm_engine::types::Limits;
use wasm_engine::types::LinkError;
use wasm_engine::types::Val;
use wasm_engine::types::ValType;
use wasm_engine::BaselineCompiler;

fn header() -> Vec<u8> {
    vec![0x00, 0x61, 0x73, 0x6d, 0x01, 0x00, 0x00, 0x00]
}

fn section(id: u8, contents: &[u8]) -> Vec<u8> {
    let mut out = vec![id, contents.len() as u8];
    out.extend_from_slice(contents);
    out
}

/// A module importing `env.mem`, a memory of at least 2 pages.
fn mem_import_module() -> Vec<u8> {
    let mut b = header();
    b.extend_from_slice(&section(
        2,
        &[0x01, 0x03, b'e', b'n', b'v', 0x03, b'm', b'e', b'm', 0x02, 0x00, 0x02],
    ));
    b
}

#[test]
fn provided_memory_must_meet_the_required_limits() {
    let mut reg = SignatureRegistry::new();
    // Too small: required initial is 2 pages, provided has 1.
    let mut small = Imports::new();
    small.add(Import {
        module: b"env".to_vec(),
        item: b"mem".to_vec(),
        value: ImportValue::Memory(Memory::new(&Limits { initial: 1, maximum: Some(4) })),
    });
    let r = compile(&BaselineCompiler {}, &mem_import_module(), &small, &mut reg);
    assert!(matches!(r, Err(EngineError::Link(LinkError::IncompatibleImport))));
    // Large enough.
    let mut big = Imports::new();
    big.add(Import {
        module: b"env".to_vec(),
        item: b"mem".to_vec(),
        value: ImportValue::Memory(Memory::new(&Limits { initial: 2, maximum: Some(4) })),
    });
    let r2 = compile(&BaselineCompiler {}, &mem_import_module(), &big, &mut reg);
    assert!(r2.is_ok());
    // Wrong kind entirely.
    let mut wrong = Imports::new();
    wrong.add(Import {
        module: b"env".to_vec(),
        item: b"mem".to_vec(),
        value: ImportValue::Func(FuncSig { params: vec![], results: vec![] }),
    });
    let r3 = compile(&BaselineCompiler {}, &mem_import_module(), &wrong, &mut reg);
    assert!(matches!(r3, Err(EngineError::Link(LinkError::IncompatibleImport))));
}

/// A module importing `env.f` of type (i32) -> i32, exporting a
/// caller for it.
fn func_import_module() -> Vec<u8> {
    let mut b = header();
    b.extend_from_slice(&section(1, &[0x01, 0x60, 0x01, 0x7f, 0x01, 0x7f]));
    b.extend_from_slice(&section(
        2,
        &[0x01, 0x03, b'e', b'n', b'v', 0x01, b'f', 0x00, 0x00],
    ));
    b
}

#[test]
fn function_import_signatures_are_compared_structurally() {
    let mut reg = SignatureRegistry::new();
    let mut good = Imports::new();
    good.add(Import {
        module: b"env".to_vec(),
        item: b"f".to_vec(),
        value: ImportValue::Func(FuncSig {
            params: vec![ValType::I32],
            results: vec![ValType::I32],
        }),
    });
    assert!(compile(&BaselineCompiler {}, &func_import_module(), &good, &mut reg).is_ok());
    let mut bad = Imports::new();
    bad.add(Import {
        module: b"env".to_vec(),
        item: b"f".to_vec(),
        value: ImportValue::Func(FuncSig {
            params: vec![ValType::I64],
            results: vec![ValType::I32],
        }),
    });
    let r = compile(&BaselineCompiler {}, &func_import_module(), &bad, &mut reg);
    assert!(matches!(r, Err(EngineError::Link(LinkError::IncompatibleImport))));
}

/// A module with one immutable i32 global import used as a data
/// segment offset into its own memory.
fn global_offset_module() -> Vec<u8> {
    let mut b = header();
    b.extend_from_slice(&section(
        2,
        &[0x01, 0x03, b'e', b'n', b'v', 0x01, b'g', 0x03, 0x7f, 0x00],
    ));
    b.extend_from_slice(&section(5, &[0x01, 0x00, 0x01]));
    b.extend_from_slice(&section(11, &[0x01, 0x00, 0x23, 0x00, 0x0b, 0x01, 0x2a]));
    b
}

#[test]
fn segment_bounds_use_the_imported_global_offset() {
    let mut reg = SignatureRegistry::new();
    // Offset 10 leaves the one-byte payload inside the single page.
    let mut ok = Imports::new();
    ok.add(Import {
        module: b"env".to_vec(),
        item: b"g".to_vec(),
        value: ImportValue::Global(ValType::I32, false, Val::I32(10)),
    });
    assert!(compile(&BaselineCompiler {}, &global_offset_module(), &ok, &mut reg).is_ok());
    // Offset 65536 puts it one byte past the end.
    let mut oob = Imports::new();
    oob.add(Import {
        module: b"env".to_vec(),
        item: b"g".to_vec(),
        value: ImportValue::Global(ValType::I32, false, Val::I32(65536)),
    });
    let r = compile(&BaselineCompiler {}, &global_offset_module(), &oob, &mut reg);
    assert!(matches!(r, Err(EngineError::Link(LinkError::SegmentOutOfBounds))));
}

#[test]
fn parse_i32_accepts_exactly_the_in_range_literals() {
    assert_eq!(parse_i32("0"), Some(0));
    assert_eq!(parse_i32("42"), Some(42));
    assert_eq!(parse_i32("-1"), Some(-1));
    assert_eq!(parse_i32("2147483647"), Some(2147483647));
    assert_eq!(parse_i32("-2147483648"), Some(-2147483648));
    assert_eq!(parse_i32("2147483648"), None);
    assert_eq!(parse_i32("-2147483649"), None);
    assert_eq!(parse_i32("99999999999999999999999999"), None);
    assert_eq!(parse_i32(""), None);
    assert_eq!(parse_i32("-"), None);
    assert_eq!(parse_i32("12a"), None);
    assert_eq!(parse_i32("abc"), None);
    assert_eq!(parse_i32(" 1"), None);
    assert_eq!(parse_i32("+42"), Some(42));
    assert_eq!(parse_i32("+2147483647"), Some(2147483647));
    assert_eq!(parse_i32("+2147483648"), None);
    assert_eq!(parse_i32("+"), None);
    assert_eq!(parse_i32("+-1"), None);
}

#[test]
fn parse_i64_accepts_exactly_the_in_range_literals() {
    assert_eq!(parse_i64("0"), Some(0));
    assert_eq!(parse_i64("-9223372036854775808"), Some(i64::MIN));
    assert_eq!(parse_i64("9223372036854775807"), Some(i64::MAX));
    assert_eq!(parse_i64("9223372036854775808"), None);
    assert_eq!(parse_i64("-9223372036854775809"), None);
    assert_eq!(parse_i64("123456789012345678901234567890"), None);
    assert_eq!(parse_i64("1-2"), None);
    assert_eq!(parse_i64("+9223372036854775807"), Some(i64::MAX));
    assert_eq!(parse_i64("+9223372036854775808"), None);
}
