use wasm_engine::memory::Memory;
use wasm_engine::sig_registry::FuncSig;
use wasm_engine::sig_registry::SigHandle;
use wasm_engine::sig_registry::SignatureRegistry;
use wasm_engine::table::check_indirect_call;
use wasm_engine::table::FuncRef;
use wasm_engine::table::Table;
use wasm_engine::types::GrowError;
use wasm_engine::types::Limits;
use wasm_engine::types::Trap;
use wasm_engine::types::ValType;

#[test]
fn grow_succeeds_below_maximum_and_returns_old_size() {
    let mut m = Memory::new(&Limits { initial: 1, maximum: Some(3) });
    assert_eq!(m.size(), 1);
    assert_eq!(m.grow(1), Ok(1));
    assert_eq!(m.size(), 2);
    assert_eq!(m.grow(1), Ok(2));
    assert_eq!(m.size(), 3);
    // One page beyond the maximum: all-or-nothing failure.
    assert_eq!(m.grow(1), Err(GrowError::ExceedsMaximum));
    assert_eq!(m.size(), 3);
}

#[test]
fn grow_is_all_or_nothing_at_declared_maximum() {
    // A memory declared with initial=1, maximum=1 page.
    let mut m = Memory::new(&Limits { initial: 1, maximum: Some(1) });
    assert_eq!(m.grow(1), Err(GrowError::ExceedsMaximum));
    assert_eq!(m.size(), 1);
    assert_eq!(m.data.len(), 65536);
    // A write one byte past the end traps rather than growing.
    assert_eq!(m.write(65536, &vec![0u8]), Err(Trap::MemoryOutOfBounds));
}

#[test]
fn grow_zero_fills_new_pages() {
    let mut m = Memory::new(&Limits { initial: 0, maximum: Some(2) });
    assert_eq!(m.write(0, &vec![1u8]), Err(Trap::MemoryOutOfBounds));
    assert_eq!(m.grow(1), Ok(0));
    assert_eq!(m.read(0, 65536).unwrap(), vec![0u8; 65536]);
}

#[test]
fn read_write_succeed_exactly_within_bounds() {
    let mut m = Memory::new(&Limits { initial: 1, maximum: None });
    let payload = vec![1u8, 2, 3, 4];
    // Last in-bounds position for four bytes.
    assert_eq!(m.write(65532, &payload), Ok(()));
    assert_eq!(m.read(65532, 4).unwrap(), payload);
    // One byte further is out of bounds, for write and for read.
    assert_eq!(m.write(65533, &payload), Err(Trap::MemoryOutOfBounds));
    assert_eq!(m.read(65533, 4), Err(Trap::MemoryOutOfBounds));
    // The failed write changed nothing.
    assert_eq!(m.read(65532, 4).unwrap(), payload);
}

#[test]
fn intern_is_a_pure_structural_cache() {
    let mut reg = SignatureRegistry::new();
    let a1 = FuncSig { params: vec![ValType::I32, ValType::I32], results: vec![ValType::I32] };
    let a2 = FuncSig { params: vec![ValType::I32, ValType::I32], results: vec![ValType::I32] };
    let b = FuncSig { params: vec![ValType::I64], results: vec![] };
    let ha1 = reg.intern(&a1);
    let hb = reg.intern(&b);
    // Structurally equal lists give the same handle; differing lists
    // give different handles.
    let ha2 = reg.intern(&a2);
    assert_eq!(ha1, ha2);
    assert_ne!(ha1, hb);
    let resolved = reg.resolve(ha1).unwrap();
    assert!(resolved.sig_eq(&a1));
    assert!(reg.resolve(SigHandle { id: 99 }).is_none());
}

#[test]
fn table_grow_and_null_slots() {
    let mut t = Table::new(&Limits { initial: 1, maximum: Some(2) });
    assert_eq!(t.size(), 1);
    assert_eq!(t.get(0), Ok(None));
    assert_eq!(t.get(1), Err(Trap::TableOutOfBounds));
    assert_eq!(t.grow(1), Ok(1));
    assert_eq!(t.get(1), Ok(None));
    assert_eq!(t.grow(1), Err(GrowError::ExceedsMaximum));
    assert_eq!(t.size(), 2);
    let fr = FuncRef { func: 0, sig: SigHandle { id: 0 } };
    assert_eq!(t.set(1, Some(fr)), Ok(()));
    assert_eq!(t.get(1), Ok(Some(fr)));
    assert_eq!(t.set(2, Some(fr)), Err(Trap::TableOutOfBounds));
}

#[test]
fn indirect_call_checks_signature_handles_exactly() {
    let expected = SigHandle { id: 3 };
    let matching = FuncRef { func: 7, sig: SigHandle { id: 3 } };
    let differing = FuncRef { func: 7, sig: SigHandle { id: 4 } };
    assert_eq!(check_indirect_call(expected, Some(matching)), Ok(matching));
    assert_eq!(
        check_indirect_call(expected, Some(differing)),
        Err(Trap::IndirectCallTypeMismatch)
    );
    // A null slot traps when called through.
    assert_eq!(check_indirect_call(expected, None), Err(Trap::IndirectCallTypeMismatch));
}
