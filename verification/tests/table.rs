use runtime_stubs::names;
use runtime_stubs::{find_stub, signature_table, PrimType, StubDescriptor, StubError};

fn expect(name: &str, params: Vec<PrimType>, ret: PrimType) {
    let found = find_stub(name).expect("the table has this name");
    assert_eq!(found.name, name);
    assert_eq!(found.signature.params, params);
    assert_eq!(found.signature.ret, ret);
}

#[test]
fn table_has_twenty_nine_entries_in_order() {
    let table = signature_table();
    let listed: Vec<&str> = table.iter().map(|d| d.name.as_str()).collect();
    assert_eq!(
        listed,
        vec![
            names::INITIALIZE_REGION_STUB,
            names::GET_MEMORY_PTR,
            names::TABLE_ADD,
            names::TABLE_FETCH,
            names::I32_ROTL,
            names::I32_ROTR,
            names::I64_ROTL,
            names::I64_ROTR,
            names::I32_TRUNC_F32,
            names::U32_TRUNC_F32,
            names::I32_TRUNC_F64,
            names::U32_TRUNC_F64,
            names::I64_TRUNC_F32,
            names::U64_TRUNC_F32,
            names::I64_TRUNC_F64,
            names::U64_TRUNC_F64,
            names::F32_TRUNC_F32,
            names::F64_TRUNC_F64,
            names::I32_CLZ,
            names::I64_CLZ,
            names::I32_CTZ,
            names::I64_CTZ,
            names::I32_CTPOP,
            names::I64_CTPOP,
            names::F32_FABS,
            names::F64_FABS,
            names::F32_SQRT,
            names::F64_SQRT,
            names::TRAP,
        ]
    );
}

#[test]
fn table_names_are_spelled_as_published() {
    assert_eq!(names::INITIALIZE_REGION_STUB, "region-initializer");
    assert_eq!(names::GET_MEMORY_PTR, "memory-address-resolver");
    assert_eq!(names::TABLE_ADD, "table-insert");
    assert_eq!(names::TABLE_FETCH, "table-lookup");
    assert_eq!(names::I32_ROTL, "rotate-left-32");
    assert_eq!(names::I32_ROTR, "rotate-right-32");
    assert_eq!(names::I64_ROTL, "rotate-left-64");
    assert_eq!(names::I64_ROTR, "rotate-right-64");
    assert_eq!(names::I32_CLZ, "count-leading-zeros-32");
    assert_eq!(names::I64_CLZ, "count-leading-zeros-64");
    assert_eq!(names::I32_CTZ, "count-trailing-zeros-32");
    assert_eq!(names::I64_CTZ, "count-trailing-zeros-64");
    assert_eq!(names::I32_CTPOP, "population-count-32");
    assert_eq!(names::I64_CTPOP, "population-count-64");
    assert_eq!(names::TRAP, "trap");
}

#[test]
fn table_names_are_distinct() {
    let table = signature_table();
    for (i, a) in table.iter().enumerate() {
        for b in table.iter().skip(i + 1) {
            assert_ne!(a.name, b.name);
        }
    }
}

#[test]
fn trailing_zero_count_has_a_name_of_its_own() {
    assert_ne!(names::I32_CTZ, names::I32_CLZ);
    assert_ne!(names::I64_CTZ, names::I64_CLZ);
}

#[test]
fn no_name_holds_a_nul() {
    for d in signature_table() {
        assert!(!d.name.contains('\0'));
        assert!(!d.name.is_empty());
    }
}

#[test]
fn memory_and_table_stubs() {
    expect(
        names::INITIALIZE_REGION_STUB,
        vec![PrimType::U32, PrimType::U32, PrimType::Ptr],
        PrimType::Void,
    );
    expect(names::GET_MEMORY_PTR, vec![PrimType::U32, PrimType::U32], PrimType::Ptr);
    expect(names::TABLE_ADD, vec![PrimType::U32, PrimType::U32, PrimType::Ptr], PrimType::Void);
    expect(names::TABLE_FETCH, vec![PrimType::U32, PrimType::U32], PrimType::Ptr);
}

#[test]
fn rotation_stubs() {
    expect(names::I32_ROTL, vec![PrimType::U32, PrimType::U32], PrimType::U32);
    expect(names::I32_ROTR, vec![PrimType::U32, PrimType::U32], PrimType::U32);
    expect(names::I64_ROTL, vec![PrimType::U64, PrimType::U64], PrimType::U64);
    expect(names::I64_ROTR, vec![PrimType::U64, PrimType::U64], PrimType::U64);
}

#[test]
fn truncation_stubs_cover_the_cross_product() {
    let cases = [
        (names::I32_TRUNC_F32, PrimType::F32, PrimType::I32),
        (names::U32_TRUNC_F32, PrimType::F32, PrimType::I32),
        (names::I32_TRUNC_F64, PrimType::F64, PrimType::I32),
        (names::U32_TRUNC_F64, PrimType::F64, PrimType::I32),
        (names::I64_TRUNC_F32, PrimType::F32, PrimType::I64),
        (names::U64_TRUNC_F32, PrimType::F32, PrimType::I64),
        (names::I64_TRUNC_F64, PrimType::F64, PrimType::I64),
        (names::U64_TRUNC_F64, PrimType::F64, PrimType::I64),
    ];
    for (name, source, target) in cases {
        let d = find_stub(name).expect("a truncation of the table");
        assert_eq!(d.signature.params.len(), 1);
        assert_eq!(d.signature.params[0], source);
        assert_eq!(d.signature.ret, target);
    }
}

#[test]
fn truncation_names_say_source_target_and_sign() {
    assert_eq!(names::I32_TRUNC_F32, "signed-truncate-to-i32-from-f32");
    assert_eq!(names::U32_TRUNC_F32, "unsigned-truncate-to-i32-from-f32");
    assert_eq!(names::I32_TRUNC_F64, "signed-truncate-to-i32-from-f64");
    assert_eq!(names::U32_TRUNC_F64, "unsigned-truncate-to-i32-from-f64");
    assert_eq!(names::I64_TRUNC_F32, "signed-truncate-to-i64-from-f32");
    assert_eq!(names::U64_TRUNC_F32, "unsigned-truncate-to-i64-from-f32");
    assert_eq!(names::I64_TRUNC_F64, "signed-truncate-to-i64-from-f64");
    assert_eq!(names::U64_TRUNC_F64, "unsigned-truncate-to-i64-from-f64");
}

#[test]
fn float_to_float_stubs() {
    expect(names::F32_TRUNC_F32, vec![PrimType::F32], PrimType::F32);
    expect(names::F64_TRUNC_F64, vec![PrimType::F64], PrimType::F64);
    expect(names::F32_FABS, vec![PrimType::F32], PrimType::F32);
    expect(names::F64_FABS, vec![PrimType::F64], PrimType::F64);
    expect(names::F32_SQRT, vec![PrimType::F32], PrimType::F32);
    expect(names::F64_SQRT, vec![PrimType::F64], PrimType::F64);
    assert_eq!(names::F32_TRUNC_F32, "identity-round-f32");
    assert_eq!(names::F64_TRUNC_F64, "identity-round-f64");
    assert_eq!(names::F32_FABS, "absolute-value-f32");
    assert_eq!(names::F64_FABS, "absolute-value-f64");
    assert_eq!(names::F32_SQRT, "square-root-f32");
    assert_eq!(names::F64_SQRT, "square-root-f64");
}

#[test]
fn bit_counting_stubs() {
    expect(names::I32_CLZ, vec![PrimType::I32, PrimType::Bool], PrimType::I32);
    expect(names::I64_CLZ, vec![PrimType::I64, PrimType::Bool], PrimType::I64);
    expect(names::I32_CTZ, vec![PrimType::I32, PrimType::Bool], PrimType::I32);
    expect(names::I64_CTZ, vec![PrimType::I64, PrimType::Bool], PrimType::I64);
    expect(names::I32_CTPOP, vec![PrimType::I32], PrimType::I32);
    expect(names::I64_CTPOP, vec![PrimType::I64], PrimType::I64);
}

#[test]
fn trap_takes_and_returns_nothing() {
    expect(names::TRAP, vec![], PrimType::Void);
}

#[test]
fn find_stub_finds_every_entry_and_nothing_else() {
    for d in signature_table() {
        assert_eq!(find_stub(&d.name), Some(d));
    }
    assert_eq!(find_stub("rotate-left-16"), None);
    assert_eq!(find_stub(""), None);
    assert_eq!(find_stub("Trap"), None);
    assert_eq!(find_stub("trap\0"), None);
}

#[test]
fn descriptor_keeps_what_it_was_given() {
    let d = StubDescriptor::new("rotate-left-32", vec![PrimType::U32, PrimType::U32], PrimType::U32);
    assert_eq!(d.name, "rotate-left-32");
    assert_eq!(d.signature.params, vec![PrimType::U32, PrimType::U32]);
    assert_eq!(d.signature.ret, PrimType::U32);
}

#[test]
fn errors_name_the_offending_function() {
    let twice = StubError::AlreadyDeclared("trap".to_string());
    assert_eq!(twice.name(), "trap");
    assert_eq!(twice.message(), "runtime stub already declared: trap");
    let missing = StubError::MissingStub("rotate-left-16".to_string());
    assert_eq!(missing.name(), "rotate-left-16");
    assert_eq!(missing.message(), "missing runtime stub: rotate-left-16");
    assert_ne!(twice, missing);
}
