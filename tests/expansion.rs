use pakr_assert_size::check::{CheckKind, SizeCheck};
use pakr_assert_size::decimal::{decimal_string, parse_decimal, push_decimal};
use pakr_assert_size::expand::{assert_size, assert_size_fits, size_argument, ExpandError};

#[allow(dead_code)]
struct A {
    field1: u64,
    field2: u64,
}

#[allow(dead_code)]
struct C {
    field1: u64,
    field2: u64,
    field3: u64,
}

const A_TEXT: &str = "#[repr(C, packed)] struct A { field1: u64, field2: u64, }";
const C_TEXT: &str = "#[repr(C, packed)] struct C { field1: u64, field2: u64, field3: u64, }";

#[test]
fn exact_size_sixteen_passes() {
    let x = assert_size("16", A_TEXT).unwrap();
    assert_eq!(x.check.kind, CheckKind::Exact);
    assert_eq!(x.check.name, "A");
    assert_eq!(x.check.size, 16);
    assert_eq!(x.check.evaluate(std::mem::size_of::<A>()), Ok(()));
}

#[test]
fn exact_size_twenty_four_fails() {
    let x = assert_size("24", A_TEXT).unwrap();
    assert_eq!(
        x.check.evaluate(std::mem::size_of::<A>()),
        Err("size of 'A' is not 24 bytes".to_string())
    );
}

#[test]
fn max_size_thirty_two_passes() {
    let x = assert_size_fits("32", C_TEXT).unwrap();
    assert_eq!(x.check.kind, CheckKind::AtMost);
    assert_eq!(x.check.evaluate(std::mem::size_of::<C>()), Ok(()));
}

#[test]
fn max_size_sixteen_fails() {
    let x = assert_size_fits("16", C_TEXT).unwrap();
    assert_eq!(
        x.check.evaluate(std::mem::size_of::<C>()),
        Err("'C' does not fit in 16 bytes".to_string())
    );
}

#[test]
fn max_size_equal_to_size_passes() {
    let x = assert_size_fits("24", C_TEXT).unwrap();
    assert_eq!(x.check.evaluate(24), Ok(()));
    assert!(x.check.evaluate(25).is_err());
}

#[test]
fn string_argument_is_malformed() {
    assert_eq!(assert_size("\"16\"", A_TEXT).unwrap_err(), ExpandError::MalformedArgument);
    assert_eq!(assert_size_fits("\"16\"", A_TEXT).unwrap_err(), ExpandError::MalformedArgument);
}

#[test]
fn enum_item_is_not_a_struct() {
    let item = "enum E { X, Y }";
    assert_eq!(assert_size("16", item).unwrap_err(), ExpandError::NotAStruct);
    assert_eq!(assert_size_fits("16", item).unwrap_err(), ExpandError::NotAStruct);
    assert_eq!(assert_size("8", "union U { a: u64 }").unwrap_err(), ExpandError::NotAStruct);
}

#[test]
fn argument_is_read_before_item() {
    assert_eq!(assert_size("x", "enum E { X }").unwrap_err(), ExpandError::MalformedArgument);
}

#[test]
fn malformed_arguments() {
    for attr in ["", "16 17", "-1", "x", "1.5", "18446744073709551616999"] {
        assert_eq!(size_argument(attr), Err(ExpandError::MalformedArgument), "{attr}");
    }
}

#[test]
fn argument_forms() {
    assert_eq!(size_argument("16"), Ok(16));
    assert_eq!(size_argument("16usize"), Ok(16));
    assert_eq!(size_argument("16u8"), Ok(16));
    assert_eq!(size_argument("0x10"), Ok(16));
    assert_eq!(size_argument("1_000"), Ok(1000));
    assert_eq!(size_argument("0"), Ok(0));
    assert_eq!(size_argument(&usize::MAX.to_string()), Ok(usize::MAX));
}

#[test]
fn argument_just_above_usize_max() {
    let above = (usize::MAX as u128 + 1).to_string();
    assert_eq!(size_argument(&above), Err(ExpandError::MalformedArgument));
}

#[test]
fn exact_expansion_source() {
    let item = "struct A { field1: u64, field2: u64 }";
    let x = assert_size("16", item).unwrap();
    assert_eq!(
        x.source(),
        "const _: () = assert!(std::mem::size_of::<A>() == 16usize, \
         \"size of 'A' is not 16 bytes\");struct A { field1: u64, field2: u64 }"
    );
}

#[test]
fn max_expansion_source() {
    let x = assert_size_fits("0x20", "pub struct B(u8);").unwrap();
    assert_eq!(
        x.check.source(),
        "const _: () = assert!(std::mem::size_of::<B>() <= 32usize, \
         \"'B' does not fit in 32 bytes\");"
    );
    assert_eq!(x.item, "pub struct B(u8);");
}

#[test]
fn expansion_keeps_declaration_verbatim() {
    let x = assert_size("24", C_TEXT).unwrap();
    let s = x.source();
    assert!(s.starts_with("const _: () = "));
    assert!(s.ends_with(C_TEXT));
    assert_eq!(s.len(), x.check.source().len() + C_TEXT.len());
}

#[test]
fn expansion_is_deterministic() {
    let a = assert_size("24", A_TEXT).unwrap();
    let b = assert_size("24", A_TEXT).unwrap();
    assert_eq!(a.source(), b.source());
    assert_eq!(a.check.evaluate(16), b.check.evaluate(16));
    assert_eq!(assert_size("x", A_TEXT).unwrap_err(), assert_size("x", A_TEXT).unwrap_err());
}

#[test]
fn failure_message_names_struct_and_size() {
    let x = assert_size("1000", "struct Wide { a: [u8; 3] }").unwrap();
    let m = x.check.evaluate(3).unwrap_err();
    assert!(m.contains("Wide"));
    assert!(m.contains("1000"));
}

#[test]
fn generic_struct_name() {
    let x = assert_size("8", "struct W<T> { t: T }").unwrap();
    assert_eq!(x.check.name, "W");
}

#[test]
fn message_escapes_quotes_in_source() {
    let c = SizeCheck { kind: CheckKind::Exact, name: "a\"b\\c".to_string(), size: 1 };
    assert_eq!(
        c.source(),
        "const _: () = assert!(std::mem::size_of::<a\"b\\c>() == 1usize, \
         \"size of 'a\\\"b\\\\c' is not 1 bytes\");"
    );
}

#[test]
fn error_messages() {
    assert_eq!(
        ExpandError::MalformedArgument.message(),
        "expected one integer literal that fits in usize"
    );
    assert_eq!(
        ExpandError::NotAStruct.message(),
        "expected `struct`: only a structure declaration can be annotated"
    );
}

#[test]
fn decimal_rendering() {
    assert_eq!(decimal_string(0), "0");
    assert_eq!(decimal_string(7), "7");
    assert_eq!(decimal_string(10), "10");
    assert_eq!(decimal_string(1203), "1203");
    assert_eq!(decimal_string(usize::MAX), usize::MAX.to_string());
    let mut s = "n=".to_string();
    push_decimal(&mut s, 42);
    assert_eq!(s, "n=42");
}

#[test]
fn decimal_parsing() {
    assert_eq!(parse_decimal(""), None);
    assert_eq!(parse_decimal("007"), Some(7));
    assert_eq!(parse_decimal("12a"), None);
    assert_eq!(parse_decimal("-1"), None);
    assert_eq!(parse_decimal("+1"), None);
    assert_eq!(parse_decimal(&usize::MAX.to_string()), Some(usize::MAX));
    assert_eq!(parse_decimal(&(usize::MAX as u128 + 1).to_string()), None);
}
