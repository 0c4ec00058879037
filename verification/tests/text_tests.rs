use syscall_compat_tests::text::{i32_text, i64_text, option_i32_debug, u32_octal_text, u64_text};

#[test]
fn unsigned_decimal() {
    assert_eq!(u64_text(0), "0");
    assert_eq!(u64_text(7), "7");
    assert_eq!(u64_text(10), "10");
    assert_eq!(u64_text(1234567890), "1234567890");
    assert_eq!(u64_text(u64::MAX), u64::MAX.to_string());
}

#[test]
fn signed_decimal() {
    assert_eq!(i64_text(-1), "-1");
    assert_eq!(i64_text(42), "42");
    assert_eq!(i64_text(i64::MIN), i64::MIN.to_string());
    assert_eq!(i64_text(i64::MAX), i64::MAX.to_string());
    assert_eq!(i32_text(i32::MIN), i32::MIN.to_string());
    assert_eq!(i32_text(-38), "-38");
}

#[test]
fn optional_errno_like_debug() {
    assert_eq!(option_i32_debug(Some(2)), format!("{:?}", Some(2)));
    assert_eq!(option_i32_debug(Some(-5)), "Some(-5)");
    assert_eq!(option_i32_debug(None), "None");
}

#[test]
fn unsigned_octal() {
    assert_eq!(u32_octal_text(0), "0");
    assert_eq!(u32_octal_text(8), "10");
    assert_eq!(u32_octal_text(0o100644), "100644");
    assert_eq!(u32_octal_text(u32::MAX), format!("{:o}", u32::MAX));
}
