use gobject_impl_macros::names::is_valid_name;
use gobject_impl_macros::names::method_name;

#[test]
fn valid_names() {
    assert!(is_valid_name("a"));
    assert!(is_valid_name("my-u8"));
    assert!(is_valid_name("My_Prop-2"));
    assert!(is_valid_name("Z9"));
}

#[test]
fn invalid_names() {
    assert!(!is_valid_name(""));
    assert!(!is_valid_name("9lives"));
    assert!(!is_valid_name("-dash"));
    assert!(!is_valid_name("_under"));
    assert!(!is_valid_name("has space"));
    assert!(!is_valid_name("dot.ted"));
    assert!(!is_valid_name("caf\u{e9}"));
}

#[test]
fn method_names_are_snake_case() {
    assert_eq!(method_name("set_", "my-u8", ""), "set_my_u8");
    assert_eq!(method_name("connect_", "renamed-string", "_notify"), "connect_renamed_string_notify");
    assert_eq!(method_name("", "MyProp", ""), "my_prop");
}
