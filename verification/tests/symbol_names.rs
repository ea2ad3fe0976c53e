use objc_extras::util::{
    bytes_eq, class_name_from_symbol_name, contains_name, selector_name_from_symbol_name,
    starts_with,
};

#[test]
fn class_name_from_local_class_symbol() {
    assert_eq!(class_name_from_symbol_name(b"cls_NSString"), Some(&b"NSString"[..]));
}

#[test]
fn class_name_from_class_reference_symbol() {
    assert_eq!(class_name_from_symbol_name(b"clsRef_NSArray"), Some(&b"NSArray"[..]));
}

#[test]
fn class_name_from_external_class_symbol() {
    assert_eq!(class_name_from_symbol_name(b"_OBJC_CLASS_$_UIView"), Some(&b"UIView"[..]));
}

#[test]
fn class_name_needs_a_known_prefix() {
    assert_eq!(class_name_from_symbol_name(b"NSString"), None);
    assert_eq!(class_name_from_symbol_name(b"_OBJC_METACLASS_$_UIView"), None);
    assert_eq!(class_name_from_symbol_name(b"cls"), None);
    assert_eq!(class_name_from_symbol_name(b""), None);
}

#[test]
fn class_name_may_be_empty() {
    assert_eq!(class_name_from_symbol_name(b"cls_"), Some(&b""[..]));
}

#[test]
fn class_name_prefixes_are_tried_in_order() {
    // `clsRef_` does not begin with `cls_`, so the second prefix applies.
    assert_eq!(class_name_from_symbol_name(b"clsRef_cls_A"), Some(&b"cls_A"[..]));
    assert_eq!(class_name_from_symbol_name(b"cls_clsRef_A"), Some(&b"clsRef_A"[..]));
}

#[test]
fn selector_name_from_selector_symbol() {
    assert_eq!(selector_name_from_symbol_name(b"sel_initWithFrame:"), Some(&b"initWithFrame:"[..]));
    assert_eq!(selector_name_from_symbol_name(b"sel_"), Some(&b""[..]));
}

#[test]
fn selector_name_needs_the_prefix() {
    assert_eq!(selector_name_from_symbol_name(b"initWithFrame:"), None);
    assert_eq!(selector_name_from_symbol_name(b"Sel_init"), None);
}

#[test]
fn prefix_and_equality_of_bytes() {
    assert!(starts_with(b"abc", b"ab"));
    assert!(starts_with(b"abc", b""));
    assert!(!starts_with(b"ab", b"abc"));
    assert!(!starts_with(b"abc", b"b"));
    assert!(bytes_eq(b"abc", b"abc"));
    assert!(!bytes_eq(b"abc", b"abd"));
    assert!(!bytes_eq(b"abc", b"ab"));
}

#[test]
fn names_in_a_list() {
    let names: Vec<&[u8]> = vec![b"_objc_retain", b"_objc_release"];
    assert!(contains_name(&names, b"_objc_release"));
    assert!(!contains_name(&names, b"_objc_releas"));
    assert!(!contains_name(&[], b"_objc_release"));
}
