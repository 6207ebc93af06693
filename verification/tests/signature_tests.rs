use rynth::signature::SignatureTypes;

#[test]
fn signature_types_parses_names_and_types() {
    let t = SignatureTypes::parse("clip:vnode;width:int:opt;color:float[]:opt;");
    assert_eq!(t.len(), 3);
    assert_eq!(t.get("clip").as_deref(), Some("vnode"));
    assert_eq!(t.get("width").as_deref(), Some("int"));
    assert_eq!(t.get("color").as_deref(), Some("float"));
    assert_eq!(t.get("height"), None);
    assert!(t.wants_float("color"));
    assert!(!t.wants_float("width"));
    assert!(!t.wants_float("nothing"));
}

#[test]
fn signature_types_skips_untyped_and_empty_parts() {
    let t = SignatureTypes::parse(";;name;x:int;;");
    assert_eq!(t.len(), 1);
    assert_eq!(t.get("x").as_deref(), Some("int"));
    assert_eq!(t.get("name"), None);
    let empty = SignatureTypes::parse("");
    assert_eq!(empty.len(), 0);
}

#[test]
fn signature_types_trims_all_brackets_and_keeps_last() {
    let t = SignatureTypes::parse("a:int[][]:opt;a:float;b::opt");
    assert_eq!(t.get("a").as_deref(), Some("float"));
    assert!(t.wants_float("a"));
    assert_eq!(t.get("b").as_deref(), Some(""));
    let u = SignatureTypes::parse("m:data[]x[]");
    assert_eq!(u.get("m").as_deref(), Some("data[]x"));
}
