use umbrella::ffi::types::MString;

#[test]
fn test_maya_types_available() {
    // The host types are reachable through the crate's interface.
    let s = MString::new("x");
    assert_eq!(s.as_str(), "x");
    println!("Maya types should be available through the crate interface");
}

#[test]
fn test_maya_bindings_feature() {
    // The library builds and links without the host application.
    println!("Build script executed successfully");
}
