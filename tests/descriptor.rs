use cargo_godot::descriptor::descriptor_contents;

#[test]
fn descriptor_for_foo_under_parent_target() {
    let text = descriptor_contents(&"../target".to_string(), &"foo".to_string());
    assert!(text.contains("linux.debug.x86_64 =     \"res://../target/debug/libfoo.so\"\n"));
    assert!(text.contains("windows.release.x86_64 = \"res://../target/release/foo.dll\"\n"));
    let expected = r#"
[configuration]
entry_symbol = "gdext_rust_init"
compatibility_minimum = 4.1
reloadable = true

[libraries]
linux.debug.x86_64 =     "res://../target/debug/libfoo.so"
linux.release.x86_64 =   "res://../target/release/libfoo.so"
windows.debug.x86_64 =   "res://../target/debug/foo.dll"
windows.release.x86_64 = "res://../target/release/foo.dll"
macos.debug =            "res://../target/debug/libfoo.dylib"
macos.release =          "res://../target/release/libfoo.dylib"
macos.debug.arm64 =      "res://../target/debug/libfoo.dylib"
macos.release.arm64 =    "res://../target/release/libfoo.dylib"
"#;
    assert_eq!(text, expected);
}

#[test]
fn descriptor_with_plain_target() {
    let text = descriptor_contents(&"target".to_string(), &"my_ext".to_string());
    assert!(text.contains("macos.release.arm64 =    \"res://target/release/libmy_ext.dylib\"\n"));
}
