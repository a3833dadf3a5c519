use cargo_godot::error::Error;
use cargo_godot::process::{exec_outcome, which_outcome};
use cargo_godot::scaffold::{add_bindings, class_file, descriptor_link, new_crate, project_name};

#[test]
fn class_file_is_snake_case_with_rs_extension() {
    assert_eq!(class_file(&"./src/".to_string(), &"MyPlayerNode".to_string()), "./src/my_player_node.rs");
}

#[test]
fn project_name_prefers_the_given_one() {
    assert_eq!(project_name(Some("space".to_string()), &"/home/me/work".to_string()), "space");
    assert_eq!(project_name(None, &"/home/me/work".to_string()), "work");
    assert_eq!(project_name(None, &"/".to_string()), "");
}

#[test]
fn init_commands_and_link() {
    let (program, args) = new_crate(&"space".to_string());
    assert_eq!(program, "cargo");
    assert_eq!(args, vec!["new", "--lib", "--name", "space", "rust"]);
    let (_, args) = add_bindings();
    assert_eq!(args, vec!["add", "godot", "--manifest-path", "rust/Cargo.toml"]);
    let (original, link) = descriptor_link(&"space".to_string());
    assert_eq!(original, "../rust/space.gdextension");
    assert_eq!(link, "godot/space.gdextension");
}

#[test]
fn process_outcomes() {
    assert_eq!(exec_outcome("godot", true), Ok(()));
    assert_eq!(exec_outcome("godot", false), Err(Error::Exec("godot".to_string())));
    assert_eq!(which_outcome("lldb", Some("/usr/bin/lldb".to_string())), Ok("/usr/bin/lldb".to_string()));
    assert_eq!(which_outcome("lldb", None), Err(Error::Which("lldb".to_string())));
}

#[test]
fn error_messages() {
    assert_eq!(Error::Exec("cargo".to_string()).message(), "exec 'cargo' failed");
    assert_eq!(
        Error::MissingMetadata.message(),
        "Missing package.metadata.godot configuration in Cargo.toml"
    );
    assert_eq!(Error::Which("lldb".to_string()).message(), "Unable to find executable: lldb");
    assert_eq!(Error::Io("denied".to_string()).message(), "I/O error: denied");
}
