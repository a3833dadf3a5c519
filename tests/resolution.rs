use cargo_godot::config::{find_package, Config, Metadata, Package, Section};
use cargo_godot::error::Error;

fn section(name: &str, project: &str) -> Section {
    Section::Given(Config {
        name: name.to_string(),
        project: project.to_string(),
        remote_debug: None,
        godot_executable: "godot".to_string(),
    })
}

fn metadata(godot: Section) -> Metadata {
    Metadata {
        packages: vec![
            Package { id: "dep 1.0".to_string(), name: "dep".to_string(), godot: Section::Missing },
            Package { id: "game 0.1".to_string(), name: "game".to_string(), godot },
        ],
        root: Some("game 0.1".to_string()),
    }
}

#[test]
fn root_package_is_found_by_id() {
    let m = metadata(Section::Missing);
    assert_eq!(find_package(&m.packages, &"game 0.1".to_string()), Some(1));
    assert_eq!(find_package(&m.packages, &"other".to_string()), None);
}

#[test]
fn missing_section_is_reported() {
    let r = Config::try_from(&"/work/rust/Cargo.toml".to_string(), &metadata(Section::Missing));
    assert_eq!(r.unwrap_err(), Error::MissingMetadata);
}

#[test]
fn invalid_section_is_reported() {
    let m = metadata(Section::Invalid("missing field `project`".to_string()));
    let r = Config::try_from(&"/work/rust/Cargo.toml".to_string(), &m);
    assert_eq!(r.unwrap_err(), Error::InvalidMetadata("missing field `project`".to_string()));
}

#[test]
fn empty_name_takes_package_name_and_project_is_joined() {
    let m = metadata(section("", "../godot"));
    let c = Config::try_from(&"/work/rust/Cargo.toml".to_string(), &m).unwrap();
    assert_eq!(c.name, "game");
    assert_eq!(c.project, "/work/rust/../godot");
    assert_eq!(c.godot_executable, "godot");
    assert_eq!(c.remote_debug, None);
}

#[test]
fn declared_name_is_kept() {
    let m = metadata(section("my_ext", "/abs/godot"));
    let c = Config::try_from(&"/work/rust/Cargo.toml".to_string(), &m).unwrap();
    assert_eq!(c.name, "my_ext");
    assert_eq!(c.project, "/abs/godot");
}

#[test]
fn manifest_without_directory_fails() {
    let m = metadata(section("", "../godot"));
    let r = Config::try_from(&"/".to_string(), &m);
    assert_eq!(r.unwrap_err(), Error::PathResolution("/".to_string()));
}

#[test]
fn resolving_twice_gives_the_same_values() {
    let m = metadata(section("", "../godot"));
    let a = Config::try_from(&"rust/Cargo.toml".to_string(), &m).unwrap();
    let b = Config::try_from(&"rust/Cargo.toml".to_string(), &m).unwrap();
    assert_eq!(a.name, b.name);
    assert_eq!(a.project, b.project);
    assert_eq!(a.remote_debug, b.remote_debug);
    assert_eq!(a.godot_executable, b.godot_executable);
}

#[test]
fn canonical_project_replaces_the_joined_one() {
    let m = metadata(section("", "../godot"));
    let c = Config::try_from(&"/work/rust/Cargo.toml".to_string(), &m).unwrap();
    let c = c.with_project("/work/godot".to_string());
    assert_eq!(c.project, "/work/godot");
    assert_eq!(c.name, "game");
}
