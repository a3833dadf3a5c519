use vstd::prelude::*;
use convert_case::Casing;
use crate::config::texts;
use crate::paths::{file_name, file_name_of, join_path, joined_path, with_extension, with_extension_path};

verus! {

/// What `convert_case`'s `to_case(Case::Snake)` gives for `s`.
pub uninterp spec fn snake_case_of(s: Seq<char>) -> Seq<char>;

/// Relies on `convert_case::Casing::to_case` with `Case::Snake`: the words of
/// `s` in lower case, joined by underscores.
#[verifier::external_body]
fn snake_case(s: &str) -> (r: String)
    ensures
        r@ == snake_case_of(s@),
{
    s.to_case(convert_case::Case::Snake)
}

/// The source file of a new class `name` in the directory `dir`: the name in
/// snake case, with the `rs` extension.
pub fn class_file(dir: &String, name: &String) -> (r: String)
    ensures
        r@ == with_extension_path(joined_path(dir@, snake_case_of(name@)), "rs"@),
{
    let file = snake_case(name.as_str());
    proof {
        reveal_strlit("rs");
    }
    with_extension(join_path(dir.as_str(), file.as_str()).as_str(), "rs")
}

/// The name of a new project: the one given, or else the last component of
/// the current directory `cwd` (empty when it has none).
pub fn project_name(given: Option<String>, cwd: &String) -> (r: String)
    ensures
        given matches Some(n) ==> r == n,
        given is None ==> r@ == match file_name_of(cwd@) {
            Some(n) => n,
            None => Seq::empty(),
        },
{
    match given {
        Some(n) => n,
        None => match file_name(cwd.as_str()) {
            Some(n) => n,
            None => String::new(),
        },
    }
}

/// The build tool's arguments that create the library package `name` in `rust`.
pub open spec fn new_crate_args_spec(name: Seq<char>) -> Seq<Seq<char>> {
    seq!["new"@, "--lib"@, "--name"@, name, "rust"@]
}

/// The build tool and its arguments that create the library package `name` in `rust`.
pub fn new_crate(name: &String) -> (r: (String, Vec<String>))
    ensures
        r.0@ == "cargo"@,
        texts(r.1) == new_crate_args_spec(name@),
{
    let mut args: Vec<String> = Vec::new();
    args.push("new".to_string());
    args.push("--lib".to_string());
    args.push("--name".to_string());
    args.push(name.clone());
    args.push("rust".to_string());
    assert(texts(args) =~= new_crate_args_spec(name@));
    ("cargo".to_string(), args)
}

/// The build tool's arguments that add the engine bindings to the new package.
pub open spec fn add_bindings_args_spec() -> Seq<Seq<char>> {
    seq!["add"@, "godot"@, "--manifest-path"@, "rust/Cargo.toml"@]
}

/// The build tool and its arguments that add the engine bindings to the new package.
pub fn add_bindings() -> (r: (String, Vec<String>))
    ensures
        r.0@ == "cargo"@,
        texts(r.1) == add_bindings_args_spec(),
{
    let mut args: Vec<String> = Vec::new();
    args.push("add".to_string());
    args.push("godot".to_string());
    args.push("--manifest-path".to_string());
    args.push("rust/Cargo.toml".to_string());
    assert(texts(args) =~= add_bindings_args_spec());
    ("cargo".to_string(), args)
}

/// The link from the engine project to the descriptor of package `name`: the
/// path it points to, relative to the link, and the link's own path.
pub fn descriptor_link(name: &String) -> (r: (String, String))
    ensures
        r.0@ == "../rust/"@ + name@ + ".gdextension"@,
        r.1@ == "godot/"@ + name@ + ".gdextension"@,
{
    let mut original = String::from_str("../rust/");
    original.append(name.as_str());
    original.append(".gdextension");
    let mut link = String::from_str("godot/");
    link.append(name.as_str());
    link.append(".gdextension");
    (original, link)
}

} // verus!
