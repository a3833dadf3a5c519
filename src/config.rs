use vstd::prelude::*;
use crate::error::Error;
use crate::paths::{join_path, joined_path, parent, parent_path};

verus! {

/// Project configuration resolved from the manifest's `package.metadata.godot` section.
#[derive(Debug)]
pub struct Config {
    /// Module name; the package's own name when the section leaves it empty.
    pub name: String,
    /// Absolute path of the engine project directory.
    pub project: String,
    /// Address for remote debugging, if any.
    pub remote_debug: Option<String>,
    /// Name or path of the engine binary.
    pub godot_executable: String,
}

/// The engine binary used when the section names none.
pub open spec fn default_godot_text() -> Seq<char> {
    seq!['g', 'o', 'd', 'o', 't']
}

/// The engine binary used when the section names none.
pub fn default_godot_path() -> (r: String)
    ensures
        r@ == default_godot_text(),
{
    let r = "godot".to_string();
    proof {
        reveal_strlit("godot");
    }
    r
}

/// The arguments that every engine invocation starts with: the project path,
/// then the remote debug address when one is configured.
pub open spec fn base_args(c: Config) -> Seq<Seq<char>> {
    let prefix = seq!["--path"@, c.project@];
    match c.remote_debug {
        Some(addr) => prefix + seq!["--remote-debug"@, addr@],
        None => prefix,
    }
}

/// The views of a vector of strings.
pub open spec fn texts(v: Vec<String>) -> Seq<Seq<char>> {
    v@.map_values(|s: String| s@)
}

impl Config {
    /// The engine executable and the arguments common to every engine invocation.
    pub fn into_args(self) -> (r: (String, Vec<String>))
        ensures
            r.0@ == self.godot_executable@,
            texts(r.1) == base_args(self),
    {
        let mut args: Vec<String> = Vec::new();
        args.push("--path".to_string());
        args.push(self.project.clone());
        if let Some(remote_debug) = self.remote_debug {
            args.push("--remote-debug".to_string());
            args.push(remote_debug);
        }
        assert(texts(args) =~= base_args(self));
        (self.godot_executable, args)
    }
}

/// One package of the build metadata.
#[derive(Debug)]
pub struct Package {
    /// The package's identity in the package graph.
    pub id: String,
    /// The package's declared name.
    pub name: String,
    /// Its `package.metadata.godot` section.
    pub godot: Section,
}

/// A package's `package.metadata.godot` section.
#[derive(Debug)]
pub enum Section {
    /// Absent or null.
    Missing,
    /// Present, but it does not read as a configuration; the text says why.
    Invalid(String),
    /// Present and read, with the defaults of the fields it leaves out; its
    /// project path is the one declared, relative to the manifest's directory.
    Given(Config),
}

/// The build metadata of a manifest: its packages and the root of the package graph.
#[derive(Debug)]
pub struct Metadata {
    pub packages: Vec<Package>,
    pub root: Option<String>,
}

impl Metadata {
    /// The package graph has a root, and the root is among the packages.
    pub open spec fn wf(&self) -> bool {
        &&& self.root is Some
        &&& exists|i: int| 0 <= i < self.packages@.len() && #[trigger] self.packages@[i].id@ == self.root->0@
    }

    /// Whether `i` is the first position of the root among the packages.
    pub open spec fn is_root_index(&self, i: int) -> bool {
        &&& 0 <= i < self.packages@.len()
        &&& self.packages@[i].id@ == self.root->0@
        &&& forall|j: int| 0 <= j < i ==> #[trigger] self.packages@[j].id@ != self.root->0@
    }

    /// The root package (its first entry, should the graph list it twice).
    pub open spec fn root_package(&self) -> Package {
        self.packages@[choose|i: int| self.is_root_index(i)]
    }
}

/// The first position of the package `id` in `packages`.
pub fn find_package(packages: &Vec<Package>, id: &String) -> (r: Option<usize>)
    ensures
        match r {
            Some(i) => i < packages@.len() && packages@[i as int].id@ == id@ && forall|j: int|
                0 <= j < i ==> #[trigger] packages@[j].id@ != id@,
            None => forall|j: int| 0 <= j < packages@.len() ==> #[trigger] packages@[j].id@ != id@,
        },
{
    let mut i: usize = 0;
    while i < packages.len()
        invariant
            i <= packages@.len(),
            forall|j: int| 0 <= j < i ==> #[trigger] packages@[j].id@ != id@,
        decreases packages@.len() - i,
    {
        if packages[i].id == *id {
            return Some(i);
        }
        i = i + 1;
    }
    None
}

/// The configuration that `section` gives once its project path is taken
/// relative to the directory `dir` and its empty name replaced by `package_name`.
pub open spec fn located(section: Config, package_name: Seq<char>, dir: Seq<char>) -> (Seq<char>, Seq<char>) {
    (
        if section.name@.len() == 0 { package_name } else { section.name@ },
        joined_path(dir, section.project@),
    )
}

impl Config {
    /// The root package's configuration, read from the metadata of the manifest
    /// at `manifest_path`: its name defaulted to the package's name, its project
    /// path joined to the manifest's directory and not yet made canonical.
    pub fn try_from(manifest_path: &String, metadata: &Metadata) -> (r: Result<Config, Error>)
        requires
            metadata.wf(),
        ensures
            match metadata.root_package().godot {
                Section::Missing => r matches Err(Error::MissingMetadata),
                Section::Invalid(why) => r matches Err(Error::InvalidMetadata(m)) && m@ == why@,
                Section::Given(c) => match parent_path(manifest_path@) {
                    None => r matches Err(Error::PathResolution(m)) && m@ == manifest_path@,
                    Some(dir) => r matches Ok(out) && (out.name@, out.project@) == located(
                        c,
                        metadata.root_package().name@,
                        dir,
                    ) && out.remote_debug == c.remote_debug
                        && out.godot_executable == c.godot_executable,
                },
            },
    {
        let root = metadata.root.as_ref().unwrap();
        let found = find_package(&metadata.packages, root);
        let i = found.unwrap();
        proof {
            assert(metadata.is_root_index(i as int));
            let k = choose|k: int| metadata.is_root_index(k);
            assert(k == i as int) by {
                if k < i {
                    assert(metadata.packages@[k].id@ != root@);
                } else if k > i {
                    assert(metadata.packages@[i as int].id@ != root@);
                }
            }
        }
        let package = &metadata.packages[i];
        match &package.godot {
            Section::Missing => Err(Error::MissingMetadata),
            Section::Invalid(why) => Err(Error::InvalidMetadata(why.clone())),
            Section::Given(c) => {
                match parent(manifest_path.as_str()) {
                    None => Err(Error::PathResolution(manifest_path.clone())),
                    Some(dir) => {
                        let project = join_path(dir.as_str(), c.project.as_str());
                        let name = if c.name.as_str().is_empty() {
                            package.name.clone()
                        } else {
                            c.name.clone()
                        };
                        Ok(
                            Config {
                                name,
                                project,
                                remote_debug: c.remote_debug.clone(),
                                godot_executable: c.godot_executable.clone(),
                            },
                        )
                    },
                }
            },
        }
    }

    /// This configuration with `project` as its project path: the canonical form
    /// of the path that `try_from` gave.
    pub fn with_project(self, project: String) -> (r: Config)
        ensures
            r.project == project,
            r.name == self.name,
            r.remote_debug == self.remote_debug,
            r.godot_executable == self.godot_executable,
    {
        Config { project, ..self }
    }
}

} // verus!
