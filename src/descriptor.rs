use vstd::prelude::*;

verus! {

/// Where the engine finds the artifact `file` built in `mode` under `target`,
/// relative to the project's resource root.
pub open spec fn artifact_path(target: Seq<char>, mode: Seq<char>, file: Seq<char>) -> Seq<char> {
    "res://"@ + target + "/"@ + mode + "/"@ + file
}

/// One line of the library table: `key` (with its `=` and padding), then the quoted path.
pub open spec fn library_line(key: Seq<char>, target: Seq<char>, mode: Seq<char>, file: Seq<char>) -> Seq<char> {
    key + "\""@ + artifact_path(target, mode, file) + "\"\n"@
}

/// The shared library file name on Linux.
pub open spec fn so_file(name: Seq<char>) -> Seq<char> {
    "lib"@ + name + ".so"@
}

/// The shared library file name on Windows.
pub open spec fn dll_file(name: Seq<char>) -> Seq<char> {
    name + ".dll"@
}

/// The shared library file name on macOS.
pub open spec fn dylib_file(name: Seq<char>) -> Seq<char> {
    "lib"@ + name + ".dylib"@
}

/// The section that declares the entry symbol, compatibility and reloading.
pub open spec fn configuration_section() -> Seq<char> {
    "\n[configuration]\nentry_symbol = \"gdext_rust_init\"\ncompatibility_minimum = 4.1\nreloadable = true\n\n[libraries]\n"@
}

/// The descriptor for the package `name` whose artifacts lie under `target`.
pub open spec fn descriptor_text(target: Seq<char>, name: Seq<char>) -> Seq<char> {
    configuration_section()
        + library_line("linux.debug.x86_64 =     "@, target, "debug"@, so_file(name))
        + library_line("linux.release.x86_64 =   "@, target, "release"@, so_file(name))
        + library_line("windows.debug.x86_64 =   "@, target, "debug"@, dll_file(name))
        + library_line("windows.release.x86_64 = "@, target, "release"@, dll_file(name))
        + library_line("macos.debug =            "@, target, "debug"@, dylib_file(name))
        + library_line("macos.release =          "@, target, "release"@, dylib_file(name))
        + library_line("macos.debug.arm64 =      "@, target, "debug"@, dylib_file(name))
        + library_line("macos.release.arm64 =    "@, target, "release"@, dylib_file(name))
}

fn push_line(out: &mut String, key: &str, target: &str, mode: &str, file: &str)
    ensures
        final(out)@ == old(out)@ + library_line(key@, target@, mode@, file@),
{
    let ghost start = out@;
    out.append(key);
    out.append("\"res://");
    out.append(target);
    out.append("/");
    out.append(mode);
    out.append("/");
    out.append(file);
    out.append("\"\n");
    proof {
        reveal_strlit("\"res://");
        reveal_strlit("res://");
        reveal_strlit("\"");
    }
    assert(out@ =~= start + library_line(key@, target@, mode@, file@));
}

/// The descriptor text for the package `name` whose artifacts lie under `target`.
pub fn descriptor_contents(target: &String, name: &String) -> (r: String)
    ensures
        r@ == descriptor_text(target@, name@),
{
    let mut so = String::from_str("lib");
    so.append(name.as_str());
    so.append(".so");
    let mut dll = name.clone();
    dll.append(".dll");
    let mut dylib = String::from_str("lib");
    dylib.append(name.as_str());
    dylib.append(".dylib");
    let t = target.as_str();
    let mut out = String::from_str(
        "\n[configuration]\nentry_symbol = \"gdext_rust_init\"\ncompatibility_minimum = 4.1\nreloadable = true\n\n[libraries]\n",
    );
    push_line(&mut out, "linux.debug.x86_64 =     ", t, "debug", so.as_str());
    push_line(&mut out, "linux.release.x86_64 =   ", t, "release", so.as_str());
    push_line(&mut out, "windows.debug.x86_64 =   ", t, "debug", dll.as_str());
    push_line(&mut out, "windows.release.x86_64 = ", t, "release", dll.as_str());
    push_line(&mut out, "macos.debug =            ", t, "debug", dylib.as_str());
    push_line(&mut out, "macos.release =          ", t, "release", dylib.as_str());
    push_line(&mut out, "macos.debug.arm64 =      ", t, "debug", dylib.as_str());
    push_line(&mut out, "macos.release.arm64 =    ", t, "release", dylib.as_str());
    out
}

} // verus!
