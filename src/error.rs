use vstd::prelude::*;

verus! {

/// Every way in which a command can fail.
#[derive(Debug, Clone, PartialEq, Eq)]
pub enum Error {
    /// The named program ran and reported failure.
    Exec(String),
    /// A filesystem operation failed; the text is the system's message.
    Io(String),
    /// The build metadata query over the manifest failed.
    Manifest(String),
    /// The manifest has no `package.metadata.godot` section.
    MissingMetadata,
    /// The `package.metadata.godot` section does not have the expected shape.
    InvalidMetadata(String),
    /// The named program is not on the search path.
    Which(String),
    /// A path could not be resolved to an absolute one.
    PathResolution(String),
}

/// `prefix`, then `detail`, then `suffix`.
fn framed(prefix: &str, detail: &String, suffix: &str) -> (r: String)
    ensures
        r@ == prefix@ + detail@ + suffix@,
{
    let mut r = String::from_str(prefix);
    r.append(detail.as_str());
    r.append(suffix);
    r
}

impl Error {
    /// The text that tells a person what went wrong.
    pub open spec fn message_text(&self) -> Seq<char> {
        match self {
            Error::Exec(p) => "exec '"@ + p@ + "' failed"@,
            Error::Io(m) => "I/O error: "@ + m@ + ""@,
            Error::Manifest(m) => "Unable to read cargo manifest: "@ + m@ + ""@,
            Error::MissingMetadata => "Missing package.metadata.godot configuration in Cargo.toml"@,
            Error::InvalidMetadata(m) => "Unable to read cargo metadata: "@ + m@ + ""@,
            Error::Which(p) => "Unable to find executable: "@ + p@ + ""@,
            Error::PathResolution(p) => "Unable to resolve path: "@ + p@ + ""@,
        }
    }

    /// The text that tells a person what went wrong.
    pub fn message(&self) -> (r: String)
        ensures
            r@ == self.message_text(),
    {
        match self {
            Error::Exec(p) => framed("exec '", p, "' failed"),
            Error::Io(m) => framed("I/O error: ", m, ""),
            Error::Manifest(m) => framed("Unable to read cargo manifest: ", m, ""),
            Error::MissingMetadata => String::from_str("Missing package.metadata.godot configuration in Cargo.toml"),
            Error::InvalidMetadata(m) => framed("Unable to read cargo metadata: ", m, ""),
            Error::Which(p) => framed("Unable to find executable: ", p, ""),
            Error::PathResolution(p) => framed("Unable to resolve path: ", p, ""),
        }
    }
}

} // verus!
