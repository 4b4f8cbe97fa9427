use vstd::prelude::*;

verus! {

/// A configuration file source: its format and the path it is read from.
#[derive(Clone, Debug, Eq, PartialEq)]
pub enum SourceFile {
    Json(String),
    Toml(String),
    Yaml(String),
}

/// Where settings are taken from. In a list of sources, earlier ones take
/// precedence over later ones.
#[derive(Clone, Debug, Eq, PartialEq)]
pub enum Source {
    /// The fields of the configuration type's default value.
    ConfigDefault,
    /// The process environment, with variable names kept as they are.
    Env,
    /// A configuration file.
    File(SourceFile),
}

impl SourceFile {
    /// The path that this file source names, whatever its format.
    pub open spec fn path(&self) -> Seq<char> {
        match self {
            SourceFile::Json(p) => p@,
            SourceFile::Toml(p) => p@,
            SourceFile::Yaml(p) => p@,
        }
    }

    /// Returns the path of the file.
    pub fn filepath(&self) -> (r: String)
        ensures
            r@ == self.path(),
    {
        match self {
            SourceFile::Json(p) => p.clone(),
            SourceFile::Toml(p) => p.clone(),
            SourceFile::Yaml(p) => p.clone(),
        }
    }
}

} // verus!
