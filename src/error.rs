use vstd::prelude::*;

use figment::Error as FigmentError;
use serde_json::Error as JsonError;
use serde_yaml::Error as YamlError;
use std::io::Error as IoError;
use toml::ser::Error as TomlSerError;

verus! {

/// std's I/O error, carried through as an opaque value.
#[verifier::external_type_specification]
#[verifier::external_body]
pub struct ExIoError(IoError);

/// serde_json's error, carried through as an opaque value.
#[verifier::external_type_specification]
#[verifier::external_body]
pub struct ExJsonError(JsonError);

/// serde_yaml's error, carried through as an opaque value.
#[verifier::external_type_specification]
#[verifier::external_body]
pub struct ExYamlError(YamlError);

/// toml's serialization error, carried through as an opaque value.
#[verifier::external_type_specification]
#[verifier::external_body]
pub struct ExTomlSerError(TomlSerError);

/// Why loading a configuration did not give a value.
#[derive(Debug)]
pub enum Error {
    /// A setting was unset and writing the default configuration file failed.
    CreateDefaultFile(CreateDefaultFileError),
    /// A setting was unset, so a default configuration file was written at
    /// `filepath`: it should be filled in before loading again.
    CreatedDefaultFile { filepath: String },
    /// Decoding a source or extracting the configuration failed.
    Figment(FigmentError),
    /// A configuration file source could not be read at `filepath`.
    ReadFile { filepath: String, source: IoError },
}

/// Why writing the default configuration file failed.
#[derive(Debug)]
pub enum CreateDefaultFileError {
    /// Encoding the default configuration as JSON failed.
    SerdeJson(JsonError),
    /// Encoding the default configuration as YAML failed.
    SerdeYaml(YamlError),
    /// Creating a directory, creating the file or writing to it failed.
    StdIo { filepath: String, source: IoError },
    /// Encoding the default configuration as TOML failed.
    TomlSer(TomlSerError),
}

} // verus!
