use vstd::prelude::*;

use crate::error::Error;
use crate::source::SourceFile;
use figment::providers::Format;
use figment::Error as FigmentError;
use std::io::Error as IoError;

verus! {

/// figment's error, carried through as an opaque value.
#[verifier::external_type_specification]
#[verifier::external_body]
pub struct ExFigmentError(FigmentError);

/// figment's value of a setting, carried through as an opaque value.
#[verifier::external_type_specification]
#[verifier::external_body]
pub struct ExValue(figment::value::Value);

/// One setting of a fragment: a field name and its value.
pub type Entry = (String, figment::value::Value);

/// No field name occurs twice in the fragment.
pub open spec fn distinct_keys(frag: Seq<Entry>) -> bool {
    forall|i: int, j: int|
        0 <= i < j < frag.len() ==> #[trigger] frag[i].0@ != #[trigger] frag[j].0@
}

/// The field names of a fragment, in its order.
pub open spec fn fields_of(frag: Seq<Entry>) -> Seq<Seq<char>> {
    frag.map_values(|e: Entry| e.0@)
}

/// Whether figment's `Json` provider decodes the text into settings; this
/// depends on the text alone.
pub uninterp spec fn json_accepts(text: Seq<char>) -> bool;

/// The field names, in order, of the settings that figment's `Json` provider
/// decodes from the text; they depend on the text alone.
pub uninterp spec fn json_fields(text: Seq<char>) -> Seq<Seq<char>>;

/// Relies on figment's `Json` string provider: whether it succeeds and the
/// field names it gives depend on the text alone, and its settings are
/// collected in a `Dict`, a `BTreeMap`, so no field name occurs twice.
#[verifier::external_body]
fn decode_json(text: &str) -> (r: Result<Vec<Entry>, FigmentError>)
    ensures
        r is Ok == json_accepts(text@),
        r is Ok ==> fields_of(r->Ok_0@) == json_fields(text@),
        r is Ok ==> distinct_keys(r->Ok_0@),
{
    figment::Figment::from(figment::providers::Json::string(text))
        .extract::<figment::value::Dict>()
        .map(|d| d.into_iter().collect())
}

/// Whether figment's `Toml` provider decodes the text into settings; this
/// depends on the text alone.
pub uninterp spec fn toml_accepts(text: Seq<char>) -> bool;

/// The field names, in order, of the settings that figment's `Toml` provider
/// decodes from the text; they depend on the text alone.
pub uninterp spec fn toml_fields(text: Seq<char>) -> Seq<Seq<char>>;

/// Relies on figment's `Toml` string provider: whether it succeeds and the
/// field names it gives depend on the text alone, and its settings are
/// collected in a `Dict`, a `BTreeMap`, so no field name occurs twice.
#[verifier::external_body]
fn decode_toml(text: &str) -> (r: Result<Vec<Entry>, FigmentError>)
    ensures
        r is Ok == toml_accepts(text@),
        r is Ok ==> fields_of(r->Ok_0@) == toml_fields(text@),
        r is Ok ==> distinct_keys(r->Ok_0@),
{
    figment::Figment::from(figment::providers::Toml::string(text))
        .extract::<figment::value::Dict>()
        .map(|d| d.into_iter().collect())
}

/// Whether figment's `Yaml` provider decodes the text into settings; this
/// depends on the text alone.
pub uninterp spec fn yaml_accepts(text: Seq<char>) -> bool;

/// The field names, in order, of the settings that figment's `Yaml` provider
/// decodes from the text; they depend on the text alone.
pub uninterp spec fn yaml_fields(text: Seq<char>) -> Seq<Seq<char>>;

/// Relies on figment's `Yaml` string provider: whether it succeeds and the
/// field names it gives depend on the text alone, and its settings are
/// collected in a `Dict`, a `BTreeMap`, so no field name occurs twice.
#[verifier::external_body]
fn decode_yaml(text: &str) -> (r: Result<Vec<Entry>, FigmentError>)
    ensures
        r is Ok == yaml_accepts(text@),
        r is Ok ==> fields_of(r->Ok_0@) == yaml_fields(text@),
        r is Ok ==> distinct_keys(r->Ok_0@),
{
    figment::Figment::from(figment::providers::Yaml::string(text))
        .extract::<figment::value::Dict>()
        .map(|d| d.into_iter().collect())
}

/// Whether a value is a dictionary, the one shape that figment's `Serialized`
/// provider accepts; this depends on the value alone.
pub uninterp spec fn value_is_dict(v: figment::value::Value) -> bool;

/// The field names, in order, of the dictionary that a value is; they depend
/// on the value alone.
pub uninterp spec fn value_fields(v: figment::value::Value) -> Seq<Seq<char>>;

/// Relies on figment's `Serialized::defaults` provider: it fails exactly when
/// the value is not a dictionary, otherwise it gives the dictionary's fields,
/// collected in a `Dict`, a `BTreeMap`, so no field name occurs twice.
#[verifier::external_body]
fn decode_value(value: figment::value::Value) -> (r: Result<Vec<Entry>, FigmentError>)
    ensures
        r is Ok == value_is_dict(value),
        r is Ok ==> fields_of(r->Ok_0@) == value_fields(value),
        r is Ok ==> distinct_keys(r->Ok_0@),
{
    figment::Figment::from(figment::providers::Serialized::defaults(value))
        .extract::<figment::value::Dict>()
        .map(|d| d.into_iter().collect())
}

/// The codec that reads a file source's text.
pub enum Codec {
    Json,
    Toml,
    Yaml,
}

impl SourceFile {
    /// The codec matching this file source's format.
    pub open spec fn codec(&self) -> Codec {
        match self {
            SourceFile::Json(_) => Codec::Json,
            SourceFile::Toml(_) => Codec::Toml,
            SourceFile::Yaml(_) => Codec::Yaml,
        }
    }
}

/// Whether the codec decodes the text.
pub open spec fn codec_accepts(codec: Codec, text: Seq<char>) -> bool {
    match codec {
        Codec::Json => json_accepts(text),
        Codec::Toml => toml_accepts(text),
        Codec::Yaml => yaml_accepts(text),
    }
}

/// The field names, in order, that the codec decodes from the text.
pub open spec fn codec_fields(codec: Codec, text: Seq<char>) -> Seq<Seq<char>> {
    match codec {
        Codec::Json => json_fields(text),
        Codec::Toml => toml_fields(text),
        Codec::Yaml => yaml_fields(text),
    }
}

/// The settings of a file source's text, decoded with the codec of the file's
/// format. A text that does not decode gives the codec's error.
pub fn decode_file(file: &SourceFile, text: &str) -> (r: Result<Vec<Entry>, FigmentError>)
    ensures
        r is Ok == codec_accepts(file.codec(), text@),
        r is Ok ==> fields_of(r->Ok_0@) == codec_fields(file.codec(), text@),
        r is Ok ==> distinct_keys(r->Ok_0@),
{
    match file {
        SourceFile::Json(_) => decode_json(text),
        SourceFile::Toml(_) => decode_toml(text),
        SourceFile::Yaml(_) => decode_yaml(text),
    }
}

/// The fragment of a file source, given the outcome of reading the file at its
/// path. A file that could not be read, a missing one included, is an I/O
/// error tagged with the path, never an empty fragment. A file that was read
/// is decoded as by `decode_file`, and a decoding failure is figment's error.
pub fn file_fragment(file: &SourceFile, text: Result<String, IoError>) -> (r: Result<
    Vec<Entry>,
    Error,
>)
    ensures
        text is Err ==> match r {
            Err(Error::ReadFile { filepath, source }) => filepath@ == file.path() && source
                == text->Err_0,
            _ => false,
        },
        text is Ok ==> (r is Ok == codec_accepts(file.codec(), text->Ok_0@)),
        text is Ok && r is Err ==> r->Err_0 is Figment,
        r is Ok ==> fields_of(r->Ok_0@) == codec_fields(file.codec(), text->Ok_0@),
        r is Ok ==> distinct_keys(r->Ok_0@),
{
    match text {
        Ok(t) => match decode_file(file, t.as_str()) {
            Ok(frag) => Ok(frag),
            Err(e) => Err(Error::Figment(e)),
        },
        Err(e) => Err(Error::ReadFile { filepath: file.filepath(), source: e }),
    }
}

/// The fragment of the defaults source: the fields of the configuration
/// type's default value, given in figment's value model. It is had exactly
/// when that value is a dictionary.
pub fn defaults_fragment(defaults: figment::value::Value) -> (r: Result<Vec<Entry>, FigmentError>)
    ensures
        r is Ok == value_is_dict(defaults),
        r is Ok ==> fields_of(r->Ok_0@) == value_fields(defaults),
        r is Ok ==> distinct_keys(r->Ok_0@),
{
    decode_value(defaults)
}

} // verus!
