//! Layered configuration loading: ordered sources are merged into one view,
//! earlier sources winning, and a missing setting may lead to a default
//! configuration file being written once at a fallback path.
mod codec;
mod error;
mod merge;
mod recovery;
mod source;

pub use crate::codec::{
    codec_accepts, codec_fields, decode_file, defaults_fragment, distinct_keys, fields_of,
    file_fragment, json_accepts, json_fields, toml_accepts, toml_fields, value_fields,
    value_is_dict, yaml_accepts, yaml_fields, Codec, Entry,
};
pub use crate::error::{CreateDefaultFileError, Error};
pub use crate::merge::{
    all_read, first_failure, fragments, lemma_earlier_source_wins, lemma_lookup_defined,
    lemma_resolve_undefined, lookup, merge_layers, resolve,
};
pub use crate::recovery::{
    after_extraction, bootstrap_outcome, bootstraps, default_file_target, lemma_existing_file_kept,
    missing_kind, LoadStep,
};
pub use crate::source::{Source, SourceFile};
