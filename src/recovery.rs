use vstd::prelude::*;

use figment::Error as FigmentError;

use crate::error::{CreateDefaultFileError, Error};
use crate::source::SourceFile;

verus! {

/// Whether a figment error's kind is a missing field; this depends on the
/// error alone.
pub uninterp spec fn missing_kind(e: FigmentError) -> bool;

/// Relies on `figment::Error::missing`: whether the error's kind is a missing
/// field.
#[verifier::external_body]
fn is_missing_field(e: &FigmentError) -> (r: bool)
    ensures
        r == missing_kind(*e),
{
    e.missing()
}

/// A failed extraction leads to writing the default configuration file exactly
/// when it failed for a missing field, a fallback file was given, and nothing
/// exists at its path yet.
pub open spec fn bootstraps(missing_field: bool, fallback: Option<SourceFile>, fallback_exists: bool) -> bool {
    missing_field && fallback is Some && !fallback_exists
}

/// What follows an extraction.
#[verifier::reject_recursive_types(T)]
#[derive(Debug)]
pub enum LoadStep<T> {
    /// The configuration was extracted.
    Loaded(T),
    /// Loading fails with this error.
    Fail(Error),
    /// The default configuration file is to be written for this source.
    CreateDefault(SourceFile),
}

/// The file source at which a default configuration file is to be written
/// after a failed extraction, if any: the fallback, where the failure was a
/// missing field and nothing exists at the fallback's path.
pub fn default_file_target(
    missing_field: bool,
    fallback: Option<SourceFile>,
    fallback_exists: bool,
) -> (r: Option<SourceFile>)
    ensures
        r == if bootstraps(missing_field, fallback, fallback_exists) {
            fallback
        } else {
            None
        },
{
    if missing_field && !fallback_exists {
        fallback
    } else {
        None
    }
}

/// Decides what follows an extraction. An extracted value is returned
/// whatever the fallback. A file that already exists at the fallback's path is
/// never replaced: the extraction's error is then returned as it is, as it is
/// for every failure other than a missing field, and where no fallback was
/// given.
pub fn after_extraction<T>(
    extracted: Result<T, FigmentError>,
    fallback: Option<SourceFile>,
    fallback_exists: bool,
) -> (r: LoadStep<T>)
    ensures
        extracted is Ok ==> r == LoadStep::Loaded(extracted->Ok_0),
        extracted is Err ==> r == if bootstraps(
            missing_kind(extracted->Err_0),
            fallback,
            fallback_exists,
        ) {
            LoadStep::<T>::CreateDefault(fallback->Some_0)
        } else {
            LoadStep::<T>::Fail(Error::Figment(extracted->Err_0))
        },
{
    match extracted {
        Ok(v) => LoadStep::Loaded(v),
        Err(e) => {
            let missing = is_missing_field(&e);
            match default_file_target(missing, fallback, fallback_exists) {
                Some(s) => LoadStep::CreateDefault(s),
                None => LoadStep::Fail(Error::Figment(e)),
            }
        },
    }
}

/// The error reported once the default configuration file was attempted at
/// `filepath`: that it was created, or why creating it failed. The failure to
/// create it replaces the missing-field error that led to it.
pub fn bootstrap_outcome(filepath: String, created: Result<(), CreateDefaultFileError>) -> (r: Error)
    ensures
        r == match created {
            Ok(_) => Error::CreatedDefaultFile { filepath },
            Err(c) => Error::CreateDefaultFile(c),
        },
{
    match created {
        Ok(_) => Error::CreatedDefaultFile { filepath },
        Err(c) => Error::CreateDefaultFile(c),
    }
}

/// A file that already exists at the fallback's path, well-formed or not, is
/// never written: the extraction's failure is returned unchanged. So the
/// default file is written at most once at a path: once written, it exists,
/// and every later load that fails returns its failure instead.
pub proof fn lemma_existing_file_kept(missing_field: bool, fallback: Option<SourceFile>)
    ensures
        !bootstraps(missing_field, fallback, true),
{
}

} // verus!
