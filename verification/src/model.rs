//! The acoustic model file: where it lies, whether it is valid, how large it
//! is, and how it is deleted.
//!
//! The file system and the model loader belong to the program. It reports
//! what it found as plain values; the functions here decide what that means
//! and what is to be done.

use crate::utils::{join_path, joined_path};
use vstd::prelude::*;

verus! {

/// Where the model is downloaded from.
pub const MODEL_URL: &'static str =
    "https://huggingface.co/ggerganov/whisper.cpp/resolve/main/ggml-base.en.bin";

/// The file name of the model.
pub const MODEL_FILENAME: &'static str = "ggml-base.en.bin";

/// The application's directory below the user's cache directory.
pub const APP_DIRECTORY: &'static str = "corner";

/// The directory of models below the application's directory.
pub const MODELS_DIRECTORY: &'static str = "models";

/// The directory that stands in where the user has no cache directory.
pub const FALLBACK_DIRECTORY: &'static str = ".";

/// The permission bits that a model file is given before it is removed.
pub const REMOVABLE_MODE: u32 = 0o644;

/// What `dirs::cache_dir` reports.
enum CacheDirectory {
    /// The platform names no cache directory.
    Missing,
    /// The cache directory, whose path is text.
    Text(String),
    /// The platform names a cache directory whose path is no valid Unicode
    /// and so cannot be held as text.
    NotText,
}

/// The user's cache directory as `dirs::cache_dir` reports it, with its path
/// as text where it is text. It depends on the platform and on the
/// environment, so nothing is said of it.
#[verifier::external_body]
fn platform_cache_dir() -> (directory: CacheDirectory) {
    match dirs::cache_dir() {
        Some(directory) => match directory.into_os_string().into_string() {
            Ok(text) => CacheDirectory::Text(text),
            Err(_) => CacheDirectory::NotText,
        },
        None => CacheDirectory::Missing,
    }
}

/// The path of the model file for a given cache directory: the model's file
/// name in the models directory of the application's directory, below the
/// cache directory or, without one, below the current directory.
pub open spec fn model_path_under(cache_dir: Option<Seq<char>>) -> Seq<char> {
    let base = match cache_dir {
        Some(directory) => directory,
        None => FALLBACK_DIRECTORY@,
    };
    joined_path(
        joined_path(joined_path(base, APP_DIRECTORY@), MODELS_DIRECTORY@),
        MODEL_FILENAME@,
    )
}

/// A text option as a value.
pub open spec fn text_of(text: Option<String>) -> Option<Seq<char>> {
    match text {
        Some(t) => Some(t@),
        None => None,
    }
}

/// The path of the model file for a given cache directory.
pub fn model_path_in(cache_dir: Option<String>) -> (path: String)
    ensures
        path@ == model_path_under(text_of(cache_dir)),
{
    let base: String = match cache_dir {
        Some(directory) => directory,
        None => FALLBACK_DIRECTORY.to_owned(),
    };
    let app: String = join_path(base.as_str(), APP_DIRECTORY);
    let models: String = join_path(app.as_str(), MODELS_DIRECTORY);
    join_path(models.as_str(), MODEL_FILENAME)
}

/// The path of the model file on this machine: always the same file name at
/// the same place below whatever the platform names as the cache directory.
/// There is no answer where the platform names a directory whose path is no
/// text; the program then adjoins the same names to that directory itself.
pub fn model_path() -> (path: Option<String>)
    ensures
        path matches Some(found) ==> exists|cache_dir: Option<Seq<char>>|
            found@ == model_path_under(cache_dir),
{
    match platform_cache_dir() {
        CacheDirectory::Missing => Some(model_path_in(None)),
        CacheDirectory::Text(directory) => Some(model_path_in(Some(directory))),
        CacheDirectory::NotText => None,
    }
}

/// What the program found at the model's path.
#[derive(Clone, Debug, PartialEq, Eq)]
pub enum ModelProbe {
    /// There is no file.
    Missing,
    /// There is a file and the model loads from it.
    Loadable,
    /// There is a file and loading the model from it failed.
    Unloadable(String),
}

/// The model file as its life cycle knows it: absent; on disk without loading,
/// be it half written or corrupt; or on disk and loading.
#[derive(Clone, Copy, Debug, PartialEq, Eq, Structural)]
pub enum ModelFile {
    /// No file is at the model's path.
    Absent,
    /// A file is there, and the model does not load from it.
    Unverified,
    /// A file is there, and the model loads from it.
    Verified,
}

/// Whether `probe` is what a program finds when the file is in state `file`.
pub open spec fn probe_fits(probe: ModelProbe, file: ModelFile) -> bool {
    match probe {
        ModelProbe::Missing => file == ModelFile::Absent,
        ModelProbe::Loadable => file == ModelFile::Verified,
        ModelProbe::Unloadable(_) => file == ModelFile::Unverified,
    }
}

/// The answer of a validity check and what it asks of the program.
#[derive(Clone, Copy, Debug, PartialEq, Eq, Structural)]
pub struct ModelVerdict {
    /// Whether a valid model is present.
    pub valid: bool,
    /// Whether the file at the model's path is to be removed.
    pub remove_file: bool,
}

/// The verdict on a probe: only a file that loads is valid, and only a file
/// that does not load is to be removed.
pub open spec fn verdict_on(probe: ModelProbe) -> ModelVerdict {
    ModelVerdict { valid: probe is Loadable, remove_file: probe is Unloadable }
}

/// The file after the program has acted on a verdict; `removed` says whether
/// the removal that it may have been asked for worked.
pub open spec fn file_after_check(file: ModelFile, verdict: ModelVerdict, removed: bool) -> ModelFile {
    if verdict.remove_file && removed {
        ModelFile::Absent
    } else {
        file
    }
}

/// The validity check heals the store. It calls a model valid exactly if the
/// file loads. A file that does not load is gone after the check, provided
/// its removal works; if not, it stays unverified, and the next check says
/// the same and asks again. A file that loads is never removed.
pub proof fn lemma_check_is_self_healing(probe: ModelProbe, file: ModelFile, removed: bool)
    requires
        probe_fits(probe, file),
    ensures
        verdict_on(probe).valid <==> file == ModelFile::Verified,
        file == ModelFile::Unverified ==> !verdict_on(probe).valid && file_after_check(
            file,
            verdict_on(probe),
            true,
        ) == ModelFile::Absent,
        file_after_check(file, verdict_on(probe), removed) != ModelFile::Unverified || !removed,
        file != ModelFile::Unverified ==> file_after_check(file, verdict_on(probe), removed)
            == file,
{
}

/// Decides whether a valid model is present.
///
/// Only a file that loads counts. A file that does not load is to be removed
/// at once, so that no corrupt file is left lying about; whether the removal
/// works does not change the answer.
pub fn check_whisper_model(probe: &ModelProbe) -> (verdict: ModelVerdict)
    ensures
        verdict == verdict_on(*probe),
{
    match probe {
        ModelProbe::Missing => ModelVerdict { valid: false, remove_file: false },
        ModelProbe::Loadable => ModelVerdict { valid: true, remove_file: false },
        ModelProbe::Unloadable(_) => ModelVerdict { valid: false, remove_file: true },
    }
}

/// What the program found when it asked for the size of the model file.
#[derive(Clone, Debug, PartialEq, Eq)]
pub enum SizeProbe {
    /// There is no file.
    Missing,
    /// The file's length in bytes.
    Length(u64),
    /// The file is there, but its metadata could not be read.
    Unreadable(String),
}

/// Why an operation on the model file failed.
#[derive(Clone, Debug, PartialEq, Eq)]
pub enum ModelFileError {
    /// The file's metadata could not be read.
    Metadata(String),
    /// The file's permissions could not be relaxed.
    Permissions(String),
    /// The file could not be removed.
    Remove(String),
}

/// A model file error as a value.
pub enum ModelFileFault {
    Metadata(Seq<char>),
    Permissions(Seq<char>),
    Remove(Seq<char>),
}

impl View for ModelFileError {
    type V = ModelFileFault;

    open spec fn view(&self) -> ModelFileFault {
        match self {
            ModelFileError::Metadata(text) => ModelFileFault::Metadata(text@),
            ModelFileError::Permissions(text) => ModelFileFault::Permissions(text@),
            ModelFileError::Remove(text) => ModelFileFault::Remove(text@),
        }
    }
}

impl ModelFileError {
    /// The text of this error.
    pub open spec fn spec_message(&self) -> Seq<char> {
        match self {
            ModelFileError::Metadata(text) => "Failed to get model size: "@ + text@,
            ModelFileError::Permissions(text) => "Failed to set file permissions: "@ + text@,
            ModelFileError::Remove(text) => "Failed to delete model: "@ + text@,
        }
    }

    /// The text of this error, as it is reported to the caller.
    pub fn message(&self) -> (text: String)
        ensures
            text@ == self.spec_message(),
    {
        match self {
            ModelFileError::Metadata(text) => {
                let mut message: String = "Failed to get model size: ".to_owned();
                message.append(text.as_str());
                message
            },
            ModelFileError::Permissions(text) => {
                let mut message: String = "Failed to set file permissions: ".to_owned();
                message.append(text.as_str());
                message
            },
            ModelFileError::Remove(text) => {
                let mut message: String = "Failed to delete model: ".to_owned();
                message.append(text.as_str());
                message
            },
        }
    }
}

/// The size of the model on disk as a probe shows it.
pub open spec fn model_size(probe: SizeProbe) -> Result<u64, ModelFileFault> {
    match probe {
        SizeProbe::Missing => Ok(0),
        SizeProbe::Length(bytes) => Ok(bytes),
        SizeProbe::Unreadable(text) => Err(ModelFileFault::Metadata(text@)),
    }
}

/// The size of the model on disk in bytes: zero without a file, the file's
/// length with one, an error where the length could not be read.
pub fn get_whisper_model_size(probe: SizeProbe) -> (size: Result<u64, ModelFileError>)
    ensures
        match size {
            Ok(bytes) => model_size(probe) == Ok::<_, ModelFileFault>(bytes),
            Err(error) => model_size(probe) == Err::<u64, _>(error@),
        },
{
    match probe {
        SizeProbe::Missing => Ok(0),
        SizeProbe::Length(bytes) => Ok(bytes),
        SizeProbe::Unreadable(text) => Err(ModelFileError::Metadata(text)),
    }
}

/// One step of deleting the model file.
#[derive(Clone, Copy, Debug, PartialEq, Eq, Structural)]
pub enum DeleteStep {
    /// Give the file these permission bits, so that it can be removed.
    RelaxPermissions { mode: u32 },
    /// Remove the file.
    RemoveFile,
}

/// The steps that delete the model file: none without a file; with one, its
/// permissions are relaxed first and then it is removed.
pub open spec fn deletion_steps(exists: bool) -> Seq<DeleteStep> {
    if exists {
        seq![DeleteStep::RelaxPermissions { mode: REMOVABLE_MODE }, DeleteStep::RemoveFile]
    } else {
        Seq::empty()
    }
}

/// Plans the deletion of the model file. The program takes the steps in
/// order and stops at the first that fails.
pub fn delete_whisper_model(exists: bool) -> (steps: Vec<DeleteStep>)
    ensures
        steps@ == deletion_steps(exists),
{
    let mut steps: Vec<DeleteStep> = Vec::new();
    if exists {
        steps.push(DeleteStep::RelaxPermissions { mode: REMOVABLE_MODE });
        steps.push(DeleteStep::RemoveFile);
    }
    steps
}

impl DeleteStep {
    /// The error to report where this step failed for the reason `detail`.
    pub fn failure(&self, detail: String) -> (error: ModelFileError)
        ensures
            error@ == match *self {
                DeleteStep::RelaxPermissions { mode } => ModelFileFault::Permissions(detail@),
                DeleteStep::RemoveFile => ModelFileFault::Remove(detail@),
            },
    {
        match self {
            DeleteStep::RelaxPermissions { mode: _ } => ModelFileError::Permissions(detail),
            DeleteStep::RemoveFile => ModelFileError::Remove(detail),
        }
    }
}

} // verus!
