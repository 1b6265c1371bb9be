use corner::model::{
    check_whisper_model, delete_whisper_model, get_whisper_model_size, model_path, model_path_in,
    DeleteStep, ModelFileError, ModelProbe, ModelVerdict, SizeProbe, MODEL_FILENAME, MODEL_URL,
    REMOVABLE_MODE,
};

#[test]
fn model_is_the_english_base_model() {
    assert_eq!(MODEL_FILENAME, "ggml-base.en.bin");
    assert_eq!(
        MODEL_URL,
        "https://huggingface.co/ggerganov/whisper.cpp/resolve/main/ggml-base.en.bin"
    );
}

#[test]
fn model_lies_below_the_cache_directory() {
    let path = model_path_in(Some("/home/alice/.cache".to_string()));
    let expected = std::path::Path::new("/home/alice/.cache")
        .join("corner")
        .join("models")
        .join("ggml-base.en.bin");
    assert_eq!(std::path::Path::new(&path), expected.as_path());
}

#[test]
fn model_lies_below_the_current_directory_without_a_cache_directory() {
    let path = model_path_in(None);
    let expected =
        std::path::Path::new(".").join("corner").join("models").join("ggml-base.en.bin");
    assert_eq!(std::path::Path::new(&path), expected.as_path());
}

#[test]
fn model_path_is_the_same_at_every_call() {
    let path = model_path();
    assert_eq!(path, model_path());
    if let Some(path) = path {
        let tail = std::path::Path::new("corner").join("models").join("ggml-base.en.bin");
        assert!(std::path::Path::new(&path).ends_with(&tail));
    }
}

#[test]
fn model_path_follows_the_platforms_cache_directory() {
    let expected = match dirs::cache_dir() {
        Some(directory) => directory.to_str().map(|text| model_path_in(Some(text.to_string()))),
        None => Some(model_path_in(None)),
    };
    assert_eq!(model_path(), expected);
}

#[test]
fn missing_model_is_not_valid_and_nothing_is_removed() {
    assert_eq!(
        check_whisper_model(&ModelProbe::Missing),
        ModelVerdict { valid: false, remove_file: false }
    );
}

#[test]
fn loadable_model_is_valid_and_kept() {
    assert_eq!(
        check_whisper_model(&ModelProbe::Loadable),
        ModelVerdict { valid: true, remove_file: false }
    );
}

#[test]
fn corrupt_model_is_not_valid_and_is_removed() {
    assert_eq!(
        check_whisper_model(&ModelProbe::Unloadable("bad magic".to_string())),
        ModelVerdict { valid: false, remove_file: true }
    );
}

#[test]
fn check_after_the_corrupt_file_was_removed_finds_no_model() {
    // What the program sees before and after it removed the file.
    let first = check_whisper_model(&ModelProbe::Unloadable("truncated".to_string()));
    assert!(!first.valid && first.remove_file);
    let second = check_whisper_model(&ModelProbe::Missing);
    assert!(!second.valid && !second.remove_file);
}

#[test]
fn size_of_a_missing_model_is_zero() {
    assert_eq!(get_whisper_model_size(SizeProbe::Missing), Ok(0));
}

#[test]
fn size_of_a_model_is_its_length() {
    assert_eq!(get_whisper_model_size(SizeProbe::Length(147_951_465)), Ok(147_951_465));
    assert_eq!(get_whisper_model_size(SizeProbe::Length(0)), Ok(0));
    assert_eq!(get_whisper_model_size(SizeProbe::Length(u64::MAX)), Ok(u64::MAX));
}

#[test]
fn size_of_an_unreadable_model_is_an_error() {
    let result = get_whisper_model_size(SizeProbe::Unreadable("permission denied".to_string()));
    assert_eq!(result, Err(ModelFileError::Metadata("permission denied".to_string())));
    assert_eq!(result.unwrap_err().message(), "Failed to get model size: permission denied");
}

#[test]
fn deleting_a_missing_model_takes_no_step() {
    assert_eq!(delete_whisper_model(false), Vec::new());
}

#[test]
fn deleting_a_model_relaxes_its_permissions_and_removes_it() {
    assert_eq!(REMOVABLE_MODE, 0o644);
    assert_eq!(
        delete_whisper_model(true),
        vec![DeleteStep::RelaxPermissions { mode: 0o644 }, DeleteStep::RemoveFile]
    );
}

#[test]
fn failed_deletion_steps_have_their_errors() {
    let relax = DeleteStep::RelaxPermissions { mode: 0o644 };
    let error = relax.failure("read-only file system".to_string());
    assert_eq!(error, ModelFileError::Permissions("read-only file system".to_string()));
    assert_eq!(error.message(), "Failed to set file permissions: read-only file system");
    let error = DeleteStep::RemoveFile.failure("busy".to_string());
    assert_eq!(error, ModelFileError::Remove("busy".to_string()));
    assert_eq!(error.message(), "Failed to delete model: busy");
}
