use crnch::engine::Engine;
use crnch::paths::{
    check_extension, system_directory_of, validate_file_extension, validate_output_path,
    ExtensionError, OutputPathError, ParentDirectory, SystemDirectory,
};
use crnch::protocol::{Action, CompressionRequest, Format, Invocation};
use crnch::request::{compress_file, start, CompressError};

#[test]
fn test_validate_file_extension_supported() {
    assert!(validate_file_extension("image.png").is_ok());
    assert!(validate_file_extension("photo.jpg").is_ok());
    assert!(validate_file_extension("photo.JPEG").is_ok());
    assert!(validate_file_extension("document.pdf").is_ok());
}

#[test]
fn test_validate_file_extension_unsupported() {
    assert!(validate_file_extension("file.txt").is_err());
    assert!(validate_file_extension("file.zip").is_err());
    assert!(validate_file_extension("file.md").is_err());
}

#[test]
fn test_validate_file_extension_no_extension() {
    assert!(validate_file_extension("file").is_err());
}

#[test]
fn validate_file_extension_returns_lowercase() {
    assert_eq!(validate_file_extension("photo.JPEG"), Ok(String::from("jpeg")));
    assert_eq!(validate_file_extension("a/b/c.Png"), Ok(String::from("png")));
    assert_eq!(validate_file_extension("scan.final.PDF"), Ok(String::from("pdf")));
}

#[test]
fn validate_file_extension_names_each_reason() {
    assert_eq!(validate_file_extension("file"), Err(ExtensionError::Missing));
    assert_eq!(validate_file_extension(".png"), Err(ExtensionError::Missing));
    assert_eq!(validate_file_extension("dir.png/file"), Err(ExtensionError::Missing));
    assert_eq!(
        validate_file_extension("file.TXT"),
        Err(ExtensionError::Unsupported { extension: String::from("txt") })
    );
    assert_eq!(
        validate_file_extension("file."),
        Err(ExtensionError::Unsupported { extension: String::new() })
    );
}

#[test]
fn check_extension_takes_lowercase_only() {
    assert_eq!(check_extension(Some(String::from("jpg"))), Ok(String::from("jpg")));
    assert_eq!(check_extension(None), Err(ExtensionError::Missing));
    assert_eq!(
        check_extension(Some(String::from("JPG"))),
        Err(ExtensionError::Unsupported { extension: String::from("JPG") })
    );
}

#[test]
fn extension_error_messages() {
    assert_eq!(
        ExtensionError::Missing.message("file"),
        "File 'file' has no extension.\nSupported formats: .jpg, .jpeg, .png, .pdf"
    );
    assert_eq!(
        ExtensionError::Unsupported { extension: String::from("txt") }.message("file.txt"),
        "Unsupported file type: .txt\nSupported formats: .jpg, .jpeg, .png, .pdf"
    );
}

#[test]
fn format_from_extension() {
    assert_eq!(Format::from_extension("jpg"), Some(Format::Jpeg));
    assert_eq!(Format::from_extension("jpeg"), Some(Format::Jpeg));
    assert_eq!(Format::from_extension("png"), Some(Format::Png));
    assert_eq!(Format::from_extension("pdf"), Some(Format::Pdf));
    assert_eq!(Format::from_extension("PNG"), None);
    assert_eq!(Format::from_extension("gif"), None);
    assert_eq!(Format::from_extension(""), None);
    assert_eq!(Format::from_extension("jp"), None);
    assert_eq!(Format::from_extension("jpegs"), None);
}

#[test]
fn system_directories_are_found_in_order() {
    assert_eq!(system_directory_of("/etc/out.png"), Some(SystemDirectory::Etc));
    assert_eq!(system_directory_of("/sys/out.png"), Some(SystemDirectory::Sys));
    assert_eq!(system_directory_of("/proc/1/out.png"), Some(SystemDirectory::Proc));
    assert_eq!(system_directory_of("/dev/null"), Some(SystemDirectory::Dev));
    assert_eq!(system_directory_of("/boot/out.pdf"), Some(SystemDirectory::Boot));
    assert_eq!(system_directory_of("/root/out.pdf"), Some(SystemDirectory::Root));
    assert_eq!(system_directory_of("/etcetera/out.png"), Some(SystemDirectory::Etc));
    assert_eq!(system_directory_of("/home/me/out.png"), None);
    assert_eq!(system_directory_of("etc/out.png"), None);
    assert_eq!(system_directory_of("/et"), None);
    assert_eq!(system_directory_of(""), None);
}

#[test]
fn validate_output_path_checks_system_directories_first() {
    assert_eq!(
        validate_output_path("/etc/out.png", ParentDirectory::Writable),
        Err(OutputPathError::SystemDirectory { directory: SystemDirectory::Etc })
    );
    assert_eq!(
        validate_output_path("/root/x/out.png", ParentDirectory::Missing),
        Err(OutputPathError::SystemDirectory { directory: SystemDirectory::Root })
    );
}

#[test]
fn validate_output_path_goes_by_the_directory() {
    assert_eq!(validate_output_path("out.png", ParentDirectory::Current), Ok(()));
    assert_eq!(validate_output_path("/tmp/out.png", ParentDirectory::Writable), Ok(()));
    assert_eq!(
        validate_output_path("/nowhere/out.png", ParentDirectory::Missing),
        Err(OutputPathError::MissingDirectory)
    );
    assert_eq!(
        validate_output_path("/locked/out.png", ParentDirectory::Inaccessible),
        Err(OutputPathError::InaccessibleDirectory)
    );
    assert_eq!(
        validate_output_path("/ro/out.png", ParentDirectory::ReadOnly),
        Err(OutputPathError::ReadOnlyDirectory)
    );
}

#[test]
fn compress_file_picks_the_engine_by_extension() {
    let (_, action) = compress_file("photo.JPG", 1000, None, None, false).unwrap();
    assert_eq!(action, Action::Invoke(Invocation::LosslessOptimize));
    let (_, action) = compress_file("image.png", 1000, None, None, false).unwrap();
    assert_eq!(action, Action::Invoke(Invocation::StripMetadata));
    let (engine, _) = compress_file("doc.pdf", 1000, Some("200k"), None, false).unwrap();
    assert!(matches!(engine, Engine::Pdf { .. }));
}

#[test]
fn compress_file_reads_the_target() {
    let request =
        CompressionRequest { original_kb: 5000, target_kb: Some(1536), level: None, auto_yes: true };
    assert_eq!(
        compress_file("image.png", 5000, Some("1.5m"), None, true),
        Ok(Engine::begin(Format::Png, request))
    );
    let no_target =
        CompressionRequest { original_kb: 5000, target_kb: None, level: None, auto_yes: true };
    assert_eq!(
        compress_file("image.png", 5000, Some("nonsense"), None, true),
        Ok(Engine::begin(Format::Png, no_target))
    );
}

#[test]
fn compress_file_rejects_other_files() {
    assert_eq!(
        compress_file("notes.TXT", 10, None, None, false),
        Err(CompressError::UnsupportedFileType { extension: String::from("txt") })
    );
    assert_eq!(
        compress_file("Makefile", 10, None, None, false),
        Err(CompressError::UnsupportedFileType { extension: String::new() })
    );
    assert_eq!(
        CompressError::UnsupportedFileType { extension: String::from("txt") }.message(),
        "Unsupported file type: .txt"
    );
}

#[test]
fn start_takes_a_lowercase_extension() {
    let request =
        CompressionRequest { original_kb: 10, target_kb: None, level: None, auto_yes: false };
    assert_eq!(start("png", request), Ok(Engine::begin(Format::Png, request)));
    assert_eq!(
        start("PNG", request),
        Err(CompressError::UnsupportedFileType { extension: String::from("PNG") })
    );
}
