use monots_docgen::binary_extract::{
    archive_format, archive_format_of, ArchiveFormat, ExtractError,
};
use monots_docgen::Extract;

#[test]
fn double_extension_is_read_as_gz() {
    assert_eq!(archive_format("download/tool.tar.gz"), Ok(ArchiveFormat::TarGz));
}

#[test]
fn zip_tgz_and_tar_are_known() {
    assert_eq!(archive_format("tool.zip"), Ok(ArchiveFormat::Zip));
    assert_eq!(archive_format("tool.tgz"), Ok(ArchiveFormat::TarGz));
    assert_eq!(archive_format("tool.tar"), Ok(ArchiveFormat::TarGz));
}

#[test]
fn path_without_extension_is_reported() {
    let error = archive_format("bin/tool").unwrap_err();
    assert_eq!(error, ExtractError::NoExtension("bin/tool".to_string()));
    assert_eq!(error.message(), "No extension for the given path: bin/tool");
}

#[test]
fn unknown_extension_is_reported_by_name() {
    let error = archive_format("tool.rar").unwrap_err();
    assert_eq!(error, ExtractError::UnsupportedFileType("rar".to_string()));
    assert_eq!(error.message(), "Unsupported file type: rar");
}

#[test]
fn extension_is_matched_exactly() {
    assert_eq!(
        archive_format_of("tool.ZIP", Some("ZIP".to_string())),
        Err(ExtractError::UnsupportedFileType("ZIP".to_string()))
    );
    assert_eq!(
        archive_format_of("tool", None),
        Err(ExtractError::NoExtension("tool".to_string()))
    );
    assert_eq!(archive_format_of("ignored", Some("zip".to_string())), Ok(ArchiveFormat::Zip));
}

#[test]
fn request_decides_by_its_source() {
    let request = Extract::new("a/b.zip".to_string(), "out".to_string());
    assert_eq!(request.format(), Ok(ArchiveFormat::Zip));
    assert_eq!(request.to, "out");
}

#[test]
fn dot_file_has_no_extension() {
    assert_eq!(
        archive_format(".hidden"),
        Err(ExtractError::NoExtension(".hidden".to_string()))
    );
}
