use ouch_error::{Error, FinalError, IoCategory};
use std::io;
use zip::result::ZipError;

#[test]
fn os_not_found_classifies_and_renders_file_not_found() {
    let err = io::Error::from_raw_os_error(2);
    let title = err.to_string();
    let classified = Error::from(err);
    assert_eq!(classified, Error::NotFound { error_title: title.clone() });
    let text = classified.render(false, false);
    assert_eq!(text, format!("[ERROR] {title}\n - File not found"));
}

#[test]
fn compressing_root_folder_renders_title_detail_and_one_hint() {
    let text = Error::CompressingRootFolder.render(false, false);
    assert_eq!(
        text,
        "[ERROR] It seems you're trying to compress the root folder.\n - This is unadvisable since ouch does compressions in-memory.\n\nhint: Use a more appropriate tool for this, such as rsync."
    );
    assert_eq!(text.matches("hint:").count(), 1);
}

#[test]
fn same_category_gives_same_variant() {
    let a = Error::from(io::Error::new(io::ErrorKind::NotFound, "first"));
    let b = Error::from(io::Error::new(io::ErrorKind::NotFound, "second"));
    assert_eq!(a, Error::NotFound { error_title: "first".to_string() });
    assert_eq!(b, Error::NotFound { error_title: "second".to_string() });
    let c = Error::from(io::Error::new(io::ErrorKind::Other, "x"));
    let d = Error::from(io::Error::new(io::ErrorKind::Other, "y"));
    assert!(matches!(c, Error::IoError { .. }));
    assert_eq!(c, d);
}

#[test]
fn io_categories_map_to_their_variants() {
    let denied = Error::from(io::Error::new(io::ErrorKind::PermissionDenied, "no access"));
    assert_eq!(denied, Error::PermissionDenied { error_title: "no access".to_string() });
    assert_eq!(denied.render(false, false), "[ERROR] no access\n - Permission denied");
    let exists = Error::from(io::Error::new(io::ErrorKind::AlreadyExists, "there"));
    assert_eq!(exists, Error::AlreadyExists { error_title: "there".to_string() });
    assert_eq!(exists.render(false, false), "[ERROR] there\n - File already exists");
    let other = Error::from(io::Error::new(io::ErrorKind::BrokenPipe, "pipe"));
    let described = io::ErrorKind::BrokenPipe.to_string();
    assert_eq!(described, "broken pipe");
    assert_eq!(other, Error::IoError { reason: described });
    assert_eq!(other.render(false, false), "[ERROR] broken pipe");
}

#[test]
fn io_other_keeps_the_kind_description() {
    let err = io::Error::from(io::ErrorKind::Other);
    let text = io::ErrorKind::Other.to_string();
    assert_eq!(Error::from(err), Error::IoError { reason: text });
    let os = io::Error::from_raw_os_error(32);
    let kind_text = os.kind().to_string();
    assert_ne!(os.to_string(), kind_text);
    assert_eq!(Error::from(os), Error::IoError { reason: kind_text });
}

#[test]
fn classification_from_parts() {
    let cases = [
        (IoCategory::NotFound, Error::NotFound { error_title: "m".to_string() }),
        (IoCategory::PermissionDenied, Error::PermissionDenied { error_title: "m".to_string() }),
        (IoCategory::AlreadyExists, Error::AlreadyExists { error_title: "m".to_string() }),
        (IoCategory::Other, Error::IoError { reason: "k".to_string() }),
    ];
    for (category, expected) in cases {
        assert_eq!(Error::from_io_parts(category, "m".to_string(), "k".to_string()), expected);
    }
}

#[test]
fn zip_errors_classify_by_their_kind() {
    assert_eq!(Error::from(ZipError::InvalidArchive("bad header")), Error::InvalidZipArchive("bad header"));
    assert_eq!(
        Error::from(ZipError::UnsupportedArchive("encrypted")),
        Error::UnsupportedZipArchive("encrypted")
    );
    let missing = Error::from(ZipError::FileNotFound);
    let expected = FinalError::with_title("Unexpected error in zip archive").detail("File not found");
    assert_eq!(missing, Error::Custom { reason: expected });
    let io = Error::from(ZipError::Io(io::Error::new(io::ErrorKind::PermissionDenied, "locked")));
    assert_eq!(io, Error::PermissionDenied { error_title: "locked".to_string() });
    let other = Error::from(ZipError::Io(io::Error::new(io::ErrorKind::UnexpectedEof, "short")));
    assert_eq!(other, Error::IoError { reason: io::ErrorKind::UnexpectedEof.to_string() });
}

#[test]
fn zip_entry_missing_differs_from_disk_not_found() {
    let inside = Error::from_zip(ZipError::FileNotFound);
    assert_eq!(
        inside.render(false, false),
        "[ERROR] Unexpected error in zip archive\n - File not found"
    );
    assert!(!matches!(inside, Error::NotFound { .. }));
}

#[test]
fn zip_codes_render_as_details() {
    assert_eq!(
        Error::InvalidZipArchive("bad header").render(false, false),
        "[ERROR] Invalid zip archive\n - bad header"
    );
    assert_eq!(
        Error::UnsupportedZipArchive("encrypted").render(true, false),
        "ERROR: Unsupported zip archive\n - encrypted"
    );
}

#[test]
fn lz4_error_keeps_its_description() {
    let err = lzzzz::lz4f::Error::Lz4f(lzzzz::lz4f::ErrorKind::Generic);
    let classified = Error::from(err);
    assert_eq!(classified, Error::Lz4Error { reason: "Generic".to_string() });
    assert_eq!(classified.render(false, false), "[ERROR] Generic");
}

#[test]
fn walkdir_error_keeps_its_description() {
    let mut walk = walkdir::WalkDir::new("/definitely/not/a/real/path/for/this/test").into_iter();
    let err = walk.next().unwrap().unwrap_err();
    let text = err.to_string();
    let classified = Error::from(err);
    assert_eq!(classified, Error::WalkdirError { reason: text.clone() });
    assert_eq!(classified.render(false, false), format!("[ERROR] {text}"));
}

#[test]
fn custom_error_renders_its_message() {
    let e = Error::from(FinalError::with_title("t").detail("d").hint("h"));
    assert_eq!(e.render(true, false), "ERROR: t\n - d\n\nhints:\nh");
    assert_eq!(e.into_message(), FinalError::with_title("t").detail("d").hint("h"));
}

#[test]
fn into_message_follows_the_table() {
    let m = Error::NotFound { error_title: "gone".to_string() }.into_message();
    assert_eq!(m, FinalError::with_title("gone").detail("File not found"));
    let m = Error::CompressingRootFolder.into_message();
    assert_eq!(
        m,
        FinalError::with_title("It seems you're trying to compress the root folder.")
            .detail("This is unadvisable since ouch does compressions in-memory.")
            .hint("Use a more appropriate tool for this, such as rsync.")
    );
}

#[test]
fn classification_from_kind() {
    let m = || "m".to_string();
    let k = || "k".to_string();
    assert_eq!(
        Error::from_io_kind(&io::ErrorKind::NotFound, m(), k()),
        Error::NotFound { error_title: "m".to_string() }
    );
    assert_eq!(
        Error::from_io_kind(&io::ErrorKind::PermissionDenied, m(), k()),
        Error::PermissionDenied { error_title: "m".to_string() }
    );
    assert_eq!(
        Error::from_io_kind(&io::ErrorKind::AlreadyExists, m(), k()),
        Error::AlreadyExists { error_title: "m".to_string() }
    );
    assert_eq!(
        Error::from_io_kind(&io::ErrorKind::Interrupted, m(), k()),
        Error::IoError { reason: "k".to_string() }
    );
}

#[test]
fn not_found_path_keeps_its_message() {
    let err = io::Error::new(io::ErrorKind::NotFound, "/tmp/x: No such file or directory");
    assert_eq!(
        Error::from(err),
        Error::NotFound { error_title: "/tmp/x: No such file or directory".to_string() }
    );
}
