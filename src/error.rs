//! The taxonomy of errors and the rules that classify foreign failures.

use vstd::prelude::*;
use vstd::string::to_string_from_display_ensures;

use crate::message::{
    accessible_header_shown_once, hint_label, hints_label, render_message,
    standard_label_shown_per_hint, texts_lack, FinalError, MessageView,
};
use crate::text::{lacks, lemma_occurrences_absent_last, occurrences};
use lzzzz::lz4f::Error as Lz4fError;
use walkdir::Error as WalkError;

verus! {

#[verifier::external_type_specification]
#[verifier::external_body]
pub struct ExIoError(std::io::Error);

#[verifier::external_type_specification]
#[verifier::external_body]
pub struct ExLz4Error(Lz4fError);

#[verifier::external_type_specification]
#[verifier::external_body]
pub struct ExWalkdirError(WalkError);

#[verifier::external_type_specification]
pub struct ExIoErrorKind(std::io::ErrorKind);

#[verifier::external_type_specification]
pub struct ExZipError(zip::result::ZipError);

/// Relies on std::io::Error::kind, to read the category of a failure.
pub assume_specification[ std::io::Error::kind ](err: &std::io::Error) -> std::io::ErrorKind;

/// The result of an operation that may fail with an [`Error`].
pub type Result<T> = std::result::Result<T, Error>;

/// All errors that can be reported to the user.
#[derive(Debug, PartialEq)]
#[allow(inconsistent_fields)]
pub enum Error {
    /// An I/O failure that none of the more specific variants describes
    IoError { reason: String },
    /// A failure of the LZ4 frame codec
    Lz4Error { reason: String },
    /// An I/O failure whose category is "entity not found"
    NotFound { error_title: String },
    /// An I/O failure whose category is "already exists"
    AlreadyExists { error_title: String },
    /// The archive reader found an invalid zip archive
    InvalidZipArchive(&'static str),
    /// An I/O failure whose category is "permission denied"
    PermissionDenied { error_title: String },
    /// The archive reader does not support this zip archive
    UnsupportedZipArchive(&'static str),
    /// Refusal to compress the root folder in memory
    CompressingRootFolder,
    /// A failure while walking a directory tree
    WalkdirError { reason: String },
    /// Custom and unique errors are reported in this variant
    Custom { reason: FinalError },
}

/// An [`Error`] with its texts seen as character sequences.
#[allow(inconsistent_fields)]
pub enum ErrorView {
    IoError { reason: Seq<char> },
    Lz4Error { reason: Seq<char> },
    NotFound { error_title: Seq<char> },
    AlreadyExists { error_title: Seq<char> },
    InvalidZipArchive(Seq<char>),
    PermissionDenied { error_title: Seq<char> },
    UnsupportedZipArchive(Seq<char>),
    CompressingRootFolder,
    WalkdirError { reason: Seq<char> },
    Custom { reason: MessageView },
}

impl View for Error {
    type V = ErrorView;

    open spec fn view(&self) -> ErrorView {
        match self {
            Error::IoError { reason } => ErrorView::IoError { reason: reason@ },
            Error::Lz4Error { reason } => ErrorView::Lz4Error { reason: reason@ },
            Error::NotFound { error_title } => ErrorView::NotFound { error_title: error_title@ },
            Error::AlreadyExists { error_title } => ErrorView::AlreadyExists {
                error_title: error_title@,
            },
            Error::InvalidZipArchive(code) => ErrorView::InvalidZipArchive(code@),
            Error::PermissionDenied { error_title } => ErrorView::PermissionDenied {
                error_title: error_title@,
            },
            Error::UnsupportedZipArchive(code) => ErrorView::UnsupportedZipArchive(code@),
            Error::CompressingRootFolder => ErrorView::CompressingRootFolder,
            Error::WalkdirError { reason } => ErrorView::WalkdirError { reason: reason@ },
            Error::Custom { reason } => ErrorView::Custom { reason: reason@ },
        }
    }
}

/// A message with a title, the given details and the given hints.
pub open spec fn message_with(
    title: Seq<char>,
    details: Seq<Seq<char>>,
    hints: Seq<Seq<char>>,
) -> MessageView {
    MessageView { title, details, hints }
}

/// The message that describes a failure inside an opened zip archive: an
/// entry that is not there.
pub open spec fn zip_entry_missing() -> MessageView {
    message_with("Unexpected error in zip archive"@, seq!["File not found"@], seq![])
}

/// The message that each kind of error is shown as.
pub open spec fn message_of(e: ErrorView) -> MessageView {
    match e {
        ErrorView::WalkdirError { reason } => message_with(reason, seq![], seq![]),
        ErrorView::NotFound { error_title } => message_with(error_title, seq!["File not found"@], seq![]),
        ErrorView::CompressingRootFolder => message_with(
            "It seems you're trying to compress the root folder."@,
            seq!["This is unadvisable since ouch does compressions in-memory."@],
            seq!["Use a more appropriate tool for this, such as rsync."@],
        ),
        ErrorView::IoError { reason } => message_with(reason, seq![], seq![]),
        ErrorView::Lz4Error { reason } => message_with(reason, seq![], seq![]),
        ErrorView::AlreadyExists { error_title } => message_with(
            error_title,
            seq!["File already exists"@],
            seq![],
        ),
        ErrorView::InvalidZipArchive(code) => message_with("Invalid zip archive"@, seq![code], seq![]),
        ErrorView::PermissionDenied { error_title } => message_with(
            error_title,
            seq!["Permission denied"@],
            seq![],
        ),
        ErrorView::UnsupportedZipArchive(code) => message_with(
            "Unsupported zip archive"@,
            seq![code],
            seq![],
        ),
        ErrorView::Custom { reason } => reason,
    }
}

/// The coarse category of an I/O failure, as far as classification reads it.
#[derive(Clone, Copy, Debug, PartialEq, Eq)]
pub enum IoCategory {
    NotFound,
    PermissionDenied,
    AlreadyExists,
    Other,
}

/// How an I/O failure is classified from its category, its own message and
/// the default description of its kind: the three categories that have a
/// variant of their own keep the message as the title, any other keeps the
/// kind's description as the reason.
pub open spec fn classify_io(
    category: IoCategory,
    message: Seq<char>,
    kind_description: Seq<char>,
) -> ErrorView {
    match category {
        IoCategory::NotFound => ErrorView::NotFound { error_title: message },
        IoCategory::PermissionDenied => ErrorView::PermissionDenied { error_title: message },
        IoCategory::AlreadyExists => ErrorView::AlreadyExists { error_title: message },
        IoCategory::Other => ErrorView::IoError { reason: kind_description },
    }
}

/// The classification of the I/O failure `err`: by the category of a kind,
/// with the message of `err` and the description of that same kind.
pub open spec fn is_io_classification(e: ErrorView, err: &std::io::Error) -> bool {
    exists|k: std::io::ErrorKind, s: String, t: String|
        #![trigger classify_io(category_of(k), s@, t@), to_string_from_display_ensures::<std::io::Error>(err, s), to_string_from_display_ensures::<std::io::ErrorKind>(&k, t)]
        to_string_from_display_ensures::<std::io::Error>(err, s)
            && to_string_from_display_ensures::<std::io::ErrorKind>(&k, t) && e == classify_io(
            category_of(k),
            s@,
            t@,
        )
}

/// How each failure of the archive reader is classified: an I/O failure as
/// any other, a missing entry as a custom message, the rest by their codes.
pub open spec fn zip_classification(err: &zip::result::ZipError, e: ErrorView) -> bool {
    match err {
        zip::result::ZipError::Io(io_err) => is_io_classification(e, io_err),
        zip::result::ZipError::InvalidArchive(code) => e == ErrorView::InvalidZipArchive(code@),
        zip::result::ZipError::UnsupportedArchive(code) => e == ErrorView::UnsupportedZipArchive(
            code@,
        ),
        zip::result::ZipError::FileNotFound => e == (ErrorView::Custom {
            reason: zip_entry_missing(),
        }),
    }
}

/// The two failures of the archive reader are of the same kind.
pub open spec fn same_zip_kind(a: &zip::result::ZipError, b: &zip::result::ZipError) -> bool {
    match (a, b) {
        (zip::result::ZipError::Io(_), zip::result::ZipError::Io(_)) => true,
        (zip::result::ZipError::InvalidArchive(_), zip::result::ZipError::InvalidArchive(_)) => true,
        (
            zip::result::ZipError::UnsupportedArchive(_),
            zip::result::ZipError::UnsupportedArchive(_),
        ) => true,
        (zip::result::ZipError::FileNotFound, zip::result::ZipError::FileNotFound) => true,
        _ => false,
    }
}

/// The category of an I/O failure of the given kind: the three kinds that
/// have a variant of their own, and all the others.
pub open spec fn category_of(kind: std::io::ErrorKind) -> IoCategory {
    match kind {
        std::io::ErrorKind::NotFound => IoCategory::NotFound,
        std::io::ErrorKind::PermissionDenied => IoCategory::PermissionDenied,
        std::io::ErrorKind::AlreadyExists => IoCategory::AlreadyExists,
        _ => IoCategory::Other,
    }
}

/// The category of an I/O failure of the given kind.
fn io_category(kind: &std::io::ErrorKind) -> (r: IoCategory)
    ensures
        r == category_of(*kind),
{
    match kind {
        std::io::ErrorKind::NotFound => IoCategory::NotFound,
        std::io::ErrorKind::PermissionDenied => IoCategory::PermissionDenied,
        std::io::ErrorKind::AlreadyExists => IoCategory::AlreadyExists,
        _ => IoCategory::Other,
    }
}

/// Which variant of [`ErrorView`] a value is, numbered in declaration order.
pub open spec fn variant_of(e: ErrorView) -> nat {
    match e {
        ErrorView::IoError { .. } => 0,
        ErrorView::Lz4Error { .. } => 1,
        ErrorView::NotFound { .. } => 2,
        ErrorView::AlreadyExists { .. } => 3,
        ErrorView::InvalidZipArchive(_) => 4,
        ErrorView::PermissionDenied { .. } => 5,
        ErrorView::UnsupportedZipArchive(_) => 6,
        ErrorView::CompressingRootFolder => 7,
        ErrorView::WalkdirError { .. } => 8,
        ErrorView::Custom { .. } => 9,
    }
}

/// Classification of an I/O failure is decided by its kind: failures of one
/// kind become the same variant whatever their messages, the same message and
/// description always give the same error, a failure is `NotFound` exactly
/// when its kind is, and a kind without a variant of its own keeps its
/// description as the reason.
pub proof fn classification_follows_kind(
    kind: std::io::ErrorKind,
    a: Seq<char>,
    ka: Seq<char>,
    b: Seq<char>,
    kb: Seq<char>,
)
    ensures
        variant_of(classify_io(category_of(kind), a, ka)) == variant_of(
            classify_io(category_of(kind), b, kb),
        ),
        a == b && ka == kb ==> classify_io(category_of(kind), a, ka) == classify_io(
            category_of(kind),
            b,
            kb,
        ),
        (kind == std::io::ErrorKind::NotFound) <==> (classify_io(category_of(kind), a, ka)
            == ErrorView::NotFound { error_title: a }),
        kind == std::io::ErrorKind::PermissionDenied ==> classify_io(category_of(kind), a, ka)
            == (ErrorView::PermissionDenied { error_title: a }),
        kind == std::io::ErrorKind::AlreadyExists ==> classify_io(category_of(kind), a, ka)
            == (ErrorView::AlreadyExists { error_title: a }),
        category_of(kind) == IoCategory::Other ==> classify_io(category_of(kind), a, ka)
            == (ErrorView::IoError { reason: ka }),
{
}

/// One of the variants that an I/O failure can become.
pub open spec fn is_io_variant(e: ErrorView) -> bool {
    ||| e is IoError
    ||| e is NotFound
    ||| e is AlreadyExists
    ||| e is PermissionDenied
}

/// Classification of a failure of the archive reader is decided by its kind:
/// two failures of one kind other than I/O become the same variant, a missing
/// entry always the same error, and an I/O failure one of the I/O variants.
pub proof fn zip_classification_follows_kind(
    a: &zip::result::ZipError,
    b: &zip::result::ZipError,
    ea: ErrorView,
    eb: ErrorView,
)
    requires
        zip_classification(a, ea),
        zip_classification(b, eb),
        same_zip_kind(a, b),
    ensures
        !(a is Io) ==> variant_of(ea) == variant_of(eb),
        a is FileNotFound ==> ea == eb,
        a is Io ==> is_io_variant(ea) && is_io_variant(eb),
{
}

/// Rendering an error depends on the error and the two settings alone:
/// equal errors render to the same text, however often they are rendered.
pub proof fn error_rendering_is_repeatable(
    a: ErrorView,
    b: ErrorView,
    accessible: bool,
    color: bool,
)
    requires
        a == b,
    ensures
        render_message(message_of(a), accessible, color) == render_message(
            message_of(b),
            accessible,
            color,
        ),
{
}

/// Refusing to compress the root folder is shown with its one title, one
/// detail about in-memory compression and exactly one hint: in standard mode
/// the hint label appears once, in accessible mode the hints header once.
pub proof fn root_folder_rendering(color: bool)
    ensures
        message_of(ErrorView::CompressingRootFolder) == message_with(
            "It seems you're trying to compress the root folder."@,
            seq!["This is unadvisable since ouch does compressions in-memory."@],
            seq!["Use a more appropriate tool for this, such as rsync."@],
        ),
        occurrences(
            render_message(message_of(ErrorView::CompressingRootFolder), false, color),
            hint_label(),
        ) == 1,
        occurrences(
            render_message(message_of(ErrorView::CompressingRootFolder), true, color),
            hints_label(),
        ) == 1,
{
    let m = message_of(ErrorView::CompressingRootFolder);
    let title = "It seems you're trying to compress the root folder."@;
    let detail = "This is unadvisable since ouch does compressions in-memory."@;
    let hint = "Use a more appropriate tool for this, such as rsync."@;
    reveal_strlit("It seems you're trying to compress the root folder.");
    reveal_strlit("This is unadvisable since ouch does compressions in-memory.");
    reveal_strlit("Use a more appropriate tool for this, such as rsync.");
    reveal_strlit("hint:");
    reveal_strlit("hints:");
    assert(lacks(title, ':'));
    assert(lacks(detail, ':'));
    assert(lacks(hint, ':'));
    assert(hint_label().last() == ':');
    assert(hints_label().last() == ':');
    lemma_occurrences_absent_last(title, hint_label());
    lemma_occurrences_absent_last(detail, hint_label());
    lemma_occurrences_absent_last(hint, hint_label());
    lemma_occurrences_absent_last(title, hints_label());
    lemma_occurrences_absent_last(detail, hints_label());
    lemma_occurrences_absent_last(hint, hints_label());
    assert(m.details[0] == detail);
    assert(m.hints[0] == hint);
    assert(texts_lack(m, hint_label()));
    assert(texts_lack(m, hints_label()));
    standard_label_shown_per_hint(m, color);
    accessible_header_shown_once(m, color);
}

impl Error {
    /// The message of an error that is not [`Error::Custom`], by the table
    /// of [`message_of`].
    fn table_message(&self) -> (r: FinalError)
        requires
            !(self@ is Custom),
        ensures
            r@ == message_of(self@),
    {
        match self {
            Error::WalkdirError { reason } => FinalError::with_title(reason.as_str()),
            Error::NotFound { error_title } => FinalError::with_title(error_title.as_str()).detail(
                "File not found",
            ),
            Error::CompressingRootFolder => FinalError::with_title(
                "It seems you're trying to compress the root folder.",
            ).detail("This is unadvisable since ouch does compressions in-memory.").hint(
                "Use a more appropriate tool for this, such as rsync.",
            ),
            Error::IoError { reason } => FinalError::with_title(reason.as_str()),
            Error::Lz4Error { reason } => FinalError::with_title(reason.as_str()),
            Error::AlreadyExists { error_title } => FinalError::with_title(
                error_title.as_str(),
            ).detail("File already exists"),
            Error::InvalidZipArchive(code) => FinalError::with_title("Invalid zip archive").detail(
                code,
            ),
            Error::PermissionDenied { error_title } => FinalError::with_title(
                error_title.as_str(),
            ).detail("Permission denied"),
            Error::UnsupportedZipArchive(code) => FinalError::with_title(
                "Unsupported zip archive",
            ).detail(code),
            Error::Custom { .. } => FinalError::with_title(""),
        }
    }
    /// The message that this error is shown as.
    pub fn into_message(self) -> (r: FinalError)
        ensures
            r@ == message_of(self@),
    {
        match self {
            Error::Custom { reason } => reason,
            other => other.table_message(),
        }
    }

    /// The text shown to the user for this error, in accessible or standard
    /// mode, with or without color accents.
    pub fn render(&self, accessible: bool, color: bool) -> (r: String)
        ensures
            r@ == render_message(message_of(self@), accessible, color),
    {
        match self {
            Error::Custom { reason } => reason.render(accessible, color),
            _ => self.table_message().render(accessible, color),
        }
    }

    /// Classifies an I/O failure from its category, its own message and the
    /// default description of its kind.
    pub fn from_io_parts(category: IoCategory, message: String, kind_description: String) -> (r:
        Error)
        ensures
            r@ == classify_io(category, message@, kind_description@),
    {
        match category {
            IoCategory::NotFound => Error::NotFound { error_title: message },
            IoCategory::PermissionDenied => Error::PermissionDenied { error_title: message },
            IoCategory::AlreadyExists => Error::AlreadyExists { error_title: message },
            IoCategory::Other => Error::IoError { reason: kind_description },
        }
    }

    /// Classifies an I/O failure of the given kind from its message and the
    /// kind's default description.
    pub fn from_io_kind(kind: &std::io::ErrorKind, message: String, kind_description: String) -> (r:
        Error)
        ensures
            r@ == classify_io(category_of(*kind), message@, kind_description@),
    {
        Error::from_io_parts(io_category(kind), message, kind_description)
    }

    /// Classifies an I/O failure by the category of its kind.
    pub fn from_io(err: std::io::Error) -> (r: Error)
        ensures
            is_io_classification(r@, &err),
    {
        let kind = err.kind();
        let message = err.to_string();
        let kind_description = kind.to_string();
        let r = Error::from_io_kind(&kind, message, kind_description);
        assert(to_string_from_display_ensures::<std::io::Error>(&err, message)
            && to_string_from_display_ensures::<std::io::ErrorKind>(&kind, kind_description) && r@
            == classify_io(category_of(kind), message@, kind_description@));
        r
    }

    /// Wraps a failure of the LZ4 frame codec, keeping its description.
    pub fn from_lz4(err: Lz4fError) -> (r: Error)
        ensures
            exists|s: String|
                #[trigger] to_string_from_display_ensures::<Lz4fError>(&err, s) && r@
                    == (ErrorView::Lz4Error { reason: s@ }),
    {
        let reason = err.to_string();
        Error::Lz4Error { reason }
    }

    /// Wraps a failure of the directory walk, keeping its description.
    pub fn from_walkdir(err: WalkError) -> (r: Error)
        ensures
            exists|s: String|
                #[trigger] to_string_from_display_ensures::<WalkError>(&err, s) && r@
                    == (ErrorView::WalkdirError { reason: s@ }),
    {
        let reason = err.to_string();
        Error::WalkdirError { reason }
    }

    /// Classifies a failure of the archive reader: an I/O failure as any
    /// other, a missing entry as a custom message, the rest by their codes.
    pub fn from_zip(err: zip::result::ZipError) -> (r: Error)
        ensures
            zip_classification(&err, r@),
    {
        match err {
            zip::result::ZipError::Io(io_err) => Error::from_io(io_err),
            zip::result::ZipError::InvalidArchive(code) => Error::InvalidZipArchive(code),
            zip::result::ZipError::UnsupportedArchive(code) => Error::UnsupportedZipArchive(code),
            zip::result::ZipError::FileNotFound => {
                let reason = FinalError::with_title("Unexpected error in zip archive").detail(
                    "File not found",
                );
                Error::Custom { reason }
            },
        }
    }
}

impl From<FinalError> for Error {
    fn from(err: FinalError) -> (r: Error) {
        Error::Custom { reason: err }
    }
}

impl vstd::std_specs::convert::FromSpecImpl<FinalError> for Error {
    open spec fn obeys_from_spec() -> bool {
        true
    }

    open spec fn from_spec(v: FinalError) -> Error {
        Error::Custom { reason: v }
    }
}

impl From<std::io::Error> for Error {
    fn from(err: std::io::Error) -> (r: Error)
        ensures
            is_io_classification(r@, &err),
    {
        Error::from_io(err)
    }
}

/// The description of an I/O failure is not known in specifications, so this conversion
/// states no closed form: what it returns is said by [`Error::from_io`].
impl vstd::std_specs::convert::FromSpecImpl<std::io::Error> for Error {
    open spec fn obeys_from_spec() -> bool {
        false
    }

    open spec fn from_spec(v: std::io::Error) -> Error {
        arbitrary()
    }
}

impl From<Lz4fError> for Error {
    fn from(err: Lz4fError) -> (r: Error)
        ensures
            exists|s: String|
                #[trigger] to_string_from_display_ensures::<Lz4fError>(&err, s) && r@
                    == (ErrorView::Lz4Error { reason: s@ }),
    {
        Error::from_lz4(err)
    }
}

/// The description of a codec failure is not known in specifications, so this conversion
/// states no closed form: what it returns is said by [`Error::from_lz4`].
impl vstd::std_specs::convert::FromSpecImpl<Lz4fError> for Error {
    open spec fn obeys_from_spec() -> bool {
        false
    }

    open spec fn from_spec(v: Lz4fError) -> Error {
        arbitrary()
    }
}

impl From<WalkError> for Error {
    fn from(err: WalkError) -> (r: Error)
        ensures
            exists|s: String|
                #[trigger] to_string_from_display_ensures::<WalkError>(&err, s) && r@
                    == (ErrorView::WalkdirError { reason: s@ }),
    {
        Error::from_walkdir(err)
    }
}

/// The description of a directory walk failure is not known in specifications, so this conversion
/// states no closed form: what it returns is said by [`Error::from_walkdir`].
impl vstd::std_specs::convert::FromSpecImpl<WalkError> for Error {
    open spec fn obeys_from_spec() -> bool {
        false
    }

    open spec fn from_spec(v: WalkError) -> Error {
        arbitrary()
    }
}

impl From<zip::result::ZipError> for Error {
    fn from(err: zip::result::ZipError) -> (r: Error)
        ensures
            zip_classification(&err, r@),
    {
        Error::from_zip(err)
    }
}

/// An archive reader failure may carry an I/O failure, whose description is not
/// known in specifications, so this conversion states no closed form: what it returns is said by [`Error::from_zip`].
impl vstd::std_specs::convert::FromSpecImpl<zip::result::ZipError> for Error {
    open spec fn obeys_from_spec() -> bool {
        false
    }

    open spec fn from_spec(v: zip::result::ZipError) -> Error {
        arbitrary()
    }
}

} // verus!
