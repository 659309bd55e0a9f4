use crate::text::{contains, contains_seq, occurs_at, same_text};
use vstd::prelude::*;

verus! {

/// What the service makes of a declared content type.
#[derive(Clone, Copy, Debug, PartialEq, Eq, Structural)]
pub enum MimeClassification {
    /// One of the formats that the service decodes.
    Supported,
    /// A format that the service knows by name and does not decode.
    UnsupportedRecognized,
    /// Anything else.
    UnsupportedUnknown,
}

/// The content types that the service decodes: PNG, JPEG, BMP and GIF.
pub open spec fn is_supported_type(t: Seq<char>) -> bool {
    ||| t == "image/png"@
    ||| t == "image/jpeg"@
    ||| t == "image/bmp"@
    ||| t == "image/gif"@
}

/// The content types that name the HEIC family: those in which "heic",
/// "heif" or "hif" occurs anywhere.
pub open spec fn is_recognized_unsupported(t: Seq<char>) -> bool {
    ||| contains_seq(t, "heic"@)
    ||| contains_seq(t, "heif"@)
    ||| contains_seq(t, "hif"@)
}

/// The classification of a content type.
pub open spec fn classification(t: Seq<char>) -> MimeClassification {
    if is_supported_type(t) {
        MimeClassification::Supported
    } else if is_recognized_unsupported(t) {
        MimeClassification::UnsupportedRecognized
    } else {
        MimeClassification::UnsupportedUnknown
    }
}

/// Whether `mime_type` is exactly one of the supported content types.
pub fn is_supported_mime(mime_type: &str) -> (supported: bool)
    ensures
        supported == is_supported_type(mime_type@),
{
    same_text(mime_type, "image/png") || same_text(mime_type, "image/jpeg") || same_text(
        mime_type,
        "image/bmp",
    ) || same_text(mime_type, "image/gif")
}

/// Whether `mime_type` names the HEIC family.
pub fn is_unsupported_mime(mime_type: &str) -> (recognized: bool)
    ensures
        recognized == is_recognized_unsupported(mime_type@),
{
    contains(mime_type, "heic") || contains(mime_type, "heif") || contains(mime_type, "hif")
}

/// Classifies a declared content type.
pub fn classify(content_type: &str) -> (class: MimeClassification)
    ensures
        class == classification(content_type@),
{
    if is_supported_mime(content_type) {
        MimeClassification::Supported
    } else if is_unsupported_mime(content_type) {
        MimeClassification::UnsupportedRecognized
    } else {
        MimeClassification::UnsupportedUnknown
    }
}

/// The content type that the `mime_guess` crate gives for a file name: the
/// first type that its table lists for the name's extension, compared
/// without regard to case, or `None` where the name has no extension or
/// the table does not list it. The extension is the one that
/// `std::path::Path::extension` finds.
pub uninterp spec fn guessed_type(filename: Seq<char>) -> Option<Seq<char>>;

/// A guess with its text as a sequence of characters.
pub open spec fn guess_view(guess: Option<String>) -> Option<Seq<char>> {
    match guess {
        Some(content_type) => Some(content_type@),
        None => None,
    }
}

/// Calls `mime_guess::from_path` on the file name and takes the `first` of
/// the guess, written as text. The result depends on the name alone; the
/// contract gives it the name `guessed_type` and says no more of it.
#[verifier::external_body]
fn first_guess(filename: &str) -> (guess: Option<String>)
    ensures
        guess_view(guess) == guessed_type(filename@),
{
    mime_guess::from_path(filename).first().map(|content_type| content_type.to_string())
}

/// The content type that an upload declares: the one guessed from its file
/// name, "text/plain" where the file name gives no guess, and
/// "application/octet-stream" where the upload has no file name.
pub open spec fn declared_type(filename: Option<Seq<char>>) -> Seq<char> {
    match filename {
        Some(name) => match guessed_type(name) {
            Some(content_type) => content_type,
            None => "text/plain"@,
        },
        None => "application/octet-stream"@,
    }
}

/// The file name of an upload as a sequence of characters, if it has one.
pub open spec fn name_view(filename: Option<&str>) -> Option<Seq<char>> {
    match filename {
        Some(name) => Some(name@),
        None => None,
    }
}

/// Derives the declared content type of an upload from its file name.
pub fn declared_content_type(filename: Option<&str>) -> (content_type: String)
    ensures
        content_type@ == declared_type(name_view(filename)),
{
    match filename {
        Some(name) => match first_guess(name) {
            Some(content_type) => content_type,
            None => String::from_str("text/plain"),
        },
        None => String::from_str("application/octet-stream"),
    }
}

/// A string in which the letter 'h' does not occur holds none of "heic",
/// "heif" and "hif".
proof fn lemma_no_h_not_recognized(t: Seq<char>)
    requires
        forall|i: int| 0 <= i < t.len() ==> t[i] != 'h',
    ensures
        !is_recognized_unsupported(t),
{
    reveal_strlit("heic");
    reveal_strlit("heif");
    reveal_strlit("hif");
    assert forall|at: int| !occurs_at(t, "heic"@, at) by {
        if occurs_at(t, "heic"@, at) {
            assert(t.subrange(at, at + 4)[0] == t[at]);
        }
    }
    assert forall|at: int| !occurs_at(t, "heif"@, at) by {
        if occurs_at(t, "heif"@, at) {
            assert(t.subrange(at, at + 4)[0] == t[at]);
        }
    }
    assert forall|at: int| !occurs_at(t, "hif"@, at) by {
        if occurs_at(t, "hif"@, at) {
            assert(t.subrange(at, at + 3)[0] == t[at]);
        }
    }
}

/// No supported content type names the HEIC family: the two sets are
/// disjoint, so the order in which they are tested does not matter.
pub proof fn lemma_supported_not_recognized(t: Seq<char>)
    requires
        is_supported_type(t),
    ensures
        !is_recognized_unsupported(t),
{
    reveal_strlit("image/png");
    reveal_strlit("image/jpeg");
    reveal_strlit("image/bmp");
    reveal_strlit("image/gif");
    lemma_no_h_not_recognized(t);
}

/// Every supported content type is classified as supported.
pub proof fn lemma_supported_is_supported(t: Seq<char>)
    requires
        is_supported_type(t),
    ensures
        classification(t) == MimeClassification::Supported,
{
}

/// Every content type in which "heic", "heif" or "hif" occurs is classified
/// as recognized and unsupported.
pub proof fn lemma_heic_family_is_recognized(t: Seq<char>)
    requires
        contains_seq(t, "heic"@) || contains_seq(t, "heif"@) || contains_seq(t, "hif"@),
    ensures
        classification(t) == MimeClassification::UnsupportedRecognized,
{
    if is_supported_type(t) {
        lemma_supported_not_recognized(t);
    }
}

} // verus!
