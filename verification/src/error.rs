use crate::text::{contains, contains_seq, decimal, decimal_string};
use vstd::prelude::*;

verus! {

/// Why a request failed.
#[derive(Clone, Debug, PartialEq, Eq)]
pub enum AppError {
    /// The declared content type is not one that the service decodes.
    UnsupportedMediaType(String),
    /// The request holds no usable image part.
    InvalidFileFormat,
    /// The upload is larger than the limit, given in bytes.
    PayloadTooLarge(usize),
    /// The upload could not be read or decoded.
    DecodeFailure(String),
    /// The decoded image could not be encoded.
    ConversionFailed(String),
    /// Something went wrong inside the service.
    InternalError(String),
}

/// An error with its texts as sequences of characters.
pub enum AppErrorView {
    UnsupportedMediaType(Seq<char>),
    InvalidFileFormat,
    PayloadTooLarge(nat),
    DecodeFailure(Seq<char>),
    ConversionFailed(Seq<char>),
    InternalError(Seq<char>),
}

impl View for AppError {
    type V = AppErrorView;

    open spec fn view(&self) -> AppErrorView {
        match *self {
            AppError::UnsupportedMediaType(t) => AppErrorView::UnsupportedMediaType(t@),
            AppError::InvalidFileFormat => AppErrorView::InvalidFileFormat,
            AppError::PayloadTooLarge(limit) => AppErrorView::PayloadTooLarge(limit as nat),
            AppError::DecodeFailure(detail) => AppErrorView::DecodeFailure(detail@),
            AppError::ConversionFailed(detail) => AppErrorView::ConversionFailed(detail@),
            AppError::InternalError(detail) => AppErrorView::InternalError(detail@),
        }
    }
}

/// What is sent back for an error: the HTTP status and the three members of
/// the JSON body.
#[derive(Clone, Debug, PartialEq, Eq)]
pub struct ErrorResponse {
    pub status: u16,
    pub error: String,
    pub message: String,
    pub hint: Option<String>,
}

/// An error response with its texts as sequences of characters.
pub struct ErrorResponseView {
    pub status: u16,
    pub error: Seq<char>,
    pub message: Seq<char>,
    pub hint: Option<Seq<char>>,
}

impl View for ErrorResponse {
    type V = ErrorResponseView;

    open spec fn view(&self) -> ErrorResponseView {
        ErrorResponseView {
            status: self.status,
            error: self.error@,
            message: self.message@,
            hint: match self.hint {
                Some(h) => Some(h@),
                None => None,
            },
        }
    }
}

/// The outcome of work that gives bytes, with its bytes and texts as
/// sequences.
pub open spec fn outcome_view(outcome: Result<Vec<u8>, AppError>) -> Result<Seq<u8>, AppErrorView> {
    match outcome {
        Ok(bytes) => Ok(bytes@),
        Err(e) => Err(e@),
    }
}

/// Whether a content type earns the hint about the device's settings:
/// "heic" or "heif" occurs in it.
pub open spec fn names_heic(t: Seq<char>) -> bool {
    contains_seq(t, "heic"@) || contains_seq(t, "heif"@)
}

/// The hint for an upload in a format of the HEIC family: change the
/// device's setting, or convert the picture first.
pub open spec fn device_hint() -> Seq<char> {
    "iPhoneの設定を「互換性優先」にするか、JPEG/PNGに変換してアップロードしてください。"@
}

/// The hint for an upload in any other unsupported format: the list of
/// the supported ones.
pub open spec fn formats_hint() -> Seq<char> {
    "サポートされている画像形式（PNG, JPEG, BMP, GIF）を使用してください。"@
}

/// The HTTP status of an error.
pub open spec fn status_of(e: AppErrorView) -> u16 {
    match e {
        AppErrorView::UnsupportedMediaType(_) => 415,
        AppErrorView::InvalidFileFormat => 400,
        AppErrorView::PayloadTooLarge(_) => 413,
        AppErrorView::DecodeFailure(_) => 400,
        AppErrorView::ConversionFailed(_) => 500,
        AppErrorView::InternalError(_) => 500,
    }
}

/// The machine-readable code of an error.
pub open spec fn code_of(e: AppErrorView) -> Seq<char> {
    match e {
        AppErrorView::UnsupportedMediaType(_) => "unsupported_media_type"@,
        AppErrorView::InvalidFileFormat => "invalid_file_format"@,
        AppErrorView::PayloadTooLarge(_) => "payload_too_large"@,
        AppErrorView::DecodeFailure(_) => "decode_failure"@,
        AppErrorView::ConversionFailed(_) => "conversion_failed"@,
        AppErrorView::InternalError(_) => "internal_error"@,
    }
}

/// The description of an error for a human reader. A size limit is
/// written as the number of bytes.
pub open spec fn message_of(e: AppErrorView) -> Seq<char> {
    match e {
        AppErrorView::UnsupportedMediaType(t) => "画像形式（"@ + t
            + "）は現在サポートされていません"@,
        AppErrorView::InvalidFileFormat => "ファイル形式が不正です"@,
        AppErrorView::PayloadTooLarge(limit) => "画像サイズが"@ + decimal(limit)
            + "MBを超えています"@,
        AppErrorView::DecodeFailure(detail) => "画像の読み込みに失敗しました: "@ + detail,
        AppErrorView::ConversionFailed(detail) => "画像の変換に失敗しました: "@ + detail,
        AppErrorView::InternalError(detail) => "内部サーバーエラー: "@ + detail,
    }
}

/// The advice that goes with an error. A size limit is written in whole
/// mebibytes, rounded down.
pub open spec fn hint_of(e: AppErrorView) -> Seq<char> {
    match e {
        AppErrorView::UnsupportedMediaType(t) => if names_heic(t) {
            device_hint()
        } else {
            formats_hint()
        },
        AppErrorView::InvalidFileFormat => "拡張子と中身の形式が一致しているか確認してください。"@,
        AppErrorView::PayloadTooLarge(limit) =>
            "画像を圧縮または縮小して再度アップロードしてください。最大サイズは"@
            + decimal(limit / 1024 / 1024) + "MBです。"@,
        AppErrorView::DecodeFailure(_) => "正常な画像か確認してください。"@,
        AppErrorView::ConversionFailed(_) => "しばらくして再試行してください。"@,
        AppErrorView::InternalError(_) =>
            "サーバー側でエラーが発生しました。しばらくして再試行してください。"@,
    }
}

/// The whole response for an error.
pub open spec fn rendered(e: AppErrorView) -> ErrorResponseView {
    ErrorResponseView {
        status: status_of(e),
        error: code_of(e),
        message: message_of(e),
        hint: Some(hint_of(e)),
    }
}

impl AppError {
    /// The HTTP status that answers this error.
    pub fn status_code(&self) -> (status: u16)
        ensures
            status == status_of(self@),
    {
        match self {
            AppError::UnsupportedMediaType(_) => 415,
            AppError::InvalidFileFormat => 400,
            AppError::PayloadTooLarge(_) => 413,
            AppError::DecodeFailure(_) => 400,
            AppError::ConversionFailed(_) => 500,
            AppError::InternalError(_) => 500,
        }
    }

    /// The machine-readable code of this error.
    pub fn error_code(&self) -> (code: String)
        ensures
            code@ == code_of(self@),
    {
        match self {
            AppError::UnsupportedMediaType(_) => String::from_str("unsupported_media_type"),
            AppError::InvalidFileFormat => String::from_str("invalid_file_format"),
            AppError::PayloadTooLarge(_) => String::from_str("payload_too_large"),
            AppError::DecodeFailure(_) => String::from_str("decode_failure"),
            AppError::ConversionFailed(_) => String::from_str("conversion_failed"),
            AppError::InternalError(_) => String::from_str("internal_error"),
        }
    }

    /// The description of this error for a human reader.
    pub fn message(&self) -> (text: String)
        ensures
            text@ == message_of(self@),
    {
        match self {
            AppError::UnsupportedMediaType(t) => {
                let mut text = String::from_str("画像形式（");
                text.append(t.as_str());
                text.append("）は現在サポートされていません");
                text
            },
            AppError::InvalidFileFormat => String::from_str("ファイル形式が不正です"),
            AppError::PayloadTooLarge(limit) => {
                let mut text = String::from_str("画像サイズが");
                let number = decimal_string(*limit);
                text.append(number.as_str());
                text.append("MBを超えています");
                text
            },
            AppError::DecodeFailure(detail) => {
                let mut text = String::from_str("画像の読み込みに失敗しました: ");
                text.append(detail.as_str());
                text
            },
            AppError::ConversionFailed(detail) => {
                let mut text = String::from_str("画像の変換に失敗しました: ");
                text.append(detail.as_str());
                text
            },
            AppError::InternalError(detail) => {
                let mut text = String::from_str("内部サーバーエラー: ");
                text.append(detail.as_str());
                text
            },
        }
    }

    /// The advice that goes with this error.
    pub fn hint(&self) -> (text: String)
        ensures
            text@ == hint_of(self@),
    {
        match self {
            AppError::UnsupportedMediaType(t) => {
                if contains(t.as_str(), "heic") || contains(t.as_str(), "heif") {
                    String::from_str(
                        "iPhoneの設定を「互換性優先」にするか、JPEG/PNGに変換してアップロードしてください。",
                    )
                } else {
                    String::from_str(
                        "サポートされている画像形式（PNG, JPEG, BMP, GIF）を使用してください。",
                    )
                }
            },
            AppError::InvalidFileFormat => String::from_str(
                "拡張子と中身の形式が一致しているか確認してください。",
            ),
            AppError::PayloadTooLarge(limit) => {
                let mut text = String::from_str(
                    "画像を圧縮または縮小して再度アップロードしてください。最大サイズは",
                );
                let number = decimal_string(*limit / 1024 / 1024);
                text.append(number.as_str());
                text.append("MBです。");
                text
            },
            AppError::DecodeFailure(_) => String::from_str("正常な画像か確認してください。"),
            AppError::ConversionFailed(_) => String::from_str("しばらくして再試行してください。"),
            AppError::InternalError(_) => String::from_str(
                "サーバー側でエラーが発生しました。しばらくして再試行してください。",
            ),
        }
    }

    /// The response that answers this error: status, code, message and hint.
    pub fn error_response(&self) -> (response: ErrorResponse)
        ensures
            response@ == rendered(self@),
    {
        ErrorResponse {
            status: self.status_code(),
            error: self.error_code(),
            message: self.message(),
            hint: Some(self.hint()),
        }
    }
}

} // verus!
