//! The per-file error values of the rename pipeline. Outside failures are
//! carried as plain text, so that a failing file is reported and the run
//! goes on; a helper trait prefixes context onto file-operation errors.

use vstd::prelude::*;

verus! {

/// What went wrong with one file.
#[derive(Debug, Clone)]
pub enum PhotoRenamerError {
    /// A file operation failed.
    FileOperation(String),
    /// The EXIF data could not be read.
    ExifError(String),
    /// The image could not be decoded or written.
    ImageError(String),
    /// The video container could not be read.
    FFmpegError(String),
    /// A date text could not be parsed.
    DateParseError(String),
    /// No usable metadata was found at the path.
    MetadataNotFound(String),
    /// The file format is not one this library handles.
    InvalidFileFormat(String),
    /// A target name could not be generated.
    FilenameGenerationError(String),
    /// The orientation could not be decided.
    OrientationError(String),
    /// The backup copy failed.
    BackupError(String),
    /// Two files collided on one target.
    DuplicateFileError(String),
    /// A burst folder could not be formed.
    BurstFolderError(String),
    /// The run configuration is unusable.
    ConfigError(String),
    /// The logger could not be set up.
    LogError(String),
}

impl PhotoRenamerError {
    /// The rendered message.
    pub fn message(&self) -> (r: String)
        ensures
            r@ == (match self {
                PhotoRenamerError::FileOperation(m) => "ファイル操作エラー: "@ + m@,
                PhotoRenamerError::ExifError(m) => "EXIFデータの読み取りエラー: "@ + m@,
                PhotoRenamerError::ImageError(m) => "画像処理エラー: "@ + m@,
                PhotoRenamerError::FFmpegError(m) => "FFmpegエラー: "@ + m@,
                PhotoRenamerError::DateParseError(m) => "日付解析エラー: "@ + m@,
                PhotoRenamerError::MetadataNotFound(m) => "メタデータが見つかりません: "@ + m@,
                PhotoRenamerError::InvalidFileFormat(m) => "無効なファイル形式: "@ + m@,
                PhotoRenamerError::FilenameGenerationError(m) => "ファイル名生成エラー: "@ + m@,
                PhotoRenamerError::OrientationError(m) => "向きの決定エラー: "@ + m@,
                PhotoRenamerError::BackupError(m) => "バックアップエラー: "@ + m@,
                PhotoRenamerError::DuplicateFileError(m) => "重複ファイルエラー: "@ + m@,
                PhotoRenamerError::BurstFolderError(m) => "バースト写真フォルダエラー: "@ + m@,
                PhotoRenamerError::ConfigError(m) => "設定エラー: "@ + m@,
                PhotoRenamerError::LogError(m) => "ログエラー: "@ + m@,
            }),
    {
        let mut s = String::new();
        match self {
            PhotoRenamerError::FileOperation(m) => {
                s.append("ファイル操作エラー: ");
                s.append(m.as_str());
            },
            PhotoRenamerError::ExifError(m) => {
                s.append("EXIFデータの読み取りエラー: ");
                s.append(m.as_str());
            },
            PhotoRenamerError::ImageError(m) => {
                s.append("画像処理エラー: ");
                s.append(m.as_str());
            },
            PhotoRenamerError::FFmpegError(m) => {
                s.append("FFmpegエラー: ");
                s.append(m.as_str());
            },
            PhotoRenamerError::DateParseError(m) => {
                s.append("日付解析エラー: ");
                s.append(m.as_str());
            },
            PhotoRenamerError::MetadataNotFound(m) => {
                s.append("メタデータが見つかりません: ");
                s.append(m.as_str());
            },
            PhotoRenamerError::InvalidFileFormat(m) => {
                s.append("無効なファイル形式: ");
                s.append(m.as_str());
            },
            PhotoRenamerError::FilenameGenerationError(m) => {
                s.append("ファイル名生成エラー: ");
                s.append(m.as_str());
            },
            PhotoRenamerError::OrientationError(m) => {
                s.append("向きの決定エラー: ");
                s.append(m.as_str());
            },
            PhotoRenamerError::BackupError(m) => {
                s.append("バックアップエラー: ");
                s.append(m.as_str());
            },
            PhotoRenamerError::DuplicateFileError(m) => {
                s.append("重複ファイルエラー: ");
                s.append(m.as_str());
            },
            PhotoRenamerError::BurstFolderError(m) => {
                s.append("バースト写真フォルダエラー: ");
                s.append(m.as_str());
            },
            PhotoRenamerError::ConfigError(m) => {
                s.append("設定エラー: ");
                s.append(m.as_str());
            },
            PhotoRenamerError::LogError(m) => {
                s.append("ログエラー: ");
                s.append(m.as_str());
            },
        }
        s
    }
}

/// Prefixes context onto a result's error.
pub trait ErrorContext: Sized {
    /// This value with the context recorded in its error, if it holds one.
    fn with_context(self, context: &str) -> Self;
}

impl<T> ErrorContext for Result<T, PhotoRenamerError> {
    /// File-operation errors carry the context in front of their message;
    /// every other value passes through unchanged.
    fn with_context(self, context: &str) -> Self {
        match self {
            Err(PhotoRenamerError::FileOperation(m)) => {
                let mut s = context.to_owned();
                s.append(": ");
                s.append(m.as_str());
                Err(PhotoRenamerError::FileOperation(s))
            },
            other => other,
        }
    }
}

} // verus!
