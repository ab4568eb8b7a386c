//! The preview of one rename: where a file would go, which date it
//! resolved to and from which source, and the rendered preview line shown
//! before anything is touched.

use vstd::prelude::*;

use crate::dates::CivilDateTime;
use crate::dates::valid_date;
use crate::digits::four_digits;
use crate::digits::two_digits;
use crate::digits::append_four_digits;
use crate::digits::append_two_digits;

verus! {

/// Which fallback stage produced a preview's timestamp.
#[derive(Debug, Clone, Copy, PartialEq, Eq, Structural)]
pub enum DateSource {
    /// The EXIF DateTimeOriginal field.
    Exif,
    /// A date embedded in the file name.
    Filename,
    /// The file system's creation time.
    CreationTime,
    /// The wall clock at resolution time.
    CurrentTime,
}

impl DateSource {
    /// The label of the source.
    pub fn to_string(&self) -> (r: &'static str)
        ensures
            r@ == (match self {
                DateSource::Exif => "EXIF"@,
                DateSource::Filename => "ファイル名"@,
                DateSource::CreationTime => "作成日時"@,
                DateSource::CurrentTime => "現在時刻"@,
            }),
    {
        match self {
            DateSource::Exif => "EXIF",
            DateSource::Filename => "ファイル名",
            DateSource::CreationTime => "作成日時",
            DateSource::CurrentTime => "現在時刻",
        }
    }

    /// The terminal color that marks the source: green for EXIF, yellow
    /// for a file-name date, magenta for creation time, red for the wall
    /// clock.
    pub fn color_code(&self) -> (r: &'static str)
        ensures
            r@ == (match self {
                DateSource::Exif => "\x1b[32m"@,
                DateSource::Filename => "\x1b[33m"@,
                DateSource::CreationTime => "\x1b[35m"@,
                DateSource::CurrentTime => "\x1b[31m"@,
            }),
    {
        match self {
            DateSource::Exif => "\x1b[32m",
            DateSource::Filename => "\x1b[33m",
            DateSource::CreationTime => "\x1b[35m",
            DateSource::CurrentTime => "\x1b[31m",
        }
    }
}

/// The readable timestamp `YYYY-MM-DD HH:MM:SS` of a date-time.
pub open spec fn spec_readable_timestamp(c: CivilDateTime) -> Seq<char> {
    four_digits(c.year as int) + "-"@ + two_digits(c.month as int) + "-"@ + two_digits(
        c.day as int,
    ) + " "@ + two_digits(c.hour as int) + ":"@ + two_digits(c.minute as int) + ":"@ + two_digits(
        c.second as int,
    )
}

/// Renders `YYYY-MM-DD HH:MM:SS`.
pub fn readable_timestamp(c: &CivilDateTime) -> (r: String)
    requires
        valid_date(*c),
    ensures
        r@ == spec_readable_timestamp(*c),
{
    let mut s = String::new();
    append_four_digits(&mut s, c.year);
    s.append("-");
    append_two_digits(&mut s, c.month);
    s.append("-");
    append_two_digits(&mut s, c.day);
    s.append(" ");
    append_two_digits(&mut s, c.hour);
    s.append(":");
    append_two_digits(&mut s, c.minute);
    s.append(":");
    append_two_digits(&mut s, c.second);
    proof {
        assert(s@ =~= spec_readable_timestamp(*c));
    }
    s
}

/// One planned rename, before any file is touched.
#[derive(Debug, Clone)]
pub struct RenamePreview {
    pub original_path: String,
    pub new_path: String,
    pub date: Option<CivilDateTime>,
    pub date_source: DateSource,
    pub error: Option<String>,
}

/// The rendered preview line: the paths, the date with its colored
/// source, and the status.
pub open spec fn spec_preview_line(p: RenamePreview) -> Seq<char> {
    let date_text = match p.date {
        Some(d) => spec_readable_timestamp(d),
        None => "不明"@,
    };
    let color = match p.date_source {
        DateSource::Exif => "\x1b[32m"@,
        DateSource::Filename => "\x1b[33m"@,
        DateSource::CreationTime => "\x1b[35m"@,
        DateSource::CurrentTime => "\x1b[31m"@,
    };
    let label = match p.date_source {
        DateSource::Exif => "EXIF"@,
        DateSource::Filename => "ファイル名"@,
        DateSource::CreationTime => "作成日時"@,
        DateSource::CurrentTime => "現在時刻"@,
    };
    let status = match p.error {
        Some(e) => "\x1b[31mエラー: "@ + e@ + "\x1b[0m"@,
        None => color + "成功"@ + "\x1b[0m"@,
    };
    p.original_path@ + " -> "@ + p.new_path@ + "\n  日時: "@ + date_text + " (取得元: "@ + color
        + label + "\x1b[0m"@ + ")"@ + "\n  状態: "@ + status
}

impl RenamePreview {
    /// A preview of a resolved rename.
    pub fn new(
        original_path: String,
        new_path: String,
        date: Option<CivilDateTime>,
        date_source: DateSource,
    ) -> (r: RenamePreview)
        ensures
            r.original_path == original_path,
            r.new_path == new_path,
            r.date == date,
            r.date_source == date_source,
            r.error is None,
    {
        RenamePreview { original_path, new_path, date, date_source, error: None }
    }

    /// A preview recording why this file failed.
    pub fn with_error(
        original_path: String,
        new_path: String,
        date: Option<CivilDateTime>,
        date_source: DateSource,
        error: String,
    ) -> (r: RenamePreview)
        ensures
            r.original_path == original_path,
            r.new_path == new_path,
            r.date == date,
            r.date_source == date_source,
            r.error == Some(error),
    {
        RenamePreview { original_path, new_path, date, date_source, error: Some(error) }
    }

    /// The rendered preview line.
    pub fn display(&self) -> (r: String)
        requires
            self.date is Some ==> valid_date(self.date->0),
        ensures
            r@ == spec_preview_line(*self),
    {
        let mut s = String::new();
        s.append(self.original_path.as_str());
        s.append(" -> ");
        s.append(self.new_path.as_str());
        s.append("\n  日時: ");
        match &self.date {
            Some(d) => {
                let t = readable_timestamp(d);
                s.append(t.as_str());
            },
            None => {
                s.append("不明");
            },
        }
        s.append(" (取得元: ");
        s.append(self.date_source.color_code());
        s.append(self.date_source.to_string());
        s.append("\x1b[0m");
        s.append(")");
        s.append("\n  状態: ");
        match &self.error {
            Some(e) => {
                s.append("\x1b[31mエラー: ");
                s.append(e.as_str());
                s.append("\x1b[0m");
            },
            None => {
                s.append(self.date_source.color_code());
                s.append("成功");
                s.append("\x1b[0m");
            },
        }
        proof {
            assert(s@ =~= spec_preview_line(*self));
        }
        s
    }
}

} // verus!
