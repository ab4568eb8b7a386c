//! File-system state as plain data: per-file and per-directory snapshots
//! used for change detection, the burst-folder record, and the `FileSystem`
//! front end that classifies paths and orders discovered media files. The
//! walking and reading of directories happens outside the library; what
//! comes back is filtered and ordered here, with the order proved.

use vstd::prelude::*;

use crate::classify::is_image_path;
use crate::classify::is_media_path;
use crate::classify::is_video_path;
use crate::classify::spec_is_image;
use crate::classify::spec_is_media;
use crate::classify::spec_is_video;
use crate::classify::spec_last_index_of;
use crate::classify::last_index_of;

verus! {

broadcast use vstd::seq_lib::group_to_multiset_ensures;

/// A snapshot of one file: its size and its stored times, in epoch seconds.
#[derive(Debug, Clone, Copy, PartialEq, Eq, Structural)]
pub struct FileState {
    pub size: u64,
    pub modified: i64,
    pub created: i64,
}

/// Whether two snapshots of the same file differ in what change detection
/// looks at: size or modification time.
pub open spec fn spec_file_changed(a: FileState, b: FileState) -> bool {
    a.size != b.size || a.modified != b.modified
}

impl FileState {
    /// A snapshot from the given readings.
    pub fn new(size: u64, modified: i64, created: i64) -> (r: FileState)
        ensures
            r == (FileState { size, modified, created }),
    {
        FileState { size, modified, created }
    }

    /// Whether this snapshot differs from another in size or modification
    /// time.
    pub fn has_changed(&self, other: &FileState) -> (r: bool)
        ensures
            r == spec_file_changed(*self, *other),
    {
        self.size != other.size || self.modified != other.modified
    }
}

/// The first position in `s` whose path reads as `k`, or -1.
pub open spec fn file_idx_of(s: Seq<(String, FileState)>, k: Seq<char>) -> int
    decreases s.len(),
{
    if s.len() == 0 {
        -1
    } else if s[0].0@ == k {
        0
    } else if file_idx_of(s.drop_first(), k) == -1 {
        -1
    } else {
        1 + file_idx_of(s.drop_first(), k)
    }
}

/// What `file_idx_of` finds: the first entry with the path, if any.
proof fn lemma_file_idx_of(s: Seq<(String, FileState)>, k: Seq<char>)
    ensures
        file_idx_of(s, k) == -1 ==> forall|j: int| 0 <= j < s.len() ==> s[j].0@ != k,
        file_idx_of(s, k) != -1 ==> {
            &&& 0 <= file_idx_of(s, k) < s.len()
            &&& s[file_idx_of(s, k)].0@ == k
            &&& forall|j: int| 0 <= j < file_idx_of(s, k) ==> s[j].0@ != k
        },
    decreases s.len(),
{
    if s.len() > 0 && s[0].0@ != k {
        let t = s.drop_first();
        lemma_file_idx_of(t, k);
        assert(forall|j: int| 0 < j < s.len() ==> s[j] == t[j - 1]);
        if file_idx_of(t, k) == -1 {
            assert(forall|j: int| 0 <= j < s.len() ==> s[j].0@ != k);
        } else {
            assert(s[file_idx_of(s, k)] == t[file_idx_of(t, k)]);
        }
    }
}

/// If nothing before `i` carries the path and entry `i` does, then `i` is
/// the position `file_idx_of` finds.
proof fn lemma_file_idx_first(s: Seq<(String, FileState)>, k: Seq<char>, i: int)
    requires
        0 <= i < s.len(),
        s[i].0@ == k,
        forall|j: int| 0 <= j < i ==> s[j].0@ != k,
    ensures
        file_idx_of(s, k) == i,
    decreases s.len(),
{
    if i > 0 {
        lemma_file_idx_first(s.drop_first(), k, i - 1);
    }
}

/// A snapshot of one directory: the files it held, keyed by path, and its
/// own modification time.
#[derive(Debug, Clone)]
pub struct DirectoryState {
    pub files: Vec<(String, FileState)>,
    pub modified: i64,
}

/// Whether a later snapshot of the same directory differs: another
/// modification time, another file count, or some file gone or changed.
pub open spec fn spec_dir_changed(a: DirectoryState, b: DirectoryState) -> bool {
    ||| a.modified != b.modified
    ||| a.files@.len() != b.files@.len()
    ||| exists|i: int|
        {
            &&& 0 <= i < a.files@.len()
            &&& {
                let j = file_idx_of(b.files@, (#[trigger] a.files@[i]).0@);
                j == -1 || spec_file_changed(a.files@[i].1, b.files@[j].1)
            }
        }
}

impl DirectoryState {
    /// A snapshot from the given per-file readings and directory time.
    pub fn new(files: Vec<(String, FileState)>, modified: i64) -> (r: DirectoryState)
        ensures
            r.files == files,
            r.modified == modified,
    {
        DirectoryState { files, modified }
    }

    /// Whether this snapshot differs from another: modification time, file
    /// count, or any file missing from the other or changed in it.
    pub fn has_changed(&self, other: &DirectoryState) -> (r: bool)
        ensures
            r == spec_dir_changed(*self, *other),
    {
        if self.modified != other.modified {
            return true;
        }
        if self.files.len() != other.files.len() {
            return true;
        }
        let n = self.files.len();
        let mut i: usize = 0;
        while i < n
            invariant
                n == self.files@.len(),
                i <= n,
                forall|ii: int|
                    0 <= ii < i ==> {
                        let j = file_idx_of(other.files@, (#[trigger] self.files@[ii]).0@);
                        j != -1 && !spec_file_changed(self.files@[ii].1, other.files@[j].1)
                    },
            decreases n - i,
        {
            match lookup_file(other, &self.files[i].0) {
                Some(idx) => {
                    let changed = self.files[i].1.has_changed(&other.files[idx].1);
                    if changed {
                        return true;
                    }
                },
                None => {
                    return true;
                },
            }
            i = i + 1;
        }
        false
    }
}

/// The first entry of the snapshot carrying this path, as an index.
fn lookup_file(d: &DirectoryState, path: &String) -> (r: Option<usize>)
    ensures
        match r {
            Some(i) => file_idx_of(d.files@, path@) == i && i < d.files@.len(),
            None => file_idx_of(d.files@, path@) == -1,
        },
{
    proof {
        lemma_file_idx_of(d.files@, path@);
    }
    let n = d.files.len();
    let mut i: usize = 0;
    while i < n
        invariant
            n == d.files@.len(),
            i <= n,
            forall|j: int| 0 <= j < i ==> d.files@[j].0@ != path@,
        decreases n - i,
    {
        if d.files[i].0 == *path {
            proof {
                lemma_file_idx_first(d.files@, path@, i as int);
            }
            return Some(i);
        }
        i = i + 1;
    }
    None
}

/// A burst folder: photos of one directory taken in rapid succession, in
/// chronological order, with the folder's representative timestamp.
#[derive(Debug, Clone)]
pub struct BurstPhotoFolder {
    pub folder_path: String,
    pub photos: Vec<String>,
    pub timestamp: i64,
}

/// Lexicographic order on character sequences, by code point.
pub open spec fn lex_le(a: Seq<char>, b: Seq<char>) -> bool
    decreases a.len(),
{
    if a.len() == 0 {
        true
    } else if b.len() == 0 {
        false
    } else if (a[0] as int) < (b[0] as int) {
        true
    } else if (a[0] as int) > (b[0] as int) {
        false
    } else {
        lex_le(a.drop_first(), b.drop_first())
    }
}

/// Any two sequences are ordered one way or the other.
pub proof fn lemma_lex_total(a: Seq<char>, b: Seq<char>)
    ensures
        lex_le(a, b) || lex_le(b, a),
    decreases a.len(),
{
    if a.len() > 0 && b.len() > 0 && a[0] == b[0] {
        lemma_lex_total(a.drop_first(), b.drop_first());
    }
}

/// The order chains.
pub proof fn lemma_lex_trans(a: Seq<char>, b: Seq<char>, c: Seq<char>)
    requires
        lex_le(a, b),
        lex_le(b, c),
    ensures
        lex_le(a, c),
    decreases a.len(),
{
    if a.len() > 0 && b.len() > 0 && c.len() > 0 && a[0] == b[0] && b[0] == c[0] {
        lemma_lex_trans(a.drop_first(), b.drop_first(), c.drop_first());
    }
}

/// Sequences with equal prefixes compare as their suffixes do.
proof fn lemma_lex_skip(a: Seq<char>, b: Seq<char>, i: int)
    requires
        0 <= i <= a.len(),
        i <= b.len(),
        forall|j: int| 0 <= j < i ==> a[j] == b[j],
    ensures
        lex_le(a, b) == lex_le(a.skip(i), b.skip(i)),
    decreases i,
{
    if i == 0 {
        assert(a.skip(0) =~= a);
        assert(b.skip(0) =~= b);
    } else {
        assert(a.len() > 0 && b.len() > 0 && a[0] == b[0]);
        let a1 = a.drop_first();
        let b1 = b.drop_first();
        assert(forall|j: int| 0 <= j < i - 1 ==> a1[j] == b1[j]);
        lemma_lex_skip(a1, b1, i - 1);
        assert(a1.skip(i - 1) =~= a.skip(i));
        assert(b1.skip(i - 1) =~= b.skip(i));
    }
}

/// Compares two strings in lexicographic code-point order.
pub fn lex_le_str(a: &str, b: &str) -> (r: bool)
    ensures
        r == lex_le(a@, b@),
{
    let na = a.unicode_len();
    let nb = b.unicode_len();
    let mut i: usize = 0;
    while i < na && i < nb
        invariant
            na == a@.len(),
            nb == b@.len(),
            i <= na,
            i <= nb,
            forall|j: int| 0 <= j < i ==> a@[j] == b@[j],
        decreases na - i,
    {
        let ca = a.get_char(i);
        let cb = b.get_char(i);
        if ca as u32 != cb as u32 {
            proof {
                lemma_lex_skip(a@, b@, i as int);
                assert(a@.skip(i as int)[0] == a@[i as int]);
                assert(b@.skip(i as int)[0] == b@[i as int]);
            }
            return (ca as u32) < (cb as u32);
        }
        proof {
            assert(a@[i as int] == b@[i as int]);
        }
        i = i + 1;
    }
    proof {
        lemma_lex_skip(a@, b@, i as int);
    }
    if i == na {
        proof {
            assert(a@.skip(i as int).len() == 0);
        }
        true
    } else {
        proof {
            assert(b@.skip(i as int).len() == 0);
            assert(a@.skip(i as int).len() > 0);
        }
        false
    }
}

/// Whether a run of strings is sorted in lexicographic order.
pub open spec fn lex_sorted(s: Seq<String>) -> bool {
    forall|i: int, j: int| 0 <= i < j < s.len() ==> lex_le((#[trigger] s[i])@, (#[trigger] s[j])@)
}

/// Inserts a string into a sorted vector, keeping it sorted.
fn insert_sorted(v: &mut Vec<String>, x: String)
    requires
        lex_sorted(old(v)@),
        old(v)@.len() < usize::MAX,
    ensures
        lex_sorted(final(v)@),
        final(v)@.to_multiset() == old(v)@.to_multiset().insert(x),
        final(v)@.len() == old(v)@.len() + 1,
{
    let n = v.len();
    let mut pos: usize = 0;
    while pos < n && lex_le_str(v[pos].as_str(), x.as_str())
        invariant
            n == v@.len(),
            pos <= n,
            *v == *old(v),
            forall|j: int| 0 <= j < pos ==> lex_le((#[trigger] v@[j])@, x@),
        decreases n - pos,
    {
        pos = pos + 1;
    }
    proof {
        if pos < n {
            lemma_lex_total(v@[pos as int]@, x@);
            assert(lex_le(x@, v@[pos as int]@));
        }
    }
    let ghost prev = v@;
    v.insert(pos, x);
    proof {
        assert(v@ =~= prev.subrange(0, pos as int).push(x) + prev.subrange(
            pos as int,
            prev.len() as int,
        ));
        assert forall|i: int, j: int| 0 <= i < j < v@.len() implies lex_le(
            (#[trigger] v@[i])@,
            (#[trigger] v@[j])@,
        ) by {
            if i < pos && j == pos {
            } else if i == pos && j > pos {
                if j == pos + 1 {
                    lemma_lex_total(prev[pos as int]@, prev[pos as int]@);
                }
                lemma_lex_trans(x@, prev[pos as int]@, prev[j - 1]@);
            }
        }
    }
}

/// Carries out the file-level operations of a run: classification here,
/// reading and writing through the caller.
pub struct FileSystem {
    /// Buffer size for the caller's copy operations, in bytes.
    pub buffer_size: usize,
}

impl FileSystem {
    /// A file system front end with the default 8 KiB copy buffer.
    pub fn new() -> (r: FileSystem)
        ensures
            r.buffer_size == 8192,
    {
        FileSystem { buffer_size: 8192 }
    }

    /// Sets the copy buffer size.
    pub fn set_buffer_size(&mut self, size: usize)
        ensures
            final(self).buffer_size == size,
    {
        self.buffer_size = size;
    }

    /// Whether the path names a photo or a video file.
    pub fn is_media_file(&self, path: &str) -> (r: bool)
        ensures
            r == spec_is_media(path@),
    {
        is_media_path(path)
    }

    /// Whether the path names a photo file.
    pub fn is_image_file(&self, path: &str) -> (r: bool)
        ensures
            r == spec_is_image(path@),
    {
        is_image_path(path)
    }

    /// Whether the path names a video file.
    pub fn is_video_file(&self, path: &str) -> (r: bool)
        ensures
            r == spec_is_video(path@),
    {
        is_video_path(path)
    }

    /// The media files among the walked entries, in lexicographic path
    /// order, so that two runs over the same tree see the same sequence.
    pub fn find_all_media_files(&self, entries: &Vec<String>) -> (r: Vec<String>)
        ensures
            lex_sorted(r@),
            r@.to_multiset() == entries@.filter(|s: String| spec_is_media(s@)).to_multiset(),
    {
        let n = entries.len();
        let mut out: Vec<String> = Vec::new();
        let mut i: usize = 0;
        proof {
            assert(entries@.subrange(0, 0).filter(|s: String| spec_is_media(s@))
                =~= Seq::<String>::empty());
        }
        while i < n
            invariant
                n == entries@.len(),
                i <= n,
                lex_sorted(out@),
                out@.len() <= i,
                out@.to_multiset() =~= entries@.subrange(0, i as int).filter(
                    |s: String| spec_is_media(s@),
                ).to_multiset(),
            decreases n - i,
        {
            let ghost pre = entries@.subrange(0, i as int);
            let e = entries[i].clone();
            proof {
                assert(e@ == entries@[i as int]@);
                assert(entries@.subrange(0, i as int + 1) =~= pre.push(entries@[i as int]));
                reveal(Seq::filter);
                assert(pre.push(entries@[i as int]).drop_last() =~= pre);
            }
            if self.is_media_file(e.as_str()) {
                proof {
                    assert(spec_is_media(entries@[i as int]@));
                }
                insert_sorted(&mut out, e);
            } else {
                proof {
                    assert(!spec_is_media(entries@[i as int]@));
                }
            }
            i = i + 1;
        }
        proof {
            assert(entries@.subrange(0, n as int) =~= entries@);
        }
        out
    }

    /// Whether the path names a working file this library itself creates: a
    /// `.tmp` staging file, or a `photo_renamer_*.log` log file.
    pub fn is_temp_file(&self, path: &str) -> (r: bool)
        ensures
            r == spec_is_temp(path@),
    {
        let n = path.unicode_len();
        let slash: Option<usize> = last_index_of(path, '/');
        let start: usize = match slash {
            Some(i) => i + 1,
            None => 0,
        };
        let stem = path.substring_char(start, n);
        proof {
            assert(stem@ =~= spec_file_name(path@));
        }
        let sn = stem.unicode_len();
        let dot: Option<usize> = last_index_of(path, '.');
        let has_tmp_ext = match dot {
            Some(d) => {
                if d > start {
                    let ext = path.substring_char(d + 1, n);
                    let tmp = String::from_str("tmp");
                    let e = ext.to_owned();
                    e == tmp
                } else {
                    false
                }
            },
            None => false,
        };
        if has_tmp_ext {
            return true;
        }
        if sn >= 18 {
            let prefix = stem.substring_char(0, 14).to_owned();
            let suffix = stem.substring_char(sn - 4, sn).to_owned();
            let p = String::from_str("photo_renamer_");
            let q = String::from_str(".log");
            proof {
                reveal_strlit("photo_renamer_");
                reveal_strlit(".log");
            }
            prefix == p && suffix == q
        } else {
            proof {
                reveal_strlit("photo_renamer_");
                reveal_strlit(".log");
            }
            false
        }
    }
}

/// The last path component.
pub open spec fn spec_file_name(s: Seq<char>) -> Seq<char> {
    let slash = spec_last_index_of(s, '/');
    s.subrange(slash + 1, s.len() as int)
}

/// Whether a path names a working file of this library: extension `tmp`
/// (as stored, not folded), or a name of the shape `photo_renamer_*.log`.
pub open spec fn spec_is_temp(s: Seq<char>) -> bool {
    let name = spec_file_name(s);
    let dot = spec_last_index_of(s, '.');
    let slash = spec_last_index_of(s, '/');
    ||| (dot > slash + 1 && s.subrange(dot + 1, s.len() as int) == "tmp"@)
    ||| (name.len() >= 18 && name.subrange(0, 14) == "photo_renamer_"@ && name.subrange(
        name.len() - 4,
        name.len() as int,
    ) == ".log"@)
}

} // verus!
