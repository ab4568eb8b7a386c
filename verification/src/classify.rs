//! Classifies paths as photos or videos by their extension. The extension is
//! the text after the last dot of the last path component, folded to lower
//! case ASCII, and matched against fixed sets.

use vstd::prelude::*;

verus! {

/// ASCII lower-casing of one character; anything but `A`..`Z` is unchanged.
pub open spec fn lower_char(c: char) -> char {
    if c == 'A' {
        'a'
    } else if c == 'B' {
        'b'
    } else if c == 'C' {
        'c'
    } else if c == 'D' {
        'd'
    } else if c == 'E' {
        'e'
    } else if c == 'F' {
        'f'
    } else if c == 'G' {
        'g'
    } else if c == 'H' {
        'h'
    } else if c == 'I' {
        'i'
    } else if c == 'J' {
        'j'
    } else if c == 'K' {
        'k'
    } else if c == 'L' {
        'l'
    } else if c == 'M' {
        'm'
    } else if c == 'N' {
        'n'
    } else if c == 'O' {
        'o'
    } else if c == 'P' {
        'p'
    } else if c == 'Q' {
        'q'
    } else if c == 'R' {
        'r'
    } else if c == 'S' {
        's'
    } else if c == 'T' {
        't'
    } else if c == 'U' {
        'u'
    } else if c == 'V' {
        'v'
    } else if c == 'W' {
        'w'
    } else if c == 'X' {
        'x'
    } else if c == 'Y' {
        'y'
    } else if c == 'Z' {
        'z'
    } else {
        c
    }
}

/// ASCII lower-casing of a character sequence.
pub open spec fn spec_lower(s: Seq<char>) -> Seq<char> {
    Seq::new(s.len(), |i: int| lower_char(s[i]))
}

/// The last position where `c` occurs in `s`, or -1.
pub open spec fn spec_last_index_of(s: Seq<char>, c: char) -> int
    decreases s.len(),
{
    if s.len() == 0 {
        -1
    } else if s.last() == c {
        s.len() - 1
    } else {
        spec_last_index_of(s.drop_last(), c)
    }
}

/// What `spec_last_index_of` finds: the last occurrence, if any.
pub proof fn lemma_last_index_of(s: Seq<char>, c: char)
    ensures
        spec_last_index_of(s, c) == -1 ==> forall|j: int| 0 <= j < s.len() ==> s[j] != c,
        spec_last_index_of(s, c) != -1 ==> {
            &&& 0 <= spec_last_index_of(s, c) < s.len()
            &&& s[spec_last_index_of(s, c)] == c
            &&& forall|j: int| spec_last_index_of(s, c) < j < s.len() ==> s[j] != c
        },
    decreases s.len(),
{
    if s.len() > 0 && s.last() != c {
        let t = s.drop_last();
        lemma_last_index_of(t, c);
        assert(forall|j: int| 0 <= j < t.len() ==> s[j] == t[j]);
    }
}

/// If `s[i]` is `c` and nothing after `i` is, then `i` is the position
/// `spec_last_index_of` finds.
pub proof fn lemma_last_index_at(s: Seq<char>, c: char, i: int)
    requires
        0 <= i < s.len(),
        s[i] == c,
        forall|j: int| i < j < s.len() ==> s[j] != c,
    ensures
        spec_last_index_of(s, c) == i,
    decreases s.len(),
{
    if i < s.len() - 1 {
        let t = s.drop_last();
        assert(forall|j: int| 0 <= j < t.len() ==> s[j] == t[j]);
        lemma_last_index_at(t, c, i);
    }
}

/// Where the extension of a path starts: one past the last dot of the last
/// component, or -1 when the component has no extension. A dot that begins
/// the component (a hidden file) does not open an extension.
pub open spec fn spec_ext_start(s: Seq<char>) -> int {
    let slash = spec_last_index_of(s, '/');
    let dot = spec_last_index_of(s, '.');
    if dot > slash + 1 {
        dot + 1
    } else {
        -1
    }
}

/// The extension of a path, lower-cased; empty when there is none.
pub open spec fn spec_extension_lower(s: Seq<char>) -> Seq<char> {
    if spec_ext_start(s) == -1 {
        Seq::empty()
    } else {
        spec_lower(s.subrange(spec_ext_start(s), s.len() as int))
    }
}

/// Whether a path names a photo file.
pub open spec fn spec_is_image(s: Seq<char>) -> bool {
    let e = spec_extension_lower(s);
    e == "jpg"@ || e == "jpeg"@ || e == "png"@ || e == "gif"@ || e == "bmp"@ || e == "webp"@
}

/// Whether a path names a video file.
pub open spec fn spec_is_video(s: Seq<char>) -> bool {
    let e = spec_extension_lower(s);
    e == "mp4"@ || e == "mov"@ || e == "avi"@ || e == "mkv"@ || e == "3gp"@
}

/// Whether a path names a photo or a video file.
pub open spec fn spec_is_media(s: Seq<char>) -> bool {
    spec_is_image(s) || spec_is_video(s)
}

/// The one-character lower-case string for an upper-case ASCII letter.
fn lower_letter_str(c: char) -> (r: &'static str)
    requires
        65 <= c as int <= 90,
    ensures
        r@ =~= seq![lower_char(c)],
{
    proof {
        reveal_strlit("a");
        reveal_strlit("b");
        reveal_strlit("c");
        reveal_strlit("d");
        reveal_strlit("e");
        reveal_strlit("f");
        reveal_strlit("g");
        reveal_strlit("h");
        reveal_strlit("i");
        reveal_strlit("j");
        reveal_strlit("k");
        reveal_strlit("l");
        reveal_strlit("m");
        reveal_strlit("n");
        reveal_strlit("o");
        reveal_strlit("p");
        reveal_strlit("q");
        reveal_strlit("r");
        reveal_strlit("s");
        reveal_strlit("t");
        reveal_strlit("u");
        reveal_strlit("v");
        reveal_strlit("w");
        reveal_strlit("x");
        reveal_strlit("y");
        reveal_strlit("z");
    }
    match c {
        'A' => "a",
        'B' => "b",
        'C' => "c",
        'D' => "d",
        'E' => "e",
        'F' => "f",
        'G' => "g",
        'H' => "h",
        'I' => "i",
        'J' => "j",
        'K' => "k",
        'L' => "l",
        'M' => "m",
        'N' => "n",
        'O' => "o",
        'P' => "p",
        'Q' => "q",
        'R' => "r",
        'S' => "s",
        'T' => "t",
        'U' => "u",
        'V' => "v",
        'W' => "w",
        'X' => "x",
        'Y' => "y",
        _ => "z",
    }
}

/// ASCII lower-casing of a string: `A`..`Z` fold, all else unchanged.
pub fn to_ascii_lower(s: &str) -> (r: String)
    ensures
        r@ == spec_lower(s@),
{
    let n = s.unicode_len();
    let mut out = String::new();
    let mut i: usize = 0;
    while i < n
        invariant
            n == s@.len(),
            i <= n,
            out@ =~= spec_lower(s@.subrange(0, i as int)),
        decreases n - i,
    {
        let c = s.get_char(i);
        let code = c as u32;
        if 65 <= code && code <= 90 {
            out.append(lower_letter_str(c));
        } else {
            out.append(s.substring_char(i, i + 1));
        }
        proof {
            assert(out@ =~= spec_lower(s@.subrange(0, i + 1 as int)));
        }
        i = i + 1;
    }
    proof {
        assert(s@.subrange(0, n as int) =~= s@);
    }
    out
}

/// The last position where `c` occurs in `s`, or -1 (as `None`).
pub fn last_index_of(s: &str, c: char) -> (r: Option<usize>)
    ensures
        match r {
            Some(i) => spec_last_index_of(s@, c) == i && i < s@.len(),
            None => spec_last_index_of(s@, c) == -1,
        },
{
    proof {
        lemma_last_index_of(s@, c);
    }
    let n = s.unicode_len();
    let mut i: usize = n;
    while i > 0
        invariant
            n == s@.len(),
            i <= n,
            forall|j: int| i <= j < n ==> s@[j] != c,
        decreases i,
    {
        i = i - 1;
        if s.get_char(i) == c {
            proof {
                lemma_last_index_at(s@, c, i as int);
            }
            return Some(i);
        }
    }
    None
}

/// The extension of a path as stored, unfolded; `None` when there is none.
pub fn extension_raw(path: &str) -> (r: Option<String>)
    ensures
        match r {
            Some(e) => spec_ext_start(path@) != -1 && e@ == path@.subrange(
                spec_ext_start(path@),
                path@.len() as int,
            ),
            None => spec_ext_start(path@) == -1,
        },
{
    let slash: Option<usize> = last_index_of(path, '/');
    let dot: Option<usize> = last_index_of(path, '.');
    match dot {
        None => None,
        Some(d) => {
            let start_ok = match slash {
                None => d > 0,
                Some(sl) => sl < usize::MAX && d > sl + 1,
            };
            if start_ok {
                let n = path.unicode_len();
                Some(path.substring_char(d + 1, n).to_owned())
            } else {
                None
            }
        },
    }
}

/// The extension of a path, lower-cased; `None` when there is none.
pub fn extension_lower(path: &str) -> (r: Option<String>)
    ensures
        match r {
            Some(e) => spec_ext_start(path@) != -1 && e@ == spec_extension_lower(path@),
            None => spec_ext_start(path@) == -1,
        },
{
    let slash: Option<usize> = last_index_of(path, '/');
    let dot: Option<usize> = last_index_of(path, '.');
    match dot {
        None => None,
        Some(d) => {
            let start_ok = match slash {
                None => d > 0,
                Some(sl) => sl < usize::MAX && d > sl + 1,
            };
            if start_ok {
                let n = path.unicode_len();
                let ext = path.substring_char(d + 1, n);
                Some(to_ascii_lower(ext))
            } else {
                None
            }
        },
    }
}

/// Whether a character sequence can only be the view of this exact literal.
fn eq_lit(s: &String, lit: &str) -> (r: bool)
    ensures
        r == (s@ == lit@),
{
    let l = String::from_str(lit);
    *s == l
}

/// Whether the path names a photo file.
pub fn is_image_path(path: &str) -> (r: bool)
    ensures
        r == spec_is_image(path@),
{
    match extension_lower(path) {
        None => {
            proof {
                assert(spec_extension_lower(path@) =~= Seq::<char>::empty());
                assert(spec_extension_lower(path@).len() == 0);
                strlit_nonempty();
            }
            false
        },
        Some(e) => eq_lit(&e, "jpg") || eq_lit(&e, "jpeg") || eq_lit(&e, "png") || eq_lit(
            &e,
            "gif",
        ) || eq_lit(&e, "bmp") || eq_lit(&e, "webp"),
    }
}

/// Whether the path names a video file.
pub fn is_video_path(path: &str) -> (r: bool)
    ensures
        r == spec_is_video(path@),
{
    match extension_lower(path) {
        None => {
            proof {
                assert(spec_extension_lower(path@) =~= Seq::<char>::empty());
                strlit_nonempty();
            }
            false
        },
        Some(e) => eq_lit(&e, "mp4") || eq_lit(&e, "mov") || eq_lit(&e, "avi") || eq_lit(&e, "mkv")
            || eq_lit(&e, "3gp"),
    }
}

/// Whether the path names a photo or a video file.
pub fn is_media_path(path: &str) -> (r: bool)
    ensures
        r == spec_is_media(path@),
{
    is_image_path(path) || is_video_path(path)
}

/// None of the extension literals is empty.
proof fn strlit_nonempty()
    ensures
        "jpg"@.len() == 3,
        "jpeg"@.len() == 4,
        "png"@.len() == 3,
        "gif"@.len() == 3,
        "bmp"@.len() == 3,
        "webp"@.len() == 4,
        "mp4"@.len() == 3,
        "mov"@.len() == 3,
        "avi"@.len() == 3,
        "mkv"@.len() == 3,
        "3gp"@.len() == 3,
{
    reveal_strlit("jpg");
    reveal_strlit("jpeg");
    reveal_strlit("png");
    reveal_strlit("gif");
    reveal_strlit("bmp");
    reveal_strlit("webp");
    reveal_strlit("mp4");
    reveal_strlit("mov");
    reveal_strlit("avi");
    reveal_strlit("mkv");
    reveal_strlit("3gp");
}

} // verus!
