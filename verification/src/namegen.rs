//! Target file names: rendering a resolved timestamp (with orientation
//! suffix, sub-second part and extension) and finding a collision-free name
//! against the names already present in the output directory.

use vstd::prelude::*;

use crate::dates::CivilDateTime;
use crate::dates::valid_date;
use crate::digits::append_four_digits;
use crate::digits::append_three_digits;
use crate::digits::append_two_digits;
use crate::digits::append_u64;
use crate::digits::dec_digits;
use crate::digits::four_digits;
use crate::digits::lemma_dec_digits_injective;
use crate::digits::lemma_dec_digits_len;
use crate::digits::three_digits;
use crate::digits::two_digits;

verus! {

/// The compact timestamp `YYYYMMDD_HHMMSS` of a date-time.
pub open spec fn spec_compact_timestamp(c: CivilDateTime) -> Seq<char> {
    four_digits(c.year as int) + two_digits(c.month as int) + two_digits(c.day as int) + "_"@
        + two_digits(c.hour as int) + two_digits(c.minute as int) + two_digits(c.second as int)
}

/// The dashed timestamp `YYYY-MM-DD_HH-MM-SS`, with `-mmm` milliseconds
/// appended only when the sub-second part is not zero.
pub open spec fn spec_dashed_timestamp(c: CivilDateTime) -> Seq<char> {
    let base = four_digits(c.year as int) + "-"@ + two_digits(c.month as int) + "-"@ + two_digits(
        c.day as int,
    ) + "_"@ + two_digits(c.hour as int) + "-"@ + two_digits(c.minute as int) + "-"@ + two_digits(
        c.second as int,
    );
    if c.nanosecond > 0 {
        base + "-"@ + three_digits(c.nanosecond as int / 1_000_000)
    } else {
        base
    }
}

/// Renders `YYYYMMDD_HHMMSS`.
pub fn compact_timestamp(c: &CivilDateTime) -> (r: String)
    requires
        valid_date(*c),
    ensures
        r@ == spec_compact_timestamp(*c),
{
    let mut s = String::new();
    append_four_digits(&mut s, c.year);
    append_two_digits(&mut s, c.month);
    append_two_digits(&mut s, c.day);
    s.append("_");
    append_two_digits(&mut s, c.hour);
    append_two_digits(&mut s, c.minute);
    append_two_digits(&mut s, c.second);
    proof {
        assert(s@ =~= spec_compact_timestamp(*c));
    }
    s
}

/// Renders `YYYY-MM-DD_HH-MM-SS`, with milliseconds when present.
pub fn dashed_timestamp(c: &CivilDateTime) -> (r: String)
    requires
        valid_date(*c),
    ensures
        r@ == spec_dashed_timestamp(*c),
{
    let mut s = String::new();
    append_four_digits(&mut s, c.year);
    s.append("-");
    append_two_digits(&mut s, c.month);
    s.append("-");
    append_two_digits(&mut s, c.day);
    s.append("_");
    append_two_digits(&mut s, c.hour);
    s.append("-");
    append_two_digits(&mut s, c.minute);
    s.append("-");
    append_two_digits(&mut s, c.second);
    if c.nanosecond > 0 {
        s.append("-");
        append_three_digits(&mut s, c.nanosecond / 1_000_000);
    }
    proof {
        assert(s@ =~= spec_dashed_timestamp(*c));
    }
    s
}

/// The canonical target name of one file: the compact timestamp, the
/// milliseconds when the sub-second part is not zero, the orientation
/// suffix, the burst ordinal for a burst member, and the extension.
pub open spec fn spec_canonical_name(
    date: CivilDateTime,
    suffix: Seq<char>,
    ordinal: Option<u32>,
    ext: Seq<char>,
) -> Seq<char> {
    spec_compact_timestamp(date) + (if date.nanosecond > 0 {
        "_"@ + three_digits(date.nanosecond as int / 1_000_000)
    } else {
        Seq::empty()
    }) + suffix + (match ordinal {
        Some(o) => "_burst"@ + three_digits(o as int),
        None => Seq::empty(),
    }) + "."@ + ext

}

/// Renders the canonical target name of one file.
pub fn generate_name(
    date: &CivilDateTime,
    suffix: &str,
    ordinal: Option<u32>,
    ext: &str,
) -> (r: String)
    requires
        valid_date(*date),
        ordinal is Some ==> ordinal->0 < 1000,
    ensures
        r@ == spec_canonical_name(*date, suffix@, ordinal, ext@),
{
    let mut s = compact_timestamp(date);
    if date.nanosecond > 0 {
        s.append("_");
        append_three_digits(&mut s, date.nanosecond / 1_000_000);
    }
    s.append(suffix);
    match ordinal {
        Some(o) => {
            s.append("_burst");
            append_three_digits(&mut s, o);
        },
        None => {},
    }
    s.append(".");
    s.append(ext);
    proof {
        assert(s@ =~= spec_canonical_name(*date, suffix@, ordinal, ext@));
    }
    s
}

/// The date-bucketed directory `YYYY/MM/DD` of a date-time, for callers
/// that nest the output by date.
pub open spec fn spec_date_directory(c: CivilDateTime) -> Seq<char> {
    four_digits(c.year as int) + "/"@ + two_digits(c.month as int) + "/"@ + two_digits(
        c.day as int,
    )
}

/// Renders the date-bucketed directory `YYYY/MM/DD`.
pub fn date_directory(c: &CivilDateTime) -> (r: String)
    requires
        valid_date(*c),
    ensures
        r@ == spec_date_directory(*c),
{
    let mut s = String::new();
    append_four_digits(&mut s, c.year);
    s.append("/");
    append_two_digits(&mut s, c.month);
    s.append("/");
    append_two_digits(&mut s, c.day);
    proof {
        assert(s@ =~= spec_date_directory(*c));
    }
    s
}

/// The `k`-th candidate name for a stem and extension: the plain name first,
/// then the stem with `_1`, `_2`, and so on.
pub open spec fn candidate(stem: Seq<char>, ext: Seq<char>, k: int) -> Seq<char> {
    if k == 0 {
        stem + "."@ + ext
    } else {
        stem + "_"@ + dec_digits(k) + "."@ + ext
    }
}

/// Whether a name is already present among the existing names.
pub open spec fn taken(name: Seq<char>, existing: Seq<String>) -> bool {
    exists|i: int| 0 <= i < existing.len() && existing[i]@ == name
}

/// Distinct candidate indices give distinct names.
proof fn lemma_candidate_injective(stem: Seq<char>, ext: Seq<char>, k1: int, k2: int)
    requires
        0 <= k1 < k2,
    ensures
        candidate(stem, ext, k1) != candidate(stem, ext, k2),
{
    reveal_strlit(".");
    reveal_strlit("_");
    lemma_dec_digits_len(k2);
    let c2 = candidate(stem, ext, k2);
    let d2 = dec_digits(k2);
    if k1 == 0 {
        lemma_dec_digits_len(k2);
        assert(candidate(stem, ext, k1).len() == stem.len() + 1 + ext.len());
        assert(c2.len() == stem.len() + 1 + d2.len() + 1 + ext.len());
    } else {
        let c1 = candidate(stem, ext, k1);
        let d1 = dec_digits(k1);
        lemma_dec_digits_len(k1);
        lemma_dec_digits_injective(k1, k2);
        if c1 == c2 {
            assert(c1.len() == stem.len() + 1 + d1.len() + 1 + ext.len());
            assert(c2.len() == stem.len() + 1 + d2.len() + 1 + ext.len());
            assert(d1.len() == d2.len());
            assert(forall|i: int|
                0 <= i < d1.len() ==> c1[stem.len() + 1 + i] == #[trigger] d1[i]);
            assert(forall|i: int|
                0 <= i < d2.len() ==> c2[stem.len() + 1 + i] == #[trigger] d2[i]);
            assert(d1 =~= d2);
        }
    }
}

/// Whether `name` occurs among `existing`.
pub fn contains_name(existing: &Vec<String>, name: &String) -> (r: bool)
    ensures
        r == taken(name@, existing@),
{
    let n = existing.len();
    let mut i: usize = 0;
    while i < n
        invariant
            n == existing@.len(),
            i <= n,
            forall|j: int| 0 <= j < i ==> existing@[j]@ != name@,
        decreases n - i,
    {
        if existing[i] == *name {
            return true;
        }
        i = i + 1;
    }
    false
}

/// The `k`-th candidate name as a string.
fn build_candidate(stem: &str, ext: &str, k: u64) -> (r: String)
    ensures
        r@ == candidate(stem@, ext@, k as int),
{
    let mut s = stem.to_owned();
    if k > 0 {
        s.append("_");
        append_u64(&mut s, k);
    }
    s.append(".");
    s.append(ext);
    proof {
        assert(s@ =~= candidate(stem@, ext@, k as int));
    }
    s
}

/// The first candidate name for `stem.ext` that no existing name equals:
/// `stem.ext` itself when free, else `stem_1.ext`, `stem_2.ext`, and so on
/// with the first free counter.
pub fn unique_name(stem: &str, ext: &str, existing: &Vec<String>) -> (r: String)
    requires
        existing@.len() < usize::MAX,
    ensures
        !taken(r@, existing@),
        exists|k: int|
            {
                &&& 0 <= k
                &&& r@ == candidate(stem@, ext@, k)
                &&& forall|j: int| 0 <= j < k ==> taken(#[trigger] candidate(stem@, ext@, j), existing@)
            },
{
    let n = existing.len();
    let mut k: usize = 0;
    while k <= n
        invariant
            n == existing@.len(),
            k <= n + 1,
            n < usize::MAX,
            forall|j: int| 0 <= j < k ==> taken(#[trigger] candidate(stem@, ext@, j), existing@),
        decreases n + 1 - k,
    {
        let cand = build_candidate(stem, ext, k as u64);
        if !contains_name(existing, &cand) {
            proof {
                let kk = k as int;
                assert(cand@ == candidate(stem@, ext@, kk));
            }
            return cand;
        }
        k = k + 1;
    }
    proof {
        // All n + 1 distinct candidates were found among n existing names:
        // impossible, so this point is never reached.
        let cands = Seq::new((n + 1) as nat, |j: int| candidate(stem@, ext@, j));
        assert(cands.no_duplicates()) by {
            assert forall|i: int, j: int|
                0 <= i < cands.len() && 0 <= j < cands.len() && i != j implies cands[i]
                != cands[j] by {
                if i < j {
                    lemma_candidate_injective(stem@, ext@, i, j);
                } else {
                    lemma_candidate_injective(stem@, ext@, j, i);
                }
            }
        }
        cands.unique_seq_to_set();
        let views = existing@.map_values(|s: String| s@);
        views.lemma_cardinality_of_set();
        vstd::seq_lib::seq_to_set_is_finite(views);
        assert(cands.to_set().subset_of(views.to_set())) by {
            assert forall|x: Seq<char>| cands.to_set().contains(x) implies views.to_set().contains(
                x,
            ) by {
                let j = choose|j: int| 0 <= j < cands.len() && cands[j] == x;
                assert(taken(candidate(stem@, ext@, j), existing@));
                let i = choose|i: int| 0 <= i < existing@.len() && existing@[i]@ == x;
                assert(views[i] == x);
            }
        }
        vstd::set_lib::lemma_len_subset(cands.to_set(), views.to_set());
        assert(false);
    }
    vstd::pervasive::unreached()
}

/// Name reservation keeps targets apart: once the first file's target name
/// stands among the existing names of a directory, any name generated as
/// free against those existing names differs from it.
pub proof fn lemma_reserved_name_not_reused(
    first: Seq<char>,
    second: Seq<char>,
    existing: Seq<String>,
)
    requires
        taken(first, existing),
        !taken(second, existing),
    ensures
        second != first,
{
}

} // verus!
