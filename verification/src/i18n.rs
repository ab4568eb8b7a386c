//! Message lookup by language. The language tables are loaded by the
//! caller; selecting a language, looking a key up with its English
//! fallback, and naming a time zone for an offset are verified here.

use vstd::prelude::*;

use crate::logic::lemma_meta_idx_first;
use crate::logic::lemma_meta_idx_of;
use crate::logic::meta_idx_of;

verus! {

/// One language's messages, keyed by message name.
#[derive(Debug, Clone)]
pub struct Language {
    pub code: String,
    pub name: String,
    pub messages: Vec<(String, String)>,
}

/// The first language in `s` whose code reads as `k`, or -1.
pub open spec fn lang_idx_of(s: Seq<Language>, k: Seq<char>) -> int
    decreases s.len(),
{
    if s.len() == 0 {
        -1
    } else if s[0].code@ == k {
        0
    } else if lang_idx_of(s.drop_first(), k) == -1 {
        -1
    } else {
        1 + lang_idx_of(s.drop_first(), k)
    }
}

/// What `lang_idx_of` finds: the first language with the code, if any.
proof fn lemma_lang_idx_of(s: Seq<Language>, k: Seq<char>)
    ensures
        lang_idx_of(s, k) == -1 ==> forall|j: int| 0 <= j < s.len() ==> s[j].code@ != k,
        lang_idx_of(s, k) != -1 ==> {
            &&& 0 <= lang_idx_of(s, k) < s.len()
            &&& s[lang_idx_of(s, k)].code@ == k
            &&& forall|j: int| 0 <= j < lang_idx_of(s, k) ==> s[j].code@ != k
        },
    decreases s.len(),
{
    if s.len() > 0 && s[0].code@ != k {
        let t = s.drop_first();
        lemma_lang_idx_of(t, k);
        assert(forall|j: int| 0 < j < s.len() ==> s[j] == t[j - 1]);
        if lang_idx_of(t, k) == -1 {
            assert(forall|j: int| 0 <= j < s.len() ==> s[j].code@ != k);
        } else {
            assert(s[lang_idx_of(s, k)] == t[lang_idx_of(t, k)]);
        }
    }
}

/// If nothing before `i` carries the code and language `i` does, then `i`
/// is the position `lang_idx_of` finds.
proof fn lemma_lang_idx_first(s: Seq<Language>, k: Seq<char>, i: int)
    requires
        0 <= i < s.len(),
        s[i].code@ == k,
        forall|j: int| 0 <= j < i ==> s[j].code@ != k,
    ensures
        lang_idx_of(s, k) == i,
    decreases s.len(),
{
    if i > 0 {
        lemma_lang_idx_first(s.drop_first(), k, i - 1);
    }
}

/// The message a key resolves to in one language table, if the key is
/// there.
pub open spec fn spec_message_in(lang: Language, key: Seq<char>) -> Option<Seq<char>> {
    let j = meta_idx_of(lang.messages@, key);
    if j == -1 {
        None
    } else {
        Some(lang.messages@[j].1@)
    }
}

/// What a key resolves to: the current language's message, else the
/// English message, else the key itself.
pub open spec fn spec_message(
    langs: Seq<Language>,
    current: Seq<char>,
    key: Seq<char>,
) -> Seq<char> {
    let ci = lang_idx_of(langs, current);
    let first = if ci == -1 {
        None
    } else {
        spec_message_in(langs[ci], key)
    };
    match first {
        Some(m) => m,
        None => {
            let ei = lang_idx_of(langs, "en"@);
            let second = if ei == -1 {
                None
            } else {
                spec_message_in(langs[ei], key)
            };
            match second {
                Some(m) => m,
                None => key,
            }
        },
    }
}

/// Message lookup for one run: the loaded languages, the selected
/// language, and the default time-zone offset in seconds.
pub struct I18n {
    pub current_language: String,
    pub languages: Vec<Language>,
    pub default_timezone_offset: i32,
}

impl I18n {
    /// A lookup over loaded languages, starting in English with the given
    /// default offset.
    pub fn new(languages: Vec<Language>, default_timezone_offset: i32) -> (r: I18n)
        ensures
            r.current_language@ == "en"@,
            r.languages == languages,
            r.default_timezone_offset == default_timezone_offset,
    {
        I18n { current_language: String::from_str("en"), languages, default_timezone_offset }
    }

    /// Selects a language; an unknown code leaves the selection alone.
    pub fn set_language(&mut self, code: &str)
        ensures
            final(self).languages == old(self).languages,
            final(self).default_timezone_offset == old(self).default_timezone_offset,
            if lang_idx_of(old(self).languages@, code@) != -1 {
                final(self).current_language@ == code@
            } else {
                final(self).current_language == old(self).current_language
            },
    {
        if let Some(_) = self.find_language(code) {
            self.current_language = code.to_owned();
        }
    }

    /// The message for a key: the selected language first, English as the
    /// fallback, and the key itself when neither has it.
    pub fn get_message(&self, key: &str) -> (r: String)
        ensures
            r@ == spec_message(self.languages@, self.current_language@, key@),
    {
        let cur = self.current_language.clone();
        if let Some(i) = self.find_language(cur.as_str()) {
            if let Some(m) = lookup_message(&self.languages[i], key) {
                return m;
            }
        }
        if let Some(i) = self.find_language("en") {
            if let Some(m) = lookup_message(&self.languages[i], key) {
                return m;
            }
        }
        key.to_owned()
    }

    /// Sets the default time-zone offset, in seconds.
    pub fn set_timezone(&mut self, offset: i32)
        ensures
            final(self).default_timezone_offset == offset,
            final(self).languages == old(self).languages,
            final(self).current_language == old(self).current_language,
    {
        self.default_timezone_offset = offset;
    }

    /// The default time-zone offset, in seconds.
    pub fn get_timezone(&self) -> (r: i32)
        ensures
            r == self.default_timezone_offset,
    {
        self.default_timezone_offset
    }

    /// The first loaded language with this code, as an index.
    fn find_language(&self, code: &str) -> (r: Option<usize>)
        ensures
            match r {
                Some(i) => lang_idx_of(self.languages@, code@) == i && i < self.languages@.len(),
                None => lang_idx_of(self.languages@, code@) == -1,
            },
    {
        proof {
            lemma_lang_idx_of(self.languages@, code@);
        }
        let k = code.to_owned();
        let n = self.languages.len();
        let mut i: usize = 0;
        while i < n
            invariant
                n == self.languages@.len(),
                i <= n,
                k@ == code@,
                forall|j: int| 0 <= j < i ==> self.languages@[j].code@ != code@,
            decreases n - i,
        {
            if self.languages[i].code == k {
                proof {
                    lemma_lang_idx_first(self.languages@, code@, i as int);
                }
                return Some(i);
            }
            i = i + 1;
        }
        None
    }
}

/// The message stored under a key in one language table.
fn lookup_message(lang: &Language, key: &str) -> (r: Option<String>)
    ensures
        match r {
            Some(m) => spec_message_in(*lang, key@) == Some(m@),
            None => spec_message_in(*lang, key@) is None,
        },
{
    proof {
        lemma_meta_idx_of(lang.messages@, key@);
    }
    let k = key.to_owned();
    let n = lang.messages.len();
    let mut i: usize = 0;
    while i < n
        invariant
            n == lang.messages@.len(),
            i <= n,
            k@ == key@,
            forall|j: int| 0 <= j < i ==> lang.messages@[j].0@ != key@,
        decreases n - i,
    {
        if lang.messages[i].0 == k {
            proof {
                lemma_meta_idx_first(lang.messages@, key@, i as int);
            }
            return Some(lang.messages[i].1.clone());
        }
        i = i + 1;
    }
    None
}

/// The time-zone name this library infers from a local offset: the fixed
/// table of common offsets, with UTC for anything else.
pub fn timezone_name_for_offset(offset: i32) -> (r: &'static str)
    ensures
        r@ == (if offset == 32400 {
            "Asia/Tokyo"@
        } else if offset == 28800 {
            "Asia/Shanghai"@
        } else if offset == 3600 {
            "Europe/Paris"@
        } else if offset == -18000 {
            "America/New_York"@
        } else if offset == -28800 {
            "America/Los_Angeles"@
        } else {
            "UTC"@
        }),
{
    if offset == 32400 {
        "Asia/Tokyo"
    } else if offset == 28800 {
        "Asia/Shanghai"
    } else if offset == 3600 {
        "Europe/Paris"
    } else if offset == -18000 {
        "America/New_York"
    } else if offset == -28800 {
        "America/Los_Angeles"
    } else {
        "UTC"
    }
}

} // verus!
