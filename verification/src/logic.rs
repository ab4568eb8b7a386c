//! An in-memory data store: records with an id, a name, a value and a small
//! key-value metadata table, plus a batch transform over the values. Every
//! operation's effect on the store is stated exactly.

use vstd::prelude::*;

use crate::digits::dec_digits;
use crate::digits::append_u64;

verus! {

/// One stored record.
#[derive(Debug, Clone)]
pub struct AppData {
    pub id: u32,
    pub name: String,
    pub value: i32,
    pub metadata: Vec<(String, String)>,
}

/// The first position in `s` whose key reads as `k`, or -1.
pub open spec fn meta_idx_of(s: Seq<(String, String)>, k: Seq<char>) -> int
    decreases s.len(),
{
    if s.len() == 0 {
        -1
    } else if s[0].0@ == k {
        0
    } else if meta_idx_of(s.drop_first(), k) == -1 {
        -1
    } else {
        1 + meta_idx_of(s.drop_first(), k)
    }
}

/// What `meta_idx_of` finds: the first entry with the key, if any.
pub proof fn lemma_meta_idx_of(s: Seq<(String, String)>, k: Seq<char>)
    ensures
        meta_idx_of(s, k) == -1 ==> forall|j: int| 0 <= j < s.len() ==> s[j].0@ != k,
        meta_idx_of(s, k) != -1 ==> {
            &&& 0 <= meta_idx_of(s, k) < s.len()
            &&& s[meta_idx_of(s, k)].0@ == k
            &&& forall|j: int| 0 <= j < meta_idx_of(s, k) ==> s[j].0@ != k
        },
    decreases s.len(),
{
    if s.len() > 0 && s[0].0@ != k {
        let t = s.drop_first();
        lemma_meta_idx_of(t, k);
        assert(forall|j: int| 0 < j < s.len() ==> s[j] == t[j - 1]);
        if meta_idx_of(t, k) == -1 {
            assert(forall|j: int| 0 <= j < s.len() ==> s[j].0@ != k);
        } else {
            assert(s[meta_idx_of(s, k)] == t[meta_idx_of(t, k)]);
        }
    }
}

impl AppData {
    /// A record with the given fields and no metadata.
    pub fn new(id: u32, name: String, value: i32) -> (d: AppData)
        ensures
            d.id == id,
            d.name == name,
            d.value == value,
            d.metadata@.len() == 0,
    {
        AppData { id, name, value, metadata: Vec::new() }
    }

    /// Stores `value` under `key`: replaces the first entry that already
    /// carries the key, else appends a new entry.
    pub fn add_metadata(&mut self, key: String, value: String)
        ensures
            ({
                let i = meta_idx_of(old(self).metadata@, key@);
                if i == -1 {
                    final(self).metadata@ == old(self).metadata@.push((key, value))
                } else {
                    final(self).metadata@ == old(self).metadata@.update(
                        i,
                        (old(self).metadata@[i].0, value),
                    )
                }
            }),
            final(self).id == old(self).id,
            final(self).name == old(self).name,
            final(self).value == old(self).value,
    {
        proof {
            lemma_meta_idx_of(self.metadata@, key@);
        }
        let n = self.metadata.len();
        let mut i: usize = 0;
        while i < n
            invariant
                n == self.metadata@.len(),
                i <= n,
                forall|j: int| 0 <= j < i ==> self.metadata@[j].0@ != key@,
                *self == *old(self),
            decreases n - i,
        {
            if self.metadata[i].0 == key {
                proof {
                    lemma_meta_idx_first(self.metadata@, key@, i as int);
                }
                let kept = self.metadata[i].0.clone();
                self.metadata.set(i, (kept, value));
                return ;
            }
            i = i + 1;
        }
        self.metadata.push((key, value));
    }

    /// The value stored under `key`, if the table holds the key.
    pub fn get_metadata(&self, key: &str) -> (r: Option<&String>)
        ensures
            ({
                let i = meta_idx_of(self.metadata@, key@);
                match r {
                    Some(v) => i != -1 && *v == self.metadata@[i].1,
                    None => i == -1,
                }
            }),
    {
        proof {
            lemma_meta_idx_of(self.metadata@, key@);
        }
        let k = key.to_owned();
        let n = self.metadata.len();
        let mut i: usize = 0;
        while i < n
            invariant
                n == self.metadata@.len(),
                i <= n,
                k@ == key@,
                forall|j: int| 0 <= j < i ==> self.metadata@[j].0@ != key@,
            decreases n - i,
        {
            if self.metadata[i].0 == k {
                proof {
                    lemma_meta_idx_first(self.metadata@, key@, i as int);
                }
                return Some(&self.metadata[i].1);
            }
            i = i + 1;
        }
        None
    }
}

/// If nothing before `i` carries the key and entry `i` does, then `i` is
/// the position `meta_idx_of` finds.
pub proof fn lemma_meta_idx_first(s: Seq<(String, String)>, k: Seq<char>, i: int)
    requires
        0 <= i < s.len(),
        s[i].0@ == k,
        forall|j: int| 0 <= j < i ==> s[j].0@ != k,
    ensures
        meta_idx_of(s, k) == i,
    decreases s.len(),
{
    if i > 0 {
        lemma_meta_idx_first(s.drop_first(), k, i - 1);
    }
}

/// The first position in `s` holding a record with this id, or -1.
pub open spec fn idx_of(s: Seq<AppData>, id: u32) -> int
    decreases s.len(),
{
    if s.len() == 0 {
        -1
    } else if s[0].id == id {
        0
    } else if idx_of(s.drop_first(), id) == -1 {
        -1
    } else {
        1 + idx_of(s.drop_first(), id)
    }
}

/// What `idx_of` finds: the first record with the id, if any.
pub proof fn lemma_idx_of(s: Seq<AppData>, id: u32)
    ensures
        idx_of(s, id) == -1 ==> forall|j: int| 0 <= j < s.len() ==> s[j].id != id,
        idx_of(s, id) != -1 ==> {
            &&& 0 <= idx_of(s, id) < s.len()
            &&& s[idx_of(s, id)].id == id
            &&& forall|j: int| 0 <= j < idx_of(s, id) ==> s[j].id != id
        },
    decreases s.len(),
{
    if s.len() > 0 && s[0].id != id {
        let t = s.drop_first();
        lemma_idx_of(t, id);
        assert(forall|j: int| 0 < j < s.len() ==> s[j] == t[j - 1]);
        if idx_of(t, id) == -1 {
            assert(forall|j: int| 0 <= j < s.len() ==> s[j].id != id);
        } else {
            assert(s[idx_of(s, id)] == t[idx_of(t, id)]);
        }
    }
}

/// If nothing before `i` has the id and record `i` does, then `i` is the
/// position `idx_of` finds.
proof fn lemma_idx_first(s: Seq<AppData>, id: u32, i: int)
    requires
        0 <= i < s.len(),
        s[i].id == id,
        forall|j: int| 0 <= j < i ==> s[j].id != id,
    ensures
        idx_of(s, id) == i,
    decreases s.len(),
{
    if i > 0 {
        lemma_idx_first(s.drop_first(), id, i - 1);
    }
}

/// The first position whose value cannot be doubled within `i32`, or -1.
pub open spec fn first_overflow(s: Seq<AppData>) -> int
    decreases s.len(),
{
    if s.len() == 0 {
        -1
    } else if 2 * s[0].value > i32::MAX || 2 * s[0].value < i32::MIN {
        0
    } else if first_overflow(s.drop_first()) == -1 {
        -1
    } else {
        1 + first_overflow(s.drop_first())
    }
}

/// What `first_overflow` finds: the first record whose doubled value would
/// leave `i32`, if any.
pub proof fn lemma_first_overflow(s: Seq<AppData>)
    ensures
        first_overflow(s) == -1 ==> forall|j: int|
            0 <= j < s.len() ==> i32::MIN <= 2 * (#[trigger] s[j]).value <= i32::MAX,
        first_overflow(s) != -1 ==> {
            &&& 0 <= first_overflow(s) < s.len()
            &&& (2 * s[first_overflow(s)].value > i32::MAX || 2 * s[first_overflow(s)].value
                < i32::MIN)
            &&& forall|j: int|
                0 <= j < first_overflow(s) ==> i32::MIN <= 2 * (#[trigger] s[j]).value <= i32::MAX
        },
    decreases s.len(),
{
    if s.len() > 0 && i32::MIN <= 2 * s[0].value <= i32::MAX {
        let t = s.drop_first();
        lemma_first_overflow(t);
        assert(forall|j: int| 0 < j < s.len() ==> s[j] == t[j - 1]);
        if first_overflow(t) == -1 {
            assert(forall|j: int|
                0 <= j < s.len() ==> i32::MIN <= 2 * (#[trigger] s[j]).value <= i32::MAX);
        } else {
            assert(s[first_overflow(s)] == t[first_overflow(t)]);
        }
    }
}

/// The message announcing a finished batch transform over `n` records.
pub open spec fn processed_msg(n: int) -> Seq<char> {
    "Processed "@ + dec_digits(n) + " entries"@
}

/// The message naming the record on which doubling would overflow.
pub open spec fn overflow_msg(id: int) -> Seq<char> {
    "Integer overflow when processing data ID "@ + dec_digits(id)
}

/// The record store.
pub struct AppLogic {
    pub data: Vec<AppData>,
    pub next_id: u32,
}

impl AppLogic {
    /// An empty store; ids start at 1.
    pub fn new() -> (logic: AppLogic)
        ensures
            logic.data@.len() == 0,
            logic.next_id == 1,
    {
        AppLogic { data: Vec::new(), next_id: 1 }
    }

    /// Appends a record under the next free id and returns that id.
    pub fn add_data(&mut self, name: String, value: i32) -> (id: u32)
        requires
            old(self).next_id < u32::MAX,
        ensures
            id == old(self).next_id,
            final(self).next_id == old(self).next_id + 1,
            final(self).data@.len() == old(self).data@.len() + 1,
            final(self).data@.subrange(0, old(self).data@.len() as int) == old(self).data@,
            final(self).data@.last().id == id,
            final(self).data@.last().name == name,
            final(self).data@.last().value == value,
            final(self).data@.last().metadata@.len() == 0,
    {
        let id = self.next_id;
        self.next_id = self.next_id + 1;
        let data = AppData { id, name, value, metadata: Vec::new() };
        self.data.push(data);
        proof {
            assert(final(self).data@.subrange(0, old(self).data@.len() as int) =~= old(self).data@);
        }
        id
    }

    /// All records, in insertion order.
    pub fn get_all_data(&self) -> (r: &Vec<AppData>)
        ensures
            r@ == self.data@,
    {
        &self.data
    }

    /// The first record with this id, if the store holds one.
    pub fn get_data_by_id(&self, id: u32) -> (r: Option<&AppData>)
        ensures
            ({
                let i = idx_of(self.data@, id);
                match r {
                    Some(d) => i != -1 && *d == self.data@[i],
                    None => i == -1,
                }
            }),
    {
        proof {
            lemma_idx_of(self.data@, id);
        }
        let n = self.data.len();
        let mut i: usize = 0;
        while i < n
            invariant
                n == self.data@.len(),
                i <= n,
                forall|j: int| 0 <= j < i ==> self.data@[j].id != id,
            decreases n - i,
        {
            if self.data[i].id == id {
                proof {
                    lemma_idx_first(self.data@, id, i as int);
                }
                return Some(&self.data[i]);
            }
            i = i + 1;
        }
        None
    }

    /// Overwrites the name and value of the first record with this id, where
    /// given; reports whether such a record exists.
    pub fn update_data(&mut self, id: u32, name: Option<String>, value: Option<i32>) -> (r: bool)
        ensures
            r == (idx_of(old(self).data@, id) != -1),
            final(self).next_id == old(self).next_id,
            !r ==> final(self).data@ == old(self).data@,
            r ==> ({
                let i = idx_of(old(self).data@, id);
                let u = final(self).data@[i];
                let d = old(self).data@[i];
                &&& final(self).data@ == old(self).data@.update(i, u)
                &&& u.id == d.id
                &&& u.name == (match name {
                    Some(n) => n,
                    None => d.name,
                })
                &&& u.value == (match value {
                    Some(v) => v,
                    None => d.value,
                })
                &&& u.metadata == d.metadata
            }),
    {
        proof {
            lemma_idx_of(self.data@, id);
        }
        let n = self.data.len();
        let mut i: usize = 0;
        while i < n
            invariant
                n == self.data@.len(),
                i <= n,
                forall|j: int| 0 <= j < i ==> self.data@[j].id != id,
                *self == *old(self),
            decreases n - i,
        {
            if self.data[i].id == id {
                proof {
                    lemma_idx_first(self.data@, id, i as int);
                }
                let d = self.data.remove(i);
                let new_name = match name {
                    Some(n) => n,
                    None => d.name,
                };
                let new_value = match value {
                    Some(v) => v,
                    None => d.value,
                };
                let u = AppData { id: d.id, name: new_name, value: new_value, metadata: d.metadata };
                self.data.insert(i, u);
                proof {
                    assert(final(self).data@ =~= old(self).data@.update(
                        i as int,
                        final(self).data@[i as int],
                    ));
                }
                return true;
            }
            i = i + 1;
        }
        false
    }

    /// Removes the first record with this id; reports whether one existed.
    pub fn delete_data(&mut self, id: u32) -> (r: bool)
        ensures
            r == (idx_of(old(self).data@, id) != -1),
            final(self).next_id == old(self).next_id,
            !r ==> final(self).data@ == old(self).data@,
            r ==> ({
                let i = idx_of(old(self).data@, id);
                final(self).data@ == old(self).data@.subrange(0, i) + old(self).data@.subrange(
                    i + 1,
                    old(self).data@.len() as int,
                )
            }),
    {
        proof {
            lemma_idx_of(self.data@, id);
        }
        let n = self.data.len();
        let mut i: usize = 0;
        while i < n
            invariant
                n == self.data@.len(),
                i <= n,
                forall|j: int| 0 <= j < i ==> self.data@[j].id != id,
                *self == *old(self),
            decreases n - i,
        {
            if self.data[i].id == id {
                proof {
                    lemma_idx_first(self.data@, id, i as int);
                }
                self.data.remove(i);
                proof {
                    assert(final(self).data@ =~= old(self).data@.subrange(0, i as int) + old(self).data@.subrange(i as int + 1, old(self).data@.len() as int));
                }
                return true;
            }
            i = i + 1;
        }
        false
    }

    /// Doubles every stored value, in order. Stops at the first record whose
    /// doubled value would leave `i32`: earlier records stay doubled, that
    /// record and the rest stay as they were, and the error names the record.
    pub fn process_data(&mut self) -> (r: Result<String, String>)
        ensures
            final(self).next_id == old(self).next_id,
            final(self).data@.len() == old(self).data@.len(),
            forall|j: int|
                0 <= j < old(self).data@.len() ==> {
                    &&& (#[trigger] final(self).data@[j]).id == old(self).data@[j].id
                    &&& final(self).data@[j].name == old(self).data@[j].name
                    &&& final(self).data@[j].metadata == old(self).data@[j].metadata
                },
            match r {
                Ok(msg) => {
                    &&& first_overflow(old(self).data@) == -1
                    &&& forall|j: int|
                        0 <= j < old(self).data@.len() ==> (#[trigger] final(self).data@[j]).value
                            == 2 * old(self).data@[j].value
                    &&& msg@ == processed_msg(old(self).data@.len() as int)
                },
                Err(e) => {
                    &&& first_overflow(old(self).data@) != -1
                    &&& ({
                        let k = first_overflow(old(self).data@);
                        &&& forall|j: int|
                            0 <= j < k ==> (#[trigger] final(self).data@[j]).value == 2 * old(self).data@[j].value
                        &&& forall|j: int|
                            k <= j < old(self).data@.len() ==> (#[trigger] final(self).data@[j]).value == old(self).data@[j].value
                        &&& e@ == overflow_msg(old(self).data@[k].id as int)
                    })
                },
            },
    {
        proof {
            lemma_first_overflow(self.data@);
        }
        let n = self.data.len();
        let mut i: usize = 0;
        while i < n
            invariant
                n == self.data@.len() == old(self).data@.len(),
                i <= n,
                self.next_id == old(self).next_id,
                forall|j: int|
                    0 <= j < n ==> {
                        &&& (#[trigger] self.data@[j]).id == old(self).data@[j].id
                        &&& self.data@[j].name == old(self).data@[j].name
                        &&& self.data@[j].metadata == old(self).data@[j].metadata
                    },
                forall|j: int|
                    0 <= j < i ==> (#[trigger] self.data@[j]).value == 2 * old(self).data@[j].value,
                forall|j: int|
                    i <= j < n ==> (#[trigger] self.data@[j]).value == old(self).data@[j].value,
                forall|j: int|
                    0 <= j < i ==> i32::MIN <= 2 * (#[trigger] old(self).data@[j]).value
                        <= i32::MAX,
            decreases n - i,
        {
            let v = self.data[i].value;
            if v > i32::MAX / 2 || v < i32::MIN / 2 {
                proof {
                    lemma_overflow_first(old(self).data@, i as int);
                }
                let mut e = String::new();
                e.append("Integer overflow when processing data ID ");
                append_u64(&mut e, self.data[i].id as u64);
                proof {
                    assert(e@ =~= overflow_msg(old(self).data@[i as int].id as int));
                }
                return Err(e);
            }
            let ghost prev = self.data@;
            let d = self.data.remove(i);
            let u = AppData { id: d.id, name: d.name, value: v * 2, metadata: d.metadata };
            self.data.insert(i, u);
            proof {
                assert(self.data@ =~= prev.update(i as int, self.data@[i as int]));
            }
            i = i + 1;
        }
        proof {
            if first_overflow(old(self).data@) != -1 {
                lemma_first_overflow(old(self).data@);
            }
        }
        let mut msg = String::new();
        msg.append("Processed ");
        append_u64(&mut msg, n as u64);
        msg.append(" entries");
        proof {
            assert(msg@ =~= processed_msg(old(self).data@.len() as int));
        }
        Ok(msg)
    }
}

/// If doubling stays in range before `i` and leaves it at `i`, then `i` is
/// the position `first_overflow` finds.
proof fn lemma_overflow_first(s: Seq<AppData>, i: int)
    requires
        0 <= i < s.len(),
        2 * s[i].value > i32::MAX || 2 * s[i].value < i32::MIN,
        forall|j: int| 0 <= j < i ==> i32::MIN <= 2 * (#[trigger] s[j]).value <= i32::MAX,
    ensures
        first_overflow(s) == i,
    decreases s.len(),
{
    if i > 0 {
        lemma_overflow_first(s.drop_first(), i - 1);
    }
}

} // verus!
