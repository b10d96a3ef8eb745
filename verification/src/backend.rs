//! A backend that keeps its records in memory, and what reading and
//! writing a record mean.

use crate::fields::Fields;
use crate::record::{pairs_view, strings_view};
use vstd::prelude::*;

verus! {

/// The records of a backend: for each key that was written, its fields.
pub type Records = Map<Seq<char>, Map<Seq<char>, Seq<char>>>;

/// A backend operation did not go through. The connection it ran on must
/// not be used again.
#[derive(Clone, Copy, Debug, PartialEq, Eq, Structural)]
pub struct BackendError {}

/// The fields under `key`; a key that was never written has none.
pub open spec fn record_at(records: Records, key: Seq<char>) -> Map<Seq<char>, Seq<char>> {
    if records.contains_key(key) {
        records[key]
    } else {
        Map::empty()
    }
}

/// The part of `record` that `names` ask for: each of them that the record
/// has, with its value.
pub open spec fn chosen(record: Map<Seq<char>, Seq<char>>, names: Seq<Seq<char>>) -> Map<
    Seq<char>,
    Seq<char>,
> {
    Map::new(|n: Seq<char>| names.contains(n) && record.contains_key(n), |n: Seq<char>| record[n])
}

/// `record` after `pairs` were written to it one after the other.
pub open spec fn written(
    record: Map<Seq<char>, Seq<char>>,
    pairs: Seq<(Seq<char>, Seq<char>)>,
) -> Map<Seq<char>, Seq<char>>
    decreases pairs.len(),
{
    if pairs.len() == 0 {
        record
    } else {
        written(record, pairs.drop_last()).insert(pairs.last().0, pairs.last().1)
    }
}

/// What reading `names` under `key` returns.
pub open spec fn reading(records: Records, key: Seq<char>, names: Seq<Seq<char>>) -> Map<
    Seq<char>,
    Seq<char>,
> {
    chosen(record_at(records, key), names)
}

/// The records after `pairs` were written under `key`.
pub open spec fn writing(records: Records, key: Seq<char>, pairs: Seq<(Seq<char>, Seq<char>)>) -> Records {
    records.insert(key, written(record_at(records, key), pairs))
}

/// What a list of keyed records means as a mapping: a later entry
/// overrides an earlier one of the same key.
pub open spec fn records_map(entries: Seq<(String, Fields)>) -> Records
    decreases entries.len(),
{
    if entries.len() == 0 {
        Map::empty()
    } else {
        records_map(entries.drop_last()).insert(entries.last().0@, entries.last().1@)
    }
}

/// What a backend in memory is at one moment.
#[verifier::ext_equal]
pub struct BackendState {
    /// The records it holds.
    pub records: Records,
    /// Whether it answers.
    pub up: bool,
}

/// A backend that keeps its records in memory. It can be switched off, and
/// then refuses connections and fails every operation.
#[derive(Debug)]
pub struct MemoryBackend {
    entries: Vec<(String, Fields)>,
    up: bool,
}

impl View for MemoryBackend {
    type V = BackendState;

    closed spec fn view(&self) -> BackendState {
        BackendState { records: records_map(self.entries@), up: self.up }
    }
}

/// Asking for one more name adds that name with its value, where the
/// record has it, and nothing else.
proof fn lemma_chosen_step(record: Map<Seq<char>, Seq<char>>, names: Seq<Seq<char>>, j: int)
    requires
        0 <= j < names.len(),
    ensures
        chosen(record, names.take(j + 1)) == (if record.contains_key(names[j]) {
            chosen(record, names.take(j)).insert(names[j], record[names[j]])
        } else {
            chosen(record, names.take(j))
        }),
{
    let longer = names.take(j + 1);
    let shorter = names.take(j);
    assert(longer[j] == names[j]);
    assert forall|n: Seq<char>| longer.contains(n) <==> shorter.contains(n) || n == names[j] by {
        if longer.contains(n) {
            let i = choose|i: int| 0 <= i < longer.len() && longer[i] == n;
            if i < j {
                assert(shorter[i] == n);
            }
        }
        if shorter.contains(n) {
            let i = choose|i: int| 0 <= i < shorter.len() && shorter[i] == n;
            assert(longer[i] == n);
        }
    }
    let stepped = if record.contains_key(names[j]) {
        chosen(record, shorter).insert(names[j], record[names[j]])
    } else {
        chosen(record, shorter)
    };
    assert forall|n: Seq<char>| chosen(record, longer).contains_key(n) <==> stepped.contains_key(
        n,
    ) by {
        assert(longer.contains(n) <==> shorter.contains(n) || n == names[j]);
    }
    assert(chosen(record, longer) =~= stepped);
}

impl MemoryBackend {
    /// A backend that answers and holds no record.
    pub fn new() -> (backend: MemoryBackend)
        ensures
            backend@ == (BackendState { records: Map::empty(), up: true }),
    {
        MemoryBackend { entries: Vec::new(), up: true }
    }

    /// Switches the backend on or off.
    pub fn set_up(&mut self, up: bool)
        ensures
            final(self)@ == (BackendState { records: old(self)@.records, up }),
    {
        self.up = up;
    }

    /// Whether the backend answers.
    pub fn is_up(&self) -> (up: bool)
        ensures
            up == self@.up,
    {
        self.up
    }

    /// Opens a session: it succeeds exactly while the backend answers.
    pub fn connect(&self) -> (outcome: Result<(), BackendError>)
        ensures
            outcome is Ok <==> self@.up,
    {
        if self.up {
            Ok(())
        } else {
            Err(BackendError {  })
        }
    }

    /// The position of the entry that holds the fields of `key`.
    fn find(&self, key: &String) -> (found: Option<usize>)
        ensures
            match found {
                Some(i) => i < self.entries.len() && self@.records.contains_key(key@)
                    && self@.records[key@] == self.entries[i as int].1@,
                None => !self@.records.contains_key(key@),
            },
    {
        let mut i: usize = self.entries.len();
        proof {
            assert(self.entries@.take(i as int) == self.entries@);
        }
        while i > 0
            invariant
                i <= self.entries.len(),
                records_map(self.entries@).contains_key(key@) <==> records_map(
                    self.entries@.take(i as int),
                ).contains_key(key@),
                records_map(self.entries@).contains_key(key@) ==> records_map(self.entries@)[key@]
                    == records_map(self.entries@.take(i as int))[key@],
            decreases i,
        {
            proof {
                let upto = self.entries@.take(i as int);
                assert(upto.drop_last() == self.entries@.take(i as int - 1));
                assert(upto.last() == self.entries@[i as int - 1]);
            }
            i -= 1;
            if self.entries[i].0 == *key {
                return Some(i);
            }
        }
        proof {
            assert(self.entries@.take(0) == Seq::<(String, Fields)>::empty());
        }
        None
    }

    /// Reads the fields `names` of the record under `key`.
    ///
    /// While the backend answers, the result holds each of `names` that
    /// the record has; for a key that was never written it is empty, which
    /// is no error. While the backend is off the read fails.
    pub fn read_fields(&self, key: &str, names: &Vec<String>) -> (outcome: Result<
        Fields,
        BackendError,
    >)
        ensures
            outcome is Ok <==> self@.up,
            outcome matches Ok(fields) ==> fields@ == reading(
                self@.records,
                key@,
                strings_view(names@),
            ),
    {
        if !self.up {
            return Err(BackendError {  });
        }
        let key = key.to_owned();
        let found = self.find(&key);
        let ghost record = record_at(self@.records, key@);
        let ghost wanted = strings_view(names@);
        let mut fields = Fields::new();
        let mut j: usize = 0;
        proof {
            assert(fields@ =~= chosen(record, wanted.take(0)));
        }
        while j < names.len()
            invariant
                j <= names.len(),
                wanted == strings_view(names@),
                record == record_at(self@.records, key@),
                match found {
                    Some(i) => i < self.entries.len() && self@.records.contains_key(key@)
                        && self@.records[key@] == self.entries[i as int].1@,
                    None => !self@.records.contains_key(key@),
                },
                fields@ == chosen(record, wanted.take(j as int)),
            decreases names.len() - j,
        {
            proof {
                lemma_chosen_step(record, wanted, j as int);
                assert(wanted[j as int] == names@[j as int]@);
            }
            if let Some(i) = found {
                if let Some(value) = self.entries[i].1.get(names[j].as_str()) {
                    fields.insert(names[j].clone(), value);
                }
            }
            j += 1;
        }
        proof {
            assert(wanted.take(j as int) == wanted);
        }
        Ok(fields)
    }

    /// Writes `pairs`, one after the other, to the record under `key`.
    ///
    /// While the backend answers, all of them are written and the fields
    /// that `pairs` do not name stay as they are. While the backend is off
    /// the write fails and nothing is written.
    pub fn write_fields(&mut self, key: &str, pairs: &Vec<(String, String)>) -> (outcome: Result<
        (),
        BackendError,
    >)
        ensures
            outcome is Ok <==> old(self)@.up,
            final(self)@.up == old(self)@.up,
            final(self)@.records == (if old(self)@.up {
                writing(old(self)@.records, key@, pairs_view(pairs@))
            } else {
                old(self)@.records
            }),
    {
        if !self.up {
            return Err(BackendError {  });
        }
        let key = key.to_owned();
        let mut record = match self.find(&key) {
            Some(i) => self.entries[i].1.duplicate(),
            None => Fields::new(),
        };
        let ghost start = record_at(self@.records, key@);
        let ghost queue = pairs_view(pairs@);
        let mut j: usize = 0;
        while j < pairs.len()
            invariant
                j <= pairs.len(),
                queue == pairs_view(pairs@),
                record@ == written(start, queue.take(j as int)),
            decreases pairs.len() - j,
        {
            proof {
                assert(queue.take(j as int + 1).drop_last() == queue.take(j as int));
            }
            record.insert(pairs[j].0.clone(), pairs[j].1.clone());
            j += 1;
        }
        proof {
            assert(queue.take(j as int) == queue);
        }
        let mut kept: Vec<(String, Fields)> = Vec::new();
        let mut i: usize = 0;
        while i < self.entries.len()
            invariant
                i <= self.entries.len(),
                self.entries == old(self).entries,
                records_map(kept@) == records_map(self.entries@.take(i as int)).remove(key@),
            decreases self.entries.len() - i,
        {
            proof {
                let upto = self.entries@.take(i as int + 1);
                assert(upto.drop_last() == self.entries@.take(i as int));
                assert(upto.last() == self.entries@[i as int]);
            }
            if self.entries[i].0 != key {
                let entry = (self.entries[i].0.clone(), self.entries[i].1.duplicate());
                proof {
                    assert(kept@.push(entry).drop_last() == kept@);
                }
                kept.push(entry);
            }
            i += 1;
        }
        proof {
            assert(self.entries@.take(i as int) == self.entries@);
            assert(kept@.push((key, record)).drop_last() == kept@);
        }
        kept.push((key, record));
        self.entries = kept;
        Ok(())
    }
}

} // verus!
