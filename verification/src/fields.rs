//! A flat mapping from field names to string values.

use vstd::prelude::*;

verus! {

/// What a list of name/value entries means as a mapping: a later entry
/// overrides an earlier one of the same name.
pub open spec fn entries_map(entries: Seq<(String, String)>) -> Map<Seq<char>, Seq<char>>
    decreases entries.len(),
{
    if entries.len() == 0 {
        Map::empty()
    } else {
        entries_map(entries.drop_last()).insert(entries.last().0@, entries.last().1@)
    }
}

/// The named fields of one record.
#[derive(Debug)]
pub struct Fields {
    entries: Vec<(String, String)>,
}

impl View for Fields {
    type V = Map<Seq<char>, Seq<char>>;

    closed spec fn view(&self) -> Map<Seq<char>, Seq<char>> {
        entries_map(self.entries@)
    }
}

impl Fields {
    /// The mapping without any field.
    pub fn new() -> (fields: Fields)
        ensures
            fields@ == Map::<Seq<char>, Seq<char>>::empty(),
    {
        Fields { entries: Vec::new() }
    }

    /// Whether the mapping has no field.
    pub fn is_empty(&self) -> (empty: bool)
        ensures
            empty <==> self@ == Map::<Seq<char>, Seq<char>>::empty(),
    {
        proof {
            if self.entries@.len() > 0 {
                assert(self@.contains_key(self.entries@.last().0@));
            }
        }
        self.entries.len() == 0
    }

    /// Sets `name` to `value`, replacing what `name` had before.
    pub fn insert(&mut self, name: String, value: String)
        ensures
            final(self)@ == old(self)@.insert(name@, value@),
    {
        let mut kept: Vec<(String, String)> = Vec::new();
        let mut i: usize = 0;
        while i < self.entries.len()
            invariant
                i <= self.entries.len(),
                self.entries == old(self).entries,
                entries_map(kept@) == entries_map(self.entries@.take(i as int)).remove(name@),
            decreases self.entries.len() - i,
        {
            proof {
                let upto = self.entries@.take(i as int + 1);
                assert(upto.drop_last() == self.entries@.take(i as int));
                assert(upto.last() == self.entries@[i as int]);
            }
            if self.entries[i].0 != name {
                let entry = (self.entries[i].0.clone(), self.entries[i].1.clone());
                proof {
                    assert(kept@.push(entry).drop_last() == kept@);
                }
                kept.push(entry);
            }
            i += 1;
        }
        proof {
            assert(self.entries@.take(i as int) == self.entries@);
            assert(kept@.push((name, value)).drop_last() == kept@);
        }
        kept.push((name, value));
        self.entries = kept;
    }

    /// A second mapping with the same fields.
    pub fn duplicate(&self) -> (copy: Fields)
        ensures
            copy@ == self@,
    {
        let mut entries: Vec<(String, String)> = Vec::new();
        let mut i: usize = 0;
        while i < self.entries.len()
            invariant
                i <= self.entries.len(),
                entries@ == self.entries@.take(i as int),
            decreases self.entries.len() - i,
        {
            entries.push((self.entries[i].0.clone(), self.entries[i].1.clone()));
            i += 1;
        }
        proof {
            assert(self.entries@.take(i as int) == self.entries@);
        }
        Fields { entries }
    }

    /// The value of `name`, if the mapping has one.
    pub fn get(&self, name: &str) -> (value: Option<String>)
        ensures
            value is Some <==> self@.contains_key(name@),
            value matches Some(v) ==> v@ == self@[name@],
    {
        let wanted = name.to_owned();
        let mut i: usize = self.entries.len();
        proof {
            assert(self.entries@.take(i as int) == self.entries@);
        }
        while i > 0
            invariant
                i <= self.entries.len(),
                wanted@ == name@,
                entries_map(self.entries@).contains_key(name@) <==> entries_map(
                    self.entries@.take(i as int),
                ).contains_key(name@),
                entries_map(self.entries@).contains_key(name@) ==> entries_map(self.entries@)[name@]
                    == entries_map(self.entries@.take(i as int))[name@],
            decreases i,
        {
            proof {
                let upto = self.entries@.take(i as int);
                assert(upto.drop_last() == self.entries@.take(i as int - 1));
                assert(upto.last() == self.entries@[i as int - 1]);
            }
            i -= 1;
            if self.entries[i].0 == wanted {
                return Some(self.entries[i].1.clone());
            }
        }
        proof {
            assert(self.entries@.take(0) == Seq::<(String, String)>::empty());
        }
        None
    }
}

} // verus!
