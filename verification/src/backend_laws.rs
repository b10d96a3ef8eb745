//! What holds of reading and writing records.

use crate::backend::{reading, record_at, writing, written, Records};
use crate::record::{names, pairs_of, ID_ATTRIBUTE, STATUS_ATTRIBUTE};
use vstd::prelude::*;

verus! {

/// The value that `pairs` write last under `name`, if they write one.
pub open spec fn last_written(pairs: Seq<(Seq<char>, Seq<char>)>, name: Seq<char>) -> Option<
    Seq<char>,
>
    decreases pairs.len(),
{
    if pairs.len() == 0 {
        None
    } else if pairs.last().0 == name {
        Some(pairs.last().1)
    } else {
        last_written(pairs.drop_last(), name)
    }
}

/// After a write, a name that the pairs hold has the value they wrote
/// last, and every other name is as it was.
pub proof fn lemma_written_at(
    record: Map<Seq<char>, Seq<char>>,
    pairs: Seq<(Seq<char>, Seq<char>)>,
    name: Seq<char>,
)
    ensures
        match last_written(pairs, name) {
            Some(value) => written(record, pairs).contains_key(name) && written(
                record,
                pairs,
            )[name] == value,
            None => written(record, pairs).contains_key(name) == record.contains_key(name)
                && written(record, pairs)[name] == record[name],
        },
    decreases pairs.len(),
{
    if pairs.len() > 0 {
        lemma_written_at(record, pairs.drop_last(), name);
    }
}

/// The two field names of a record differ.
pub proof fn lemma_names_differ()
    ensures
        ID_ATTRIBUTE@ != STATUS_ATTRIBUTE@,
{
    reveal_strlit("id");
    reveal_strlit("status");
    assert(ID_ATTRIBUTE@.len() == 2);
    assert(STATUS_ATTRIBUTE@.len() == 6);
}

/// Reading a key that was never written gives no field, whatever names
/// are asked for.
pub proof fn law_unwritten_reads_empty(records: Records, key: Seq<char>, wanted: Seq<Seq<char>>)
    requires
        !records.contains_key(key),
    ensures
        reading(records, key, wanted) == Map::<Seq<char>, Seq<char>>::empty(),
{
    assert(reading(records, key, wanted) =~= Map::<Seq<char>, Seq<char>>::empty());
}

/// What was written is read back: after `id` and `status` were stored
/// under a key, reading the record's two fields there gives exactly these
/// two, whatever the key held before.
pub proof fn law_round_trip(records: Records, key: Seq<char>, id: Seq<char>, status: Seq<char>)
    ensures
        reading(writing(records, key, pairs_of(id, status)), key, names()) == Map::<
            Seq<char>,
            Seq<char>,
        >::empty().insert(ID_ATTRIBUTE@, id).insert(STATUS_ATTRIBUTE@, status),
{
    lemma_names_differ();
    let pairs = pairs_of(id, status);
    let record = record_at(records, key);
    let got = reading(writing(records, key, pairs), key, names());
    let want = Map::<Seq<char>, Seq<char>>::empty().insert(ID_ATTRIBUTE@, id).insert(
        STATUS_ATTRIBUTE@,
        status,
    );
    assert(pairs.drop_last() == seq![(ID_ATTRIBUTE@, id)]);
    assert(pairs.drop_last().drop_last() == Seq::<(Seq<char>, Seq<char>)>::empty());
    assert(written(record, pairs) == record.insert(ID_ATTRIBUTE@, id).insert(
        STATUS_ATTRIBUTE@,
        status,
    )) by {
        reveal_with_fuel(written, 3);
    }
    assert(names()[0] == ID_ATTRIBUTE@);
    assert(names()[1] == STATUS_ATTRIBUTE@);
    assert forall|n: Seq<char>| got.contains_key(n) <==> want.contains_key(n) by {
        if want.contains_key(n) {
            if n == ID_ATTRIBUTE@ {
                assert(names().contains(n));
            } else {
                assert(names().contains(n));
            }
        }
    }
    assert(got =~= want);
}

/// Writing the same pairs twice is writing them once.
pub proof fn law_write_idempotent(
    records: Records,
    key: Seq<char>,
    pairs: Seq<(Seq<char>, Seq<char>)>,
)
    ensures
        writing(writing(records, key, pairs), key, pairs) == writing(records, key, pairs),
{
    let record = record_at(records, key);
    let once = written(record, pairs);
    let twice = written(once, pairs);
    assert forall|n: Seq<char>|
        #![trigger twice.contains_key(n)]
        #![trigger once.contains_key(n)]
        twice.contains_key(n) == once.contains_key(n) && twice[n] == once[n] by {
        lemma_written_at(record, pairs, n);
        lemma_written_at(once, pairs, n);
    }
    assert(twice =~= once);
    assert(writing(writing(records, key, pairs), key, pairs) =~= writing(records, key, pairs));
}

/// A write under one key changes no other key.
pub proof fn law_write_is_local(
    records: Records,
    key: Seq<char>,
    pairs: Seq<(Seq<char>, Seq<char>)>,
    other: Seq<char>,
    wanted: Seq<Seq<char>>,
)
    requires
        other != key,
    ensures
        reading(writing(records, key, pairs), other, wanted) == reading(records, other, wanted),
{
}

} // verus!
