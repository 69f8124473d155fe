//! Reading the records of a catalog: a text that holds one record after
//! the other, three lines each. A satellite may come up more than once;
//! its last record is the one that counts.

use vstd::prelude::*;
use crate::error::ParseError;
use crate::tle::read_as;
use crate::tle::TLE;

verus! {

/// The lines of a text that are not empty, in their order.
pub open spec fn filled_lines(lines: Seq<Vec<u8>>) -> Seq<Seq<u8>>
    decreases lines.len(),
{
    if lines.len() == 0 {
        Seq::empty()
    } else if lines.last()@.len() > 0 {
        filled_lines(lines.drop_last()).push(lines.last()@)
    } else {
        filled_lines(lines.drop_last())
    }
}

/// Whether `records` are the records of a catalog, one by one: the lines
/// that are not empty are taken three at a time, a name line and the two
/// element lines, and what is left over at the end is not a record.
pub open spec fn records_of(lines: Seq<Vec<u8>>, records: Seq<Result<TLE, ParseError>>) -> bool {
    let filled = filled_lines(lines);
    &&& records.len() == filled.len() / 3
    &&& forall|k: int|
        0 <= k < records.len() ==> read_as(
            filled[3 * k + 1],
            filled[3 * k + 2],
            filled[3 * k],
            #[trigger] records[k],
        )
}

/// Decodes every record of a catalog, in the order of the text. A record
/// that is refused does not stop the reading.
pub fn read_records(lines: &Vec<Vec<u8>>) -> (records: Vec<Result<TLE, ParseError>>)
    ensures
        records_of(lines@, records@),
{
    let mut records: Vec<Result<TLE, ParseError>> = Vec::new();
    let mut pending: usize = 0;
    let mut first: usize = 0;
    let mut second: usize = 0;
    let mut i: usize = 0;
    assert(lines@.take(0) =~= Seq::<Vec<u8>>::empty());
    while i < lines.len()
        invariant
            i <= lines.len(),
            pending < 3,
            filled_lines(lines@.take(i as int)).len() == 3 * records.len() + pending,
            pending >= 1 ==> first < i && lines@[first as int]@ == filled_lines(
                lines@.take(i as int),
            )[3 * records.len()],
            pending == 2 ==> second < i && lines@[second as int]@ == filled_lines(
                lines@.take(i as int),
            )[3 * records.len() + 1],
            forall|k: int|
                0 <= k < records.len() ==> read_as(
                    filled_lines(lines@.take(i as int))[3 * k + 1],
                    filled_lines(lines@.take(i as int))[3 * k + 2],
                    filled_lines(lines@.take(i as int))[3 * k],
                    #[trigger] records@[k],
                ),
        decreases lines.len() - i,
    {
        assert(lines@.take(i + 1).drop_last() =~= lines@.take(i as int));
        assert(lines@.take(i + 1).last() == lines@[i as int]);
        if lines[i].len() > 0 {
            if pending == 0 {
                first = i;
                pending = 1;
            } else if pending == 1 {
                second = i;
                pending = 2;
            } else {
                let record = TLE::from_lines(
                    lines[second].as_slice(),
                    lines[i].as_slice(),
                    lines[first].as_slice(),
                );
                records.push(record);
                pending = 0;
            }
        }
        i = i + 1;
    }
    assert(lines@.take(i as int) =~= lines@);
    records
}

/// Whether one of the elements goes by the name.
pub open spec fn has_name(elements: Seq<TLE>, name: Seq<char>) -> bool {
    exists|i: int| 0 <= i < elements.len() && (#[trigger] elements[i]).name@ == name
}

/// Whether the record at `index` is accepted and no accepted record after
/// it goes by the same name.
pub open spec fn is_last_of_its_name(records: Seq<Result<TLE, ParseError>>, index: int) -> bool {
    &&& 0 <= index < records.len()
    &&& records[index] is Ok
    &&& forall|later: int|
        index < later < records.len() && (#[trigger] records[later]) is Ok ==> records[later]->Ok_0.name@
            != records[index]->Ok_0.name@
}

/// Whether the elements are those of an accepted record that is the last
/// of its name.
pub open spec fn is_last_accepted(records: Seq<Result<TLE, ParseError>>, elements: TLE) -> bool {
    exists|index: int|
        #![trigger records[index]]
        is_last_of_its_name(records, index) && records[index] == Ok::<TLE, ParseError>(elements)
}

/// The elements that a series of records leaves standing: of the accepted
/// records of each name the last one, and nothing of the refused records.
/// They stand in the order of those last records, the latest first.
pub open spec fn newest_by_name(records: Seq<Result<TLE, ParseError>>) -> Seq<TLE>
    decreases records.len(),
{
    if records.len() == 0 {
        Seq::empty()
    } else {
        let later = newest_by_name(records.skip(1));
        match records[0] {
            Ok(tle) => if has_name(later, tle.name@) {
                later
            } else {
                later.push(tle)
            },
            Err(_) => later,
        }
    }
}

/// What [`newest_by_name`] leaves standing is one set of elements for
/// every name that an accepted record goes by, no name twice, and each the
/// last accepted record of its name.
pub proof fn lemma_newest_by_name(records: Seq<Result<TLE, ParseError>>)
    ensures
        forall|i: int, j: int|
            #![trigger newest_by_name(records)[i], newest_by_name(records)[j]]
            0 <= i < j < newest_by_name(records).len() ==> newest_by_name(records)[i].name@
                != newest_by_name(records)[j].name@,
        forall|k: int|
            0 <= k < records.len() && (#[trigger] records[k]) is Ok ==> has_name(
                newest_by_name(records),
                records[k]->Ok_0.name@,
            ),
        forall|i: int|
            0 <= i < newest_by_name(records).len() ==> is_last_accepted(
                records,
                #[trigger] newest_by_name(records)[i],
            ),
    decreases records.len(),
{
    if records.len() > 0 {
        let rest = records.skip(1);
        let later = newest_by_name(rest);
        let table = newest_by_name(records);
        lemma_newest_by_name(rest);
        assert forall|k: int| 0 <= k < records.len() && (#[trigger] records[k]) is Ok implies has_name(
            table,
            records[k]->Ok_0.name@,
        ) by {
            let name = records[k]->Ok_0.name@;
            if k > 0 {
                assert(rest[k - 1] == records[k]);
                assert(has_name(later, name));
            }
            if has_name(later, name) {
                let i = choose|i: int| 0 <= i < later.len() && (#[trigger] later[i]).name@ == name;
                assert(table[i] == later[i]);
            } else {
                assert(table == later.push(records[0]->Ok_0));
                assert(table[later.len() as int].name@ == name);
            }
        }
        assert forall|i: int| 0 <= i < table.len() implies is_last_accepted(
            records,
            #[trigger] table[i],
        ) by {
            if i < later.len() {
                assert(table[i] == later[i]);
                assert(is_last_accepted(rest, later[i]));
                let k = choose|k: int|
                    #![trigger rest[k]]
                    is_last_of_its_name(rest, k) && rest[k] == Ok::<TLE, ParseError>(later[i]);
                assert(rest[k] == records[k + 1]);
                assert forall|after: int|
                    k + 1 < after < records.len() && (#[trigger] records[after]) is Ok implies records[after]->Ok_0.name@
                    != records[k + 1]->Ok_0.name@ by {
                    assert(rest[after - 1] == records[after]);
                }
                assert(is_last_of_its_name(records, k + 1));
            } else {
                assert(table[i] == records[0]->Ok_0);
                assert forall|after: int|
                    0 < after < records.len() && (#[trigger] records[after]) is Ok implies records[after]->Ok_0.name@
                    != records[0]->Ok_0.name@ by {
                    assert(rest[after - 1] == records[after]);
                    assert(has_name(later, rest[after - 1]->Ok_0.name@));
                }
                assert(is_last_of_its_name(records, 0));
            }
        }
    }
}

/// Whether one of the elements goes by the name.
fn holds_name(elements: &Vec<TLE>, name: &String) -> (found: bool)
    ensures
        found == has_name(elements@, name@),
{
    let mut i: usize = 0;
    while i < elements.len()
        invariant
            i <= elements.len(),
            forall|j: int| 0 <= j < i ==> (#[trigger] elements@[j]).name@ != name@,
        decreases elements.len() - i,
    {
        if elements[i].name == *name {
            return true;
        }
        i = i + 1;
    }
    false
}

/// Picks the elements that a series of records leaves standing.
///
/// Refused records are left out. Of the accepted records that go by one
/// name only the last is kept, so that no name comes twice; the elements
/// come out in the order of those last records, the latest first.
pub fn latest_by_name(records: Vec<Result<TLE, ParseError>>) -> (table: Vec<TLE>)
    ensures
        table@ == newest_by_name(records@),
        forall|i: int, j: int|
            #![trigger table@[i], table@[j]]
            0 <= i < j < table.len() ==> table@[i].name@ != table@[j].name@,
        forall|k: int|
            0 <= k < records.len() && (#[trigger] records@[k]) is Ok ==> has_name(
                table@,
                records@[k]->Ok_0.name@,
            ),
        forall|i: int| 0 <= i < table.len() ==> is_last_accepted(records@, #[trigger] table@[i]),
{
    let ghost all = records@;
    let mut records = records;
    let mut table: Vec<TLE> = Vec::new();
    assert(all.skip(all.len() as int) =~= Seq::<Result<TLE, ParseError>>::empty());
    while records.len() > 0
        invariant
            records@ == all.take(records.len() as int),
            records.len() <= all.len(),
            table@ == newest_by_name(all.skip(records.len() as int)),
        decreases records.len(),
    {
        let ghost before = records@;
        let record = records.pop();
        proof {
            let k = records.len() as int;
            assert(records@ =~= all.take(k));
            assert(all.skip(k)[0] == before.last());
            assert(all.skip(k).skip(1) =~= all.skip(k + 1));
        }
        match record {
            Some(Ok(tle)) => {
                if !holds_name(&table, &tle.name) {
                    table.push(tle);
                }
            },
            _ => {},
        }
    }
    proof {
        assert(all.skip(0) =~= all);
        lemma_newest_by_name(all);
    }
    table
}

} // verus!
