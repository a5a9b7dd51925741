//! Field tables: for each field of a parameter object the name that the
//! upstream API gives it and, if the field is set, its encoded value.

use vstd::prelude::*;

use crate::apis::flag::Flag;
use crate::query::{
    distinct_keys, has_key, lemma_map_of_distinct, lemma_map_of_keys, lemma_map_of_push, lemma_put,
    map_of, put, Pair, QueryMap,
};
use crate::text::{decimal, decimal_string, join, join_comma, texts};

verus! {

/// One line of a field table: the upstream name, and the encoded value of a
/// field that is set.
pub type Entry = (Seq<char>, Option<Seq<char>>);

/// The text of a text field, if it is set.
pub open spec fn text_of(value: Option<String>) -> Option<Seq<char>> {
    match value {
        Some(text) => Some(text@),
        None => None,
    }
}

/// The texts of the items of a list field, if it is set.
pub open spec fn items_of(value: Option<Vec<String>>) -> Option<Seq<Seq<char>>> {
    match value {
        Some(items) => Some(texts(items@)),
        None => None,
    }
}

/// A text field is passed on as it is.
pub open spec fn text_entry(name: Seq<char>, value: Option<String>) -> Entry {
    (name, text_of(value))
}

/// A list field is joined with commas.
pub open spec fn list_entry(name: Seq<char>, value: Option<Vec<String>>) -> Entry {
    (
        name,
        match items_of(value) {
            Some(items) => Some(join_comma(items)),
            None => None,
        },
    )
}

/// A flag is written `1` or `0`.
pub open spec fn flag_entry(name: Seq<char>, value: Option<Flag>) -> Entry {
    (
        name,
        match value {
            Some(flag) => Some(flag.text()),
            None => None,
        },
    )
}

/// An integer is written in decimal.
pub open spec fn integer_entry(name: Seq<char>, value: Option<i32>) -> Entry {
    (
        name,
        match value {
            Some(n) => Some(decimal(n as int)),
            None => None,
        },
    )
}

/// The lines of `table` whose field is set, in order, each as a pair of
/// name and value.
pub open spec fn set_entries(table: Seq<Entry>) -> Seq<Pair>
    decreases table.len(),
{
    if table.len() == 0 {
        Seq::empty()
    } else {
        let front = set_entries(table.drop_last());
        match table.last().1 {
            Some(value) => front.push((table.last().0, value)),
            None => front,
        }
    }
}

/// The entries of the query map in their order: the fields that are set are
/// put in one after another, so a name that stands on two lines keeps the
/// place of the first and gets the value of the last.
pub open spec fn entries_of(table: Seq<Entry>) -> Seq<Pair>
    decreases table.len(),
{
    if table.len() == 0 {
        Seq::empty()
    } else {
        let front = entries_of(table.drop_last());
        match table.last().1 {
            Some(value) => put(front, table.last().0, value),
            None => front,
        }
    }
}

/// The query map that a field table stands for: one entry for each field
/// that is set, none for a field that is not.
pub open spec fn query_of(table: Seq<Entry>) -> Map<Seq<char>, Seq<char>> {
    map_of(set_entries(table))
}

/// The number of lines of `table` whose field is set.
pub open spec fn count_set(table: Seq<Entry>) -> nat
    decreases table.len(),
{
    if table.len() == 0 {
        0
    } else {
        count_set(table.drop_last()) + if table.last().1 is Some {
            1nat
        } else {
            0nat
        }
    }
}

/// No name stands on two lines.
pub open spec fn distinct_names(table: Seq<Entry>) -> bool {
    forall|i: int, j: int| 0 <= i < j < table.len() ==> table[i].0 != table[j].0
}

/// Some line of `table` has the name `name` and a field that is set.
pub open spec fn is_set(table: Seq<Entry>, name: Seq<char>) -> bool {
    exists|i: int| 0 <= i < table.len() && #[trigger] table[i].0 == name && table[i].1 is Some
}

/// One field of a parameter object, encoded.
#[derive(Debug)]
pub struct Field {
    /// The name that the upstream API gives the field.
    pub name: &'static str,
    /// The encoded value, if the field is set.
    pub value: Option<String>,
}

/// The lines that a list of fields stands for.
pub open spec fn table_of(fields: Seq<Field>) -> Seq<Entry> {
    Seq::new(fields.len(), |i: int| fields[i].entry())
}

impl Field {
    /// The line of the field table that this field stands for.
    pub open spec fn entry(&self) -> Entry {
        (
            self.name@,
            match self.value {
                Some(text) => Some(text@),
                None => None,
            },
        )
    }

    /// A text field, or an opaque token such as a page cursor: passed on as
    /// it is.
    pub fn text(name: &'static str, value: &Option<String>) -> (field: Field)
        ensures
            field.entry() == text_entry(name@, *value),
    {
        let value = match value {
            Some(text) => Some(text.clone()),
            None => None,
        };
        Field { name, value }
    }

    /// A list field: its items joined with commas.
    pub fn list(name: &'static str, value: &Option<Vec<String>>) -> (field: Field)
        ensures
            field.entry() == list_entry(name@, *value),
    {
        let value = match value {
            Some(items) => Some(join(items)),
            None => None,
        };
        Field { name, value }
    }

    /// A flag: `1` or `0`.
    pub fn flag(name: &'static str, value: &Option<Flag>) -> (field: Field)
        ensures
            field.entry() == flag_entry(name@, *value),
    {
        let value = match value {
            Some(flag) => Some(flag.value().to_owned()),
            None => None,
        };
        Field { name, value }
    }

    /// An integer field: written in decimal.
    pub fn integer(name: &'static str, value: &Option<i32>) -> (field: Field)
        ensures
            field.entry() == integer_entry(name@, *value),
    {
        let value = match value {
            Some(n) => Some(decimal_string(*n)),
            None => None,
        };
        Field { name, value }
    }
}

/// A name is a key of the set entries exactly when a line with that name
/// has its field set; and there are as many set entries as fields set.
pub proof fn lemma_set_entries(table: Seq<Entry>)
    ensures
        set_entries(table).len() == count_set(table),
        forall|name: Seq<char>| has_key(set_entries(table), name) <==> is_set(table, name),
    decreases table.len(),
{
    if table.len() > 0 {
        let front = table.drop_last();
        let last = table.last();
        lemma_set_entries(front);
        assert forall|name: Seq<char>| has_key(set_entries(table), name) <==> is_set(
            table,
            name,
        ) by {
            let pairs = set_entries(table);
            let before = set_entries(front);
            if has_key(pairs, name) {
                let i = choose|i: int| 0 <= i < pairs.len() && #[trigger] pairs[i].0 == name;
                if i < before.len() {
                    assert(before[i].0 == name);
                    assert(has_key(before, name));
                    assert(is_set(front, name));
                    let j = choose|j: int|
                        0 <= j < front.len() && #[trigger] front[j].0 == name && front[j].1
                            is Some;
                    assert(table[j].0 == name && table[j].1 is Some);
                } else {
                    assert(table[table.len() - 1].0 == name && table[table.len() - 1].1 is Some);
                }
            }
            if is_set(table, name) {
                let j = choose|j: int|
                    0 <= j < table.len() && #[trigger] table[j].0 == name && table[j].1 is Some;
                if j < front.len() {
                    assert(front[j].0 == name && front[j].1 is Some);
                    assert(is_set(front, name));
                    assert(has_key(before, name));
                    let i = choose|i: int| 0 <= i < before.len() && #[trigger] before[i].0 == name;
                    assert(pairs[i].0 == name);
                } else {
                    assert(pairs[pairs.len() - 1].0 == name);
                }
            }
        }
    }
}

/// Distinct names give set entries with distinct keys, each from one line,
/// and every line whose field is set is an entry of the query map.
pub proof fn lemma_distinct_names(table: Seq<Entry>)
    requires
        distinct_names(table),
    ensures
        distinct_keys(set_entries(table)),
        forall|i: int|
            0 <= i < table.len() && (#[trigger] table[i]).1 is Some ==> query_of(
                table,
            ).contains_key(table[i].0) && query_of(table)[table[i].0] == table[i].1->0,
    decreases table.len(),
{
    if table.len() > 0 {
        let front = table.drop_last();
        let last = table.last();
        let pairs = set_entries(table);
        let before = set_entries(front);
        assert(distinct_names(front)) by {
            assert forall|i: int, j: int| 0 <= i < j < front.len() implies front[i].0
                != front[j].0 by {
                assert(table[i].0 != table[j].0);
            }
        }
        lemma_distinct_names(front);
        lemma_set_entries(front);
        assert(!has_key(before, last.0)) by {
            if is_set(front, last.0) {
                let j = choose|j: int|
                    0 <= j < front.len() && #[trigger] front[j].0 == last.0 && front[j].1
                        is Some;
                assert(table[j].0 != table[table.len() - 1].0);
            }
        }
        assert(distinct_keys(pairs)) by {
            assert forall|i: int, j: int| 0 <= i < j < pairs.len() implies pairs[i].0
                != pairs[j].0 by {
                if j < before.len() {
                    assert(before[i].0 != before[j].0);
                } else {
                    assert(before[i].0 == pairs[i].0);
                }
            }
        }
        lemma_map_of_keys(before);
        assert forall|i: int| 0 <= i < table.len() && (#[trigger] table[i]).1 is Some implies
            query_of(table).contains_key(table[i].0) && query_of(table)[table[i].0]
            == table[i].1->0 by {
            if last.1 is Some {
                lemma_map_of_push(before, (last.0, last.1->0));
            }
            if i < front.len() {
                assert(front[i] == table[i]);
                assert(query_of(front).contains_key(front[i].0));
                assert(table[i].0 != table[table.len() - 1].0);
            }
        }
    }
}

/// The entries have distinct keys and make up the query map; where no name
/// stands on two lines they are the lines whose field is set.
pub proof fn lemma_entries_of(table: Seq<Entry>)
    ensures
        distinct_keys(entries_of(table)),
        map_of(entries_of(table)) == query_of(table),
        distinct_names(table) ==> entries_of(table) == set_entries(table),
    decreases table.len(),
{
    if table.len() > 0 {
        let front = table.drop_last();
        let last = table.last();
        lemma_entries_of(front);
        if last.1 is Some {
            lemma_put(entries_of(front), last.0, last.1->0);
            lemma_map_of_push(set_entries(front), (last.0, last.1->0));
        }
        if distinct_names(table) {
            assert(distinct_names(front)) by {
                assert forall|i: int, j: int| 0 <= i < j < front.len() implies front[i].0
                    != front[j].0 by {
                    assert(table[i].0 != table[j].0);
                }
            }
            lemma_set_entries(front);
            if is_set(front, last.0) {
                let j = choose|j: int|
                    0 <= j < front.len() && #[trigger] front[j].0 == last.0 && front[j].1
                        is Some;
                assert(table[j].0 != table[table.len() - 1].0);
            }
        }
    }
}

/// Builds the query map of a list of fields: each field that is set is put
/// in under its name, in order; a field that is not set leaves no trace.
pub fn build_query(fields: &Vec<Field>) -> (query: QueryMap)
    ensures
        query@ == query_of(table_of(fields@)),
        query.pairs() == entries_of(table_of(fields@)),
{
    let ghost table = table_of(fields@);
    let mut query = QueryMap::new();
    let mut i: usize = 0;
    while i < fields.len()
        invariant
            i <= fields.len(),
            table == table_of(fields@),
            query.pairs() == entries_of(table.take(i as int)),
        decreases fields.len() - i,
    {
        proof {
            let next = table.take(i + 1);
            assert(next.drop_last() == table.take(i as int));
            assert(next.last() == fields@[i as int].entry());
        }
        match &fields[i].value {
            Some(text) => {
                query.insert(fields[i].name.to_owned(), text.clone());
            },
            None => {},
        }
        i = i + 1;
    }
    proof {
        assert(table.take(i as int) == table);
        lemma_entries_of(table);
    }
    query
}

/// The names that fields carry in a parameter object where the upstream API
/// names them otherwise.
pub open spec fn is_renamed_field(name: Seq<char>) -> bool {
    ||| name == "q_in_title"@
    ||| name == "q_in_meta"@
    ||| name == "exclude_domain"@
    ||| name == "exclude_field"@
    ||| name == "priority_domain"@
    ||| name == "exclude_category"@
    ||| name == "domain_url"@
}

/// Some line of `table` has the name `name`.
pub open spec fn has_name(table: Seq<Entry>, name: Seq<char>) -> bool {
    exists|i: int| 0 <= i < table.len() && #[trigger] table[i].0 == name
}

/// What the query map of a table with distinct names holds: one entry for
/// each field that is set and no other. The name of a line is a key exactly
/// when the field of the line is set, its value is then the encoding of the
/// field, and the size of the map is the number of fields set.
pub proof fn lemma_query_of(table: Seq<Entry>)
    requires
        distinct_names(table),
    ensures
        query_of(table).dom().finite(),
        query_of(table).len() == count_set(table),
        forall|i: int|
            0 <= i < table.len() ==> (query_of(table).contains_key((#[trigger] table[i]).0)
                <==> table[i].1 is Some),
        forall|i: int|
            0 <= i < table.len() && (#[trigger] table[i]).1 is Some ==> query_of(table)[table[i].0]
                == table[i].1->0,
        forall|name: Seq<char>| query_of(table).contains_key(name) ==> has_name(table, name),
{
    lemma_set_entries(table);
    lemma_distinct_names(table);
    lemma_map_of_keys(set_entries(table));
    lemma_map_of_distinct(set_entries(table));
    assert forall|i: int| 0 <= i < table.len() implies (query_of(table).contains_key(
        (#[trigger] table[i]).0,
    ) <==> table[i].1 is Some) by {
        if query_of(table).contains_key(table[i].0) {
            assert(is_set(table, table[i].0));
            let j = choose|j: int|
                0 <= j < table.len() && #[trigger] table[j].0 == table[i].0 && table[j].1
                    is Some;
            if j != i {
                if j < i {
                    assert(table[j].0 != table[i].0);
                } else {
                    assert(table[i].0 != table[j].0);
                }
            }
        }
    }
    assert forall|name: Seq<char>| query_of(table).contains_key(name) implies has_name(
        table,
        name,
    ) by {
        assert(is_set(table, name));
        let j = choose|j: int|
            0 <= j < table.len() && #[trigger] table[j].0 == name && table[j].1 is Some;
        assert(table[j].0 == name);
    }
}

/// What tells the names of this API apart: the length and the first
/// character of a name.
pub open spec fn mark(name: Seq<char>) -> (nat, char) {
    (name.len(), name[0])
}

/// The marks of the upstream names and of the field names that the upstream
/// API does not use. Two of them share a mark and differ in their eighth
/// character.
pub proof fn lemma_marks()
    ensures
        mark("id"@) == (2nat, 'i'),
        mark("q"@) == (1nat, 'q'),
        mark("qInTitle"@) == (8nat, 'q'),
        mark("qInMeta"@) == (7nat, 'q'),
        mark("timeframe"@) == (9nat, 't'),
        mark("country"@) == (7nat, 'c'),
        mark("category"@) == (8nat, 'c'),
        mark("excludecategory"@) == (15nat, 'e'),
        mark("language"@) == (8nat, 'l'),
        mark("tag"@) == (3nat, 't'),
        mark("sentiment"@) == (9nat, 's'),
        mark("region"@) == (6nat, 'r'),
        mark("domain"@) == (6nat, 'd'),
        mark("excludedomain"@) == (13nat, 'e'),
        mark("domainurl"@) == (9nat, 'd'),
        mark("excludefield"@) == (12nat, 'e'),
        mark("prioritydomain"@) == (14nat, 'p'),
        mark("timezone"@) == (8nat, 't'),
        mark("full_content"@) == (12nat, 'f'),
        mark("image"@) == (5nat, 'i'),
        mark("video"@) == (5nat, 'v'),
        mark("size"@) == (4nat, 's'),
        mark("page"@) == (4nat, 'p'),
        mark("coin"@) == (4nat, 'c'),
        mark("from_date"@) == (9nat, 'f'),
        mark("to_date"@) == (7nat, 't'),
        mark("q_in_title"@) == (10nat, 'q'),
        mark("q_in_meta"@) == (9nat, 'q'),
        mark("exclude_domain"@) == (14nat, 'e'),
        mark("exclude_field"@) == (13nat, 'e'),
        mark("priority_domain"@) == (15nat, 'p'),
        mark("exclude_category"@) == (16nat, 'e'),
        mark("domain_url"@) == (10nat, 'd'),
        "excludedomain"@[7] == 'd',
        "exclude_field"@[7] == '_',
{
    reveal_strlit("id");
    reveal_strlit("q");
    reveal_strlit("qInTitle");
    reveal_strlit("qInMeta");
    reveal_strlit("timeframe");
    reveal_strlit("country");
    reveal_strlit("category");
    reveal_strlit("excludecategory");
    reveal_strlit("language");
    reveal_strlit("tag");
    reveal_strlit("sentiment");
    reveal_strlit("region");
    reveal_strlit("domain");
    reveal_strlit("excludedomain");
    reveal_strlit("domainurl");
    reveal_strlit("excludefield");
    reveal_strlit("prioritydomain");
    reveal_strlit("timezone");
    reveal_strlit("full_content");
    reveal_strlit("image");
    reveal_strlit("video");
    reveal_strlit("size");
    reveal_strlit("page");
    reveal_strlit("coin");
    reveal_strlit("from_date");
    reveal_strlit("to_date");
    reveal_strlit("q_in_title");
    reveal_strlit("q_in_meta");
    reveal_strlit("exclude_domain");
    reveal_strlit("exclude_field");
    reveal_strlit("priority_domain");
    reveal_strlit("exclude_category");
    reveal_strlit("domain_url");
}

} // verus!
