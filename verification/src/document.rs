//! The mathematical model of a credentials file.
//!
//! A document is a sequence of sections in file order. Each section has a name
//! (`None` for the unnamed section at the top of a file) and a sequence of
//! key/value entries in file order. Two sections may share a name and two
//! entries may share a key; a lookup always finds the earliest one.

use vstd::prelude::*;

verus! {

/// The entries of one section, in file order.
pub type Entries = Seq<(Seq<char>, Seq<char>)>;

/// The sections of a document, in file order.
pub type Sections = Seq<(Option<Seq<char>>, Entries)>;

/// The value of the earliest entry with the given key, if there is one.
///
/// Earlier entries win: the last entry is consulted only when no entry before
/// it has the key.
pub open spec fn first_value(entries: Entries, key: Seq<char>) -> Option<Seq<char>>
    decreases entries.len(),
{
    if entries.len() == 0 {
        None
    } else {
        match first_value(entries.drop_last(), key) {
            Some(value) => Some(value),
            None => if entries.last().0 == key {
                Some(entries.last().1)
            } else {
                None
            },
        }
    }
}

/// The position of the earliest section with the given name, if there is one.
pub open spec fn section_position(sections: Sections, name: Seq<char>) -> Option<int>
    decreases sections.len(),
{
    if sections.len() == 0 {
        None
    } else {
        match section_position(sections.drop_last(), name) {
            Some(position) => Some(position),
            None => if sections.last().0 == Some(name) {
                Some(sections.len() - 1)
            } else {
                None
            },
        }
    }
}

/// Whether some section has the given name.
pub open spec fn has_section(sections: Sections, name: Seq<char>) -> bool {
    section_position(sections, name) is Some
}

/// The entries of the earliest section with the given name; empty when no
/// section has it.
pub open spec fn section_entries(sections: Sections, name: Seq<char>) -> Entries {
    match section_position(sections, name) {
        Some(position) => sections[position].1,
        None => Seq::empty(),
    }
}

/// What a reader finds under `key` in the section `name`.
pub open spec fn lookup(sections: Sections, name: Seq<char>, key: Seq<char>) -> Option<Seq<char>> {
    first_value(section_entries(sections, name), key)
}

/// The entries after `key` has been set to `value`: every earlier entry with
/// that key is gone, the others keep their order, and the new entry is last.
pub open spec fn put(entries: Entries, key: Seq<char>, value: Seq<char>) -> Entries {
    entries.filter(has_other_key(key)).push((key, value))
}

/// The condition that an entry's key is not `key`.
pub open spec fn has_other_key(key: Seq<char>) -> spec_fn((Seq<char>, Seq<char>)) -> bool {
    |entry: (Seq<char>, Seq<char>)| entry.0 != key
}

/// The condition that no entry of `set` has an entry's key.
pub open spec fn is_not_set_by(set: Entries) -> spec_fn((Seq<char>, Seq<char>)) -> bool {
    |entry: (Seq<char>, Seq<char>)| !has_key(set, entry.0)
}

/// The document after `key` has been set to `value` in the section `name`.
///
/// The earliest section with that name takes the entry. When no section has the
/// name, a new one that holds just this entry is added after all the others.
pub open spec fn set_in(
    sections: Sections,
    name: Seq<char>,
    key: Seq<char>,
    value: Seq<char>,
) -> Sections {
    match section_position(sections, name) {
        Some(position) => sections.update(
            position,
            (Some(name), put(sections[position].1, key, value)),
        ),
        None => sections.push((Some(name), put(Seq::empty(), key, value))),
    }
}

/// Whether some entry has the given key.
pub open spec fn has_key(entries: Entries, key: Seq<char>) -> bool {
    first_value(entries, key) is Some
}

/// The entries of a section into which `set` has been merged: the entries of
/// `kept` whose keys `set` does not mention, in their order, and then `set`.
pub open spec fn merge_entries(kept: Entries, set: Entries) -> Entries {
    kept.filter(is_not_set_by(set)) + set
}

/// The document after the entries `set` have been merged into the section
/// `name`.
///
/// The earliest section with that name takes them, and stays where it is. When
/// no section has the name, a new one that holds just `set` is added after all
/// the others. No other section changes.
pub open spec fn merge_in(sections: Sections, name: Seq<char>, set: Entries) -> Sections {
    match section_position(sections, name) {
        Some(position) => sections.update(
            position,
            (Some(name), merge_entries(sections[position].1, set)),
        ),
        None => sections.push((Some(name), set)),
    }
}

/// `section_position` returns the least index whose section has the name.
pub proof fn lemma_section_position(sections: Sections, name: Seq<char>)
    ensures
        match section_position(sections, name) {
            Some(position) => {
                &&& 0 <= position < sections.len()
                &&& sections[position].0 == Some(name)
                &&& forall|j: int| 0 <= j < position ==> sections[j].0 != Some(name)
            },
            None => forall|j: int| 0 <= j < sections.len() ==> sections[j].0 != Some(name),
        },
    decreases sections.len(),
{
    if sections.len() > 0 {
        let front = sections.drop_last();
        lemma_section_position(front, name);
        assert forall|j: int| 0 <= j < front.len() implies sections[j] == front[j] by {}
        match section_position(front, name) {
            Some(position) => {
                assert forall|j: int| 0 <= j < position implies sections[j].0 != Some(name) by {
                    assert(front[j].0 != Some(name));
                }
            },
            None => {
                assert forall|j: int| 0 <= j < sections.len() - 1 implies sections[j].0 != Some(
                    name,
                ) by {
                    assert(front[j].0 != Some(name));
                }
            },
        }
    }
}

/// `first_value` returns the value at the least index whose entry has the key.
pub proof fn lemma_first_value(entries: Entries, key: Seq<char>)
    ensures
        match first_value(entries, key) {
            Some(value) => exists|i: int|
                {
                    &&& 0 <= i < entries.len()
                    &&& #[trigger] entries[i] == (key, value)
                    &&& forall|j: int| 0 <= j < i ==> entries[j].0 != key
                },
            None => forall|j: int| 0 <= j < entries.len() ==> entries[j].0 != key,
        },
    decreases entries.len(),
{
    if entries.len() > 0 {
        let front = entries.drop_last();
        lemma_first_value(front, key);
        match first_value(front, key) {
            Some(value) => {
                let i = choose|i: int|
                    {
                        &&& 0 <= i < front.len()
                        &&& #[trigger] front[i] == (key, value)
                        &&& forall|j: int| 0 <= j < i ==> front[j].0 != key
                    };
                assert(entries[i] == (key, value));
                assert forall|j: int| 0 <= j < i implies entries[j].0 != key by {
                    assert(front[j].0 != key);
                }
            },
            None => {
                assert forall|j: int| 0 <= j < entries.len() - 1 implies entries[j].0 != key by {
                    assert(front[j].0 != key);
                }
                if entries.last().0 == key {
                    let i = entries.len() - 1;
                    assert(entries[i] == (key, entries.last().1));
                }
            },
        }
    }
}

/// A section that is the first of its name is the one that
/// `section_position` finds.
pub proof fn lemma_section_position_is(sections: Sections, name: Seq<char>, position: int)
    requires
        0 <= position < sections.len(),
        sections[position].0 == Some(name),
        forall|j: int| 0 <= j < position ==> sections[j].0 != Some(name),
    ensures
        section_position(sections, name) == Some(position),
{
    lemma_section_position(sections, name);
}

/// Where no section has the name, `section_position` finds none.
pub proof fn lemma_section_position_none(sections: Sections, name: Seq<char>)
    requires
        forall|j: int| 0 <= j < sections.len() ==> sections[j].0 != Some(name),
    ensures
        section_position(sections, name) is None,
{
    lemma_section_position(sections, name);
}

/// Where no entry has the key, `first_value` finds none.
pub proof fn lemma_first_value_none(entries: Entries, key: Seq<char>)
    requires
        forall|j: int| 0 <= j < entries.len() ==> entries[j].0 != key,
    ensures
        first_value(entries, key) is None,
{
    lemma_first_value(entries, key);
}

/// A lookup after one more entry: the earlier entries are asked first.
pub proof fn lemma_first_value_push(entries: Entries, entry: (Seq<char>, Seq<char>), key: Seq<char>)
    ensures
        first_value(entries.push(entry), key) == match first_value(entries, key) {
            Some(value) => Some(value),
            None => if entry.0 == key {
                Some(entry.1)
            } else {
                None
            },
        },
{
    assert(entries.push(entry).drop_last() =~= entries);
}

/// A lookup in two runs of entries: the first run is asked first.
pub proof fn lemma_first_value_concat(front: Entries, back: Entries, key: Seq<char>)
    ensures
        first_value(front + back, key) == match first_value(front, key) {
            Some(value) => Some(value),
            None => first_value(back, key),
        },
    decreases back.len(),
{
    if back.len() == 0 {
        assert(front + back =~= front);
    } else {
        lemma_first_value_concat(front, back.drop_last(), key);
        assert((front + back).drop_last() =~= front + back.drop_last());
    }
}

/// Two filters that keep the same entries give the same result.
pub proof fn lemma_filter_same(
    entries: Entries,
    first: spec_fn((Seq<char>, Seq<char>)) -> bool,
    second: spec_fn((Seq<char>, Seq<char>)) -> bool,
)
    requires
        forall|entry: (Seq<char>, Seq<char>)| #[trigger] first(entry) == second(entry),
    ensures
        entries.filter(first) == entries.filter(second),
    decreases entries.len(),
{
    reveal(Seq::filter);
    if entries.len() > 0 {
        lemma_filter_same(entries.drop_last(), first, second);
    }
}

/// Filtering twice is filtering once by both conditions.
pub proof fn lemma_filter_twice(
    entries: Entries,
    first: spec_fn((Seq<char>, Seq<char>)) -> bool,
    second: spec_fn((Seq<char>, Seq<char>)) -> bool,
    both: spec_fn((Seq<char>, Seq<char>)) -> bool,
)
    requires
        forall|entry: (Seq<char>, Seq<char>)|
            #[trigger] both(entry) == (first(entry) && second(entry)),
    ensures
        entries.filter(first).filter(second) == entries.filter(both),
    decreases entries.len(),
{
    reveal(Seq::filter);
    if entries.len() > 0 {
        let front = entries.drop_last();
        lemma_filter_twice(front, first, second, both);
        if first(entries.last()) {
            assert(front.filter(first).push(entries.last()).drop_last() =~= front.filter(first));
        }
    }
}

/// A filter that every entry passes changes nothing.
pub proof fn lemma_filter_keeps_all(
    entries: Entries,
    keep: spec_fn((Seq<char>, Seq<char>)) -> bool,
)
    requires
        forall|j: int| 0 <= j < entries.len() ==> keep(#[trigger] entries[j]),
    ensures
        entries.filter(keep) == entries,
    decreases entries.len(),
{
    reveal(Seq::filter);
    if entries.len() > 0 {
        let front = entries.drop_last();
        assert forall|j: int| 0 <= j < front.len() implies keep(#[trigger] front[j]) by {
            assert(front[j] == entries[j]);
        }
        lemma_filter_keeps_all(front, keep);
        assert(keep(entries[entries.len() - 1]));
        assert(front.push(entries.last()) =~= entries);
    }
}

/// A filter that lets every entry with the key pass does not change what a
/// lookup of that key finds.
pub proof fn lemma_first_value_filter(
    entries: Entries,
    keep: spec_fn((Seq<char>, Seq<char>)) -> bool,
    key: Seq<char>,
)
    requires
        forall|entry: (Seq<char>, Seq<char>)| entry.0 == key ==> #[trigger] keep(entry),
    ensures
        first_value(entries.filter(keep), key) == first_value(entries, key),
    decreases entries.len(),
{
    reveal(Seq::filter);
    if entries.len() > 0 {
        let front = entries.drop_last();
        lemma_first_value_filter(front, keep, key);
        if keep(entries.last()) {
            lemma_first_value_push(front.filter(keep), entries.last(), key);
        }
    }
}

/// A filter that stops every entry with the key leaves none for a lookup.
pub proof fn lemma_first_value_filtered_out(
    entries: Entries,
    keep: spec_fn((Seq<char>, Seq<char>)) -> bool,
    key: Seq<char>,
)
    requires
        forall|entry: (Seq<char>, Seq<char>)| entry.0 == key ==> !#[trigger] keep(entry),
    ensures
        first_value(entries.filter(keep), key) is None,
{
    let kept = entries.filter(keep);
    assert forall|j: int| 0 <= j < kept.len() implies kept[j].0 != key by {
        entries.lemma_filter_pred(keep, j);
    }
    lemma_first_value_none(kept, key);
}

/// Setting one key is merging one entry.
pub proof fn lemma_put_is_merge(entries: Entries, key: Seq<char>, value: Seq<char>)
    ensures
        put(entries, key, value) == merge_entries(entries, seq![(key, value)]),
{
    let set = seq![(key, value)];
    let other = has_other_key(key);
    let unset = is_not_set_by(set);
    assert forall|entry: (Seq<char>, Seq<char>)| #[trigger] other(entry) == unset(entry) by {
        lemma_first_value_push(Seq::empty(), (key, value), entry.0);
        assert(Seq::<(Seq<char>, Seq<char>)>::empty().push((key, value)) =~= set);
    }
    lemma_filter_same(entries, other, unset);
    assert(entries.filter(other).push((key, value)) =~= entries.filter(unset) + set);
}

/// Setting a key after a merge that did not mention it is merging one entry
/// more.
pub proof fn lemma_put_after_merge(
    kept: Entries,
    set: Entries,
    key: Seq<char>,
    value: Seq<char>,
)
    requires
        !has_key(set, key),
    ensures
        put(merge_entries(kept, set), key, value) == merge_entries(kept, set.push((key, value))),
{
    let more = set.push((key, value));
    let other = has_other_key(key);
    let unset = is_not_set_by(set);
    let unset_more = is_not_set_by(more);
    assert forall|entry: (Seq<char>, Seq<char>)| #[trigger]
        unset_more(entry) == (unset(entry) && other(entry)) by {
        lemma_first_value_push(set, (key, value), entry.0);
    }
    lemma_filter_twice(kept, unset, other, unset_more);
    lemma_first_value(set, key);
    lemma_filter_keeps_all(set, other);
    Seq::filter_distributes_over_add(kept.filter(unset), set, other);
    assert((kept.filter(unset) + set).filter(other).push((key, value)) =~= kept.filter(unset_more)
        + more);
}

/// Setting one key in a section is merging one entry into it.
pub proof fn lemma_set_is_merge(
    sections: Sections,
    name: Seq<char>,
    key: Seq<char>,
    value: Seq<char>,
)
    ensures
        set_in(sections, name, key, value) == merge_in(sections, name, seq![(key, value)]),
{
    match section_position(sections, name) {
        Some(position) => {
            lemma_put_is_merge(sections[position].1, key, value);
        },
        None => {
            lemma_put_is_merge(Seq::empty(), key, value);
            lemma_merge_into_nothing(seq![(key, value)]);
        },
    }
}

/// Setting a key in a section after a merge that did not mention the key is
/// merging one entry more.
pub proof fn lemma_set_after_merge(
    sections: Sections,
    name: Seq<char>,
    set: Entries,
    key: Seq<char>,
    value: Seq<char>,
)
    requires
        !has_key(set, key),
    ensures
        set_in(merge_in(sections, name, set), name, key, value) == merge_in(
            sections,
            name,
            set.push((key, value)),
        ),
{
    let merged = merge_in(sections, name, set);
    lemma_section_position(sections, name);
    match section_position(sections, name) {
        Some(position) => {
            lemma_section_position_is(merged, name, position);
            lemma_put_after_merge(sections[position].1, set, key, value);
            assert(set_in(merged, name, key, value) =~= merge_in(
                sections,
                name,
                set.push((key, value)),
            ));
        },
        None => {
            lemma_section_position_is(merged, name, sections.len() as int);
            lemma_first_value(set, key);
            lemma_filter_keeps_all(set, has_other_key(key));
            assert(set_in(merged, name, key, value) =~= merge_in(
                sections,
                name,
                set.push((key, value)),
            ));
        },
    }
}

/// A lookup after a merge finds what was merged under the key, and under any
/// other key what was there before.
pub proof fn lemma_merge_lookup(kept: Entries, set: Entries, key: Seq<char>)
    ensures
        first_value(merge_entries(kept, set), key) == if has_key(set, key) {
            first_value(set, key)
        } else {
            first_value(kept, key)
        },
{
    let unset = is_not_set_by(set);
    lemma_first_value_concat(kept.filter(unset), set, key);
    if has_key(set, key) {
        lemma_first_value_filtered_out(kept, unset, key);
    } else {
        lemma_first_value_filter(kept, unset, key);
    }
}

/// Merging into a section without entries gives just what was merged.
pub proof fn lemma_merge_into_nothing(set: Entries)
    ensures
        merge_entries(Seq::empty(), set) == set,
{
    reveal(Seq::filter);
    assert(merge_entries(Seq::empty(), set) =~= set);
}

/// Merging entries into themselves changes nothing.
pub proof fn lemma_merge_into_self(set: Entries)
    ensures
        merge_entries(set, set) == set,
{
    let unset = is_not_set_by(set);
    let left = set.filter(unset);
    if left.len() > 0 {
        let entry = left[0];
        set.lemma_filter_pred(unset, 0);
        assert(left.contains(entry));
        set.lemma_filter_contains_rev(unset, entry);
        let i = choose|i: int| 0 <= i < set.len() && set[i] == entry;
        lemma_first_value(set, entry.0);
        assert(set[i].0 == entry.0);
    }
    assert(left + set =~= set);
}

/// Merging the same entries a second time changes nothing.
pub proof fn lemma_merge_entries_twice(kept: Entries, set: Entries)
    ensures
        merge_entries(merge_entries(kept, set), set) == merge_entries(kept, set),
{
    let unset = is_not_set_by(set);
    lemma_filter_twice(kept, unset, unset, unset);
    Seq::filter_distributes_over_add(kept.filter(unset), set, unset);
    lemma_merge_into_self(set);
    assert(set.filter(unset).len() == 0) by {
        assert((set.filter(unset) + set).len() == set.len());
    }
    assert((kept.filter(unset) + set).filter(unset) + set =~= kept.filter(unset) + set);
}

/// After a merge the section is there, at the place where it was or else at
/// the end, and holds the merged entries.
pub proof fn lemma_merge_in_section(sections: Sections, name: Seq<char>, set: Entries)
    ensures
        section_position(merge_in(sections, name, set), name) == Some(
            match section_position(sections, name) {
                Some(position) => position,
                None => sections.len() as int,
            },
        ),
        section_entries(merge_in(sections, name, set), name) == merge_entries(
            section_entries(sections, name),
            set,
        ),
{
    let merged = merge_in(sections, name, set);
    lemma_section_position(sections, name);
    match section_position(sections, name) {
        Some(position) => {
            lemma_section_position_is(merged, name, position);
        },
        None => {
            lemma_section_position_is(merged, name, sections.len() as int);
            lemma_merge_into_nothing(set);
        },
    }
}

/// A merge leaves every section where it was, under its name, and changes the
/// content of none but the one that takes the entries.
pub proof fn lemma_merge_in_places(sections: Sections, name: Seq<char>, set: Entries)
    ensures
        merge_in(sections, name, set).len() >= sections.len(),
        forall|i: int|
            0 <= i < sections.len() ==> (#[trigger] merge_in(sections, name, set)[i]).0
                == sections[i].0,
        forall|i: int|
            0 <= i < sections.len() && section_position(sections, name) != Some(i)
                ==> #[trigger] merge_in(sections, name, set)[i] == sections[i],
{
    lemma_section_position(sections, name);
}

/// A merge into one section changes nothing that is read from a section of
/// another name.
pub proof fn lemma_merge_in_others(
    sections: Sections,
    name: Seq<char>,
    set: Entries,
    other: Seq<char>,
)
    requires
        other != name,
    ensures
        section_position(merge_in(sections, name, set), other) == section_position(
            sections,
            other,
        ),
        section_entries(merge_in(sections, name, set), other) == section_entries(sections, other),
{
    let merged = merge_in(sections, name, set);
    lemma_section_position(sections, name);
    lemma_section_position(sections, other);
    match section_position(sections, name) {
        Some(position) => {
            match section_position(sections, other) {
                Some(found) => {
                    lemma_section_position_is(merged, other, found);
                },
                None => {
                    lemma_section_position_none(merged, other);
                },
            }
        },
        None => {
            assert(merged.drop_last() =~= sections);
        },
    }
}

/// Merging the same entries into the same section a second time changes
/// nothing.
pub proof fn lemma_merge_in_twice(sections: Sections, name: Seq<char>, set: Entries)
    ensures
        merge_in(merge_in(sections, name, set), name, set) == merge_in(sections, name, set),
{
    let merged = merge_in(sections, name, set);
    let position = match section_position(sections, name) {
        Some(position) => position,
        None => sections.len() as int,
    };
    let entries = merge_entries(section_entries(sections, name), set);
    assert(section_position(merged, name) == Some(position)) by {
        lemma_merge_in_section(sections, name, set);
    }
    assert(0 <= position < merged.len() && merged[position] == (Some(name), entries)) by {
        lemma_section_position(sections, name);
        lemma_merge_into_nothing(set);
    }
    assert(merge_entries(entries, set) == entries) by {
        lemma_merge_entries_twice(section_entries(sections, name), set);
    }
    lemma_update_same(merged, position);
}

/// Putting a section where it already is changes nothing.
proof fn lemma_update_same(sections: Sections, position: int)
    requires
        0 <= position < sections.len(),
    ensures
        sections.update(position, sections[position]) == sections,
{
    assert(sections.update(position, sections[position]) =~= sections);
}

} // verus!
