//! Lists of named values, as JSON objects and the labels of a host hold
//! them. A name is looked up from the front, so of two fields of one name the
//! first is the one that counts.
use vstd::prelude::*;

verus! {

/// The names of the fields and the views of their values, in order.
pub open spec fn field_views<T: View>(fields: Seq<(String, T)>) -> Seq<(Seq<char>, T::V)> {
    Seq::new(fields.len(), |i: int| (fields[i].0@, fields[i].1@))
}

/// The value of the first field named `key`.
pub open spec fn lookup<V>(fields: Seq<(Seq<char>, V)>, key: Seq<char>) -> Option<V>
    decreases fields.len(),
{
    if fields.len() == 0 {
        None
    } else if fields.first().0 == key {
        Some(fields.first().1)
    } else {
        lookup(fields.drop_first(), key)
    }
}

/// The fields with the value of the first field named `key` replaced by
/// `value`; where no field has that name, one is added at the end.
pub open spec fn replaced<V>(fields: Seq<(Seq<char>, V)>, key: Seq<char>, value: V) -> Seq<
    (Seq<char>, V),
>
    decreases fields.len(),
{
    if fields.len() == 0 {
        seq![(key, value)]
    } else if fields.first().0 == key {
        seq![(key, value)] + fields.drop_first()
    } else {
        seq![fields.first()] + replaced(fields.drop_first(), key, value)
    }
}

/// Whether no name occurs in two fields.
pub open spec fn distinct_names<V>(fields: Seq<(Seq<char>, V)>) -> bool {
    forall|i: int, j: int|
        0 <= i < j < fields.len() ==> (#[trigger] fields[i]).0 != (#[trigger] fields[j]).0
}

/// Whether some field has the name `key`.
pub open spec fn has_name<V>(fields: Seq<(Seq<char>, V)>, key: Seq<char>) -> bool {
    exists|i: int| 0 <= i < fields.len() && (#[trigger] fields[i]).0 == key
}

/// The mapping that the fields stand for: it takes each name that occurs to
/// the value that is looked up for it.
pub open spec fn as_map<V>(fields: Seq<(Seq<char>, V)>) -> Map<Seq<char>, V> {
    Map::new(|key: Seq<char>| lookup(fields, key) is Some, |key: Seq<char>| lookup(fields, key)->0)
}

/// A name is found exactly when some field has it, and what is found is the
/// value of a field of that name before which no field has the name.
pub proof fn lemma_lookup<V>(fields: Seq<(Seq<char>, V)>, key: Seq<char>)
    ensures
        match lookup(fields, key) {
            Some(value) => exists|i: int|
                0 <= i < fields.len() && #[trigger] fields[i] == (key, value) && forall|k: int|
                    0 <= k < i ==> (#[trigger] fields[k]).0 != key,
            None => !has_name(fields, key),
        },
    decreases fields.len(),
{
    if fields.len() > 0 && fields.first().0 != key {
        let rest = fields.drop_first();
        lemma_lookup(rest, key);
        assert forall|k: int| 0 <= k < rest.len() implies rest[k] == fields[k + 1] by {}
        match lookup(rest, key) {
            Some(value) => {
                let i = choose|i: int|
                    0 <= i < rest.len() && #[trigger] rest[i] == (key, value) && forall|k: int|
                        0 <= k < i ==> (#[trigger] rest[k]).0 != key;
                assert forall|k: int| 0 <= k < i + 1 implies (#[trigger] fields[k]).0 != key by {
                    if k > 0 {
                        assert(rest[k - 1] == fields[k]);
                    }
                }
            },
            None => {
                assert forall|k: int| 0 <= k < fields.len() implies (#[trigger] fields[k]).0
                    != key by {
                    if k > 0 {
                        assert(rest[k - 1] == fields[k]);
                    }
                }
            },
        }
    }
}

/// Where no name occurs twice, the name of each field is found with the value
/// of that field.
pub proof fn lemma_lookup_distinct<V>(fields: Seq<(Seq<char>, V)>, i: int)
    requires
        distinct_names(fields),
        0 <= i < fields.len(),
    ensures
        lookup(fields, fields[i].0) == Some(fields[i].1),
{
    lemma_lookup(fields, fields[i].0);
}

/// Among fields of which one was replaced, the name that was set is found
/// with its new value, and any other name is found as before.
pub proof fn lemma_replaced_lookup<V>(
    fields: Seq<(Seq<char>, V)>,
    key: Seq<char>,
    value: V,
    other: Seq<char>,
)
    ensures
        lookup(replaced(fields, key, value), key) == Some(value),
        other != key ==> lookup(replaced(fields, key, value), other) == lookup(fields, other),
    decreases fields.len(),
{
    let after = replaced(fields, key, value);
    if fields.len() == 0 {
        assert(after.drop_first() =~= fields);
    } else if fields.first().0 == key {
        assert(after.drop_first() =~= fields.drop_first());
    } else {
        lemma_replaced_lookup(fields.drop_first(), key, value, other);
        assert(after.drop_first() =~= replaced(fields.drop_first(), key, value));
    }
}

/// Replacing a field changes the mapping at its name and nowhere else.
pub proof fn lemma_replaced_map<V>(fields: Seq<(Seq<char>, V)>, key: Seq<char>, value: V)
    ensures
        as_map(replaced(fields, key, value)) == as_map(fields).insert(key, value),
{
    assert forall|other: Seq<char>|
        lookup(replaced(fields, key, value), other) == (if other == key {
            Some(value)
        } else {
            lookup(fields, other)
        }) by {
        lemma_replaced_lookup(fields, key, value, other);
    }
}

/// Replacing a field keeps the names that come before the end as they were,
/// and adds at most the name that was set.
pub proof fn lemma_replaced_names<V>(fields: Seq<(Seq<char>, V)>, key: Seq<char>, value: V)
    ensures
        fields.len() <= replaced(fields, key, value).len() <= fields.len() + 1,
        forall|i: int| 0 <= i < fields.len() ==> (#[trigger] replaced(fields, key, value)[i]).0
            == fields[i].0,
        replaced(fields, key, value).len() == fields.len() + 1 ==> !has_name(fields, key)
            && replaced(fields, key, value).last().0 == key,
    decreases fields.len(),
{
    let after = replaced(fields, key, value);
    if fields.len() > 0 && fields.first().0 != key {
        let rest = fields.drop_first();
        lemma_replaced_names(rest, key, value);
        assert forall|i: int| 0 <= i < fields.len() implies (#[trigger] after[i]).0
            == fields[i].0 by {}
        if after.len() == fields.len() + 1 {
            assert forall|k: int| 0 <= k < fields.len() implies (#[trigger] fields[k]).0 != key by {
                if k > 0 {
                    assert(rest[k - 1] == fields[k]);
                }
            }
        }
    }
}

/// Where no field has the name, setting it adds the field at the end.
pub proof fn lemma_replaced_absent<V>(fields: Seq<(Seq<char>, V)>, key: Seq<char>, value: V)
    requires
        !has_name(fields, key),
    ensures
        replaced(fields, key, value) == fields.push((key, value)),
    decreases fields.len(),
{
    if fields.len() > 0 {
        let rest = fields.drop_first();
        assert(!has_name(rest, key)) by {
            if has_name(rest, key) {
                let i = choose|i: int| 0 <= i < rest.len() && (#[trigger] rest[i]).0 == key;
                assert(fields[i + 1].0 == key);
            }
        }
        lemma_replaced_absent(rest, key, value);
    }
}

/// Replacing a field among fields of which no name occurs twice leaves it so.
pub proof fn lemma_replaced_distinct<V>(fields: Seq<(Seq<char>, V)>, key: Seq<char>, value: V)
    requires
        distinct_names(fields),
    ensures
        distinct_names(replaced(fields, key, value)),
{
    lemma_replaced_names(fields, key, value);
}

/// The value of the first field named `key`.
pub fn get_field<'a, T: View>(fields: &'a Vec<(String, T)>, key: &str) -> (r: Option<&'a T>)
    ensures
        match r {
            Some(value) => lookup(field_views(fields@), key@) == Some(value@),
            None => lookup(field_views(fields@), key@) is None,
        },
{
    let name = String::from_str(key);
    let ghost views = field_views(fields@);
    let mut i: usize = 0;
    assert(views.skip(0) =~= views);
    while i < fields.len()
        invariant
            i <= fields.len(),
            name@ == key@,
            views == field_views(fields@),
            lookup(views, key@) == lookup(views.skip(i as int), key@),
        decreases fields.len() - i,
    {
        assert(views.skip(i as int).drop_first() =~= views.skip(i as int + 1));
        if fields[i].0 == name {
            return Some(&fields[i].1);
        }
        i += 1;
    }
    None
}

/// Sets the field named `key` to `value`: the first field of that name gets
/// the value, and where there is none, the field is added at the end.
pub fn set_field<T: View>(fields: &mut Vec<(String, T)>, key: String, value: T)
    ensures
        field_views(final(fields)@) == replaced(field_views(old(fields)@), key@, value@),
{
    let ghost views = field_views(fields@);
    let mut i: usize = 0;
    assert(views.take(0) + replaced(views.skip(0), key@, value@) =~= replaced(views, key@, value@))
        by {
        assert(views.skip(0) =~= views);
    }
    while i < fields.len()
        invariant
            i <= fields.len(),
            fields@ == old(fields)@,
            views == field_views(fields@),
            replaced(views, key@, value@) == views.take(i as int) + replaced(
                views.skip(i as int),
                key@,
                value@,
            ),
        decreases fields.len() - i,
    {
        assert(views.skip(i as int).drop_first() =~= views.skip(i as int + 1));
        if fields[i].0 == key {
            fields.set(i, (key, value));
            return ;
        }
        i += 1;
    }
    fields.push((key, value));
}

} // verus!
