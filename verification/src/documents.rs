//! Documents: how a saved body is merged into the stored one, which of its
//! fields are encrypted, and what a lookup answers.

use vstd::prelude::*;
use crate::text::str_equal;

verus! {

/// The value that a list of properties gives `key`: that of its last entry
/// under `key`, if there is one.
pub open spec fn property<V>(props: Seq<(String, V)>, key: Seq<char>) -> Option<V>
    decreases props.len(),
{
    if props.len() == 0 {
        None
    } else if props.last().0@ == key {
        Some(props.last().1)
    } else {
        property(props.drop_last(), key)
    }
}

/// A key has a value in a list of properties exactly when an entry carries it.
pub proof fn lemma_property_present<V>(props: Seq<(String, V)>, key: Seq<char>)
    ensures
        property(props, key) is Some <==> exists|j: int| 0 <= j < props.len() && props[j].0@ == key,
    decreases props.len(),
{
    if props.len() > 0 {
        lemma_property_present(props.drop_last(), key);
        if props.last().0@ != key {
            if exists|j: int| 0 <= j < props.len() && props[j].0@ == key {
                let j = choose|j: int| 0 <= j < props.len() && props[j].0@ == key;
                assert(props.drop_last()[j].0@ == key);
            }
        }
    }
}

/// The properties after `body` is merged into `stored`: every key of `body`
/// takes its value from `body`; every other key keeps its stored value.
pub open spec fn merged_property<V>(stored: Seq<(String, V)>, body: Seq<(String, V)>, key: Seq<char>) -> Option<V> {
    match property(body, key) {
        Some(v) => Some(v),
        None => property(stored, key),
    }
}

fn body_has_key<V>(body: &Vec<(String, V)>, key: &str) -> (b: bool)
    ensures
        b == property(body@, key@) is Some,
{
    let mut j: usize = 0;
    while j < body.len()
        invariant
            j <= body@.len(),
            forall|i: int| 0 <= i < j ==> body@[i].0@ != key@,
        decreases body@.len() - j,
    {
        if str_equal(body[j].0.as_str(), key) {
            proof {
                assert(body@[j as int].0@ == key@);
                lemma_property_present(body@, key@);
            }
            return true;
        }
        j = j + 1;
    }
    proof {
        lemma_property_present(body@, key@);
    }
    false
}

/// No key appears twice in a list of properties.
pub open spec fn keys_distinct<V>(props: Seq<(String, V)>) -> bool {
    forall|i: int, j: int| 0 <= i < j < props.len() ==> #[trigger] props[i].0@ != #[trigger] props[j].0@
}

/// Merges a document body into the stored document's properties. When
/// neither list holds a key twice, neither does the result.
pub fn merge_properties<V>(stored: Vec<(String, V)>, body: Vec<(String, V)>) -> (merged: Vec<(String, V)>)
    ensures
        forall|key: Seq<char>| #[trigger] property(merged@, key) == merged_property(stored@, body@, key),
        keys_distinct(stored@) && keys_distinct(body@) ==> keys_distinct(merged@),
{
    let ghost stored_all = stored@;
    let ghost body_all = body@;
    let mut merged: Vec<(String, V)> = Vec::new();
    let ghost mut origin: Seq<int> = Seq::empty();
    for entry in it: stored.into_iter()
        invariant
            it.seq() == stored_all,
            body@ == body_all,
            forall|key: Seq<char>| #[trigger] property(merged@, key) == if property(body_all, key) is Some {
                None
            } else {
                property(stored_all.take(it.index() as int), key)
            },
            origin.len() == merged@.len(),
            forall|j: int|
                0 <= j < merged@.len() ==> 0 <= #[trigger] origin[j] < it.index() && merged@[j].0@
                    == stored_all[origin[j]].0@,
            forall|j: int, k: int|
                0 <= j < merged@.len() && 0 <= k < body_all.len() ==> #[trigger] merged@[j].0@
                    != #[trigger] body_all[k].0@,
            keys_distinct(stored_all) ==> keys_distinct(merged@),
    {
        let ghost before = merged@;
        let ghost i = it.index() as int;
        let ghost e = entry;
        assert(e == stored_all[i]);
        assert(stored_all.take(i + 1).drop_last() =~= stored_all.take(i));
        assert(stored_all.take(i + 1).last() == e);
        let skip = body_has_key(&body, entry.0.as_str());
        if !skip {
            merged.push(entry);
            assert(merged@.drop_last() =~= before);
            proof {
                origin = origin.push(i);
                lemma_property_present(body_all, e.0@);
                assert forall|j: int, k: int|
                    0 <= j < merged@.len() && 0 <= k < body_all.len() implies #[trigger] merged@[j].0@
                    != #[trigger] body_all[k].0@ by {
                    if j < before.len() {
                        assert(merged@[j] == before[j]);
                    }
                }
                if keys_distinct(stored_all) {
                    assert forall|a: int, b: int| 0 <= a < b < merged@.len() implies #[trigger] merged@[a].0@
                        != #[trigger] merged@[b].0@ by {
                        assert(merged@[a] == before[a] || a == before.len());
                        if b < before.len() {
                            assert(merged@[a] == before[a] && merged@[b] == before[b]);
                        } else {
                            assert(merged@[a] == before[a]);
                            assert(origin[a] < i);
                            assert(stored_all[origin[a]].0@ != stored_all[i].0@);
                        }
                    }
                }
            }
        }
        assert forall|key: Seq<char>| #[trigger] property(merged@, key) == if property(body_all, key) is Some {
            None
        } else {
            property(stored_all.take(i + 1), key)
        } by {
            assert(property(stored_all.take(i + 1), key) == if e.0@ == key {
                Some(e.1)
            } else {
                property(stored_all.take(i), key)
            });
            if !skip {
                assert(property(merged@, key) == if e.0@ == key {
                    Some(e.1)
                } else {
                    property(before, key)
                });
            }
        }
    }
    assert(stored_all.take(stored_all.len() as int) =~= stored_all);
    let ghost first = merged@;
    for entry in it: body.into_iter()
        invariant
            it.seq() == body_all,
            merged@.len() == first.len() + it.index(),
            merged@.subrange(0, first.len() as int) == first,
            forall|k: int| 0 <= k < it.index() ==> merged@[first.len() + k] == #[trigger] body_all[k],
            forall|j: int, k: int|
                0 <= j < first.len() && 0 <= k < body_all.len() ==> #[trigger] first[j].0@
                    != #[trigger] body_all[k].0@,
            keys_distinct(first) && keys_distinct(body_all) ==> keys_distinct(merged@),
            forall|key: Seq<char>| #[trigger] property(merged@, key) == match property(body_all.take(it.index() as int), key) {
                Some(v) => Some(v),
                None => property(first, key),
            },
    {
        let ghost before = merged@;
        let ghost i = it.index() as int;
        let ghost e = entry;
        assert(e == body_all[i]);
        assert(body_all.take(i + 1).drop_last() =~= body_all.take(i));
        assert(body_all.take(i + 1).last() == e);
        merged.push(entry);
        assert(merged@.drop_last() =~= before);
        assert(merged@.subrange(0, first.len() as int) =~= first);
        proof {
            if keys_distinct(first) && keys_distinct(body_all) {
                assert forall|a: int, b: int| 0 <= a < b < merged@.len() implies #[trigger] merged@[a].0@
                    != #[trigger] merged@[b].0@ by {
                    if b < before.len() {
                        assert(merged@[a] == before[a] && merged@[b] == before[b]);
                    } else if a < first.len() {
                        assert(merged@[a] == first[a]);
                        assert(merged@[b] == body_all[i]);
                    } else {
                        assert(merged@[a] == body_all[a - first.len()]);
                        assert(merged@[b] == body_all[i]);
                    }
                }
            }
        }
        assert forall|key: Seq<char>| #[trigger] property(merged@, key) == match property(body_all.take(i + 1), key) {
            Some(v) => Some(v),
            None => property(first, key),
        } by {
            assert(property(body_all.take(i + 1), key) == if e.0@ == key {
                Some(e.1)
            } else {
                property(body_all.take(i), key)
            });
            assert(property(merged@, key) == if e.0@ == key {
                Some(e.1)
            } else {
                property(before, key)
            });
        }
    }
    assert(body_all.take(body_all.len() as int) =~= body_all);
    merged
}

/// The fields to encrypt, each with its string value: the requested fields
/// whose value in the body is a string, in the order requested.
pub open spec fn encryptable<K, V>(requested: Seq<(K, Option<V>)>) -> Seq<(K, V)>
    decreases requested.len(),
{
    if requested.len() == 0 {
        Seq::empty()
    } else {
        let rest = encryptable(requested.drop_last());
        match requested.last().1 {
            Some(v) => rest.push((requested.last().0, v)),
            None => rest,
        }
    }
}

/// Picks, from the fields that a save asks to encrypt, each paired with its
/// string value in the body if it has one, those that can be encrypted.
pub fn fields_to_encrypt(requested: Vec<(String, Option<String>)>) -> (fields: Vec<(String, String)>)
    ensures
        fields@ == encryptable(requested@),
{
    let ghost all = requested@;
    let mut fields: Vec<(String, String)> = Vec::new();
    for entry in it: requested.into_iter()
        invariant
            it.seq() == all,
            fields@ == encryptable(all.take(it.index() as int)),
    {
        proof {
            assert(all.take(it.index() + 1).drop_last() =~= all.take(it.index() as int));
        }
        let (field, value) = entry;
        match value {
            Some(v) => fields.push((field, v)),
            None => {},
        }
    }
    proof {
        assert(all.take(all.len() as int) =~= all);
    }
    fields
}

/// What looking a document up in its collection found.
pub enum DocumentLookup<J> {
    /// The document, with its properties.
    Found(J),
    /// No document has that id.
    NotFound,
    /// The lookup failed, with this message.
    Failed(String),
}

/// The properties that a save merges its body into: those of the stored
/// document, none when no document has the id yet; a lookup that failed
/// fails the save, so that nothing stored is overwritten unread.
pub fn stored_properties<P>(lookup: DocumentLookup<Vec<P>>) -> (r: Result<Vec<P>, String>)
    ensures
        match lookup {
            DocumentLookup::Found(p) => r == Ok::<Vec<P>, String>(p),
            DocumentLookup::NotFound => r matches Ok(p) && p@.len() == 0,
            DocumentLookup::Failed(m) => r == Err::<Vec<P>, String>(m),
        },
{
    match lookup {
        DocumentLookup::Found(p) => Ok(p),
        DocumentLookup::NotFound => Ok(Vec::new()),
        DocumentLookup::Failed(m) => Err(m),
    }
}

/// The answer to a document request: the properties of the document found,
/// nothing (`null` to the frontend) when there is no such document, or the
/// lookup's error.
pub fn document_response<J>(lookup: DocumentLookup<J>) -> (r: Result<Option<J>, String>)
    ensures
        match lookup {
            DocumentLookup::Found(j) => r == Ok::<Option<J>, String>(Some(j)),
            DocumentLookup::NotFound => r == Ok::<Option<J>, String>(None),
            DocumentLookup::Failed(m) => r == Err::<Option<J>, String>(m),
        },
{
    match lookup {
        DocumentLookup::Found(j) => Ok(Some(j)),
        DocumentLookup::NotFound => Ok(None),
        DocumentLookup::Failed(m) => Err(m),
    }
}

/// A save changes only the keys that its body names: every key that the body
/// does not name keeps its stored value (or stays absent), and every key that
/// it names takes the body's value, whatever the lengths of body and stored
/// document.
pub proof fn law_merge_changes_only_named_keys<V>(
    stored: Seq<(String, V)>,
    body: Seq<(String, V)>,
    key: Seq<char>,
)
    ensures
        property(body, key) is None ==> merged_property(stored, body, key) == property(stored, key),
        property(body, key) matches Some(v) ==> merged_property(stored, body, key) == Some(v),
{
}

/// Every requested field whose body value is a string is encrypted, in the
/// order requested: the fields of two runs of requests are those of each,
/// one request with a string value gives exactly that field and value, and
/// one without gives none.
pub proof fn law_every_string_field_is_encrypted<K, V>(
    a: Seq<(K, Option<V>)>,
    b: Seq<(K, Option<V>)>,
    field: K,
    value: V,
)
    ensures
        encryptable(a + b) == encryptable(a) + encryptable(b),
        encryptable(seq![(field, Some(value))]) == seq![(field, value)],
        encryptable(seq![(field, None::<V>)]) == Seq::<(K, V)>::empty(),
    decreases b.len(),
{
    if b.len() == 0 {
        assert(a + b =~= a);
        assert(encryptable(a) + encryptable(b) =~= encryptable(a));
    } else {
        law_every_string_field_is_encrypted(a, b.drop_last(), field, value);
        assert((a + b).drop_last() =~= a + b.drop_last());
        assert((a + b).last() == b.last());
        match b.last().1 {
            Some(v) => {
                assert(encryptable(a) + encryptable(b.drop_last()).push((b.last().0, v)) =~= (
                encryptable(a) + encryptable(b.drop_last())).push((b.last().0, v)));
            },
            None => {},
        }
    }
    let one = seq![(field, Some(value))];
    assert(one.drop_last() =~= Seq::<(K, Option<V>)>::empty());
    let none = seq![(field, None::<V>)];
    assert(none.drop_last() =~= Seq::<(K, Option<V>)>::empty());
    assert(one.last() == (field, Some(value)));
    assert(encryptable(one.drop_last()) == Seq::<(K, V)>::empty());
    assert(encryptable(one) == encryptable(one.drop_last()).push((field, value)));
    assert(encryptable(one) =~= seq![(field, value)]);
    assert(encryptable(none.drop_last()) == Seq::<(K, V)>::empty());
}

/// Saving an empty body leaves the stored properties as they were, and saving
/// into a document that does not exist yet stores exactly the body.
pub proof fn law_merge_identities<V>(stored: Seq<(String, V)>, body: Seq<(String, V)>, key: Seq<char>)
    ensures
        merged_property(stored, Seq::empty(), key) == property(stored, key),
        merged_property(Seq::empty(), body, key) == property(body, key),
{
}

/// Saving the same body twice gives what saving it once gives.
pub proof fn law_merge_idempotent<V>(stored: Seq<(String, V)>, body: Seq<(String, V)>, key: Seq<char>)
    ensures
        match property(body, key) {
            Some(v) => Some(v),
            None => merged_property(stored, body, key),
        } == merged_property(stored, body, key),
{
}

} // verus!
