//! The record model: spans, events, and their key/value fields.

use vstd::prelude::*;
use crate::level::Level;

verus! {

/// One key/value pair attached to a span or an event.
pub struct Field {
    pub key: String,
    pub value: String,
}

/// A named, field-carrying execution context. Its identity is an opaque id;
/// `parent` identifies ancestry without owning it.
pub struct SpanData {
    pub id: u64,
    pub name: String,
    pub fields: Vec<Field>,
    pub parent: Option<u64>,
}

/// An immutable point-in-time record: severity, message, its own fields, a
/// timestamp, and the id of the span that was current at emission (absent
/// when there was no active context).
pub struct Event {
    pub level: Level,
    pub message: String,
    pub fields: Vec<Field>,
    pub timestamp: u64,
    pub span: Option<u64>,
}

/// The mathematical content of a field list: a map from key to value, where
/// a later entry wins over an earlier one with the same key.
pub open spec fn field_map(s: Seq<Field>) -> Map<Seq<char>, Seq<char>>
    decreases s.len(),
{
    if s.len() == 0 {
        Map::empty()
    } else {
        field_map(s.drop_last()).insert(s.last().key@, s.last().value@)
    }
}

/// No two entries of the list share a key.
pub open spec fn keys_unique(s: Seq<Field>) -> bool {
    forall|i: int, j: int| 0 <= i < j < s.len() ==> s[i].key@ != s[j].key@
}

/// Replacing the entry at `i` by one with the same key updates exactly that
/// key in the field map.
proof fn lemma_field_map_update(s: Seq<Field>, i: int, f: Field)
    requires
        0 <= i < s.len(),
        keys_unique(s),
        s[i].key@ == f.key@,
    ensures
        field_map(s.update(i, f)) == field_map(s).insert(f.key@, f.value@),
    decreases s.len(),
{
    let t = s.update(i, f);
    if i == s.len() - 1 {
        assert(t.drop_last() =~= s.drop_last());
        assert(field_map(s.drop_last()).insert(f.key@, f.value@) =~= field_map(
            s.drop_last(),
        ).insert(s.last().key@, s.last().value@).insert(f.key@, f.value@));
    } else {
        lemma_field_map_update(s.drop_last(), i, f);
        assert(t.drop_last() =~= s.drop_last().update(i, f));
        assert(t.last() == s.last());
        assert(s.last().key@ != f.key@);
        assert(field_map(s.drop_last()).insert(f.key@, f.value@).insert(
            s.last().key@,
            s.last().value@,
        ) =~= field_map(s.drop_last()).insert(s.last().key@, s.last().value@).insert(
            f.key@,
            f.value@,
        ));
    }
}

/// Write `key = value` into a field list: the value under an existing key is
/// replaced (keys stay unique, last write wins), a new key is appended.
pub fn set_field(fields: &mut Vec<Field>, key: String, value: String)
    requires
        keys_unique(old(fields)@),
    ensures
        keys_unique(final(fields)@),
        field_map(final(fields)@) == field_map(old(fields)@).insert(key@, value@),
{
    let mut i: usize = 0;
    while i < fields.len()
        invariant
            0 <= i <= fields@.len(),
            fields@ == old(fields)@,
            keys_unique(fields@),
            forall|j: int| 0 <= j < i ==> fields@[j].key@ != key@,
        decreases fields@.len() - i,
    {
        if fields[i].key == key {
            proof {
                lemma_field_map_update(fields@, i as int, Field { key: key, value: value });
            }
            fields.set(i, Field { key, value });
            return ;
        }
        i += 1;
    }
    proof {
        assert(fields@.push(Field { key: key, value: value }).drop_last() =~= fields@);
    }
    fields.push(Field { key, value });
}

} // verus!
