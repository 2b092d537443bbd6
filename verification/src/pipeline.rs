//! The ordered layer composition: a filter deciding pass/drop, a
//! context-storage stage merging ancestor span fields into the event, and a
//! formatting stage producing the output record handed to the sink.
//!
//! The order is fixed at construction: the filter is consulted first and
//! short-circuits the downstream stages on a negative decision, so a dropped
//! event costs no enrichment or formatting and causes no sink write. The
//! context-storage stage keeps no state of its own: it derives the merged
//! field set purely from the span ancestry visible when the event arrives.

use vstd::prelude::*;
use crate::level::Level;
use crate::record::{Event, Field, SpanData, field_map, keys_unique, set_field};

verus! {

/// The fixed composition installed for a process: its logical name and the
/// severity threshold its filter was configured with.
pub struct Pipeline {
    pub name: String,
    pub threshold: Level,
}

/// One rendered output record, as handed to the sink: the pipeline's name,
/// the event's severity, message and timestamp, and the merged field set.
pub struct OutputRecord {
    pub name: String,
    pub level: Level,
    pub message: String,
    pub timestamp: u64,
    pub fields: Vec<Field>,
}

/// The merged view of a span ancestry, root first: a descendant's field
/// wins over an ancestor's on a shared key.
pub open spec fn chain_map(chain: Seq<SpanData>) -> Map<Seq<char>, Seq<char>>
    decreases chain.len(),
{
    if chain.len() == 0 {
        Map::empty()
    } else {
        chain_map(chain.drop_last()).union_prefer_right(field_map(chain.last().fields@))
    }
}

/// The full field set of an output record: the ancestry's merged fields,
/// with the event's own fields winning on a shared key.
pub open spec fn merged_map(chain: Seq<SpanData>, event_fields: Seq<Field>) -> Map<
    Seq<char>,
    Seq<char>,
> {
    chain_map(chain).union_prefer_right(field_map(event_fields))
}

/// Every key of every span of the ancestry survives into the ancestry's
/// merged view.
proof fn lemma_chain_map_covers(chain: Seq<SpanData>, i: int, k: Seq<char>)
    requires
        0 <= i < chain.len(),
        field_map(chain[i].fields@).dom().contains(k),
    ensures
        chain_map(chain).dom().contains(k),
    decreases chain.len(),
{
    if i < chain.len() - 1 {
        lemma_chain_map_covers(chain.drop_last(), i, k);
    }
}

/// Field visibility: the merged field set of an event emitted under a span
/// chain contains every field attached to any span of the chain, and on a
/// shared key the event's own field wins.
pub proof fn lemma_merged_fields_visibility(chain: Seq<SpanData>, event_fields: Seq<Field>)
    ensures
        forall|i: int, k: Seq<char>|
            0 <= i < chain.len() && #[trigger] field_map(chain[i].fields@).dom().contains(k)
                ==> merged_map(chain, event_fields).dom().contains(k),
        forall|k: Seq<char>|
            field_map(event_fields).dom().contains(k) ==> merged_map(chain, event_fields).dom().contains(k)
                && merged_map(chain, event_fields)[k] == field_map(event_fields)[k],
{
    assert forall|i: int, k: Seq<char>|
        0 <= i < chain.len() && #[trigger] field_map(chain[i].fields@).dom().contains(
            k,
        ) implies merged_map(chain, event_fields).dom().contains(k) by {
        lemma_chain_map_covers(chain, i, k);
    }
}

/// The merged view of an ancestry leaves a key untouched when no span past
/// `i` carries it.
proof fn lemma_chain_map_unshadowed(chain: Seq<SpanData>, i: int, k: Seq<char>)
    requires
        0 <= i < chain.len(),
        field_map(chain[i].fields@).dom().contains(k),
        forall|j: int|
            i < j < chain.len() ==> !field_map(#[trigger] chain[j].fields@).dom().contains(k),
    ensures
        chain_map(chain).dom().contains(k),
        chain_map(chain)[k] == field_map(chain[i].fields@)[k],
    decreases chain.len(),
{
    if i == chain.len() - 1 {
    } else {
        lemma_chain_map_unshadowed(chain.drop_last(), i, k);
    }
}

/// Ancestor value fidelity: a field of a span of the ancestry that no
/// descendant span and no event field shadows reaches the output record
/// with its value unchanged.
pub proof fn lemma_unshadowed_ancestor_value(
    chain: Seq<SpanData>,
    event_fields: Seq<Field>,
    i: int,
    k: Seq<char>,
)
    requires
        0 <= i < chain.len(),
        field_map(chain[i].fields@).dom().contains(k),
        forall|j: int|
            i < j < chain.len() ==> !field_map(#[trigger] chain[j].fields@).dom().contains(k),
        !field_map(event_fields).dom().contains(k),
    ensures
        merged_map(chain, event_fields).dom().contains(k),
        merged_map(chain, event_fields)[k] == field_map(chain[i].fields@)[k],
{
    lemma_chain_map_unshadowed(chain, i, k);
}

/// Build the merged field list of an event under its span ancestry: the
/// ancestors' fields root first, then the event's own, later writes
/// replacing earlier ones key by key.
pub fn merge_fields(chain: &Vec<SpanData>, event_fields: &Vec<Field>) -> (r: Vec<Field>)
    ensures
        keys_unique(r@),
        field_map(r@) == merged_map(chain@, event_fields@),
{
    let mut acc: Vec<Field> = Vec::new();
    let mut i: usize = 0;
    while i < chain.len()
        invariant
            0 <= i <= chain@.len(),
            keys_unique(acc@),
            field_map(acc@) == chain_map(chain@.take(i as int)),
        decreases chain@.len() - i,
    {
        let span_fields = &chain[i].fields;
        let mut j: usize = 0;
        while j < span_fields.len()
            invariant
                0 <= i < chain@.len(),
                0 <= j <= span_fields@.len(),
                span_fields@ == chain@[i as int].fields@,
                keys_unique(acc@),
                field_map(acc@) == chain_map(chain@.take(i as int)).union_prefer_right(
                    field_map(span_fields@.take(j as int)),
                ),
            decreases span_fields@.len() - j,
        {
            let ghost pre = acc@;
            let key = clone_string(&span_fields[j].key);
            let value = clone_string(&span_fields[j].value);
            set_field(&mut acc, key, value);
            proof {
                let sf = span_fields@;
                assert(sf.take(j + 1).drop_last() =~= sf.take(j as int));
                assert(sf.take(j + 1).last() == sf[j as int]);
                assert(chain_map(chain@.take(i as int)).union_prefer_right(
                    field_map(sf.take(j as int)),
                ).insert(sf[j as int].key@, sf[j as int].value@) =~= chain_map(
                    chain@.take(i as int),
                ).union_prefer_right(field_map(sf.take(j + 1))));
            }
            j += 1;
        }
        proof {
            assert(span_fields@.take(span_fields@.len() as int) =~= span_fields@);
            assert(chain@.take(i + 1).drop_last() =~= chain@.take(i as int));
            assert(chain@.take(i + 1).last() == chain@[i as int]);
        }
        i += 1;
    }
    proof {
        assert(chain@.take(chain@.len() as int) =~= chain@);
    }
    let mut j: usize = 0;
    while j < event_fields.len()
        invariant
            0 <= j <= event_fields@.len(),
            keys_unique(acc@),
            field_map(acc@) == chain_map(chain@).union_prefer_right(
                field_map(event_fields@.take(j as int)),
            ),
        decreases event_fields@.len() - j,
    {
        let key = clone_string(&event_fields[j].key);
        let value = clone_string(&event_fields[j].value);
        set_field(&mut acc, key, value);
        proof {
            let ef = event_fields@;
            assert(ef.take(j + 1).drop_last() =~= ef.take(j as int));
            assert(ef.take(j + 1).last() == ef[j as int]);
            assert(chain_map(chain@).union_prefer_right(field_map(ef.take(j as int))).insert(
                ef[j as int].key@,
                ef[j as int].value@,
            ) =~= chain_map(chain@).union_prefer_right(field_map(ef.take(j + 1))));
        }
        j += 1;
    }
    proof {
        assert(event_fields@.take(event_fields@.len() as int) =~= event_fields@);
    }
    acc
}

/// An exact copy of a string, stated so callers keep its contents.
fn clone_string(s: &String) -> (r: String)
    ensures
        r@ == s@,
{
    s.clone()
}

/// Run one event through the pipeline under the span ancestry that was
/// current at emission. The filter decides first: an event below the
/// threshold is dropped and nothing downstream runs — `None` means no sink
/// write at all. An event at or above the threshold yields exactly one
/// output record carrying the pipeline's name, the event's severity,
/// message and timestamp, and the merged field set.
pub fn process_event(pipeline: &Pipeline, chain: &Vec<SpanData>, event: &Event) -> (r: Option<
    OutputRecord,
>)
    ensures
        r is Some <==> event.level.severity() >= pipeline.threshold.severity(),
        r matches Some(rec) ==> {
            &&& rec.name@ == pipeline.name@
            &&& rec.level == event.level
            &&& rec.message@ == event.message@
            &&& rec.timestamp == event.timestamp
            &&& keys_unique(rec.fields@)
            &&& field_map(rec.fields@) == merged_map(chain@, event.fields@)
        },
{
    if event.level.passes(pipeline.threshold) {
        let fields = merge_fields(chain, &event.fields);
        Some(
            OutputRecord {
                name: clone_string(&pipeline.name),
                level: event.level,
                message: clone_string(&event.message),
                timestamp: event.timestamp,
                fields,
            },
        )
    } else {
        None
    }
}

/// Make the event an application emits at this moment: it is attributed to
/// the span currently on top of `chain` — or to none, when the lane has no
/// active context.
pub fn make_event(
    chain: &Vec<SpanData>,
    level: Level,
    message: String,
    fields: Vec<Field>,
    timestamp: u64,
) -> (e: Event)
    ensures
        e.level == level,
        e.message == message,
        e.fields == fields,
        e.timestamp == timestamp,
        chain@.len() == 0 ==> e.span is None,
        chain@.len() > 0 ==> e.span == Some(chain@.last().id),
{
    let span = if chain.len() == 0 {
        None
    } else {
        Some(chain[chain.len() - 1].id)
    };
    Event { level, message, fields, timestamp, span }
}

} // verus!
