//! Facts about the capture buffer that span several events or several calls.
use crate::observer::{
    after_insert, after_splice_text, extends_insert, push_located, with_last, ObserverModel,
};
use crate::patches::{ActionModel, PatchModel};
use crate::path::{PathElement, Prop};
use crate::value::Value;
use vstd::prelude::*;

verus! {

/// The buffer after the characters `chars` are spliced into the text `obj` one at a
/// time, the `i`-th at `start + i`, with `paths[i]` as what locating `obj` gave then.
pub open spec fn typing_run(
    buf: Seq<PatchModel>,
    obj: Seq<u8>,
    start: int,
    chars: Seq<char>,
    paths: Seq<Option<Seq<PathElement>>>,
) -> Seq<PatchModel>
    decreases chars.len(),
{
    if chars.len() == 0 {
        buf
    } else {
        let n = chars.len() - 1;
        after_splice_text(
            typing_run(buf, obj, start, chars.take(n), paths.take(n)),
            obj,
            start + n,
            seq![chars[n]],
            paths[n],
        )
    }
}

/// Characters typed one after another into one text, each just after the one before,
/// end up as a single splice holding all of them in typing order.
pub proof fn lemma_typing_run_is_one_splice(
    obj: Seq<u8>,
    start: int,
    chars: Seq<char>,
    paths: Seq<Option<Seq<PathElement>>>,
)
    requires
        chars.len() > 0,
        paths.len() == chars.len(),
        paths[0] is Some,
    ensures
        typing_run(Seq::empty(), obj, start, chars, paths) == seq![
            PatchModel {
                path: paths[0]->0,
                action: ActionModel::SpliceText { obj, index: start, text: chars, marks: Map::empty() },
            },
        ],
    decreases chars.len(),
{
    let n = chars.len() - 1;
    let p = paths[0]->0;
    let t = chars.take(n);
    let prev = typing_run(Seq::empty(), obj, start, t, paths.take(n));
    assert(typing_run(Seq::empty(), obj, start, chars, paths) == after_splice_text(
        prev,
        obj,
        start + n,
        seq![chars[n]],
        paths[n],
    ));
    if n == 0 {
        assert(prev == Seq::<PatchModel>::empty());
        assert(seq![chars[0]] =~= chars);
    } else {
        lemma_typing_run_is_one_splice(obj, start, t, paths.take(n));
        let x = PatchModel {
            path: p,
            action: ActionModel::SpliceText { obj, index: start, text: t, marks: Map::empty() },
        };
        assert(prev == seq![x]);
        assert(prev.last() == x);
        assert(t.take(n) + seq![chars[n]] + t.skip(n) =~= chars);
        let y = PatchModel {
            path: p,
            action: ActionModel::SpliceText { obj, index: start, text: chars, marks: Map::empty() },
        };
        assert(with_last(prev, y) =~= seq![y]);
    }
}

/// The buffer after `values[i]` is inserted into the list `obj` at `start + offsets[i]`,
/// one after another, with `paths[i]` as what locating `obj` gave then.
pub open spec fn insert_run(
    buf: Seq<PatchModel>,
    obj: Seq<u8>,
    start: int,
    offsets: Seq<int>,
    values: Seq<Value>,
    paths: Seq<Option<Seq<PathElement>>>,
) -> Seq<PatchModel>
    decreases values.len(),
{
    if values.len() == 0 {
        buf
    } else {
        let n = values.len() - 1;
        after_insert(
            insert_run(buf, obj, start, offsets.take(n), values.take(n), paths.take(n)),
            obj,
            start + offsets[n],
            values[n],
            paths[n],
        )
    }
}

/// The list made by inserting `values[i]` at position `offsets[i]`, one after another,
/// into an initially empty list.
pub open spec fn inserted_in_turn(offsets: Seq<int>, values: Seq<Value>) -> Seq<Value>
    decreases values.len(),
{
    if values.len() == 0 {
        Seq::empty()
    } else {
        let n = values.len() - 1;
        inserted_in_turn(offsets.take(n), values.take(n)).insert(offsets[n], values[n])
    }
}

/// Offsets that each fall within the list built so far: the `i`-th insertion goes at
/// most just past the `i` values already there.
pub open spec fn offsets_in_span(offsets: Seq<int>) -> bool {
    forall|i: int| 0 <= i < offsets.len() ==> 0 <= #[trigger] offsets[i] <= i
}

proof fn lemma_inserted_in_turn_len(offsets: Seq<int>, values: Seq<Value>)
    requires
        offsets.len() == values.len(),
        offsets_in_span(offsets),
    ensures
        inserted_in_turn(offsets, values).len() == values.len(),
    decreases values.len(),
{
    if values.len() > 0 {
        let n = values.len() - 1;
        assert(offsets_in_span(offsets.take(n)));
        lemma_inserted_in_turn_len(offsets.take(n), values.take(n));
        assert(0 <= offsets[n] <= n);
    }
}

/// Insertions that each land within the span of the insertion patch they started (or
/// just past it) stay one patch, whose values are what inserting each value in turn at
/// its offset into an empty list gives.
pub proof fn lemma_inserts_within_span_coalesce(
    buf: Seq<PatchModel>,
    obj: Seq<u8>,
    start: int,
    offsets: Seq<int>,
    values: Seq<Value>,
    paths: Seq<Option<Seq<PathElement>>>,
)
    requires
        values.len() > 0,
        offsets.len() == values.len(),
        paths.len() == values.len(),
        offsets_in_span(offsets),
        paths[0] is Some,
        !(buf.len() > 0 && extends_insert(buf.last().action, obj, start)),
    ensures
        insert_run(buf, obj, start, offsets, values, paths) == buf.push(
            PatchModel {
                path: paths[0]->0,
                action: ActionModel::Insert {
                    obj,
                    index: start,
                    values: inserted_in_turn(offsets, values),
                },
            },
        ),
    decreases values.len(),
{
    let n = values.len() - 1;
    let p = paths[0]->0;
    assert(0 <= offsets[0] <= 0);
    let prev = insert_run(buf, obj, start, offsets.take(n), values.take(n), paths.take(n));
    assert(insert_run(buf, obj, start, offsets, values, paths) == after_insert(
        prev,
        obj,
        start + offsets[n],
        values[n],
        paths[n],
    ));
    if n == 0 {
        assert(prev == buf);
        assert(inserted_in_turn(offsets.take(0), values.take(0)) == Seq::<Value>::empty());
        assert(Seq::<Value>::empty().insert(0, values[0]) =~= seq![values[0]]);
    } else {
        assert(offsets_in_span(offsets.take(n)));
        lemma_inserts_within_span_coalesce(
            buf,
            obj,
            start,
            offsets.take(n),
            values.take(n),
            paths.take(n),
        );
        lemma_inserted_in_turn_len(offsets.take(n), values.take(n));
        assert(0 <= offsets[n] <= n);
        let v = inserted_in_turn(offsets.take(n), values.take(n));
        let x = PatchModel { path: p, action: ActionModel::Insert { obj, index: start, values: v } };
        assert(prev == buf.push(x));
        assert(prev.last() == x);
        let y = PatchModel {
            path: p,
            action: ActionModel::Insert {
                obj,
                index: start,
                values: inserted_in_turn(offsets, values),
            },
        };
        assert(with_last(prev, y) =~= buf.push(y));
    }
}

/// Switching capture off discards everything buffered: a drain right after hands out
/// nothing, whatever the buffer held before.
pub proof fn lemma_disable_then_drain_is_empty(m: ObserverModel)
    ensures
        m.set_enabled(false).patches == Seq::<PatchModel>::empty(),
        m.set_enabled(false).drained() == m.set_enabled(false),
{
}

/// A drain leaves the buffer empty and the enabled state as it was, so a second drain
/// right after hands out nothing.
pub proof fn lemma_drain_twice(m: ObserverModel)
    ensures
        m.drained().patches == Seq::<PatchModel>::empty(),
        m.drained().enabled == m.enabled,
        m.drained().drained() == m.drained(),
{
}

/// A put whose object was located: what it puts, where, and the path found.
pub struct PutEvent {
    pub obj: Seq<u8>,
    pub prop: Prop,
    pub value: Value,
    pub path: Seq<PathElement>,
}

/// The patch a located put appends.
pub open spec fn put_patch(e: PutEvent) -> PatchModel {
    PatchModel { path: e.path, action: ActionModel::Put { obj: e.obj, prop: e.prop, value: e.value } }
}

/// The state after the puts `events` are recorded one after another.
pub open spec fn record_puts(m: ObserverModel, events: Seq<PutEvent>) -> ObserverModel
    decreases events.len(),
{
    if events.len() == 0 {
        m
    } else {
        let n = events.len() - 1;
        let prev = record_puts(m, events.take(n));
        let e = events[n];
        prev.record(
            push_located(
                prev.patches,
                Some(e.path),
                ActionModel::Put { obj: e.obj, prop: e.prop, value: e.value },
            ),
        )
    }
}

proof fn lemma_record_puts(m: ObserverModel, events: Seq<PutEvent>)
    requires
        m.enabled,
    ensures
        record_puts(m, events).enabled,
        record_puts(m, events).patches == m.patches + events.map_values(|e: PutEvent| put_patch(e)),
    decreases events.len(),
{
    if events.len() > 0 {
        let n = events.len() - 1;
        lemma_record_puts(m, events.take(n));
        assert(events.map_values(|e: PutEvent| put_patch(e)) =~= events.take(n).map_values(
            |e: PutEvent| put_patch(e),
        ).push(put_patch(events[n])));
    }
}

/// A nested session's patches come after the parent's own: when the parent holds `m`
/// patches, branching, recording `k` puts on the branch and merging it back leaves the
/// parent with `m + k` patches, its own first, then the branch's in the order recorded.
pub proof fn lemma_branch_merge_appends(parent: ObserverModel, events: Seq<PutEvent>)
    requires
        parent.enabled,
    ensures
        ({
            let merged = parent.merged(record_puts(parent.branched(), events));
            &&& merged.patches.len() == parent.patches.len() + events.len()
            &&& merged.patches.take(parent.patches.len() as int) == parent.patches
            &&& forall|i: int|
                0 <= i < events.len() ==> #[trigger] merged.patches[parent.patches.len() + i]
                    == put_patch(events[i])
        }),
{
    lemma_record_puts(parent.branched(), events);
    let merged = parent.merged(record_puts(parent.branched(), events));
    assert(merged.patches.take(parent.patches.len() as int) =~= parent.patches);
}

} // verus!
