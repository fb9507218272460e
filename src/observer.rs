//! The capture buffer: records mutation events, coalesces runs of sequence edits into
//! single patches, and hands the result out in order.
use crate::ids::ObjId;
use crate::patches::{ActionModel, Patch, PatchAction, PatchModel};
use crate::path::{PathElement, Prop};
use crate::resolve::resolve_path;
use crate::text::{chars_of, insert_chars, remove_range, string_of};
use crate::value::Value;
use automerge as am;
use std::collections::HashMap;
use vstd::prelude::*;

verus! {

/// What an observer holds: whether it is capturing, and its buffered patches in the
/// order their events came.
pub struct ObserverModel {
    pub enabled: bool,
    pub patches: Seq<PatchModel>,
}

impl ObserverModel {
    /// The state after an event whose effect on an enabled buffer is `patches`: a
    /// disabled observer ignores every event.
    pub open spec fn record(self, patches: Seq<PatchModel>) -> ObserverModel {
        if self.enabled {
            ObserverModel { enabled: true, patches }
        } else {
            self
        }
    }

    /// The state after capturing is switched on or off; switching it off discards the
    /// buffer.
    pub open spec fn set_enabled(self, on: bool) -> ObserverModel {
        ObserverModel {
            enabled: on,
            patches: if on {
                self.patches
            } else {
                Seq::empty()
            },
        }
    }

    /// A fresh observer for a nested session: same enabled state, empty buffer.
    pub open spec fn branched(self) -> ObserverModel {
        ObserverModel { enabled: self.enabled, patches: Seq::empty() }
    }

    /// The state after the patches of `child` are appended to this observer's own.
    pub open spec fn merged(self, child: ObserverModel) -> ObserverModel {
        ObserverModel { enabled: self.enabled, patches: self.patches + child.patches }
    }

    /// The state after the buffer has been handed out.
    pub open spec fn drained(self) -> ObserverModel {
        ObserverModel { enabled: self.enabled, patches: Seq::empty() }
    }
}

/// A resolved path as a sequence, or `None` when the object could not be located.
pub open spec fn path_view(path: Option<Vec<PathElement>>) -> Option<Seq<PathElement>> {
    match path {
        Some(p) => Some(p@),
        None => None,
    }
}

/// Appends a new patch located by `path`; an event on an object that could not be
/// located is dropped.
pub open spec fn push_located(
    buf: Seq<PatchModel>,
    path: Option<Seq<PathElement>>,
    action: ActionModel,
) -> Seq<PatchModel> {
    match path {
        Some(p) => buf.push(PatchModel { path: p, action }),
        None => buf,
    }
}

/// Replaces the last patch of a non-empty buffer.
pub open spec fn with_last(buf: Seq<PatchModel>, p: PatchModel) -> Seq<PatchModel> {
    buf.update(buf.len() - 1, p)
}

/// Whether an insertion at `index` of `obj` extends the buffered insertion `tail`: same
/// object, and `index` within its span or just past it.
pub open spec fn extends_insert(tail: ActionModel, obj: Seq<u8>, index: int) -> bool {
    tail matches ActionModel::Insert { obj: o, index: ti, values } && o == obj && ti <= index
        <= ti + values.len()
}

/// The buffer after the value `value` is inserted at `index` of the list `obj`.
pub open spec fn after_insert(
    buf: Seq<PatchModel>,
    obj: Seq<u8>,
    index: int,
    value: Value,
    path: Option<Seq<PathElement>>,
) -> Seq<PatchModel> {
    if buf.len() > 0 && extends_insert(buf.last().action, obj, index) {
        let tail = buf.last();
        let ti = tail.action->Insert_index;
        let values = tail.action->Insert_values;
        with_last(
            buf,
            PatchModel {
                path: tail.path,
                action: ActionModel::Insert {
                    obj: tail.action->Insert_obj,
                    index: ti,
                    values: values.insert(index - ti, value),
                },
            },
        )
    } else {
        push_located(buf, path, ActionModel::Insert { obj, index, values: seq![value] })
    }
}

/// Whether a splice of text at `index` of `obj` extends the buffered splice `tail`: same
/// text object, and `index` within its span or just past it.
pub open spec fn extends_text(tail: ActionModel, obj: Seq<u8>, index: int) -> bool {
    tail matches ActionModel::SpliceText { obj: o, index: ti, text, .. } && o == obj && ti
        <= index <= ti + text.len()
}

/// The buffer after `text` is spliced in at `index` of the text object `obj`.
pub open spec fn after_splice_text(
    buf: Seq<PatchModel>,
    obj: Seq<u8>,
    index: int,
    text: Seq<char>,
    path: Option<Seq<PathElement>>,
) -> Seq<PatchModel> {
    if buf.len() > 0 && extends_text(buf.last().action, obj, index) {
        let tail = buf.last();
        let ti = tail.action->SpliceText_index;
        let t = tail.action->SpliceText_text;
        with_last(
            buf,
            PatchModel {
                path: tail.path,
                action: ActionModel::SpliceText {
                    obj: tail.action->SpliceText_obj,
                    index: ti,
                    text: t.take(index - ti) + text + t.skip(index - ti),
                    marks: tail.action->SpliceText_marks,
                },
            },
        )
    } else {
        push_located(
            buf,
            path,
            ActionModel::SpliceText { obj, index, text, marks: Map::empty() },
        )
    }
}

/// Whether a deletion of `length` elements at `index` of `obj` is absorbed by the buffered
/// patch `tail`: it falls wholly inside a buffered insertion or splice of that object, or
/// it starts where a buffered deletion of that object starts (and the summed length stays
/// representable).
pub open spec fn absorbs_delete(tail: ActionModel, obj: Seq<u8>, index: int, length: int) -> bool {
    match tail {
        ActionModel::SpliceText { obj: o, index: ti, text, .. } => o == obj && ti <= index
            && index + length <= ti + text.len(),
        ActionModel::Insert { obj: o, index: ti, values } => o == obj && ti <= index && index
            + length <= ti + values.len(),
        ActionModel::DeleteSeq { obj: o, index: ti, length: tl } => o == obj && index == ti && tl
            + length <= usize::MAX,
        _ => false,
    }
}

/// The buffer after `length` elements are deleted at `index` of the sequence `obj`.
///
/// A deletion inside a buffered insertion or splice removes those elements from it; a
/// buffered insertion or splice left with nothing is dropped, since together the two
/// events change nothing. A deletion at the start of a buffered deletion lengthens it.
pub open spec fn after_delete_seq(
    buf: Seq<PatchModel>,
    obj: Seq<u8>,
    index: int,
    length: int,
    path: Option<Seq<PathElement>>,
) -> Seq<PatchModel> {
    if buf.len() > 0 && absorbs_delete(buf.last().action, obj, index, length) {
        let tail = buf.last();
        match tail.action {
            ActionModel::SpliceText { obj: o, index: ti, text, marks } => {
                let rest = text.take(index - ti) + text.skip(index - ti + length);
                if rest.len() == 0 {
                    buf.drop_last()
                } else {
                    with_last(
                        buf,
                        PatchModel {
                            path: tail.path,
                            action: ActionModel::SpliceText { obj: o, index: ti, text: rest, marks },
                        },
                    )
                }
            },
            ActionModel::Insert { obj: o, index: ti, values } => {
                let rest = values.take(index - ti) + values.skip(index - ti + length);
                if rest.len() == 0 {
                    buf.drop_last()
                } else {
                    with_last(
                        buf,
                        PatchModel {
                            path: tail.path,
                            action: ActionModel::Insert { obj: o, index: ti, values: rest },
                        },
                    )
                }
            },
            ActionModel::DeleteSeq { obj: o, index: ti, length: tl } => with_last(
                buf,
                PatchModel {
                    path: tail.path,
                    action: ActionModel::DeleteSeq { obj: o, index: ti, length: tl + length },
                },
            ),
            _ => buf,
        }
    } else {
        push_located(buf, path, ActionModel::DeleteSeq { obj, index, length })
    }
}

/// A patch still being built: its run of values or characters may grow or shrink as
/// later events coalesce into it.
enum Pending {
    Put { obj: ObjId, path: Vec<PathElement>, prop: Prop, value: Value },
    Insert { obj: ObjId, path: Vec<PathElement>, index: usize, values: Vec<Value> },
    SpliceText { obj: ObjId, path: Vec<PathElement>, index: usize, text: Vec<char> },
    Increment { obj: ObjId, path: Vec<PathElement>, prop: Prop, delta: i64 },
    DeleteMap { obj: ObjId, path: Vec<PathElement>, key: String },
    DeleteSeq { obj: ObjId, path: Vec<PathElement>, index: usize, length: usize },
}

impl View for Pending {
    type V = PatchModel;

    closed spec fn view(&self) -> PatchModel {
        match self {
            Pending::Put { obj, path, prop, value } => PatchModel {
                path: path@,
                action: ActionModel::Put { obj: obj@, prop: *prop, value: *value },
            },
            Pending::Insert { obj, path, index, values } => PatchModel {
                path: path@,
                action: ActionModel::Insert { obj: obj@, index: *index as int, values: values@ },
            },
            Pending::SpliceText { obj, path, index, text } => PatchModel {
                path: path@,
                action: ActionModel::SpliceText {
                    obj: obj@,
                    index: *index as int,
                    text: text@,
                    marks: Map::empty(),
                },
            },
            Pending::Increment { obj, path, prop, delta } => PatchModel {
                path: path@,
                action: ActionModel::Increment { obj: obj@, prop: *prop, delta: *delta as int },
            },
            Pending::DeleteMap { obj, path, key } => PatchModel {
                path: path@,
                action: ActionModel::DeleteMap { obj: obj@, key: key@ },
            },
            Pending::DeleteSeq { obj, path, index, length } => PatchModel {
                path: path@,
                action: ActionModel::DeleteSeq {
                    obj: obj@,
                    index: *index as int,
                    length: *length as int,
                },
            },
        }
    }
}

/// The buffered patches as mathematical values.
spec fn models(v: Seq<Pending>) -> Seq<PatchModel> {
    v.map_values(|p: Pending| p@)
}

/// Records the effect of mutations on a document as a buffer of patches.
///
/// Starts disabled; while disabled every event is ignored.
pub struct Observer {
    enabled: bool,
    patches: Vec<Pending>,
}

impl View for Observer {
    type V = ObserverModel;

    closed spec fn view(&self) -> ObserverModel {
        ObserverModel { enabled: self.enabled, patches: models(self.patches@) }
    }
}

impl Observer {
    /// A disabled observer with an empty buffer.
    pub fn new() -> (r: Observer)
        ensures
            !r@.enabled,
            r@.patches == Seq::<PatchModel>::empty(),
    {
        let r = Observer { enabled: false, patches: Vec::new() };
        assert(models(r.patches@) =~= Seq::<PatchModel>::empty());
        r
    }

    /// Turns capturing on or off and returns whether it was on. Turning it off discards
    /// everything buffered.
    pub fn enable(&mut self, enable: bool) -> (r: bool)
        ensures
            r == old(self)@.enabled,
            final(self)@ == old(self)@.set_enabled(enable),
    {
        if !enable {
            self.patches.truncate(0);
            assert(models(self.patches@) =~= Seq::<PatchModel>::empty());
        }
        let old_enabled = self.enabled;
        self.enabled = enable;
        old_enabled
    }

    /// Whether the observer is capturing.
    pub fn is_enabled(&self) -> (r: bool)
        ensures
            r == self@.enabled,
    {
        self.enabled
    }

    /// The number of buffered patches.
    pub fn len(&self) -> (r: usize)
        ensures
            r == self@.patches.len(),
    {
        self.patches.len()
    }

    /// A new observer for a nested session: same enabled state, empty buffer.
    pub fn branch(&self) -> (r: Observer)
        ensures
            r@ == self@.branched(),
    {
        let r = Observer { enabled: self.enabled, patches: Vec::new() };
        assert(models(r.patches@) =~= Seq::<PatchModel>::empty());
        r
    }

    /// Appends the patches of a finished nested session after this observer's own.
    pub fn merge(&mut self, other: Observer)
        ensures
            final(self)@ == old(self)@.merged(other@),
    {
        let mut other = other;
        let ghost a = self.patches@;
        let ghost b = other.patches@;
        self.patches.append(&mut other.patches);
        assert(models(a + b) =~= models(a) + models(b));
    }

    /// Hands out the buffered patches in the order their events came and leaves the
    /// buffer empty.
    pub fn take_patches(&mut self) -> (r: Vec<Patch>)
        ensures
            final(self)@ == old(self)@.drained(),
            r@.len() == old(self)@.patches.len(),
            forall|i: int| 0 <= i < r@.len() ==> #[trigger] r@[i]@ == old(self)@.patches[i],
    {
        let mut pending: Vec<Pending> = Vec::new();
        std::mem::swap(&mut pending, &mut self.patches);
        assert(models(self.patches@) =~= Seq::<PatchModel>::empty());
        let mut out: Vec<Patch> = Vec::new();
        for p in it: pending.into_iter()
            invariant
                it.seq() == pending@,
                out@.len() == it.index(),
                forall|i: int| 0 <= i < it.index() ==> #[trigger] out@[i]@ == pending@[i]@,
        {
            out.push(materialize(p));
        }
        out
    }

    /// Appends one buffered patch.
    fn push_pending(&mut self, p: Pending)
        ensures
            final(self).enabled == old(self).enabled,
            models(final(self).patches@) == models(old(self).patches@).push(p@),
    {
        let ghost prefix = self.patches@;
        self.patches.push(p);
        assert(models(self.patches@) =~= models(prefix).push(p@));
    }

    /// Records that `value` was inserted at `index` of the list `obj`, located by `path`.
    ///
    /// Extends the last buffered patch when it inserts into the same list over a span
    /// that `index` falls in or just after; otherwise appends a new patch.
    pub fn record_insert(
        &mut self,
        obj: ObjId,
        index: usize,
        value: Value,
        path: Option<Vec<PathElement>>,
    )
        ensures
            final(self)@ == old(self)@.record(
                after_insert(old(self)@.patches, obj@, index as int, value, path_view(path)),
            ),
    {
        if !self.enabled {
            return;
        }
        let ghost buf = models(self.patches@);
        if let Some(tail) = self.patches.pop() {
            assert(buf =~= models(self.patches@).push(tail@));
            match tail {
                Pending::Insert { obj: tail_obj, path: tail_path, index: tail_index, values } => {
                    let mut values = values;
                    if tail_obj.same_as(&obj) && tail_index <= index && index - tail_index
                        <= values.len() {
                        values.insert(index - tail_index, value);
                        let merged = Pending::Insert {
                            obj: tail_obj,
                            path: tail_path,
                            index: tail_index,
                            values,
                        };
                        self.push_pending(merged);
                        assert(models(self.patches@) =~= with_last(buf, merged@));
                        return;
                    }
                    self.push_pending(
                        Pending::Insert { obj: tail_obj, path: tail_path, index: tail_index, values },
                    );
                },
                other => {
                    self.push_pending(other);
                },
            }
            assert(models(self.patches@) =~= buf);
        }
        let mut values: Vec<Value> = Vec::new();
        values.push(value);
        match path {
            Some(p) => self.push_pending(Pending::Insert { obj, path: p, index, values }),
            None => {},
        }
    }

    /// Records that `text` was spliced in at `index` of the text object `obj`, located by
    /// `path`.
    ///
    /// Extends the last buffered patch when it splices into the same text over a span
    /// that `index` falls in or just after; otherwise appends a new patch.
    pub fn record_splice_text(
        &mut self,
        obj: ObjId,
        index: usize,
        text: &str,
        path: Option<Vec<PathElement>>,
    )
        ensures
            final(self)@ == old(self)@.record(
                after_splice_text(old(self)@.patches, obj@, index as int, text@, path_view(path)),
            ),
    {
        if !self.enabled {
            return;
        }
        let ghost buf = models(self.patches@);
        if let Some(tail) = self.patches.pop() {
            assert(buf =~= models(self.patches@).push(tail@));
            match tail {
                Pending::SpliceText { obj: tail_obj, path: tail_path, index: tail_index, text: chars } => {
                    let mut chars = chars;
                    if tail_obj.same_as(&obj) && tail_index <= index && index - tail_index
                        <= chars.len() {
                        insert_chars(&mut chars, index - tail_index, text);
                        let merged = Pending::SpliceText {
                            obj: tail_obj,
                            path: tail_path,
                            index: tail_index,
                            text: chars,
                        };
                        self.push_pending(merged);
                        assert(models(self.patches@) =~= with_last(buf, merged@));
                        return;
                    }
                    self.push_pending(
                        Pending::SpliceText {
                            obj: tail_obj,
                            path: tail_path,
                            index: tail_index,
                            text: chars,
                        },
                    );
                },
                other => {
                    self.push_pending(other);
                },
            }
            assert(models(self.patches@) =~= buf);
        }
        match path {
            Some(p) => {
                let chars = chars_of(text);
                self.push_pending(Pending::SpliceText { obj, path: p, index, text: chars });
            },
            None => {},
        }
    }

    /// Records that `length` elements were deleted at `index` of the sequence `obj`,
    /// located by `path`.
    ///
    /// A deletion inside the last buffered insertion or splice of that object removes
    /// those elements from it (dropping it when nothing is left); one at the start of the
    /// last buffered deletion of that object lengthens it; otherwise a new patch is
    /// appended.
    pub fn record_delete_seq(
        &mut self,
        obj: ObjId,
        index: usize,
        length: usize,
        path: Option<Vec<PathElement>>,
    )
        ensures
            final(self)@ == old(self)@.record(
                after_delete_seq(
                    old(self)@.patches,
                    obj@,
                    index as int,
                    length as int,
                    path_view(path),
                ),
            ),
    {
        if !self.enabled {
            return;
        }
        let ghost buf = models(self.patches@);
        if let Some(tail) = self.patches.pop() {
            let ghost prefix = models(self.patches@);
            assert(buf =~= prefix.push(tail@));
            assert(buf.drop_last() =~= prefix);
            match tail {
                Pending::SpliceText { obj: tail_obj, path: tail_path, index: tail_index, text } => {
                    let mut text = text;
                    if tail_obj.same_as(&obj) && tail_index <= index && index - tail_index
                        <= text.len() && length <= text.len() - (index - tail_index) {
                        remove_range(&mut text, index - tail_index, length);
                        if text.len() > 0 {
                            let kept = Pending::SpliceText {
                                obj: tail_obj,
                                path: tail_path,
                                index: tail_index,
                                text,
                            };
                            self.push_pending(kept);
                            assert(models(self.patches@) =~= with_last(buf, kept@));
                        }
                        return;
                    }
                    self.push_pending(
                        Pending::SpliceText { obj: tail_obj, path: tail_path, index: tail_index, text },
                    );
                },
                Pending::Insert { obj: tail_obj, path: tail_path, index: tail_index, values } => {
                    let mut values = values;
                    if tail_obj.same_as(&obj) && tail_index <= index && index - tail_index
                        <= values.len() && length <= values.len() - (index - tail_index) {
                        remove_range(&mut values, index - tail_index, length);
                        if values.len() > 0 {
                            let kept = Pending::Insert {
                                obj: tail_obj,
                                path: tail_path,
                                index: tail_index,
                                values,
                            };
                            self.push_pending(kept);
                            assert(models(self.patches@) =~= with_last(buf, kept@));
                        }
                        return;
                    }
                    self.push_pending(
                        Pending::Insert { obj: tail_obj, path: tail_path, index: tail_index, values },
                    );
                },
                Pending::DeleteSeq { obj: tail_obj, path: tail_path, index: tail_index, length: tail_length } => {
                    if tail_obj.same_as(&obj) && index == tail_index && length <= usize::MAX
                        - tail_length {
                        let longer = Pending::DeleteSeq {
                            obj: tail_obj,
                            path: tail_path,
                            index: tail_index,
                            length: tail_length + length,
                        };
                        self.push_pending(longer);
                        assert(models(self.patches@) =~= with_last(buf, longer@));
                        return;
                    }
                    self.push_pending(
                        Pending::DeleteSeq {
                            obj: tail_obj,
                            path: tail_path,
                            index: tail_index,
                            length: tail_length,
                        },
                    );
                },
                other => {
                    self.push_pending(other);
                },
            }
            assert(models(self.patches@) =~= buf);
        }
        match path {
            Some(p) => self.push_pending(Pending::DeleteSeq { obj, path: p, index, length }),
            None => {},
        }
    }

    /// Records that the key `key` was deleted from the map `obj`, located by `path`.
    pub fn record_delete_map(&mut self, obj: ObjId, key: String, path: Option<Vec<PathElement>>)
        ensures
            final(self)@ == old(self)@.record(
                push_located(
                    old(self)@.patches,
                    path_view(path),
                    ActionModel::DeleteMap { obj: obj@, key: key@ },
                ),
            ),
    {
        if !self.enabled {
            return;
        }
        match path {
            Some(p) => self.push_pending(Pending::DeleteMap { obj, path: p, key }),
            None => {},
        }
    }

    /// Records that `value` was put at `prop` of `obj`, located by `path`.
    pub fn record_put(
        &mut self,
        obj: ObjId,
        prop: Prop,
        value: Value,
        path: Option<Vec<PathElement>>,
    )
        ensures
            final(self)@ == old(self)@.record(
                push_located(
                    old(self)@.patches,
                    path_view(path),
                    ActionModel::Put { obj: obj@, prop, value },
                ),
            ),
    {
        if !self.enabled {
            return;
        }
        match path {
            Some(p) => self.push_pending(Pending::Put { obj, path: p, prop, value }),
            None => {},
        }
    }

    /// Records that the counter at `prop` of `obj` was incremented by `delta`, located
    /// by `path`.
    pub fn record_increment(
        &mut self,
        obj: ObjId,
        prop: Prop,
        delta: i64,
        path: Option<Vec<PathElement>>,
    )
        ensures
            final(self)@ == old(self)@.record(
                push_located(
                    old(self)@.patches,
                    path_view(path),
                    ActionModel::Increment { obj: obj@, prop, delta: delta as int },
                ),
            ),
    {
        if !self.enabled {
            return;
        }
        match path {
            Some(p) => self.push_pending(Pending::Increment { obj, path: p, prop, delta }),
            None => {},
        }
    }

    /// Whether an insertion at `index` of `obj` would extend the last buffered patch.
    fn tail_takes_insert(&self, obj: &ObjId, index: usize) -> (r: bool)
        ensures
            r == (self@.patches.len() > 0 && extends_insert(
                self@.patches.last().action,
                obj@,
                index as int,
            )),
    {
        let n = self.patches.len();
        if n == 0 {
            return false;
        }
        match &self.patches[n - 1] {
            Pending::Insert { obj: o, index: ti, values, .. } => o.same_as(obj) && *ti <= index
                && index - *ti <= values.len(),
            _ => false,
        }
    }

    /// Whether a splice at `index` of `obj` would extend the last buffered patch.
    fn tail_takes_text(&self, obj: &ObjId, index: usize) -> (r: bool)
        ensures
            r == (self@.patches.len() > 0 && extends_text(
                self@.patches.last().action,
                obj@,
                index as int,
            )),
    {
        let n = self.patches.len();
        if n == 0 {
            return false;
        }
        match &self.patches[n - 1] {
            Pending::SpliceText { obj: o, index: ti, text, .. } => o.same_as(obj) && *ti <= index
                && index - *ti <= text.len(),
            _ => false,
        }
    }

    /// Whether a deletion of `length` elements at `index` of `obj` would be absorbed by
    /// the last buffered patch.
    fn tail_absorbs_delete(&self, obj: &ObjId, index: usize, length: usize) -> (r: bool)
        ensures
            r == (self@.patches.len() > 0 && absorbs_delete(
                self@.patches.last().action,
                obj@,
                index as int,
                length as int,
            )),
    {
        let n = self.patches.len();
        if n == 0 {
            return false;
        }
        match &self.patches[n - 1] {
            Pending::SpliceText { obj: o, index: ti, text, .. } => o.same_as(obj) && *ti <= index
                && index - *ti <= text.len() && length <= text.len() - (index - *ti),
            Pending::Insert { obj: o, index: ti, values, .. } => o.same_as(obj) && *ti <= index
                && index - *ti <= values.len() && length <= values.len() - (index - *ti),
            Pending::DeleteSeq { obj: o, index: ti, length: tl, .. } => o.same_as(obj) && index
                == *ti && length <= usize::MAX - *tl,
            _ => false,
        }
    }

    /// Called by the document after `value` was inserted at `index` of the list `obj`.
    ///
    /// The path of `obj` is looked up in `doc` only when a new patch is needed. Whatever
    /// the lookup gives, the buffer changes as `after_insert` says for some path, or for
    /// none when the object cannot be located.
    pub fn insert(&mut self, doc: &am::AutoCommit, obj: ObjId, index: usize, value: Value)
        ensures
            exists|p: Option<Seq<PathElement>>|
                final(self)@ == old(self)@.record(
                    #[trigger] after_insert(old(self)@.patches, obj@, index as int, value, p),
                ),
    {
        let path = if !self.enabled || self.tail_takes_insert(&obj, index) {
            None
        } else {
            resolve_path(doc, &obj)
        };
        self.record_insert(obj, index, value, path);
    }

    /// Called by the document after `text` was spliced in at `index` of the text `obj`.
    ///
    /// The path of `obj` is looked up in `doc` only when a new patch is needed.
    pub fn splice_text(&mut self, doc: &am::AutoCommit, obj: ObjId, index: usize, text: &str)
        ensures
            exists|p: Option<Seq<PathElement>>|
                final(self)@ == old(self)@.record(
                    #[trigger] after_splice_text(old(self)@.patches, obj@, index as int, text@, p),
                ),
    {
        let path = if !self.enabled || self.tail_takes_text(&obj, index) {
            None
        } else {
            resolve_path(doc, &obj)
        };
        self.record_splice_text(obj, index, text, path);
    }

    /// Called by the document after `length` elements were deleted at `index` of the
    /// sequence `obj`.
    ///
    /// The path of `obj` is looked up in `doc` only when a new patch is needed.
    pub fn delete_seq(&mut self, doc: &am::AutoCommit, obj: ObjId, index: usize, length: usize)
        ensures
            exists|p: Option<Seq<PathElement>>|
                final(self)@ == old(self)@.record(
                    #[trigger] after_delete_seq(
                        old(self)@.patches,
                        obj@,
                        index as int,
                        length as int,
                        p,
                    ),
                ),
    {
        let path = if !self.enabled || self.tail_absorbs_delete(&obj, index, length) {
            None
        } else {
            resolve_path(doc, &obj)
        };
        self.record_delete_seq(obj, index, length, path);
    }

    /// Called by the document after `key` was deleted from the map `obj`.
    pub fn delete_map(&mut self, doc: &am::AutoCommit, obj: ObjId, key: &str)
        ensures
            exists|p: Option<Seq<PathElement>>|
                final(self)@ == old(self)@.record(
                    #[trigger] push_located(
                        old(self)@.patches,
                        p,
                        ActionModel::DeleteMap { obj: obj@, key: key@ },
                    ),
                ),
    {
        let path = if !self.enabled {
            None
        } else {
            resolve_path(doc, &obj)
        };
        self.record_delete_map(obj, String::from_str(key), path);
    }

    /// Called by the document after `value` was put at `prop` of `obj`. Whether other
    /// values conflict at `prop` does not change the patch.
    pub fn put(
        &mut self,
        doc: &am::AutoCommit,
        obj: ObjId,
        prop: Prop,
        value: Value,
        _conflict: bool,
    )
        ensures
            exists|p: Option<Seq<PathElement>>|
                final(self)@ == old(self)@.record(
                    #[trigger] push_located(
                        old(self)@.patches,
                        p,
                        ActionModel::Put { obj: obj@, prop, value },
                    ),
                ),
    {
        let path = if !self.enabled {
            None
        } else {
            resolve_path(doc, &obj)
        };
        self.record_put(obj, prop, value, path);
    }

    /// Called by the document when a value at `prop` of `obj` becomes visible again
    /// (because what covered it went away); recorded exactly as a put.
    pub fn expose(
        &mut self,
        doc: &am::AutoCommit,
        obj: ObjId,
        prop: Prop,
        value: Value,
        _conflict: bool,
    )
        ensures
            exists|p: Option<Seq<PathElement>>|
                final(self)@ == old(self)@.record(
                    #[trigger] push_located(
                        old(self)@.patches,
                        p,
                        ActionModel::Put { obj: obj@, prop, value },
                    ),
                ),
    {
        self.put(doc, obj, prop, value, _conflict)
    }

    /// Called by the document after the counter at `prop` of `obj` was incremented by
    /// `delta`.
    pub fn increment(&mut self, doc: &am::AutoCommit, obj: ObjId, prop: Prop, delta: i64)
        ensures
            exists|p: Option<Seq<PathElement>>|
                final(self)@ == old(self)@.record(
                    #[trigger] push_located(
                        old(self)@.patches,
                        p,
                        ActionModel::Increment { obj: obj@, prop, delta: delta as int },
                    ),
                ),
    {
        let path = if !self.enabled {
            None
        } else {
            resolve_path(doc, &obj)
        };
        self.record_increment(obj, prop, delta, path);
    }
}

impl Default for Observer {
    /// A disabled observer with an empty buffer.
    fn default() -> (r: Observer)
        ensures
            !r@.enabled,
            r@.patches == Seq::<PatchModel>::empty(),
    {
        Observer::new()
    }
}

/// The public form of a buffered patch.
fn materialize(p: Pending) -> (r: Patch)
    ensures
        r@ == p@,
{
    match p {
        Pending::Put { obj, path, prop, value } => Patch {
            path,
            action: PatchAction::Put { obj, prop, value },
        },
        Pending::Insert { obj, path, index, values } => Patch {
            path,
            action: PatchAction::Insert { obj, index: index as u64, values },
        },
        Pending::SpliceText { obj, path, index, text } => {
            let value = string_of(&text);
            Patch {
                path,
                action: PatchAction::SpliceText {
                    obj,
                    index: index as u64,
                    value,
                    marks: HashMap::new(),
                },
            }
        },
        Pending::Increment { obj, path, prop, delta } => Patch {
            path,
            action: PatchAction::Increment { obj, prop, value: delta },
        },
        Pending::DeleteMap { obj, path, key } => Patch {
            path,
            action: PatchAction::DeleteMap { obj, key },
        },
        Pending::DeleteSeq { obj, path, index, length } => Patch {
            path,
            action: PatchAction::DeleteSeq { obj, index: index as u64, length: length as u64 },
        },
    }
}

} // verus!
