use am_observer::{root, ObjId, Observer, Patch, PatchAction, PathElement, Prop, ScalarValue, Value};
use automerge::transaction::Transactable;
use automerge::AutoCommit;

fn obj(b: u8) -> ObjId {
    ObjId(vec![1, b])
}

fn int_value(i: i64) -> Value {
    Value::Scalar { value: ScalarValue::Int { value: i } }
}

fn text_value(s: &str) -> Value {
    Value::Scalar { value: ScalarValue::String { value: s.to_string() } }
}

fn some_path(key: &str) -> Option<Vec<PathElement>> {
    Some(vec![PathElement::new(Prop::Key { value: key.to_string() }, root())])
}

fn enabled() -> Observer {
    let mut o = Observer::new();
    assert!(!o.enable(true));
    o
}

fn only_action(patches: &[Patch]) -> &PatchAction {
    assert_eq!(patches.len(), 1);
    &patches[0].action
}

#[test]
fn insert_then_adjacent_insert_coalesces() {
    let mut o = enabled();
    let x = obj(7);
    o.record_insert(x.clone(), 0, text_value("a"), some_path("list"));
    assert_eq!(o.len(), 1);
    o.record_insert(x.clone(), 1, text_value("b"), None);
    assert_eq!(o.len(), 1);
    let patches = o.take_patches();
    assert_eq!(patches[0].path, some_path("list").unwrap());
    assert_eq!(
        only_action(&patches),
        &PatchAction::Insert { obj: x, index: 0, values: vec![text_value("a"), text_value("b")] }
    );
    assert_eq!(o.len(), 0);
    assert!(o.take_patches().is_empty());
}

#[test]
fn delete_inside_buffered_insert_shrinks_it() {
    let mut o = enabled();
    let x = obj(7);
    o.record_insert(x.clone(), 0, text_value("a"), some_path("list"));
    o.record_insert(x.clone(), 1, text_value("b"), None);
    o.record_delete_seq(x.clone(), 0, 1, None);
    let patches = o.take_patches();
    assert_eq!(
        only_action(&patches),
        &PatchAction::Insert { obj: x, index: 0, values: vec![text_value("b")] }
    );
}

#[test]
fn delete_of_whole_buffered_insert_drops_it() {
    let mut o = enabled();
    let x = obj(7);
    o.record_put(obj(1), Prop::Key { value: "k".to_string() }, int_value(1), some_path("m"));
    o.record_insert(x.clone(), 3, int_value(1), some_path("list"));
    o.record_insert(x.clone(), 4, int_value(2), None);
    o.record_delete_seq(x.clone(), 3, 2, None);
    let patches = o.take_patches();
    assert_eq!(patches.len(), 1);
    assert!(matches!(patches[0].action, PatchAction::Put { .. }));
}

#[test]
fn typing_characters_one_by_one_gives_one_splice() {
    let mut o = enabled();
    let t = obj(9);
    for (i, ch) in "héllo".chars().enumerate() {
        let path = if i == 0 { some_path("text") } else { None };
        o.record_splice_text(t.clone(), 4 + i, &ch.to_string(), path);
    }
    let patches = o.take_patches();
    match only_action(&patches) {
        PatchAction::SpliceText { obj, index, value, marks } => {
            assert_eq!(obj, &t);
            assert_eq!(*index, 4);
            assert_eq!(value, "héllo");
            assert!(marks.is_empty());
        }
        other => panic!("unexpected action {:?}", other),
    }
}

#[test]
fn splice_into_middle_of_buffered_splice() {
    let mut o = enabled();
    let t = obj(9);
    o.record_splice_text(t.clone(), 10, "held", some_path("text"));
    o.record_splice_text(t.clone(), 12, "LLO wor", None);
    o.record_delete_seq(t.clone(), 11, 1, None);
    let patches = o.take_patches();
    match only_action(&patches) {
        PatchAction::SpliceText { index, value, .. } => {
            assert_eq!(*index, 10);
            assert_eq!(value, "hLLO world");
        }
        other => panic!("unexpected action {:?}", other),
    }
}

#[test]
fn inserts_within_span_apply_in_turn() {
    let mut o = enabled();
    let x = obj(3);
    // offsets 0, 0, 2, 1 relative to index 5
    o.record_insert(x.clone(), 5, int_value(10), some_path("list"));
    o.record_insert(x.clone(), 5, int_value(11), None);
    o.record_insert(x.clone(), 7, int_value(12), None);
    o.record_insert(x.clone(), 6, int_value(13), None);
    let mut expected: Vec<Value> = Vec::new();
    expected.insert(0, int_value(10));
    expected.insert(0, int_value(11));
    expected.insert(2, int_value(12));
    expected.insert(1, int_value(13));
    let patches = o.take_patches();
    assert_eq!(only_action(&patches), &PatchAction::Insert { obj: x, index: 5, values: expected });
}

#[test]
fn insert_past_span_or_on_other_object_starts_new_patch() {
    let mut o = enabled();
    o.record_insert(obj(3), 0, int_value(1), some_path("a"));
    o.record_insert(obj(3), 2, int_value(2), some_path("a"));
    o.record_insert(obj(4), 0, int_value(3), some_path("b"));
    assert_eq!(o.len(), 3);
    let patches = o.take_patches();
    assert_eq!(patches[1].action, PatchAction::Insert { obj: obj(3), index: 2, values: vec![int_value(2)] });
    assert_eq!(patches[2].action, PatchAction::Insert { obj: obj(4), index: 0, values: vec![int_value(3)] });
}

#[test]
fn deletions_at_same_index_lengthen_one_patch() {
    let mut o = enabled();
    let x = obj(5);
    o.record_delete_seq(x.clone(), 2, 1, some_path("list"));
    o.record_delete_seq(x.clone(), 2, 3, None);
    o.record_delete_seq(x.clone(), 4, 1, some_path("list"));
    let patches = o.take_patches();
    assert_eq!(patches.len(), 2);
    assert_eq!(patches[0].action, PatchAction::DeleteSeq { obj: x.clone(), index: 2, length: 4 });
    assert_eq!(patches[1].action, PatchAction::DeleteSeq { obj: x, index: 4, length: 1 });
}

#[test]
fn delete_reaching_past_buffered_insert_is_separate() {
    let mut o = enabled();
    let x = obj(5);
    o.record_insert(x.clone(), 0, int_value(1), some_path("list"));
    o.record_delete_seq(x.clone(), 0, 2, some_path("list"));
    let patches = o.take_patches();
    assert_eq!(patches.len(), 2);
    assert_eq!(patches[1].action, PatchAction::DeleteSeq { obj: x, index: 0, length: 2 });
}

#[test]
fn point_operations_are_never_merged() {
    let mut o = enabled();
    let m = obj(2);
    let key = Prop::Key { value: "n".to_string() };
    o.record_put(m.clone(), key.clone(), int_value(1), some_path("m"));
    o.record_put(m.clone(), key.clone(), int_value(2), some_path("m"));
    o.record_increment(m.clone(), key.clone(), 5, some_path("m"));
    o.record_increment(m.clone(), key.clone(), -2, some_path("m"));
    o.record_delete_map(m.clone(), "n".to_string(), some_path("m"));
    o.record_delete_map(m.clone(), "n".to_string(), some_path("m"));
    let patches = o.take_patches();
    assert_eq!(patches.len(), 6);
    assert_eq!(patches[0].action, PatchAction::Put { obj: m.clone(), prop: key.clone(), value: int_value(1) });
    assert_eq!(patches[3].action, PatchAction::Increment { obj: m.clone(), prop: key, value: -2 });
    assert_eq!(patches[5].action, PatchAction::DeleteMap { obj: m, key: "n".to_string() });
}

#[test]
fn unlocated_events_are_dropped() {
    let mut o = enabled();
    o.record_put(obj(2), Prop::Index { value: 0 }, int_value(1), None);
    o.record_insert(obj(2), 0, int_value(1), None);
    o.record_splice_text(obj(2), 0, "x", None);
    o.record_delete_seq(obj(2), 0, 1, None);
    o.record_delete_map(obj(2), "k".to_string(), None);
    o.record_increment(obj(2), Prop::Index { value: 0 }, 1, None);
    assert_eq!(o.len(), 0);
}

#[test]
fn disabled_observer_ignores_events() {
    let mut o = Observer::new();
    assert!(!o.is_enabled());
    o.record_insert(obj(1), 0, int_value(1), some_path("l"));
    o.record_put(obj(1), Prop::Index { value: 0 }, int_value(1), some_path("l"));
    assert_eq!(o.len(), 0);
    assert!(o.take_patches().is_empty());
}

#[test]
fn disable_discards_buffer() {
    let mut o = enabled();
    o.record_insert(obj(1), 0, int_value(1), some_path("l"));
    o.record_put(obj(2), Prop::Index { value: 0 }, int_value(1), some_path("l"));
    assert!(o.enable(false));
    assert!(o.take_patches().is_empty());
    assert!(!o.enable(true));
    assert!(o.enable(true));
}

#[test]
fn drain_keeps_order_and_empties() {
    let mut o = enabled();
    o.record_put(obj(1), Prop::Index { value: 0 }, int_value(1), some_path("a"));
    o.record_delete_map(obj(2), "k".to_string(), some_path("b"));
    o.record_insert(obj(3), 0, int_value(3), some_path("c"));
    let patches = o.take_patches();
    assert_eq!(patches.len(), 3);
    assert!(matches!(patches[0].action, PatchAction::Put { .. }));
    assert!(matches!(patches[1].action, PatchAction::DeleteMap { .. }));
    assert!(matches!(patches[2].action, PatchAction::Insert { .. }));
    assert!(o.is_enabled());
    assert!(o.take_patches().is_empty());
}

#[test]
fn branch_then_merge_appends_after_parent() {
    let mut parent = enabled();
    parent.record_put(obj(1), Prop::Index { value: 0 }, int_value(1), some_path("p"));
    parent.record_put(obj(1), Prop::Index { value: 1 }, int_value(2), some_path("p"));
    let mut child = parent.branch();
    assert!(child.is_enabled());
    assert_eq!(child.len(), 0);
    for i in 0..3 {
        child.record_put(obj(2), Prop::Index { value: i }, int_value(10 + i as i64), some_path("c"));
    }
    parent.merge(child);
    let patches = parent.take_patches();
    assert_eq!(patches.len(), 5);
    assert_eq!(patches[1].action, PatchAction::Put { obj: obj(1), prop: Prop::Index { value: 1 }, value: int_value(2) });
    assert_eq!(patches[2].action, PatchAction::Put { obj: obj(2), prop: Prop::Index { value: 0 }, value: int_value(10) });
    assert_eq!(patches[4].action, PatchAction::Put { obj: obj(2), prop: Prop::Index { value: 2 }, value: int_value(12) });
}

#[test]
fn merge_does_not_coalesce_across_boundary() {
    let mut parent = enabled();
    parent.record_insert(obj(1), 0, int_value(1), some_path("l"));
    let mut child = parent.branch();
    child.record_insert(obj(1), 1, int_value(2), some_path("l"));
    parent.merge(child);
    assert_eq!(parent.len(), 2);
}

#[test]
fn branch_of_disabled_observer_is_disabled() {
    let o = Observer::new();
    let b = o.branch();
    assert!(!b.is_enabled());
}

fn list_doc() -> (AutoCommit, automerge::ObjId) {
    let mut doc = AutoCommit::new();
    let list = doc.put_object(automerge::ROOT, "list", automerge::ObjType::List).unwrap();
    (doc, list)
}

#[test]
fn insert_against_document_resolves_path() {
    let (mut doc, list) = list_doc();
    doc.insert(&list, 0, "a").unwrap();
    doc.insert(&list, 1, "b").unwrap();
    let x = ObjId(list.to_bytes());
    let mut o = enabled();
    o.insert(&doc, x.clone(), 0, text_value("a"));
    o.insert(&doc, x.clone(), 1, text_value("b"));
    let patches = o.take_patches();
    assert_eq!(patches.len(), 1);
    assert_eq!(
        patches[0].path,
        vec![PathElement { prop: Prop::Key { value: "list".to_string() }, obj: root() }]
    );
    assert_eq!(
        patches[0].action,
        PatchAction::Insert { obj: x.clone(), index: 0, values: vec![text_value("a"), text_value("b")] }
    );
    o.delete_seq(&doc, x.clone(), 0, 1);
    o.delete_seq(&doc, x.clone(), 0, 1);
    let patches = o.take_patches();
    assert_eq!(patches.len(), 1);
    assert_eq!(patches[0].action, PatchAction::DeleteSeq { obj: x, index: 0, length: 2 });
}

#[test]
fn nested_object_path_has_every_step() {
    let mut doc = AutoCommit::new();
    let list = doc.put_object(automerge::ROOT, "items", automerge::ObjType::List).unwrap();
    let map = doc.insert_object(&list, 0, automerge::ObjType::Map).unwrap();
    let text = doc.put_object(&map, "title", automerge::ObjType::Text).unwrap();
    doc.splice_text(&text, 0, 0, "hi").unwrap();
    let mut o = enabled();
    o.splice_text(&doc, ObjId(text.to_bytes()), 0, "h");
    o.splice_text(&doc, ObjId(text.to_bytes()), 1, "i");
    let patches = o.take_patches();
    assert_eq!(patches.len(), 1);
    assert_eq!(
        patches[0].path,
        vec![
            PathElement { prop: Prop::Key { value: "items".to_string() }, obj: root() },
            PathElement { prop: Prop::Index { value: 0 }, obj: ObjId(list.to_bytes()) },
            PathElement { prop: Prop::Key { value: "title".to_string() }, obj: ObjId(map.to_bytes()) },
        ]
    );
    match &patches[0].action {
        PatchAction::SpliceText { value, .. } => assert_eq!(value, "hi"),
        other => panic!("unexpected action {:?}", other),
    }
}

#[test]
fn point_operations_against_document() {
    let mut doc = AutoCommit::new();
    let map = doc.put_object(automerge::ROOT, "m", automerge::ObjType::Map).unwrap();
    doc.put(&map, "n", automerge::ScalarValue::counter(1)).unwrap();
    let m = ObjId(map.to_bytes());
    let key = Prop::Key { value: "n".to_string() };
    let mut o = enabled();
    o.put(&doc, m.clone(), key.clone(), int_value(1), false);
    o.expose(&doc, m.clone(), key.clone(), int_value(2), true);
    o.increment(&doc, m.clone(), key.clone(), 3);
    o.delete_map(&doc, m.clone(), "n");
    let patches = o.take_patches();
    assert_eq!(patches.len(), 4);
    let path = vec![PathElement { prop: Prop::Key { value: "m".to_string() }, obj: root() }];
    for p in &patches {
        assert_eq!(p.path, path);
    }
    assert_eq!(patches[1].action, PatchAction::Put { obj: m.clone(), prop: key.clone(), value: int_value(2) });
    assert_eq!(patches[2].action, PatchAction::Increment { obj: m.clone(), prop: key, value: 3 });
    assert_eq!(patches[3].action, PatchAction::DeleteMap { obj: m, key: "n".to_string() });
}

#[test]
fn unreachable_object_is_skipped() {
    let (mut doc, list) = list_doc();
    let inner = doc.insert_object(&list, 0, automerge::ObjType::Map).unwrap();
    doc.delete(&list, 0).unwrap();
    let mut o = enabled();
    o.put(&doc, ObjId(inner.to_bytes()), Prop::Key { value: "k".to_string() }, int_value(1), false);
    o.insert(&doc, ObjId(vec![0xff, 0xff]), 0, int_value(1));
    assert_eq!(o.len(), 0);
}

#[test]
fn root_object_has_empty_path() {
    let doc = AutoCommit::new();
    let mut o = enabled();
    o.put(&doc, root(), Prop::Key { value: "k".to_string() }, int_value(1), false);
    let patches = o.take_patches();
    assert_eq!(patches.len(), 1);
    assert!(patches[0].path.is_empty());
}

#[test]
fn merged_deletion_length_stays_representable() {
    let mut o = enabled();
    let x = obj(5);
    o.record_delete_seq(x.clone(), 0, 1, some_path("list"));
    o.record_delete_seq(x.clone(), 0, usize::MAX - 1, some_path("list"));
    assert_eq!(o.len(), 1);
    o.record_delete_seq(x.clone(), 0, 1, some_path("list"));
    let patches = o.take_patches();
    assert_eq!(patches.len(), 2);
    assert_eq!(patches[0].action, PatchAction::DeleteSeq { obj: x.clone(), index: 0, length: u64::MAX });
    assert_eq!(patches[1].action, PatchAction::DeleteSeq { obj: x, index: 0, length: 1 });
}

#[test]
fn default_observer_is_disabled_and_empty() {
    let mut o = Observer::default();
    assert!(!o.is_enabled());
    assert_eq!(o.len(), 0);
    assert!(o.take_patches().is_empty());
}

#[test]
fn deleting_multibyte_characters_from_splice() {
    let mut o = enabled();
    let t = obj(9);
    o.record_splice_text(t.clone(), 0, "añ€😀z", some_path("text"));
    o.record_delete_seq(t.clone(), 1, 3, None);
    let patches = o.take_patches();
    match only_action(&patches) {
        PatchAction::SpliceText { value, .. } => assert_eq!(value, "az"),
        other => panic!("unexpected action {:?}", other),
    }
}

#[test]
fn deleting_whole_splice_falls_back_to_previous_deletion() {
    let mut o = enabled();
    let t = obj(9);
    o.record_delete_seq(t.clone(), 2, 1, some_path("text"));
    o.record_splice_text(t.clone(), 2, "ab", some_path("text"));
    o.record_delete_seq(t.clone(), 2, 2, None);
    assert_eq!(o.len(), 1);
    o.record_delete_seq(t.clone(), 2, 1, None);
    let patches = o.take_patches();
    assert_eq!(only_action(&patches), &PatchAction::DeleteSeq { obj: t, index: 2, length: 2 });
}

#[test]
fn object_values_are_carried_unchanged() {
    let mut o = enabled();
    let child = Value::Object { typ: am_observer::ObjType::Text, id: obj(42) };
    let float = Value::Scalar { value: ScalarValue::F64 { bits: 1.5f64.to_bits() } };
    o.record_insert(obj(1), 0, child.clone(), some_path("l"));
    o.record_insert(obj(1), 1, float.clone(), None);
    let patches = o.take_patches();
    assert_eq!(only_action(&patches), &PatchAction::Insert { obj: obj(1), index: 0, values: vec![child, float] });
}
