use am_observer::{
    assert_list, assert_map, assert_text, check_object_type, decode_change, root, valid_change,
    ChangeSet, DecodeChangeError, DocError, Mark, ObjId, ObjType, PathElement, Prop, ScalarValue,
    TextEncoding,
};
use automerge::transaction::Transactable;
use automerge::AutoCommit;

#[test]
fn root_id_is_serialized_root() {
    assert_eq!(root(), ObjId(automerge::ROOT.to_bytes()));
    assert_eq!(root().0, vec![0u8]);
}

#[test]
fn same_as_compares_bytes() {
    assert!(ObjId(vec![1, 2, 3]).same_as(&ObjId(vec![1, 2, 3])));
    assert!(!ObjId(vec![1, 2, 3]).same_as(&ObjId(vec![1, 2, 4])));
    assert!(!ObjId(vec![1, 2]).same_as(&ObjId(vec![1, 2, 3])));
}

#[test]
fn path_element_new_keeps_fields() {
    let e = PathElement::new(Prop::Index { value: 4 }, root());
    assert_eq!(e.prop, Prop::Index { value: 4 });
    assert_eq!(e.obj, root());
}

fn a_change() -> automerge::Change {
    let mut doc = AutoCommit::new();
    doc.put(automerge::ROOT, "k", "v").unwrap();
    doc.commit_with(automerge::transaction::CommitOptions::default().with_message("first").with_time(1234));
    doc.get_changes(&[]).into_iter().next().unwrap().clone()
}

#[test]
fn decode_change_reads_fields() {
    let mut am_change = a_change();
    let bytes = am_change.bytes().into_owned();
    let c = decode_change(bytes.clone()).unwrap();
    assert_eq!(c.hash.0, am_change.hash().0.to_vec());
    assert_eq!(c.hash.0.len(), 32);
    assert_eq!(c.message, Some("first".to_string()));
    assert_eq!(c.timestamp, 1234);
    assert_eq!(c.actor_id.0, am_change.actor_id().to_bytes().to_vec());
    assert!(c.deps.is_empty());
    assert!(valid_change(bytes));
}

#[test]
fn decode_change_rejects_garbage() {
    assert!(matches!(decode_change(vec![1, 2, 3]), Err(DecodeChangeError::Internal(_))));
    assert!(!valid_change(vec![1, 2, 3]));
    assert!(!valid_change(Vec::new()));
}

#[test]
fn decode_change_rejects_trailing_bytes() {
    let mut am_change = a_change();
    let mut bytes = am_change.bytes().into_owned();
    bytes.push(0);
    assert!(!valid_change(bytes));
}

#[test]
fn change_set_decode_is_empty() {
    assert_eq!(ChangeSet::new().count(), 0);
    assert_eq!(ChangeSet::default().count(), 0);
    assert_eq!(ChangeSet::decode(vec![1, 2, 3]).unwrap().count(), 0);
}

#[test]
fn object_type_checks_against_document() {
    let mut doc = AutoCommit::new();
    let list = doc.put_object(automerge::ROOT, "l", automerge::ObjType::List).unwrap();
    let text = doc.put_object(automerge::ROOT, "t", automerge::ObjType::Text).unwrap();
    let table = doc.put_object(automerge::ROOT, "tb", automerge::ObjType::Table).unwrap();
    let list = ObjId(list.to_bytes());
    let text = ObjId(text.to_bytes());
    assert!(assert_map(&doc, &root()).is_ok());
    assert!(assert_map(&doc, &ObjId(table.to_bytes())).is_ok());
    assert!(assert_list(&doc, &list).is_ok());
    assert!(assert_text(&doc, &text).is_ok());
    assert!(matches!(assert_map(&doc, &list), Err(DocError::WrongObjectType)));
    assert!(matches!(assert_list(&doc, &text), Err(DocError::WrongObjectType)));
    assert!(matches!(assert_text(&doc, &root()), Err(DocError::WrongObjectType)));
    assert!(matches!(assert_map(&doc, &ObjId(vec![0xff])), Err(DocError::Internal(_))));
}

#[test]
fn check_object_type_outcomes() {
    assert!(check_object_type(Ok(ObjType::List), ObjType::List).is_ok());
    assert!(matches!(
        check_object_type(Ok(ObjType::Text), ObjType::Mapping),
        Err(DocError::WrongObjectType)
    ));
    assert!(matches!(
        check_object_type(Err(automerge::AutomergeError::Fail), ObjType::Mapping),
        Err(DocError::Internal(automerge::AutomergeError::Fail))
    ));
}

#[test]
fn text_encoding_names() {
    assert_eq!(TextEncoding::UnicodeCodePoint.to_string(), "Unicode Scalar");
    assert_eq!(TextEncoding::Utf8CodeUnit.to_string(), "UTF-8");
    assert_eq!(TextEncoding::Utf16CodeUnit.to_string(), "UTF-16");
    assert_eq!(TextEncoding::GraphemeCluster.to_string(), "Grapheme Cluster");
}

#[test]
fn marks_from_markset_start_and_end_at_index() {
    let marks = Mark::from_markset(
        vec![
            ("bold".to_string(), ScalarValue::Boolean { value: true }),
            ("link".to_string(), ScalarValue::String { value: "x".to_string() }),
        ],
        7,
    );
    assert_eq!(marks.len(), 2);
    assert_eq!(
        marks[0],
        Mark { start: 7, end: 7, name: "bold".to_string(), value: ScalarValue::Boolean { value: true } }
    );
    assert_eq!(marks[1].name, "link");
    assert_eq!(marks[1].start, 7);
    assert!(Mark::from_markset(Vec::new(), 0).is_empty());
}
