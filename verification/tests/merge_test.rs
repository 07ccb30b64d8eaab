//! Merge engine, target codec and next-list parser behavior on
//! concrete values.

use maa_framework::error::MaaError;
use maa_framework::json::JsonValue;
use maa_framework::merge::merge;
use maa_framework::nextlist::{parse_next_entry, NodeAttr};
use maa_framework::pipeline::{Number, Target};

fn obj(fields: Vec<(&str, JsonValue)>) -> JsonValue {
    JsonValue::Obj(
        fields.into_iter().map(|(k, v)| (k.to_owned(), v)).collect(),
    )
}

fn s(text: &str) -> JsonValue {
    JsonValue::Str(text.to_owned())
}

fn get<'a>(v: &'a JsonValue, key: &str) -> &'a JsonValue {
    v.get(key).expect("field must exist")
}

#[test]
fn merge_and_inheritance_keeps_all_of() {
    // A node whose recognition is a conjunction with two branches.
    let base_patch = obj(vec![(
        "recognition",
        obj(vec![
            ("type", s("And")),
            (
                "param",
                obj(vec![
                    (
                        "all_of",
                        JsonValue::Arr(vec![s("NodeA"), s("NodeB")]),
                    ),
                    ("box_index", JsonValue::Int(1)),
                ]),
            ),
        ]),
    )]);
    let stored = merge(None, &base_patch).expect("base merge must succeed");

    // Override only box_index; all_of must survive.
    let patch = obj(vec![(
        "recognition",
        obj(vec![("param", obj(vec![("box_index", JsonValue::Int(0))]))]),
    )]);
    let merged = merge(Some(&stored), &patch).expect("patch merge must succeed");

    let reco = get(&merged, "recognition");
    assert_eq!(get(reco, "type"), &s("And"));
    let param = get(reco, "param");
    assert_eq!(
        get(param, "all_of"),
        &JsonValue::Arr(vec![s("NodeA"), s("NodeB")])
    );
    assert_eq!(get(param, "box_index"), &JsonValue::Int(0));
}

#[test]
fn merge_empty_patch_is_identity() {
    let base_patch = obj(vec![
        ("recognition", s("OCR")),
        ("expected", JsonValue::Arr(vec![s("X")])),
        ("action", s("Click")),
        ("timeout", JsonValue::Int(500)),
        ("custom_data", JsonValue::Int(123)),
    ]);
    let once = merge(None, &base_patch).expect("first merge must succeed");
    let twice = merge(Some(&once), &obj(vec![])).expect("empty merge must succeed");
    assert_eq!(once, twice);
}

#[test]
fn merge_empty_patch_after_patch_is_identity() {
    let base = merge(
        None,
        &obj(vec![("recognition", s("And")), ("all_of", JsonValue::Arr(vec![s("A")]))]),
    )
    .expect("base merge");
    let patch = obj(vec![(
        "recognition",
        obj(vec![("param", obj(vec![("box_index", JsonValue::Int(2))]))]),
    )]);
    let m = merge(Some(&base), &patch).expect("patch merge");
    let m2 = merge(Some(&m), &obj(vec![])).expect("empty merge");
    assert_eq!(m, m2);
}

#[test]
fn merge_flat_params_move_into_param() {
    let stored = merge(
        None,
        &obj(vec![
            ("recognition", s("OCR")),
            ("expected", JsonValue::Arr(vec![s("Hello")])),
            ("timeout", JsonValue::Int(777)),
        ]),
    )
    .expect("merge must succeed");
    // The flat OCR parameter moved under recognition.param; the node
    // key stayed at the top level.
    let reco = get(&stored, "recognition");
    assert_eq!(get(reco, "type"), &s("OCR"));
    assert_eq!(
        get(get(reco, "param"), "expected"),
        &JsonValue::Arr(vec![s("Hello")])
    );
    assert!(stored.get("expected").is_none());
    assert_eq!(get(&stored, "timeout"), &JsonValue::Int(777));
}

#[test]
fn merge_kind_change_discards_old_params() {
    let base = merge(
        None,
        &obj(vec![
            ("recognition", s("OCR")),
            ("expected", JsonValue::Arr(vec![s("X")])),
        ]),
    )
    .expect("base merge");
    let m = merge(Some(&base), &obj(vec![("recognition", s("DirectHit"))]))
        .expect("kind change merge");
    let reco = get(&m, "recognition");
    assert_eq!(get(reco, "type"), &s("DirectHit"));
    assert!(get(reco, "param").get("expected").is_none());
}

#[test]
fn merge_same_kind_keeps_params() {
    let base = merge(
        None,
        &obj(vec![
            ("recognition", s("OCR")),
            ("expected", JsonValue::Arr(vec![s("X")])),
        ]),
    )
    .expect("base merge");
    let m = merge(Some(&base), &obj(vec![("recognition", s("OCR"))]))
        .expect("same kind merge");
    let reco = get(&m, "recognition");
    assert_eq!(
        get(get(reco, "param"), "expected"),
        &JsonValue::Arr(vec![s("X")])
    );
}

#[test]
fn merge_unknown_recognition_kind_fails() {
    let r = merge(None, &obj(vec![("recognition", s("NotAKind"))]));
    assert_eq!(r, Err(MaaError::InvalidConfig(None)));
}

#[test]
fn merge_unknown_action_kind_fails() {
    let r = merge(
        None,
        &obj(vec![("action", obj(vec![("type", s("Sing"))]))]),
    );
    assert_eq!(r, Err(MaaError::InvalidConfig(None)));
}

#[test]
fn merge_malformed_next_entry_names_position() {
    let r = merge(
        None,
        &obj(vec![(
            "next",
            JsonValue::Arr(vec![s("Fine"), JsonValue::Int(3)]),
        )]),
    );
    assert_eq!(r, Err(MaaError::InvalidConfig(Some(1))));
}

#[test]
fn merge_normalizes_next_entries() {
    let stored = merge(
        None,
        &obj(vec![(
            "next",
            JsonValue::Arr(vec![s("Plain"), s("[JumpBack]Back")]),
        )]),
    )
    .expect("merge must succeed");
    let next = match get(&stored, "next") {
        JsonValue::Arr(xs) => xs,
        other => panic!("next must be an array, got {:?}", other),
    };
    assert_eq!(next.len(), 2);
    assert_eq!(get(&next[0], "name"), &s("Plain"));
    assert_eq!(get(&next[0], "jump_back"), &JsonValue::Bool(false));
    assert_eq!(get(&next[1], "name"), &s("Back"));
    assert_eq!(get(&next[1], "jump_back"), &JsonValue::Bool(true));
}

#[test]
fn merge_preserves_unknown_keys() {
    let stored = merge(
        None,
        &obj(vec![("custom_data", JsonValue::Int(123))]),
    )
    .expect("merge must succeed");
    assert_eq!(get(&stored, "custom_data"), &JsonValue::Int(123));
}

#[test]
fn parse_next_entry_jump_back_prefix() {
    let r = parse_next_entry(&s("[JumpBack]Foo")).expect("prefixed entry parses");
    assert_eq!(
        r,
        NodeAttr { name: "Foo".to_owned(), jump_back: true, anchor: false }
    );
}

#[test]
fn parse_next_entry_anchor_prefix() {
    let r = parse_next_entry(&s("[Anchor]Bar")).expect("prefixed entry parses");
    assert_eq!(
        r,
        NodeAttr { name: "Bar".to_owned(), jump_back: false, anchor: true }
    );
}

#[test]
fn parse_next_entry_object_form() {
    let entry = obj(vec![("name", s("Foo")), ("anchor", JsonValue::Bool(true))]);
    let r = parse_next_entry(&entry).expect("object entry parses");
    assert_eq!(
        r,
        NodeAttr { name: "Foo".to_owned(), jump_back: false, anchor: true }
    );
}

#[test]
fn parse_next_entry_plain_name() {
    let r = parse_next_entry(&s("Hello")).expect("plain entry parses");
    assert_eq!(
        r,
        NodeAttr { name: "Hello".to_owned(), jump_back: false, anchor: false }
    );
}

#[test]
fn parse_next_entry_unknown_prefix_fails() {
    assert_eq!(
        parse_next_entry(&s("[Sideways]Foo")),
        Err(MaaError::InvalidConfig(None))
    );
    assert_eq!(
        parse_next_entry(&JsonValue::Int(7)),
        Err(MaaError::InvalidConfig(None))
    );
}

#[test]
fn target_point_round_trip() {
    let t = Target::Point((12, -34));
    let encoded = t.to_json();
    assert_eq!(
        encoded,
        JsonValue::Arr(vec![JsonValue::Int(12), JsonValue::Int(-34)])
    );
    let back = Target::from_json(&encoded).expect("point decodes");
    assert_eq!(back, Target::Point((12, -34)));
}

#[test]
fn target_two_element_array_is_point() {
    let v = JsonValue::Arr(vec![JsonValue::Int(1), JsonValue::Int(2)]);
    assert_eq!(Target::from_json(&v), Ok(Target::Point((1, 2))));
}

#[test]
fn target_four_element_array_is_rect() {
    let v = JsonValue::Arr(vec![
        JsonValue::Int(1),
        JsonValue::Int(2),
        JsonValue::Int(3),
        JsonValue::Int(4),
    ]);
    assert_eq!(Target::from_json(&v), Ok(Target::Rect((1, 2, 3, 4))));
}

#[test]
fn target_other_lengths_are_rejected() {
    let v = JsonValue::Arr(vec![
        JsonValue::Int(1),
        JsonValue::Int(2),
        JsonValue::Int(3),
    ]);
    assert_eq!(Target::from_json(&v), Err(MaaError::InvalidConfig(None)));
}

#[test]
fn target_bool_and_name_round_trip() {
    let t = Target::Bool(true);
    assert_eq!(Target::from_json(&t.to_json()), Ok(Target::Bool(true)));
    let n = Target::Name("NodeX".to_owned());
    assert_eq!(
        Target::from_json(&n.to_json()),
        Ok(Target::Name("NodeX".to_owned()))
    );
}

#[test]
fn number_keeps_decimal_text() {
    let n = Number::Dec("0.8".to_owned());
    assert_eq!(n.clone(), Number::Dec("0.8".to_owned()));
    assert_ne!(n, Number::Int(0));
}
