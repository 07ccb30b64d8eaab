//! Notification classification and decoding, status types, jobs, and
//! the JSON text boundary against the real outside crate.

use maa_framework::common::{
    check_bool, ActionDetail, ActionEnum, AlgorithmEnum, MaaStatus, Point,
    RecognitionDetail, Rect as CRect,
};
use maa_framework::define::{Action, Algorithm, Rect, Status};
use maa_framework::error::MaaError;
use maa_framework::event_sink::parse_category;
use maa_framework::job::Job;
use maa_framework::json::JsonValue;
use maa_framework::jsonio::{parse_json, to_json_text};
use maa_framework::pipeline::{
    default_detector, default_duration_list, default_enabled, default_max_hit,
    default_order_by, default_post_delay, default_pre_delay, default_rate_limit,
    default_repeat, default_threshold, default_timeout, default_wait_method,
    default_wait_threshold, default_wait_time, Number,
};
use maa_framework::notification::{
    decode_notification, decode_notification_text, parse_notification_type,
    parse_resource_loading, NotificationDetail, NotificationType,
};

fn obj(fields: Vec<(&str, JsonValue)>) -> JsonValue {
    JsonValue::Obj(
        fields.into_iter().map(|(k, v)| (k.to_owned(), v)).collect(),
    )
}

fn s(text: &str) -> JsonValue {
    JsonValue::Str(text.to_owned())
}

#[test]
fn classify_by_suffix() {
    assert_eq!(
        parse_notification_type("Tasker.Task.Starting"),
        NotificationType::Starting
    );
    assert_eq!(
        parse_notification_type("Tasker.Task.Succeeded"),
        NotificationType::Succeeded
    );
    assert_eq!(
        parse_notification_type("Node.Action.Failed"),
        NotificationType::Failed
    );
    assert_eq!(
        parse_notification_type("Something.Else"),
        NotificationType::Unknown
    );
    assert_eq!(parse_notification_type(""), NotificationType::Unknown);
}

#[test]
fn decode_resource_loading_event() {
    let payload = obj(vec![
        ("res_id", JsonValue::Int(11)),
        ("hash", s("abc123")),
        ("path", s("/bundle")),
    ]);
    match decode_notification("Resource.Loading.Succeeded", &payload) {
        NotificationDetail::ResourceLoading(d) => {
            assert_eq!(d.res_id, 11);
            assert_eq!(d.hash, "abc123");
            assert_eq!(d.path, "/bundle");
        },
        other => panic!("wrong detail: {:?}", other),
    }
}

#[test]
fn decode_tasker_task_event() {
    let payload = obj(vec![
        ("task_id", JsonValue::Int(5)),
        ("entry", s("Entry")),
        ("uuid", s("dev-1")),
        ("hash", s("ffff")),
    ]);
    match decode_notification("Tasker.Task.Starting", &payload) {
        NotificationDetail::TaskerTask(d) => {
            assert_eq!(d.task_id, 5);
            assert_eq!(d.entry, "Entry");
        },
        other => panic!("wrong detail: {:?}", other),
    }
}

#[test]
fn decode_node_events() {
    let reco = obj(vec![
        ("task_id", JsonValue::Int(1)),
        ("reco_id", JsonValue::Int(2)),
        ("name", s("A")),
        ("focus", JsonValue::Null),
    ]);
    match decode_notification("Node.Recognition.Succeeded", &reco) {
        NotificationDetail::NodeRecognition(d) => {
            assert_eq!(d.task_id, 1);
            assert_eq!(d.reco_id, 2);
            assert_eq!(d.name, "A");
            assert_eq!(d.focus, JsonValue::Null);
        },
        other => panic!("wrong detail: {:?}", other),
    }
    let act = obj(vec![
        ("task_id", JsonValue::Int(1)),
        ("action_id", JsonValue::Int(3)),
        ("name", s("A")),
        ("focus", JsonValue::Null),
    ]);
    assert!(matches!(
        decode_notification("Node.Action.Starting", &act),
        NotificationDetail::NodeAction(_)
    ));
    let node = obj(vec![
        ("task_id", JsonValue::Int(1)),
        ("node_id", JsonValue::Int(4)),
        ("name", s("A")),
        ("focus", obj(vec![("k", s("v"))])),
    ]);
    assert!(matches!(
        decode_notification("Node.PipelineNode.Failed", &node),
        NotificationDetail::NodePipelineNode(_)
    ));
    // The focus field is required: without it the payload is unknown.
    let missing_focus = obj(vec![
        ("task_id", JsonValue::Int(1)),
        ("reco_id", JsonValue::Int(2)),
        ("name", s("A")),
    ]);
    assert_eq!(
        decode_notification("Node.Recognition.Succeeded", &missing_focus),
        NotificationDetail::Unknown
    );
}

#[test]
fn decode_controller_action_event() {
    let payload = obj(vec![
        ("ctrl_id", JsonValue::Int(9)),
        ("uuid", s("dev-1")),
        ("action", s("click")),
        ("param", obj(vec![("x", JsonValue::Int(1))])),
    ]);
    match decode_notification("Controller.Action.Succeeded", &payload) {
        NotificationDetail::ControllerAction(d) => {
            assert_eq!(d.ctrl_id, 9);
            assert_eq!(d.action, "click");
        },
        other => panic!("wrong detail: {:?}", other),
    }
    // The param field is required.
    let missing_param = obj(vec![
        ("ctrl_id", JsonValue::Int(9)),
        ("uuid", s("dev-1")),
        ("action", s("click")),
    ]);
    assert_eq!(
        decode_notification("Controller.Action.Succeeded", &missing_param),
        NotificationDetail::Unknown
    );
}

#[test]
fn decode_next_list_event_requires_complete_entries() {
    let good = obj(vec![
        ("task_id", JsonValue::Int(1)),
        ("name", s("x")),
        (
            "list",
            JsonValue::Arr(vec![obj(vec![
                ("name", s("Next")),
                ("jump_back", JsonValue::Bool(true)),
                ("anchor", JsonValue::Bool(false)),
            ])]),
        ),
        ("focus", JsonValue::Null),
    ]);
    match decode_notification("Node.NextList.Starting", &good) {
        NotificationDetail::NodeNextList(d) => {
            assert_eq!(d.list.len(), 1);
            assert_eq!(d.list[0].name, "Next");
            assert!(d.list[0].jump_back);
            assert!(!d.list[0].anchor);
        },
        other => panic!("wrong detail: {:?}", other),
    }
    // An entry that is not a complete record makes the payload unknown.
    let bad_entry = obj(vec![
        ("task_id", JsonValue::Int(1)),
        ("name", s("x")),
        ("list", JsonValue::Arr(vec![JsonValue::Int(3)])),
        ("focus", JsonValue::Null),
    ]);
    assert_eq!(
        decode_notification("Node.NextList.Starting", &bad_entry),
        NotificationDetail::Unknown
    );
    // A missing focus does too.
    let no_focus = obj(vec![
        ("task_id", JsonValue::Int(1)),
        ("name", s("x")),
        ("list", JsonValue::Arr(vec![])),
    ]);
    assert_eq!(
        decode_notification("Node.NextList.Starting", &no_focus),
        NotificationDetail::Unknown
    );
}

#[test]
fn decode_is_best_effort_never_fails() {
    // Unknown category.
    assert_eq!(
        decode_notification("Satellite.Uplink.Starting", &JsonValue::Null),
        NotificationDetail::Unknown
    );
    // Known category, wrong payload shape.
    assert_eq!(
        decode_notification("Resource.Loading.Starting", &JsonValue::Int(3)),
        NotificationDetail::Unknown
    );
    assert!(parse_resource_loading(&JsonValue::Bool(true)).is_none());
}

#[test]
fn category_is_prefix_before_first_dot() {
    assert_eq!(
        parse_category("Resource.Loading.Starting"),
        Some("Resource")
    );
    assert_eq!(parse_category("NoDotsHere"), Some("NoDotsHere"));
}

#[test]
fn status_codes_round_trip() {
    assert_eq!(Status::from_code(1000), Status::Pending);
    assert_eq!(Status::from_code(2000), Status::Running);
    assert_eq!(Status::from_code(3000), Status::Succeeded);
    assert_eq!(Status::from_code(4000), Status::Failed);
    assert_eq!(Status::from_code(123), Status::Invalid);
    assert_eq!(Status::Succeeded.code(), 3000);
    assert!(Status::Succeeded.done());
    assert!(Status::Failed.done());
    assert!(!Status::Running.done());
    assert!(Status::Running.running());
    assert!(Status::Pending.pending());
    assert!(Status::Failed.failed());
    assert!(Status::Succeeded.succeeded());
}

#[test]
fn raw_status_names() {
    assert_eq!(MaaStatus(3000).name(), "Succeeded");
    assert_eq!(MaaStatus(4000).name(), "Failed");
    assert_eq!(MaaStatus(0).name(), "Invalid");
    assert_eq!(MaaStatus(77).name(), "Unknown");
}

#[test]
fn raw_status_predicates() {
    assert!(MaaStatus(3000).is_success());
    assert!(MaaStatus(3000).succeeded());
    assert!(MaaStatus(4000).is_failed());
    assert!(MaaStatus(4000).failed());
    assert!(MaaStatus(3000).done() && MaaStatus(4000).done());
    assert!(MaaStatus(1000).pending());
    assert!(MaaStatus(2000).running());
    assert!(!MaaStatus(0).done());
    assert_eq!(check_bool(1), Ok(()));
    assert_eq!(check_bool(0), Err(MaaError::NativeCallFailed(0)));
}

#[test]
fn job_reports_through_supplied_queries() {
    let status_fn = |_id: i64| MaaStatus(2000);
    let wait_fn = |_id: i64| MaaStatus(3000);
    let job = Job::new(42, status_fn, wait_fn);
    assert_eq!(job.id(), 42);
    assert_eq!(job.status(), Status::Running);
    assert!(job.running());
    assert!(!job.done());
    assert!(!job.succeeded());
    assert!(!job.failed());
    assert!(!job.pending());
    assert_eq!(job.wait(), Status::Succeeded);
}

#[test]
fn names_and_small_types() {
    assert_eq!(AlgorithmEnum::OCR.as_str(), "OCR");
    assert_eq!(AlgorithmEnum::TemplateMatch.as_str(), "TemplateMatch");
    assert_eq!(Algorithm::from_name("ColorMatch"), Algorithm::ColorMatch);
    assert_eq!(Algorithm::from_name("garbage"), Algorithm::DirectHit);
    let p = Point::new(3, 4);
    assert_eq!((p.x, p.y), (3, 4));
    let r = Rect::new(1, 2, 3, 4);
    assert_eq!((r.x, r.y, r.width, r.height), (1, 2, 3, 4));
}

#[test]
fn json_text_parses_into_the_model() {
    let v = parse_json(
        "{\"a\": 1, \"b\": [true, null, \"x\"], \"c\": 0.5}",
    )
    .expect("valid JSON parses");
    assert_eq!(v.get("a"), Some(&JsonValue::Int(1)));
    assert_eq!(
        v.get("b"),
        Some(&JsonValue::Arr(vec![
            JsonValue::Bool(true),
            JsonValue::Null,
            JsonValue::Str("x".to_owned()),
        ]))
    );
    assert_eq!(v.get("c"), Some(&JsonValue::Num("0.5".to_owned())));
    assert!(parse_json("not json").is_none());
}

#[test]
fn json_text_round_trip() {
    let v = obj(vec![
        ("name", s("A")),
        ("count", JsonValue::Int(3)),
        ("ratio", JsonValue::Num("0.25".to_owned())),
        ("flags", JsonValue::Arr(vec![JsonValue::Bool(false)])),
    ]);
    let text = to_json_text(&v);
    let back = parse_json(&text).expect("printed JSON parses");
    assert_eq!(back.get("name"), Some(&s("A")));
    assert_eq!(back.get("count"), Some(&JsonValue::Int(3)));
    assert_eq!(back.get("ratio"), Some(&JsonValue::Num("0.25".to_owned())));
    assert_eq!(
        back.get("flags"),
        Some(&JsonValue::Arr(vec![JsonValue::Bool(false)]))
    );
}

#[test]
fn documented_defaults() {
    assert_eq!(default_wait_time(), 1);
    assert_eq!(default_wait_method(), 5);
    assert_eq!(default_wait_threshold(), Number::Dec("0.95".to_owned()));
    assert_eq!(default_rate_limit(), 1000);
    assert_eq!(default_timeout(), 20000);
    assert_eq!(default_threshold(), vec![Number::Dec("0.7".to_owned())]);
    assert_eq!(default_order_by(), "Horizontal");
    assert_eq!(default_detector(), "SIFT");
    assert_eq!(default_enabled(), true);
    assert_eq!(default_pre_delay(), 200);
    assert_eq!(default_post_delay(), 200);
    assert_eq!(default_repeat(), 1);
    assert_eq!(default_max_hit(), u32::MAX);
    assert_eq!(default_duration_list(), vec![200]);
}

#[test]
fn error_messages_are_not_empty() {
    assert!(!MaaError::InvalidConfig(None).message().is_empty());
    assert!(!MaaError::InvalidHandle.message().is_empty());
    assert!(!MaaError::NativeCallFailed(7).message().is_empty());
}

#[test]
fn engine_action_names_parse() {
    assert_eq!(Action::from_name("Click"), Action::Click);
    assert_eq!(Action::from_name("StopTask"), Action::StopTask);
    assert_eq!(Action::from_name("whatever"), Action::DoNothing);
    assert_eq!(ActionEnum::Shell.as_str(), "Shell");
    assert_eq!(ActionEnum::LongPressKey.as_str(), "LongPressKey");
}

#[test]
fn action_detail_casts_decode_payloads() {
    let point = obj(vec![("x", JsonValue::Int(10)), ("y", JsonValue::Int(20))]);
    let click = ActionDetail {
        node_name: "A".to_owned(),
        action: "Click".to_owned(),
        box_rect: CRect { x: 0, y: 0, width: 1, height: 1 },
        success: true,
        detail: obj(vec![("point", point), ("contact", JsonValue::Int(1))]),
    };
    let c = click.as_click_result().expect("click payload decodes");
    assert_eq!((c.point.x, c.point.y, c.contact), (10, 20, 1));
    // A payload missing a required field decodes to nothing.
    let broken = ActionDetail { detail: obj(vec![("contact", JsonValue::Int(1))]), ..click };
    assert!(broken.as_click_result().is_none());

    let scroll = ActionDetail {
        node_name: "A".to_owned(),
        action: "Scroll".to_owned(),
        box_rect: CRect { x: 0, y: 0, width: 1, height: 1 },
        success: true,
        detail: obj(vec![("dx", JsonValue::Int(-3)), ("dy", JsonValue::Int(7))]),
    };
    let sc = scroll.as_scroll_result().expect("scroll payload decodes");
    assert_eq!((sc.dx, sc.dy), (-3, 7));

    let keys = ActionDetail {
        node_name: "A".to_owned(),
        action: "ClickKey".to_owned(),
        box_rect: CRect { x: 0, y: 0, width: 1, height: 1 },
        success: true,
        detail: obj(vec![(
            "keycode",
            JsonValue::Arr(vec![JsonValue::Int(32), JsonValue::Int(13)]),
        )]),
    };
    let k = keys.as_click_key_result().expect("key payload decodes");
    assert_eq!(k.keycode, vec![32, 13]);

    let shell = ActionDetail {
        node_name: "A".to_owned(),
        action: "Shell".to_owned(),
        box_rect: CRect { x: 0, y: 0, width: 1, height: 1 },
        success: true,
        detail: obj(vec![
            ("cmd", s("ls")),
            ("timeout", JsonValue::Int(5000)),
            ("success", JsonValue::Bool(true)),
            ("output", s("ok")),
        ]),
    };
    let sh = shell.as_shell_result().expect("shell payload decodes");
    assert_eq!(sh.cmd, "ls");
    assert_eq!(sh.timeout, 5000);
    assert!(sh.success);
    assert_eq!(sh.output, "ok");
}

#[test]
fn swipe_detail_casts_apply_defaults() {
    let swipe_payload = obj(vec![
        (
            "begin",
            obj(vec![("x", JsonValue::Int(1)), ("y", JsonValue::Int(2))]),
        ),
        (
            "end",
            JsonValue::Arr(vec![obj(vec![
                ("x", JsonValue::Int(3)),
                ("y", JsonValue::Int(4)),
            ])]),
        ),
        ("contact", JsonValue::Int(0)),
    ]);
    let d = ActionDetail {
        node_name: "A".to_owned(),
        action: "Swipe".to_owned(),
        box_rect: CRect { x: 0, y: 0, width: 1, height: 1 },
        success: true,
        detail: swipe_payload.clone(),
    };
    let sw = d.as_swipe_result().expect("swipe payload decodes");
    assert_eq!((sw.begin.x, sw.begin.y), (1, 2));
    assert_eq!(sw.end.len(), 1);
    assert_eq!((sw.end[0].x, sw.end[0].y), (3, 4));
    // Defaulted fields.
    assert!(sw.end_hold.is_empty());
    assert!(sw.duration.is_empty());
    assert!(!sw.only_hover);
    assert_eq!(sw.starting, 0);

    let multi = ActionDetail {
        node_name: "A".to_owned(),
        action: "MultiSwipe".to_owned(),
        box_rect: CRect { x: 0, y: 0, width: 1, height: 1 },
        success: true,
        detail: obj(vec![(
            "swipes",
            JsonValue::Arr(vec![swipe_payload]),
        )]),
    };
    let m = multi.as_multi_swipe_result().expect("multi-swipe decodes");
    assert_eq!(m.swipes.len(), 1);
    assert_eq!((m.swipes[0].begin.x, m.swipes[0].begin.y), (1, 2));
}

#[test]
fn recognition_detail_casts_decode_payloads() {
    let d = RecognitionDetail {
        node_name: "A".to_owned(),
        algorithm: "FeatureMatch".to_owned(),
        hit: true,
        box_rect: CRect { x: 0, y: 0, width: 1, height: 1 },
        detail: obj(vec![
            (
                "box",
                JsonValue::Arr(vec![
                    JsonValue::Int(1),
                    JsonValue::Int(2),
                    JsonValue::Int(3),
                    JsonValue::Int(4),
                ]),
            ),
            ("count", JsonValue::Int(9)),
        ]),
    };
    let f = d.as_feature_match_result().expect("feature payload decodes");
    assert_eq!(f.box_rect, (1, 2, 3, 4));
    assert_eq!(f.count, 9);
    let c = d.as_color_match_result().expect("same shape for color match");
    assert_eq!(c.count, 9);

    let custom = RecognitionDetail {
        detail: obj(vec![
            (
                "box",
                JsonValue::Arr(vec![
                    JsonValue::Int(5),
                    JsonValue::Int(6),
                    JsonValue::Int(7),
                    JsonValue::Int(8),
                ]),
            ),
            ("detail", s("anything")),
        ]),
        ..d
    };
    let cu = custom.as_custom_result().expect("custom payload decodes");
    assert_eq!(cu.box_rect, (5, 6, 7, 8));
    assert_eq!(cu.detail, s("anything"));
    // A missing box decodes to nothing.
    let broken = RecognitionDetail {
        detail: obj(vec![("count", JsonValue::Int(9))]),
        node_name: "A".to_owned(),
        algorithm: "FeatureMatch".to_owned(),
        hit: true,
        box_rect: CRect { x: 0, y: 0, width: 1, height: 1 },
    };
    assert!(broken.as_feature_match_result().is_none());
}

#[test]
fn decode_notification_from_text() {
    let d = decode_notification_text(
        "Resource.Loading.Succeeded",
        "{\"res_id\": 4, \"hash\": \"h\", \"path\": \"/p\"}",
    );
    match d {
        NotificationDetail::ResourceLoading(r) => {
            assert_eq!(r.res_id, 4);
            assert_eq!(r.hash, "h");
            assert_eq!(r.path, "/p");
        },
        other => panic!("wrong detail: {:?}", other),
    }
    // Text that is not JSON reads as unknown, never as an error.
    assert_eq!(
        decode_notification_text("Resource.Loading.Succeeded", "garbage"),
        NotificationDetail::Unknown
    );
}
