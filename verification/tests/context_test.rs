//! Execution context behavior: overrides, typed reads, anchors, hit
//! counters, cloning and handle validity.

use maa_framework::context::{Context, Task};
use maa_framework::define::Status;
use maa_framework::error::MaaError;
use maa_framework::json::JsonValue;
use maa_framework::pipeline::{ActionType, Number, RecognitionType, Target};

fn obj(fields: Vec<(&str, JsonValue)>) -> JsonValue {
    JsonValue::Obj(
        fields.into_iter().map(|(k, v)| (k.to_owned(), v)).collect(),
    )
}

fn s(text: &str) -> JsonValue {
    JsonValue::Str(text.to_owned())
}

fn running_task() -> Task {
    let mut task = Task::new(7);
    task.set_status(Status::Running);
    task
}

fn context_with(task: &Task, nodes: Vec<(&str, JsonValue)>) -> Context {
    Context::new(task, &obj(nodes)).expect("pipeline must be valid")
}

#[test]
fn override_preserves_siblings() {
    let task = running_task();
    let mut ctx = context_with(
        &task,
        vec![(
            "A",
            obj(vec![
                ("recognition", s("OCR")),
                ("expected", JsonValue::Arr(vec![s("X")])),
                ("action", s("Click")),
            ]),
        )],
    );
    ctx.override_pipeline(&task, &obj(vec![("A", obj(vec![("timeout", JsonValue::Int(999))]))]))
        .expect("override must succeed");
    let node = ctx
        .get_node_object(&task, "A")
        .expect("running task")
        .expect("node A exists");
    assert_eq!(node.recognition.recognition_type, RecognitionType::OCR);
    assert_eq!(
        node.recognition.param.expected,
        Some(vec![s("X")])
    );
    assert_eq!(node.action.action_type, ActionType::Click);
    assert_eq!(node.timeout, 999);
}

#[test]
fn unknown_node_lookup_is_none_not_error() {
    let task = running_task();
    let ctx = context_with(&task, vec![("A", obj(vec![]))]);
    let r = ctx.get_node_object(&task, "DoesNotExist");
    assert_eq!(r, Ok(None));
    let d = ctx.get_node_data(&task, "DoesNotExist");
    assert_eq!(d, Ok(None));
}

#[test]
fn malformed_recognition_type_leaves_node_unchanged() {
    let task = running_task();
    let mut ctx = context_with(
        &task,
        vec![("A", obj(vec![("recognition", s("OCR"))]))],
    );
    let before = ctx
        .get_node_data(&task, "A")
        .expect("running task")
        .expect("node A exists");
    let r = ctx.override_pipeline(
        &task,
        &obj(vec![(
            "A",
            obj(vec![("recognition", obj(vec![("type", s("NotAKind"))]))]),
        )]),
    );
    assert_eq!(r, Err(MaaError::InvalidConfig(None)));
    let after = ctx
        .get_node_data(&task, "A")
        .expect("running task")
        .expect("node A still exists");
    assert_eq!(before, after);
}

#[test]
fn hit_counts_start_at_zero_count_up_and_reset() {
    let mut task = running_task();
    let ctx = context_with(&task, vec![("A", obj(vec![]))]);
    assert_eq!(ctx.get_hit_count(&task, "A"), Ok(0));
    for _ in 0..5 {
        task.record_hit("A");
    }
    assert_eq!(ctx.get_hit_count(&task, "A"), Ok(5));
    assert_eq!(ctx.get_hit_count(&task, "B"), Ok(0));
    assert_eq!(ctx.clear_hit_count(&mut task, "A"), Ok(true));
    assert_eq!(ctx.get_hit_count(&task, "A"), Ok(0));
}

#[test]
fn clear_all_hit_counts_resets_every_node() {
    let mut task = running_task();
    let ctx = context_with(&task, vec![]);
    task.record_hit("A");
    task.record_hit("B");
    task.record_hit("B");
    assert_eq!(ctx.get_hit_count(&task, "B"), Ok(2));
    assert_eq!(ctx.clear_all_hit_counts(&mut task), Ok(true));
    assert_eq!(ctx.get_hit_count(&task, "A"), Ok(0));
    assert_eq!(ctx.get_hit_count(&task, "B"), Ok(0));
}

#[test]
fn hit_counts_are_shared_between_cloned_contexts() {
    let mut task = running_task();
    let ctx = context_with(&task, vec![]);
    let clone = ctx.clone_context(&task).expect("clone while running");
    task.record_hit("N");
    assert_eq!(ctx.get_hit_count(&task, "N"), Ok(1));
    assert_eq!(clone.get_hit_count(&task, "N"), Ok(1));
}

#[test]
fn anchors_are_context_scoped() {
    let task = running_task();
    let mut ctx = context_with(&task, vec![]);
    assert_eq!(ctx.get_anchor(&task, "a"), Ok(None));
    assert_eq!(ctx.set_anchor(&task, "a", "NodeA"), Ok(true));
    assert_eq!(ctx.get_anchor(&task, "a"), Ok(Some("NodeA".to_owned())));
    assert_eq!(ctx.set_anchor(&task, "a", "NodeB"), Ok(true));
    assert_eq!(ctx.get_anchor(&task, "a"), Ok(Some("NodeB".to_owned())));

    // A clone seeds from the parent but mutates independently.
    let mut clone = ctx.clone_context(&task).expect("clone while running");
    assert_eq!(clone.get_anchor(&task, "a"), Ok(Some("NodeB".to_owned())));
    assert_eq!(clone.set_anchor(&task, "a", "NodeC"), Ok(true));
    assert_eq!(ctx.get_anchor(&task, "a"), Ok(Some("NodeB".to_owned())));
    assert_eq!(clone.get_anchor(&task, "a"), Ok(Some("NodeC".to_owned())));
}

#[test]
fn clone_does_not_see_later_parent_overrides() {
    let task = running_task();
    let mut ctx = context_with(&task, vec![("A", obj(vec![]))]);
    let clone = ctx.clone_context(&task).expect("clone while running");
    ctx.override_pipeline(&task, &obj(vec![("B", obj(vec![]))]))
        .expect("override must succeed");
    assert!(ctx.get_node_data(&task, "B").expect("running").is_some());
    assert_eq!(clone.get_node_data(&task, "B"), Ok(None));
}

#[test]
fn operations_fail_on_terminal_task() {
    let mut task = running_task();
    let mut ctx = context_with(&task, vec![("A", obj(vec![]))]);
    task.set_status(Status::Succeeded);
    assert_eq!(
        ctx.get_node_data(&task, "A"),
        Err(MaaError::InvalidHandle)
    );
    assert_eq!(
        ctx.override_pipeline(&task, &obj(vec![])),
        Err(MaaError::InvalidHandle)
    );
    assert_eq!(ctx.get_hit_count(&task, "A"), Err(MaaError::InvalidHandle));
    assert_eq!(
        ctx.set_anchor(&task, "a", "A"),
        Err(MaaError::InvalidHandle)
    );
}

#[test]
fn override_next_rewrites_edges() {
    let task = running_task();
    let mut ctx = context_with(
        &task,
        vec![
            ("OverrideNextTestNode", obj(vec![])),
            ("NextNode1", obj(vec![])),
            ("NextNode2", obj(vec![])),
            ("MyAnchor", obj(vec![])),
        ],
    );
    let list = vec![
        "NextNode1".to_owned(),
        "[JumpBack]NextNode2".to_owned(),
        "[Anchor]MyAnchor".to_owned(),
    ];
    assert_eq!(
        ctx.override_next(&task, "OverrideNextTestNode", &list),
        Ok(true)
    );
    let node = ctx
        .get_node_object(&task, "OverrideNextTestNode")
        .expect("running")
        .expect("node exists");
    assert_eq!(node.next.len(), 3);
    assert_eq!(node.next[0].name, "NextNode1");
    assert!(!node.next[0].jump_back);
    assert_eq!(node.next[1].name, "NextNode2");
    assert!(node.next[1].jump_back);
    assert_eq!(node.next[2].name, "MyAnchor");
    assert!(node.next[2].anchor);
}

#[test]
fn override_next_unknown_node_is_false() {
    let task = running_task();
    let mut ctx = context_with(&task, vec![]);
    let list = vec!["X".to_owned()];
    assert_eq!(ctx.override_next(&task, "Missing", &list), Ok(false));
}

#[test]
fn override_image_stores_bytes() {
    let task = running_task();
    let mut ctx = context_with(&task, vec![]);
    let image: Vec<u8> = vec![1, 2, 3, 4];
    assert_eq!(ctx.override_image(&task, "shot", &image), Ok(true));
}

#[test]
fn defaults_apply_to_empty_node() {
    let task = running_task();
    let ctx = context_with(&task, vec![("TestObjectNode", obj(vec![]))]);
    let node = ctx
        .get_node_object(&task, "TestObjectNode")
        .expect("running")
        .expect("node exists");
    assert_eq!(node.recognition.recognition_type, RecognitionType::DirectHit);
    assert_eq!(node.action.action_type, ActionType::DoNothing);
    assert_eq!(node.enabled, true);
    assert_eq!(node.pre_delay, 200);
    assert_eq!(node.post_delay, 200);
    assert_eq!(node.repeat, 1);
    assert_eq!(node.rate_limit, 1000);
    assert_eq!(node.timeout, 20000);
    assert_eq!(node.max_hit, u32::MAX);
    assert!(node.next.is_empty());
    assert!(node.focus.is_none());
}

#[test]
fn full_override_reads_back_typed() {
    let task = running_task();
    let mut ctx = context_with(
        &task,
        vec![("NodeA", obj(vec![])), ("NodeB", obj(vec![]))],
    );
    let patch = obj(vec![(
        "OverrideTestNode",
        obj(vec![
            ("recognition", s("OCR")),
            ("expected", JsonValue::Arr(vec![s("TestText")])),
            ("action", s("Click")),
            (
                "target",
                JsonValue::Arr(vec![
                    JsonValue::Int(100),
                    JsonValue::Int(200),
                    JsonValue::Int(50),
                    JsonValue::Int(50),
                ]),
            ),
            ("next", JsonValue::Arr(vec![s("NodeA"), s("NodeB")])),
            ("timeout", JsonValue::Int(5000)),
            ("rate_limit", JsonValue::Int(500)),
            ("pre_delay", JsonValue::Int(100)),
            ("post_delay", JsonValue::Int(300)),
            ("max_hit", JsonValue::Int(3)),
            ("enabled", JsonValue::Bool(true)),
            ("inverse", JsonValue::Bool(false)),
            ("anchor", JsonValue::Arr(vec![s("my_anchor")])),
            ("focus", obj(vec![("key", s("value"))])),
            ("attach", obj(vec![("custom_data", JsonValue::Int(123))])),
        ]),
    )]);
    ctx.override_pipeline(&task, &patch).expect("override must succeed");
    let node = ctx
        .get_node_object(&task, "OverrideTestNode")
        .expect("running")
        .expect("node exists");
    assert_eq!(node.recognition.recognition_type, RecognitionType::OCR);
    assert_eq!(node.action.action_type, ActionType::Click);
    assert_eq!(node.timeout, 5000);
    assert_eq!(node.rate_limit, 500);
    assert_eq!(node.pre_delay, 100);
    assert_eq!(node.post_delay, 300);
    assert_eq!(node.max_hit, 3);
    assert_eq!(node.enabled, true);
    assert_eq!(node.inverse, false);
    assert_eq!(node.anchor, vec!["my_anchor".to_owned()]);
    let attach = node.attach.as_ref().expect("attach exists");
    assert_eq!(
        attach.get("custom_data"),
        Some(&JsonValue::Int(123))
    );
    assert_eq!(node.next.len(), 2);
    assert_eq!(node.next[0].name, "NodeA");
    assert_eq!(node.next[1].name, "NodeB");
}

#[test]
fn scalar_threshold_reads_as_one_element_list() {
    let task = running_task();
    let ctx = context_with(
        &task,
        vec![(
            "RecoTemplateMatch",
            obj(vec![
                ("recognition", s("TemplateMatch")),
                ("template", s("test.png")),
                ("threshold", JsonValue::Num("0.8".to_owned())),
            ]),
        )],
    );
    let node = ctx
        .get_node_object(&task, "RecoTemplateMatch")
        .expect("running")
        .expect("node exists");
    assert_eq!(
        node.recognition.recognition_type,
        RecognitionType::TemplateMatch
    );
    assert_eq!(
        node.recognition.param.template,
        Some(vec!["test.png".to_owned()])
    );
    assert_eq!(
        node.recognition.param.threshold,
        Some(vec![Number::Dec("0.8".to_owned())])
    );
}

#[test]
fn list_threshold_reads_back_unchanged() {
    let task = running_task();
    let ctx = context_with(
        &task,
        vec![(
            "RecoNNDetect",
            obj(vec![
                ("recognition", s("NeuralNetworkDetect")),
                ("model", s("detect.onnx")),
                (
                    "threshold",
                    JsonValue::Arr(vec![
                        JsonValue::Num("0.8".to_owned()),
                        JsonValue::Num("0.9".to_owned()),
                    ]),
                ),
            ]),
        )],
    );
    let node = ctx
        .get_node_object(&task, "RecoNNDetect")
        .expect("running")
        .expect("node exists");
    assert_eq!(
        node.recognition.param.threshold,
        Some(vec![
            Number::Dec("0.8".to_owned()),
            Number::Dec("0.9".to_owned()),
        ])
    );
}

#[test]
fn wait_freezes_defaults_and_overrides() {
    let task = running_task();
    let ctx = context_with(
        &task,
        vec![(
            "WaitFreezesTest",
            obj(vec![(
                "pre_wait_freezes",
                obj(vec![
                    ("time", JsonValue::Int(500)),
                    ("threshold", JsonValue::Num("0.99".to_owned())),
                    ("method", JsonValue::Int(3)),
                ]),
            )]),
        )],
    );
    let node = ctx
        .get_node_object(&task, "WaitFreezesTest")
        .expect("running")
        .expect("node exists");
    let pre = node.pre_wait_freezes.as_ref().expect("clause exists");
    assert_eq!(pre.time, 500);
    assert_eq!(pre.threshold, Number::Dec("0.99".to_owned()));
    assert_eq!(pre.method, 3);
    // Documented defaults for what the clause left out.
    assert_eq!(pre.rate_limit, 1000);
    assert_eq!(pre.timeout, 20000);
    assert!(node.post_wait_freezes.is_none());
}

#[test]
fn run_task_prepares_scoped_pipeline() {
    let mut task = running_task();
    let ctx = context_with(&task, vec![("Entry", obj(vec![]))]);
    let run = ctx
        .run_task(&mut task, "Entry", &obj(vec![("Nested", obj(vec![]))]))
        .expect("run_task must succeed");
    assert_ne!(run.task_id, 0);
    assert_eq!(run.entry, "Entry");
    // The override is scoped to the prepared run, not to the context.
    assert_eq!(ctx.get_node_data(&task, "Nested"), Ok(None));
    let names: Vec<&String> = run.pipeline.iter().map(|e| &e.0).collect();
    assert!(names.iter().any(|n| n.as_str() == "Nested"));

    let run2 = ctx
        .run_task(&mut task, "Entry", &obj(vec![]))
        .expect("second run_task");
    assert_ne!(run2.task_id, run.task_id);
}

#[test]
fn run_recognition_and_action_carry_inputs() {
    let mut task = running_task();
    let ctx = context_with(&task, vec![("Entry", obj(vec![]))]);
    let image: Vec<u8> = vec![9, 8, 7];
    let reco = ctx
        .run_recognition(&mut task, "Entry", &obj(vec![]), &image)
        .expect("run_recognition");
    assert_eq!(reco.image, image);
    assert_ne!(reco.reco_id, 0);
    let act = ctx
        .run_action(&mut task, "Entry", &obj(vec![]), (1, 2, 3, 4), "detail")
        .expect("run_action");
    assert_eq!(act.box_rect, (1, 2, 3, 4));
    assert_eq!(act.reco_detail, "detail");
}

#[test]
fn task_identity_is_stable() {
    let task = running_task();
    let ctx = context_with(&task, vec![]);
    assert_eq!(ctx.task_id(), 7);
    assert_eq!(task.id(), 7);
    let clone = ctx.clone_context(&task).expect("clone");
    assert_eq!(clone.task_id(), 7);
}

#[test]
fn override_pipeline_text_parses_and_applies() {
    let task = running_task();
    let mut ctx = context_with(&task, vec![]);
    ctx.override_pipeline_text(
        &task,
        "{\"TestDataNode\": {\"action\": \"DoNothing\"}}",
    )
    .expect("text override must succeed");
    let data = ctx
        .get_node_data(&task, "TestDataNode")
        .expect("running")
        .expect("node exists");
    let action = data.get("action").expect("action entry");
    assert_eq!(
        action.get("type"),
        Some(&JsonValue::Str("DoNothing".to_owned()))
    );
    // Text that is not JSON is a configuration error.
    assert_eq!(
        ctx.override_pipeline_text(&task, "this is not json"),
        Err(MaaError::InvalidConfig(None))
    );
}

#[test]
fn key_scalar_reads_as_one_element_list() {
    let task = running_task();
    let ctx = context_with(
        &task,
        vec![(
            "ActClickKey",
            obj(vec![
                ("action", s("ClickKey")),
                ("key", JsonValue::Int(32)),
            ]),
        )],
    );
    let node = ctx
        .get_node_object(&task, "ActClickKey")
        .expect("running")
        .expect("node exists");
    assert_eq!(node.action.action_type, ActionType::ClickKey);
    assert_eq!(node.action.param.key, Some(vec![32]));
}

#[test]
fn shell_action_keeps_flat_fields_readable() {
    let task = running_task();
    let ctx = context_with(
        &task,
        vec![(
            "ActShell",
            obj(vec![
                ("action", s("Shell")),
                ("cmd", s("ls -la")),
                ("timeout", JsonValue::Int(30000)),
            ]),
        )],
    );
    let node = ctx
        .get_node_object(&task, "ActShell")
        .expect("running")
        .expect("node exists");
    assert_eq!(node.action.action_type, ActionType::Shell);
    assert_eq!(node.action.param.cmd, Some("ls -la".to_owned()));
    // `timeout` doubles as a node-level key, so it stays at the node
    // level; the decoder's node timeout carries the value.
    assert_eq!(node.timeout, 30000);
}

#[test]
fn target_point_survives_pipeline_round_trip() {
    let task = running_task();
    let mut ctx = context_with(&task, vec![("N", obj(vec![]))]);
    // Encode a point target, push it through an override, and read the
    // merged definition back as a typed value.
    let encoded = Target::Point((123, -45)).to_json();
    let patch = obj(vec![(
        "N",
        obj(vec![("action", s("Click")), ("target", encoded)]),
    )]);
    ctx.override_pipeline(&task, &patch).expect("override must succeed");
    let node = ctx
        .get_node_object(&task, "N")
        .expect("running")
        .expect("node exists");
    assert_eq!(node.action.param.target, Some(Target::Point((123, -45))));
    // A rectangle target survives as a rectangle.
    let encoded = Target::Rect((1, 2, 3, 4)).to_json();
    let patch = obj(vec![("N", obj(vec![("target", encoded)]))]);
    ctx.override_pipeline(&task, &patch).expect("override must succeed");
    let node = ctx
        .get_node_object(&task, "N")
        .expect("running")
        .expect("node exists");
    assert_eq!(node.action.param.target, Some(Target::Rect((1, 2, 3, 4))));
}
