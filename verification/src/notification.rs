//! The notification decoder.
//!
//! Event names are dot-separated category paths ending in `.Starting`,
//! `.Succeeded` or `.Failed`; classification by suffix never fails,
//! because telemetry consumers must not crash on an unexpected event
//! shape.  The accompanying payload decodes into one of a fixed set of
//! detail records, best-effort: a payload that does not match the
//! expected shape reads as nothing, never as a propagated error.

use vstd::prelude::*;

use crate::decode::{
    get_i64, get_str, get_val, lemma_map_vals_err, lemma_map_vals_ok, spec_map_vals,
};
use crate::json::{arr_view, fields_get, obj_get, JsonVal, JsonValue};
use crate::nextlist::NodeAttrV;
use crate::text::{str_has_prefix, str_has_suffix};

verus! {

/// Kind of a notification event, read from its name's suffix.
#[derive(Clone, Copy, Debug, PartialEq, Eq, Structural)]
pub enum NotificationType {
    Starting,
    Succeeded,
    Failed,
    Unknown,
}

/// Classification of an event name by suffix; anything else, malformed
/// names included, is unknown.
pub open spec fn spec_notification_type(s: Seq<char>) -> NotificationType {
    if s.len() >= 9 && s.subrange(s.len() - 9, s.len() as int) == (".Starting")@ {
        NotificationType::Starting
    } else if s.len() >= 10 && s.subrange(s.len() - 10, s.len() as int) == (".Succeeded")@ {
        NotificationType::Succeeded
    } else if s.len() >= 7 && s.subrange(s.len() - 7, s.len() as int) == (".Failed")@ {
        NotificationType::Failed
    } else {
        NotificationType::Unknown
    }
}

/// Classify an event name by its suffix; never fails.
pub fn parse_notification_type(msg: &str) -> (r: NotificationType)
    ensures
        r == spec_notification_type(msg@),
{
    proof {
        reveal_strlit(".Starting");
        reveal_strlit(".Succeeded");
        reveal_strlit(".Failed");
        broadcast use vstd::string::group_string_axioms;

        assert((".Starting")@.len() == 9);
        assert((".Succeeded")@.len() == 10);
        assert((".Failed")@.len() == 7);
    }
    if str_has_suffix(msg, ".Starting") {
        NotificationType::Starting
    } else if str_has_suffix(msg, ".Succeeded") {
        NotificationType::Succeeded
    } else if str_has_suffix(msg, ".Failed") {
        NotificationType::Failed
    } else {
        NotificationType::Unknown
    }
}

/// What a resource-loading event reports.
#[derive(Debug, PartialEq, Eq)]
pub struct ResourceLoadingDetail {
    pub res_id: i64,
    pub hash: String,
    pub path: String,
}

/// What a controller-action event reports.  Every field is required,
/// as the wire format has it.
#[derive(Debug, PartialEq)]
pub struct ControllerActionDetail {
    pub ctrl_id: i64,
    pub uuid: String,
    pub action: String,
    pub param: JsonValue,
}

/// What a task lifecycle event reports.
#[derive(Debug, PartialEq, Eq)]
pub struct TaskerTaskDetail {
    pub task_id: i64,
    pub entry: String,
    pub uuid: String,
    pub hash: String,
}

/// One entry of a reported next list.  All three fields are required,
/// as the wire format has it.
#[derive(Debug, PartialEq, Eq)]
pub struct NextListItem {
    pub name: String,
    pub jump_back: bool,
    pub anchor: bool,
}

impl View for NextListItem {
    type V = NodeAttrV;

    open spec fn view(&self) -> NodeAttrV {
        NodeAttrV { name: self.name@, jump_back: self.jump_back, anchor: self.anchor }
    }
}

impl DeepView for NextListItem {
    type V = NodeAttrV;

    open spec fn deep_view(&self) -> NodeAttrV {
        self.view()
    }
}

/// What a next-list event reports: the typed entries, and the node's
/// focus payload.  Every field is required, as the wire format has it.
#[derive(Debug, PartialEq)]
pub struct NodeNextListDetail {
    pub task_id: i64,
    pub name: String,
    pub list: Vec<NextListItem>,
    pub focus: JsonValue,
}

/// What a node recognition event reports.
#[derive(Debug, PartialEq)]
pub struct NodeRecognitionDetail {
    pub task_id: i64,
    pub reco_id: i64,
    pub name: String,
    pub focus: JsonValue,
}

/// What a node action event reports.
#[derive(Debug, PartialEq)]
pub struct NodeActionDetail {
    pub task_id: i64,
    pub action_id: i64,
    pub name: String,
    pub focus: JsonValue,
}

/// What a pipeline-node event reports.
#[derive(Debug, PartialEq)]
pub struct NodePipelineNodeDetail {
    pub task_id: i64,
    pub node_id: i64,
    pub name: String,
    pub focus: JsonValue,
}

/// Required 64-bit integer field of a payload object.
pub open spec fn spec_req_i64(fs: Seq<(Seq<char>, JsonVal)>, k: Seq<char>) -> Option<i64> {
    match obj_get(fs, k) {
        Some(JsonVal::Int(i)) => Some(i),
        _ => None,
    }
}

/// Required string field of a payload object.
pub open spec fn spec_req_str(fs: Seq<(Seq<char>, JsonVal)>, k: Seq<char>) -> Option<
    Seq<char>,
> {
    match obj_get(fs, k) {
        Some(JsonVal::Str(s)) => Some(s),
        _ => None,
    }
}

/// Decoding of a resource-loading payload.
pub open spec fn spec_resource_loading(v: JsonVal) -> Option<
    (i64, Seq<char>, Seq<char>),
> {
    match v {
        JsonVal::Obj(fs) => match (
            spec_req_i64(fs, ("res_id")@),
            spec_req_str(fs, ("hash")@),
            spec_req_str(fs, ("path")@),
        ) {
            (Some(i), Some(h), Some(p)) => Some((i, h, p)),
            _ => None,
        },
        _ => None,
    }
}

/// Decode a resource-loading payload, best-effort.
pub fn parse_resource_loading(v: &JsonValue) -> (r: Option<ResourceLoadingDetail>)
    ensures
        match spec_resource_loading(v@) {
            Some(t) => r matches Some(d) && d.res_id == t.0 && d.hash@ == t.1 && d.path@
                == t.2,
            None => r is None,
        },
{
    let fs = match v {
        JsonValue::Obj(fs) => fs,
        _ => {
            return None;
        },
    };
    let res_id = match get_i64(fs, "res_id") {
        Ok(Some(i)) => i,
        _ => {
            return None;
        },
    };
    let hash = match get_str(fs, "hash") {
        Ok(Some(s)) => s,
        _ => {
            return None;
        },
    };
    let path = match get_str(fs, "path") {
        Ok(Some(s)) => s,
        _ => {
            return None;
        },
    };
    Some(ResourceLoadingDetail { res_id, hash, path })
}

/// Decoding of a controller-action payload; the `param` field is
/// required.
pub open spec fn spec_controller_action(v: JsonVal) -> Option<
    (i64, Seq<char>, Seq<char>, JsonVal),
> {
    match v {
        JsonVal::Obj(fs) => match (
            spec_req_i64(fs, ("ctrl_id")@),
            spec_req_str(fs, ("uuid")@),
            spec_req_str(fs, ("action")@),
            obj_get(fs, ("param")@),
        ) {
            (Some(i), Some(u), Some(a), Some(p)) => Some((i, u, a, p)),
            _ => None,
        },
        _ => None,
    }
}

/// Decode a controller-action payload, best-effort.
pub fn parse_controller_action(v: &JsonValue) -> (r: Option<ControllerActionDetail>)
    ensures
        match spec_controller_action(v@) {
            Some(t) => r matches Some(d) && d.ctrl_id == t.0 && d.uuid@ == t.1 && d.action@
                == t.2 && d.param@ == t.3,
            None => r is None,
        },
{
    let fs = match v {
        JsonValue::Obj(fs) => fs,
        _ => {
            return None;
        },
    };
    let ctrl_id = match get_i64(fs, "ctrl_id") {
        Ok(Some(i)) => i,
        _ => {
            return None;
        },
    };
    let uuid = match get_str(fs, "uuid") {
        Ok(Some(s)) => s,
        _ => {
            return None;
        },
    };
    let action = match get_str(fs, "action") {
        Ok(Some(s)) => s,
        _ => {
            return None;
        },
    };
    let param = match get_val(fs, "param") {
        Some(p) => p,
        None => {
            return None;
        },
    };
    Some(ControllerActionDetail { ctrl_id, uuid, action, param })
}

/// Decoding of a task lifecycle payload.
pub open spec fn spec_tasker_task(v: JsonVal) -> Option<
    (i64, Seq<char>, Seq<char>, Seq<char>),
> {
    match v {
        JsonVal::Obj(fs) => match (
            spec_req_i64(fs, ("task_id")@),
            spec_req_str(fs, ("entry")@),
            spec_req_str(fs, ("uuid")@),
            spec_req_str(fs, ("hash")@),
        ) {
            (Some(i), Some(e), Some(u), Some(h)) => Some((i, e, u, h)),
            _ => None,
        },
        _ => None,
    }
}

/// Decode a task lifecycle payload, best-effort.
pub fn parse_tasker_task(v: &JsonValue) -> (r: Option<TaskerTaskDetail>)
    ensures
        match spec_tasker_task(v@) {
            Some(t) => r matches Some(d) && d.task_id == t.0 && d.entry@ == t.1 && d.uuid@
                == t.2 && d.hash@ == t.3,
            None => r is None,
        },
{
    let fs = match v {
        JsonValue::Obj(fs) => fs,
        _ => {
            return None;
        },
    };
    let task_id = match get_i64(fs, "task_id") {
        Ok(Some(i)) => i,
        _ => {
            return None;
        },
    };
    let entry = match get_str(fs, "entry") {
        Ok(Some(s)) => s,
        _ => {
            return None;
        },
    };
    let uuid = match get_str(fs, "uuid") {
        Ok(Some(s)) => s,
        _ => {
            return None;
        },
    };
    let hash = match get_str(fs, "hash") {
        Ok(Some(s)) => s,
        _ => {
            return None;
        },
    };
    Some(TaskerTaskDetail { task_id, entry, uuid, hash })
}

/// Decoding of a node-scoped payload: the task identifier, a second
/// identifier under the given key, the node's name, and the required
/// `focus` payload.
pub open spec fn spec_node_detail(v: JsonVal, id_key: Seq<char>) -> Option<
    (i64, i64, Seq<char>, JsonVal),
> {
    match v {
        JsonVal::Obj(fs) => match (
            spec_req_i64(fs, ("task_id")@),
            spec_req_i64(fs, id_key),
            spec_req_str(fs, ("name")@),
            obj_get(fs, ("focus")@),
        ) {
            (Some(t), Some(i), Some(n), Some(f)) => Some((t, i, n, f)),
            _ => None,
        },
        _ => None,
    }
}

/// Read the common node-scoped payload fields.
fn parse_node_fields(v: &JsonValue, id_key: &str) -> (r: Option<
    (i64, i64, String, JsonValue),
>)
    ensures
        match spec_node_detail(v@, id_key@) {
            Some(t) => r matches Some(d) && d.0 == t.0 && d.1 == t.1 && d.2@ == t.2 && d.3@
                == t.3,
            None => r is None,
        },
{
    let fs = match v {
        JsonValue::Obj(fs) => fs,
        _ => {
            return None;
        },
    };
    let task_id = match get_i64(fs, "task_id") {
        Ok(Some(i)) => i,
        _ => {
            return None;
        },
    };
    let other_id = match get_i64(fs, id_key) {
        Ok(Some(i)) => i,
        _ => {
            return None;
        },
    };
    let name = match get_str(fs, "name") {
        Ok(Some(s)) => s,
        _ => {
            return None;
        },
    };
    let focus = match get_val(fs, "focus") {
        Some(f) => f,
        None => {
            return None;
        },
    };
    Some((task_id, other_id, name, focus))
}

/// Decode a node recognition payload, best-effort.
pub fn parse_node_recognition(v: &JsonValue) -> (r: Option<NodeRecognitionDetail>)
    ensures
        match spec_node_detail(v@, ("reco_id")@) {
            Some(t) => r matches Some(d) && d.task_id == t.0 && d.reco_id == t.1 && d.name@
                == t.2 && d.focus@ == t.3,
            None => r is None,
        },
{
    match parse_node_fields(v, "reco_id") {
        Some(t) => Some(
            NodeRecognitionDetail { task_id: t.0, reco_id: t.1, name: t.2, focus: t.3 },
        ),
        None => None,
    }
}

/// Decode a node action payload, best-effort.
pub fn parse_node_action(v: &JsonValue) -> (r: Option<NodeActionDetail>)
    ensures
        match spec_node_detail(v@, ("action_id")@) {
            Some(t) => r matches Some(d) && d.task_id == t.0 && d.action_id == t.1
                && d.name@ == t.2 && d.focus@ == t.3,
            None => r is None,
        },
{
    match parse_node_fields(v, "action_id") {
        Some(t) => Some(
            NodeActionDetail { task_id: t.0, action_id: t.1, name: t.2, focus: t.3 },
        ),
        None => None,
    }
}

/// Decode a pipeline-node payload, best-effort.
pub fn parse_node_pipeline_node(v: &JsonValue) -> (r: Option<NodePipelineNodeDetail>)
    ensures
        match spec_node_detail(v@, ("node_id")@) {
            Some(t) => r matches Some(d) && d.task_id == t.0 && d.node_id == t.1 && d.name@
                == t.2 && d.focus@ == t.3,
            None => r is None,
        },
{
    match parse_node_fields(v, "node_id") {
        Some(t) => Some(
            NodePipelineNodeDetail { task_id: t.0, node_id: t.1, name: t.2, focus: t.3 },
        ),
        None => None,
    }
}

/// A reported next-list entry: a record holding exactly a string
/// `name` and the two boolean flags, all required.
pub open spec fn spec_next_item_el() -> spec_fn(JsonVal) -> Result<NodeAttrV, ()> {
    |v: JsonVal|
        match v {
            JsonVal::Obj(fs) => match (
                obj_get(fs, ("name")@),
                obj_get(fs, ("jump_back")@),
                obj_get(fs, ("anchor")@),
            ) {
                (
                    Some(JsonVal::Str(n)),
                    Some(JsonVal::Bool(j)),
                    Some(JsonVal::Bool(a)),
                ) => Ok(NodeAttrV { name: n, jump_back: j, anchor: a }),
                _ => Err(()),
            },
            _ => Err(()),
        }
}

/// Decode an array of reported next-list entries; every entry must be
/// a complete record.
fn next_items_of_arr(xs: &Vec<JsonValue>) -> (r: Option<Vec<NextListItem>>)
    ensures
        match spec_map_vals(spec_next_item_el(), arr_view(xs@)) {
            Ok(ys) => r matches Some(v) && v.deep_view() == ys,
            Err(()) => r is None,
        },
{
    let mut out: Vec<NextListItem> = Vec::new();
    let mut i: usize = 0;
    while i < xs.len()
        invariant
            i <= xs@.len(),
            out@.len() == i,
            forall|j: int| 0 <= j < i ==> spec_next_item_el()(#[trigger] arr_view(xs@)[j])
                == Ok::<NodeAttrV, ()>(out.deep_view()[j]),
        decreases xs@.len() - i,
    {
        proof {
            broadcast use crate::json::group_json_view;

        }
        let fs = match &xs[i] {
            JsonValue::Obj(fs) => fs,
            _ => {
                proof {
                    lemma_map_vals_err(spec_next_item_el(), arr_view(xs@), i as int);
                }
                return None;
            },
        };
        let name = match fields_get(fs, "name") {
            Some(JsonValue::Str(n)) => n.clone(),
            _ => {
                proof {
                    lemma_map_vals_err(spec_next_item_el(), arr_view(xs@), i as int);
                }
                return None;
            },
        };
        let jump_back = match fields_get(fs, "jump_back") {
            Some(JsonValue::Bool(b)) => *b,
            _ => {
                proof {
                    lemma_map_vals_err(spec_next_item_el(), arr_view(xs@), i as int);
                }
                return None;
            },
        };
        let anchor = match fields_get(fs, "anchor") {
            Some(JsonValue::Bool(b)) => *b,
            _ => {
                proof {
                    lemma_map_vals_err(spec_next_item_el(), arr_view(xs@), i as int);
                }
                return None;
            },
        };
        out.push(NextListItem { name, jump_back, anchor });
        i += 1;
    }
    proof {
        broadcast use crate::json::group_json_view;

        lemma_map_vals_ok(spec_next_item_el(), arr_view(xs@), out.deep_view());
    }
    Some(out)
}

/// Decoding of a next-list payload: every field is required, and each
/// list entry must be a complete `{name, jump_back, anchor}` record.
pub open spec fn spec_node_next_list(v: JsonVal) -> Option<
    (i64, Seq<char>, Seq<NodeAttrV>, JsonVal),
> {
    match v {
        JsonVal::Obj(fs) => match (
            spec_req_i64(fs, ("task_id")@),
            spec_req_str(fs, ("name")@),
            obj_get(fs, ("list")@),
            obj_get(fs, ("focus")@),
        ) {
            (Some(t), Some(n), Some(JsonVal::Arr(xs)), Some(f)) => match spec_map_vals(
                spec_next_item_el(),
                xs,
            ) {
                Ok(items) => Some((t, n, items, f)),
                Err(()) => None,
            },
            _ => None,
        },
        _ => None,
    }
}

/// Decode a next-list payload, best-effort: a payload whose entries
/// are not complete records reads as nothing.
pub fn parse_node_next_list(v: &JsonValue) -> (r: Option<NodeNextListDetail>)
    ensures
        match spec_node_next_list(v@) {
            Some(t) => r matches Some(d) && d.task_id == t.0 && d.name@ == t.1
                && d.list.deep_view() == t.2 && d.focus@ == t.3,
            None => r is None,
        },
{
    let fs = match v {
        JsonValue::Obj(fs) => fs,
        _ => {
            return None;
        },
    };
    let task_id = match get_i64(fs, "task_id") {
        Ok(Some(i)) => i,
        _ => {
            return None;
        },
    };
    let name = match get_str(fs, "name") {
        Ok(Some(s)) => s,
        _ => {
            return None;
        },
    };
    let raw_list = match fields_get(fs, "list") {
        Some(JsonValue::Arr(xs)) => xs,
        _ => {
            return None;
        },
    };
    let focus = match get_val(fs, "focus") {
        Some(f) => f,
        None => {
            return None;
        },
    };
    let list = match next_items_of_arr(raw_list) {
        Some(items) => items,
        None => {
            return None;
        },
    };
    Some(NodeNextListDetail { task_id, name, list, focus })
}

/// One decoded notification: the category's detail record, or nothing
/// when the name or the payload does not match any known shape.
#[derive(Debug, PartialEq)]
pub enum NotificationDetail {
    ResourceLoading(ResourceLoadingDetail),
    ControllerAction(ControllerActionDetail),
    TaskerTask(TaskerTaskDetail),
    NodePipelineNode(NodePipelineNodeDetail),
    NodeRecognition(NodeRecognitionDetail),
    NodeAction(NodeActionDetail),
    NodeNextList(NodeNextListDetail),
    Unknown,
}

/// Which category prefix an event name carries.
pub open spec fn spec_category(s: Seq<char>) -> int {
    if s.len() >= 17 && s.subrange(0, 17) == ("Resource.Loading.")@ {
        0
    } else if s.len() >= 18 && s.subrange(0, 18) == ("Controller.Action.")@ {
        1
    } else if s.len() >= 12 && s.subrange(0, 12) == ("Tasker.Task.")@ {
        2
    } else if s.len() >= 18 && s.subrange(0, 18) == ("Node.PipelineNode.")@ {
        3
    } else if s.len() >= 17 && s.subrange(0, 17) == ("Node.Recognition.")@ {
        4
    } else if s.len() >= 12 && s.subrange(0, 12) == ("Node.Action.")@ {
        5
    } else if s.len() >= 14 && s.subrange(0, 14) == ("Node.NextList.")@ {
        6
    } else {
        7
    }
}

/// What a decoded notification's contents must be, category by
/// category: the detail record's every field is pinned by the payload,
/// and anything that does not match reads as `Unknown`.
pub open spec fn spec_decode_notification(ms: Seq<char>, pv: JsonVal, r: NotificationDetail) -> bool {
    &&& (spec_category(ms) == 0 ==> (match spec_resource_loading(pv) {
        Some(t) => r matches NotificationDetail::ResourceLoading(d) && d.res_id == t.0
            && d.hash@ == t.1 && d.path@ == t.2,
        None => r == NotificationDetail::Unknown,
    }))
    &&& (spec_category(ms) == 1 ==> (match spec_controller_action(pv) {
        Some(t) => r matches NotificationDetail::ControllerAction(d) && d.ctrl_id == t.0
            && d.uuid@ == t.1 && d.action@ == t.2 && d.param@ == t.3,
        None => r == NotificationDetail::Unknown,
    }))
    &&& (spec_category(ms) == 2 ==> (match spec_tasker_task(pv) {
        Some(t) => r matches NotificationDetail::TaskerTask(d) && d.task_id == t.0
            && d.entry@ == t.1 && d.uuid@ == t.2 && d.hash@ == t.3,
        None => r == NotificationDetail::Unknown,
    }))
    &&& (spec_category(ms) == 3 ==> (match spec_node_detail(pv, ("node_id")@) {
        Some(t) => r matches NotificationDetail::NodePipelineNode(d) && d.task_id == t.0
            && d.node_id == t.1 && d.name@ == t.2 && d.focus@ == t.3,
        None => r == NotificationDetail::Unknown,
    }))
    &&& (spec_category(ms) == 4 ==> (match spec_node_detail(pv, ("reco_id")@) {
        Some(t) => r matches NotificationDetail::NodeRecognition(d) && d.task_id == t.0
            && d.reco_id == t.1 && d.name@ == t.2 && d.focus@ == t.3,
        None => r == NotificationDetail::Unknown,
    }))
    &&& (spec_category(ms) == 5 ==> (match spec_node_detail(pv, ("action_id")@) {
        Some(t) => r matches NotificationDetail::NodeAction(d) && d.task_id == t.0
            && d.action_id == t.1 && d.name@ == t.2 && d.focus@ == t.3,
        None => r == NotificationDetail::Unknown,
    }))
    &&& (spec_category(ms) == 6 ==> (match spec_node_next_list(pv) {
        Some(t) => r matches NotificationDetail::NodeNextList(d) && d.task_id == t.0
            && d.name@ == t.1 && d.list.deep_view() == t.2 && d.focus@ == t.3,
        None => r == NotificationDetail::Unknown,
    }))
    &&& (spec_category(ms) == 7 ==> r == NotificationDetail::Unknown)
}

/// Decode an event's payload by its category prefix, best-effort:
/// an unknown category or a payload of the wrong shape reads as
/// `Unknown`, never as an error.
pub fn decode_notification(msg: &str, payload: &JsonValue) -> (r: NotificationDetail)
    ensures
        spec_decode_notification(msg@, payload@, r),
{
    proof {
        reveal_strlit("Resource.Loading.");
        reveal_strlit("Controller.Action.");
        reveal_strlit("Tasker.Task.");
        reveal_strlit("Node.PipelineNode.");
        reveal_strlit("Node.Recognition.");
        reveal_strlit("Node.Action.");
        reveal_strlit("Node.NextList.");
        broadcast use vstd::string::group_string_axioms;

        assert(("Resource.Loading.")@.len() == 17);
        assert(("Controller.Action.")@.len() == 18);
        assert(("Tasker.Task.")@.len() == 12);
        assert(("Node.PipelineNode.")@.len() == 18);
        assert(("Node.Recognition.")@.len() == 17);
        assert(("Node.Action.")@.len() == 12);
        assert(("Node.NextList.")@.len() == 14);
    }
    if str_has_prefix(msg, "Resource.Loading.") {
        match parse_resource_loading(payload) {
            Some(d) => NotificationDetail::ResourceLoading(d),
            None => NotificationDetail::Unknown,
        }
    } else if str_has_prefix(msg, "Controller.Action.") {
        match parse_controller_action(payload) {
            Some(d) => NotificationDetail::ControllerAction(d),
            None => NotificationDetail::Unknown,
        }
    } else if str_has_prefix(msg, "Tasker.Task.") {
        match parse_tasker_task(payload) {
            Some(d) => NotificationDetail::TaskerTask(d),
            None => NotificationDetail::Unknown,
        }
    } else if str_has_prefix(msg, "Node.PipelineNode.") {
        match parse_node_pipeline_node(payload) {
            Some(d) => NotificationDetail::NodePipelineNode(d),
            None => NotificationDetail::Unknown,
        }
    } else if str_has_prefix(msg, "Node.Recognition.") {
        match parse_node_recognition(payload) {
            Some(d) => NotificationDetail::NodeRecognition(d),
            None => NotificationDetail::Unknown,
        }
    } else if str_has_prefix(msg, "Node.Action.") {
        match parse_node_action(payload) {
            Some(d) => NotificationDetail::NodeAction(d),
            None => NotificationDetail::Unknown,
        }
    } else if str_has_prefix(msg, "Node.NextList.") {
        match parse_node_next_list(payload) {
            Some(d) => NotificationDetail::NodeNextList(d),
            None => NotificationDetail::Unknown,
        }
    } else {
        NotificationDetail::Unknown
    }
}

/// Decode an event whose payload arrives as raw JSON text: parse at
/// the trusted boundary, then decode by category.  Text that is not
/// JSON reads as `Unknown`, like any other unexpected shape.
pub fn decode_notification_text(msg: &str, details_json: &str) -> (r: NotificationDetail)
    ensures
        match crate::jsonio::json_text_model(details_json@) {
            Some(pv) => spec_decode_notification(msg@, pv, r),
            None => r == NotificationDetail::Unknown,
        },
{
    match crate::jsonio::parse_json(details_json) {
        Some(v) => decode_notification(msg, &v),
        None => NotificationDetail::Unknown,
    }
}

} // verus!
