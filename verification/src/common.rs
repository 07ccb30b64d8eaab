//! Common wire-level types: raw status codes, points and rectangles,
//! algorithm and action names, and typed action results.

use vstd::prelude::*;

use crate::decode::{
    get_bool, get_i32, get_val, lemma_map_vals_err, lemma_map_vals_ok, spec_i32_el,
    spec_map_vals, spec_rect_el,
};
use crate::error::{MaaError, MaaResult};
use crate::json::{arr_view, fields_get, fields_view, obj_get, JsonVal, JsonValue};
use crate::text::str_has_suffix;

verus! {

/// A raw status code of an asynchronous operation, as the engine
/// reports it.
#[derive(Clone, Copy, Debug, PartialEq, Eq, Structural)]
pub struct MaaStatus(pub i32);

impl MaaStatus {
    /// Whether the operation succeeded.
    pub fn is_success(&self) -> (r: bool)
        ensures
            r == (self.0 == 3000),
    {
        self.0 == 3000
    }

    /// Whether the operation succeeded.
    pub fn succeeded(&self) -> (r: bool)
        ensures
            r == (self.0 == 3000),
    {
        self.0 == 3000
    }

    /// Whether the operation failed.
    pub fn is_failed(&self) -> (r: bool)
        ensures
            r == (self.0 == 4000),
    {
        self.0 == 4000
    }

    /// Whether the operation failed.
    pub fn failed(&self) -> (r: bool)
        ensures
            r == (self.0 == 4000),
    {
        self.0 == 4000
    }

    /// Whether the operation reached a terminal state.
    pub fn done(&self) -> (r: bool)
        ensures
            r == (self.0 == 3000 || self.0 == 4000),
    {
        self.0 == 3000 || self.0 == 4000
    }

    /// Whether the operation has not started yet.
    pub fn pending(&self) -> (r: bool)
        ensures
            r == (self.0 == 1000),
    {
        self.0 == 1000
    }

    /// Whether the operation is in progress.
    pub fn running(&self) -> (r: bool)
        ensures
            r == (self.0 == 2000),
    {
        self.0 == 2000
    }

    /// The name of this status code; codes outside the protocol read
    /// as unknown.
    pub fn name(&self) -> (r: &'static str)
        ensures
            self.0 == 0 ==> r@ == ("Invalid")@,
            self.0 == 1000 ==> r@ == ("Pending")@,
            self.0 == 2000 ==> r@ == ("Running")@,
            self.0 == 3000 ==> r@ == ("Succeeded")@,
            self.0 == 4000 ==> r@ == ("Failed")@,
            r@.len() > 0,
    {
        proof {
            reveal_strlit("Invalid");
            reveal_strlit("Pending");
            reveal_strlit("Running");
            reveal_strlit("Succeeded");
            reveal_strlit("Failed");
            reveal_strlit("Unknown");
            broadcast use vstd::string::group_string_axioms;

        }
        if self.0 == 0 {
            "Invalid"
        } else if self.0 == 1000 {
            "Pending"
        } else if self.0 == 2000 {
            "Running"
        } else if self.0 == 3000 {
            "Succeeded"
        } else if self.0 == 4000 {
            "Failed"
        } else {
            "Unknown"
        }
    }
}

/// Turn an engine boolean into a result: a zero return is a failure
/// with an opaque status.
pub fn check_bool(ret: u8) -> (r: MaaResult<()>)
    ensures
        ret != 0 ==> r == Ok::<(), MaaError>(()),
        ret == 0 ==> r == Err::<(), MaaError>(MaaError::NativeCallFailed(0)),
{
    if ret != 0 {
        Ok(())
    } else {
        Err(MaaError::NativeCallFailed(0))
    }
}

/// A rectangle on screen.
#[derive(Clone, Copy, Debug, PartialEq, Eq, Structural)]
pub struct Rect {
    pub x: i32,
    pub y: i32,
    pub width: i32,
    pub height: i32,
}

/// A point on screen.
#[derive(Clone, Copy, Debug, PartialEq, Eq, Structural)]
pub struct Point {
    pub x: i32,
    pub y: i32,
}

impl Point {
    /// A point from its coordinates.
    pub fn new(x: i32, y: i32) -> (r: Self)
        ensures
            r.x == x,
            r.y == y,
    {
        Self { x, y }
    }
}

impl Default for Point {
    /// The origin.
    fn default() -> (r: Self)
        ensures
            r.x == 0,
            r.y == 0,
    {
        Point { x: 0, y: 0 }
    }
}

/// Recognition algorithm names of the wire protocol.
#[derive(Clone, Copy, Debug, PartialEq, Eq, Structural)]
pub enum AlgorithmEnum {
    DirectHit,
    TemplateMatch,
    FeatureMatch,
    ColorMatch,
    OCR,
    NeuralNetworkClassify,
    NeuralNetworkDetect,
    And,
    Or,
    Custom,
}

impl AlgorithmEnum {
    /// The wire name of this algorithm.
    pub fn as_str(&self) -> (r: &'static str)
        ensures
            r@ == crate::pipeline::spec_reco_type_name(spec_algorithm_kind(*self)),
    {
        match self {
            AlgorithmEnum::DirectHit => "DirectHit",
            AlgorithmEnum::TemplateMatch => "TemplateMatch",
            AlgorithmEnum::FeatureMatch => "FeatureMatch",
            AlgorithmEnum::ColorMatch => "ColorMatch",
            AlgorithmEnum::OCR => "OCR",
            AlgorithmEnum::NeuralNetworkClassify => "NeuralNetworkClassify",
            AlgorithmEnum::NeuralNetworkDetect => "NeuralNetworkDetect",
            AlgorithmEnum::And => "And",
            AlgorithmEnum::Or => "Or",
            AlgorithmEnum::Custom => "Custom",
        }
    }
}

/// The recognition kind an algorithm name stands for.
pub open spec fn spec_algorithm_kind(a: AlgorithmEnum) -> crate::pipeline::RecognitionType {
    match a {
        AlgorithmEnum::DirectHit => crate::pipeline::RecognitionType::DirectHit,
        AlgorithmEnum::TemplateMatch => crate::pipeline::RecognitionType::TemplateMatch,
        AlgorithmEnum::FeatureMatch => crate::pipeline::RecognitionType::FeatureMatch,
        AlgorithmEnum::ColorMatch => crate::pipeline::RecognitionType::ColorMatch,
        AlgorithmEnum::OCR => crate::pipeline::RecognitionType::OCR,
        AlgorithmEnum::NeuralNetworkClassify => crate::pipeline::RecognitionType::NeuralNetworkClassify,
        AlgorithmEnum::NeuralNetworkDetect => crate::pipeline::RecognitionType::NeuralNetworkDetect,
        AlgorithmEnum::And => crate::pipeline::RecognitionType::And,
        AlgorithmEnum::Or => crate::pipeline::RecognitionType::Or,
        AlgorithmEnum::Custom => crate::pipeline::RecognitionType::Custom,
    }
}

/// Action names of the wire protocol.
#[derive(Clone, Copy, Debug, PartialEq, Eq, Structural)]
pub enum ActionEnum {
    DoNothing,
    Click,
    LongPress,
    Swipe,
    MultiSwipe,
    TouchDown,
    TouchMove,
    TouchUp,
    ClickKey,
    LongPressKey,
    KeyDown,
    KeyUp,
    InputText,
    StartApp,
    StopApp,
    StopTask,
    Scroll,
    Command,
    Shell,
    Custom,
}

impl ActionEnum {
    /// The wire name of this action.
    pub fn as_str(&self) -> (r: &'static str)
        ensures
            r@ == crate::pipeline::spec_act_type_name(spec_action_kind(*self)),
    {
        match self {
            ActionEnum::DoNothing => "DoNothing",
            ActionEnum::Click => "Click",
            ActionEnum::LongPress => "LongPress",
            ActionEnum::Swipe => "Swipe",
            ActionEnum::MultiSwipe => "MultiSwipe",
            ActionEnum::TouchDown => "TouchDown",
            ActionEnum::TouchMove => "TouchMove",
            ActionEnum::TouchUp => "TouchUp",
            ActionEnum::ClickKey => "ClickKey",
            ActionEnum::LongPressKey => "LongPressKey",
            ActionEnum::KeyDown => "KeyDown",
            ActionEnum::KeyUp => "KeyUp",
            ActionEnum::InputText => "InputText",
            ActionEnum::StartApp => "StartApp",
            ActionEnum::StopApp => "StopApp",
            ActionEnum::StopTask => "StopTask",
            ActionEnum::Scroll => "Scroll",
            ActionEnum::Command => "Command",
            ActionEnum::Shell => "Shell",
            ActionEnum::Custom => "Custom",
        }
    }
}

/// The action kind an action name stands for.
pub open spec fn spec_action_kind(a: ActionEnum) -> crate::pipeline::ActionType {
    match a {
        ActionEnum::DoNothing => crate::pipeline::ActionType::DoNothing,
        ActionEnum::Click => crate::pipeline::ActionType::Click,
        ActionEnum::LongPress => crate::pipeline::ActionType::LongPress,
        ActionEnum::Swipe => crate::pipeline::ActionType::Swipe,
        ActionEnum::MultiSwipe => crate::pipeline::ActionType::MultiSwipe,
        ActionEnum::TouchDown => crate::pipeline::ActionType::TouchDown,
        ActionEnum::TouchMove => crate::pipeline::ActionType::TouchMove,
        ActionEnum::TouchUp => crate::pipeline::ActionType::TouchUp,
        ActionEnum::ClickKey => crate::pipeline::ActionType::ClickKey,
        ActionEnum::LongPressKey => crate::pipeline::ActionType::LongPressKey,
        ActionEnum::KeyDown => crate::pipeline::ActionType::KeyDown,
        ActionEnum::KeyUp => crate::pipeline::ActionType::KeyUp,
        ActionEnum::InputText => crate::pipeline::ActionType::InputText,
        ActionEnum::StartApp => crate::pipeline::ActionType::StartApp,
        ActionEnum::StopApp => crate::pipeline::ActionType::StopApp,
        ActionEnum::StopTask => crate::pipeline::ActionType::StopTask,
        ActionEnum::Scroll => crate::pipeline::ActionType::Scroll,
        ActionEnum::Command => crate::pipeline::ActionType::Command,
        ActionEnum::Shell => crate::pipeline::ActionType::Shell,
        ActionEnum::Custom => crate::pipeline::ActionType::Custom,
    }
}

/// Kind of a notification event, read from its name's suffix.
#[derive(Clone, Copy, Debug, PartialEq, Eq, Structural)]
pub enum NotificationType {
    Starting,
    Succeeded,
    Failed,
    Unknown,
}

/// Classification of an event name by suffix; anything else, malformed
/// names included, is unknown.
pub open spec fn spec_notification_type(s: Seq<char>) -> NotificationType {
    if s.len() >= 9 && s.subrange(s.len() - 9, s.len() as int) == (".Starting")@ {
        NotificationType::Starting
    } else if s.len() >= 10 && s.subrange(s.len() - 10, s.len() as int) == (".Succeeded")@ {
        NotificationType::Succeeded
    } else if s.len() >= 7 && s.subrange(s.len() - 7, s.len() as int) == (".Failed")@ {
        NotificationType::Failed
    } else {
        NotificationType::Unknown
    }
}

impl NotificationType {
    /// Classify an event name by its suffix; never fails.
    pub fn from_message(msg: &str) -> (r: Self)
        ensures
            r == spec_notification_type(msg@),
    {
        proof {
            reveal_strlit(".Starting");
            reveal_strlit(".Succeeded");
            reveal_strlit(".Failed");
            broadcast use vstd::string::group_string_axioms;

            assert((".Starting")@.len() == 9);
            assert((".Succeeded")@.len() == 10);
            assert((".Failed")@.len() == 7);
        }
        if str_has_suffix(msg, ".Starting") {
            NotificationType::Starting
        } else if str_has_suffix(msg, ".Succeeded") {
            NotificationType::Succeeded
        } else if str_has_suffix(msg, ".Failed") {
            NotificationType::Failed
        } else {
            NotificationType::Unknown
        }
    }
}

/// What a click action did.
#[derive(Clone, Copy, Debug, PartialEq, Eq, Structural)]
pub struct ClickActionResult {
    pub point: Point,
    pub contact: i32,
}

/// What a long-press action did.
#[derive(Clone, Copy, Debug, PartialEq, Eq, Structural)]
pub struct LongPressActionResult {
    pub point: Point,
    pub duration: i32,
    pub contact: i32,
}

/// What one swipe of a swipe action did.
#[derive(Clone, Debug, PartialEq, Eq)]
pub struct SwipeActionResult {
    pub begin: Point,
    pub end: Vec<Point>,
    pub end_hold: Vec<i32>,
    pub duration: Vec<i32>,
    pub only_hover: bool,
    pub starting: i32,
    pub contact: i32,
}

/// What a multi-swipe action did.
#[derive(Clone, Debug, PartialEq, Eq)]
pub struct MultiSwipeActionResult {
    pub swipes: Vec<SwipeActionResult>,
}

/// What a key-click action did.
#[derive(Clone, Debug, PartialEq, Eq)]
pub struct ClickKeyActionResult {
    pub keycode: Vec<i32>,
}

/// What a long key press did.
#[derive(Clone, Debug, PartialEq, Eq)]
pub struct LongPressKeyActionResult {
    pub keycode: Vec<i32>,
    pub duration: i32,
}

/// What a text input action typed.
#[derive(Clone, Debug, PartialEq, Eq)]
pub struct InputTextActionResult {
    pub text: String,
}

/// Which package an app action started or stopped.
#[derive(Clone, Debug, PartialEq, Eq)]
pub struct AppActionResult {
    pub package: String,
}

/// What a scroll action did.
#[derive(Clone, Copy, Debug, PartialEq, Eq, Structural)]
pub struct ScrollActionResult {
    pub dx: i32,
    pub dy: i32,
}

/// What a touch action did.
#[derive(Clone, Copy, Debug, PartialEq, Eq, Structural)]
pub struct TouchActionResult {
    pub contact: i32,
    pub point: Point,
    pub pressure: i32,
}

/// What a shell action ran and returned.
#[derive(Clone, Debug, PartialEq, Eq)]
pub struct ShellActionResult {
    pub cmd: String,
    pub timeout: i32,
    pub success: bool,
    pub output: String,
}

/// A recognized region and how often something was found in it.
#[derive(Debug)]
pub struct BoxAndCount {
    pub box_rect: (i32, i32, i32, i32),
    pub count: i32,
}

/// What one pipeline node's execution produced.
#[derive(Clone, Debug, PartialEq, Eq)]
pub struct NodeDetail {
    pub node_name: String,
    pub reco_id: i64,
    pub act_id: i64,
    pub completed: bool,
}

/// What one task's execution produced.
#[derive(Debug, PartialEq)]
pub struct TaskDetail {
    pub entry: String,
    pub node_id_list: Vec<i64>,
    pub status: MaaStatus,
}

/// An opaque recognition detail payload beside its typed summary.
#[derive(Debug, PartialEq)]
pub struct RecognitionDetail {
    pub node_name: String,
    pub algorithm: String,
    pub hit: bool,
    pub box_rect: Rect,
    pub detail: JsonValue,
}

/// An opaque action detail payload beside its typed summary.
#[derive(Debug, PartialEq)]
pub struct ActionDetail {
    pub node_name: String,
    pub action: String,
    pub box_rect: Rect,
    pub success: bool,
    pub detail: JsonValue,
}

/// What a custom recognition reported: the chosen box and an opaque
/// detail payload.
#[derive(Debug)]
pub struct CustomRecognitionResult {
    pub box_rect: (i32, i32, i32, i32),
    pub detail: JsonValue,
}

/// Required integer field of a result payload, within `i32` range.
pub open spec fn spec_res_i32(fs: Seq<(Seq<char>, JsonVal)>, k: Seq<char>) -> Option<i32> {
    match obj_get(fs, k) {
        Some(JsonVal::Int(i)) => if i32::MIN <= i <= i32::MAX {
            Some(i as i32)
        } else {
            None
        },
        _ => None,
    }
}

/// Required boolean field of a result payload.
pub open spec fn spec_res_bool(fs: Seq<(Seq<char>, JsonVal)>, k: Seq<char>) -> Option<bool> {
    match obj_get(fs, k) {
        Some(JsonVal::Bool(b)) => Some(b),
        _ => None,
    }
}

/// Required string field of a result payload.
pub open spec fn spec_res_str(fs: Seq<(Seq<char>, JsonVal)>, k: Seq<char>) -> Option<
    Seq<char>,
> {
    match obj_get(fs, k) {
        Some(JsonVal::Str(s)) => Some(s),
        _ => None,
    }
}

/// A point encoded as an object with `x` and `y`.
pub open spec fn spec_res_point(v: JsonVal) -> Option<Point> {
    match v {
        JsonVal::Obj(fs) => match (spec_res_i32(fs, ("x")@), spec_res_i32(fs, ("y")@)) {
            (Some(x), Some(y)) => Some(Point { x, y }),
            _ => None,
        },
        _ => None,
    }
}

/// Required point field of a result payload.
pub open spec fn spec_fld_point(fs: Seq<(Seq<char>, JsonVal)>, k: Seq<char>) -> Option<
    Point,
> {
    match obj_get(fs, k) {
        Some(v) => spec_res_point(v),
        None => None,
    }
}

/// Required integer-list field of a result payload.
pub open spec fn spec_res_i32s(fs: Seq<(Seq<char>, JsonVal)>, k: Seq<char>) -> Option<
    Seq<i32>,
> {
    match obj_get(fs, k) {
        Some(JsonVal::Arr(xs)) => match spec_map_vals(spec_i32_el(), xs) {
            Ok(ys) => Some(ys),
            Err(()) => None,
        },
        _ => None,
    }
}

/// Integer-list field defaulting to empty when absent.
pub open spec fn spec_def_i32s(fs: Seq<(Seq<char>, JsonVal)>, k: Seq<char>) -> Option<
    Seq<i32>,
> {
    match obj_get(fs, k) {
        None => Some(Seq::empty()),
        Some(JsonVal::Arr(xs)) => match spec_map_vals(spec_i32_el(), xs) {
            Ok(ys) => Some(ys),
            Err(()) => None,
        },
        Some(_) => None,
    }
}

/// Boolean field defaulting to false when absent.
pub open spec fn spec_def_bool(fs: Seq<(Seq<char>, JsonVal)>, k: Seq<char>) -> Option<bool> {
    match obj_get(fs, k) {
        None => Some(false),
        Some(JsonVal::Bool(b)) => Some(b),
        Some(_) => None,
    }
}

/// Integer field defaulting to zero when absent.
pub open spec fn spec_def_i32(fs: Seq<(Seq<char>, JsonVal)>, k: Seq<char>) -> Option<i32> {
    match obj_get(fs, k) {
        None => Some(0),
        Some(JsonVal::Int(i)) => if i32::MIN <= i <= i32::MAX {
            Some(i as i32)
        } else {
            None
        },
        Some(_) => None,
    }
}

/// Required rectangle field of a result payload, under the wire key.
pub open spec fn spec_res_rect(fs: Seq<(Seq<char>, JsonVal)>, k: Seq<char>) -> Option<
    (i32, i32, i32, i32),
> {
    match obj_get(fs, k) {
        Some(v) => match spec_rect_el()(v) {
            Ok(r) => Some(r),
            Err(()) => None,
        },
        None => None,
    }
}

/// Read a required point field.
fn res_point(fs: &Vec<(String, JsonValue)>, k: &str) -> (r: Option<Point>)
    ensures
        r == spec_fld_point(fields_view(fs@), k@),
{
    let v = match fields_get(fs, k) {
        Some(v) => v,
        None => {
            return None;
        },
    };
    let pf = match v {
        JsonValue::Obj(pf) => pf,
        _ => {
            return None;
        },
    };
    let x = match get_i32(pf, "x") {
        Ok(Some(x)) => x,
        _ => {
            return None;
        },
    };
    let y = match get_i32(pf, "y") {
        Ok(Some(y)) => y,
        _ => {
            return None;
        },
    };
    Some(Point { x, y })
}

/// Read a required integer field.
fn res_i32(fs: &Vec<(String, JsonValue)>, k: &str) -> (r: Option<i32>)
    ensures
        r == spec_res_i32(fields_view(fs@), k@),
{
    match get_i32(fs, k) {
        Ok(Some(x)) => Some(x),
        _ => None,
    }
}

/// Read a required rectangle field.
fn res_rect(fs: &Vec<(String, JsonValue)>, k: &str) -> (r: Option<(i32, i32, i32, i32)>)
    ensures
        r == spec_res_rect(fields_view(fs@), k@),
{
    let v = match fields_get(fs, k) {
        Some(v) => v,
        None => {
            return None;
        },
    };
    match crate::pipeline::Target::from_json(v) {
        Ok(crate::pipeline::Target::Rect(rc)) => Some(rc),
        _ => None,
    }
}

impl RecognitionDetail {
    /// Read the detail as a feature-match result: the chosen box and
    /// the match count, both required.
    pub fn as_feature_match_result(&self) -> (r: Option<BoxAndCount>)
        ensures
            match self.detail@ {
                JsonVal::Obj(fs) => match (
                    spec_res_rect(fs, ("box")@),
                    spec_res_i32(fs, ("count")@),
                ) {
                    (Some(b), Some(c)) => r matches Some(d) && d.box_rect == b && d.count
                        == c,
                    _ => r is None,
                },
                _ => r is None,
            },
    {
        let fs = match &self.detail {
            JsonValue::Obj(fs) => fs,
            _ => {
                return None;
            },
        };
        let box_rect = match res_rect(fs, "box") {
            Some(b) => b,
            None => {
                return None;
            },
        };
        let count = match res_i32(fs, "count") {
            Some(c) => c,
            None => {
                return None;
            },
        };
        Some(BoxAndCount { box_rect, count })
    }

    /// Read the detail as a color-match result; same shape as a
    /// feature match.
    pub fn as_color_match_result(&self) -> (r: Option<BoxAndCount>)
        ensures
            match self.detail@ {
                JsonVal::Obj(fs) => match (
                    spec_res_rect(fs, ("box")@),
                    spec_res_i32(fs, ("count")@),
                ) {
                    (Some(b), Some(c)) => r matches Some(d) && d.box_rect == b && d.count
                        == c,
                    _ => r is None,
                },
                _ => r is None,
            },
    {
        self.as_feature_match_result()
    }

    /// Read the detail as a custom recognition result: the chosen box
    /// and the handler's opaque payload, both required.
    pub fn as_custom_result(&self) -> (r: Option<CustomRecognitionResult>)
        ensures
            match self.detail@ {
                JsonVal::Obj(fs) => match (
                    spec_res_rect(fs, ("box")@),
                    obj_get(fs, ("detail")@),
                ) {
                    (Some(b), Some(d0)) => r matches Some(d) && d.box_rect == b && d.detail@
                        == d0,
                    _ => r is None,
                },
                _ => r is None,
            },
    {
        let fs = match &self.detail {
            JsonValue::Obj(fs) => fs,
            _ => {
                return None;
            },
        };
        let box_rect = match res_rect(fs, "box") {
            Some(b) => b,
            None => {
                return None;
            },
        };
        let detail = match get_val(fs, "detail") {
            Some(d) => d,
            None => {
                return None;
            },
        };
        Some(CustomRecognitionResult { box_rect, detail })
    }
}

impl DeepView for Point {
    type V = Point;

    open spec fn deep_view(&self) -> Point {
        *self
    }
}

/// Point element decoder for coordinate lists.
pub open spec fn spec_point_el() -> spec_fn(JsonVal) -> Result<Point, ()> {
    |v: JsonVal|
        match spec_res_point(v) {
            Some(p) => Ok(p),
            None => Err(()),
        }
}

/// Decode an array of points.
fn points_of_arr(xs: &Vec<JsonValue>) -> (r: Option<Vec<Point>>)
    ensures
        match spec_map_vals(spec_point_el(), arr_view(xs@)) {
            Ok(ys) => r matches Some(v) && v.deep_view() == ys,
            Err(()) => r is None,
        },
{
    let mut out: Vec<Point> = Vec::new();
    let mut i: usize = 0;
    while i < xs.len()
        invariant
            i <= xs@.len(),
            out@.len() == i,
            forall|j: int| 0 <= j < i ==> spec_point_el()(#[trigger] arr_view(xs@)[j])
                == Ok::<Point, ()>(out.deep_view()[j]),
        decreases xs@.len() - i,
    {
        proof {
            broadcast use crate::json::group_json_view;

        }
        let pf = match &xs[i] {
            JsonValue::Obj(pf) => pf,
            _ => {
                proof {
                    lemma_map_vals_err(spec_point_el(), arr_view(xs@), i as int);
                }
                return None;
            },
        };
        let x = match get_i32(pf, "x") {
            Ok(Some(x)) => x,
            _ => {
                proof {
                    lemma_map_vals_err(spec_point_el(), arr_view(xs@), i as int);
                }
                return None;
            },
        };
        let y = match get_i32(pf, "y") {
            Ok(Some(y)) => y,
            _ => {
                proof {
                    lemma_map_vals_err(spec_point_el(), arr_view(xs@), i as int);
                }
                return None;
            },
        };
        out.push(Point { x, y });
        i += 1;
    }
    proof {
        broadcast use crate::json::group_json_view;

        lemma_map_vals_ok(spec_point_el(), arr_view(xs@), out.deep_view());
    }
    Some(out)
}

/// Decoding of one swipe result: begin point and end points required,
/// holds, durations, hover flag and starting offset defaulted, contact
/// required.
pub open spec fn spec_swipe_result(v: JsonVal) -> Option<
    (Point, Seq<Point>, Seq<i32>, Seq<i32>, bool, i32, i32),
> {
    match v {
        JsonVal::Obj(fs) => {
            let ends = match obj_get(fs, ("end")@) {
                Some(JsonVal::Arr(xs)) => match spec_map_vals(spec_point_el(), xs) {
                    Ok(ys) => Some(ys),
                    Err(()) => None,
                },
                _ => None,
            };
            match (
                spec_fld_point(fs, ("begin")@),
                ends,
                spec_def_i32s(fs, ("end_hold")@),
                spec_def_i32s(fs, ("duration")@),
                spec_def_bool(fs, ("only_hover")@),
                spec_def_i32(fs, ("starting")@),
                spec_res_i32(fs, ("contact")@),
            ) {
                (Some(b), Some(e), Some(h), Some(d), Some(o), Some(st), Some(c)) => Some(
                    (b, e, h, d, o, st, c),
                ),
                _ => None,
            }
        },
        _ => None,
    }
}

/// Whether a swipe record holds exactly the decoded components.
pub open spec fn spec_swipe_matches(
    s: SwipeActionResult,
    t: (Point, Seq<Point>, Seq<i32>, Seq<i32>, bool, i32, i32),
) -> bool {
    &&& s.begin == t.0
    &&& s.end.deep_view() == t.1
    &&& s.end_hold.deep_view() == t.2
    &&& s.duration.deep_view() == t.3
    &&& s.only_hover == t.4
    &&& s.starting == t.5
    &&& s.contact == t.6
}

/// Read an integer list field with an empty default.
fn def_i32s(fs: &Vec<(String, JsonValue)>, k: &str) -> (r: Option<Vec<i32>>)
    ensures
        match spec_def_i32s(fields_view(fs@), k@) {
            Some(ys) => r matches Some(v) && v.deep_view() == ys,
            None => r is None,
        },
{
    match fields_get(fs, k) {
        None => {
            let empty: Vec<i32> = Vec::new();
            proof {
                assert(empty.deep_view() =~= Seq::<i32>::empty());
            }
            Some(empty)
        },
        Some(JsonValue::Arr(xs)) => match crate::decode::i32s_of_arr(xs) {
            Ok(v) => Some(v),
            Err(_) => None,
        },
        Some(_) => None,
    }
}

/// Decode one swipe result record.
fn swipe_of_json(v: &JsonValue) -> (r: Option<SwipeActionResult>)
    ensures
        match spec_swipe_result(v@) {
            Some(t) => r matches Some(s) && spec_swipe_matches(s, t),
            None => r is None,
        },
{
    let fs = match v {
        JsonValue::Obj(fs) => fs,
        _ => {
            return None;
        },
    };
    let begin = match res_point(fs, "begin") {
        Some(p) => p,
        None => {
            return None;
        },
    };
    let end = match fields_get(fs, "end") {
        Some(JsonValue::Arr(xs)) => match points_of_arr(xs) {
            Some(ps) => ps,
            None => {
                return None;
            },
        },
        _ => {
            return None;
        },
    };
    let end_hold = match def_i32s(fs, "end_hold") {
        Some(v2) => v2,
        None => {
            return None;
        },
    };
    let duration = match def_i32s(fs, "duration") {
        Some(v2) => v2,
        None => {
            return None;
        },
    };
    let only_hover = match get_bool(fs, "only_hover") {
        Ok(Some(b)) => b,
        Ok(None) => false,
        Err(_) => {
            return None;
        },
    };
    let starting = match get_i32(fs, "starting") {
        Ok(Some(x)) => x,
        Ok(None) => 0,
        Err(_) => {
            return None;
        },
    };
    let contact = match res_i32(fs, "contact") {
        Some(c) => c,
        None => {
            return None;
        },
    };
    Some(
        SwipeActionResult { begin, end, end_hold, duration, only_hover, starting, contact },
    )
}

/// Swipe element decoder for multi-swipe lists.
pub open spec fn spec_swipe_el() -> spec_fn(JsonVal) -> Result<
    (Point, Seq<Point>, Seq<i32>, Seq<i32>, bool, i32, i32),
    (),
> {
    |v: JsonVal|
        match spec_swipe_result(v) {
            Some(t) => Ok(t),
            None => Err(()),
        }
}

/// Decode an array of swipe result records.
fn swipes_of_arr(xs: &Vec<JsonValue>) -> (r: Option<Vec<SwipeActionResult>>)
    ensures
        match spec_map_vals(spec_swipe_el(), arr_view(xs@)) {
            Ok(ts) => r matches Some(v) && v@.len() == ts.len() && (forall|j: int|
                0 <= j < ts.len() ==> spec_swipe_matches(v@[j], #[trigger] ts[j])),
            Err(()) => r is None,
        },
{
    let mut out: Vec<SwipeActionResult> = Vec::new();
    let ghost mut ys: Seq<(Point, Seq<Point>, Seq<i32>, Seq<i32>, bool, i32, i32)> =
        Seq::empty();
    let mut i: usize = 0;
    while i < xs.len()
        invariant
            i <= xs@.len(),
            out@.len() == i,
            ys.len() == i,
            forall|j: int| 0 <= j < i ==> spec_swipe_el()(#[trigger] arr_view(xs@)[j])
                == Ok::<(Point, Seq<Point>, Seq<i32>, Seq<i32>, bool, i32, i32), ()>(ys[j]),
            forall|j: int| 0 <= j < i ==> spec_swipe_matches(out@[j], #[trigger] ys[j]),
        decreases xs@.len() - i,
    {
        proof {
            broadcast use crate::json::group_json_view;

        }
        match swipe_of_json(&xs[i]) {
            Some(sw) => {
                proof {
                    ys = ys.push(spec_swipe_result(crate::json::json_view(xs@[i as int])).unwrap());
                }
                out.push(sw);
            },
            None => {
                proof {
                    lemma_map_vals_err(spec_swipe_el(), arr_view(xs@), i as int);
                }
                return None;
            },
        }
        i += 1;
    }
    proof {
        broadcast use crate::json::group_json_view;

        lemma_map_vals_ok(spec_swipe_el(), arr_view(xs@), ys);
    }
    Some(out)
}

impl ActionDetail {
    /// Read the detail as a click result.
    pub fn as_click_result(&self) -> (r: Option<ClickActionResult>)
        ensures
            match self.detail@ {
                JsonVal::Obj(fs) => match (
                    spec_fld_point(fs, ("point")@),
                    spec_res_i32(fs, ("contact")@),
                ) {
                    (Some(p), Some(c)) => r == Some(
                        ClickActionResult { point: p, contact: c },
                    ),
                    _ => r is None,
                },
                _ => r is None,
            },
    {
        let fs = match &self.detail {
            JsonValue::Obj(fs) => fs,
            _ => {
                return None;
            },
        };
        let point = match res_point(fs, "point") {
            Some(p) => p,
            None => {
                return None;
            },
        };
        let contact = match res_i32(fs, "contact") {
            Some(c) => c,
            None => {
                return None;
            },
        };
        Some(ClickActionResult { point, contact })
    }

    /// Read the detail as a long-press result.
    pub fn as_long_press_result(&self) -> (r: Option<LongPressActionResult>)
        ensures
            match self.detail@ {
                JsonVal::Obj(fs) => match (
                    spec_fld_point(fs, ("point")@),
                    spec_res_i32(fs, ("duration")@),
                    spec_res_i32(fs, ("contact")@),
                ) {
                    (Some(p), Some(d), Some(c)) => r == Some(
                        LongPressActionResult { point: p, duration: d, contact: c },
                    ),
                    _ => r is None,
                },
                _ => r is None,
            },
    {
        let fs = match &self.detail {
            JsonValue::Obj(fs) => fs,
            _ => {
                return None;
            },
        };
        let point = match res_point(fs, "point") {
            Some(p) => p,
            None => {
                return None;
            },
        };
        let duration = match res_i32(fs, "duration") {
            Some(d) => d,
            None => {
                return None;
            },
        };
        let contact = match res_i32(fs, "contact") {
            Some(c) => c,
            None => {
                return None;
            },
        };
        Some(LongPressActionResult { point, duration, contact })
    }

    /// Read the detail as one swipe result.
    pub fn as_swipe_result(&self) -> (r: Option<SwipeActionResult>)
        ensures
            match spec_swipe_result(self.detail@) {
                Some(t) => r matches Some(s) && spec_swipe_matches(s, t),
                None => r is None,
            },
    {
        swipe_of_json(&self.detail)
    }

    /// Read the detail as a multi-swipe result.
    pub fn as_multi_swipe_result(&self) -> (r: Option<MultiSwipeActionResult>)
        ensures
            match self.detail@ {
                JsonVal::Obj(fs) => match obj_get(fs, ("swipes")@) {
                    Some(JsonVal::Arr(xs)) => match spec_map_vals(spec_swipe_el(), xs) {
                        Ok(ts) => r matches Some(m) && m.swipes@.len() == ts.len() && (
                        forall|j: int|
                            0 <= j < ts.len() ==> spec_swipe_matches(
                                m.swipes@[j],
                                #[trigger] ts[j],
                            )),
                        Err(()) => r is None,
                    },
                    _ => r is None,
                },
                _ => r is None,
            },
    {
        let fs = match &self.detail {
            JsonValue::Obj(fs) => fs,
            _ => {
                return None;
            },
        };
        let raw = match fields_get(fs, "swipes") {
            Some(JsonValue::Arr(xs)) => xs,
            _ => {
                return None;
            },
        };
        match swipes_of_arr(raw) {
            Some(swipes) => Some(MultiSwipeActionResult { swipes }),
            None => None,
        }
    }

    /// Read the detail as a key-click result.
    pub fn as_click_key_result(&self) -> (r: Option<ClickKeyActionResult>)
        ensures
            match self.detail@ {
                JsonVal::Obj(fs) => match spec_res_i32s(fs, ("keycode")@) {
                    Some(ks) => r matches Some(c) && c.keycode.deep_view() == ks,
                    None => r is None,
                },
                _ => r is None,
            },
    {
        let fs = match &self.detail {
            JsonValue::Obj(fs) => fs,
            _ => {
                return None;
            },
        };
        match fields_get(fs, "keycode") {
            Some(JsonValue::Arr(xs)) => match crate::decode::i32s_of_arr(xs) {
                Ok(keycode) => Some(ClickKeyActionResult { keycode }),
                Err(_) => None,
            },
            _ => None,
        }
    }

    /// Read the detail as a text-input result.
    pub fn as_input_text_result(&self) -> (r: Option<InputTextActionResult>)
        ensures
            match self.detail@ {
                JsonVal::Obj(fs) => match spec_res_str(fs, ("text")@) {
                    Some(t) => r matches Some(c) && c.text@ == t,
                    None => r is None,
                },
                _ => r is None,
            },
    {
        let fs = match &self.detail {
            JsonValue::Obj(fs) => fs,
            _ => {
                return None;
            },
        };
        match fields_get(fs, "text") {
            Some(JsonValue::Str(t)) => Some(InputTextActionResult { text: t.clone() }),
            _ => None,
        }
    }

    /// Read the detail as an app start or stop result.
    pub fn as_app_result(&self) -> (r: Option<AppActionResult>)
        ensures
            match self.detail@ {
                JsonVal::Obj(fs) => match spec_res_str(fs, ("package")@) {
                    Some(p) => r matches Some(c) && c.package@ == p,
                    None => r is None,
                },
                _ => r is None,
            },
    {
        let fs = match &self.detail {
            JsonValue::Obj(fs) => fs,
            _ => {
                return None;
            },
        };
        match fields_get(fs, "package") {
            Some(JsonValue::Str(p)) => Some(AppActionResult { package: p.clone() }),
            _ => None,
        }
    }

    /// Read the detail as a scroll result.
    pub fn as_scroll_result(&self) -> (r: Option<ScrollActionResult>)
        ensures
            match self.detail@ {
                JsonVal::Obj(fs) => match (
                    spec_res_i32(fs, ("dx")@),
                    spec_res_i32(fs, ("dy")@),
                ) {
                    (Some(dx), Some(dy)) => r == Some(ScrollActionResult { dx, dy }),
                    _ => r is None,
                },
                _ => r is None,
            },
    {
        let fs = match &self.detail {
            JsonValue::Obj(fs) => fs,
            _ => {
                return None;
            },
        };
        let dx = match res_i32(fs, "dx") {
            Some(x) => x,
            None => {
                return None;
            },
        };
        let dy = match res_i32(fs, "dy") {
            Some(y) => y,
            None => {
                return None;
            },
        };
        Some(ScrollActionResult { dx, dy })
    }

    /// Read the detail as a touch result; the pressure defaults to
    /// zero.
    pub fn as_touch_result(&self) -> (r: Option<TouchActionResult>)
        ensures
            match self.detail@ {
                JsonVal::Obj(fs) => match (
                    spec_res_i32(fs, ("contact")@),
                    spec_fld_point(fs, ("point")@),
                    spec_def_i32(fs, ("pressure")@),
                ) {
                    (Some(c), Some(p), Some(pr)) => r == Some(
                        TouchActionResult { contact: c, point: p, pressure: pr },
                    ),
                    _ => r is None,
                },
                _ => r is None,
            },
    {
        let fs = match &self.detail {
            JsonValue::Obj(fs) => fs,
            _ => {
                return None;
            },
        };
        let contact = match res_i32(fs, "contact") {
            Some(c) => c,
            None => {
                return None;
            },
        };
        let point = match res_point(fs, "point") {
            Some(p) => p,
            None => {
                return None;
            },
        };
        let pressure = match get_i32(fs, "pressure") {
            Ok(Some(x)) => x,
            Ok(None) => 0,
            Err(_) => {
                return None;
            },
        };
        Some(TouchActionResult { contact, point, pressure })
    }

    /// Read the detail as a shell result.
    pub fn as_shell_result(&self) -> (r: Option<ShellActionResult>)
        ensures
            match self.detail@ {
                JsonVal::Obj(fs) => match (
                    spec_res_str(fs, ("cmd")@),
                    spec_res_i32(fs, ("timeout")@),
                    spec_res_bool(fs, ("success")@),
                    spec_res_str(fs, ("output")@),
                ) {
                    (Some(cm), Some(t), Some(su), Some(o)) => r matches Some(c) && c.cmd@
                        == cm && c.timeout == t && c.success == su && c.output@ == o,
                    _ => r is None,
                },
                _ => r is None,
            },
    {
        let fs = match &self.detail {
            JsonValue::Obj(fs) => fs,
            _ => {
                return None;
            },
        };
        let cmd = match fields_get(fs, "cmd") {
            Some(JsonValue::Str(c)) => c.clone(),
            _ => {
                return None;
            },
        };
        let timeout = match res_i32(fs, "timeout") {
            Some(t) => t,
            None => {
                return None;
            },
        };
        let success = match get_bool(fs, "success") {
            Ok(Some(b)) => b,
            _ => {
                return None;
            },
        };
        let output = match fields_get(fs, "output") {
            Some(JsonValue::Str(o)) => o.clone(),
            _ => {
                return None;
            },
        };
        Some(ShellActionResult { cmd, timeout, success, output })
    }
}

} // verus!
