//! Pipeline node data model: recognition and action kinds, their wire
//! names, and the classification of JSON keys used by the merge engine.
//!
//! A node object in the wire format holds node-level keys (`next`,
//! `timeout`, ...), a `recognition` and an `action` entry, and possibly
//! flat parameter keys that belong to the active recognition or action
//! kind.  The merge engine relies on the key classification below to
//! normalize flat parameters into the `param` sub-objects.

use vstd::prelude::*;

use crate::json::{arr_view, JsonVal, JsonValue};
use crate::text::str_eq;

verus! {

/// A rectangle in the wire format: x, y, width, height.
pub type Rect = (i32, i32, i32, i32);

/// A region of interest, same shape as a rectangle.
pub type Roi = (i32, i32, i32, i32);

/// Model of a JSON number kept exactly.
#[verifier::ext_equal]
pub enum NumberV {
    Int(i64),
    /// A non-integer number, as its decimal text.
    Dec(Seq<char>),
}

/// A JSON number kept exactly: an integer, or the decimal text of a
/// non-integer.  The core never computes with non-integer numbers; it
/// carries them through unchanged.
#[derive(Debug, PartialEq, Eq)]
pub enum Number {
    Int(i64),
    Dec(String),
}

impl View for Number {
    type V = NumberV;

    open spec fn view(&self) -> NumberV {
        match self {
            Number::Int(i) => NumberV::Int(*i),
            Number::Dec(s) => NumberV::Dec(s@),
        }
    }
}

impl Clone for Number {
    /// A copy with the same model.
    fn clone(&self) -> (r: Self)
        ensures
            r@ == self@,
    {
        match self {
            Number::Int(i) => Number::Int(*i),
            Number::Dec(s) => Number::Dec(s.clone()),
        }
    }
}

/// Model of a target.
#[verifier::ext_equal]
pub enum TargetV {
    Bool(bool),
    Name(Seq<char>),
    Point((i32, i32)),
    Rect((i32, i32, i32, i32)),
}

/// Where a step applies: `true` for whatever the recognition found, a
/// node name to reuse that node's result rectangle, a point, or a
/// rectangle.
#[derive(Debug, PartialEq, Eq)]
pub enum Target {
    Bool(bool),
    Name(String),
    Point((i32, i32)),
    Rect(Rect),
}

impl View for Target {
    type V = TargetV;

    open spec fn view(&self) -> TargetV {
        match self {
            Target::Bool(b) => TargetV::Bool(*b),
            Target::Name(s) => TargetV::Name(s@),
            Target::Point(p) => TargetV::Point(*p),
            Target::Rect(r) => TargetV::Rect(*r),
        }
    }
}

impl Clone for Target {
    /// A copy with the same model.
    fn clone(&self) -> (r: Self)
        ensures
            r@ == self@,
    {
        match self {
            Target::Bool(b) => Target::Bool(*b),
            Target::Name(s) => Target::Name(s.clone()),
            Target::Point(p) => Target::Point(*p),
            Target::Rect(r) => Target::Rect(*r),
        }
    }
}

impl Default for Target {
    /// Use whatever the recognition found.
    fn default() -> (r: Self)
        ensures
            r@ == TargetV::Bool(true),
    {
        Target::Bool(true)
    }
}

/// Decoding of a target from its wire value: a bare boolean, a bare
/// string, a two-element integer array, or a four-element integer
/// array; lengths are never coerced.
pub open spec fn spec_target_of_json(v: JsonVal) -> Result<TargetV, ()> {
    match v {
        JsonVal::Bool(b) => Ok(TargetV::Bool(b)),
        JsonVal::Str(s) => Ok(TargetV::Name(s)),
        JsonVal::Arr(xs) => if xs.len() == 2 {
            match (xs[0], xs[1]) {
                (JsonVal::Int(x), JsonVal::Int(y)) => if i32::MIN <= x <= i32::MAX
                    && i32::MIN <= y <= i32::MAX {
                    Ok(TargetV::Point((x as i32, y as i32)))
                } else {
                    Err(())
                },
                _ => Err(()),
            }
        } else if xs.len() == 4 {
            match (xs[0], xs[1], xs[2], xs[3]) {
                (
                    JsonVal::Int(x),
                    JsonVal::Int(y),
                    JsonVal::Int(w),
                    JsonVal::Int(h),
                ) => if i32::MIN <= x <= i32::MAX && i32::MIN <= y <= i32::MAX && i32::MIN
                    <= w <= i32::MAX && i32::MIN <= h <= i32::MAX {
                    Ok(TargetV::Rect((x as i32, y as i32, w as i32, h as i32)))
                } else {
                    Err(())
                },
                _ => Err(()),
            }
        } else {
            Err(())
        },
        _ => Err(()),
    }
}

/// Encoding of a target to its wire value.
pub open spec fn spec_target_to_json(t: TargetV) -> JsonVal {
    match t {
        TargetV::Bool(b) => JsonVal::Bool(b),
        TargetV::Name(s) => JsonVal::Str(s),
        TargetV::Point(p) => JsonVal::Arr(
            seq![JsonVal::Int(p.0 as i64), JsonVal::Int(p.1 as i64)],
        ),
        TargetV::Rect(r) => JsonVal::Arr(
            seq![
                JsonVal::Int(r.0 as i64),
                JsonVal::Int(r.1 as i64),
                JsonVal::Int(r.2 as i64),
                JsonVal::Int(r.3 as i64),
            ],
        ),
    }
}

/// Encoding a target and decoding it recovers the same target: the
/// four variants keep their shapes, and a two-element array never
/// becomes a rectangle nor the other way round.
pub proof fn lemma_target_roundtrip(t: TargetV)
    ensures
        spec_target_of_json(spec_target_to_json(t)) == Ok::<TargetV, ()>(t),
{
    match t {
        TargetV::Point(p) => {
            assert(p == (p.0, p.1));
        },
        TargetV::Rect(r) => {
            assert(r == (r.0, r.1, r.2, r.3));
        },
        _ => {},
    }
}

impl Target {
    /// Decode a target from its wire value.
    pub fn from_json(v: &JsonValue) -> (r: Result<Target, crate::error::MaaError>)
        ensures
            match spec_target_of_json(v@) {
                Ok(t) => r matches Ok(tv) && tv@ == t,
                Err(()) => r == Err::<Target, crate::error::MaaError>(
                    crate::error::MaaError::InvalidConfig(None),
                ),
            },
    {
        proof {
            broadcast use crate::json::group_json_view;

        }
        match v {
            JsonValue::Bool(b) => Ok(Target::Bool(*b)),
            JsonValue::Str(s) => Ok(Target::Name(s.clone())),
            JsonValue::Arr(xs) => {
                if xs.len() == 2 {
                    let x = match &xs[0] {
                        JsonValue::Int(x) => *x,
                        _ => {
                            return Err(crate::error::MaaError::InvalidConfig(None));
                        },
                    };
                    let y = match &xs[1] {
                        JsonValue::Int(y) => *y,
                        _ => {
                            return Err(crate::error::MaaError::InvalidConfig(None));
                        },
                    };
                    if i32::MIN as i64 <= x && x <= i32::MAX as i64 && i32::MIN as i64 <= y
                        && y <= i32::MAX as i64 {
                        Ok(Target::Point((x as i32, y as i32)))
                    } else {
                        Err(crate::error::MaaError::InvalidConfig(None))
                    }
                } else if xs.len() == 4 {
                    let mut out: [i32; 4] = [0, 0, 0, 0];
                    let mut i: usize = 0;
                    while i < 4
                        invariant
                            i <= 4,
                            xs@.len() == 4,
                            v@ == JsonVal::Arr(arr_view(xs@)),
                            arr_view(xs@).len() == 4,
                            forall|j: int| 0 <= j < i ==> (#[trigger] arr_view(xs@)[j]
                                matches JsonVal::Int(n) && i32::MIN <= n <= i32::MAX
                                && out@[j] == n as i32),
                        decreases 4 - i,
                    {
                        proof {
                            broadcast use crate::json::group_json_view;

                        }
                        match &xs[i] {
                            JsonValue::Int(n) => {
                                if i32::MIN as i64 <= *n && *n <= i32::MAX as i64 {
                                    out[i] = *n as i32;
                                } else {
                                    return Err(crate::error::MaaError::InvalidConfig(
                                        None,
                                    ));
                                }
                            },
                            _ => {
                                return Err(crate::error::MaaError::InvalidConfig(None));
                            },
                        }
                        i += 1;
                    }
                    Ok(Target::Rect((out[0], out[1], out[2], out[3])))
                } else {
                    Err(crate::error::MaaError::InvalidConfig(None))
                }
            },
            _ => Err(crate::error::MaaError::InvalidConfig(None)),
        }
    }

    /// Encode this target to its wire value.
    pub fn to_json(&self) -> (r: JsonValue)
        ensures
            r@ == spec_target_to_json(self@),
    {
        proof {
            broadcast use crate::json::group_json_view;

        }
        match self {
            Target::Bool(b) => JsonValue::Bool(*b),
            Target::Name(s) => JsonValue::Str(s.clone()),
            Target::Point(p) => {
                let mut xs: Vec<JsonValue> = Vec::new();
                xs.push(JsonValue::Int(p.0 as i64));
                xs.push(JsonValue::Int(p.1 as i64));
                let r = JsonValue::Arr(xs);
                proof {
                    broadcast use crate::json::group_json_view;

                    let s = arr_view(xs@);
                    assert(xs@.len() == 2);
                    assert(s[0] == JsonVal::Int(p.0 as i64));
                    assert(s[1] == JsonVal::Int(p.1 as i64));
                    assert(self@ == TargetV::Point(*p));
                    assert(s =~= spec_target_to_json(self@)->Arr_0);
                    assert(r@ == JsonVal::Arr(s));
                }
                r
            },
            Target::Rect(rc) => {
                let mut xs: Vec<JsonValue> = Vec::new();
                xs.push(JsonValue::Int(rc.0 as i64));
                xs.push(JsonValue::Int(rc.1 as i64));
                xs.push(JsonValue::Int(rc.2 as i64));
                xs.push(JsonValue::Int(rc.3 as i64));
                let r = JsonValue::Arr(xs);
                proof {
                    broadcast use crate::json::group_json_view;

                    let s = arr_view(xs@);
                    assert(xs@.len() == 4);
                    assert(s[0] == JsonVal::Int(rc.0 as i64));
                    assert(s[1] == JsonVal::Int(rc.1 as i64));
                    assert(s[2] == JsonVal::Int(rc.2 as i64));
                    assert(s[3] == JsonVal::Int(rc.3 as i64));
                    assert(self@ == TargetV::Rect(*rc));
                    assert(s =~= spec_target_to_json(self@)->Arr_0);
                    assert(r@ == JsonVal::Arr(s));
                }
                r
            },
        }
    }
}

/// The recognition algorithm of a node.
#[derive(Clone, Copy, Debug, PartialEq, Eq, Structural)]
pub enum RecognitionType {
    DirectHit,
    TemplateMatch,
    FeatureMatch,
    ColorMatch,
    OCR,
    NeuralNetworkClassify,
    NeuralNetworkDetect,
    And,
    Or,
    Custom,
}

/// The action of a node.
#[derive(Clone, Copy, Debug, PartialEq, Eq, Structural)]
pub enum ActionType {
    DoNothing,
    Click,
    LongPress,
    Swipe,
    MultiSwipe,
    TouchDown,
    TouchMove,
    TouchUp,
    ClickKey,
    LongPressKey,
    KeyDown,
    KeyUp,
    InputText,
    StartApp,
    StopApp,
    StopTask,
    Scroll,
    Command,
    Shell,
    Custom,
}

/// The recognition kind named by `s`, if any.
pub open spec fn spec_reco_type_of(s: Seq<char>) -> Option<RecognitionType> {
    if s == ("DirectHit")@ {
        Some(RecognitionType::DirectHit)
    } else if s == ("TemplateMatch")@ {
        Some(RecognitionType::TemplateMatch)
    } else if s == ("FeatureMatch")@ {
        Some(RecognitionType::FeatureMatch)
    } else if s == ("ColorMatch")@ {
        Some(RecognitionType::ColorMatch)
    } else if s == ("OCR")@ {
        Some(RecognitionType::OCR)
    } else if s == ("NeuralNetworkClassify")@ {
        Some(RecognitionType::NeuralNetworkClassify)
    } else if s == ("NeuralNetworkDetect")@ {
        Some(RecognitionType::NeuralNetworkDetect)
    } else if s == ("And")@ {
        Some(RecognitionType::And)
    } else if s == ("Or")@ {
        Some(RecognitionType::Or)
    } else if s == ("Custom")@ {
        Some(RecognitionType::Custom)
    } else {
        None
    }
}

/// The wire name of a recognition kind.
pub open spec fn spec_reco_type_name(t: RecognitionType) -> Seq<char> {
    match t {
        RecognitionType::DirectHit => ("DirectHit")@,
        RecognitionType::TemplateMatch => ("TemplateMatch")@,
        RecognitionType::FeatureMatch => ("FeatureMatch")@,
        RecognitionType::ColorMatch => ("ColorMatch")@,
        RecognitionType::OCR => ("OCR")@,
        RecognitionType::NeuralNetworkClassify => ("NeuralNetworkClassify")@,
        RecognitionType::NeuralNetworkDetect => ("NeuralNetworkDetect")@,
        RecognitionType::And => ("And")@,
        RecognitionType::Or => ("Or")@,
        RecognitionType::Custom => ("Custom")@,
    }
}

/// The action kind named by `s`, if any.
pub open spec fn spec_act_type_of(s: Seq<char>) -> Option<ActionType> {
    if s == ("DoNothing")@ {
        Some(ActionType::DoNothing)
    } else if s == ("Click")@ {
        Some(ActionType::Click)
    } else if s == ("LongPress")@ {
        Some(ActionType::LongPress)
    } else if s == ("Swipe")@ {
        Some(ActionType::Swipe)
    } else if s == ("MultiSwipe")@ {
        Some(ActionType::MultiSwipe)
    } else if s == ("TouchDown")@ {
        Some(ActionType::TouchDown)
    } else if s == ("TouchMove")@ {
        Some(ActionType::TouchMove)
    } else if s == ("TouchUp")@ {
        Some(ActionType::TouchUp)
    } else if s == ("ClickKey")@ {
        Some(ActionType::ClickKey)
    } else if s == ("LongPressKey")@ {
        Some(ActionType::LongPressKey)
    } else if s == ("KeyDown")@ {
        Some(ActionType::KeyDown)
    } else if s == ("KeyUp")@ {
        Some(ActionType::KeyUp)
    } else if s == ("InputText")@ {
        Some(ActionType::InputText)
    } else if s == ("StartApp")@ {
        Some(ActionType::StartApp)
    } else if s == ("StopApp")@ {
        Some(ActionType::StopApp)
    } else if s == ("StopTask")@ {
        Some(ActionType::StopTask)
    } else if s == ("Scroll")@ {
        Some(ActionType::Scroll)
    } else if s == ("Command")@ {
        Some(ActionType::Command)
    } else if s == ("Shell")@ {
        Some(ActionType::Shell)
    } else if s == ("Custom")@ {
        Some(ActionType::Custom)
    } else {
        None
    }
}

/// The wire name of an action kind.
pub open spec fn spec_act_type_name(t: ActionType) -> Seq<char> {
    match t {
        ActionType::DoNothing => ("DoNothing")@,
        ActionType::Click => ("Click")@,
        ActionType::LongPress => ("LongPress")@,
        ActionType::Swipe => ("Swipe")@,
        ActionType::MultiSwipe => ("MultiSwipe")@,
        ActionType::TouchDown => ("TouchDown")@,
        ActionType::TouchMove => ("TouchMove")@,
        ActionType::TouchUp => ("TouchUp")@,
        ActionType::ClickKey => ("ClickKey")@,
        ActionType::LongPressKey => ("LongPressKey")@,
        ActionType::KeyDown => ("KeyDown")@,
        ActionType::KeyUp => ("KeyUp")@,
        ActionType::InputText => ("InputText")@,
        ActionType::StartApp => ("StartApp")@,
        ActionType::StopApp => ("StopApp")@,
        ActionType::StopTask => ("StopTask")@,
        ActionType::Scroll => ("Scroll")@,
        ActionType::Command => ("Command")@,
        ActionType::Shell => ("Shell")@,
        ActionType::Custom => ("Custom")@,
    }
}

impl RecognitionType {
    /// Parse a wire name.
    pub fn from_name(s: &str) -> (r: Option<RecognitionType>)
        ensures
            r == spec_reco_type_of(s@),
    {
        if str_eq(s, "DirectHit") {
            Some(RecognitionType::DirectHit)
        } else if str_eq(s, "TemplateMatch") {
            Some(RecognitionType::TemplateMatch)
        } else if str_eq(s, "FeatureMatch") {
            Some(RecognitionType::FeatureMatch)
        } else if str_eq(s, "ColorMatch") {
            Some(RecognitionType::ColorMatch)
        } else if str_eq(s, "OCR") {
            Some(RecognitionType::OCR)
        } else if str_eq(s, "NeuralNetworkClassify") {
            Some(RecognitionType::NeuralNetworkClassify)
        } else if str_eq(s, "NeuralNetworkDetect") {
            Some(RecognitionType::NeuralNetworkDetect)
        } else if str_eq(s, "And") {
            Some(RecognitionType::And)
        } else if str_eq(s, "Or") {
            Some(RecognitionType::Or)
        } else if str_eq(s, "Custom") {
            Some(RecognitionType::Custom)
        } else {
            None
        }
    }

    /// The wire name of this kind.
    pub fn name(&self) -> (r: &'static str)
        ensures
            r@ == spec_reco_type_name(*self),
    {
        match self {
            RecognitionType::DirectHit => "DirectHit",
            RecognitionType::TemplateMatch => "TemplateMatch",
            RecognitionType::FeatureMatch => "FeatureMatch",
            RecognitionType::ColorMatch => "ColorMatch",
            RecognitionType::OCR => "OCR",
            RecognitionType::NeuralNetworkClassify => "NeuralNetworkClassify",
            RecognitionType::NeuralNetworkDetect => "NeuralNetworkDetect",
            RecognitionType::And => "And",
            RecognitionType::Or => "Or",
            RecognitionType::Custom => "Custom",
        }
    }
}

impl ActionType {
    /// Parse a wire name.
    pub fn from_name(s: &str) -> (r: Option<ActionType>)
        ensures
            r == spec_act_type_of(s@),
    {
        if str_eq(s, "DoNothing") {
            Some(ActionType::DoNothing)
        } else if str_eq(s, "Click") {
            Some(ActionType::Click)
        } else if str_eq(s, "LongPress") {
            Some(ActionType::LongPress)
        } else if str_eq(s, "Swipe") {
            Some(ActionType::Swipe)
        } else if str_eq(s, "MultiSwipe") {
            Some(ActionType::MultiSwipe)
        } else if str_eq(s, "TouchDown") {
            Some(ActionType::TouchDown)
        } else if str_eq(s, "TouchMove") {
            Some(ActionType::TouchMove)
        } else if str_eq(s, "TouchUp") {
            Some(ActionType::TouchUp)
        } else if str_eq(s, "ClickKey") {
            Some(ActionType::ClickKey)
        } else if str_eq(s, "LongPressKey") {
            Some(ActionType::LongPressKey)
        } else if str_eq(s, "KeyDown") {
            Some(ActionType::KeyDown)
        } else if str_eq(s, "KeyUp") {
            Some(ActionType::KeyUp)
        } else if str_eq(s, "InputText") {
            Some(ActionType::InputText)
        } else if str_eq(s, "StartApp") {
            Some(ActionType::StartApp)
        } else if str_eq(s, "StopApp") {
            Some(ActionType::StopApp)
        } else if str_eq(s, "StopTask") {
            Some(ActionType::StopTask)
        } else if str_eq(s, "Scroll") {
            Some(ActionType::Scroll)
        } else if str_eq(s, "Command") {
            Some(ActionType::Command)
        } else if str_eq(s, "Shell") {
            Some(ActionType::Shell)
        } else if str_eq(s, "Custom") {
            Some(ActionType::Custom)
        } else {
            None
        }
    }

    /// The wire name of this kind.
    pub fn name(&self) -> (r: &'static str)
        ensures
            r@ == spec_act_type_name(*self),
    {
        match self {
            ActionType::DoNothing => "DoNothing",
            ActionType::Click => "Click",
            ActionType::LongPress => "LongPress",
            ActionType::Swipe => "Swipe",
            ActionType::MultiSwipe => "MultiSwipe",
            ActionType::TouchDown => "TouchDown",
            ActionType::TouchMove => "TouchMove",
            ActionType::TouchUp => "TouchUp",
            ActionType::ClickKey => "ClickKey",
            ActionType::LongPressKey => "LongPressKey",
            ActionType::KeyDown => "KeyDown",
            ActionType::KeyUp => "KeyUp",
            ActionType::InputText => "InputText",
            ActionType::StartApp => "StartApp",
            ActionType::StopApp => "StopApp",
            ActionType::StopTask => "StopTask",
            ActionType::Scroll => "Scroll",
            ActionType::Command => "Command",
            ActionType::Shell => "Shell",
            ActionType::Custom => "Custom",
        }
    }
}

/// Every kind's wire name parses back to that kind.
pub proof fn lemma_reco_name_roundtrip(t: RecognitionType)
    ensures
        spec_reco_type_of(spec_reco_type_name(t)) == Some(t),
{
    broadcast use vstd::string::group_string_axioms;

    reveal_strlit("DirectHit");
    reveal_strlit("TemplateMatch");
    reveal_strlit("FeatureMatch");
    reveal_strlit("ColorMatch");
    reveal_strlit("OCR");
    reveal_strlit("NeuralNetworkClassify");
    reveal_strlit("NeuralNetworkDetect");
    reveal_strlit("And");
    reveal_strlit("Or");
    reveal_strlit("Custom");
    assert(("DirectHit")@.len() == 9);
    assert(("TemplateMatch")@.len() == 13);
    assert(("FeatureMatch")@.len() == 12);
    assert(("ColorMatch")@.len() == 10);
    assert(("OCR")@.len() == 3);
    assert(("NeuralNetworkClassify")@.len() == 21);
    assert(("NeuralNetworkDetect")@.len() == 19);
    assert(("And")@.len() == 3);
    assert(("Or")@.len() == 2);
    assert(("Custom")@.len() == 6);
    assert(("OCR")@[0] == 'O');
    assert(("And")@[0] == 'A');
}

/// Every kind's wire name parses back to that kind.
pub proof fn lemma_act_name_roundtrip(t: ActionType)
    ensures
        spec_act_type_of(spec_act_type_name(t)) == Some(t),
{
    broadcast use vstd::string::group_string_axioms;

    reveal_strlit("DoNothing");
    reveal_strlit("Click");
    reveal_strlit("LongPress");
    reveal_strlit("Swipe");
    reveal_strlit("MultiSwipe");
    reveal_strlit("TouchDown");
    reveal_strlit("TouchMove");
    reveal_strlit("TouchUp");
    reveal_strlit("ClickKey");
    reveal_strlit("LongPressKey");
    reveal_strlit("KeyDown");
    reveal_strlit("KeyUp");
    reveal_strlit("InputText");
    reveal_strlit("StartApp");
    reveal_strlit("StopApp");
    reveal_strlit("StopTask");
    reveal_strlit("Scroll");
    reveal_strlit("Command");
    reveal_strlit("Shell");
    reveal_strlit("Custom");
    assert(("DoNothing")@.len() == 9);
    assert(("Click")@.len() == 5);
    assert(("LongPress")@.len() == 9);
    assert(("Swipe")@.len() == 5);
    assert(("MultiSwipe")@.len() == 10);
    assert(("TouchDown")@.len() == 9);
    assert(("TouchMove")@.len() == 9);
    assert(("TouchUp")@.len() == 7);
    assert(("ClickKey")@.len() == 8);
    assert(("LongPressKey")@.len() == 12);
    assert(("KeyDown")@.len() == 7);
    assert(("KeyUp")@.len() == 5);
    assert(("InputText")@.len() == 9);
    assert(("StartApp")@.len() == 8);
    assert(("StopApp")@.len() == 7);
    assert(("StopTask")@.len() == 8);
    assert(("Scroll")@.len() == 6);
    assert(("Command")@.len() == 7);
    assert(("Shell")@.len() == 5);
    assert(("Custom")@.len() == 6);
    assert(("DoNothing")@[0] == 'D');
    assert(("LongPress")@[0] == 'L');
    assert(("TouchDown")@[0] == 'T');
    assert(("TouchMove")@[0] == 'T');
    assert(("InputText")@[0] == 'I');
    assert(("TouchDown")@[5] == 'D');
    assert(("TouchMove")@[5] == 'M');
    assert(("Click")@[0] == 'C');
    assert(("Swipe")@[0] == 'S');
    assert(("KeyUp")@[0] == 'K');
    assert(("Shell")@[0] == 'S');
    assert(("Swipe")@[1] == 'w');
    assert(("Shell")@[1] == 'h');
    assert(("TouchUp")@[0] == 'T');
    assert(("KeyDown")@[0] == 'K');
    assert(("StopApp")@[0] == 'S');
    assert(("Command")@[0] == 'C');
    assert(("ClickKey")@[0] == 'C');
    assert(("StartApp")@[0] == 'S');
    assert(("StopTask")@[0] == 'S');
    assert(("StartApp")@[2] == 'a');
    assert(("StopTask")@[2] == 'o');
    assert(("Scroll")@[0] == 'S');
    assert(("Custom")@[0] == 'C');
}

/// Whether `k` is a node-level key of the wire format.
pub open spec fn spec_node_key(k: Seq<char>) -> bool {
    ||| k == ("recognition")@
    ||| k == ("action")@
    ||| k == ("next")@
    ||| k == ("on_error")@
    ||| k == ("rate_limit")@
    ||| k == ("timeout")@
    ||| k == ("anchor")@
    ||| k == ("inverse")@
    ||| k == ("enabled")@
    ||| k == ("pre_delay")@
    ||| k == ("post_delay")@
    ||| k == ("pre_wait_freezes")@
    ||| k == ("post_wait_freezes")@
    ||| k == ("repeat")@
    ||| k == ("repeat_delay")@
    ||| k == ("repeat_wait_freezes")@
    ||| k == ("max_hit")@
    ||| k == ("focus")@
    ||| k == ("attach")@
}

/// Executable check for `spec_node_key`.
pub fn is_node_key(k: &str) -> (r: bool)
    ensures
        r == spec_node_key(k@),
{
    str_eq(k, "recognition") || str_eq(k, "action") || str_eq(k, "next") || str_eq(
        k,
        "on_error",
    ) || str_eq(k, "rate_limit") || str_eq(k, "timeout") || str_eq(k, "anchor") || str_eq(
        k,
        "inverse",
    ) || str_eq(k, "enabled") || str_eq(k, "pre_delay") || str_eq(k, "post_delay") || str_eq(
        k,
        "pre_wait_freezes",
    ) || str_eq(k, "post_wait_freezes") || str_eq(k, "repeat") || str_eq(k, "repeat_delay")
        || str_eq(k, "repeat_wait_freezes") || str_eq(k, "max_hit") || str_eq(k, "focus")
        || str_eq(k, "attach")
}

/// Whether `k` is a flat parameter key of recognition kind `t`.
pub open spec fn spec_reco_param_key(t: RecognitionType, k: Seq<char>) -> bool {
    match t {
        RecognitionType::DirectHit => k == ("roi")@ || k == ("roi_offset")@,
        RecognitionType::TemplateMatch => k == ("template")@ || k == ("roi")@ || k == (
        "roi_offset")@ || k == ("threshold")@ || k == ("order_by")@ || k == ("index")@ || k
            == ("method")@ || k == ("green_mask")@,
        RecognitionType::FeatureMatch => k == ("template")@ || k == ("roi")@ || k == (
        "roi_offset")@ || k == ("detector")@ || k == ("order_by")@ || k == ("count")@ || k
            == ("index")@ || k == ("green_mask")@ || k == ("ratio")@,
        RecognitionType::ColorMatch => k == ("lower")@ || k == ("upper")@ || k == ("roi")@
            || k == ("roi_offset")@ || k == ("order_by")@ || k == ("method")@ || k == (
        "count")@ || k == ("index")@ || k == ("connected")@,
        RecognitionType::OCR => k == ("expected")@ || k == ("roi")@ || k == ("roi_offset")@
            || k == ("threshold")@ || k == ("replace")@ || k == ("order_by")@ || k == (
        "index")@ || k == ("only_rec")@ || k == ("model")@,
        RecognitionType::NeuralNetworkClassify => k == ("model")@ || k == ("expected")@ || k
            == ("roi")@ || k == ("roi_offset")@ || k == ("labels")@ || k == ("order_by")@
            || k == ("index")@,
        RecognitionType::NeuralNetworkDetect => k == ("model")@ || k == ("expected")@ || k
            == ("roi")@ || k == ("roi_offset")@ || k == ("labels")@ || k == ("threshold")@
            || k == ("order_by")@ || k == ("index")@,
        RecognitionType::And => k == ("all_of")@ || k == ("box_index")@,
        RecognitionType::Or => k == ("any_of")@,
        RecognitionType::Custom => k == ("custom_recognition")@ || k == (
        "custom_recognition_param")@ || k == ("roi")@ || k == ("roi_offset")@,
    }
}

/// Executable check for `spec_reco_param_key`.
pub fn is_reco_param_key(t: RecognitionType, k: &str) -> (r: bool)
    ensures
        r == spec_reco_param_key(t, k@),
{
    match t {
        RecognitionType::DirectHit => str_eq(k, "roi") || str_eq(k, "roi_offset"),
        RecognitionType::TemplateMatch => str_eq(k, "template") || str_eq(k, "roi")
            || str_eq(k, "roi_offset") || str_eq(k, "threshold") || str_eq(k, "order_by")
            || str_eq(k, "index") || str_eq(k, "method") || str_eq(k, "green_mask"),
        RecognitionType::FeatureMatch => str_eq(k, "template") || str_eq(k, "roi") || str_eq(
            k,
            "roi_offset",
        ) || str_eq(k, "detector") || str_eq(k, "order_by") || str_eq(k, "count") || str_eq(
            k,
            "index",
        ) || str_eq(k, "green_mask") || str_eq(k, "ratio"),
        RecognitionType::ColorMatch => str_eq(k, "lower") || str_eq(k, "upper") || str_eq(
            k,
            "roi",
        ) || str_eq(k, "roi_offset") || str_eq(k, "order_by") || str_eq(k, "method")
            || str_eq(k, "count") || str_eq(k, "index") || str_eq(k, "connected"),
        RecognitionType::OCR => str_eq(k, "expected") || str_eq(k, "roi") || str_eq(
            k,
            "roi_offset",
        ) || str_eq(k, "threshold") || str_eq(k, "replace") || str_eq(k, "order_by")
            || str_eq(k, "index") || str_eq(k, "only_rec") || str_eq(k, "model"),
        RecognitionType::NeuralNetworkClassify => str_eq(k, "model") || str_eq(k, "expected")
            || str_eq(k, "roi") || str_eq(k, "roi_offset") || str_eq(k, "labels") || str_eq(
            k,
            "order_by",
        ) || str_eq(k, "index"),
        RecognitionType::NeuralNetworkDetect => str_eq(k, "model") || str_eq(k, "expected")
            || str_eq(k, "roi") || str_eq(k, "roi_offset") || str_eq(k, "labels") || str_eq(
            k,
            "threshold",
        ) || str_eq(k, "order_by") || str_eq(k, "index"),
        RecognitionType::And => str_eq(k, "all_of") || str_eq(k, "box_index"),
        RecognitionType::Or => str_eq(k, "any_of"),
        RecognitionType::Custom => str_eq(k, "custom_recognition") || str_eq(
            k,
            "custom_recognition_param",
        ) || str_eq(k, "roi") || str_eq(k, "roi_offset"),
    }
}

/// Whether `k` is a flat parameter key of action kind `t`.
pub open spec fn spec_act_param_key(t: ActionType, k: Seq<char>) -> bool {
    match t {
        ActionType::DoNothing => false,
        ActionType::Click => k == ("target")@ || k == ("target_offset")@ || k == ("contact")@
            || k == ("pressure")@,
        ActionType::LongPress => k == ("target")@ || k == ("target_offset")@ || k == (
        "duration")@ || k == ("contact")@ || k == ("pressure")@,
        ActionType::Swipe => k == ("starting")@ || k == ("begin")@ || k == ("begin_offset")@
            || k == ("end")@ || k == ("end_offset")@ || k == ("end_hold")@ || k == (
        "duration")@ || k == ("only_hover")@ || k == ("contact")@ || k == ("pressure")@,
        ActionType::MultiSwipe => k == ("swipes")@,
        ActionType::TouchDown => k == ("contact")@ || k == ("target")@ || k == (
        "target_offset")@ || k == ("pressure")@,
        ActionType::TouchMove => k == ("contact")@ || k == ("target")@ || k == (
        "target_offset")@ || k == ("pressure")@,
        ActionType::TouchUp => k == ("contact")@,
        ActionType::ClickKey => k == ("key")@,
        ActionType::LongPressKey => k == ("key")@ || k == ("duration")@,
        ActionType::KeyDown => k == ("key")@,
        ActionType::KeyUp => k == ("key")@,
        ActionType::InputText => k == ("input_text")@,
        ActionType::StartApp => k == ("package")@,
        ActionType::StopApp => k == ("package")@,
        ActionType::StopTask => false,
        ActionType::Scroll => k == ("dx")@ || k == ("dy")@,
        ActionType::Command => k == ("exec")@ || k == ("args")@ || k == ("detach")@,
        ActionType::Shell => k == ("cmd")@ || k == ("timeout")@,
        ActionType::Custom => k == ("custom_action")@ || k == ("custom_action_param")@ || k
            == ("target")@ || k == ("target_offset")@,
    }
}

/// Executable check for `spec_act_param_key`.
pub fn is_act_param_key(t: ActionType, k: &str) -> (r: bool)
    ensures
        r == spec_act_param_key(t, k@),
{
    match t {
        ActionType::DoNothing => false,
        ActionType::Click => str_eq(k, "target") || str_eq(k, "target_offset") || str_eq(
            k,
            "contact",
        ) || str_eq(k, "pressure"),
        ActionType::LongPress => str_eq(k, "target") || str_eq(k, "target_offset") || str_eq(
            k,
            "duration",
        ) || str_eq(k, "contact") || str_eq(k, "pressure"),
        ActionType::Swipe => str_eq(k, "starting") || str_eq(k, "begin") || str_eq(
            k,
            "begin_offset",
        ) || str_eq(k, "end") || str_eq(k, "end_offset") || str_eq(k, "end_hold") || str_eq(
            k,
            "duration",
        ) || str_eq(k, "only_hover") || str_eq(k, "contact") || str_eq(k, "pressure"),
        ActionType::MultiSwipe => str_eq(k, "swipes"),
        ActionType::TouchDown => str_eq(k, "contact") || str_eq(k, "target") || str_eq(
            k,
            "target_offset",
        ) || str_eq(k, "pressure"),
        ActionType::TouchMove => str_eq(k, "contact") || str_eq(k, "target") || str_eq(
            k,
            "target_offset",
        ) || str_eq(k, "pressure"),
        ActionType::TouchUp => str_eq(k, "contact"),
        ActionType::ClickKey => str_eq(k, "key"),
        ActionType::LongPressKey => str_eq(k, "key") || str_eq(k, "duration"),
        ActionType::KeyDown => str_eq(k, "key"),
        ActionType::KeyUp => str_eq(k, "key"),
        ActionType::InputText => str_eq(k, "input_text"),
        ActionType::StartApp => str_eq(k, "package"),
        ActionType::StopApp => str_eq(k, "package"),
        ActionType::StopTask => false,
        ActionType::Scroll => str_eq(k, "dx") || str_eq(k, "dy"),
        ActionType::Command => str_eq(k, "exec") || str_eq(k, "args") || str_eq(k, "detach"),
        ActionType::Shell => str_eq(k, "cmd") || str_eq(k, "timeout"),
        ActionType::Custom => str_eq(k, "custom_action") || str_eq(k, "custom_action_param")
            || str_eq(k, "target") || str_eq(k, "target_offset"),
    }
}

/// Flat parameter keys of a recognition kind given by wire name; an
/// unknown name has none.
pub open spec fn spec_reco_param_key_name(t: Seq<char>, k: Seq<char>) -> bool {
    match spec_reco_type_of(t) {
        Some(rt) => spec_reco_param_key(rt, k),
        None => false,
    }
}

/// Flat parameter keys of an action kind given by wire name; an unknown
/// name has none.
pub open spec fn spec_act_param_key_name(t: Seq<char>, k: Seq<char>) -> bool {
    match spec_act_type_of(t) {
        Some(at) => spec_act_param_key(at, k),
        None => false,
    }
}

impl DeepView for Number {
    type V = NumberV;

    open spec fn deep_view(&self) -> NumberV {
        self.view()
    }
}

impl DeepView for Target {
    type V = TargetV;

    open spec fn deep_view(&self) -> TargetV {
        self.view()
    }
}

/// Model of the recognition parameter superset.
#[verifier::ext_equal]
pub struct RecognitionParamV {
    pub roi: Option<TargetV>,
    pub roi_offset: Option<Rect>,
    pub template: Option<Seq<Seq<char>>>,
    pub threshold: Option<Seq<NumberV>>,
    pub order_by: Option<Seq<char>>,
    pub index: Option<i32>,
    pub method: Option<i32>,
    pub green_mask: Option<bool>,
    pub detector: Option<Seq<char>>,
    pub count: Option<i32>,
    pub ratio: Option<NumberV>,
    pub lower: Option<Seq<Seq<i32>>>,
    pub upper: Option<Seq<Seq<i32>>>,
    pub connected: Option<bool>,
    pub expected: Option<Seq<JsonVal>>,
    pub replace: Option<Seq<Seq<Seq<char>>>>,
    pub only_rec: Option<bool>,
    pub model: Option<Seq<char>>,
    pub labels: Option<Seq<Seq<char>>>,
    pub all_of: Option<Seq<JsonVal>>,
    pub any_of: Option<Seq<JsonVal>>,
    pub box_index: Option<i32>,
    pub custom_recognition: Option<Seq<char>>,
    pub custom_recognition_param: Option<JsonVal>,
}

/// Every recognition parameter any kind uses; parameters a kind does
/// not use stay `None`.
#[derive(Debug, PartialEq)]
pub struct RecognitionParam {
    pub roi: Option<Target>,
    pub roi_offset: Option<Rect>,
    pub template: Option<Vec<String>>,
    pub threshold: Option<Vec<Number>>,
    pub order_by: Option<String>,
    pub index: Option<i32>,
    pub method: Option<i32>,
    pub green_mask: Option<bool>,
    pub detector: Option<String>,
    pub count: Option<i32>,
    pub ratio: Option<Number>,
    pub lower: Option<Vec<Vec<i32>>>,
    pub upper: Option<Vec<Vec<i32>>>,
    pub connected: Option<bool>,
    pub expected: Option<Vec<JsonValue>>,
    pub replace: Option<Vec<Vec<String>>>,
    pub only_rec: Option<bool>,
    pub model: Option<String>,
    pub labels: Option<Vec<String>>,
    pub all_of: Option<Vec<JsonValue>>,
    pub any_of: Option<Vec<JsonValue>>,
    pub box_index: Option<i32>,
    pub custom_recognition: Option<String>,
    pub custom_recognition_param: Option<JsonValue>,
}

impl View for RecognitionParam {
    type V = RecognitionParamV;

    open spec fn view(&self) -> RecognitionParamV {
        RecognitionParamV {
            roi: self.roi.deep_view(),
            roi_offset: self.roi_offset,
            template: self.template.deep_view(),
            threshold: self.threshold.deep_view(),
            order_by: self.order_by.deep_view(),
            index: self.index,
            method: self.method,
            green_mask: self.green_mask,
            detector: self.detector.deep_view(),
            count: self.count,
            ratio: self.ratio.deep_view(),
            lower: self.lower.deep_view(),
            upper: self.upper.deep_view(),
            connected: self.connected,
            expected: self.expected.deep_view(),
            replace: self.replace.deep_view(),
            only_rec: self.only_rec,
            model: self.model.deep_view(),
            labels: self.labels.deep_view(),
            all_of: self.all_of.deep_view(),
            any_of: self.any_of.deep_view(),
            box_index: self.box_index,
            custom_recognition: self.custom_recognition.deep_view(),
            custom_recognition_param: self.custom_recognition_param.deep_view(),
        }
    }
}

/// Model of the action parameter superset.
#[verifier::ext_equal]
pub struct ActionParamV {
    pub target: Option<TargetV>,
    pub target_offset: Option<Rect>,
    pub contact: Option<i32>,
    pub pressure: Option<i32>,
    pub duration: Option<Seq<i32>>,
    pub starting: Option<i32>,
    pub begin: Option<TargetV>,
    pub begin_offset: Option<Rect>,
    pub end: Option<Seq<TargetV>>,
    pub end_offset: Option<Seq<Rect>>,
    pub end_hold: Option<Seq<i32>>,
    pub only_hover: Option<bool>,
    pub swipes: Option<Seq<JsonVal>>,
    pub key: Option<Seq<i32>>,
    pub input_text: Option<Seq<char>>,
    pub package: Option<Seq<char>>,
    pub dx: Option<i32>,
    pub dy: Option<i32>,
    pub exec_path: Option<Seq<char>>,
    pub args: Option<Seq<Seq<char>>>,
    pub detach: Option<bool>,
    pub cmd: Option<Seq<char>>,
    pub timeout: Option<i32>,
    pub custom_action: Option<Seq<char>>,
    pub custom_action_param: Option<JsonVal>,
}

/// Every action parameter any kind uses; parameters a kind does not
/// use stay `None`.  A key code list accepts a bare integer as a
/// one-element list, as a duration does.
#[derive(Debug, PartialEq)]
pub struct ActionParam {
    pub target: Option<Target>,
    pub target_offset: Option<Rect>,
    pub contact: Option<i32>,
    pub pressure: Option<i32>,
    pub duration: Option<Vec<i32>>,
    pub starting: Option<i32>,
    pub begin: Option<Target>,
    pub begin_offset: Option<Rect>,
    pub end: Option<Vec<Target>>,
    pub end_offset: Option<Vec<Rect>>,
    pub end_hold: Option<Vec<i32>>,
    pub only_hover: Option<bool>,
    pub swipes: Option<Vec<JsonValue>>,
    pub key: Option<Vec<i32>>,
    pub input_text: Option<String>,
    pub package: Option<String>,
    pub dx: Option<i32>,
    pub dy: Option<i32>,
    pub exec_path: Option<String>,
    pub args: Option<Vec<String>>,
    pub detach: Option<bool>,
    pub cmd: Option<String>,
    pub timeout: Option<i32>,
    pub custom_action: Option<String>,
    pub custom_action_param: Option<JsonValue>,
}

impl View for ActionParam {
    type V = ActionParamV;

    open spec fn view(&self) -> ActionParamV {
        ActionParamV {
            target: self.target.deep_view(),
            target_offset: self.target_offset,
            contact: self.contact,
            pressure: self.pressure,
            duration: self.duration.deep_view(),
            starting: self.starting,
            begin: self.begin.deep_view(),
            begin_offset: self.begin_offset,
            end: self.end.deep_view(),
            end_offset: self.end_offset.deep_view(),
            end_hold: self.end_hold.deep_view(),
            only_hover: self.only_hover,
            swipes: self.swipes.deep_view(),
            key: self.key.deep_view(),
            input_text: self.input_text.deep_view(),
            package: self.package.deep_view(),
            dx: self.dx,
            dy: self.dy,
            exec_path: self.exec_path.deep_view(),
            args: self.args.deep_view(),
            detach: self.detach,
            cmd: self.cmd.deep_view(),
            timeout: self.timeout,
            custom_action: self.custom_action.deep_view(),
            custom_action_param: self.custom_action_param.deep_view(),
        }
    }
}

/// Model of a recognition step.
#[verifier::ext_equal]
pub struct RecognitionV {
    pub recognition_type: RecognitionType,
    pub param: RecognitionParamV,
}

/// A node's recognition step: the algorithm kind and its parameters.
#[derive(Debug, PartialEq)]
pub struct Recognition {
    pub recognition_type: RecognitionType,
    pub param: RecognitionParam,
}

impl View for Recognition {
    type V = RecognitionV;

    open spec fn view(&self) -> RecognitionV {
        RecognitionV { recognition_type: self.recognition_type, param: self.param@ }
    }
}

/// Model of an action step.
#[verifier::ext_equal]
pub struct ActionV {
    pub action_type: ActionType,
    pub param: ActionParamV,
}

/// A node's action step: the action kind and its parameters.
#[derive(Debug, PartialEq)]
pub struct Action {
    pub action_type: ActionType,
    pub param: ActionParam,
}

impl View for Action {
    type V = ActionV;

    open spec fn view(&self) -> ActionV {
        ActionV { action_type: self.action_type, param: self.param@ }
    }
}

/// Model of a freeze-wait clause.
#[verifier::ext_equal]
pub struct WaitFreezesV {
    pub time: i32,
    pub target: TargetV,
    pub target_offset: Rect,
    pub threshold: NumberV,
    pub method: i32,
    pub rate_limit: i32,
    pub timeout: i32,
}

/// How long the screen must hold still, and where to look.
#[derive(Debug, PartialEq)]
pub struct WaitFreezes {
    pub time: i32,
    pub target: Target,
    pub target_offset: Rect,
    pub threshold: Number,
    pub method: i32,
    pub rate_limit: i32,
    pub timeout: i32,
}

impl View for WaitFreezes {
    type V = WaitFreezesV;

    open spec fn view(&self) -> WaitFreezesV {
        WaitFreezesV {
            time: self.time,
            target: self.target@,
            target_offset: self.target_offset,
            threshold: self.threshold@,
            method: self.method,
            rate_limit: self.rate_limit,
            timeout: self.timeout,
        }
    }
}

/// Model of a full node definition.
#[verifier::ext_equal]
pub struct PipelineDataV {
    pub recognition: RecognitionV,
    pub action: ActionV,
    pub next: Seq<crate::nextlist::NodeAttrV>,
    pub on_error: Seq<crate::nextlist::NodeAttrV>,
    pub rate_limit: i32,
    pub timeout: i32,
    pub anchor: Seq<Seq<char>>,
    pub inverse: bool,
    pub enabled: bool,
    pub pre_delay: i32,
    pub post_delay: i32,
    pub pre_wait_freezes: Option<WaitFreezesV>,
    pub post_wait_freezes: Option<WaitFreezesV>,
    pub repeat: i32,
    pub repeat_delay: i32,
    pub repeat_wait_freezes: Option<WaitFreezesV>,
    pub max_hit: u32,
    pub focus: Option<JsonVal>,
    pub attach: Option<JsonVal>,
}

/// A full node definition: one recognition, one action, transition
/// lists, timing and repeat parameters, and opaque attachment data.
#[derive(Debug, PartialEq)]
pub struct PipelineData {
    pub recognition: Recognition,
    pub action: Action,
    pub next: Vec<crate::nextlist::NodeAttr>,
    pub on_error: Vec<crate::nextlist::NodeAttr>,
    pub rate_limit: i32,
    pub timeout: i32,
    pub anchor: Vec<String>,
    pub inverse: bool,
    pub enabled: bool,
    pub pre_delay: i32,
    pub post_delay: i32,
    pub pre_wait_freezes: Option<WaitFreezes>,
    pub post_wait_freezes: Option<WaitFreezes>,
    pub repeat: i32,
    pub repeat_delay: i32,
    pub repeat_wait_freezes: Option<WaitFreezes>,
    pub max_hit: u32,
    pub focus: Option<JsonValue>,
    pub attach: Option<JsonValue>,
}

impl DeepView for WaitFreezes {
    type V = WaitFreezesV;

    open spec fn deep_view(&self) -> WaitFreezesV {
        self.view()
    }
}

impl View for PipelineData {
    type V = PipelineDataV;

    open spec fn view(&self) -> PipelineDataV {
        PipelineDataV {
            recognition: self.recognition@,
            action: self.action@,
            next: self.next.deep_view(),
            on_error: self.on_error.deep_view(),
            rate_limit: self.rate_limit,
            timeout: self.timeout,
            anchor: self.anchor.deep_view(),
            inverse: self.inverse,
            enabled: self.enabled,
            pre_delay: self.pre_delay,
            post_delay: self.post_delay,
            pre_wait_freezes: self.pre_wait_freezes.deep_view(),
            post_wait_freezes: self.post_wait_freezes.deep_view(),
            repeat: self.repeat,
            repeat_delay: self.repeat_delay,
            repeat_wait_freezes: self.repeat_wait_freezes.deep_view(),
            max_hit: self.max_hit,
            focus: self.focus.deep_view(),
            attach: self.attach.deep_view(),
        }
    }
}

/// Default freeze-wait time.
pub fn default_wait_time() -> (r: i32)
    ensures
        r == 1,
{
    1
}

/// Default freeze-wait threshold.
pub fn default_wait_threshold() -> (r: Number)
    ensures
        r@ == NumberV::Dec(("0.95")@),
{
    Number::Dec("0.95".to_owned())
}

/// Default freeze-wait comparison method.
pub fn default_wait_method() -> (r: i32)
    ensures
        r == 5,
{
    5
}

/// Default rate limit in milliseconds.
pub fn default_rate_limit() -> (r: i32)
    ensures
        r == 1000,
{
    1000
}

/// Default timeout in milliseconds.
pub fn default_timeout() -> (r: i32)
    ensures
        r == 20000,
{
    20000
}

/// Default template-match threshold list.
pub fn default_threshold() -> (r: Vec<Number>)
    ensures
        r.deep_view() =~= seq![NumberV::Dec(("0.7")@)],
{
    let mut v: Vec<Number> = Vec::new();
    v.push(Number::Dec("0.7".to_owned()));
    v
}

/// Default result ordering.
pub fn default_order_by() -> (r: String)
    ensures
        r@ == ("Horizontal")@,
{
    "Horizontal".to_owned()
}

/// Default template-match method.
pub fn default_template_method() -> (r: i32)
    ensures
        r == 5,
{
    5
}

/// Default feature detector.
pub fn default_detector() -> (r: String)
    ensures
        r@ == ("SIFT")@,
{
    "SIFT".to_owned()
}

/// Default feature-match count.
pub fn default_feature_count() -> (r: i32)
    ensures
        r == 4,
{
    4
}

/// Default feature-match distance ratio.
pub fn default_feature_ratio() -> (r: Number)
    ensures
        r@ == NumberV::Dec(("0.6")@),
{
    Number::Dec("0.6".to_owned())
}

/// Default color-match method.
pub fn default_color_method() -> (r: i32)
    ensures
        r == 4,
{
    4
}

/// Default count of one.
pub fn default_count_one() -> (r: i32)
    ensures
        r == 1,
{
    1
}

/// Default text-recognition threshold.
pub fn default_ocr_threshold() -> (r: Number)
    ensures
        r@ == NumberV::Dec(("0.3")@),
{
    Number::Dec("0.3".to_owned())
}

/// Default detection threshold list.
pub fn default_detect_threshold() -> (r: Vec<Number>)
    ensures
        r.deep_view() =~= seq![NumberV::Dec(("0.3")@)],
{
    let mut v: Vec<Number> = Vec::new();
    v.push(Number::Dec("0.3".to_owned()));
    v
}

/// Default touch pressure.
pub fn default_pressure() -> (r: i32)
    ensures
        r == 1,
{
    1
}

/// Default long-press duration in milliseconds.
pub fn default_long_press_duration() -> (r: i32)
    ensures
        r == 1000,
{
    1000
}

/// Default target list: one target following the recognition.
pub fn default_target_list_true() -> (r: Vec<Target>)
    ensures
        r.deep_view() =~= seq![TargetV::Bool(true)],
{
    let mut v: Vec<Target> = Vec::new();
    v.push(Target::Bool(true));
    v
}

/// Default offset list: one zero rectangle.
pub fn default_rect_list_zero() -> (r: Vec<Rect>)
    ensures
        r.deep_view() =~= seq![(0i32, 0i32, 0i32, 0i32)],
{
    let mut v: Vec<Rect> = Vec::new();
    v.push((0, 0, 0, 0));
    v
}

/// Default hold list: one zero duration.
pub fn default_i32_list_zero() -> (r: Vec<i32>)
    ensures
        r.deep_view() =~= seq![0i32],
{
    let mut v: Vec<i32> = Vec::new();
    v.push(0);
    v
}

/// Default swipe duration list.
pub fn default_duration_list() -> (r: Vec<i32>)
    ensures
        r.deep_view() =~= seq![200i32],
{
    let mut v: Vec<i32> = Vec::new();
    v.push(200);
    v
}

/// Nodes are enabled unless said otherwise.
pub fn default_enabled() -> (r: bool)
    ensures
        r == true,
{
    true
}

/// Default delay before a node's action, in milliseconds.
pub fn default_pre_delay() -> (r: i32)
    ensures
        r == 200,
{
    200
}

/// Default delay after a node's action, in milliseconds.
pub fn default_post_delay() -> (r: i32)
    ensures
        r == 200,
{
    200
}

/// A node runs once unless said otherwise.
pub fn default_repeat() -> (r: i32)
    ensures
        r == 1,
{
    1
}

/// By default a node's hit count is unbounded.
pub fn default_max_hit() -> (r: u32)
    ensures
        r == u32::MAX,
{
    u32::MAX
}

/// Parameters of a direct hit: no search at all.
#[derive(Debug, PartialEq)]
pub struct DirectHit {
    pub roi: Target,
    pub roi_offset: Rect,
}

impl Default for DirectHit {
    /// Whatever the previous step found, unshifted.
    fn default() -> (r: Self)
        ensures
            r.roi@ == TargetV::Bool(true),
            r.roi_offset == (0i32, 0i32, 0i32, 0i32),
    {
        DirectHit { roi: Target::Bool(true), roi_offset: (0, 0, 0, 0) }
    }
}

/// Parameters of a template match.
#[derive(Debug, PartialEq)]
pub struct TemplateMatch {
    pub template: Vec<String>,
    pub roi: Target,
    pub roi_offset: Rect,
    pub threshold: Vec<Number>,
    pub order_by: String,
    pub index: i32,
    pub method: i32,
    pub green_mask: bool,
}

/// Parameters of a feature match.
#[derive(Debug, PartialEq)]
pub struct FeatureMatch {
    pub template: Vec<String>,
    pub roi: Target,
    pub roi_offset: Rect,
    pub detector: String,
    pub order_by: String,
    pub count: i32,
    pub index: i32,
    pub green_mask: bool,
    pub ratio: Number,
}

/// Parameters of a color match.
#[derive(Debug, PartialEq)]
pub struct ColorMatch {
    pub lower: Vec<Vec<i32>>,
    pub upper: Vec<Vec<i32>>,
    pub roi: Target,
    pub roi_offset: Rect,
    pub order_by: String,
    pub method: i32,
    pub count: i32,
    pub index: i32,
    pub connected: bool,
}

/// Parameters of a text recognition.
#[derive(Debug, PartialEq)]
pub struct OCR {
    pub expected: Vec<String>,
    pub roi: Target,
    pub roi_offset: Rect,
    pub threshold: Number,
    pub replace: Vec<Vec<String>>,
    pub order_by: String,
    pub index: i32,
    pub only_rec: bool,
    pub model: String,
}

/// Parameters of a classification inference.
#[derive(Debug, PartialEq)]
pub struct NeuralNetworkClassify {
    pub model: String,
    pub expected: Vec<i32>,
    pub roi: Target,
    pub roi_offset: Rect,
    pub labels: Vec<String>,
    pub order_by: String,
    pub index: i32,
}

/// Parameters of a detection inference.
#[derive(Debug, PartialEq)]
pub struct NeuralNetworkDetect {
    pub model: String,
    pub expected: Vec<i32>,
    pub roi: Target,
    pub roi_offset: Rect,
    pub labels: Vec<String>,
    pub threshold: Vec<Number>,
    pub order_by: String,
    pub index: i32,
}

/// Parameters of a custom recognition.
#[derive(Debug, PartialEq)]
pub struct CustomRecognition {
    pub custom_recognition: String,
    pub roi: Target,
    pub roi_offset: Rect,
    pub custom_recognition_param: JsonValue,
}

/// Parameters of a conjunction of recognitions.
#[derive(Debug, PartialEq)]
pub struct And {
    pub all_of: Vec<JsonValue>,
    pub box_index: i32,
}

impl Default for And {
    /// An empty conjunction reporting its first box.
    fn default() -> (r: Self)
        ensures
            r.all_of@.len() == 0,
            r.box_index == 0,
    {
        And { all_of: Vec::new(), box_index: 0 }
    }
}

/// Parameters of a disjunction of recognitions.
#[derive(Debug, PartialEq)]
pub struct Or {
    pub any_of: Vec<JsonValue>,
}

impl Default for Or {
    /// An empty disjunction.
    fn default() -> (r: Self)
        ensures
            r.any_of@.len() == 0,
    {
        Or { any_of: Vec::new() }
    }
}

/// Parameters of a click.
#[derive(Debug, PartialEq)]
pub struct Click {
    pub target: Target,
    pub target_offset: Rect,
    pub contact: i32,
    pub pressure: i32,
}

impl Default for Click {
    /// Click the recognized target with the first contact.
    fn default() -> (r: Self)
        ensures
            r.target@ == TargetV::Bool(true),
            r.target_offset == (0i32, 0i32, 0i32, 0i32),
            r.contact == 0,
            r.pressure == 1,
    {
        Click {
            target: Target::Bool(true),
            target_offset: (0, 0, 0, 0),
            contact: 0,
            pressure: 1,
        }
    }
}

/// Parameters of a long press.
#[derive(Debug, PartialEq)]
pub struct LongPress {
    pub target: Target,
    pub target_offset: Rect,
    pub duration: i32,
    pub contact: i32,
    pub pressure: i32,
}

/// Parameters of one swipe.
#[derive(Debug, PartialEq)]
pub struct Swipe {
    pub starting: i32,
    pub begin: Target,
    pub begin_offset: Rect,
    pub end: Vec<Target>,
    pub end_offset: Vec<Rect>,
    pub end_hold: Vec<i32>,
    pub duration: Vec<i32>,
    pub only_hover: bool,
    pub contact: i32,
    pub pressure: i32,
}

/// Parameters of several swipes at once.
#[derive(Debug, PartialEq)]
pub struct MultiSwipe {
    pub swipes: Vec<JsonValue>,
}

/// Parameters of a touch-down or touch-move.
#[derive(Debug, PartialEq)]
pub struct Touch {
    pub contact: i32,
    pub target: Target,
    pub target_offset: Rect,
    pub pressure: i32,
}

/// Parameters of a touch-up.
#[derive(Debug, PartialEq, Eq, Structural, Clone, Copy)]
pub struct TouchUp {
    pub contact: i32,
}

/// Parameters of a key click: the key codes to press.
#[derive(Debug, PartialEq, Eq)]
pub struct KeyList {
    pub key: Vec<i32>,
}

/// Parameters of a long key press.
#[derive(Debug, PartialEq, Eq)]
pub struct LongPressKey {
    pub key: Vec<i32>,
    pub duration: i32,
}

/// Parameters of a key-down or key-up.
#[derive(Debug, PartialEq, Eq, Structural, Clone, Copy)]
pub struct Key {
    pub key: i32,
}

/// Parameters of a text input.
#[derive(Debug, PartialEq, Eq)]
pub struct InputText {
    pub input_text: String,
}

/// Parameters of an app start or stop.
#[derive(Debug, PartialEq, Eq)]
pub struct App {
    pub package: String,
}

/// Parameters of a scroll.
#[derive(Debug, PartialEq, Eq, Structural, Clone, Copy)]
pub struct Scroll {
    pub dx: i32,
    pub dy: i32,
}

impl Default for Scroll {
    /// No movement.
    fn default() -> (r: Self)
        ensures
            r.dx == 0,
            r.dy == 0,
    {
        Scroll { dx: 0, dy: 0 }
    }
}

/// Parameters of a host command.
#[derive(Debug, PartialEq, Eq)]
pub struct Command {
    pub exec_path: String,
    pub args: Vec<String>,
    pub detach: bool,
}

/// Parameters of a device shell command.
#[derive(Debug, PartialEq, Eq)]
pub struct Shell {
    pub cmd: String,
    pub timeout: i32,
}

/// Parameters of a custom action.
#[derive(Debug, PartialEq)]
pub struct CustomAction {
    pub custom_action: String,
    pub target: Target,
    pub custom_action_param: JsonValue,
    pub target_offset: Rect,
}

} // verus!
