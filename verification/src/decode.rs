//! The typed decoder: from a stored node's JSON to `PipelineData`.
//!
//! Wire values are strict about shapes — a two-element array is a
//! point, never a rectangle — but documented polymorphism is honored:
//! fields that are naturally scalar-or-list (a template name, a
//! threshold, a duration, a key code) accept a bare scalar as a
//! one-element list.  Absent fields take their documented defaults.

use vstd::prelude::*;

use crate::error::MaaError;
use crate::json::{arr_view, fields_get, fields_view, obj_get, JsonVal, JsonValue};
use crate::nextlist::{parse_next_entry, spec_parse_attr, NodeAttr, NodeAttrV};
use crate::pipeline::{
    spec_act_type_of, spec_reco_type_of, spec_target_of_json, Action, ActionParam,
    ActionParamV, ActionType, ActionV, Number, NumberV, PipelineData, PipelineDataV,
    Recognition, RecognitionParam, RecognitionParamV, RecognitionType, RecognitionV, Rect,
    Target, TargetV, WaitFreezes, WaitFreezesV,
};

verus! {

/// Apply an element decoder across a sequence, failing if any element
/// fails.
pub open spec fn spec_map_vals<T>(
    f: spec_fn(JsonVal) -> Result<T, ()>,
    xs: Seq<JsonVal>,
) -> Result<Seq<T>, ()>
    decreases xs.len(),
{
    if xs.len() == 0 {
        Ok(Seq::empty())
    } else {
        match f(xs[0]) {
            Err(()) => Err(()),
            Ok(t0) => match spec_map_vals(f, xs.subrange(1, xs.len() as int)) {
                Err(()) => Err(()),
                Ok(rest) => Ok(seq![t0] + rest),
            },
        }
    }
}

/// One failing element fails the whole sequence.
pub proof fn lemma_map_vals_err<T>(f: spec_fn(JsonVal) -> Result<T, ()>, xs: Seq<JsonVal>, i: int)
    requires
        0 <= i < xs.len(),
        f(xs[i]) is Err,
    ensures
        spec_map_vals(f, xs) is Err,
    decreases xs.len(),
{
    if i > 0 {
        let tail = xs.subrange(1, xs.len() as int);
        assert(tail[i - 1] == xs[i]);
        lemma_map_vals_err(f, tail, i - 1);
    }
}

/// Elementwise success determines the whole result.
pub proof fn lemma_map_vals_ok<T>(
    f: spec_fn(JsonVal) -> Result<T, ()>,
    xs: Seq<JsonVal>,
    ys: Seq<T>,
)
    requires
        xs.len() == ys.len(),
        forall|j: int| 0 <= j < xs.len() ==> f(#[trigger] xs[j]) == Ok::<T, ()>(ys[j]),
    ensures
        spec_map_vals(f, xs) == Ok::<Seq<T>, ()>(ys),
    decreases xs.len(),
{
    if xs.len() == 0 {
        assert(ys =~= Seq::<T>::empty());
    } else {
        let xt = xs.subrange(1, xs.len() as int);
        let yt = ys.subrange(1, ys.len() as int);
        assert(forall|j: int| 0 <= j < xt.len() ==> xt[j] == xs[j + 1] && yt[j] == ys[j + 1]);
        lemma_map_vals_ok(f, xt, yt);
        assert(seq![ys[0]] + yt =~= ys);
    }
}

/// Element decoders, as named spec functions so that exec proofs and
/// composite specs speak of the same closure.
pub open spec fn spec_str_el() -> spec_fn(JsonVal) -> Result<Seq<char>, ()> {
    |v: JsonVal|
        match v {
            JsonVal::Str(s) => Ok(s),
            _ => Err(()),
        }
}

/// Integer element decoder, within `i32` range.
pub open spec fn spec_i32_el() -> spec_fn(JsonVal) -> Result<i32, ()> {
    |v: JsonVal|
        match v {
            JsonVal::Int(i) => if i32::MIN <= i <= i32::MAX {
                Ok(i as i32)
            } else {
                Err(())
            },
            _ => Err(()),
        }
}

/// Number element decoder: integers and kept decimal text.
pub open spec fn spec_num_el() -> spec_fn(JsonVal) -> Result<NumberV, ()> {
    |v: JsonVal|
        match v {
            JsonVal::Int(i) => Ok(NumberV::Int(i)),
            JsonVal::Num(s) => Ok(NumberV::Dec(s)),
            _ => Err(()),
        }
}

/// Target element decoder.
pub open spec fn spec_target_el() -> spec_fn(JsonVal) -> Result<TargetV, ()> {
    |v: JsonVal| spec_target_of_json(v)
}

/// Rectangle element decoder: exactly four integers.
pub open spec fn spec_rect_el() -> spec_fn(JsonVal) -> Result<Rect, ()> {
    |v: JsonVal|
        match spec_target_of_json(v) {
            Ok(TargetV::Rect(r)) => Ok(r),
            _ => Err(()),
        }
}

/// Integer row decoder: an array of integers.
pub open spec fn spec_i32_row_el() -> spec_fn(JsonVal) -> Result<Seq<i32>, ()> {
    |v: JsonVal|
        match v {
            JsonVal::Arr(xs) => spec_map_vals(spec_i32_el(), xs),
            _ => Err(()),
        }
}

/// String row decoder: an array of strings.
pub open spec fn spec_str_row_el() -> spec_fn(JsonVal) -> Result<Seq<Seq<char>>, ()> {
    |v: JsonVal|
        match v {
            JsonVal::Arr(xs) => spec_map_vals(spec_str_el(), xs),
            _ => Err(()),
        }
}

/// Transition edge decoder: any accepted entry syntax.
pub open spec fn spec_attr_el() -> spec_fn(JsonVal) -> Result<NodeAttrV, ()> {
    |v: JsonVal| spec_parse_attr(v)
}

/// Opaque value decoder: anything passes through.
pub open spec fn spec_val_el() -> spec_fn(JsonVal) -> Result<JsonVal, ()> {
    |v: JsonVal| Ok(v)
}

/// Decode an array of strings.
pub fn strs_of_arr(xs: &Vec<JsonValue>) -> (r: Result<Vec<String>, MaaError>)
    ensures
        match spec_map_vals(spec_str_el(), arr_view(xs@)) {
            Ok(ys) => r matches Ok(v) && v.deep_view() == ys,
            Err(()) => r == Err::<Vec<String>, MaaError>(MaaError::InvalidConfig(None)),
        },
{
    let mut out: Vec<String> = Vec::new();
    let mut i: usize = 0;
    while i < xs.len()
        invariant
            i <= xs@.len(),
            out@.len() == i,
            forall|j: int| 0 <= j < i ==> spec_str_el()(#[trigger] arr_view(xs@)[j])
                == Ok::<Seq<char>, ()>(out.deep_view()[j]),
        decreases xs@.len() - i,
    {
        proof {
            broadcast use crate::json::group_json_view;

        }
        match &xs[i] {
            JsonValue::Str(s) => {
                out.push(s.clone());
            },
            _ => {
                proof {
                    lemma_map_vals_err(spec_str_el(), arr_view(xs@), i as int);
                }
                return Err(MaaError::InvalidConfig(None));
            },
        }
        i += 1;
    }
    proof {
        broadcast use crate::json::group_json_view;

        lemma_map_vals_ok(spec_str_el(), arr_view(xs@), out.deep_view());
    }
    Ok(out)
}

/// Decode an array of integers.
pub fn i32s_of_arr(xs: &Vec<JsonValue>) -> (r: Result<Vec<i32>, MaaError>)
    ensures
        match spec_map_vals(spec_i32_el(), arr_view(xs@)) {
            Ok(ys) => r matches Ok(v) && v.deep_view() == ys,
            Err(()) => r == Err::<Vec<i32>, MaaError>(MaaError::InvalidConfig(None)),
        },
{
    let mut out: Vec<i32> = Vec::new();
    let mut i: usize = 0;
    while i < xs.len()
        invariant
            i <= xs@.len(),
            out@.len() == i,
            forall|j: int| 0 <= j < i ==> spec_i32_el()(#[trigger] arr_view(xs@)[j])
                == Ok::<i32, ()>(out.deep_view()[j]),
        decreases xs@.len() - i,
    {
        proof {
            broadcast use crate::json::group_json_view;

        }
        match &xs[i] {
            JsonValue::Int(n) => {
                if i32::MIN as i64 <= *n && *n <= i32::MAX as i64 {
                    out.push(*n as i32);
                } else {
                    proof {
                        lemma_map_vals_err(spec_i32_el(), arr_view(xs@), i as int);
                    }
                    return Err(MaaError::InvalidConfig(None));
                }
            },
            _ => {
                proof {
                    lemma_map_vals_err(spec_i32_el(), arr_view(xs@), i as int);
                }
                return Err(MaaError::InvalidConfig(None));
            },
        }
        i += 1;
    }
    proof {
        broadcast use crate::json::group_json_view;

        lemma_map_vals_ok(spec_i32_el(), arr_view(xs@), out.deep_view());
    }
    Ok(out)
}

/// Decode an array of numbers.
pub fn nums_of_arr(xs: &Vec<JsonValue>) -> (r: Result<Vec<Number>, MaaError>)
    ensures
        match spec_map_vals(spec_num_el(), arr_view(xs@)) {
            Ok(ys) => r matches Ok(v) && v.deep_view() == ys,
            Err(()) => r == Err::<Vec<Number>, MaaError>(MaaError::InvalidConfig(None)),
        },
{
    let mut out: Vec<Number> = Vec::new();
    let mut i: usize = 0;
    while i < xs.len()
        invariant
            i <= xs@.len(),
            out@.len() == i,
            forall|j: int| 0 <= j < i ==> spec_num_el()(#[trigger] arr_view(xs@)[j])
                == Ok::<NumberV, ()>(out.deep_view()[j]),
        decreases xs@.len() - i,
    {
        proof {
            broadcast use crate::json::group_json_view;

        }
        match &xs[i] {
            JsonValue::Int(n) => {
                out.push(Number::Int(*n));
            },
            JsonValue::Num(s) => {
                out.push(Number::Dec(s.clone()));
            },
            _ => {
                proof {
                    lemma_map_vals_err(spec_num_el(), arr_view(xs@), i as int);
                }
                return Err(MaaError::InvalidConfig(None));
            },
        }
        i += 1;
    }
    proof {
        broadcast use crate::json::group_json_view;

        lemma_map_vals_ok(spec_num_el(), arr_view(xs@), out.deep_view());
    }
    Ok(out)
}

/// Decode an array of targets.
pub fn targets_of_arr(xs: &Vec<JsonValue>) -> (r: Result<Vec<Target>, MaaError>)
    ensures
        match spec_map_vals(spec_target_el(), arr_view(xs@)) {
            Ok(ys) => r matches Ok(v) && v.deep_view() == ys,
            Err(()) => r == Err::<Vec<Target>, MaaError>(MaaError::InvalidConfig(None)),
        },
{
    let mut out: Vec<Target> = Vec::new();
    let mut i: usize = 0;
    while i < xs.len()
        invariant
            i <= xs@.len(),
            out@.len() == i,
            forall|j: int| 0 <= j < i ==> spec_target_el()(#[trigger] arr_view(xs@)[j])
                == Ok::<TargetV, ()>(out.deep_view()[j]),
        decreases xs@.len() - i,
    {
        proof {
            broadcast use crate::json::group_json_view;

        }
        match Target::from_json(&xs[i]) {
            Ok(t) => {
                out.push(t);
            },
            Err(_) => {
                proof {
                    lemma_map_vals_err(spec_target_el(), arr_view(xs@), i as int);
                }
                return Err(MaaError::InvalidConfig(None));
            },
        }
        i += 1;
    }
    proof {
        broadcast use crate::json::group_json_view;

        lemma_map_vals_ok(spec_target_el(), arr_view(xs@), out.deep_view());
    }
    Ok(out)
}

/// Decode an array of rectangles.
pub fn rects_of_arr(xs: &Vec<JsonValue>) -> (r: Result<Vec<Rect>, MaaError>)
    ensures
        match spec_map_vals(spec_rect_el(), arr_view(xs@)) {
            Ok(ys) => r matches Ok(v) && v.deep_view() == ys,
            Err(()) => r == Err::<Vec<Rect>, MaaError>(MaaError::InvalidConfig(None)),
        },
{
    let mut out: Vec<Rect> = Vec::new();
    let mut i: usize = 0;
    while i < xs.len()
        invariant
            i <= xs@.len(),
            out@.len() == i,
            forall|j: int| 0 <= j < i ==> spec_rect_el()(#[trigger] arr_view(xs@)[j])
                == Ok::<Rect, ()>(out.deep_view()[j]),
        decreases xs@.len() - i,
    {
        proof {
            broadcast use crate::json::group_json_view;

        }
        match Target::from_json(&xs[i]) {
            Ok(Target::Rect(rc)) => {
                out.push(rc);
            },
            _ => {
                proof {
                    lemma_map_vals_err(spec_rect_el(), arr_view(xs@), i as int);
                }
                return Err(MaaError::InvalidConfig(None));
            },
        }
        i += 1;
    }
    proof {
        broadcast use crate::json::group_json_view;

        lemma_map_vals_ok(spec_rect_el(), arr_view(xs@), out.deep_view());
    }
    Ok(out)
}

/// Decode an array of integer rows.
pub fn i32_rows_of_arr(xs: &Vec<JsonValue>) -> (r: Result<Vec<Vec<i32>>, MaaError>)
    ensures
        match spec_map_vals(spec_i32_row_el(), arr_view(xs@)) {
            Ok(ys) => r matches Ok(v) && v.deep_view() == ys,
            Err(()) => r == Err::<Vec<Vec<i32>>, MaaError>(MaaError::InvalidConfig(None)),
        },
{
    let mut out: Vec<Vec<i32>> = Vec::new();
    let mut i: usize = 0;
    while i < xs.len()
        invariant
            i <= xs@.len(),
            out@.len() == i,
            forall|j: int| 0 <= j < i ==> spec_i32_row_el()(#[trigger] arr_view(xs@)[j])
                == Ok::<Seq<i32>, ()>(out.deep_view()[j]),
        decreases xs@.len() - i,
    {
        proof {
            broadcast use crate::json::group_json_view;

        }
        match &xs[i] {
            JsonValue::Arr(row) => match i32s_of_arr(row) {
                Ok(rw) => {
                    out.push(rw);
                },
                Err(_) => {
                    proof {
                        lemma_map_vals_err(spec_i32_row_el(), arr_view(xs@), i as int);
                    }
                    return Err(MaaError::InvalidConfig(None));
                },
            },
            _ => {
                proof {
                    lemma_map_vals_err(spec_i32_row_el(), arr_view(xs@), i as int);
                }
                return Err(MaaError::InvalidConfig(None));
            },
        }
        i += 1;
    }
    proof {
        broadcast use crate::json::group_json_view;

        lemma_map_vals_ok(spec_i32_row_el(), arr_view(xs@), out.deep_view());
    }
    Ok(out)
}

/// Decode an array of string rows.
pub fn str_rows_of_arr(xs: &Vec<JsonValue>) -> (r: Result<Vec<Vec<String>>, MaaError>)
    ensures
        match spec_map_vals(spec_str_row_el(), arr_view(xs@)) {
            Ok(ys) => r matches Ok(v) && v.deep_view() == ys,
            Err(()) => r == Err::<Vec<Vec<String>>, MaaError>(MaaError::InvalidConfig(None)),
        },
{
    let mut out: Vec<Vec<String>> = Vec::new();
    let mut i: usize = 0;
    while i < xs.len()
        invariant
            i <= xs@.len(),
            out@.len() == i,
            forall|j: int| 0 <= j < i ==> spec_str_row_el()(#[trigger] arr_view(xs@)[j])
                == Ok::<Seq<Seq<char>>, ()>(out.deep_view()[j]),
        decreases xs@.len() - i,
    {
        proof {
            broadcast use crate::json::group_json_view;

        }
        match &xs[i] {
            JsonValue::Arr(row) => match strs_of_arr(row) {
                Ok(rw) => {
                    out.push(rw);
                },
                Err(_) => {
                    proof {
                        lemma_map_vals_err(spec_str_row_el(), arr_view(xs@), i as int);
                    }
                    return Err(MaaError::InvalidConfig(None));
                },
            },
            _ => {
                proof {
                    lemma_map_vals_err(spec_str_row_el(), arr_view(xs@), i as int);
                }
                return Err(MaaError::InvalidConfig(None));
            },
        }
        i += 1;
    }
    proof {
        broadcast use crate::json::group_json_view;

        lemma_map_vals_ok(spec_str_row_el(), arr_view(xs@), out.deep_view());
    }
    Ok(out)
}

/// Decode an array of transition edges.
pub fn attrs_of_arr(xs: &Vec<JsonValue>) -> (r: Result<Vec<NodeAttr>, MaaError>)
    ensures
        match spec_map_vals(spec_attr_el(), arr_view(xs@)) {
            Ok(ys) => r matches Ok(v) && v.deep_view() == ys,
            Err(()) => r == Err::<Vec<NodeAttr>, MaaError>(MaaError::InvalidConfig(None)),
        },
{
    let mut out: Vec<NodeAttr> = Vec::new();
    let mut i: usize = 0;
    while i < xs.len()
        invariant
            i <= xs@.len(),
            out@.len() == i,
            forall|j: int| 0 <= j < i ==> spec_attr_el()(#[trigger] arr_view(xs@)[j])
                == Ok::<NodeAttrV, ()>(out.deep_view()[j]),
        decreases xs@.len() - i,
    {
        proof {
            broadcast use crate::json::group_json_view;

        }
        match parse_next_entry(&xs[i]) {
            Ok(a) => {
                out.push(a);
            },
            Err(_) => {
                proof {
                    lemma_map_vals_err(spec_attr_el(), arr_view(xs@), i as int);
                }
                return Err(MaaError::InvalidConfig(None));
            },
        }
        i += 1;
    }
    proof {
        broadcast use crate::json::group_json_view;

        lemma_map_vals_ok(spec_attr_el(), arr_view(xs@), out.deep_view());
    }
    Ok(out)
}

/// Copy an array of opaque values.
pub fn vals_of_arr(xs: &Vec<JsonValue>) -> (r: Vec<JsonValue>)
    ensures
        r.deep_view() == arr_view(xs@),
{
    let out = crate::json::clone_arr(xs);
    proof {
        broadcast use crate::json::group_json_view;

        assert(out.deep_view() =~= arr_view(xs@));
    }
    out
}

/// Read an optional field and convert it; an absent field is `None`.
pub open spec fn spec_fld_i32(fs: Seq<(Seq<char>, JsonVal)>, k: Seq<char>) -> Result<
    Option<i32>,
    (),
> {
    match obj_get(fs, k) {
        None => Ok(None),
        Some(JsonVal::Int(i)) => if i32::MIN <= i <= i32::MAX {
            Ok(Some(i as i32))
        } else {
            Err(())
        },
        Some(_) => Err(()),
    }
}

/// An optional unsigned 32-bit field.
pub open spec fn spec_fld_u32(fs: Seq<(Seq<char>, JsonVal)>, k: Seq<char>) -> Result<
    Option<u32>,
    (),
> {
    match obj_get(fs, k) {
        None => Ok(None),
        Some(JsonVal::Int(i)) => if 0 <= i <= u32::MAX {
            Ok(Some(i as u32))
        } else {
            Err(())
        },
        Some(_) => Err(()),
    }
}

/// An optional boolean field.
pub open spec fn spec_fld_bool(fs: Seq<(Seq<char>, JsonVal)>, k: Seq<char>) -> Result<
    Option<bool>,
    (),
> {
    match obj_get(fs, k) {
        None => Ok(None),
        Some(JsonVal::Bool(b)) => Ok(Some(b)),
        Some(_) => Err(()),
    }
}

/// An optional string field.
pub open spec fn spec_fld_str(fs: Seq<(Seq<char>, JsonVal)>, k: Seq<char>) -> Result<
    Option<Seq<char>>,
    (),
> {
    match obj_get(fs, k) {
        None => Ok(None),
        Some(JsonVal::Str(s)) => Ok(Some(s)),
        Some(_) => Err(()),
    }
}

/// An optional number field.
pub open spec fn spec_fld_num(fs: Seq<(Seq<char>, JsonVal)>, k: Seq<char>) -> Result<
    Option<NumberV>,
    (),
> {
    match obj_get(fs, k) {
        None => Ok(None),
        Some(v) => match spec_num_el()(v) {
            Ok(n) => Ok(Some(n)),
            Err(()) => Err(()),
        },
    }
}

/// An optional target field.
pub open spec fn spec_fld_target(fs: Seq<(Seq<char>, JsonVal)>, k: Seq<char>) -> Result<
    Option<TargetV>,
    (),
> {
    match obj_get(fs, k) {
        None => Ok(None),
        Some(v) => match spec_target_of_json(v) {
            Ok(t) => Ok(Some(t)),
            Err(()) => Err(()),
        },
    }
}

/// An optional rectangle field.
pub open spec fn spec_fld_rect(fs: Seq<(Seq<char>, JsonVal)>, k: Seq<char>) -> Result<
    Option<Rect>,
    (),
> {
    match obj_get(fs, k) {
        None => Ok(None),
        Some(v) => match spec_rect_el()(v) {
            Ok(t) => Ok(Some(t)),
            Err(()) => Err(()),
        },
    }
}

/// An optional scalar-or-list of strings: a bare string reads as a
/// one-element list.
pub open spec fn spec_fld_strs_sv(fs: Seq<(Seq<char>, JsonVal)>, k: Seq<char>) -> Result<
    Option<Seq<Seq<char>>>,
    (),
> {
    match obj_get(fs, k) {
        None => Ok(None),
        Some(JsonVal::Str(s)) => Ok(Some(seq![s])),
        Some(JsonVal::Arr(xs)) => match spec_map_vals(spec_str_el(), xs) {
            Ok(ys) => Ok(Some(ys)),
            Err(()) => Err(()),
        },
        Some(_) => Err(()),
    }
}

/// An optional scalar-or-list of numbers.
pub open spec fn spec_fld_nums_sv(fs: Seq<(Seq<char>, JsonVal)>, k: Seq<char>) -> Result<
    Option<Seq<NumberV>>,
    (),
> {
    match obj_get(fs, k) {
        None => Ok(None),
        Some(JsonVal::Arr(xs)) => match spec_map_vals(spec_num_el(), xs) {
            Ok(ys) => Ok(Some(ys)),
            Err(()) => Err(()),
        },
        Some(v) => match spec_num_el()(v) {
            Ok(n) => Ok(Some(seq![n])),
            Err(()) => Err(()),
        },
    }
}

/// An optional scalar-or-list of integers.
pub open spec fn spec_fld_i32s_sv(fs: Seq<(Seq<char>, JsonVal)>, k: Seq<char>) -> Result<
    Option<Seq<i32>>,
    (),
> {
    match obj_get(fs, k) {
        None => Ok(None),
        Some(JsonVal::Arr(xs)) => match spec_map_vals(spec_i32_el(), xs) {
            Ok(ys) => Ok(Some(ys)),
            Err(()) => Err(()),
        },
        Some(v) => match spec_i32_el()(v) {
            Ok(n) => Ok(Some(seq![n])),
            Err(()) => Err(()),
        },
    }
}

/// An optional plain list of strings.
pub open spec fn spec_fld_strs(fs: Seq<(Seq<char>, JsonVal)>, k: Seq<char>) -> Result<
    Option<Seq<Seq<char>>>,
    (),
> {
    match obj_get(fs, k) {
        None => Ok(None),
        Some(JsonVal::Arr(xs)) => match spec_map_vals(spec_str_el(), xs) {
            Ok(ys) => Ok(Some(ys)),
            Err(()) => Err(()),
        },
        Some(_) => Err(()),
    }
}

/// An optional plain list of integers.
pub open spec fn spec_fld_i32s(fs: Seq<(Seq<char>, JsonVal)>, k: Seq<char>) -> Result<
    Option<Seq<i32>>,
    (),
> {
    match obj_get(fs, k) {
        None => Ok(None),
        Some(JsonVal::Arr(xs)) => match spec_map_vals(spec_i32_el(), xs) {
            Ok(ys) => Ok(Some(ys)),
            Err(()) => Err(()),
        },
        Some(_) => Err(()),
    }
}

/// An optional list of targets.
pub open spec fn spec_fld_targets(fs: Seq<(Seq<char>, JsonVal)>, k: Seq<char>) -> Result<
    Option<Seq<TargetV>>,
    (),
> {
    match obj_get(fs, k) {
        None => Ok(None),
        Some(JsonVal::Arr(xs)) => match spec_map_vals(spec_target_el(), xs) {
            Ok(ys) => Ok(Some(ys)),
            Err(()) => Err(()),
        },
        Some(_) => Err(()),
    }
}

/// An optional list of rectangles.
pub open spec fn spec_fld_rects(fs: Seq<(Seq<char>, JsonVal)>, k: Seq<char>) -> Result<
    Option<Seq<Rect>>,
    (),
> {
    match obj_get(fs, k) {
        None => Ok(None),
        Some(JsonVal::Arr(xs)) => match spec_map_vals(spec_rect_el(), xs) {
            Ok(ys) => Ok(Some(ys)),
            Err(()) => Err(()),
        },
        Some(_) => Err(()),
    }
}

/// An optional matrix of integers.
pub open spec fn spec_fld_i32_mat(fs: Seq<(Seq<char>, JsonVal)>, k: Seq<char>) -> Result<
    Option<Seq<Seq<i32>>>,
    (),
> {
    match obj_get(fs, k) {
        None => Ok(None),
        Some(JsonVal::Arr(xs)) => match spec_map_vals(spec_i32_row_el(), xs) {
            Ok(ys) => Ok(Some(ys)),
            Err(()) => Err(()),
        },
        Some(_) => Err(()),
    }
}

/// An optional matrix of strings.
pub open spec fn spec_fld_str_mat(fs: Seq<(Seq<char>, JsonVal)>, k: Seq<char>) -> Result<
    Option<Seq<Seq<Seq<char>>>>,
    (),
> {
    match obj_get(fs, k) {
        None => Ok(None),
        Some(JsonVal::Arr(xs)) => match spec_map_vals(spec_str_row_el(), xs) {
            Ok(ys) => Ok(Some(ys)),
            Err(()) => Err(()),
        },
        Some(_) => Err(()),
    }
}

/// An optional list of opaque values.
pub open spec fn spec_fld_vals(fs: Seq<(Seq<char>, JsonVal)>, k: Seq<char>) -> Result<
    Option<Seq<JsonVal>>,
    (),
> {
    match obj_get(fs, k) {
        None => Ok(None),
        Some(JsonVal::Arr(xs)) => Ok(Some(xs)),
        Some(_) => Err(()),
    }
}

/// An optional opaque value.
pub open spec fn spec_fld_val(fs: Seq<(Seq<char>, JsonVal)>, k: Seq<char>) -> Option<JsonVal> {
    obj_get(fs, k)
}

/// An optional list of transition edges.
pub open spec fn spec_fld_attrs(fs: Seq<(Seq<char>, JsonVal)>, k: Seq<char>) -> Result<
    Option<Seq<NodeAttrV>>,
    (),
> {
    match obj_get(fs, k) {
        None => Ok(None),
        Some(JsonVal::Arr(xs)) => match spec_map_vals(spec_attr_el(), xs) {
            Ok(ys) => Ok(Some(ys)),
            Err(()) => Err(()),
        },
        Some(_) => Err(()),
    }
}

/// Look a field up and decode it as an `i32`.
pub fn get_i32(fs: &Vec<(String, JsonValue)>, k: &str) -> (r: Result<Option<i32>, MaaError>)
    ensures
        match spec_fld_i32(fields_view(fs@), k@) {
            Ok(x) => r == Ok::<Option<i32>, MaaError>(x),
            Err(()) => r == Err::<Option<i32>, MaaError>(MaaError::InvalidConfig(None)),
        },
{
    match fields_get(fs, k) {
        None => Ok(None),
        Some(JsonValue::Int(i)) => {
            if i32::MIN as i64 <= *i && *i <= i32::MAX as i64 {
                Ok(Some(*i as i32))
            } else {
                Err(MaaError::InvalidConfig(None))
            }
        },
        Some(_) => Err(MaaError::InvalidConfig(None)),
    }
}

/// Look a field up and decode it as a `u32`.
pub fn get_u32(fs: &Vec<(String, JsonValue)>, k: &str) -> (r: Result<Option<u32>, MaaError>)
    ensures
        match spec_fld_u32(fields_view(fs@), k@) {
            Ok(x) => r == Ok::<Option<u32>, MaaError>(x),
            Err(()) => r == Err::<Option<u32>, MaaError>(MaaError::InvalidConfig(None)),
        },
{
    match fields_get(fs, k) {
        None => Ok(None),
        Some(JsonValue::Int(i)) => {
            if 0 <= *i && *i <= u32::MAX as i64 {
                Ok(Some(*i as u32))
            } else {
                Err(MaaError::InvalidConfig(None))
            }
        },
        Some(_) => Err(MaaError::InvalidConfig(None)),
    }
}

/// Look a field up and decode it as a boolean.
pub fn get_bool(fs: &Vec<(String, JsonValue)>, k: &str) -> (r: Result<Option<bool>, MaaError>)
    ensures
        match spec_fld_bool(fields_view(fs@), k@) {
            Ok(x) => r == Ok::<Option<bool>, MaaError>(x),
            Err(()) => r == Err::<Option<bool>, MaaError>(MaaError::InvalidConfig(None)),
        },
{
    match fields_get(fs, k) {
        None => Ok(None),
        Some(JsonValue::Bool(b)) => Ok(Some(*b)),
        Some(_) => Err(MaaError::InvalidConfig(None)),
    }
}

/// Look a field up and decode it as a string.
pub fn get_str(fs: &Vec<(String, JsonValue)>, k: &str) -> (r: Result<Option<String>, MaaError>)
    ensures
        match spec_fld_str(fields_view(fs@), k@) {
            Ok(x) => (r matches Ok(o) && o.deep_view() == x),
            Err(()) => r == Err::<Option<String>, MaaError>(MaaError::InvalidConfig(None)),
        },
{
    match fields_get(fs, k) {
        None => Ok(None),
        Some(JsonValue::Str(s)) => Ok(Some(s.clone())),
        Some(_) => Err(MaaError::InvalidConfig(None)),
    }
}

/// Look a field up and decode it as a number.
pub fn get_num(fs: &Vec<(String, JsonValue)>, k: &str) -> (r: Result<Option<Number>, MaaError>)
    ensures
        match spec_fld_num(fields_view(fs@), k@) {
            Ok(x) => (r matches Ok(o) && o.deep_view() == x),
            Err(()) => r == Err::<Option<Number>, MaaError>(MaaError::InvalidConfig(None)),
        },
{
    match fields_get(fs, k) {
        None => Ok(None),
        Some(JsonValue::Int(i)) => Ok(Some(Number::Int(*i))),
        Some(JsonValue::Num(s)) => Ok(Some(Number::Dec(s.clone()))),
        Some(_) => Err(MaaError::InvalidConfig(None)),
    }
}

/// Look a field up and decode it as a target.
pub fn get_target(fs: &Vec<(String, JsonValue)>, k: &str) -> (r: Result<
    Option<Target>,
    MaaError,
>)
    ensures
        match spec_fld_target(fields_view(fs@), k@) {
            Ok(x) => (r matches Ok(o) && o.deep_view() == x),
            Err(()) => r == Err::<Option<Target>, MaaError>(MaaError::InvalidConfig(None)),
        },
{
    match fields_get(fs, k) {
        None => Ok(None),
        Some(v) => match Target::from_json(v) {
            Ok(t) => Ok(Some(t)),
            Err(e) => Err(e),
        },
    }
}

/// Look a field up and decode it as a rectangle.
pub fn get_rect(fs: &Vec<(String, JsonValue)>, k: &str) -> (r: Result<Option<Rect>, MaaError>)
    ensures
        match spec_fld_rect(fields_view(fs@), k@) {
            Ok(x) => r == Ok::<Option<Rect>, MaaError>(x),
            Err(()) => r == Err::<Option<Rect>, MaaError>(MaaError::InvalidConfig(None)),
        },
{
    match fields_get(fs, k) {
        None => Ok(None),
        Some(v) => match Target::from_json(v) {
            Ok(Target::Rect(rc)) => Ok(Some(rc)),
            _ => Err(MaaError::InvalidConfig(None)),
        },
    }
}

/// Look a field up and decode it as a scalar-or-list of strings.
pub fn get_strs_sv(fs: &Vec<(String, JsonValue)>, k: &str) -> (r: Result<
    Option<Vec<String>>,
    MaaError,
>)
    ensures
        match spec_fld_strs_sv(fields_view(fs@), k@) {
            Ok(x) => (r matches Ok(o) && o.deep_view() == x),
            Err(()) => r == Err::<Option<Vec<String>>, MaaError>(
                MaaError::InvalidConfig(None),
            ),
        },
{
    match fields_get(fs, k) {
        None => Ok(None),
        Some(JsonValue::Str(s)) => {
            let mut one: Vec<String> = Vec::new();
            one.push(s.clone());
            proof {
                assert(one.deep_view() =~= seq![s@]);
            }
            Ok(Some(one))
        },
        Some(JsonValue::Arr(xs)) => match strs_of_arr(xs) {
            Ok(v) => Ok(Some(v)),
            Err(e) => Err(e),
        },
        Some(_) => Err(MaaError::InvalidConfig(None)),
    }
}

/// Look a field up and decode it as a scalar-or-list of numbers.
pub fn get_nums_sv(fs: &Vec<(String, JsonValue)>, k: &str) -> (r: Result<
    Option<Vec<Number>>,
    MaaError,
>)
    ensures
        match spec_fld_nums_sv(fields_view(fs@), k@) {
            Ok(x) => (r matches Ok(o) && o.deep_view() == x),
            Err(()) => r == Err::<Option<Vec<Number>>, MaaError>(
                MaaError::InvalidConfig(None),
            ),
        },
{
    match fields_get(fs, k) {
        None => Ok(None),
        Some(JsonValue::Arr(xs)) => match nums_of_arr(xs) {
            Ok(v) => Ok(Some(v)),
            Err(e) => Err(e),
        },
        Some(JsonValue::Int(i)) => {
            let mut one: Vec<Number> = Vec::new();
            one.push(Number::Int(*i));
            proof {
                assert(one.deep_view() =~= seq![NumberV::Int(*i)]);
            }
            Ok(Some(one))
        },
        Some(JsonValue::Num(s)) => {
            let mut one: Vec<Number> = Vec::new();
            one.push(Number::Dec(s.clone()));
            proof {
                assert(one.deep_view() =~= seq![NumberV::Dec(s@)]);
            }
            Ok(Some(one))
        },
        Some(_) => Err(MaaError::InvalidConfig(None)),
    }
}

/// Look a field up and decode it as a scalar-or-list of integers.
pub fn get_i32s_sv(fs: &Vec<(String, JsonValue)>, k: &str) -> (r: Result<
    Option<Vec<i32>>,
    MaaError,
>)
    ensures
        match spec_fld_i32s_sv(fields_view(fs@), k@) {
            Ok(x) => (r matches Ok(o) && o.deep_view() == x),
            Err(()) => r == Err::<Option<Vec<i32>>, MaaError>(MaaError::InvalidConfig(None)),
        },
{
    match fields_get(fs, k) {
        None => Ok(None),
        Some(JsonValue::Arr(xs)) => match i32s_of_arr(xs) {
            Ok(v) => Ok(Some(v)),
            Err(e) => Err(e),
        },
        Some(JsonValue::Int(i)) => {
            if i32::MIN as i64 <= *i && *i <= i32::MAX as i64 {
                let mut one: Vec<i32> = Vec::new();
                one.push(*i as i32);
                proof {
                    assert(one.deep_view() =~= seq![*i as i32]);
                }
                Ok(Some(one))
            } else {
                Err(MaaError::InvalidConfig(None))
            }
        },
        Some(_) => Err(MaaError::InvalidConfig(None)),
    }
}

/// Look a field up and decode it as a plain list of strings.
pub fn get_strs(fs: &Vec<(String, JsonValue)>, k: &str) -> (r: Result<
    Option<Vec<String>>,
    MaaError,
>)
    ensures
        match spec_fld_strs(fields_view(fs@), k@) {
            Ok(x) => (r matches Ok(o) && o.deep_view() == x),
            Err(()) => r == Err::<Option<Vec<String>>, MaaError>(
                MaaError::InvalidConfig(None),
            ),
        },
{
    match fields_get(fs, k) {
        None => Ok(None),
        Some(JsonValue::Arr(xs)) => match strs_of_arr(xs) {
            Ok(v) => Ok(Some(v)),
            Err(e) => Err(e),
        },
        Some(_) => Err(MaaError::InvalidConfig(None)),
    }
}

/// Look a field up and decode it as a plain list of integers.
pub fn get_i32s(fs: &Vec<(String, JsonValue)>, k: &str) -> (r: Result<
    Option<Vec<i32>>,
    MaaError,
>)
    ensures
        match spec_fld_i32s(fields_view(fs@), k@) {
            Ok(x) => (r matches Ok(o) && o.deep_view() == x),
            Err(()) => r == Err::<Option<Vec<i32>>, MaaError>(MaaError::InvalidConfig(None)),
        },
{
    match fields_get(fs, k) {
        None => Ok(None),
        Some(JsonValue::Arr(xs)) => match i32s_of_arr(xs) {
            Ok(v) => Ok(Some(v)),
            Err(e) => Err(e),
        },
        Some(_) => Err(MaaError::InvalidConfig(None)),
    }
}

/// Look a field up and decode it as a list of targets.
pub fn get_targets(fs: &Vec<(String, JsonValue)>, k: &str) -> (r: Result<
    Option<Vec<Target>>,
    MaaError,
>)
    ensures
        match spec_fld_targets(fields_view(fs@), k@) {
            Ok(x) => (r matches Ok(o) && o.deep_view() == x),
            Err(()) => r == Err::<Option<Vec<Target>>, MaaError>(
                MaaError::InvalidConfig(None),
            ),
        },
{
    match fields_get(fs, k) {
        None => Ok(None),
        Some(JsonValue::Arr(xs)) => match targets_of_arr(xs) {
            Ok(v) => Ok(Some(v)),
            Err(e) => Err(e),
        },
        Some(_) => Err(MaaError::InvalidConfig(None)),
    }
}

/// Look a field up and decode it as a list of rectangles.
pub fn get_rects(fs: &Vec<(String, JsonValue)>, k: &str) -> (r: Result<
    Option<Vec<Rect>>,
    MaaError,
>)
    ensures
        match spec_fld_rects(fields_view(fs@), k@) {
            Ok(x) => (r matches Ok(o) && o.deep_view() == x),
            Err(()) => r == Err::<Option<Vec<Rect>>, MaaError>(
                MaaError::InvalidConfig(None),
            ),
        },
{
    match fields_get(fs, k) {
        None => Ok(None),
        Some(JsonValue::Arr(xs)) => match rects_of_arr(xs) {
            Ok(v) => Ok(Some(v)),
            Err(e) => Err(e),
        },
        Some(_) => Err(MaaError::InvalidConfig(None)),
    }
}

/// Look a field up and decode it as an integer matrix.
pub fn get_i32_mat(fs: &Vec<(String, JsonValue)>, k: &str) -> (r: Result<
    Option<Vec<Vec<i32>>>,
    MaaError,
>)
    ensures
        match spec_fld_i32_mat(fields_view(fs@), k@) {
            Ok(x) => (r matches Ok(o) && o.deep_view() == x),
            Err(()) => r == Err::<Option<Vec<Vec<i32>>>, MaaError>(
                MaaError::InvalidConfig(None),
            ),
        },
{
    match fields_get(fs, k) {
        None => Ok(None),
        Some(JsonValue::Arr(xs)) => match i32_rows_of_arr(xs) {
            Ok(v) => Ok(Some(v)),
            Err(e) => Err(e),
        },
        Some(_) => Err(MaaError::InvalidConfig(None)),
    }
}

/// Look a field up and decode it as a string matrix.
pub fn get_str_mat(fs: &Vec<(String, JsonValue)>, k: &str) -> (r: Result<
    Option<Vec<Vec<String>>>,
    MaaError,
>)
    ensures
        match spec_fld_str_mat(fields_view(fs@), k@) {
            Ok(x) => (r matches Ok(o) && o.deep_view() == x),
            Err(()) => r == Err::<Option<Vec<Vec<String>>>, MaaError>(
                MaaError::InvalidConfig(None),
            ),
        },
{
    match fields_get(fs, k) {
        None => Ok(None),
        Some(JsonValue::Arr(xs)) => match str_rows_of_arr(xs) {
            Ok(v) => Ok(Some(v)),
            Err(e) => Err(e),
        },
        Some(_) => Err(MaaError::InvalidConfig(None)),
    }
}

/// Look a field up and keep its elements opaque.
pub fn get_vals(fs: &Vec<(String, JsonValue)>, k: &str) -> (r: Result<
    Option<Vec<JsonValue>>,
    MaaError,
>)
    ensures
        match spec_fld_vals(fields_view(fs@), k@) {
            Ok(x) => (r matches Ok(o) && o.deep_view() == x),
            Err(()) => r == Err::<Option<Vec<JsonValue>>, MaaError>(
                MaaError::InvalidConfig(None),
            ),
        },
{
    match fields_get(fs, k) {
        None => Ok(None),
        Some(JsonValue::Arr(xs)) => Ok(Some(vals_of_arr(xs))),
        Some(_) => Err(MaaError::InvalidConfig(None)),
    }
}

/// Look a field up and keep it opaque.
pub fn get_val(fs: &Vec<(String, JsonValue)>, k: &str) -> (r: Option<JsonValue>)
    ensures
        r.deep_view() == spec_fld_val(fields_view(fs@), k@),
{
    match fields_get(fs, k) {
        None => None,
        Some(v) => Some(v.clone()),
    }
}

/// Look a field up and decode it as a list of transition edges.
pub fn get_attrs(fs: &Vec<(String, JsonValue)>, k: &str) -> (r: Result<
    Option<Vec<NodeAttr>>,
    MaaError,
>)
    ensures
        match spec_fld_attrs(fields_view(fs@), k@) {
            Ok(x) => (r matches Ok(o) && o.deep_view() == x),
            Err(()) => r == Err::<Option<Vec<NodeAttr>>, MaaError>(
                MaaError::InvalidConfig(None),
            ),
        },
{
    match fields_get(fs, k) {
        None => Ok(None),
        Some(JsonValue::Arr(xs)) => match attrs_of_arr(xs) {
            Ok(v) => Ok(Some(v)),
            Err(e) => Err(e),
        },
        Some(_) => Err(MaaError::InvalidConfig(None)),
    }
}

/// A default for an absent field.
pub open spec fn spec_or<T>(x: Option<T>, d: T) -> T {
    match x {
        Some(v) => v,
        None => d,
    }
}

/// Decoding of the recognition parameter superset from a `param`
/// object's fields.
pub open spec fn spec_decode_reco_param(fs: Seq<(Seq<char>, JsonVal)>) -> Result<
    RecognitionParamV,
    (),
> {
    if spec_fld_target(fs, ("roi")@) is Err || spec_fld_rect(fs, ("roi_offset")@) is Err
        || spec_fld_strs_sv(fs, ("template")@) is Err || spec_fld_nums_sv(
        fs,
        ("threshold")@,
    ) is Err || spec_fld_str(fs, ("order_by")@) is Err || spec_fld_i32(fs, ("index")@) is Err
        || spec_fld_i32(fs, ("method")@) is Err || spec_fld_bool(fs, ("green_mask")@) is Err
        || spec_fld_str(fs, ("detector")@) is Err || spec_fld_i32(fs, ("count")@) is Err
        || spec_fld_num(fs, ("ratio")@) is Err || spec_fld_i32_mat(fs, ("lower")@) is Err
        || spec_fld_i32_mat(fs, ("upper")@) is Err || spec_fld_bool(fs, ("connected")@)
        is Err || spec_fld_vals(fs, ("expected")@) is Err || spec_fld_str_mat(
        fs,
        ("replace")@,
    ) is Err || spec_fld_bool(fs, ("only_rec")@) is Err || spec_fld_str(fs, ("model")@)
        is Err || spec_fld_strs(fs, ("labels")@) is Err || spec_fld_vals(fs, ("all_of")@)
        is Err || spec_fld_vals(fs, ("any_of")@) is Err || spec_fld_i32(fs, ("box_index")@)
        is Err || spec_fld_str(fs, ("custom_recognition")@) is Err {
        Err(())
    } else {
        Ok(
            RecognitionParamV {
                roi: spec_fld_target(fs, ("roi")@)->Ok_0,
                roi_offset: spec_fld_rect(fs, ("roi_offset")@)->Ok_0,
                template: spec_fld_strs_sv(fs, ("template")@)->Ok_0,
                threshold: spec_fld_nums_sv(fs, ("threshold")@)->Ok_0,
                order_by: spec_fld_str(fs, ("order_by")@)->Ok_0,
                index: spec_fld_i32(fs, ("index")@)->Ok_0,
                method: spec_fld_i32(fs, ("method")@)->Ok_0,
                green_mask: spec_fld_bool(fs, ("green_mask")@)->Ok_0,
                detector: spec_fld_str(fs, ("detector")@)->Ok_0,
                count: spec_fld_i32(fs, ("count")@)->Ok_0,
                ratio: spec_fld_num(fs, ("ratio")@)->Ok_0,
                lower: spec_fld_i32_mat(fs, ("lower")@)->Ok_0,
                upper: spec_fld_i32_mat(fs, ("upper")@)->Ok_0,
                connected: spec_fld_bool(fs, ("connected")@)->Ok_0,
                expected: spec_fld_vals(fs, ("expected")@)->Ok_0,
                replace: spec_fld_str_mat(fs, ("replace")@)->Ok_0,
                only_rec: spec_fld_bool(fs, ("only_rec")@)->Ok_0,
                model: spec_fld_str(fs, ("model")@)->Ok_0,
                labels: spec_fld_strs(fs, ("labels")@)->Ok_0,
                all_of: spec_fld_vals(fs, ("all_of")@)->Ok_0,
                any_of: spec_fld_vals(fs, ("any_of")@)->Ok_0,
                box_index: spec_fld_i32(fs, ("box_index")@)->Ok_0,
                custom_recognition: spec_fld_str(fs, ("custom_recognition")@)->Ok_0,
                custom_recognition_param: spec_fld_val(fs, ("custom_recognition_param")@),
            },
        )
    }
}

/// Decode the recognition parameter superset.
pub fn decode_reco_param(fs: &Vec<(String, JsonValue)>) -> (r: Result<
    RecognitionParam,
    MaaError,
>)
    ensures
        match spec_decode_reco_param(fields_view(fs@)) {
            Ok(pv) => r matches Ok(p) && p@ == pv,
            Err(()) => r == Err::<RecognitionParam, MaaError>(MaaError::InvalidConfig(None)),
        },
{
    let roi = match get_target(fs, "roi") {
        Ok(x) => x,
        Err(e) => { return Err(e); },
    };
    let roi_offset = match get_rect(fs, "roi_offset") {
        Ok(x) => x,
        Err(e) => { return Err(e); },
    };
    let template = match get_strs_sv(fs, "template") {
        Ok(x) => x,
        Err(e) => { return Err(e); },
    };
    let threshold = match get_nums_sv(fs, "threshold") {
        Ok(x) => x,
        Err(e) => { return Err(e); },
    };
    let order_by = match get_str(fs, "order_by") {
        Ok(x) => x,
        Err(e) => { return Err(e); },
    };
    let index = match get_i32(fs, "index") {
        Ok(x) => x,
        Err(e) => { return Err(e); },
    };
    let method = match get_i32(fs, "method") {
        Ok(x) => x,
        Err(e) => { return Err(e); },
    };
    let green_mask = match get_bool(fs, "green_mask") {
        Ok(x) => x,
        Err(e) => { return Err(e); },
    };
    let detector = match get_str(fs, "detector") {
        Ok(x) => x,
        Err(e) => { return Err(e); },
    };
    let count = match get_i32(fs, "count") {
        Ok(x) => x,
        Err(e) => { return Err(e); },
    };
    let ratio = match get_num(fs, "ratio") {
        Ok(x) => x,
        Err(e) => { return Err(e); },
    };
    let lower = match get_i32_mat(fs, "lower") {
        Ok(x) => x,
        Err(e) => { return Err(e); },
    };
    let upper = match get_i32_mat(fs, "upper") {
        Ok(x) => x,
        Err(e) => { return Err(e); },
    };
    let connected = match get_bool(fs, "connected") {
        Ok(x) => x,
        Err(e) => { return Err(e); },
    };
    let expected = match get_vals(fs, "expected") {
        Ok(x) => x,
        Err(e) => { return Err(e); },
    };
    let replace = match get_str_mat(fs, "replace") {
        Ok(x) => x,
        Err(e) => { return Err(e); },
    };
    let only_rec = match get_bool(fs, "only_rec") {
        Ok(x) => x,
        Err(e) => { return Err(e); },
    };
    let model = match get_str(fs, "model") {
        Ok(x) => x,
        Err(e) => { return Err(e); },
    };
    let labels = match get_strs(fs, "labels") {
        Ok(x) => x,
        Err(e) => { return Err(e); },
    };
    let all_of = match get_vals(fs, "all_of") {
        Ok(x) => x,
        Err(e) => { return Err(e); },
    };
    let any_of = match get_vals(fs, "any_of") {
        Ok(x) => x,
        Err(e) => { return Err(e); },
    };
    let box_index = match get_i32(fs, "box_index") {
        Ok(x) => x,
        Err(e) => { return Err(e); },
    };
    let custom_recognition = match get_str(fs, "custom_recognition") {
        Ok(x) => x,
        Err(e) => { return Err(e); },
    };
    let custom_recognition_param = get_val(fs, "custom_recognition_param");
    Ok(
        RecognitionParam {
            roi,
            roi_offset,
            template,
            threshold,
            order_by,
            index,
            method,
            green_mask,
            detector,
            count,
            ratio,
            lower,
            upper,
            connected,
            expected,
            replace,
            only_rec,
            model,
            labels,
            all_of,
            any_of,
            box_index,
            custom_recognition,
            custom_recognition_param,
        },
    )
}

/// Decoding of the action parameter superset from a `param` object's
/// fields.
pub open spec fn spec_decode_act_param(fs: Seq<(Seq<char>, JsonVal)>) -> Result<
    ActionParamV,
    (),
> {
    if spec_fld_target(fs, ("target")@) is Err || spec_fld_rect(fs, ("target_offset")@)
        is Err || spec_fld_i32(fs, ("contact")@) is Err || spec_fld_i32(fs, ("pressure")@)
        is Err || spec_fld_i32s_sv(fs, ("duration")@) is Err || spec_fld_i32(
        fs,
        ("starting")@,
    ) is Err || spec_fld_target(fs, ("begin")@) is Err || spec_fld_rect(
        fs,
        ("begin_offset")@,
    ) is Err || spec_fld_targets(fs, ("end")@) is Err || spec_fld_rects(
        fs,
        ("end_offset")@,
    ) is Err || spec_fld_i32s(fs, ("end_hold")@) is Err || spec_fld_bool(
        fs,
        ("only_hover")@,
    ) is Err || spec_fld_vals(fs, ("swipes")@) is Err || spec_fld_i32s_sv(fs, ("key")@)
        is Err || spec_fld_str(fs, ("input_text")@) is Err || spec_fld_str(
        fs,
        ("package")@,
    ) is Err || spec_fld_i32(fs, ("dx")@) is Err || spec_fld_i32(fs, ("dy")@) is Err
        || spec_fld_str(fs, ("exec")@) is Err || spec_fld_strs(fs, ("args")@) is Err
        || spec_fld_bool(fs, ("detach")@) is Err || spec_fld_str(fs, ("cmd")@) is Err
        || spec_fld_i32(fs, ("timeout")@) is Err || spec_fld_str(fs, ("custom_action")@)
        is Err {
        Err(())
    } else {
        Ok(
            ActionParamV {
                target: spec_fld_target(fs, ("target")@)->Ok_0,
                target_offset: spec_fld_rect(fs, ("target_offset")@)->Ok_0,
                contact: spec_fld_i32(fs, ("contact")@)->Ok_0,
                pressure: spec_fld_i32(fs, ("pressure")@)->Ok_0,
                duration: spec_fld_i32s_sv(fs, ("duration")@)->Ok_0,
                starting: spec_fld_i32(fs, ("starting")@)->Ok_0,
                begin: spec_fld_target(fs, ("begin")@)->Ok_0,
                begin_offset: spec_fld_rect(fs, ("begin_offset")@)->Ok_0,
                end: spec_fld_targets(fs, ("end")@)->Ok_0,
                end_offset: spec_fld_rects(fs, ("end_offset")@)->Ok_0,
                end_hold: spec_fld_i32s(fs, ("end_hold")@)->Ok_0,
                only_hover: spec_fld_bool(fs, ("only_hover")@)->Ok_0,
                swipes: spec_fld_vals(fs, ("swipes")@)->Ok_0,
                key: spec_fld_i32s_sv(fs, ("key")@)->Ok_0,
                input_text: spec_fld_str(fs, ("input_text")@)->Ok_0,
                package: spec_fld_str(fs, ("package")@)->Ok_0,
                dx: spec_fld_i32(fs, ("dx")@)->Ok_0,
                dy: spec_fld_i32(fs, ("dy")@)->Ok_0,
                exec_path: spec_fld_str(fs, ("exec")@)->Ok_0,
                args: spec_fld_strs(fs, ("args")@)->Ok_0,
                detach: spec_fld_bool(fs, ("detach")@)->Ok_0,
                cmd: spec_fld_str(fs, ("cmd")@)->Ok_0,
                timeout: spec_fld_i32(fs, ("timeout")@)->Ok_0,
                custom_action: spec_fld_str(fs, ("custom_action")@)->Ok_0,
                custom_action_param: spec_fld_val(fs, ("custom_action_param")@),
            },
        )
    }
}

/// Decode the action parameter superset.
pub fn decode_act_param(fs: &Vec<(String, JsonValue)>) -> (r: Result<ActionParam, MaaError>)
    ensures
        match spec_decode_act_param(fields_view(fs@)) {
            Ok(pv) => r matches Ok(p) && p@ == pv,
            Err(()) => r == Err::<ActionParam, MaaError>(MaaError::InvalidConfig(None)),
        },
{
    let target = match get_target(fs, "target") {
        Ok(x) => x,
        Err(e) => { return Err(e); },
    };
    let target_offset = match get_rect(fs, "target_offset") {
        Ok(x) => x,
        Err(e) => { return Err(e); },
    };
    let contact = match get_i32(fs, "contact") {
        Ok(x) => x,
        Err(e) => { return Err(e); },
    };
    let pressure = match get_i32(fs, "pressure") {
        Ok(x) => x,
        Err(e) => { return Err(e); },
    };
    let duration = match get_i32s_sv(fs, "duration") {
        Ok(x) => x,
        Err(e) => { return Err(e); },
    };
    let starting = match get_i32(fs, "starting") {
        Ok(x) => x,
        Err(e) => { return Err(e); },
    };
    let begin = match get_target(fs, "begin") {
        Ok(x) => x,
        Err(e) => { return Err(e); },
    };
    let begin_offset = match get_rect(fs, "begin_offset") {
        Ok(x) => x,
        Err(e) => { return Err(e); },
    };
    let end = match get_targets(fs, "end") {
        Ok(x) => x,
        Err(e) => { return Err(e); },
    };
    let end_offset = match get_rects(fs, "end_offset") {
        Ok(x) => x,
        Err(e) => { return Err(e); },
    };
    let end_hold = match get_i32s(fs, "end_hold") {
        Ok(x) => x,
        Err(e) => { return Err(e); },
    };
    let only_hover = match get_bool(fs, "only_hover") {
        Ok(x) => x,
        Err(e) => { return Err(e); },
    };
    let swipes = match get_vals(fs, "swipes") {
        Ok(x) => x,
        Err(e) => { return Err(e); },
    };
    let key = match get_i32s_sv(fs, "key") {
        Ok(x) => x,
        Err(e) => { return Err(e); },
    };
    let input_text = match get_str(fs, "input_text") {
        Ok(x) => x,
        Err(e) => { return Err(e); },
    };
    let package = match get_str(fs, "package") {
        Ok(x) => x,
        Err(e) => { return Err(e); },
    };
    let dx = match get_i32(fs, "dx") {
        Ok(x) => x,
        Err(e) => { return Err(e); },
    };
    let dy = match get_i32(fs, "dy") {
        Ok(x) => x,
        Err(e) => { return Err(e); },
    };
    let exec_path = match get_str(fs, "exec") {
        Ok(x) => x,
        Err(e) => { return Err(e); },
    };
    let args = match get_strs(fs, "args") {
        Ok(x) => x,
        Err(e) => { return Err(e); },
    };
    let detach = match get_bool(fs, "detach") {
        Ok(x) => x,
        Err(e) => { return Err(e); },
    };
    let cmd = match get_str(fs, "cmd") {
        Ok(x) => x,
        Err(e) => { return Err(e); },
    };
    let timeout = match get_i32(fs, "timeout") {
        Ok(x) => x,
        Err(e) => { return Err(e); },
    };
    let custom_action = match get_str(fs, "custom_action") {
        Ok(x) => x,
        Err(e) => { return Err(e); },
    };
    let custom_action_param = get_val(fs, "custom_action_param");
    Ok(
        ActionParam {
            target,
            target_offset,
            contact,
            pressure,
            duration,
            starting,
            begin,
            begin_offset,
            end,
            end_offset,
            end_hold,
            only_hover,
            swipes,
            key,
            input_text,
            package,
            dx,
            dy,
            exec_path,
            args,
            detach,
            cmd,
            timeout,
            custom_action,
            custom_action_param,
        },
    )
}

/// Decoding of a freeze-wait clause, with its documented defaults:
/// `time` 1, `threshold` 0.95, `method` 5, `rate_limit` 1000,
/// `timeout` 20000.
pub open spec fn spec_decode_wait(v: JsonVal) -> Result<WaitFreezesV, ()> {
    match v {
        JsonVal::Obj(fs) => if spec_fld_i32(fs, ("time")@) is Err || spec_fld_target(
            fs,
            ("target")@,
        ) is Err || spec_fld_rect(fs, ("target_offset")@) is Err || spec_fld_num(
            fs,
            ("threshold")@,
        ) is Err || spec_fld_i32(fs, ("method")@) is Err || spec_fld_i32(
            fs,
            ("rate_limit")@,
        ) is Err || spec_fld_i32(fs, ("timeout")@) is Err {
            Err(())
        } else {
            Ok(
                WaitFreezesV {
                    time: spec_or(spec_fld_i32(fs, ("time")@)->Ok_0, 1),
                    target: spec_or(
                        spec_fld_target(fs, ("target")@)->Ok_0,
                        TargetV::Bool(true),
                    ),
                    target_offset: spec_or(
                        spec_fld_rect(fs, ("target_offset")@)->Ok_0,
                        (0, 0, 0, 0),
                    ),
                    threshold: spec_or(
                        spec_fld_num(fs, ("threshold")@)->Ok_0,
                        NumberV::Dec(("0.95")@),
                    ),
                    method: spec_or(spec_fld_i32(fs, ("method")@)->Ok_0, 5),
                    rate_limit: spec_or(spec_fld_i32(fs, ("rate_limit")@)->Ok_0, 1000),
                    timeout: spec_or(spec_fld_i32(fs, ("timeout")@)->Ok_0, 20000),
                },
            )
        },
        _ => Err(()),
    }
}

/// An optional freeze-wait field.
pub open spec fn spec_fld_wait(fs: Seq<(Seq<char>, JsonVal)>, k: Seq<char>) -> Result<
    Option<WaitFreezesV>,
    (),
> {
    match obj_get(fs, k) {
        None => Ok(None),
        Some(v) => match spec_decode_wait(v) {
            Ok(w) => Ok(Some(w)),
            Err(()) => Err(()),
        },
    }
}

/// Decode a freeze-wait clause.
pub fn decode_wait(v: &JsonValue) -> (r: Result<WaitFreezes, MaaError>)
    ensures
        match spec_decode_wait(v@) {
            Ok(w) => r matches Ok(x) && x@ == w,
            Err(()) => r == Err::<WaitFreezes, MaaError>(MaaError::InvalidConfig(None)),
        },
{
    let fs = match v {
        JsonValue::Obj(fs) => fs,
        _ => {
            return Err(MaaError::InvalidConfig(None));
        },
    };
    let time = match get_i32(fs, "time") {
        Ok(x) => x,
        Err(e) => { return Err(e); },
    };
    let target = match get_target(fs, "target") {
        Ok(x) => x,
        Err(e) => { return Err(e); },
    };
    let target_offset = match get_rect(fs, "target_offset") {
        Ok(x) => x,
        Err(e) => { return Err(e); },
    };
    let threshold = match get_num(fs, "threshold") {
        Ok(x) => x,
        Err(e) => { return Err(e); },
    };
    let method = match get_i32(fs, "method") {
        Ok(x) => x,
        Err(e) => { return Err(e); },
    };
    let rate_limit = match get_i32(fs, "rate_limit") {
        Ok(x) => x,
        Err(e) => { return Err(e); },
    };
    let timeout = match get_i32(fs, "timeout") {
        Ok(x) => x,
        Err(e) => { return Err(e); },
    };
    let time: i32 = match time {
        Some(x) => x,
        None => 1,
    };
    let target: Target = match target {
        Some(x) => x,
        None => Target::Bool(true),
    };
    let target_offset: Rect = match target_offset {
        Some(x) => x,
        None => (0, 0, 0, 0),
    };
    let threshold: Number = match threshold {
        Some(x) => x,
        None => Number::Dec("0.95".to_owned()),
    };
    let method: i32 = match method {
        Some(x) => x,
        None => 5,
    };
    let rate_limit: i32 = match rate_limit {
        Some(x) => x,
        None => 1000,
    };
    let timeout: i32 = match timeout {
        Some(x) => x,
        None => 20000,
    };
    Ok(WaitFreezes { time, target, target_offset, threshold, method, rate_limit, timeout })
}

/// Look a field up and decode it as a freeze-wait clause.
pub fn get_wait(fs: &Vec<(String, JsonValue)>, k: &str) -> (r: Result<
    Option<WaitFreezes>,
    MaaError,
>)
    ensures
        match spec_fld_wait(fields_view(fs@), k@) {
            Ok(x) => (r matches Ok(o) && o.deep_view() == x),
            Err(()) => r == Err::<Option<WaitFreezes>, MaaError>(
                MaaError::InvalidConfig(None),
            ),
        },
{
    match fields_get(fs, k) {
        None => Ok(None),
        Some(v) => match decode_wait(v) {
            Ok(w) => Ok(Some(w)),
            Err(e) => Err(e),
        },
    }
}

/// Decoding of a recognition entry: absent means the do-nothing
/// sentinel `DirectHit`; a bare string names a kind with empty
/// parameters; an object names a kind (default `DirectHit`) and
/// carries a `param` object.
pub open spec fn spec_decode_reco_entry(e: Option<JsonVal>) -> Result<RecognitionV, ()> {
    match e {
        None => match spec_decode_reco_param(Seq::empty()) {
            Ok(p) => Ok(RecognitionV { recognition_type: RecognitionType::DirectHit, param: p }),
            Err(()) => Err(()),
        },
        Some(JsonVal::Str(s)) => match spec_reco_type_of(s) {
            Some(t) => match spec_decode_reco_param(Seq::empty()) {
                Ok(p) => Ok(RecognitionV { recognition_type: t, param: p }),
                Err(()) => Err(()),
            },
            None => Err(()),
        },
        Some(JsonVal::Obj(fs)) => {
            let t = match obj_get(fs, ("type")@) {
                None => Some(RecognitionType::DirectHit),
                Some(JsonVal::Str(s)) => spec_reco_type_of(s),
                Some(_) => None,
            };
            let pf = match obj_get(fs, ("param")@) {
                None => Some(Seq::<(Seq<char>, JsonVal)>::empty()),
                Some(JsonVal::Obj(po)) => Some(po),
                Some(_) => None,
            };
            match (t, pf) {
                (Some(t0), Some(pf0)) => match spec_decode_reco_param(pf0) {
                    Ok(p) => Ok(RecognitionV { recognition_type: t0, param: p }),
                    Err(()) => Err(()),
                },
                _ => Err(()),
            }
        },
        Some(_) => Err(()),
    }
}

/// Decoding of an action entry, with `DoNothing` as the sentinel.
pub open spec fn spec_decode_act_entry(e: Option<JsonVal>) -> Result<ActionV, ()> {
    match e {
        None => match spec_decode_act_param(Seq::empty()) {
            Ok(p) => Ok(ActionV { action_type: ActionType::DoNothing, param: p }),
            Err(()) => Err(()),
        },
        Some(JsonVal::Str(s)) => match spec_act_type_of(s) {
            Some(t) => match spec_decode_act_param(Seq::empty()) {
                Ok(p) => Ok(ActionV { action_type: t, param: p }),
                Err(()) => Err(()),
            },
            None => Err(()),
        },
        Some(JsonVal::Obj(fs)) => {
            let t = match obj_get(fs, ("type")@) {
                None => Some(ActionType::DoNothing),
                Some(JsonVal::Str(s)) => spec_act_type_of(s),
                Some(_) => None,
            };
            let pf = match obj_get(fs, ("param")@) {
                None => Some(Seq::<(Seq<char>, JsonVal)>::empty()),
                Some(JsonVal::Obj(po)) => Some(po),
                Some(_) => None,
            };
            match (t, pf) {
                (Some(t0), Some(pf0)) => match spec_decode_act_param(pf0) {
                    Ok(p) => Ok(ActionV { action_type: t0, param: p }),
                    Err(()) => Err(()),
                },
                _ => Err(()),
            }
        },
        Some(_) => Err(()),
    }
}

/// Decode a recognition entry.
pub fn decode_reco_entry(e: Option<&JsonValue>) -> (r: Result<Recognition, MaaError>)
    ensures
        match spec_decode_reco_entry(crate::merge::opt_val_view(e)) {
            Ok(rv) => r matches Ok(x) && x@ == rv,
            Err(()) => r == Err::<Recognition, MaaError>(MaaError::InvalidConfig(None)),
        },
{
    let empty: Vec<(String, JsonValue)> = Vec::new();
    proof {
        assert(fields_view(empty@) =~= Seq::<(Seq<char>, JsonVal)>::empty());
    }
    match e {
        None => match decode_reco_param(&empty) {
            Ok(p) => Ok(Recognition { recognition_type: RecognitionType::DirectHit, param: p }),
            Err(e2) => Err(e2),
        },
        Some(JsonValue::Str(s)) => match RecognitionType::from_name(s.as_str()) {
            Some(t) => match decode_reco_param(&empty) {
                Ok(p) => Ok(Recognition { recognition_type: t, param: p }),
                Err(e2) => Err(e2),
            },
            None => Err(MaaError::InvalidConfig(None)),
        },
        Some(JsonValue::Obj(fs)) => {
            let t: RecognitionType = match fields_get(fs, "type") {
                None => RecognitionType::DirectHit,
                Some(JsonValue::Str(s)) => match RecognitionType::from_name(s.as_str()) {
                    Some(t0) => t0,
                    None => {
                        return Err(MaaError::InvalidConfig(None));
                    },
                },
                Some(_) => {
                    return Err(MaaError::InvalidConfig(None));
                },
            };
            let p = match fields_get(fs, "param") {
                None => match decode_reco_param(&empty) {
                    Ok(p) => p,
                    Err(e2) => {
                        return Err(e2);
                    },
                },
                Some(JsonValue::Obj(po)) => match decode_reco_param(po) {
                    Ok(p) => p,
                    Err(e2) => {
                        return Err(e2);
                    },
                },
                Some(_) => {
                    return Err(MaaError::InvalidConfig(None));
                },
            };
            Ok(Recognition { recognition_type: t, param: p })
        },
        Some(_) => Err(MaaError::InvalidConfig(None)),
    }
}

/// Decode an action entry.
pub fn decode_act_entry(e: Option<&JsonValue>) -> (r: Result<Action, MaaError>)
    ensures
        match spec_decode_act_entry(crate::merge::opt_val_view(e)) {
            Ok(av) => r matches Ok(x) && x@ == av,
            Err(()) => r == Err::<Action, MaaError>(MaaError::InvalidConfig(None)),
        },
{
    let empty: Vec<(String, JsonValue)> = Vec::new();
    proof {
        assert(fields_view(empty@) =~= Seq::<(Seq<char>, JsonVal)>::empty());
    }
    match e {
        None => match decode_act_param(&empty) {
            Ok(p) => Ok(Action { action_type: ActionType::DoNothing, param: p }),
            Err(e2) => Err(e2),
        },
        Some(JsonValue::Str(s)) => match ActionType::from_name(s.as_str()) {
            Some(t) => match decode_act_param(&empty) {
                Ok(p) => Ok(Action { action_type: t, param: p }),
                Err(e2) => Err(e2),
            },
            None => Err(MaaError::InvalidConfig(None)),
        },
        Some(JsonValue::Obj(fs)) => {
            let t: ActionType = match fields_get(fs, "type") {
                None => ActionType::DoNothing,
                Some(JsonValue::Str(s)) => match ActionType::from_name(s.as_str()) {
                    Some(t0) => t0,
                    None => {
                        return Err(MaaError::InvalidConfig(None));
                    },
                },
                Some(_) => {
                    return Err(MaaError::InvalidConfig(None));
                },
            };
            let p = match fields_get(fs, "param") {
                None => match decode_act_param(&empty) {
                    Ok(p) => p,
                    Err(e2) => {
                        return Err(e2);
                    },
                },
                Some(JsonValue::Obj(po)) => match decode_act_param(po) {
                    Ok(p) => p,
                    Err(e2) => {
                        return Err(e2);
                    },
                },
                Some(_) => {
                    return Err(MaaError::InvalidConfig(None));
                },
            };
            Ok(Action { action_type: t, param: p })
        },
        Some(_) => Err(MaaError::InvalidConfig(None)),
    }
}

/// Decoding of a full node definition from a node object's fields,
/// with the documented defaults: `enabled` true, `pre_delay` and
/// `post_delay` 200, `repeat` 1, `max_hit` the largest count,
/// `rate_limit` 1000, `timeout` 20000.
pub open spec fn spec_decode_node(fs: Seq<(Seq<char>, JsonVal)>) -> Result<PipelineDataV, ()> {
    let reco = spec_decode_reco_entry(obj_get(fs, ("recognition")@));
    let act = spec_decode_act_entry(obj_get(fs, ("action")@));
    if reco is Err || act is Err || spec_fld_attrs(fs, ("next")@) is Err || spec_fld_attrs(
        fs,
        ("on_error")@,
    ) is Err || spec_fld_i32(fs, ("rate_limit")@) is Err || spec_fld_i32(fs, ("timeout")@)
        is Err || spec_fld_strs(fs, ("anchor")@) is Err || spec_fld_bool(fs, ("inverse")@)
        is Err || spec_fld_bool(fs, ("enabled")@) is Err || spec_fld_i32(
        fs,
        ("pre_delay")@,
    ) is Err || spec_fld_i32(fs, ("post_delay")@) is Err || spec_fld_wait(
        fs,
        ("pre_wait_freezes")@,
    ) is Err || spec_fld_wait(fs, ("post_wait_freezes")@) is Err || spec_fld_i32(
        fs,
        ("repeat")@,
    ) is Err || spec_fld_i32(fs, ("repeat_delay")@) is Err || spec_fld_wait(
        fs,
        ("repeat_wait_freezes")@,
    ) is Err || spec_fld_u32(fs, ("max_hit")@) is Err {
        Err(())
    } else {
        Ok(
            PipelineDataV {
                recognition: reco->Ok_0,
                action: act->Ok_0,
                next: spec_or(spec_fld_attrs(fs, ("next")@)->Ok_0, Seq::empty()),
                on_error: spec_or(spec_fld_attrs(fs, ("on_error")@)->Ok_0, Seq::empty()),
                rate_limit: spec_or(spec_fld_i32(fs, ("rate_limit")@)->Ok_0, 1000),
                timeout: spec_or(spec_fld_i32(fs, ("timeout")@)->Ok_0, 20000),
                anchor: spec_or(spec_fld_strs(fs, ("anchor")@)->Ok_0, Seq::empty()),
                inverse: spec_or(spec_fld_bool(fs, ("inverse")@)->Ok_0, false),
                enabled: spec_or(spec_fld_bool(fs, ("enabled")@)->Ok_0, true),
                pre_delay: spec_or(spec_fld_i32(fs, ("pre_delay")@)->Ok_0, 200),
                post_delay: spec_or(spec_fld_i32(fs, ("post_delay")@)->Ok_0, 200),
                pre_wait_freezes: spec_fld_wait(fs, ("pre_wait_freezes")@)->Ok_0,
                post_wait_freezes: spec_fld_wait(fs, ("post_wait_freezes")@)->Ok_0,
                repeat: spec_or(spec_fld_i32(fs, ("repeat")@)->Ok_0, 1),
                repeat_delay: spec_or(spec_fld_i32(fs, ("repeat_delay")@)->Ok_0, 0),
                repeat_wait_freezes: spec_fld_wait(fs, ("repeat_wait_freezes")@)->Ok_0,
                max_hit: spec_or(spec_fld_u32(fs, ("max_hit")@)->Ok_0, u32::MAX),
                focus: spec_fld_val(fs, ("focus")@),
                attach: spec_fld_val(fs, ("attach")@),
            },
        )
    }
}

/// Decoding of a full node definition from a node value.
pub open spec fn spec_decode_node_val(v: JsonVal) -> Result<PipelineDataV, ()> {
    match v {
        JsonVal::Obj(fs) => spec_decode_node(fs),
        _ => Err(()),
    }
}

/// Decode a full node definition.
pub fn decode_node(v: &JsonValue) -> (r: Result<PipelineData, MaaError>)
    ensures
        match spec_decode_node_val(v@) {
            Ok(nv) => r matches Ok(n) && n@ == nv,
            Err(()) => r == Err::<PipelineData, MaaError>(MaaError::InvalidConfig(None)),
        },
{
    let fs = match v {
        JsonValue::Obj(fs) => fs,
        _ => {
            return Err(MaaError::InvalidConfig(None));
        },
    };
    let recognition = match decode_reco_entry(fields_get(fs, "recognition")) {
        Ok(x) => x,
        Err(e) => { return Err(e); },
    };
    let action = match decode_act_entry(fields_get(fs, "action")) {
        Ok(x) => x,
        Err(e) => { return Err(e); },
    };
    let next = match get_attrs(fs, "next") {
        Ok(x) => x,
        Err(e) => { return Err(e); },
    };
    let on_error = match get_attrs(fs, "on_error") {
        Ok(x) => x,
        Err(e) => { return Err(e); },
    };
    let rate_limit = match get_i32(fs, "rate_limit") {
        Ok(x) => x,
        Err(e) => { return Err(e); },
    };
    let timeout = match get_i32(fs, "timeout") {
        Ok(x) => x,
        Err(e) => { return Err(e); },
    };
    let anchor = match get_strs(fs, "anchor") {
        Ok(x) => x,
        Err(e) => { return Err(e); },
    };
    let inverse = match get_bool(fs, "inverse") {
        Ok(x) => x,
        Err(e) => { return Err(e); },
    };
    let enabled = match get_bool(fs, "enabled") {
        Ok(x) => x,
        Err(e) => { return Err(e); },
    };
    let pre_delay = match get_i32(fs, "pre_delay") {
        Ok(x) => x,
        Err(e) => { return Err(e); },
    };
    let post_delay = match get_i32(fs, "post_delay") {
        Ok(x) => x,
        Err(e) => { return Err(e); },
    };
    let pre_wait_freezes = match get_wait(fs, "pre_wait_freezes") {
        Ok(x) => x,
        Err(e) => { return Err(e); },
    };
    let post_wait_freezes = match get_wait(fs, "post_wait_freezes") {
        Ok(x) => x,
        Err(e) => { return Err(e); },
    };
    let repeat = match get_i32(fs, "repeat") {
        Ok(x) => x,
        Err(e) => { return Err(e); },
    };
    let repeat_delay = match get_i32(fs, "repeat_delay") {
        Ok(x) => x,
        Err(e) => { return Err(e); },
    };
    let repeat_wait_freezes = match get_wait(fs, "repeat_wait_freezes") {
        Ok(x) => x,
        Err(e) => { return Err(e); },
    };
    let max_hit = match get_u32(fs, "max_hit") {
        Ok(x) => x,
        Err(e) => { return Err(e); },
    };
    let focus = get_val(fs, "focus");
    let attach = get_val(fs, "attach");
    let empty_next: Vec<NodeAttr> = Vec::new();
    let empty_errs: Vec<NodeAttr> = Vec::new();
    let empty_strs: Vec<String> = Vec::new();
    proof {
        assert(empty_next.deep_view() =~= Seq::<NodeAttrV>::empty());
        assert(empty_errs.deep_view() =~= Seq::<NodeAttrV>::empty());
        assert(empty_strs.deep_view() =~= Seq::<Seq<char>>::empty());
    }
    let next: Vec<NodeAttr> = match next {
        Some(x) => x,
        None => empty_next,
    };
    let on_error: Vec<NodeAttr> = match on_error {
        Some(x) => x,
        None => empty_errs,
    };
    let anchor: Vec<String> = match anchor {
        Some(x) => x,
        None => empty_strs,
    };
    Ok(
        PipelineData {
            recognition,
            action,
            next,
            on_error,
            rate_limit: match rate_limit {
                Some(x) => x,
                None => 1000,
            },
            timeout: match timeout {
                Some(x) => x,
                None => 20000,
            },
            anchor,
            inverse: match inverse {
                Some(x) => x,
                None => false,
            },
            enabled: match enabled {
                Some(x) => x,
                None => true,
            },
            pre_delay: match pre_delay {
                Some(x) => x,
                None => 200,
            },
            post_delay: match post_delay {
                Some(x) => x,
                None => 200,
            },
            pre_wait_freezes,
            post_wait_freezes,
            repeat: match repeat {
                Some(x) => x,
                None => 1,
            },
            repeat_delay: match repeat_delay {
                Some(x) => x,
                None => 0,
            },
            repeat_wait_freezes,
            max_hit: match max_hit {
                Some(x) => x,
                None => u32::MAX,
            },
            focus,
            attach,
        },
    )
}

/// An optional 64-bit integer field.
pub open spec fn spec_fld_i64(fs: Seq<(Seq<char>, JsonVal)>, k: Seq<char>) -> Result<
    Option<i64>,
    (),
> {
    match obj_get(fs, k) {
        None => Ok(None),
        Some(JsonVal::Int(i)) => Ok(Some(i)),
        Some(_) => Err(()),
    }
}

/// Look a field up and decode it as an `i64`.
pub fn get_i64(fs: &Vec<(String, JsonValue)>, k: &str) -> (r: Result<Option<i64>, MaaError>)
    ensures
        match spec_fld_i64(fields_view(fs@), k@) {
            Ok(x) => r == Ok::<Option<i64>, MaaError>(x),
            Err(()) => r == Err::<Option<i64>, MaaError>(MaaError::InvalidConfig(None)),
        },
{
    match fields_get(fs, k) {
        None => Ok(None),
        Some(JsonValue::Int(i)) => Ok(Some(*i)),
        Some(_) => Err(MaaError::InvalidConfig(None)),
    }
}

/// A stored encoded target decodes back to the same target, wherever
/// the field sits: reading key `k` of a field list that binds it to
/// the encoding of `t` yields exactly `t`.
pub proof fn lemma_target_field_roundtrip(
    fs: Seq<(Seq<char>, JsonVal)>,
    k: Seq<char>,
    t: TargetV,
)
    requires
        obj_get(fs, k) == Some(crate::pipeline::spec_target_to_json(t)),
    ensures
        spec_fld_target(fs, k) == Ok::<Option<TargetV>, ()>(Some(t)),
{
    crate::pipeline::lemma_target_roundtrip(t);
}

} // verus!
