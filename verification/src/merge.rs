//! The override merge engine.
//!
//! `merge` combines a stored node definition (or none) with a partial
//! patch object.  Top-level fields in the patch replace the stored
//! field; fields absent from the patch are inherited.  The
//! `recognition` and `action` entries are merged one level deeper: a
//! patch that names a kind starts from that kind's defaults, discarding
//! the old parameters only when the kind itself changed; a patch that
//! supplies only parameters keeps the stored kind and merges the
//! parameters key by key.  Flat parameter keys of the active kind are
//! normalized into the `param` sub-object, and `next`/`on_error` lists
//! are normalized entry by entry.  A malformed patch fails the whole
//! merge; nothing is half-applied.

use vstd::prelude::*;

use crate::error::MaaError;
use crate::json::{
    clone_fields, fields_get, fields_keep, fields_set, fields_view, obj_get, obj_set,
    JsonVal, JsonValue,
};
use crate::nextlist::{normalize_next_val, spec_norm_next_val};
use crate::pipeline::{
    is_act_param_key, is_node_key, is_reco_param_key, spec_act_param_key_name,
    spec_act_type_of, spec_node_key, spec_reco_param_key_name, spec_reco_type_of,
    ActionType, RecognitionType,
};
use crate::text::str_eq;

verus! {

/// Key-by-key application of `patch` onto `base`: every patch field
/// replaces the first binding of its key, or is appended.
pub open spec fn spec_merge_fields(
    base: Seq<(Seq<char>, JsonVal)>,
    patch: Seq<(Seq<char>, JsonVal)>,
) -> Seq<(Seq<char>, JsonVal)>
    decreases patch.len(),
{
    if patch.len() == 0 {
        base
    } else {
        spec_merge_fields(
            obj_set(base, patch[0].0, patch[0].1),
            patch.subrange(1, patch.len() as int),
        )
    }
}

/// Keys other than the two sub-merged entries.
pub open spec fn spec_not_sub_key() -> spec_fn(Seq<char>) -> bool {
    |k: Seq<char>| k != ("recognition")@ && k != ("action")@
}

/// Flat parameter keys of the recognition kind named `t` that are free
/// to move into the `param` sub-object.  A key that doubles as a
/// node-level key stays at the top level; the decoder resolves it
/// there.
pub open spec fn spec_reco_pred(t: Seq<char>) -> spec_fn(Seq<char>) -> bool {
    |k: Seq<char>| spec_reco_param_key_name(t, k) && !spec_node_key(k)
}

/// Flat parameter keys of the action kind named `t` that are free to
/// move into the `param` sub-object.
pub open spec fn spec_act_pred(t: Seq<char>) -> spec_fn(Seq<char>) -> bool {
    |k: Seq<char>| spec_act_param_key_name(t, k) && !spec_node_key(k)
}

/// Keys that stay at the top level once the kinds named `rt` and `at`
/// are active: node-level keys always stay, and other keys stay unless
/// they are flat parameters of one of the two kinds.
pub open spec fn spec_strip_pred(rt: Seq<char>, at: Seq<char>) -> spec_fn(Seq<char>) -> bool {
    |k: Seq<char>|
        spec_node_key(k) || (!spec_reco_param_key_name(rt, k) && !spec_act_param_key_name(
            at,
            k,
        ))
}

/// Whether `s` names a known kind of the given family.
pub open spec fn spec_known_kind(is_reco: bool, s: Seq<char>) -> bool {
    if is_reco {
        spec_reco_type_of(s) is Some
    } else {
        spec_act_type_of(s) is Some
    }
}

/// What a patch supplies for one sub-entry: an optional kind name and
/// explicit parameter fields.  A bare string names a kind; an object
/// may hold `type` and `param`; a named kind must be known.
pub open spec fn spec_sub_patch(entry: Option<JsonVal>, is_reco: bool) -> Result<
    (Option<Seq<char>>, Seq<(Seq<char>, JsonVal)>),
    (),
> {
    match entry {
        None => Ok((None, Seq::empty())),
        Some(JsonVal::Str(s)) => if spec_known_kind(is_reco, s) {
            Ok((Some(s), Seq::empty()))
        } else {
            Err(())
        },
        Some(JsonVal::Obj(fs)) => {
            let tname = match obj_get(fs, ("type")@) {
                None => Ok(None),
                Some(JsonVal::Str(s)) => if spec_known_kind(is_reco, s) {
                    Ok(Some(s))
                } else {
                    Err(())
                },
                Some(_) => Err(()),
            };
            let pfields = match obj_get(fs, ("param")@) {
                None => Ok(Seq::<(Seq<char>, JsonVal)>::empty()),
                Some(JsonVal::Obj(pf)) => Ok(pf),
                Some(_) => Err(()),
            };
            match (tname, pfields) {
                (Ok(t), Ok(p)) => Ok((t, p)),
                _ => Err(()),
            }
        },
        Some(_) => Err(()),
    }
}

/// The kind name and parameter fields of a normalized sub-entry of a
/// stored node; absent or unshaped entries read as nothing.
pub open spec fn spec_base_sub(base: Seq<(Seq<char>, JsonVal)>, key: Seq<char>) -> (
    Option<Seq<char>>,
    Seq<(Seq<char>, JsonVal)>,
) {
    match obj_get(base, key) {
        Some(JsonVal::Obj(fs)) => {
            let t = match obj_get(fs, ("type")@) {
                Some(JsonVal::Str(s)) => Some(s),
                _ => None,
            };
            let p = match obj_get(fs, ("param")@) {
                Some(JsonVal::Obj(pf)) => pf,
                _ => Seq::empty(),
            };
            (t, p)
        },
        _ => (None, Seq::empty()),
    }
}

/// The merged kind name and parameter fields of one sub-entry.
///
/// The effective kind is the patch's, else the stored one, else the
/// family default.  The stored parameters survive only when the kind is
/// unchanged; flat parameters harvested from the merged top level come
/// next, and the patch's explicit parameters last.
pub open spec fn spec_sub_merge(
    base: Seq<(Seq<char>, JsonVal)>,
    t_patch: Option<Seq<char>>,
    p_patch: Seq<(Seq<char>, JsonVal)>,
    top0: Seq<(Seq<char>, JsonVal)>,
    is_reco: bool,
) -> (Seq<char>, Seq<(Seq<char>, JsonVal)>) {
    let key = if is_reco {
        ("recognition")@
    } else {
        ("action")@
    };
    let default_name = if is_reco {
        ("DirectHit")@
    } else {
        ("DoNothing")@
    };
    let bs = spec_base_sub(base, key);
    let eff = match t_patch {
        Some(t) => t,
        None => match bs.0 {
            Some(b) => b,
            None => default_name,
        },
    };
    let base_eff = match bs.0 {
        Some(b) => if b == eff {
            bs.1
        } else {
            Seq::empty()
        },
        None => Seq::empty(),
    };
    let pred = if is_reco {
        spec_reco_pred(eff)
    } else {
        spec_act_pred(eff)
    };
    let harvest = fields_keep(pred, top0);
    (eff, spec_merge_fields(spec_merge_fields(base_eff, harvest), p_patch))
}

/// Normalization of the list stored under `key`, when there is one.
pub open spec fn spec_norm_list_at(fs: Seq<(Seq<char>, JsonVal)>, key: Seq<char>) -> Result<
    Seq<(Seq<char>, JsonVal)>,
    MaaError,
> {
    match obj_get(fs, key) {
        None => Ok(fs),
        Some(v) => match spec_norm_next_val(v) {
            Ok(es) => Ok(obj_set(fs, key, JsonVal::Arr(es))),
            Err(i) => Err(MaaError::InvalidConfig(Some(i as usize))),
        },
    }
}

/// The canonical object form of a sub-entry.
pub open spec fn spec_sub_obj(t: Seq<char>, p: Seq<(Seq<char>, JsonVal)>) -> JsonVal {
    JsonVal::Obj(seq![(("type")@, JsonVal::Str(t)), (("param")@, JsonVal::Obj(p))])
}

/// The merge of a patch object onto a stored node's fields.
pub open spec fn spec_merge_node_obj(
    base: Option<Seq<(Seq<char>, JsonVal)>>,
    pfs: Seq<(Seq<char>, JsonVal)>,
) -> Result<JsonVal, MaaError> {
    let bfs = match base {
        Some(b) => b,
        None => Seq::empty(),
    };
    let top0 = spec_merge_fields(bfs, fields_keep(spec_not_sub_key(), pfs));
    match spec_sub_patch(obj_get(pfs, ("recognition")@), true) {
        Err(()) => Err(MaaError::InvalidConfig(None)),
        Ok(rpatch) => match spec_sub_patch(obj_get(pfs, ("action")@), false) {
            Err(()) => Err(MaaError::InvalidConfig(None)),
            Ok(apatch) => {
                let rm = spec_sub_merge(bfs, rpatch.0, rpatch.1, top0, true);
                let am = spec_sub_merge(bfs, apatch.0, apatch.1, top0, false);
                let top1 = fields_keep(spec_strip_pred(rm.0, am.0), top0);
                match spec_norm_list_at(top1, ("next")@) {
                    Err(e) => Err(e),
                    Ok(top2) => match spec_norm_list_at(top2, ("on_error")@) {
                        Err(e) => Err(e),
                        Ok(top3) => Ok(
                            JsonVal::Obj(
                                obj_set(
                                    obj_set(
                                        top3,
                                        ("recognition")@,
                                        spec_sub_obj(rm.0, rm.1),
                                    ),
                                    ("action")@,
                                    spec_sub_obj(am.0, am.1),
                                ),
                            ),
                        ),
                    },
                }
            },
        },
    }
}

/// The merge of a patch value onto a stored node.
pub open spec fn spec_merge_node(base: Option<JsonVal>, patch: JsonVal) -> Result<
    JsonVal,
    MaaError,
> {
    match patch {
        JsonVal::Obj(pfs) => {
            let b = match base {
                Some(JsonVal::Obj(bf)) => Some(bf),
                _ => None,
            };
            spec_merge_node_obj(b, pfs)
        },
        _ => Err(MaaError::InvalidConfig(None)),
    }
}

/// The model of an optional borrowed value.
pub open spec fn opt_val_view(e: Option<&JsonValue>) -> Option<JsonVal> {
    match e {
        Some(v) => Some(v@),
        None => None,
    }
}

/// The model of an optional owned name.
pub open spec fn opt_name_view(e: Option<String>) -> Option<Seq<char>> {
    match e {
        Some(s) => Some(s@),
        None => None,
    }
}

/// Apply every field of `patch` onto `acc`, key by key.
fn merge_fields_into(acc: &mut Vec<(String, JsonValue)>, patch: &Vec<(String, JsonValue)>)
    ensures
        fields_view(final(acc)@) == spec_merge_fields(
            fields_view(old(acc)@),
            fields_view(patch@),
        ),
{
    proof {
        broadcast use crate::json::group_json_view;

    }
    let ghost pv = fields_view(patch@);
    let ghost goal = spec_merge_fields(fields_view(old(acc)@), pv);
    proof {
        assert(pv.subrange(0, pv.len() as int) =~= pv);
    }
    let mut i: usize = 0;
    while i < patch.len()
        invariant
            i <= patch@.len(),
            pv == fields_view(patch@),
            pv.len() == patch@.len(),
            goal == spec_merge_fields(fields_view(acc@), pv.subrange(i as int, pv.len() as int)),
        decreases patch@.len() - i,
    {
        let ghost before = fields_view(acc@);
        let ghost rest = pv.subrange(i as int, pv.len() as int);
        let entry = &patch[i];
        fields_set(acc, entry.0.as_str(), entry.1.clone());
        proof {
            broadcast use crate::json::group_json_view;

            assert(rest[0] == pv[i as int]);
            assert(rest.subrange(1, rest.len() as int) =~= pv.subrange(
                i + 1,
                pv.len() as int,
            ));
            assert(fields_view(acc@) == obj_set(before, pv[i as int].0, pv[i as int].1));
        }
        i += 1;
    }
    proof {
        assert(pv.subrange(pv.len() as int, pv.len() as int) =~= Seq::<
            (Seq<char>, JsonVal),
        >::empty());
    }
}

/// The fields of `fs` other than the two sub-merged entries.
fn keep_not_sub(fs: &Vec<(String, JsonValue)>) -> (r: Vec<(String, JsonValue)>)
    ensures
        fields_view(r@) == fields_keep(spec_not_sub_key(), fields_view(fs@)),
{
    proof {
        broadcast use crate::json::group_json_view;

    }
    let mut r: Vec<(String, JsonValue)> = Vec::new();
    let mut i: usize = 0;
    while i < fs.len()
        invariant
            i <= fs@.len(),
            fields_view(r@) == fields_keep(
                spec_not_sub_key(),
                fields_view(fs@).subrange(0, i as int),
            ),
        decreases fs@.len() - i,
    {
        let ghost fv = fields_view(fs@);
        let ghost prefix = fv.subrange(0, i as int);
        let entry = &fs[i];
        let keep = !(str_eq(entry.0.as_str(), "recognition") || str_eq(
            entry.0.as_str(),
            "action",
        ));
        if keep {
            r.push((entry.0.clone(), entry.1.clone()));
        }
        proof {
            broadcast use crate::json::group_json_view;

            assert(keep == spec_not_sub_key()(fv[i as int].0));
            crate::json::lemma_fields_keep_push(spec_not_sub_key(), prefix, fv[i as int]);
            assert(fv.subrange(0, i + 1) =~= prefix.push(fv[i as int]));
            if keep {
                assert(fields_view(r@) =~= fields_keep(spec_not_sub_key(), prefix).push(
                    fv[i as int],
                ));
            }
        }
        i += 1;
    }
    proof {
        broadcast use crate::json::group_json_view;

        assert(fields_view(fs@).subrange(0, fs@.len() as int) =~= fields_view(fs@));
    }
    r
}

/// The fields of `top0` that are flat parameters of the kind named
/// `eff` in the given family.
fn harvest_params(top0: &Vec<(String, JsonValue)>, is_reco: bool, eff: &str) -> (r: Vec<
    (String, JsonValue),
>)
    ensures
        fields_view(r@) == fields_keep(
            if is_reco {
                spec_reco_pred(eff@)
            } else {
                spec_act_pred(eff@)
            },
            fields_view(top0@),
        ),
{
    let ghost pred = if is_reco {
        spec_reco_pred(eff@)
    } else {
        spec_act_pred(eff@)
    };
    let rkind: Option<RecognitionType> = if is_reco {
        RecognitionType::from_name(eff)
    } else {
        None
    };
    let akind: Option<ActionType> = if is_reco {
        None
    } else {
        ActionType::from_name(eff)
    };
    let mut r: Vec<(String, JsonValue)> = Vec::new();
    let mut i: usize = 0;
    while i < top0.len()
        invariant
            i <= top0@.len(),
            pred == (if is_reco {
                spec_reco_pred(eff@)
            } else {
                spec_act_pred(eff@)
            }),
            rkind == (if is_reco {
                spec_reco_type_of(eff@)
            } else {
                None::<RecognitionType>
            }),
            akind == (if is_reco {
                None::<ActionType>
            } else {
                spec_act_type_of(eff@)
            }),
            fields_view(r@) == fields_keep(pred, fields_view(top0@).subrange(0, i as int)),
        decreases top0@.len() - i,
    {
        let ghost fv = fields_view(top0@);
        let ghost prefix = fv.subrange(0, i as int);
        let entry = &top0[i];
        let keep: bool = match (&rkind, &akind) {
            (Some(rt), _) => is_reco_param_key(*rt, entry.0.as_str()) && !is_node_key(
                entry.0.as_str(),
            ),
            (_, Some(at)) => is_act_param_key(*at, entry.0.as_str()) && !is_node_key(
                entry.0.as_str(),
            ),
            _ => false,
        };
        if keep {
            r.push((entry.0.clone(), entry.1.clone()));
        }
        proof {
            broadcast use crate::json::group_json_view;

            assert(keep == pred(fv[i as int].0));
            crate::json::lemma_fields_keep_push(pred, prefix, fv[i as int]);
            assert(fv.subrange(0, i + 1) =~= prefix.push(fv[i as int]));
            if keep {
                assert(fields_view(r@) =~= fields_keep(pred, prefix).push(fv[i as int]));
            }
        }
        i += 1;
    }
    proof {
        broadcast use crate::json::group_json_view;

        assert(fields_view(top0@).subrange(0, top0@.len() as int) =~= fields_view(top0@));
    }
    r
}

/// The fields of `top0` that stay at the top level once the kinds named
/// `rt` and `at` are active.
fn strip_top(top0: &Vec<(String, JsonValue)>, rt: &str, at: &str) -> (r: Vec<
    (String, JsonValue),
>)
    ensures
        fields_view(r@) == fields_keep(spec_strip_pred(rt@, at@), fields_view(top0@)),
{
    let ghost pred = spec_strip_pred(rt@, at@);
    let rkind: Option<RecognitionType> = RecognitionType::from_name(rt);
    let akind: Option<ActionType> = ActionType::from_name(at);
    let mut r: Vec<(String, JsonValue)> = Vec::new();
    let mut i: usize = 0;
    while i < top0.len()
        invariant
            i <= top0@.len(),
            pred == spec_strip_pred(rt@, at@),
            rkind == spec_reco_type_of(rt@),
            akind == spec_act_type_of(at@),
            fields_view(r@) == fields_keep(pred, fields_view(top0@).subrange(0, i as int)),
        decreases top0@.len() - i,
    {
        let ghost fv = fields_view(top0@);
        let ghost prefix = fv.subrange(0, i as int);
        let entry = &top0[i];
        let is_rparam: bool = match &rkind {
            Some(k) => is_reco_param_key(*k, entry.0.as_str()),
            None => false,
        };
        let is_aparam: bool = match &akind {
            Some(k) => is_act_param_key(*k, entry.0.as_str()),
            None => false,
        };
        let keep = is_node_key(entry.0.as_str()) || (!is_rparam && !is_aparam);
        if keep {
            r.push((entry.0.clone(), entry.1.clone()));
        }
        proof {
            broadcast use crate::json::group_json_view;

            assert(keep == pred(fv[i as int].0));
            crate::json::lemma_fields_keep_push(pred, prefix, fv[i as int]);
            assert(fv.subrange(0, i + 1) =~= prefix.push(fv[i as int]));
            if keep {
                assert(fields_view(r@) =~= fields_keep(pred, prefix).push(fv[i as int]));
            }
        }
        i += 1;
    }
    proof {
        broadcast use crate::json::group_json_view;

        assert(fields_view(top0@).subrange(0, top0@.len() as int) =~= fields_view(top0@));
    }
    r
}

/// Read what a patch supplies for one sub-entry.
fn sub_patch_exec(entry: Option<&JsonValue>, is_reco: bool) -> (r: Result<
    (Option<String>, Vec<(String, JsonValue)>),
    MaaError,
>)
    ensures
        match spec_sub_patch(opt_val_view(entry), is_reco) {
            Ok(tp) => r matches Ok(x) && opt_name_view(x.0) == tp.0 && fields_view(x.1@)
                == tp.1,
            Err(()) => r == Err::<(Option<String>, Vec<(String, JsonValue)>), MaaError>(
                MaaError::InvalidConfig(None),
            ),
        },
{
    let e = match entry {
        None => {
            return Ok((None, Vec::new()));
        },
        Some(e) => e,
    };
    match e {
        JsonValue::Str(s) => {
            let known = if is_reco {
                RecognitionType::from_name(s.as_str()).is_some()
            } else {
                ActionType::from_name(s.as_str()).is_some()
            };
            if known {
                Ok((Some(s.clone()), Vec::new()))
            } else {
                Err(MaaError::InvalidConfig(None))
            }
        },
        JsonValue::Obj(fs) => {
            let tname: Option<String> = match fields_get(fs, "type") {
                None => None,
                Some(JsonValue::Str(s)) => {
                    let known = if is_reco {
                        RecognitionType::from_name(s.as_str()).is_some()
                    } else {
                        ActionType::from_name(s.as_str()).is_some()
                    };
                    if known {
                        Some(s.clone())
                    } else {
                        return Err(MaaError::InvalidConfig(None));
                    }
                },
                Some(_) => {
                    return Err(MaaError::InvalidConfig(None));
                },
            };
            let pfields: Vec<(String, JsonValue)> = match fields_get(fs, "param") {
                None => Vec::new(),
                Some(JsonValue::Obj(pf)) => clone_fields(pf),
                Some(_) => {
                    return Err(MaaError::InvalidConfig(None));
                },
            };
            Ok((tname, pfields))
        },
        _ => Err(MaaError::InvalidConfig(None)),
    }
}

/// Merge one sub-entry: choose the effective kind and merge parameters.
fn sub_merge_exec(
    bfs: &Vec<(String, JsonValue)>,
    t_patch: Option<String>,
    p_patch: &Vec<(String, JsonValue)>,
    top0: &Vec<(String, JsonValue)>,
    is_reco: bool,
) -> (r: (String, Vec<(String, JsonValue)>))
    ensures
        ({
            let sm = spec_sub_merge(
                fields_view(bfs@),
                opt_name_view(t_patch),
                fields_view(p_patch@),
                fields_view(top0@),
                is_reco,
            );
            r.0@ == sm.0 && fields_view(r.1@) == sm.1
        }),
{
    let key: &str = if is_reco {
        "recognition"
    } else {
        "action"
    };
    let default_name: &str = if is_reco {
        "DirectHit"
    } else {
        "DoNothing"
    };
    proof {
        broadcast use crate::json::group_json_view;

    }
    let base_entry = fields_get(bfs, key);
    let mut bt: Option<String> = None;
    let mut bp: Vec<(String, JsonValue)> = Vec::new();
    match base_entry {
        Some(JsonValue::Obj(fs)) => {
            match fields_get(fs, "type") {
                Some(JsonValue::Str(s)) => {
                    bt = Some(s.clone());
                },
                _ => {},
            }
            match fields_get(fs, "param") {
                Some(JsonValue::Obj(pf)) => {
                    bp = clone_fields(pf);
                },
                _ => {},
            }
        },
        _ => {},
    }
    let ghost bs = spec_base_sub(
        fields_view(bfs@),
        if is_reco {
            ("recognition")@
        } else {
            ("action")@
        },
    );
    proof {
        assert(opt_name_view(bt) == bs.0);
        assert(fields_view(bp@) == bs.1);
    }
    let eff: String = match &t_patch {
        Some(t) => t.clone(),
        None => match &bt {
            Some(b) => b.clone(),
            None => default_name.to_owned(),
        },
    };
    let mut acc: Vec<(String, JsonValue)>;
    match &bt {
        Some(b) => {
            if str_eq(b.as_str(), eff.as_str()) {
                acc = bp;
            } else {
                acc = Vec::new();
            }
        },
        None => {
            acc = Vec::new();
        },
    }
    let harvest = harvest_params(top0, is_reco, eff.as_str());
    merge_fields_into(&mut acc, &harvest);
    merge_fields_into(&mut acc, p_patch);
    (eff, acc)
}

/// Normalize the list stored under `key`, in place.
fn norm_list_at(fs: &mut Vec<(String, JsonValue)>, key: &str) -> (r: Result<(), MaaError>)
    ensures
        match spec_norm_list_at(fields_view(old(fs)@), key@) {
            Ok(nfs) => r matches Ok(_) && fields_view(final(fs)@) == nfs,
            Err(e) => r == Err::<(), MaaError>(e),
        },
{
    let found = match fields_get(fs, key) {
        None => None,
        Some(v) => Some(normalize_next_val(v)),
    };
    match found {
        None => Ok(()),
        Some(Ok(list)) => {
            fields_set(fs, key, JsonValue::Arr(list));
            Ok(())
        },
        Some(Err(i)) => Err(MaaError::InvalidConfig(Some(i))),
    }
}

/// Merge a patch object onto a stored node definition.
///
/// Fields present in the patch replace the stored field; fields absent
/// are inherited from the stored definition, or from the documented
/// defaults when there is none.  `recognition` and `action` are merged
/// one level deeper by kind, then parameters.  A patch naming an
/// unknown kind, or holding a malformed entry, fails with
/// `InvalidConfig` and nothing is applied.
pub fn merge(base: Option<&JsonValue>, patch: &JsonValue) -> (r: Result<JsonValue, MaaError>)
    requires
        match base {
            Some(b) => b@ is Obj,
            None => true,
        },
    ensures
        match spec_merge_node(opt_val_view(base), patch@) {
            Ok(mv) => r matches Ok(m) && m@ == mv,
            Err(e) => r == Err::<JsonValue, MaaError>(e),
        },
{
    proof {
        broadcast use crate::json::group_json_view;

    }
    let pfs: &Vec<(String, JsonValue)> = match patch {
        JsonValue::Obj(fs) => fs,
        _ => {
            return Err(MaaError::InvalidConfig(None));
        },
    };
    let bfs: Vec<(String, JsonValue)> = match base {
        Some(JsonValue::Obj(fs)) => clone_fields(fs),
        _ => Vec::new(),
    };
    let mut top0: Vec<(String, JsonValue)> = clone_fields(&bfs);
    let patch_rest = keep_not_sub(pfs);
    merge_fields_into(&mut top0, &patch_rest);
    let rpatch = match sub_patch_exec(fields_get(pfs, "recognition"), true) {
        Ok(x) => x,
        Err(e) => {
            return Err(e);
        },
    };
    let apatch = match sub_patch_exec(fields_get(pfs, "action"), false) {
        Ok(x) => x,
        Err(e) => {
            return Err(e);
        },
    };
    let rm = sub_merge_exec(&bfs, rpatch.0, &rpatch.1, &top0, true);
    let am = sub_merge_exec(&bfs, apatch.0, &apatch.1, &top0, false);
    let mut top = strip_top(&top0, rm.0.as_str(), am.0.as_str());
    match norm_list_at(&mut top, "next") {
        Ok(_) => {},
        Err(e) => {
            return Err(e);
        },
    }
    match norm_list_at(&mut top, "on_error") {
        Ok(_) => {},
        Err(e) => {
            return Err(e);
        },
    }
    let reco_obj = sub_obj_exec(rm.0, rm.1);
    let act_obj = sub_obj_exec(am.0, am.1);
    fields_set(&mut top, "recognition", reco_obj);
    fields_set(&mut top, "action", act_obj);
    Ok(JsonValue::Obj(top))
}

/// Build the canonical object form of a sub-entry.
fn sub_obj_exec(t: String, p: Vec<(String, JsonValue)>) -> (r: JsonValue)
    ensures
        r@ == spec_sub_obj(t@, fields_view(p@)),
{
    let ghost tv = t@;
    let ghost pv = fields_view(p@);
    let mut fields: Vec<(String, JsonValue)> = Vec::new();
    fields.push(("type".to_owned(), JsonValue::Str(t)));
    fields.push(("param".to_owned(), JsonValue::Obj(p)));
    let r = JsonValue::Obj(fields);
    proof {
        broadcast use crate::json::group_json_view;

        let fv = fields_view(fields@);
        assert(fields@.len() == 2);
        assert(fv[0] == (("type")@, JsonVal::Str(tv)));
        assert(fv[1] == (("param")@, JsonVal::Obj(pv)));
        assert(fv =~= spec_sub_obj(tv, pv)->Obj_0);
    }
    r
}

} // verus!
