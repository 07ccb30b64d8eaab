//! Proven laws of the override merge engine.
//!
//! Every output of `merge` is in a canonical form (`node_normal`), and
//! canonical nodes are fixed points of merging with the empty patch:
//! merge is idempotent.  A patch that touches only one recognition
//! parameter inherits every other parameter unchanged.

use vstd::prelude::*;

use crate::error::MaaError;
use crate::json::{
    is_first_match, keys_unique, lemma_fields_keep_all, lemma_fields_keep_none,
    lemma_fields_keep_sat, lemma_fields_keep_unique, lemma_obj_get_first_match,
    lemma_obj_set_get, lemma_obj_set_pred, lemma_obj_set_same, lemma_obj_set_unique,
    fields_keep, obj_get, obj_set, JsonVal,
};
use crate::merge::{
    spec_act_pred, spec_base_sub, spec_known_kind, spec_merge_fields, spec_merge_node,
    spec_norm_list_at, spec_not_sub_key, spec_reco_pred, spec_strip_pred, spec_sub_merge,
    spec_sub_obj, spec_sub_patch,
};
use crate::nextlist::{lemma_norm_next_val_stable, spec_norm_next_val};
use crate::pipeline::{spec_act_type_of, spec_node_key, spec_reco_type_of};

verus! {

/// The canonical form of a stored node, as the merge engine produces
/// it: `recognition` and `action` are two-field objects naming a known
/// kind; keys are distinct; no flat parameter key of the active kinds
/// is left at the top level; and the transition lists are fixed points
/// of normalization.
pub open spec fn node_normal(fs: Seq<(Seq<char>, JsonVal)>) -> bool {
    let rs = spec_base_sub(fs, ("recognition")@);
    let as0 = spec_base_sub(fs, ("action")@);
    &&& rs.0 is Some
    &&& spec_reco_type_of(rs.0.unwrap()) is Some
    &&& obj_get(fs, ("recognition")@) == Some(spec_sub_obj(rs.0.unwrap(), rs.1))
    &&& as0.0 is Some
    &&& spec_act_type_of(as0.0.unwrap()) is Some
    &&& obj_get(fs, ("action")@) == Some(spec_sub_obj(as0.0.unwrap(), as0.1))
    &&& keys_unique(fs)
    &&& keys_unique(rs.1)
    &&& keys_unique(as0.1)
    &&& (forall|j: int|
        0 <= j < fs.len() ==> spec_strip_pred(rs.0.unwrap(), as0.0.unwrap())(
            (#[trigger] fs[j]).0,
        ))
    &&& spec_norm_list_at(fs, ("next")@) == Ok::<Seq<(Seq<char>, JsonVal)>, MaaError>(fs)
    &&& spec_norm_list_at(fs, ("on_error")@) == Ok::<Seq<(Seq<char>, JsonVal)>, MaaError>(
        fs,
    )
}

/// Pairwise distinctness of the structural keys, and their node-key
/// status.
pub proof fn lemma_key_facts()
    ensures
        ("recognition")@ != ("action")@,
        ("recognition")@ != ("next")@,
        ("recognition")@ != ("on_error")@,
        ("recognition")@ != ("type")@,
        ("recognition")@ != ("param")@,
        ("action")@ != ("next")@,
        ("action")@ != ("on_error")@,
        ("action")@ != ("type")@,
        ("action")@ != ("param")@,
        ("next")@ != ("on_error")@,
        ("next")@ != ("type")@,
        ("next")@ != ("param")@,
        ("on_error")@ != ("type")@,
        ("on_error")@ != ("param")@,
        ("type")@ != ("param")@,
        spec_node_key(("recognition")@),
        spec_node_key(("action")@),
        spec_node_key(("next")@),
        spec_node_key(("on_error")@),
{
    broadcast use vstd::string::group_string_axioms;

    reveal_strlit("recognition");
    reveal_strlit("action");
    reveal_strlit("next");
    reveal_strlit("on_error");
    reveal_strlit("type");
    reveal_strlit("param");
    assert(("recognition")@.len() == 11);
    assert(("action")@.len() == 6);
    assert(("next")@.len() == 4);
    assert(("on_error")@.len() == 8);
    assert(("type")@.len() == 4);
    assert(("param")@.len() == 5);
    assert(("next")@[0] == 'n');
    assert(("type")@[0] == 't');
}

/// Reading back a canonical sub-entry.
pub proof fn lemma_base_sub_of(fs: Seq<(Seq<char>, JsonVal)>, key: Seq<char>, t: Seq<char>, p: Seq<
    (Seq<char>, JsonVal),
>)
    requires
        obj_get(fs, key) == Some(spec_sub_obj(t, p)),
    ensures
        spec_base_sub(fs, key) == (Some(t), p),
{
    lemma_key_facts();
    let sf = spec_sub_obj(t, p)->Obj_0;
    let last = seq![sf[1]];
    assert(sf[0] == (("type")@, JsonVal::Str(t)));
    assert(sf[1] == (("param")@, JsonVal::Obj(p)));
    assert(sf.subrange(1, 2) =~= last);
    assert(last.subrange(1, 1) =~= Seq::<(Seq<char>, JsonVal)>::empty());
    assert(obj_get(last, ("param")@) == Some(JsonVal::Obj(p)));
    assert(obj_get(sf, ("type")@) == Some(JsonVal::Str(t)));
    assert(obj_get(sf, ("param")@) == Some(JsonVal::Obj(p)));
}

/// A kind name accepted from a patch is a known kind.
proof fn lemma_sub_patch_known(entry: Option<JsonVal>, is_reco: bool)
    requires
        spec_sub_patch(entry, is_reco) is Ok,
    ensures
        match spec_sub_patch(entry, is_reco)->Ok_0.0 {
            Some(t) => spec_known_kind(is_reco, t),
            None => true,
        },
{
}

/// Merging preserves key distinctness of the base.
pub proof fn lemma_merge_fields_unique(
    base: Seq<(Seq<char>, JsonVal)>,
    patch: Seq<(Seq<char>, JsonVal)>,
)
    requires
        keys_unique(base),
    ensures
        keys_unique(spec_merge_fields(base, patch)),
    decreases patch.len(),
{
    if patch.len() > 0 {
        lemma_obj_set_unique(base, patch[0].0, patch[0].1);
        lemma_merge_fields_unique(
            obj_set(base, patch[0].0, patch[0].1),
            patch.subrange(1, patch.len() as int),
        );
    }
}

/// What list normalization does to the surrounding fields: other keys
/// are untouched, key distinctness and pointwise key predicates are
/// preserved, and the normalized list reads back normalized.
proof fn lemma_norm_list_props(
    fs: Seq<(Seq<char>, JsonVal)>,
    key: Seq<char>,
    fs2: Seq<(Seq<char>, JsonVal)>,
    p: spec_fn(Seq<char>) -> bool,
)
    requires
        spec_norm_list_at(fs, key) == Ok::<Seq<(Seq<char>, JsonVal)>, MaaError>(fs2),
        keys_unique(fs),
        forall|j: int| 0 <= j < fs.len() ==> p((#[trigger] fs[j]).0),
        p(key),
    ensures
        keys_unique(fs2),
        forall|j: int| 0 <= j < fs2.len() ==> p((#[trigger] fs2[j]).0),
        forall|k2: Seq<char>| k2 != key ==> #[trigger] obj_get(fs2, k2) == obj_get(fs, k2),
        match obj_get(fs, key) {
            None => obj_get(fs2, key) is None,
            Some(v) => obj_get(fs2, key) == Some(
                JsonVal::Arr(spec_norm_next_val(v)->Ok_0),
            ),
        },
{
    match obj_get(fs, key) {
        None => {
            assert(fs2 == fs);
        },
        Some(v) => {
            let es = spec_norm_next_val(v)->Ok_0;
            assert(fs2 == obj_set(fs, key, JsonVal::Arr(es)));
            lemma_obj_set_unique(fs, key, JsonVal::Arr(es));
            lemma_obj_set_pred(fs, key, JsonVal::Arr(es), p);
            assert forall|k2: Seq<char>| k2 != key implies #[trigger] obj_get(fs2, k2)
                == obj_get(fs, k2) by {
                lemma_obj_set_get(fs, key, JsonVal::Arr(es), k2);
            }
            lemma_obj_set_get(fs, key, JsonVal::Arr(es), key);
        },
    }
}

/// Every merge output is in canonical form.
pub proof fn lemma_merge_normal(base: Option<JsonVal>, patch: JsonVal, m: JsonVal)
    requires
        spec_merge_node(base, patch) == Ok::<JsonVal, MaaError>(m),
        match base {
            Some(b) => b is Obj && node_normal(b->Obj_0),
            None => true,
        },
    ensures
        m is Obj,
        node_normal(m->Obj_0),
{
    lemma_key_facts();
    let pfs = patch->Obj_0;
    let bfs: Seq<(Seq<char>, JsonVal)> = match base {
        Some(b) => b->Obj_0,
        None => Seq::empty(),
    };
    assert(keys_unique(bfs)) by {
        if base is None {
        }
    }
    let top0 = spec_merge_fields(bfs, fields_keep(spec_not_sub_key(), pfs));
    let rpatch = spec_sub_patch(obj_get(pfs, ("recognition")@), true)->Ok_0;
    let apatch = spec_sub_patch(obj_get(pfs, ("action")@), false)->Ok_0;
    let rm = spec_sub_merge(bfs, rpatch.0, rpatch.1, top0, true);
    let am = spec_sub_merge(bfs, apatch.0, apatch.1, top0, false);
    let top1 = fields_keep(spec_strip_pred(rm.0, am.0), top0);
    let top2 = spec_norm_list_at(top1, ("next")@)->Ok_0;
    let top3 = spec_norm_list_at(top2, ("on_error")@)->Ok_0;
    let rx = spec_sub_obj(rm.0, rm.1);
    let ax = spec_sub_obj(am.0, am.1);
    let mfs = obj_set(obj_set(top3, ("recognition")@, rx), ("action")@, ax);
    assert(m == JsonVal::Obj(mfs));

    // The effective kinds are known.
    let bs_r = spec_base_sub(bfs, ("recognition")@);
    let bs_a = spec_base_sub(bfs, ("action")@);
    lemma_sub_patch_known(obj_get(pfs, ("recognition")@), true);
    lemma_sub_patch_known(obj_get(pfs, ("action")@), false);
    assert(spec_reco_type_of(rm.0) is Some) by {
        if rpatch.0 is None && bs_r.0 is None {
            reveal_strlit("DirectHit");
        }
    }
    assert(spec_act_type_of(am.0) is Some) by {
        if apatch.0 is None && bs_a.0 is None {
            reveal_strlit("DoNothing");
        }
    }

    // Key distinctness everywhere.
    lemma_merge_fields_unique(bfs, fields_keep(spec_not_sub_key(), pfs));
    assert(keys_unique(rm.1)) by {
        let base_eff = match bs_r.0 {
            Some(b) => if b == rm.0 {
                bs_r.1
            } else {
                Seq::<(Seq<char>, JsonVal)>::empty()
            },
            None => Seq::<(Seq<char>, JsonVal)>::empty(),
        };
        assert(keys_unique(base_eff));
        lemma_merge_fields_unique(base_eff, fields_keep(spec_reco_pred(rm.0), top0));
        lemma_merge_fields_unique(
            spec_merge_fields(base_eff, fields_keep(spec_reco_pred(rm.0), top0)),
            rpatch.1,
        );
    }
    assert(keys_unique(am.1)) by {
        let base_eff = match bs_a.0 {
            Some(b) => if b == am.0 {
                bs_a.1
            } else {
                Seq::<(Seq<char>, JsonVal)>::empty()
            },
            None => Seq::<(Seq<char>, JsonVal)>::empty(),
        };
        assert(keys_unique(base_eff));
        lemma_merge_fields_unique(base_eff, fields_keep(spec_act_pred(am.0), top0));
        lemma_merge_fields_unique(
            spec_merge_fields(base_eff, fields_keep(spec_act_pred(am.0), top0)),
            apatch.1,
        );
    }
    lemma_fields_keep_unique(spec_strip_pred(rm.0, am.0), top0);
    lemma_fields_keep_sat(spec_strip_pred(rm.0, am.0), top0);
    assert(spec_strip_pred(rm.0, am.0)(("next")@));
    assert(spec_strip_pred(rm.0, am.0)(("on_error")@));
    assert(spec_strip_pred(rm.0, am.0)(("recognition")@));
    assert(spec_strip_pred(rm.0, am.0)(("action")@));
    lemma_norm_list_props(top1, ("next")@, top2, spec_strip_pred(rm.0, am.0));
    lemma_norm_list_props(top2, ("on_error")@, top3, spec_strip_pred(rm.0, am.0));
    lemma_obj_set_unique(top3, ("recognition")@, rx);
    lemma_obj_set_unique(obj_set(top3, ("recognition")@, rx), ("action")@, ax);
    lemma_obj_set_pred(top3, ("recognition")@, rx, spec_strip_pred(rm.0, am.0));
    lemma_obj_set_pred(
        obj_set(top3, ("recognition")@, rx),
        ("action")@,
        ax,
        spec_strip_pred(rm.0, am.0),
    );

    // Reading back the two sub-entries.
    lemma_obj_set_get(obj_set(top3, ("recognition")@, rx), ("action")@, ax, ("recognition")@);
    lemma_obj_set_get(top3, ("recognition")@, rx, ("recognition")@);
    lemma_obj_set_get(obj_set(top3, ("recognition")@, rx), ("action")@, ax, ("action")@);
    assert(obj_get(mfs, ("recognition")@) == Some(rx));
    assert(obj_get(mfs, ("action")@) == Some(ax));
    lemma_base_sub_of(mfs, ("recognition")@, rm.0, rm.1);
    lemma_base_sub_of(mfs, ("action")@, am.0, am.1);

    // The transition lists of the output are fixed points.
    lemma_obj_set_get(obj_set(top3, ("recognition")@, rx), ("action")@, ax, ("next")@);
    lemma_obj_set_get(top3, ("recognition")@, rx, ("next")@);
    lemma_obj_set_get(obj_set(top3, ("recognition")@, rx), ("action")@, ax, ("on_error")@);
    lemma_obj_set_get(top3, ("recognition")@, rx, ("on_error")@);
    assert(obj_get(mfs, ("next")@) == obj_get(top3, ("next")@));
    assert(obj_get(mfs, ("on_error")@) == obj_get(top3, ("on_error")@));
    assert(spec_norm_list_at(mfs, ("next")@) == Ok::<Seq<(Seq<char>, JsonVal)>, MaaError>(
        mfs,
    )) by {
        match obj_get(top1, ("next")@) {
            None => {
                assert(obj_get(top3, ("next")@) is None);
            },
            Some(v) => {
                let es = spec_norm_next_val(v)->Ok_0;
                assert(obj_get(top2, ("next")@) == Some(JsonVal::Arr(es)));
                assert(obj_get(top3, ("next")@) == Some(JsonVal::Arr(es)));
                lemma_norm_next_val_stable(v, es);
                lemma_obj_get_first_match(mfs, ("next")@);
                let i = choose|i: int|
                    is_first_match(mfs, ("next")@, i) && mfs[i].1 == obj_get(
                        mfs,
                        ("next")@,
                    ).unwrap();
                lemma_obj_set_same(mfs, ("next")@, JsonVal::Arr(es), i);
            },
        }
    }
    assert(spec_norm_list_at(mfs, ("on_error")@) == Ok::<
        Seq<(Seq<char>, JsonVal)>,
        MaaError,
    >(mfs)) by {
        match obj_get(top2, ("on_error")@) {
            None => {
                assert(obj_get(top3, ("on_error")@) is None);
            },
            Some(v) => {
                let es = spec_norm_next_val(v)->Ok_0;
                assert(obj_get(top3, ("on_error")@) == Some(JsonVal::Arr(es)));
                lemma_norm_next_val_stable(v, es);
                lemma_obj_get_first_match(mfs, ("on_error")@);
                let i = choose|i: int|
                    is_first_match(mfs, ("on_error")@, i) && mfs[i].1 == obj_get(
                        mfs,
                        ("on_error")@,
                    ).unwrap();
                lemma_obj_set_same(mfs, ("on_error")@, JsonVal::Arr(es), i);
            },
        }
    }
}

/// A canonical node is a fixed point of merging with the empty patch.
pub proof fn lemma_merge_empty_patch(fs: Seq<(Seq<char>, JsonVal)>)
    requires
        node_normal(fs),
    ensures
        spec_merge_node(Some(JsonVal::Obj(fs)), JsonVal::Obj(Seq::empty())) == Ok::<
            JsonVal,
            MaaError,
        >(JsonVal::Obj(fs)),
{
    lemma_key_facts();
    let empty: Seq<(Seq<char>, JsonVal)> = Seq::empty();
    let rs = spec_base_sub(fs, ("recognition")@);
    let as0 = spec_base_sub(fs, ("action")@);
    let rt = rs.0.unwrap();
    let at = as0.0.unwrap();

    // The empty patch contributes nothing.
    assert(fields_keep(spec_not_sub_key(), empty) =~= empty);
    assert(spec_merge_fields(fs, empty) == fs);
    assert(obj_get(empty, ("recognition")@) is None);
    assert(obj_get(empty, ("action")@) is None);
    assert(spec_sub_patch(None, true) == Ok::<
        (Option<Seq<char>>, Seq<(Seq<char>, JsonVal)>),
        (),
    >((None, empty)));
    assert(spec_sub_patch(None, false) == Ok::<
        (Option<Seq<char>>, Seq<(Seq<char>, JsonVal)>),
        (),
    >((None, empty)));

    // Nothing is left to harvest from a canonical node.
    assert forall|j: int| 0 <= j < fs.len() implies !(spec_reco_pred(rt)(
        (#[trigger] fs[j]).0,
    )) by {
        assert(spec_strip_pred(rt, at)(fs[j].0));
    }
    lemma_fields_keep_none(spec_reco_pred(rt), fs);
    assert forall|j: int| 0 <= j < fs.len() implies !(spec_act_pred(at)(
        (#[trigger] fs[j]).0,
    )) by {
        assert(spec_strip_pred(rt, at)(fs[j].0));
    }
    lemma_fields_keep_none(spec_act_pred(at), fs);
    let rm = spec_sub_merge(fs, None, empty, fs, true);
    let am = spec_sub_merge(fs, None, empty, fs, false);
    assert(spec_merge_fields(rs.1, empty) == rs.1);
    assert(spec_merge_fields(as0.1, empty) == as0.1);
    assert(rm == (rt, rs.1));
    assert(am == (at, as0.1));

    // Stripping keeps every field of a canonical node.
    assert forall|j: int| 0 <= j < fs.len() implies spec_strip_pred(rm.0, am.0)(
        (#[trigger] fs[j]).0,
    ) by {
        assert(spec_strip_pred(rt, at)(fs[j].0));
    }
    lemma_fields_keep_all(spec_strip_pred(rm.0, am.0), fs);

    // The transition lists are already normalized.
    assert(spec_norm_list_at(fs, ("next")@)->Ok_0 == fs);
    assert(spec_norm_list_at(fs, ("on_error")@)->Ok_0 == fs);

    // Re-binding the sub-entries to their current values changes nothing.
    lemma_obj_get_first_match(fs, ("recognition")@);
    let i = choose|i: int|
        is_first_match(fs, ("recognition")@, i) && fs[i].1 == obj_get(
            fs,
            ("recognition")@,
        ).unwrap();
    lemma_obj_set_same(fs, ("recognition")@, spec_sub_obj(rt, rs.1), i);
    lemma_obj_get_first_match(fs, ("action")@);
    let i2 = choose|i: int|
        is_first_match(fs, ("action")@, i) && fs[i].1 == obj_get(fs, ("action")@).unwrap();
    lemma_obj_set_same(fs, ("action")@, spec_sub_obj(at, as0.1), i2);
}

/// Merge idempotence: merging a merge result with the empty patch
/// returns it unchanged.
pub proof fn lemma_merge_idempotent(base: Option<JsonVal>, patch: JsonVal, m: JsonVal)
    requires
        spec_merge_node(base, patch) == Ok::<JsonVal, MaaError>(m),
        match base {
            Some(b) => b is Obj && node_normal(b->Obj_0),
            None => true,
        },
    ensures
        spec_merge_node(Some(m), JsonVal::Obj(Seq::empty())) == Ok::<JsonVal, MaaError>(m),
{
    lemma_merge_normal(base, patch, m);
    lemma_merge_empty_patch(m->Obj_0);
}

/// Merge inheritance: on a node whose recognition is `And`, a patch
/// that only sets `recognition.param.box_index` keeps `all_of` (and
/// every other parameter) unchanged and updates `box_index`.
pub proof fn lemma_merge_and_inheritance(fs: Seq<(Seq<char>, JsonVal)>, al: JsonVal, bi: JsonVal)
    requires
        node_normal(fs),
        spec_base_sub(fs, ("recognition")@).0 == Some(("And")@),
        obj_get(spec_base_sub(fs, ("recognition")@).1, ("all_of")@) == Some(al),
    ensures
        ({
            let patch = JsonVal::Obj(
                seq![
                    (
                        ("recognition")@,
                        JsonVal::Obj(
                            seq![
                                (
                                    ("param")@,
                                    JsonVal::Obj(seq![(("box_index")@, bi)]),
                                ),
                            ],
                        ),
                    ),
                ],
            );
            let res = spec_merge_node(Some(JsonVal::Obj(fs)), patch);
            let rs2 = spec_base_sub(res->Ok_0->Obj_0, ("recognition")@);
            &&& res is Ok
            &&& rs2.0 == Some(("And")@)
            &&& obj_get(rs2.1, ("all_of")@) == Some(al)
            &&& obj_get(rs2.1, ("box_index")@) == Some(bi)
        }),
{
    lemma_key_facts();
    broadcast use vstd::string::group_string_axioms;

    reveal_strlit("recognition");
    reveal_strlit("type");
    reveal_strlit("param");
    reveal_strlit("all_of");
    reveal_strlit("box_index");
    reveal_strlit("action");
    assert(("all_of")@.len() == 6);
    assert(("box_index")@.len() == 9);
    assert(("param")@.len() == 5);
    assert(("type")@.len() == 4);
    assert(("all_of")@ != ("box_index")@);
    assert(("param")@ != ("type")@);

    let rs = spec_base_sub(fs, ("recognition")@);
    let as0 = spec_base_sub(fs, ("action")@);
    let rt = rs.0.unwrap();
    let at = as0.0.unwrap();
    let inner_param = JsonVal::Obj(seq![(("box_index")@, bi)]);
    let inner = JsonVal::Obj(seq![(("param")@, inner_param)]);
    let pfs = seq![(("recognition")@, inner)];
    let patch = JsonVal::Obj(pfs);
    let empty: Seq<(Seq<char>, JsonVal)> = Seq::empty();

    // The patch's only top-level key is `recognition`.
    assert(!(spec_not_sub_key()(("recognition")@)));
    assert(pfs.subrange(1, 1) =~= empty);
    assert(pfs[0] == (("recognition")@, inner));
    assert(fields_keep(spec_not_sub_key(), empty) =~= empty);
    assert(fields_keep(spec_not_sub_key(), pfs) =~= empty);
    assert(spec_merge_fields(fs, empty) == fs);

    // What the patch supplies for the two sub-entries.
    assert(obj_get(pfs, ("recognition")@) == Some(inner));
    assert(obj_get(pfs, ("action")@) is None) by {
        assert(obj_get(pfs.subrange(1, 1), ("action")@) is None);
    }
    let infs = inner->Obj_0;
    assert(infs[0] == (("param")@, inner_param));
    assert(infs.subrange(1, 1) =~= empty);
    assert(obj_get(infs, ("type")@) is None) by {
        assert(obj_get(infs.subrange(1, 1), ("type")@) is None);
    }
    assert(obj_get(infs, ("param")@) == Some(inner_param));
    assert(spec_sub_patch(Some(inner), true) == Ok::<
        (Option<Seq<char>>, Seq<(Seq<char>, JsonVal)>),
        (),
    >((None, inner_param->Obj_0)));
    assert(spec_sub_patch(None, false) == Ok::<
        (Option<Seq<char>>, Seq<(Seq<char>, JsonVal)>),
        (),
    >((None, empty)));

    // The recognition merge keeps the stored parameters and applies
    // `box_index` on top.
    assert forall|j: int| 0 <= j < fs.len() implies !(spec_reco_pred(rt)(
        (#[trigger] fs[j]).0,
    )) by {
        assert(spec_strip_pred(rt, at)(fs[j].0));
    }
    lemma_fields_keep_none(spec_reco_pred(rt), fs);
    assert forall|j: int| 0 <= j < fs.len() implies !(spec_act_pred(at)(
        (#[trigger] fs[j]).0,
    )) by {
        assert(spec_strip_pred(rt, at)(fs[j].0));
    }
    lemma_fields_keep_none(spec_act_pred(at), fs);
    let rm = spec_sub_merge(fs, None, inner_param->Obj_0, fs, true);
    let am = spec_sub_merge(fs, None, empty, fs, false);
    assert(spec_merge_fields(rs.1, empty) == rs.1);
    assert(spec_merge_fields(as0.1, empty) == as0.1);
    let newp = obj_set(rs.1, ("box_index")@, bi);
    assert(inner_param->Obj_0.subrange(1, 1) =~= empty);
    assert(spec_merge_fields(rs.1, inner_param->Obj_0) == newp) by {
        assert(inner_param->Obj_0[0] == (("box_index")@, bi));
        assert(spec_merge_fields(newp, inner_param->Obj_0.subrange(1, 1)) == newp);
    }
    assert(rm == (rt, newp));
    assert(am == (at, as0.1));

    // The rest of the walk succeeds as for the empty patch.
    assert forall|j: int| 0 <= j < fs.len() implies spec_strip_pred(rm.0, am.0)(
        (#[trigger] fs[j]).0,
    ) by {
        assert(spec_strip_pred(rt, at)(fs[j].0));
    }
    lemma_fields_keep_all(spec_strip_pred(rm.0, am.0), fs);
    assert(spec_norm_list_at(fs, ("next")@)->Ok_0 == fs);
    assert(spec_norm_list_at(fs, ("on_error")@)->Ok_0 == fs);

    let inner1 = obj_set(fs, ("recognition")@, spec_sub_obj(rt, newp));
    let mfs = obj_set(inner1, ("action")@, spec_sub_obj(at, as0.1));
    assert(spec_merge_node(Some(JsonVal::Obj(fs)), patch) == Ok::<JsonVal, MaaError>(
        JsonVal::Obj(mfs),
    ));

    // Read the merged recognition back.
    lemma_obj_set_get(inner1, ("action")@, spec_sub_obj(at, as0.1), ("recognition")@);
    lemma_obj_set_get(fs, ("recognition")@, spec_sub_obj(rt, newp), ("recognition")@);
    assert(obj_get(mfs, ("recognition")@) == Some(spec_sub_obj(rt, newp)));
    lemma_base_sub_of(mfs, ("recognition")@, rt, newp);
    lemma_obj_set_get(rs.1, ("box_index")@, bi, ("all_of")@);
    lemma_obj_set_get(rs.1, ("box_index")@, bi, ("box_index")@);
}

} // verus!
