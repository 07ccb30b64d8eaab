//! The task-scoped execution context.
//!
//! A `Task` carries what is shared by every context of one task: its
//! identity, its externally driven status, and the per-node hit
//! counters.  A `Context` owns the task-scoped pipeline (the stored
//! nodes, kept fully merged), the anchor table and the image override
//! table; a cloned context gets independent copies of these, while all
//! contexts of a task observe the same counters through the one `Task`
//! value.
//!
//! Every operation demands a running task and fails with
//! `InvalidHandle` otherwise: a stale context indicates a caller
//! lifetime bug.  Override patches apply in registration order and are
//! all-or-nothing; a malformed patch leaves the stored pipeline
//! untouched.

use vstd::prelude::*;

use crate::decode::{decode_node, spec_decode_node_val};
use crate::define::Status;
use crate::error::MaaError;
use crate::decode::{
    lemma_map_vals_ok, spec_attr_el, spec_fld_attrs, spec_map_vals,
};
use crate::json::{
    clone_fields, fields_get, fields_keep, fields_set, fields_view, is_first_match,
    keys_unique, lemma_fields_keep_all, lemma_fields_keep_none, lemma_obj_get_first_match,
    lemma_obj_set_found, lemma_obj_set_get, lemma_obj_set_pred, lemma_obj_set_same,
    lemma_obj_set_unique, obj_get, obj_set, JsonVal, JsonValue,
};
use crate::laws::{lemma_base_sub_of, lemma_key_facts, lemma_merge_normal, node_normal};
use crate::merge::{
    merge, spec_act_pred, spec_base_sub, spec_merge_fields, spec_merge_node,
    spec_not_sub_key, spec_reco_pred, spec_strip_pred, spec_sub_merge, spec_sub_obj,
    spec_sub_patch,
};
use crate::nextlist::{
    lemma_attr_obj_stable, spec_attr_obj, spec_norm_entries, spec_norm_next_val,
    spec_parse_attr, spec_parse_attr_str, NodeAttrV,
};
use crate::pipeline::PipelineData;
use crate::text::str_eq;

verus! {

/// First binding of `k` in an association list.
pub open spec fn assoc_get<T>(ps: Seq<(Seq<char>, T)>, k: Seq<char>) -> Option<T>
    decreases ps.len(),
{
    if ps.len() == 0 {
        None
    } else if ps[0].0 == k {
        Some(ps[0].1)
    } else {
        assoc_get(ps.subrange(1, ps.len() as int), k)
    }
}

/// The association list with the first binding of `k` replaced by `v`,
/// or `(k, v)` appended.
pub open spec fn assoc_set<T>(ps: Seq<(Seq<char>, T)>, k: Seq<char>, v: T) -> Seq<
    (Seq<char>, T),
>
    decreases ps.len(),
{
    if ps.len() == 0 {
        seq![(k, v)]
    } else if ps[0].0 == k {
        seq![(k, v)] + ps.subrange(1, ps.len() as int)
    } else {
        seq![ps[0]] + assoc_set(ps.subrange(1, ps.len() as int), k, v)
    }
}

/// What `assoc_get` reads after an `assoc_set`.
pub proof fn lemma_assoc_set_get<T>(ps: Seq<(Seq<char>, T)>, k: Seq<char>, v: T, k2: Seq<char>)
    ensures
        assoc_get(assoc_set(ps, k, v), k2) == if k2 == k {
            Some(v)
        } else {
            assoc_get(ps, k2)
        },
    decreases ps.len(),
{
    if ps.len() == 0 {
        let one = seq![(k, v)];
        assert(one[0] == (k, v));
        assert(one.subrange(1, 1) =~= Seq::<(Seq<char>, T)>::empty());
        assert(assoc_get(Seq::<(Seq<char>, T)>::empty(), k2) is None);
    } else if ps[0].0 == k {
        let out = seq![(k, v)] + ps.subrange(1, ps.len() as int);
        assert(out[0] == (k, v));
        assert(out.subrange(1, out.len() as int) =~= ps.subrange(1, ps.len() as int));
    } else {
        let tail = ps.subrange(1, ps.len() as int);
        lemma_assoc_set_get(tail, k, v, k2);
        let out = seq![ps[0]] + assoc_set(tail, k, v);
        assert(out[0] == ps[0]);
        assert(out.subrange(1, out.len() as int) =~= assoc_set(tail, k, v));
    }
}

/// `assoc_get` returns the binding at the first matching index.
pub proof fn lemma_assoc_get_first<T>(ps: Seq<(Seq<char>, T)>, k: Seq<char>, i: int)
    requires
        0 <= i < ps.len(),
        ps[i].0 == k,
        forall|j: int| 0 <= j < i ==> ps[j].0 != k,
    ensures
        assoc_get(ps, k) == Some(ps[i].1),
    decreases ps.len(),
{
    if i > 0 {
        lemma_assoc_get_first(ps.subrange(1, ps.len() as int), k, i - 1);
    }
}

/// When no key matches, `assoc_get` returns `None`.
pub proof fn lemma_assoc_get_absent<T>(ps: Seq<(Seq<char>, T)>, k: Seq<char>)
    requires
        forall|j: int| 0 <= j < ps.len() ==> ps[j].0 != k,
    ensures
        assoc_get(ps, k) is None,
    decreases ps.len(),
{
    if ps.len() > 0 {
        lemma_assoc_get_absent(ps.subrange(1, ps.len() as int), k);
    }
}

/// `assoc_set` at a first matching index updates in place.
pub proof fn lemma_assoc_set_found<T>(ps: Seq<(Seq<char>, T)>, k: Seq<char>, v: T, i: int)
    requires
        0 <= i < ps.len(),
        ps[i].0 == k,
        forall|j: int| 0 <= j < i ==> ps[j].0 != k,
    ensures
        assoc_set(ps, k, v) == ps.update(i, (k, v)),
    decreases ps.len(),
{
    if i == 0 {
        assert(seq![(k, v)] + ps.subrange(1, ps.len() as int) =~= ps.update(0, (k, v)));
    } else {
        let tail = ps.subrange(1, ps.len() as int);
        lemma_assoc_set_found(tail, k, v, i - 1);
        assert(seq![ps[0]] + tail.update(i - 1, (k, v)) =~= ps.update(i, (k, v)));
    }
}

/// `assoc_set` on an unbound key appends the new binding.
pub proof fn lemma_assoc_set_absent<T>(ps: Seq<(Seq<char>, T)>, k: Seq<char>, v: T)
    requires
        forall|j: int| 0 <= j < ps.len() ==> ps[j].0 != k,
    ensures
        assoc_set(ps, k, v) == ps.push((k, v)),
    decreases ps.len(),
{
    if ps.len() == 0 {
        assert(seq![(k, v)] =~= ps.push((k, v)));
    } else {
        let tail = ps.subrange(1, ps.len() as int);
        lemma_assoc_set_absent(tail, k, v);
        assert(seq![ps[0]] + tail.push((k, v)) =~= ps.push((k, v)));
    }
}

/// The hit count a counter table holds for `k`: its binding, or zero
/// for a node that never executed.
pub open spec fn spec_hit(hs: Seq<(Seq<char>, u64)>, k: Seq<char>) -> u64 {
    match assoc_get(hs, k) {
        Some(c) => c,
        None => 0,
    }
}

/// Model of a task.
#[verifier::ext_equal]
pub struct TaskV {
    pub id: i64,
    pub status: Status,
    pub hits: Seq<(Seq<char>, u64)>,
}

/// What every context of one task shares: the task's identity, its
/// status as the external scheduler drives it, and the per-node hit
/// counters.
#[derive(Debug)]
pub struct Task {
    id: i64,
    status: Status,
    hits: Vec<(String, u64)>,
    next_id: i64,
}

impl View for Task {
    type V = TaskV;

    closed spec fn view(&self) -> TaskV {
        TaskV { id: self.id, status: self.status, hits: self.hits.deep_view() }
    }
}

impl Task {
    /// A fresh task in the pending state, with no hits recorded.
    pub fn new(id: i64) -> (r: Task)
        ensures
            r@.id == id,
            r@.status == Status::Pending,
            r@.hits.len() == 0,
    {
        let r = Task { id, status: Status::Pending, hits: Vec::new(), next_id: 1 };
        proof {
            assert(r@.hits =~= Seq::<(Seq<char>, u64)>::empty());
        }
        r
    }

    /// The task's stable identifier.
    pub fn id(&self) -> (r: i64)
        ensures
            r == self@.id,
    {
        self.id
    }

    /// The task's current status.
    pub fn status(&self) -> (r: Status)
        ensures
            r == self@.status,
    {
        self.status
    }

    /// Drive the task to a new status.  The external scheduler owns
    /// the `Pending -> Running -> {Succeeded, Failed}` lifecycle.
    pub fn set_status(&mut self, s: Status)
        ensures
            final(self)@.id == old(self)@.id,
            final(self)@.status == s,
            final(self)@.hits == old(self)@.hits,
    {
        self.status = s;
    }

    /// The hit counter of a node; a node never executed counts zero.
    pub fn hit_count(&self, node: &str) -> (r: u64)
        ensures
            r == spec_hit(self@.hits, node@),
    {
        let mut i: usize = 0;
        while i < self.hits.len()
            invariant
                i <= self.hits@.len(),
                forall|j: int| 0 <= j < i ==> (#[trigger] self.hits.deep_view()[j]).0
                    != node@,
            decreases self.hits@.len() - i,
        {
            if str_eq(self.hits[i].0.as_str(), node) {
                proof {
                    lemma_assoc_get_first(self.hits.deep_view(), node@, i as int);
                }
                return self.hits[i].1;
            }
            i += 1;
        }
        proof {
            lemma_assoc_get_absent(self.hits.deep_view(), node@);
        }
        0
    }

    /// Record one recognition hit of a node.  The counter saturates at
    /// its maximum instead of wrapping.
    pub fn record_hit(&mut self, node: &str)
        ensures
            final(self)@.id == old(self)@.id,
            final(self)@.status == old(self)@.status,
            spec_hit(final(self)@.hits, node@) == if spec_hit(old(self)@.hits, node@)
                < u64::MAX {
                spec_hit(old(self)@.hits, node@) + 1
            } else {
                u64::MAX as int
            },
            forall|k: Seq<char>| k != node@ ==> #[trigger] spec_hit(final(self)@.hits, k)
                == spec_hit(old(self)@.hits, k),
    {
        let ghost hs0 = self.hits.deep_view();
        let mut i: usize = 0;
        while i < self.hits.len()
            invariant
                i <= self.hits@.len(),
                self.hits.deep_view() == hs0,
                self@ == old(self)@,
                forall|j: int| 0 <= j < i ==> (#[trigger] hs0[j]).0 != node@,
            decreases self.hits@.len() - i,
        {
            if str_eq(self.hits[i].0.as_str(), node) {
                let old_c = self.hits[i].1;
                let new_c: u64 = if old_c < u64::MAX {
                    old_c + 1
                } else {
                    u64::MAX
                };
                let key = self.hits[i].0.clone();
                let ghost idx = i as int;
                self.hits[i] = (key, new_c);
                proof {
                    lemma_assoc_get_first(hs0, node@, idx);
                    lemma_assoc_set_found(hs0, node@, new_c, idx);
                    assert(self.hits.deep_view() =~= assoc_set(hs0, node@, new_c));
                    assert forall|k: Seq<char>| k != node@ implies #[trigger] spec_hit(
                        self.hits.deep_view(),
                        k,
                    ) == spec_hit(hs0, k) by {
                        lemma_assoc_set_get(hs0, node@, new_c, k);
                    }
                    lemma_assoc_set_get(hs0, node@, new_c, node@);
                }
                return ;
            }
            i += 1;
        }
        let ghost prev = self.hits.deep_view();
        self.hits.push((node.to_owned(), 1));
        proof {
            lemma_assoc_get_absent(prev, node@);
            lemma_assoc_set_absent(prev, node@, 1u64);
            assert(self.hits.deep_view() =~= assoc_set(prev, node@, 1u64));
            assert forall|k: Seq<char>| k != node@ implies #[trigger] spec_hit(
                self.hits.deep_view(),
                k,
            ) == spec_hit(prev, k) by {
                lemma_assoc_set_get(prev, node@, 1u64, k);
            }
            lemma_assoc_set_get(prev, node@, 1u64, node@);
        }
    }

    /// Reset one node's counter to zero.
    pub fn clear_hit(&mut self, node: &str)
        ensures
            final(self)@.id == old(self)@.id,
            final(self)@.status == old(self)@.status,
            spec_hit(final(self)@.hits, node@) == 0,
            forall|k: Seq<char>| k != node@ ==> #[trigger] spec_hit(final(self)@.hits, k)
                == spec_hit(old(self)@.hits, k),
    {
        let ghost hs0 = self.hits.deep_view();
        let mut i: usize = 0;
        while i < self.hits.len()
            invariant
                i <= self.hits@.len(),
                self.hits.deep_view() == hs0,
                self@ == old(self)@,
                forall|j: int| 0 <= j < i ==> (#[trigger] hs0[j]).0 != node@,
            decreases self.hits@.len() - i,
        {
            if str_eq(self.hits[i].0.as_str(), node) {
                let key = self.hits[i].0.clone();
                let ghost idx = i as int;
                self.hits[i] = (key, 0);
                proof {
                    lemma_assoc_set_found(hs0, node@, 0u64, idx);
                    assert(self.hits.deep_view() =~= assoc_set(hs0, node@, 0u64));
                    assert forall|k: Seq<char>| k != node@ implies #[trigger] spec_hit(
                        self.hits.deep_view(),
                        k,
                    ) == spec_hit(hs0, k) by {
                        lemma_assoc_set_get(hs0, node@, 0u64, k);
                    }
                    lemma_assoc_set_get(hs0, node@, 0u64, node@);
                }
                return ;
            }
            i += 1;
        }
        proof {
            lemma_assoc_get_absent(hs0, node@);
        }
    }

    /// Reset every counter to zero.
    pub fn clear_all_hits(&mut self)
        ensures
            final(self)@.id == old(self)@.id,
            final(self)@.status == old(self)@.status,
            forall|k: Seq<char>| #[trigger] spec_hit(final(self)@.hits, k) == 0,
    {
        self.hits = Vec::new();
        proof {
            assert(self.hits.deep_view() =~= Seq::<(Seq<char>, u64)>::empty());
            assert forall|k: Seq<char>| #[trigger] spec_hit(self.hits.deep_view(), k)
                == 0 by {
                lemma_assoc_get_absent(self.hits.deep_view(), k);
            }
        }
    }

    /// Allocate a fresh, nonzero operation identifier.
    pub fn fresh_id(&mut self) -> (r: i64)
        ensures
            final(self)@.id == old(self)@.id,
            final(self)@.status == old(self)@.status,
            final(self)@.hits == old(self)@.hits,
            r != 0,
    {
        if self.next_id <= 0 || self.next_id == i64::MAX {
            self.next_id = 1;
        }
        let r = self.next_id;
        self.next_id = self.next_id + 1;
        r
    }
}

/// A stored pipeline in which every node is a canonical, decodable
/// object under a distinct name.
pub open spec fn pipeline_wf(pv: Seq<(Seq<char>, JsonVal)>) -> bool {
    &&& keys_unique(pv)
    &&& (forall|j: int|
        0 <= j < pv.len() ==> (#[trigger] pv[j]).1 is Obj && node_normal(pv[j].1->Obj_0)
            && spec_decode_node_val(pv[j].1) is Ok)
}

/// Application of a patch object's entries, in order: each entry
/// merges onto the stored node of that name (or onto nothing), and the
/// merged node must decode; the first failure aborts the whole patch.
pub open spec fn spec_apply_patch(
    pv: Seq<(Seq<char>, JsonVal)>,
    pfs: Seq<(Seq<char>, JsonVal)>,
) -> Result<Seq<(Seq<char>, JsonVal)>, MaaError>
    decreases pfs.len(),
{
    if pfs.len() == 0 {
        Ok(pv)
    } else {
        match spec_merge_node(obj_get(pv, pfs[0].0), pfs[0].1) {
            Err(e) => Err(e),
            Ok(m) => if spec_decode_node_val(m) is Err {
                Err(MaaError::InvalidConfig(None))
            } else {
                spec_apply_patch(obj_set(pv, pfs[0].0, m), pfs.subrange(1, pfs.len() as int))
            },
        }
    }
}

/// A well-formed pipeline stays well-formed under a successful patch.
pub proof fn lemma_apply_patch_wf(
    pv: Seq<(Seq<char>, JsonVal)>,
    pfs: Seq<(Seq<char>, JsonVal)>,
)
    requires
        pipeline_wf(pv),
        spec_apply_patch(pv, pfs) is Ok,
    ensures
        pipeline_wf(spec_apply_patch(pv, pfs)->Ok_0),
    decreases pfs.len(),
{
    if pfs.len() > 0 {
        let base = obj_get(pv, pfs[0].0);
        let m = spec_merge_node(base, pfs[0].1)->Ok_0;
        if base is Some {
            lemma_obj_get_first_match(pv, pfs[0].0);
        }
        lemma_merge_normal(base, pfs[0].1, m);
        let pv2 = obj_set(pv, pfs[0].0, m);
        lemma_obj_set_unique(pv, pfs[0].0, m);
        assert forall|j: int| 0 <= j < pv2.len() implies (#[trigger] pv2[j]).1 is Obj
            && node_normal(pv2[j].1->Obj_0) && spec_decode_node_val(pv2[j].1) is Ok by {
            lemma_obj_set_entry(pv, pfs[0].0, m, j);
        }
        lemma_apply_patch_wf(pv2, pfs.subrange(1, pfs.len() as int));
    }
}

/// Every entry of an `obj_set` result is an old entry or the new
/// binding.
proof fn lemma_obj_set_entry(fs: Seq<(Seq<char>, JsonVal)>, k: Seq<char>, v: JsonVal, j: int)
    requires
        0 <= j < obj_set(fs, k, v).len(),
    ensures
        obj_set(fs, k, v)[j] == (k, v) || (exists|i: int|
            0 <= i < fs.len() && fs[i] == obj_set(fs, k, v)[j]),
    decreases fs.len(),
{
    if fs.len() == 0 {
        assert(obj_set(fs, k, v) =~= seq![(k, v)]);
    } else if fs[0].0 == k {
        let out = seq![(k, v)] + fs.subrange(1, fs.len() as int);
        if j > 0 {
            assert(out[j] == fs[j]);
        }
    } else {
        let tail = fs.subrange(1, fs.len() as int);
        let out = seq![fs[0]] + obj_set(tail, k, v);
        if j == 0 {
            assert(out[0] == fs[0]);
        } else {
            lemma_obj_set_entry(tail, k, v, j - 1);
            assert(out[j] == obj_set(tail, k, v)[j - 1]);
            if !(obj_set(tail, k, v)[j - 1] == (k, v)) {
                let i0 = choose|i: int|
                    0 <= i < tail.len() && tail[i] == obj_set(tail, k, v)[j - 1];
                assert(fs[i0 + 1] == obj_set(tail, k, v)[j - 1]);
            }
        }
    }
}

/// Apply a patch object's entries onto a pipeline, in order.
#[verifier::rlimit(60)]
fn apply_patch(pl: &mut Vec<(String, JsonValue)>, pfs: &Vec<(String, JsonValue)>) -> (r:
    Result<(), MaaError>)
    requires
        pipeline_wf(fields_view(old(pl)@)),
    ensures
        match spec_apply_patch(fields_view(old(pl)@), fields_view(pfs@)) {
            Ok(npv) => r matches Ok(_) && fields_view(final(pl)@) == npv && pipeline_wf(
                npv,
            ),
            Err(e) => r == Err::<(), MaaError>(e),
        },
{
    proof {
        broadcast use crate::json::group_json_view;

    }
    let ghost pfv = fields_view(pfs@);
    let ghost goal = spec_apply_patch(fields_view(old(pl)@), pfv);
    proof {
        assert(pfv.subrange(0, pfv.len() as int) =~= pfv);
    }
    let mut i: usize = 0;
    while i < pfs.len()
        invariant
            i <= pfs@.len(),
            pfv == fields_view(pfs@),
            pfv.len() == pfs@.len(),
            pipeline_wf(fields_view(pl@)),
            goal == spec_apply_patch(fields_view(old(pl)@), pfv),
            goal == spec_apply_patch(fields_view(pl@), pfv.subrange(i as int, pfv.len() as int)),
        decreases pfs@.len() - i,
    {
        proof {
            broadcast use crate::json::group_json_view;

        }
        let ghost before = fields_view(pl@);
        let ghost rest = pfv.subrange(i as int, pfv.len() as int);
        proof {
            assert(rest[0] == pfv[i as int]);
            assert(rest.subrange(1, rest.len() as int) =~= pfv.subrange(
                i + 1,
                pfv.len() as int,
            ));
        }
        let entry = &pfs[i];
        let base = fields_get(pl, entry.0.as_str());
        proof {
            if obj_get(before, pfv[i as int].0) is Some {
                lemma_obj_get_first_match(before, pfv[i as int].0);
            }
        }
        let merged = match merge(base, &entry.1) {
            Ok(m) => m,
            Err(e) => {
                return Err(e);
            },
        };
        match decode_node(&merged) {
            Ok(_) => {},
            Err(_) => {
                return Err(MaaError::InvalidConfig(None));
            },
        }
        proof {
            lemma_merge_normal(
                crate::merge::opt_val_view(base),
                pfv[i as int].1,
                merged@,
            );
            lemma_obj_set_unique(before, pfv[i as int].0, merged@);
            assert forall|j: int|
                0 <= j < obj_set(before, pfv[i as int].0, merged@).len() implies {
                let e2 = #[trigger] obj_set(before, pfv[i as int].0, merged@)[j];
                e2.1 is Obj && node_normal(e2.1->Obj_0) && spec_decode_node_val(e2.1) is Ok
            } by {
                lemma_obj_set_entry(before, pfv[i as int].0, merged@, j);
            }
        }
        fields_set(pl, entry.0.as_str(), merged);
        i += 1;
    }
    proof {
        assert(pfv.subrange(pfv.len() as int, pfv.len() as int) =~= Seq::<
            (Seq<char>, JsonVal),
        >::empty());
    }
    Ok(())
}

/// Model of a context.
#[verifier::ext_equal]
pub struct ContextV {
    pub task_id: i64,
    pub pipeline: Seq<(Seq<char>, JsonVal)>,
    pub anchors: Seq<(Seq<char>, Seq<char>)>,
    pub images: Seq<(Seq<char>, Seq<u8>)>,
}

/// The task-scoped facade for pipeline operations: the stored,
/// fully merged pipeline, the anchor table and the image override
/// table, bound to one task's identity.
#[derive(Debug)]
pub struct Context {
    task_id: i64,
    pipeline: Vec<(String, JsonValue)>,
    anchors: Vec<(String, String)>,
    images: Vec<(String, Vec<u8>)>,
}

impl View for Context {
    type V = ContextV;

    closed spec fn view(&self) -> ContextV {
        ContextV {
            task_id: self.task_id,
            pipeline: fields_view(self.pipeline@),
            anchors: self.anchors.deep_view(),
            images: self.images.deep_view(),
        }
    }
}

/// A prepared nested task run, handed to the external scheduler.
#[derive(Debug)]
pub struct TaskRun {
    pub task_id: i64,
    pub entry: String,
    pub pipeline: Vec<(String, JsonValue)>,
}

/// A prepared direct recognition run.
#[derive(Debug)]
pub struct RecoRun {
    pub reco_id: i64,
    pub entry: String,
    pub pipeline: Vec<(String, JsonValue)>,
    pub image: Vec<u8>,
}

/// A prepared direct action run.
#[derive(Debug)]
pub struct ActRun {
    pub act_id: i64,
    pub entry: String,
    pub pipeline: Vec<(String, JsonValue)>,
    pub box_rect: crate::pipeline::Rect,
    pub reco_detail: String,
}

/// String-to-string association list update.
fn anchors_set(ps: &mut Vec<(String, String)>, k: &str, v: String)
    ensures
        final(ps).deep_view() == assoc_set(old(ps).deep_view(), k@, v@),
{
    let ghost ps0 = ps.deep_view();
    let ghost vv = v@;
    let mut i: usize = 0;
    while i < ps.len()
        invariant
            i <= ps@.len(),
            ps.deep_view() == ps0,
            ps0 == old(ps).deep_view(),
            vv == v@,
            forall|j: int| 0 <= j < i ==> (#[trigger] ps0[j]).0 != k@,
        decreases ps@.len() - i,
    {
        if str_eq(ps[i].0.as_str(), k) {
            let ghost idx = i as int;
            ps[i] = (k.to_owned(), v);
            proof {
                lemma_assoc_set_found(ps0, k@, vv, idx);
                assert(ps.deep_view() =~~= ps0.update(idx, (k@, vv)));
            }
            return ;
        }
        i += 1;
    }
    let ghost prev = ps.deep_view();
    ps.push((k.to_owned(), v));
    proof {
        lemma_assoc_set_absent(prev, k@, vv);
        assert(ps.deep_view() =~~= prev.push((k@, vv)));
    }
}

/// String-to-string association list lookup.
fn anchors_get<'a>(ps: &'a Vec<(String, String)>, k: &str) -> (r: Option<&'a String>)
    ensures
        match r {
            Some(v) => assoc_get(ps.deep_view(), k@) == Some(v@),
            None => assoc_get(ps.deep_view(), k@) is None,
        },
{
    let mut i: usize = 0;
    while i < ps.len()
        invariant
            i <= ps@.len(),
            forall|j: int| 0 <= j < i ==> (#[trigger] ps.deep_view()[j]).0 != k@,
        decreases ps@.len() - i,
    {
        if str_eq(ps[i].0.as_str(), k) {
            proof {
                lemma_assoc_get_first(ps.deep_view(), k@, i as int);
            }
            return Some(&ps[i].1);
        }
        i += 1;
    }
    proof {
        lemma_assoc_get_absent(ps.deep_view(), k@);
    }
    None
}

/// Copy a string-to-string association list.
fn anchors_clone(ps: &Vec<(String, String)>) -> (r: Vec<(String, String)>)
    ensures
        r.deep_view() == ps.deep_view(),
{
    let mut r: Vec<(String, String)> = Vec::new();
    let mut i: usize = 0;
    while i < ps.len()
        invariant
            i <= ps@.len(),
            r@.len() == i,
            forall|j: int| 0 <= j < i ==> (#[trigger] r@[j]).0@ == ps@[j].0@ && r@[j].1@
                == ps@[j].1@,
        decreases ps@.len() - i,
    {
        let entry = &ps[i];
        r.push((entry.0.clone(), entry.1.clone()));
        i += 1;
    }
    proof {
        assert(r.deep_view() =~~= ps.deep_view());
    }
    r
}

/// Copy a byte string.
fn bytes_clone(bs: &Vec<u8>) -> (r: Vec<u8>)
    ensures
        r@ == bs@,
{
    let mut r: Vec<u8> = Vec::new();
    let mut i: usize = 0;
    while i < bs.len()
        invariant
            i <= bs@.len(),
            r@.len() == i,
            forall|j: int| 0 <= j < i ==> #[trigger] r@[j] == bs@[j],
        decreases bs@.len() - i,
    {
        r.push(bs[i]);
        i += 1;
    }
    proof {
        assert(r@ =~= bs@);
    }
    r
}

/// Copy a string-to-bytes association list.
fn images_clone(ps: &Vec<(String, Vec<u8>)>) -> (r: Vec<(String, Vec<u8>)>)
    ensures
        r.deep_view() == ps.deep_view(),
{
    let mut r: Vec<(String, Vec<u8>)> = Vec::new();
    let mut i: usize = 0;
    while i < ps.len()
        invariant
            i <= ps@.len(),
            r@.len() == i,
            forall|j: int| 0 <= j < i ==> (#[trigger] r@[j]).0@ == ps@[j].0@ && r@[j].1@
                == ps@[j].1@,
        decreases ps@.len() - i,
    {
        let entry = &ps[i];
        r.push((entry.0.clone(), bytes_clone(&entry.1)));
        i += 1;
    }
    proof {
        assert(r.deep_view() =~~= ps.deep_view());
    }
    r
}

/// String-to-bytes association list update.
fn images_set(ps: &mut Vec<(String, Vec<u8>)>, k: &str, v: Vec<u8>)
    ensures
        final(ps).deep_view() == assoc_set(old(ps).deep_view(), k@, v@),
{
    let ghost ps0 = ps.deep_view();
    let ghost vv = v@;
    let mut i: usize = 0;
    while i < ps.len()
        invariant
            i <= ps@.len(),
            ps.deep_view() == ps0,
            ps0 == old(ps).deep_view(),
            vv == v@,
            forall|j: int| 0 <= j < i ==> (#[trigger] ps0[j]).0 != k@,
        decreases ps@.len() - i,
    {
        if str_eq(ps[i].0.as_str(), k) {
            let ghost idx = i as int;
            ps[i] = (k.to_owned(), v);
            proof {
                lemma_assoc_set_found(ps0, k@, vv, idx);
                assert(ps.deep_view() =~~= ps0.update(idx, (k@, vv)));
            }
            return ;
        }
        i += 1;
    }
    let ghost prev = ps.deep_view();
    ps.push((k.to_owned(), v));
    proof {
        lemma_assoc_set_absent(prev, k@, vv);
        assert(ps.deep_view() =~~= prev.push((k@, vv)));
    }
}

/// The string list of an override next-list, as wire values.
pub open spec fn strs_to_vals(ss: Seq<Seq<char>>) -> Seq<JsonVal> {
    Seq::new(ss.len(), |i: int| JsonVal::Str(ss[i]))
}

/// The one-node patch that `override_next` applies.
pub open spec fn spec_next_patch(name: Seq<char>, ss: Seq<Seq<char>>) -> Seq<
    (Seq<char>, JsonVal),
> {
    seq![
        (
            name,
            JsonVal::Obj(seq![(("next")@, JsonVal::Arr(strs_to_vals(ss)))]),
        ),
    ]
}

impl Context {
    /// A well-formed context stores only canonical, decodable nodes.
    pub open spec fn wf(&self) -> bool {
        pipeline_wf(self@.pipeline)
    }

    /// Build a context for a task from a resource's stored pipeline:
    /// every node is brought to canonical form as if merged onto
    /// nothing, and must be valid.
    pub fn new(task: &Task, pipeline: &JsonValue) -> (r: Result<Context, MaaError>)
        ensures
            match pipeline@ {
                JsonVal::Obj(pfs) => match spec_apply_patch(
                    Seq::<(Seq<char>, JsonVal)>::empty(),
                    pfs,
                ) {
                    Ok(npv) => r matches Ok(c) && c@.task_id == task@.id && c@.pipeline
                        == npv && c@.anchors.len() == 0 && c@.images.len() == 0 && c.wf(),
                    Err(e) => r == Err::<Context, MaaError>(e),
                },
                _ => r == Err::<Context, MaaError>(MaaError::InvalidConfig(None)),
            },
    {
        let pfs = match pipeline {
            JsonValue::Obj(fs) => fs,
            _ => {
                return Err(MaaError::InvalidConfig(None));
            },
        };
        let mut pl: Vec<(String, JsonValue)> = Vec::new();
        proof {
            assert(fields_view(pl@) =~= Seq::<(Seq<char>, JsonVal)>::empty());
        }
        match apply_patch(&mut pl, pfs) {
            Ok(_) => {},
            Err(e) => {
                return Err(e);
            },
        }
        let c = Context { task_id: task.id(), pipeline: pl, anchors: Vec::new(), images: Vec::new() };
        proof {
            assert(c@.anchors =~= Seq::<(Seq<char>, Seq<char>)>::empty());
            assert(c@.images =~= Seq::<(Seq<char>, Seq<u8>)>::empty());
        }
        Ok(c)
    }

    /// The owning task's stable identifier.
    pub fn task_id(&self) -> (r: i64)
        ensures
            r == self@.task_id,
    {
        self.task_id
    }

    /// Apply an override patch to the stored pipeline, all-or-nothing:
    /// on any failure the stored pipeline is unchanged.
    pub fn override_pipeline(&mut self, task: &Task, patch: &JsonValue) -> (r: Result<
        (),
        MaaError,
    >)
        requires
            old(self).wf(),
        ensures
            final(self)@.task_id == old(self)@.task_id,
            final(self)@.anchors == old(self)@.anchors,
            final(self)@.images == old(self)@.images,
            final(self).wf(),
            task@.status != Status::Running ==> r == Err::<(), MaaError>(
                MaaError::InvalidHandle,
            ) && final(self)@ == old(self)@,
            task@.status == Status::Running ==> match patch@ {
                JsonVal::Obj(pfs) => match spec_apply_patch(old(self)@.pipeline, pfs) {
                    Ok(npv) => r matches Ok(_) && final(self)@.pipeline == npv,
                    Err(e) => r == Err::<(), MaaError>(e) && final(self)@ == old(self)@,
                },
                _ => r == Err::<(), MaaError>(MaaError::InvalidConfig(None)) && final(self)@ == old(self)@,
            },
    {
        if !task.status().running() {
            return Err(MaaError::InvalidHandle);
        }
        let pfs = match patch {
            JsonValue::Obj(fs) => fs,
            _ => {
                return Err(MaaError::InvalidConfig(None));
            },
        };
        let mut work = clone_fields(&self.pipeline);
        match apply_patch(&mut work, pfs) {
            Ok(_) => {
                self.pipeline = work;
                Ok(())
            },
            Err(e) => Err(e),
        }
    }

    /// Read back a node's fully merged definition as raw JSON;
    /// `None` exactly when no node of that name exists.
    pub fn get_node_data(&self, task: &Task, name: &str) -> (r: Result<
        Option<JsonValue>,
        MaaError,
    >)
        ensures
            task@.status != Status::Running ==> r == Err::<Option<JsonValue>, MaaError>(
                MaaError::InvalidHandle,
            ),
            task@.status == Status::Running ==> match obj_get(self@.pipeline, name@) {
                Some(v) => r matches Ok(o) && o matches Some(j) && j@ == v,
                None => r == Ok::<Option<JsonValue>, MaaError>(None),
            },
    {
        if !task.status().running() {
            return Err(MaaError::InvalidHandle);
        }
        match fields_get(&self.pipeline, name) {
            Some(v) => Ok(Some(v.clone())),
            None => Ok(None),
        }
    }

    /// Read back a node's fully merged definition as a typed value;
    /// `None` exactly when no node of that name exists, never an error
    /// for a missing node.
    pub fn get_node_object(&self, task: &Task, name: &str) -> (r: Result<
        Option<PipelineData>,
        MaaError,
    >)
        requires
            self.wf(),
        ensures
            task@.status != Status::Running ==> r == Err::<Option<PipelineData>, MaaError>(
                MaaError::InvalidHandle,
            ),
            task@.status == Status::Running ==> match obj_get(self@.pipeline, name@) {
                Some(v) => r matches Ok(o) && o matches Some(p) && Ok::<_, ()>(p@)
                    == spec_decode_node_val(v),
                None => r == Ok::<Option<PipelineData>, MaaError>(None),
            },
    {
        if !task.status().running() {
            return Err(MaaError::InvalidHandle);
        }
        match fields_get(&self.pipeline, name) {
            Some(v) => {
                proof {
                    lemma_obj_get_first_match(self@.pipeline, name@);
                }
                match decode_node(v) {
                    Ok(p) => Ok(Some(p)),
                    Err(e) => Err(e),
                }
            },
            None => Ok(None),
        }
    }

    /// Redirect a named anchor to a node.
    pub fn set_anchor(&mut self, task: &Task, anchor_name: &str, node_name: &str) -> (r:
        Result<bool, MaaError>)
        ensures
            final(self)@.task_id == old(self)@.task_id,
            final(self)@.pipeline == old(self)@.pipeline,
            final(self)@.images == old(self)@.images,
            old(self).wf() ==> final(self).wf(),
            task@.status != Status::Running ==> r == Err::<bool, MaaError>(
                MaaError::InvalidHandle,
            ) && final(self)@ == old(self)@,
            task@.status == Status::Running ==> r == Ok::<bool, MaaError>(true) && final(self)@.anchors == assoc_set(old(self)@.anchors, anchor_name@, node_name@),
    {
        if !task.status().running() {
            return Err(MaaError::InvalidHandle);
        }
        anchors_set(&mut self.anchors, anchor_name, node_name.to_owned());
        Ok(true)
    }

    /// Read a named anchor; `None` when it was never set.
    pub fn get_anchor(&self, task: &Task, anchor_name: &str) -> (r: Result<
        Option<String>,
        MaaError,
    >)
        ensures
            task@.status != Status::Running ==> r == Err::<Option<String>, MaaError>(
                MaaError::InvalidHandle,
            ),
            task@.status == Status::Running ==> match assoc_get(self@.anchors, anchor_name@) {
                Some(v) => r matches Ok(o) && o matches Some(s) && s@ == v,
                None => r == Ok::<Option<String>, MaaError>(None),
            },
    {
        if !task.status().running() {
            return Err(MaaError::InvalidHandle);
        }
        match anchors_get(&self.anchors, anchor_name) {
            Some(s) => Ok(Some(s.clone())),
            None => Ok(None),
        }
    }

    /// Read a node's hit counter; a node never executed counts zero.
    pub fn get_hit_count(&self, task: &Task, node_name: &str) -> (r: Result<u64, MaaError>)
        ensures
            task@.status != Status::Running ==> r == Err::<u64, MaaError>(
                MaaError::InvalidHandle,
            ),
            task@.status == Status::Running ==> r == Ok::<u64, MaaError>(
                spec_hit(task@.hits, node_name@),
            ),
    {
        if !task.status().running() {
            return Err(MaaError::InvalidHandle);
        }
        Ok(task.hit_count(node_name))
    }

    /// Reset a node's hit counter.
    pub fn clear_hit_count(&self, task: &mut Task, node_name: &str) -> (r: Result<
        bool,
        MaaError,
    >)
        ensures
            old(task)@.status != Status::Running ==> r == Err::<bool, MaaError>(
                MaaError::InvalidHandle,
            ) && final(task)@ == old(task)@,
            old(task)@.status == Status::Running ==> {
                &&& r == Ok::<bool, MaaError>(true)
                &&& final(task)@.id == old(task)@.id
                &&& final(task)@.status == old(task)@.status
                &&& spec_hit(final(task)@.hits, node_name@) == 0
                &&& (forall|k: Seq<char>| k != node_name@ ==> #[trigger] spec_hit(
                    final(task)@.hits,
                    k,
                ) == spec_hit(old(task)@.hits, k))
            },
    {
        if !task.status().running() {
            return Err(MaaError::InvalidHandle);
        }
        task.clear_hit(node_name);
        Ok(true)
    }

    /// Reset every hit counter of the task.
    pub fn clear_all_hit_counts(&self, task: &mut Task) -> (r: Result<bool, MaaError>)
        ensures
            old(task)@.status != Status::Running ==> r == Err::<bool, MaaError>(
                MaaError::InvalidHandle,
            ) && final(task)@ == old(task)@,
            old(task)@.status == Status::Running ==> {
                &&& r == Ok::<bool, MaaError>(true)
                &&& final(task)@.id == old(task)@.id
                &&& final(task)@.status == old(task)@.status
                &&& (forall|k: Seq<char>| #[trigger] spec_hit(final(task)@.hits, k) == 0)
            },
    {
        if !task.status().running() {
            return Err(MaaError::InvalidHandle);
        }
        task.clear_all_hits();
        Ok(true)
    }

    /// Replace a stored node's next list with parsed entries; `false`
    /// when the node does not exist.
    pub fn override_next(&mut self, task: &Task, name: &str, next_list: &Vec<String>) -> (r:
        Result<bool, MaaError>)
        requires
            old(self).wf(),
        ensures
            final(self)@.task_id == old(self)@.task_id,
            final(self)@.anchors == old(self)@.anchors,
            final(self)@.images == old(self)@.images,
            final(self).wf(),
            task@.status != Status::Running ==> r == Err::<bool, MaaError>(
                MaaError::InvalidHandle,
            ) && final(self)@ == old(self)@,
            task@.status == Status::Running ==> {
                if obj_get(old(self)@.pipeline, name@) is None {
                    r == Ok::<bool, MaaError>(false) && final(self)@ == old(self)@
                } else {
                    match spec_apply_patch(
                        old(self)@.pipeline,
                        spec_next_patch(name@, next_list.deep_view()),
                    ) {
                        Ok(npv) => r == Ok::<bool, MaaError>(true) && final(self)@.pipeline
                            == npv,
                        Err(e) => r == Err::<bool, MaaError>(e) && final(self)@ == old(
                            self,
                        )@,
                    }
                }
            },
    {
        if !task.status().running() {
            return Err(MaaError::InvalidHandle);
        }
        match fields_get(&self.pipeline, name) {
            Some(_) => {},
            None => {
                return Ok(false);
            },
        }
        let mut vals: Vec<JsonValue> = Vec::new();
        let mut i: usize = 0;
        while i < next_list.len()
            invariant
                i <= next_list@.len(),
                vals@.len() == i,
                forall|j: int| 0 <= j < i ==> crate::json::json_view(vals@[j])
                    == JsonVal::Str(#[trigger] next_list.deep_view()[j]),
            decreases next_list@.len() - i,
        {
            proof {
                broadcast use crate::json::group_json_view;

            }
            vals.push(JsonValue::Str(next_list[i].clone()));
            i += 1;
        }
        proof {
            broadcast use crate::json::group_json_view;

            assert(crate::json::arr_view(vals@) =~= strs_to_vals(next_list.deep_view()));
        }
        let ghost vals_v = crate::json::arr_view(vals@);
        let mut inner_fields: Vec<(String, JsonValue)> = Vec::new();
        inner_fields.push(("next".to_owned(), JsonValue::Arr(vals)));
        let inner = JsonValue::Obj(inner_fields);
        let ghost inner_v = inner@;
        proof {
            broadcast use crate::json::group_json_view;

            assert(fields_view(inner_fields@) =~= seq![
                (("next")@, JsonVal::Arr(vals_v)),
            ]);
            assert(inner_v == JsonVal::Obj(
                seq![(("next")@, JsonVal::Arr(strs_to_vals(next_list.deep_view())))],
            ));
        }
        let mut patch_fields: Vec<(String, JsonValue)> = Vec::new();
        patch_fields.push((name.to_owned(), inner));
        proof {
            broadcast use crate::json::group_json_view;

            assert(fields_view(patch_fields@) =~= spec_next_patch(
                name@,
                next_list.deep_view(),
            ));
        }
        let mut work = clone_fields(&self.pipeline);
        match apply_patch(&mut work, &patch_fields) {
            Ok(_) => {
                self.pipeline = work;
                Ok(true)
            },
            Err(e) => Err(e),
        }
    }

    /// Store a task-scoped image override under a name.
    pub fn override_image(&mut self, task: &Task, image_name: &str, image: &Vec<u8>) -> (r:
        Result<bool, MaaError>)
        ensures
            final(self)@.task_id == old(self)@.task_id,
            final(self)@.pipeline == old(self)@.pipeline,
            final(self)@.anchors == old(self)@.anchors,
            old(self).wf() ==> final(self).wf(),
            task@.status != Status::Running ==> r == Err::<bool, MaaError>(
                MaaError::InvalidHandle,
            ) && final(self)@ == old(self)@,
            task@.status == Status::Running ==> r == Ok::<bool, MaaError>(true) && final(self)@.images == assoc_set(old(self)@.images, image_name@, image@),
    {
        if !task.status().running() {
            return Err(MaaError::InvalidHandle);
        }
        images_set(&mut self.images, image_name, bytes_clone(image));
        Ok(true)
    }

    /// An independent context for the same task: same stored pipeline
    /// and tables at the time of the clone, separate storage from then
    /// on; the hit counters stay shared through the task.
    pub fn clone_context(&self, task: &Task) -> (r: Result<Context, MaaError>)
        ensures
            task@.status != Status::Running ==> r == Err::<Context, MaaError>(
                MaaError::InvalidHandle,
            ),
            task@.status == Status::Running ==> (r matches Ok(c) && c@ == self@ && (
            self.wf() ==> c.wf())),
    {
        if !task.status().running() {
            return Err(MaaError::InvalidHandle);
        }
        Ok(
            Context {
                task_id: self.task_id,
                pipeline: clone_fields(&self.pipeline),
                anchors: anchors_clone(&self.anchors),
                images: images_clone(&self.images),
            },
        )
    }

    /// Prepare a nested task run: the override is merged into a copy
    /// of the stored pipeline before the nested task reads any node,
    /// and a fresh identifier is allocated.  The external scheduler
    /// performs the run.
    pub fn run_task(&self, task: &mut Task, entry: &str, pipeline_override: &JsonValue) -> (r:
        Result<TaskRun, MaaError>)
        requires
            self.wf(),
        ensures
            old(task)@.status != Status::Running ==> r == Err::<TaskRun, MaaError>(
                MaaError::InvalidHandle,
            ) && final(task)@ == old(task)@,
            old(task)@.status == Status::Running ==> match pipeline_override@ {
                JsonVal::Obj(pfs) => match spec_apply_patch(self@.pipeline, pfs) {
                    Ok(npv) => r matches Ok(tr) && tr.task_id != 0 && tr.entry@ == entry@
                        && fields_view(tr.pipeline@) == npv && final(task)@.id == old(
                        task,
                    )@.id && final(task)@.status == old(task)@.status && final(task)@.hits
                        == old(task)@.hits,
                    Err(e) => r == Err::<TaskRun, MaaError>(e) && final(task)@ == old(
                        task,
                    )@,
                },
                _ => r == Err::<TaskRun, MaaError>(MaaError::InvalidConfig(None)) && final(task)@ == old(task)@,
            },
    {
        if !task.status().running() {
            return Err(MaaError::InvalidHandle);
        }
        let pfs = match pipeline_override {
            JsonValue::Obj(fs) => fs,
            _ => {
                return Err(MaaError::InvalidConfig(None));
            },
        };
        let mut work = clone_fields(&self.pipeline);
        match apply_patch(&mut work, pfs) {
            Ok(_) => {},
            Err(e) => {
                return Err(e);
            },
        }
        let id = task.fresh_id();
        Ok(TaskRun { task_id: id, entry: entry.to_owned(), pipeline: work })
    }

    /// Prepare a direct recognition run of one node against a supplied
    /// image, bypassing graph traversal.
    pub fn run_recognition(
        &self,
        task: &mut Task,
        entry: &str,
        pipeline_override: &JsonValue,
        image: &Vec<u8>,
    ) -> (r: Result<RecoRun, MaaError>)
        requires
            self.wf(),
        ensures
            old(task)@.status != Status::Running ==> r == Err::<RecoRun, MaaError>(
                MaaError::InvalidHandle,
            ) && final(task)@ == old(task)@,
            old(task)@.status == Status::Running ==> match pipeline_override@ {
                JsonVal::Obj(pfs) => match spec_apply_patch(self@.pipeline, pfs) {
                    Ok(npv) => r matches Ok(rr) && rr.reco_id != 0 && rr.entry@ == entry@
                        && fields_view(rr.pipeline@) == npv && rr.image@ == image@ && final(task)@.id == old(task)@.id && final(task)@.status == old(task)@.status
                        && final(task)@.hits == old(task)@.hits,
                    Err(e) => r == Err::<RecoRun, MaaError>(e) && final(task)@ == old(
                        task,
                    )@,
                },
                _ => r == Err::<RecoRun, MaaError>(MaaError::InvalidConfig(None)) && final(task)@ == old(task)@,
            },
    {
        if !task.status().running() {
            return Err(MaaError::InvalidHandle);
        }
        let pfs = match pipeline_override {
            JsonValue::Obj(fs) => fs,
            _ => {
                return Err(MaaError::InvalidConfig(None));
            },
        };
        let mut work = clone_fields(&self.pipeline);
        match apply_patch(&mut work, pfs) {
            Ok(_) => {},
            Err(e) => {
                return Err(e);
            },
        }
        let id = task.fresh_id();
        Ok(
            RecoRun {
                reco_id: id,
                entry: entry.to_owned(),
                pipeline: work,
                image: bytes_clone(image),
            },
        )
    }

    /// Prepare a direct action run of one node against a recognized
    /// rectangle and detail payload, bypassing graph traversal.
    pub fn run_action(
        &self,
        task: &mut Task,
        entry: &str,
        pipeline_override: &JsonValue,
        box_rect: crate::pipeline::Rect,
        reco_detail: &str,
    ) -> (r: Result<ActRun, MaaError>)
        requires
            self.wf(),
        ensures
            old(task)@.status != Status::Running ==> r == Err::<ActRun, MaaError>(
                MaaError::InvalidHandle,
            ) && final(task)@ == old(task)@,
            old(task)@.status == Status::Running ==> match pipeline_override@ {
                JsonVal::Obj(pfs) => match spec_apply_patch(self@.pipeline, pfs) {
                    Ok(npv) => r matches Ok(ar) && ar.act_id != 0 && ar.entry@ == entry@
                        && fields_view(ar.pipeline@) == npv && ar.box_rect == box_rect
                        && ar.reco_detail@ == reco_detail@ && final(task)@.id == old(
                        task,
                    )@.id && final(task)@.status == old(task)@.status && final(task)@.hits
                        == old(task)@.hits,
                    Err(e) => r == Err::<ActRun, MaaError>(e) && final(task)@ == old(
                        task,
                    )@,
                },
                _ => r == Err::<ActRun, MaaError>(MaaError::InvalidConfig(None)) && final(task)@ == old(task)@,
            },
    {
        if !task.status().running() {
            return Err(MaaError::InvalidHandle);
        }
        let pfs = match pipeline_override {
            JsonValue::Obj(fs) => fs,
            _ => {
                return Err(MaaError::InvalidConfig(None));
            },
        };
        let mut work = clone_fields(&self.pipeline);
        match apply_patch(&mut work, pfs) {
            Ok(_) => {},
            Err(e) => {
                return Err(e);
            },
        }
        let id = task.fresh_id();
        Ok(
            ActRun {
                act_id: id,
                entry: entry.to_owned(),
                pipeline: work,
                box_rect,
                reco_detail: reco_detail.to_owned(),
            },
        )
    }
}

impl Context {
    /// Apply an override patch given as JSON text: the text is parsed
    /// at the boundary and applied all-or-nothing; text that is not
    /// JSON fails like any malformed patch.
    pub fn override_pipeline_text(&mut self, task: &Task, patch: &str) -> (r: Result<
        (),
        MaaError,
    >)
        requires
            old(self).wf(),
        ensures
            final(self)@.task_id == old(self)@.task_id,
            final(self)@.anchors == old(self)@.anchors,
            final(self)@.images == old(self)@.images,
            final(self).wf(),
            task@.status != Status::Running ==> r == Err::<(), MaaError>(
                MaaError::InvalidHandle,
            ) && final(self)@ == old(self)@,
            task@.status == Status::Running ==> match crate::jsonio::json_text_model(
                patch@,
            ) {
                None => r == Err::<(), MaaError>(MaaError::InvalidConfig(None)) && final(self)@ == old(self)@,
                Some(JsonVal::Obj(pfs)) => match spec_apply_patch(
                    old(self)@.pipeline,
                    pfs,
                ) {
                    Ok(npv) => r matches Ok(_) && final(self)@.pipeline == npv,
                    Err(e) => r == Err::<(), MaaError>(e) && final(self)@ == old(self)@,
                },
                Some(_) => r == Err::<(), MaaError>(MaaError::InvalidConfig(None))
                    && final(self)@ == old(self)@,
            },
    {
        if !task.status().running() {
            return Err(MaaError::InvalidHandle);
        }
        match crate::jsonio::parse_json(patch) {
            Some(v) => self.override_pipeline(task, &v),
            None => Err(MaaError::InvalidConfig(None)),
        }
    }
}

/// The canonical object form parses back to the edge itself.
proof fn lemma_attr_obj_parses_back(a: NodeAttrV)
    ensures
        spec_parse_attr(spec_attr_obj(a)) == Ok::<NodeAttrV, ()>(a),
{
    lemma_attr_obj_stable(a);
    let x = spec_parse_attr(spec_attr_obj(a))->Ok_0;
    assert(spec_attr_obj(x) == spec_attr_obj(a));
    assert(spec_attr_obj(x)->Obj_0[0] == spec_attr_obj(a)->Obj_0[0]);
    assert(spec_attr_obj(x)->Obj_0[1] == spec_attr_obj(a)->Obj_0[1]);
    assert(spec_attr_obj(x)->Obj_0[2] == spec_attr_obj(a)->Obj_0[2]);
    assert(x =~= a);
}

/// Normalizing a list of parseable strings yields their canonical
/// object forms, in order.
proof fn lemma_norm_str_entries(ss: Seq<Seq<char>>)
    requires
        forall|i: int| 0 <= i < ss.len() ==> spec_parse_attr_str(#[trigger] ss[i]) is Ok,
    ensures
        spec_norm_entries(strs_to_vals(ss)) == Ok::<Seq<JsonVal>, int>(
            Seq::new(
                ss.len(),
                |i: int| spec_attr_obj(spec_parse_attr_str(ss[i])->Ok_0),
            ),
        ),
    decreases ss.len(),
{
    let vs = strs_to_vals(ss);
    let goal = Seq::new(ss.len(), |i: int| spec_attr_obj(spec_parse_attr_str(ss[i])->Ok_0));
    if ss.len() == 0 {
        assert(vs =~= Seq::<JsonVal>::empty());
        assert(goal =~= Seq::<JsonVal>::empty());
    } else {
        let st = ss.subrange(1, ss.len() as int);
        assert(forall|j: int| 0 <= j < st.len() ==> #[trigger] st[j] == ss[j + 1]);
        lemma_norm_str_entries(st);
        assert(vs[0] == JsonVal::Str(ss[0]));
        assert(vs.subrange(1, vs.len() as int) =~= strs_to_vals(st));
        let rest = Seq::new(
            st.len(),
            |i: int| spec_attr_obj(spec_parse_attr_str(st[i])->Ok_0),
        );
        assert(seq![goal[0]] + rest =~= goal);
    }
}

/// A successful next-list override reads back exactly: merging the
/// one-node patch that `override_next` builds onto a canonical node
/// succeeds whenever every entry parses, and decoding the merged
/// node's `next` field yields the parsed entries, in order.
pub proof fn lemma_override_next_reads_back(
    bfs: Seq<(Seq<char>, JsonVal)>,
    ss: Seq<Seq<char>>,
)
    requires
        node_normal(bfs),
        forall|i: int| 0 <= i < ss.len() ==> spec_parse_attr_str(#[trigger] ss[i]) is Ok,
    ensures
        ({
            let patch = JsonVal::Obj(
                seq![(("next")@, JsonVal::Arr(strs_to_vals(ss)))],
            );
            let res = spec_merge_node(Some(JsonVal::Obj(bfs)), patch);
            &&& res is Ok
            &&& spec_fld_attrs(res->Ok_0->Obj_0, ("next")@) == Ok::<
                Option<Seq<NodeAttrV>>,
                (),
            >(Some(Seq::new(ss.len(), |i: int| spec_parse_attr_str(ss[i])->Ok_0)))
        }),
{
    lemma_key_facts();
    let rs = spec_base_sub(bfs, ("recognition")@);
    let as0 = spec_base_sub(bfs, ("action")@);
    let rt = rs.0.unwrap();
    let at = as0.0.unwrap();
    let vs = strs_to_vals(ss);
    let pfs = seq![(("next")@, JsonVal::Arr(vs))];
    let patch = JsonVal::Obj(pfs);
    let empty: Seq<(Seq<char>, JsonVal)> = Seq::empty();

    // The whole patch survives the sub-entry filter.
    assert(spec_not_sub_key()(("next")@));
    assert(pfs[0] == (("next")@, JsonVal::Arr(vs)));
    assert forall|j: int| 0 <= j < pfs.len() implies spec_not_sub_key()(
        (#[trigger] pfs[j]).0,
    ) by {}
    lemma_fields_keep_all(spec_not_sub_key(), pfs);
    assert(pfs.subrange(1, 1) =~= empty);
    let top0 = obj_set(bfs, ("next")@, JsonVal::Arr(vs));
    assert(spec_merge_fields(obj_set(bfs, ("next")@, JsonVal::Arr(vs)), pfs.subrange(1, 1))
        == top0);
    assert(spec_merge_fields(bfs, fields_keep(spec_not_sub_key(), pfs)) == top0);

    // The patch supplies nothing for the two sub-entries.
    assert(obj_get(pfs, ("recognition")@) is None) by {
        assert(obj_get(pfs.subrange(1, 1), ("recognition")@) is None);
    }
    assert(obj_get(pfs, ("action")@) is None) by {
        assert(obj_get(pfs.subrange(1, 1), ("action")@) is None);
    }
    assert(spec_sub_patch(None, true) == Ok::<
        (Option<Seq<char>>, Seq<(Seq<char>, JsonVal)>),
        (),
    >((None, empty)));
    assert(spec_sub_patch(None, false) == Ok::<
        (Option<Seq<char>>, Seq<(Seq<char>, JsonVal)>),
        (),
    >((None, empty)));

    // Every top-level key still passes the strip test, so nothing is
    // harvested and nothing is stripped.
    assert(spec_strip_pred(rt, at)(("next")@));
    assert forall|j: int| 0 <= j < bfs.len() implies spec_strip_pred(rt, at)(
        (#[trigger] bfs[j]).0,
    ) by {}
    lemma_obj_set_pred(bfs, ("next")@, JsonVal::Arr(vs), spec_strip_pred(rt, at));
    assert forall|j: int| 0 <= j < top0.len() implies !(spec_reco_pred(rt)(
        (#[trigger] top0[j]).0,
    )) by {
        assert(spec_strip_pred(rt, at)(top0[j].0));
    }
    lemma_fields_keep_none(spec_reco_pred(rt), top0);
    assert forall|j: int| 0 <= j < top0.len() implies !(spec_act_pred(at)(
        (#[trigger] top0[j]).0,
    )) by {
        assert(spec_strip_pred(rt, at)(top0[j].0));
    }
    lemma_fields_keep_none(spec_act_pred(at), top0);
    let rm = spec_sub_merge(bfs, None, empty, top0, true);
    let am = spec_sub_merge(bfs, None, empty, top0, false);
    assert(spec_merge_fields(rs.1, empty) == rs.1);
    assert(spec_merge_fields(as0.1, empty) == as0.1);
    assert(rm == (rt, rs.1));
    assert(am == (at, as0.1));
    assert forall|j: int| 0 <= j < top0.len() implies spec_strip_pred(rm.0, am.0)(
        (#[trigger] top0[j]).0,
    ) by {
        assert(spec_strip_pred(rt, at)(top0[j].0));
    }
    lemma_fields_keep_all(spec_strip_pred(rm.0, am.0), top0);

    // The new next list normalizes to the canonical object forms.
    lemma_obj_set_get(bfs, ("next")@, JsonVal::Arr(vs), ("next")@);
    assert(obj_get(top0, ("next")@) == Some(JsonVal::Arr(vs)));
    lemma_norm_str_entries(ss);
    let es = Seq::new(ss.len(), |i: int| spec_attr_obj(spec_parse_attr_str(ss[i])->Ok_0));
    assert(spec_norm_next_val(JsonVal::Arr(vs)) == Ok::<Seq<JsonVal>, int>(es));
    let top2 = obj_set(top0, ("next")@, JsonVal::Arr(es));

    // The stored on-error list of a canonical node is already
    // normalized, so normalizing it again changes nothing.
    lemma_obj_set_get(top0, ("next")@, JsonVal::Arr(es), ("on_error")@);
    lemma_obj_set_get(bfs, ("next")@, JsonVal::Arr(vs), ("on_error")@);
    assert(obj_get(top2, ("on_error")@) == obj_get(bfs, ("on_error")@));
    let top3: Seq<(Seq<char>, JsonVal)> = match obj_get(bfs, ("on_error")@) {
        None => top2,
        Some(v) => {
            let es2 = spec_norm_next_val(v)->Ok_0;
            lemma_obj_get_first_match(bfs, ("on_error")@);
            let i0 = choose|i: int|
                is_first_match(bfs, ("on_error")@, i) && bfs[i].1 == obj_get(
                    bfs,
                    ("on_error")@,
                ).unwrap();
            lemma_obj_set_found(bfs, ("on_error")@, JsonVal::Arr(es2), i0);
            assert(bfs.update(i0, (("on_error")@, JsonVal::Arr(es2))) == bfs);
            assert(bfs[i0] == (("on_error")@, JsonVal::Arr(es2))) by {
                assert(bfs.update(i0, (("on_error")@, JsonVal::Arr(es2)))[i0] == bfs[i0]);
            }
            assert(v == JsonVal::Arr(es2));
            lemma_obj_get_first_match(top2, ("on_error")@);
            let i1 = choose|i: int|
                is_first_match(top2, ("on_error")@, i) && top2[i].1 == obj_get(
                    top2,
                    ("on_error")@,
                ).unwrap();
            lemma_obj_set_same(top2, ("on_error")@, JsonVal::Arr(es2), i1);
            assert(obj_set(top2, ("on_error")@, JsonVal::Arr(es2)) == top2);
            top2
        },
    };
    assert(spec_norm_list_at_ok(top2, top3));

    // Assemble the merged node and read the field back.
    let mfs = obj_set(
        obj_set(top3, ("recognition")@, spec_sub_obj(rt, rs.1)),
        ("action")@,
        spec_sub_obj(at, as0.1),
    );
    assert(spec_merge_node(Some(JsonVal::Obj(bfs)), patch) == Ok::<JsonVal, MaaError>(
        JsonVal::Obj(mfs),
    ));
    lemma_obj_set_get(top0, ("next")@, JsonVal::Arr(es), ("next")@);
    assert(obj_get(top3, ("next")@) == Some(JsonVal::Arr(es)));
    lemma_obj_set_get(top3, ("recognition")@, spec_sub_obj(rt, rs.1), ("next")@);
    lemma_obj_set_get(
        obj_set(top3, ("recognition")@, spec_sub_obj(rt, rs.1)),
        ("action")@,
        spec_sub_obj(at, as0.1),
        ("next")@,
    );
    assert(obj_get(mfs, ("next")@) == Some(JsonVal::Arr(es)));
    let attrs = Seq::new(ss.len(), |i: int| spec_parse_attr_str(ss[i])->Ok_0);
    assert forall|j: int| 0 <= j < es.len() implies spec_attr_el()(#[trigger] es[j])
        == Ok::<NodeAttrV, ()>(attrs[j]) by {
        lemma_attr_obj_parses_back(spec_parse_attr_str(ss[j])->Ok_0);
    }
    lemma_map_vals_ok(spec_attr_el(), es, attrs);
}

/// Whether list normalization of the stored `next` and `on_error`
/// succeeded with the given fields; a helper shape for the proof
/// above.
spec fn spec_norm_list_at_ok(
    fs: Seq<(Seq<char>, JsonVal)>,
    fs2: Seq<(Seq<char>, JsonVal)>,
) -> bool {
    crate::merge::spec_norm_list_at(fs, ("on_error")@) == Ok::<
        Seq<(Seq<char>, JsonVal)>,
        MaaError,
    >(fs2)
}

} // verus!
