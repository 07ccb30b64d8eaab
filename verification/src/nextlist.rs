//! The next-list annotation parser.
//!
//! Entries of a node's `next` and `on_error` lists come in three
//! syntaxes: a bare node name, a name carrying a `[JumpBack]` or
//! `[Anchor]` prefix, and an object `{name, jump_back, anchor}`.  All
//! three normalize to a `NodeAttr`.  Order of entries is significant and
//! preserved: it encodes execution priority.

use vstd::prelude::*;

use crate::error::MaaError;
use crate::json::{arr_view, obj_get, JsonVal, JsonValue};
use crate::text::{str_has_prefix, str_tail};

verus! {

/// Model of a normalized transition edge.
#[verifier::ext_equal]
pub struct NodeAttrV {
    pub name: Seq<char>,
    pub jump_back: bool,
    pub anchor: bool,
}

/// A normalized transition edge: the successor's name, whether control
/// returns here afterwards, and whether the reference is resolved
/// through the anchor table.
#[derive(Debug, PartialEq, Eq)]
pub struct NodeAttr {
    pub name: String,
    pub jump_back: bool,
    pub anchor: bool,
}

impl View for NodeAttr {
    type V = NodeAttrV;

    open spec fn view(&self) -> NodeAttrV {
        NodeAttrV { name: self.name@, jump_back: self.jump_back, anchor: self.anchor }
    }
}

impl DeepView for NodeAttr {
    type V = NodeAttrV;

    open spec fn deep_view(&self) -> NodeAttrV {
        self.view()
    }
}

impl Clone for NodeAttr {
    /// A copy with the same model.
    fn clone(&self) -> (r: Self)
        ensures
            r@ == self@,
    {
        NodeAttr { name: self.name.clone(), jump_back: self.jump_back, anchor: self.anchor }
    }
}

impl Default for NodeAttr {
    /// An edge with an empty name and both flags off.
    fn default() -> (r: Self)
        ensures
            r@ == (NodeAttrV { name: Seq::empty(), jump_back: false, anchor: false }),
    {
        NodeAttr { name: String::new(), jump_back: false, anchor: false }
    }
}

/// The canonical object form of a transition edge.
pub open spec fn spec_attr_obj(a: NodeAttrV) -> JsonVal {
    JsonVal::Obj(
        seq![
            (("name")@, JsonVal::Str(a.name)),
            (("jump_back")@, JsonVal::Bool(a.jump_back)),
            (("anchor")@, JsonVal::Bool(a.anchor)),
        ],
    )
}

/// Parse a string-form entry: a bare name, or a name carrying one
/// recognized prefix.  Any other string opening a bracket is malformed.
pub open spec fn spec_parse_attr_str(s: Seq<char>) -> Result<NodeAttrV, ()> {
    if s.len() >= 10 && s.subrange(0, 10) == ("[JumpBack]")@ {
        Ok(
            NodeAttrV {
                name: s.subrange(10, s.len() as int),
                jump_back: true,
                anchor: false,
            },
        )
    } else if s.len() >= 8 && s.subrange(0, 8) == ("[Anchor]")@ {
        Ok(NodeAttrV { name: s.subrange(8, s.len() as int), jump_back: false, anchor: true })
    } else if s.len() > 0 && s[0] == '[' {
        Err(())
    } else {
        Ok(NodeAttrV { name: s, jump_back: false, anchor: false })
    }
}

/// Parse an object-form entry: `name` must be a string when present,
/// the flags booleans when present; missing fields default.
pub open spec fn spec_parse_attr_obj(fs: Seq<(Seq<char>, JsonVal)>) -> Result<NodeAttrV, ()> {
    let name = match obj_get(fs, ("name")@) {
        None => Ok(Seq::<char>::empty()),
        Some(JsonVal::Str(n)) => Ok(n),
        Some(_) => Err(()),
    };
    let jb = match obj_get(fs, ("jump_back")@) {
        None => Ok(false),
        Some(JsonVal::Bool(b)) => Ok(b),
        Some(_) => Err(()),
    };
    let an = match obj_get(fs, ("anchor")@) {
        None => Ok(false),
        Some(JsonVal::Bool(b)) => Ok(b),
        Some(_) => Err(()),
    };
    match (name, jb, an) {
        (Ok(n), Ok(j), Ok(a)) => Ok(NodeAttrV { name: n, jump_back: j, anchor: a }),
        _ => Err(()),
    }
}

/// Parse one entry of any accepted syntax.
pub open spec fn spec_parse_attr(v: JsonVal) -> Result<NodeAttrV, ()> {
    match v {
        JsonVal::Str(s) => spec_parse_attr_str(s),
        JsonVal::Obj(fs) => spec_parse_attr_obj(fs),
        _ => Err(()),
    }
}

/// Normalize one entry to its canonical object form.
pub open spec fn spec_norm_entry(v: JsonVal) -> Result<JsonVal, ()> {
    match spec_parse_attr(v) {
        Ok(a) => Ok(spec_attr_obj(a)),
        Err(()) => Err(()),
    }
}

/// Normalize a sequence of entries; an error carries the position of
/// the first malformed entry.
pub open spec fn spec_norm_entries(xs: Seq<JsonVal>) -> Result<Seq<JsonVal>, int>
    decreases xs.len(),
{
    if xs.len() == 0 {
        Ok(Seq::empty())
    } else {
        match spec_norm_entry(xs[0]) {
            Err(()) => Err(0),
            Ok(e0) => match spec_norm_entries(xs.subrange(1, xs.len() as int)) {
                Err(i) => Err(i + 1),
                Ok(rest) => Ok(seq![e0] + rest),
            },
        }
    }
}

/// Normalize a next-list value: a bare string is a one-entry list, an
/// array is normalized entry by entry, anything else is malformed.
pub open spec fn spec_norm_next_val(v: JsonVal) -> Result<Seq<JsonVal>, int> {
    match v {
        JsonVal::Str(s) => match spec_parse_attr_str(s) {
            Ok(a) => Ok(seq![spec_attr_obj(a)]),
            Err(()) => Err(0),
        },
        JsonVal::Arr(xs) => spec_norm_entries(xs),
        _ => Err(0),
    }
}

/// Parse a string-form entry.
pub fn parse_attr_str(s: &str) -> (r: Result<NodeAttr, MaaError>)
    ensures
        match spec_parse_attr_str(s@) {
            Ok(a) => r matches Ok(attr) && attr@ == a,
            Err(()) => r == Err::<NodeAttr, MaaError>(MaaError::InvalidConfig(None)),
        },
{
    proof {
        reveal_strlit("[JumpBack]");
        reveal_strlit("[Anchor]");
        broadcast use vstd::string::group_string_axioms;

        assert(("[JumpBack]")@.len() == 10);
        assert(("[Anchor]")@.len() == 8);
        assert(("[JumpBack]")@[0] == '[');
        assert(("[Anchor]")@[0] == '[');
    }
    if str_has_prefix(s, "[JumpBack]") {
        Ok(NodeAttr { name: str_tail(s, 10), jump_back: true, anchor: false })
    } else if str_has_prefix(s, "[Anchor]") {
        Ok(NodeAttr { name: str_tail(s, 8), jump_back: false, anchor: true })
    } else if s.unicode_len() > 0 && s.get_char(0) == '[' {
        Err(MaaError::InvalidConfig(None))
    } else {
        Ok(NodeAttr { name: s.to_owned(), jump_back: false, anchor: false })
    }
}

/// Parse one next-list entry of any accepted syntax.
///
/// A bare string, a prefixed string and the object form normalize to
/// the same structured edge; anything else is rejected.
pub fn parse_next_entry(v: &JsonValue) -> (r: Result<NodeAttr, MaaError>)
    ensures
        match spec_parse_attr(v@) {
            Ok(a) => r matches Ok(attr) && attr@ == a,
            Err(()) => r == Err::<NodeAttr, MaaError>(MaaError::InvalidConfig(None)),
        },
{
    match v {
        JsonValue::Str(s) => parse_attr_str(s.as_str()),
        JsonValue::Obj(_) => {
            let namev = v.get("name");
            let name: String = match namev {
                None => String::new(),
                Some(JsonValue::Str(n)) => n.clone(),
                Some(_) => {
                    return Err(MaaError::InvalidConfig(None));
                },
            };
            let jb: bool = match v.get("jump_back") {
                None => false,
                Some(JsonValue::Bool(b)) => *b,
                Some(_) => {
                    return Err(MaaError::InvalidConfig(None));
                },
            };
            let an: bool = match v.get("anchor") {
                None => false,
                Some(JsonValue::Bool(b)) => *b,
                Some(_) => {
                    return Err(MaaError::InvalidConfig(None));
                },
            };
            Ok(NodeAttr { name, jump_back: jb, anchor: an })
        },
        _ => Err(MaaError::InvalidConfig(None)),
    }
}

/// The canonical object form of an edge, as a value.
pub fn attr_to_json(a: &NodeAttr) -> (r: JsonValue)
    ensures
        r@ == spec_attr_obj(a@),
{
    let mut fields: Vec<(String, JsonValue)> = Vec::new();
    fields.push(("name".to_owned(), JsonValue::Str(a.name.clone())));
    fields.push(("jump_back".to_owned(), JsonValue::Bool(a.jump_back)));
    fields.push(("anchor".to_owned(), JsonValue::Bool(a.anchor)));
    let r = JsonValue::Obj(fields);
    proof {
        broadcast use crate::json::group_json_view;

        let fv = crate::json::fields_view(fields@);
        assert(fields@.len() == 3);
        assert(fv[0] == (("name")@, JsonVal::Str(a.name@)));
        assert(fv[1] == (("jump_back")@, JsonVal::Bool(a.jump_back)));
        assert(fv[2] == (("anchor")@, JsonVal::Bool(a.anchor)));
        assert(fv =~= spec_attr_obj(a@)->Obj_0);
    }
    r
}

/// Normalize one entry to its canonical object form.
pub fn normalize_entry(v: &JsonValue) -> (r: Result<JsonValue, MaaError>)
    ensures
        match spec_norm_entry(v@) {
            Ok(e) => r matches Ok(j) && j@ == e,
            Err(()) => r == Err::<JsonValue, MaaError>(MaaError::InvalidConfig(None)),
        },
{
    match parse_next_entry(v) {
        Ok(a) => Ok(attr_to_json(&a)),
        Err(e) => Err(e),
    }
}

/// Normalize a next-list value.  The error carries the position of the
/// first malformed entry.
pub fn normalize_next_val(v: &JsonValue) -> (r: Result<Vec<JsonValue>, usize>)
    ensures
        match spec_norm_next_val(v@) {
            Ok(es) => r matches Ok(list) && arr_view(list@) == es,
            Err(i) => r == Err::<Vec<JsonValue>, usize>(i as usize),
        },
{
    match v {
        JsonValue::Str(s) => match parse_attr_str(s.as_str()) {
            Ok(a) => {
                let mut one: Vec<JsonValue> = Vec::new();
                one.push(attr_to_json(&a));
                proof {
                    broadcast use crate::json::group_json_view;

                    assert(arr_view(one@) =~= spec_norm_next_val(v@)->Ok_0);
                }
                Ok(one)
            },
            Err(_) => Err(0),
        },
        JsonValue::Arr(xs) => {
            let mut out: Vec<JsonValue> = Vec::new();
            let mut i: usize = 0;
            while i < xs.len()
                invariant
                    i <= xs@.len(),
                    out@.len() == i,
                    v@ == JsonVal::Arr(arr_view(xs@)),
                    forall|j: int| 0 <= j < i ==> spec_norm_entry(
                        #[trigger] arr_view(xs@)[j],
                    ) == Ok::<JsonVal, ()>(json_view_of(out@[j])),
                decreases xs@.len() - i,
            {
                proof {
                    broadcast use crate::json::group_json_view;

                }
                match normalize_entry(&xs[i]) {
                    Ok(e) => {
                        out.push(e);
                    },
                    Err(_) => {
                        proof {
                            lemma_norm_entries_err(arr_view(xs@), i as int);
                        }
                        return Err(i);
                    },
                }
                i += 1;
            }
            proof {
                broadcast use crate::json::group_json_view;

                lemma_norm_entries_ok(arr_view(xs@), arr_view(out@));
            }
            Ok(out)
        },
        _ => Err(0),
    }
}

/// Helper naming `json_view` for trigger purposes.
pub open spec fn json_view_of(v: JsonValue) -> JsonVal {
    v@
}

/// The canonical object form parses back to the edge it encodes, so
/// normalizing it again changes nothing.
pub proof fn lemma_attr_obj_stable(a: NodeAttrV)
    ensures
        spec_norm_entry(spec_attr_obj(a)) == Ok::<JsonVal, ()>(spec_attr_obj(a)),
{
    reveal_strlit("name");
    reveal_strlit("jump_back");
    reveal_strlit("anchor");
    broadcast use vstd::string::group_string_axioms;

    assert(("name")@.len() == 4);
    assert(("jump_back")@.len() == 9);
    assert(("anchor")@.len() == 6);
    let fs = spec_attr_obj(a)->Obj_0;
    let pair = seq![fs[1], fs[2]];
    let last = seq![fs[2]];
    assert(fs[0] == (("name")@, JsonVal::Str(a.name)));
    assert(fs[1] == (("jump_back")@, JsonVal::Bool(a.jump_back)));
    assert(fs[2] == (("anchor")@, JsonVal::Bool(a.anchor)));
    assert(fs.subrange(1, 3) =~= pair);
    assert(pair.subrange(1, 2) =~= last);
    assert(last.subrange(1, 1) =~= Seq::<(Seq<char>, JsonVal)>::empty());
    assert(obj_get(last, ("anchor")@) == Some(JsonVal::Bool(a.anchor)));
    assert(obj_get(pair, ("anchor")@) == Some(JsonVal::Bool(a.anchor)));
    assert(obj_get(pair, ("jump_back")@) == Some(JsonVal::Bool(a.jump_back)));
    assert(obj_get(fs, ("name")@) == Some(JsonVal::Str(a.name)));
    assert(obj_get(fs, ("jump_back")@) == Some(JsonVal::Bool(a.jump_back)));
    assert(obj_get(fs, ("anchor")@) == Some(JsonVal::Bool(a.anchor)));
    assert(spec_parse_attr_obj(fs) == Ok::<NodeAttrV, ()>(
        NodeAttrV { name: a.name, jump_back: a.jump_back, anchor: a.anchor },
    ));
    assert(NodeAttrV { name: a.name, jump_back: a.jump_back, anchor: a.anchor } == a);
}

/// Normalized entry lists are fixed points of normalization.
pub proof fn lemma_norm_entries_stable(xs: Seq<JsonVal>, es: Seq<JsonVal>)
    requires
        spec_norm_entries(xs) == Ok::<Seq<JsonVal>, int>(es),
    ensures
        spec_norm_entries(es) == Ok::<Seq<JsonVal>, int>(es),
    decreases xs.len(),
{
    if xs.len() == 0 {
    } else {
        let e0 = spec_norm_entry(xs[0])->Ok_0;
        let a0 = spec_parse_attr(xs[0])->Ok_0;
        let rest = spec_norm_entries(xs.subrange(1, xs.len() as int))->Ok_0;
        lemma_norm_entries_stable(xs.subrange(1, xs.len() as int), rest);
        lemma_attr_obj_stable(a0);
        assert(es == seq![e0] + rest);
        assert(es[0] == e0);
        assert(es.subrange(1, es.len() as int) =~= rest);
        assert(seq![e0] + rest =~= es);
    }
}

/// Whatever a next-list value normalizes to is a fixed point of
/// normalization.
pub proof fn lemma_norm_next_val_stable(v: JsonVal, es: Seq<JsonVal>)
    requires
        spec_norm_next_val(v) == Ok::<Seq<JsonVal>, int>(es),
    ensures
        spec_norm_entries(es) == Ok::<Seq<JsonVal>, int>(es),
{
    match v {
        JsonVal::Str(s) => {
            let a = spec_parse_attr_str(s)->Ok_0;
            lemma_attr_obj_stable(a);
            assert(es == seq![spec_attr_obj(a)]);
            assert(es[0] == spec_attr_obj(a));
            assert(es.subrange(1, 1) =~= Seq::<JsonVal>::empty());
            assert(spec_norm_entries(Seq::<JsonVal>::empty()) == Ok::<Seq<JsonVal>, int>(
                Seq::empty(),
            ));
            assert(seq![es[0]] + Seq::<JsonVal>::empty() =~= es);
        },
        JsonVal::Arr(xs) => {
            lemma_norm_entries_stable(xs, es);
        },
        _ => {},
    }
}

/// If every entry up to `i` normalizes and entry `i` does not, the
/// whole list fails at position `i`.
proof fn lemma_norm_entries_err(xs: Seq<JsonVal>, i: int)
    requires
        0 <= i < xs.len(),
        spec_norm_entry(xs[i]) is Err,
        forall|j: int| 0 <= j < i ==> spec_norm_entry(#[trigger] xs[j]) is Ok,
    ensures
        spec_norm_entries(xs) == Err::<Seq<JsonVal>, int>(i),
    decreases xs.len(),
{
    if i == 0 {
    } else {
        let tail = xs.subrange(1, xs.len() as int);
        assert(forall|j: int| 0 <= j < i - 1 ==> tail[j] == xs[j + 1]);
        lemma_norm_entries_err(tail, i - 1);
    }
}

/// If each output entry is the normalization of the matching input
/// entry, the whole list normalizes to the outputs.
proof fn lemma_norm_entries_ok(xs: Seq<JsonVal>, ys: Seq<JsonVal>)
    requires
        xs.len() == ys.len(),
        forall|j: int| 0 <= j < xs.len() ==> spec_norm_entry(#[trigger] xs[j]) == Ok::<
            JsonVal,
            (),
        >(ys[j]),
    ensures
        spec_norm_entries(xs) == Ok::<Seq<JsonVal>, int>(ys),
    decreases xs.len(),
{
    if xs.len() == 0 {
        assert(ys =~= Seq::<JsonVal>::empty());
    } else {
        let xt = xs.subrange(1, xs.len() as int);
        let yt = ys.subrange(1, ys.len() as int);
        assert(forall|j: int| 0 <= j < xt.len() ==> xt[j] == xs[j + 1] && yt[j] == ys[j + 1]);
        lemma_norm_entries_ok(xt, yt);
        assert(seq![ys[0]] + yt =~= ys);
    }
}

} // verus!
