//! JSON document model: the executable tree, its mathematical view, and the
//! text form used on the wire.

use vstd::prelude::*;

verus! {

broadcast use vstd::std_specs::vec::group_vec_axioms, vstd::seq::group_seq_axioms;

/// Mathematical model of a JSON document.
///
/// Objects are ordered member lists; numbers are modelled as integers, which
/// covers every number this protocol writes or reads.
pub enum JsonView {
    Null,
    Bool(bool),
    Int(int),
    Str(Seq<char>),
    Arr(Seq<JsonView>),
    Obj(Seq<(Seq<char>, JsonView)>),
}

/// Executable JSON document tree.
///
/// Objects keep their members in insertion order as key/value pairs.
#[derive(Debug, PartialEq)]
pub enum JsonValue {
    Null,
    Bool(bool),
    Int(i64),
    Str(String),
    Arr(Vec<JsonValue>),
    Obj(Vec<(String, JsonValue)>),
}

pub open spec fn json_view(v: JsonValue) -> JsonView
    decreases v,
    via json_view_decreases
{
    match v {
        JsonValue::Null => JsonView::Null,
        JsonValue::Bool(b) => JsonView::Bool(b),
        JsonValue::Int(i) => JsonView::Int(i as int),
        JsonValue::Str(s) => JsonView::Str(s@),
        JsonValue::Arr(elems) => JsonView::Arr(json_views(elems@)),
        JsonValue::Obj(members) => JsonView::Obj(json_member_views(members@)),
    }
}

pub open spec fn json_views(s: Seq<JsonValue>) -> Seq<JsonView>
    decreases s,
{
    if s.len() == 0 {
        Seq::empty()
    } else {
        seq![json_view(s[0])] + json_views(s.drop_first())
    }
}

pub open spec fn json_member_views(s: Seq<(String, JsonValue)>) -> Seq<(Seq<char>, JsonView)>
    decreases s,
    via json_member_views_decreases
{
    if s.len() == 0 {
        Seq::empty()
    } else {
        seq![(s[0].0@, json_view(s[0].1))] + json_member_views(s.drop_first())
    }
}

#[via_fn]
proof fn json_view_decreases(v: JsonValue) {
    match v {
        JsonValue::Arr(elems) => {
            assert(decreases_to!(v => v->Arr_0));
            assert(decreases_to!(v->Arr_0 => v->Arr_0@));
        },
        JsonValue::Obj(members) => {
            assert(decreases_to!(v => v->Obj_0));
            assert(decreases_to!(v->Obj_0 => v->Obj_0@));
        },
        _ => {},
    }
}

#[via_fn]
proof fn json_member_views_decreases(s: Seq<(String, JsonValue)>) {
    if s.len() > 0 {
        assert(decreases_to!(s => s[0]));
        assert(decreases_to!(s[0] => s[0].1));
    }
}

pub broadcast proof fn lemma_json_views_index(s: Seq<JsonValue>)
    ensures
        #[trigger] json_views(s).len() == s.len(),
        forall|i: int| 0 <= i < s.len() ==> json_views(s)[i] == json_view(s[i]),
    decreases s.len(),
{
    if s.len() > 0 {
        lemma_json_views_index(s.drop_first());
    }
}

pub broadcast proof fn lemma_json_member_views_index(s: Seq<(String, JsonValue)>)
    ensures
        #[trigger] json_member_views(s).len() == s.len(),
        forall|i: int| 0 <= i < s.len()
            ==> json_member_views(s)[i] == (s[i].0@, json_view(s[i].1)),
    decreases s.len(),
{
    if s.len() > 0 {
        lemma_json_member_views_index(s.drop_first());
    }
}

impl View for JsonValue {
    type V = JsonView;

    open spec fn view(&self) -> JsonView {
        json_view(*self)
    }
}

impl DeepView for JsonValue {
    type V = JsonView;

    open spec fn deep_view(&self) -> JsonView {
        json_view(*self)
    }
}

impl Clone for JsonValue {
    /// Structure-preserving copy: the copy has the same view.
    #[verifier::loop_isolation(false)]
    fn clone(&self) -> (r: Self)
        ensures
            r@ == self@,
        decreases *self,
    {
        match self {
            JsonValue::Null => JsonValue::Null,
            JsonValue::Bool(b) => JsonValue::Bool(*b),
            JsonValue::Int(i) => JsonValue::Int(*i),
            JsonValue::Str(s) => JsonValue::Str(s.clone()),
            JsonValue::Arr(elems) => {
                proof {
                    lemma_json_views_index(elems@);
                }
                let mut out: Vec<JsonValue> = Vec::new();
                let mut k: usize = 0;
                while k < elems.len()
                    invariant
                        k <= elems.len(),
                        out@.len() == k,
                        forall|j: int| 0 <= j < k ==> out@[j]@ == elems@[j]@,
                    decreases elems.len() - k,
                {
                    proof {
                        assert(decreases_to!(*self => (*self)->Arr_0));
                        assert(decreases_to!((*self)->Arr_0 => elems@));
                        assert(decreases_to!(elems@ => elems@[k as int]));
                    }
                    let e = elems[k].clone();
                    out.push(e);
                    k += 1;
                }
                let r = JsonValue::Arr(out);
                proof {
                    lemma_json_views_index(r->Arr_0@);
                }
                assert(r@->Arr_0 =~= self@->Arr_0);
                r
            },
            JsonValue::Obj(members) => {
                proof {
                    lemma_json_member_views_index(members@);
                }
                let mut out: Vec<(String, JsonValue)> = Vec::new();
                let mut k: usize = 0;
                while k < members.len()
                    invariant
                        k <= members.len(),
                        out@.len() == k,
                        forall|j: int| 0 <= j < k
                            ==> out@[j].0@ == members@[j].0@ && out@[j].1@ == members@[j].1@,
                    decreases members.len() - k,
                {
                    proof {
                        assert(decreases_to!(*self => (*self)->Obj_0));
                        assert(decreases_to!((*self)->Obj_0 => members@));
                        assert(decreases_to!(members@ => members@[k as int]));
                        assert(decreases_to!(members@[k as int] => members@[k as int].1));
                    }
                    let key = members[k].0.clone();
                    let val = members[k].1.clone();
                    out.push((key, val));
                    k += 1;
                }
                let r = JsonValue::Obj(out);
                proof {
                    lemma_json_member_views_index(r->Obj_0@);
                }
                assert(r@->Obj_0 =~= self@->Obj_0);
                r
            },
        }
    }
}

/// Whether an object member list holds the given key.
pub open spec fn spec_obj_has_key(ms: Seq<(Seq<char>, JsonView)>, key: Seq<char>) -> bool {
    exists|i: int| 0 <= i < ms.len() && ms[i].0 == key
}

/// The value of the first member with the given key.
pub open spec fn spec_obj_get(ms: Seq<(Seq<char>, JsonView)>, key: Seq<char>) -> JsonView
    decreases ms.len(),
{
    if ms.len() == 0 {
        JsonView::Null
    } else if ms[0].0 == key {
        ms[0].1
    } else {
        spec_obj_get(ms.drop_first(), key)
    }
}

proof fn lemma_obj_get_found(ms: Seq<(Seq<char>, JsonView)>, key: Seq<char>, i: int)
    requires
        0 <= i < ms.len(),
        ms[i].0 == key,
        forall|j: int| 0 <= j < i ==> ms[j].0 != key,
    ensures
        spec_obj_has_key(ms, key),
        spec_obj_get(ms, key) == ms[i].1,
    decreases i,
{
    assert(spec_obj_has_key(ms, key));
    if i > 0 {
        lemma_obj_get_found(ms.drop_first(), key, i - 1);
    }
}

impl JsonValue {
    /// Look up the first member with the given key of a JSON object.
    ///
    /// `None` when the value is not an object or no member has the key.
    #[verifier::loop_isolation(false)]
    pub fn get<'a>(&'a self, key: &str) -> (r: Option<&'a JsonValue>)
        ensures
            match r {
                Some(v) => self@ matches JsonView::Obj(ms)
                    && spec_obj_has_key(ms, key@)
                    && v@ == spec_obj_get(ms, key@),
                None => !(self@ matches JsonView::Obj(ms) && spec_obj_has_key(ms, key@)),
            },
    {
        match self {
            JsonValue::Obj(members) => {
                proof {
                    lemma_json_member_views_index(members@);
                }
                let ghost gms = self@->Obj_0;
                let key_owned = key.to_owned();
                let mut i: usize = 0;
                while i < members.len()
                    invariant
                        i <= members.len(),
                        forall|j: int| 0 <= j < i ==> gms[j].0 != key@,
                    decreases members.len() - i,
                {
                    if members[i].0 == key_owned {
                        proof {
                            lemma_obj_get_found(gms, key@, i as int);
                        }
                        return Some(&members[i].1);
                    }
                    i += 1;
                }
                None
            },
            _ => None,
        }
    }

    /// The string content, when the value is a JSON string.
    pub fn as_str<'a>(&'a self) -> (r: Option<&'a String>)
        ensures
            match r {
                Some(s) => self@ == JsonView::Str(s@),
                None => !(self@ is Str),
            },
    {
        match self {
            JsonValue::Str(s) => Some(s),
            _ => None,
        }
    }

    /// The boolean content, when the value is a JSON boolean.
    pub fn as_bool(&self) -> (r: Option<bool>)
        ensures
            match r {
                Some(b) => self@ == JsonView::Bool(b),
                None => !(self@ is Bool),
            },
    {
        match self {
            JsonValue::Bool(b) => Some(*b),
            _ => None,
        }
    }

    /// The integer content, when the value is a JSON number.
    pub fn as_int(&self) -> (r: Option<i64>)
        ensures
            match r {
                Some(i) => self@ == JsonView::Int(i as int),
                None => !(self@ is Int),
            },
    {
        match self {
            JsonValue::Int(i) => Some(*i),
            _ => None,
        }
    }

    /// Build a JSON string value from a string slice.
    pub fn string(s: &str) -> (r: JsonValue)
        ensures
            r@ == JsonView::Str(s@),
    {
        JsonValue::Str(s.to_owned())
    }
}

} // verus!
