//! The plain-JSON binding: model values to JSON documents and back.
//!
//! Key names and enum spellings follow the wire format: camelCase field
//! names, kebab-case statuses, lowercase roles. Optional fields are omitted
//! when absent, never written as `null`.

use vstd::prelude::*;
use crate::json::{JsonValue, JsonView, spec_obj_get, spec_obj_has_key};
use crate::json::{json_views, json_member_views, lemma_json_views_index,
    lemma_json_member_views_index};
use crate::message::{FileContent, FileContentView, Message, MessagePart, MessagePartView,
    MessageView, Role};
use crate::task::{Artifact, ArtifactView, Task, TaskStatus, TaskView};
use crate::error::{TaskError, TaskErrorView};

verus! {

broadcast use vstd::std_specs::vec::group_vec_axioms, vstd::seq::group_seq_axioms;

/// Compare two string slices by content.
pub fn str_eq(a: &str, b: &str) -> (r: bool)
    ensures
        r == (a@ == b@),
{
    let a_owned = a.to_owned();
    let b_owned = b.to_owned();
    a_owned == b_owned
}

// --- keys and lookups -------------------------------------------------------

/// Skipping members whose keys all differ from `key` leaves a lookup alone.
pub proof fn lemma_get_skip(
    ms1: Seq<(Seq<char>, JsonView)>,
    ms2: Seq<(Seq<char>, JsonView)>,
    key: Seq<char>,
)
    requires
        forall|j: int| 0 <= j < ms1.len() ==> ms1[j].0 != key,
    ensures
        spec_obj_has_key(ms1 + ms2, key) == spec_obj_has_key(ms2, key),
        spec_obj_get(ms1 + ms2, key) == spec_obj_get(ms2, key),
    decreases ms1.len(),
{
    if ms1.len() == 0 {
        assert(ms1 + ms2 =~= ms2);
    } else {
        assert((ms1 + ms2).drop_first() =~= ms1.drop_first() + ms2);
        lemma_get_skip(ms1.drop_first(), ms2, key);
        if spec_obj_has_key(ms2, key) {
            let i = choose|i: int| 0 <= i < ms2.len() && ms2[i].0 == key;
            assert((ms1 + ms2)[ms1.len() + i].0 == key);
        }
        if spec_obj_has_key(ms1 + ms2, key) {
            let i = choose|i: int| 0 <= i < (ms1 + ms2).len() && (ms1 + ms2)[i].0 == key;
            assert(i >= ms1.len());
            assert(ms2[i - ms1.len()].0 == key);
        }
    }
}

/// A lookup finds the head member when its key matches.
pub proof fn lemma_get_head(key: Seq<char>, value: JsonView, ms: Seq<(Seq<char>, JsonView)>)
    ensures
        spec_obj_has_key(seq![(key, value)] + ms, key),
        spec_obj_get(seq![(key, value)] + ms, key) == value,
{
    let whole = seq![(key, value)] + ms;
    assert(whole[0].0 == key);
}

// --- roles ------------------------------------------------------------------

/// The wire spelling of a role.
pub open spec fn spec_role_str(r: Role) -> Seq<char> {
    match r {
        Role::User => "user"@,
        Role::Agent => "agent"@,
    }
}

/// The role a wire spelling denotes.
pub open spec fn spec_str_role(s: Seq<char>) -> Option<Role> {
    if s == "user"@ {
        Some(Role::User)
    } else if s == "agent"@ {
        Some(Role::Agent)
    } else {
        None
    }
}

/// Role spellings decode back to the role they encode.
pub proof fn lemma_role_round_trip(r: Role)
    ensures
        spec_str_role(spec_role_str(r)) == Some(r),
{
    reveal_strlit("user");
    reveal_strlit("agent");
    assert("user"@.len() == 4);
    assert("agent"@.len() == 5);
}

fn role_to_string(r: Role) -> (s: String)
    ensures
        s@ == spec_role_str(r),
{
    match r {
        Role::User => String::from_str("user"),
        Role::Agent => String::from_str("agent"),
    }
}

fn string_to_role(s: &str) -> (r: Option<Role>)
    ensures
        r == spec_str_role(s@),
{
    if str_eq(s, "user") {
        Some(Role::User)
    } else if str_eq(s, "agent") {
        Some(Role::Agent)
    } else {
        None
    }
}

// --- file content -----------------------------------------------------------

/// The members of a file-content object, in encoding order.
pub open spec fn spec_file_members(f: FileContentView) -> Seq<(Seq<char>, JsonView)> {
    (match f.media_type {
        Some(t) => seq![("mediaType"@, JsonView::Str(t))],
        None => Seq::empty(),
    }) + seq![("name"@, JsonView::Str(f.name))] + (match f.file_with_uri {
        Some(u) => seq![("fileWithUri"@, JsonView::Str(u))],
        None => Seq::empty(),
    }) + (match f.file_with_bytes {
        Some(b) => seq![("fileWithBytes"@, JsonView::Str(b))],
        None => Seq::empty(),
    })
}

/// A file content as a JSON document.
pub open spec fn spec_file_to_json(f: FileContentView) -> JsonView {
    JsonView::Obj(spec_file_members(f))
}

/// An optional string field of an object: `None` when the key is absent,
/// `Some(Some(s))` when it maps to a string, `Some(None)` standing for a
/// present key with a non-string value.
pub open spec fn spec_opt_str_field(
    ms: Seq<(Seq<char>, JsonView)>,
    key: Seq<char>,
) -> Option<Option<Seq<char>>> {
    if spec_obj_has_key(ms, key) {
        match spec_obj_get(ms, key) {
            JsonView::Str(s) => Some(Some(s)),
            _ => None,
        }
    } else {
        Some(None)
    }
}

/// The file content a JSON document denotes.
pub open spec fn spec_json_to_file(v: JsonView) -> Option<FileContentView> {
    match v {
        JsonView::Obj(ms) => {
            if spec_obj_has_key(ms, "name"@) {
                match (spec_obj_get(ms, "name"@), spec_opt_str_field(ms, "mediaType"@),
                    spec_opt_str_field(ms, "fileWithUri"@),
                    spec_opt_str_field(ms, "fileWithBytes"@)) {
                    (JsonView::Str(name), Some(media_type), Some(uri), Some(bytes)) => Some(
                        FileContentView {
                            media_type,
                            name,
                            file_with_uri: uri,
                            file_with_bytes: bytes,
                        },
                    ),
                    _ => None,
                }
            } else {
                None
            }
        },
        _ => None,
    }
}

proof fn reveal_file_keys()
    ensures
        "mediaType"@ != "name"@,
        "mediaType"@ != "fileWithUri"@,
        "mediaType"@ != "fileWithBytes"@,
        "name"@ != "fileWithUri"@,
        "name"@ != "fileWithBytes"@,
        "fileWithUri"@ != "fileWithBytes"@,
{
    reveal_strlit("mediaType");
    reveal_strlit("name");
    reveal_strlit("fileWithUri");
    reveal_strlit("fileWithBytes");
    assert("mediaType"@.len() == 9);
    assert("name"@.len() == 4);
    assert("fileWithUri"@.len() == 11);
    assert("fileWithBytes"@.len() == 13);
    assert("fileWithUri"@[0] == 'f');
    assert("fileWithBytes"@[8] == 'B');
}

/// File contents decode back to the value they encode.
pub proof fn lemma_file_round_trip(f: FileContentView)
    ensures
        spec_json_to_file(spec_file_to_json(f)) == Some(f),
{
    reveal_file_keys();
    let m_media = match f.media_type {
        Some(t) => seq![("mediaType"@, JsonView::Str(t))],
        None => Seq::<(Seq<char>, JsonView)>::empty(),
    };
    let m_name = seq![("name"@, JsonView::Str(f.name))];
    let m_uri = match f.file_with_uri {
        Some(u) => seq![("fileWithUri"@, JsonView::Str(u))],
        None => Seq::<(Seq<char>, JsonView)>::empty(),
    };
    let m_bytes = match f.file_with_bytes {
        Some(b) => seq![("fileWithBytes"@, JsonView::Str(b))],
        None => Seq::<(Seq<char>, JsonView)>::empty(),
    };
    let ms = spec_file_members(f);
    assert(ms =~= m_media + (m_name + (m_uri + m_bytes)));

    lemma_get_skip(m_media, m_name + (m_uri + m_bytes), "name"@);
    lemma_get_head("name"@, JsonView::Str(f.name), m_uri + m_bytes);
    assert(spec_obj_get(ms, "name"@) == JsonView::Str(f.name));
    assert(spec_obj_has_key(ms, "name"@));

    match f.media_type {
        Some(t) => {
            lemma_get_head("mediaType"@, JsonView::Str(t), m_name + (m_uri + m_bytes));
            assert(spec_opt_str_field(ms, "mediaType"@) == Some(Some(t)));
        },
        None => {
            lemma_get_skip(m_media, m_name + (m_uri + m_bytes), "mediaType"@);
            lemma_get_skip(m_name, m_uri + m_bytes, "mediaType"@);
            lemma_get_skip(m_uri, m_bytes, "mediaType"@);
            lemma_get_skip(m_bytes, Seq::empty(), "mediaType"@);
            assert(m_bytes + Seq::empty() =~= m_bytes);
            assert(!spec_obj_has_key(ms, "mediaType"@));
        },
    }

    lemma_get_skip(m_media, m_name + (m_uri + m_bytes), "fileWithUri"@);
    lemma_get_skip(m_name, m_uri + m_bytes, "fileWithUri"@);
    match f.file_with_uri {
        Some(u) => {
            lemma_get_head("fileWithUri"@, JsonView::Str(u), m_bytes);
            assert(spec_opt_str_field(ms, "fileWithUri"@) == Some(Some(u)));
        },
        None => {
            lemma_get_skip(m_uri, m_bytes, "fileWithUri"@);
            lemma_get_skip(m_bytes, Seq::empty(), "fileWithUri"@);
            assert(m_bytes + Seq::empty() =~= m_bytes);
            assert(!spec_obj_has_key(ms, "fileWithUri"@));
        },
    }

    lemma_get_skip(m_media, m_name + (m_uri + m_bytes), "fileWithBytes"@);
    lemma_get_skip(m_name, m_uri + m_bytes, "fileWithBytes"@);
    lemma_get_skip(m_uri, m_bytes, "fileWithBytes"@);
    match f.file_with_bytes {
        Some(b) => {
            lemma_get_head("fileWithBytes"@, JsonView::Str(b), Seq::empty());
            assert(seq![("fileWithBytes"@, JsonView::Str(b))] + Seq::empty() =~= m_bytes);
            assert(spec_opt_str_field(ms, "fileWithBytes"@) == Some(Some(b)));
        },
        None => {
            lemma_get_skip(m_bytes, Seq::empty(), "fileWithBytes"@);
            assert(m_bytes + Seq::empty() =~= m_bytes);
            assert(!spec_obj_has_key(ms, "fileWithBytes"@));
        },
    }
}

/// Encode a file content.
pub fn file_to_value(f: &FileContent) -> (r: JsonValue)
    ensures
        r@ == spec_file_to_json(f@),
{
    let mut ms: Vec<(String, JsonValue)> = Vec::new();
    match &f.media_type {
        Some(t) => {
            ms.push((String::from_str("mediaType"), JsonValue::Str(t.clone())));
        },
        None => {},
    }
    ms.push((String::from_str("name"), JsonValue::Str(f.name.clone())));
    match &f.file_with_uri {
        Some(u) => {
            ms.push((String::from_str("fileWithUri"), JsonValue::Str(u.clone())));
        },
        None => {},
    }
    match &f.file_with_bytes {
        Some(b) => {
            ms.push((String::from_str("fileWithBytes"), JsonValue::Str(b.clone())));
        },
        None => {},
    }
    let r = JsonValue::Obj(ms);
    proof {
        lemma_json_member_views_index(r->Obj_0@);
        assert(r@->Obj_0 =~= spec_file_members(f@));
    }
    r
}

/// Fetch an optional string field; `None` means a present non-string value.
pub fn get_opt_str_field(v: &JsonValue, key: &str) -> (r: Option<Option<String>>)
    requires
        v@ is Obj,
    ensures
        match r {
            Some(opt) => spec_opt_str_field(v@->Obj_0, key@) == Some(opt.deep_view()),
            None => spec_opt_str_field(v@->Obj_0, key@) is None,
        },
{
    match v.get(key) {
        Some(field) => match field.as_str() {
            Some(s) => Some(Some(s.clone())),
            None => None,
        },
        None => Some(None),
    }
}

/// Decode a file content.
pub fn value_to_file(v: &JsonValue) -> (r: Option<FileContent>)
    ensures
        match r {
            Some(f) => spec_json_to_file(v@) == Some(f@),
            None => spec_json_to_file(v@) is None,
        },
{
    let is_obj = match v {
        JsonValue::Obj(_) => true,
        _ => false,
    };
    if !is_obj {
        return None;
    }
    let name = match v.get("name") {
        Some(field) => match field.as_str() {
            Some(s) => s.clone(),
            None => {
                return None;
            },
        },
        None => {
            return None;
        },
    };
    let media_type = match get_opt_str_field(v, "mediaType") {
        Some(opt) => opt,
        None => {
            return None;
        },
    };
    let file_with_uri = match get_opt_str_field(v, "fileWithUri") {
        Some(opt) => opt,
        None => {
            return None;
        },
    };
    let file_with_bytes = match get_opt_str_field(v, "fileWithBytes") {
        Some(opt) => opt,
        None => {
            return None;
        },
    };
    Some(FileContent { media_type, name, file_with_uri, file_with_bytes })
}


// --- message parts ----------------------------------------------------------

/// A message part as a JSON document: the discriminator is the sole key.
pub open spec fn spec_part_to_json(p: MessagePartView) -> JsonView {
    match p {
        MessagePartView::Text { text } => JsonView::Obj(seq![("text"@, JsonView::Str(text))]),
        MessagePartView::File { file } => JsonView::Obj(seq![("file"@, spec_file_to_json(file))]),
        MessagePartView::Data { data } => JsonView::Obj(seq![("data"@, data)]),
    }
}

/// The message part a JSON document denotes, dispatching on the sole
/// populated discriminator key; two discriminators at once are malformed.
pub open spec fn spec_json_to_part(v: JsonView) -> Option<MessagePartView> {
    match v {
        JsonView::Obj(ms) => {
            let has_text = spec_obj_has_key(ms, "text"@);
            let has_file = spec_obj_has_key(ms, "file"@);
            let has_data = spec_obj_has_key(ms, "data"@);
            if has_text && !has_file && !has_data {
                match spec_obj_get(ms, "text"@) {
                    JsonView::Str(t) => Some(MessagePartView::Text { text: t }),
                    _ => None,
                }
            } else if has_file && !has_text && !has_data {
                match spec_json_to_file(spec_obj_get(ms, "file"@)) {
                    Some(f) => Some(MessagePartView::File { file: f }),
                    None => None,
                }
            } else if has_data && !has_text && !has_file {
                Some(MessagePartView::Data { data: spec_obj_get(ms, "data"@) })
            } else {
                None
            }
        },
        _ => None,
    }
}

proof fn reveal_part_keys()
    ensures
        "text"@ != "file"@,
        "text"@ != "data"@,
        "file"@ != "data"@,
{
    reveal_strlit("text");
    reveal_strlit("file");
    reveal_strlit("data");
    assert("text"@[0] == 't');
    assert("file"@[0] == 'f');
    assert("data"@[0] == 'd');
}

/// Message parts decode back to the value they encode.
pub proof fn lemma_part_round_trip(p: MessagePartView)
    ensures
        spec_json_to_part(spec_part_to_json(p)) == Some(p),
{
    reveal_part_keys();
    match p {
        MessagePartView::Text { text } => {
            let ms = seq![("text"@, JsonView::Str(text))];
            assert(ms[0].0 == "text"@);
            assert(forall|i: int| 0 <= i < ms.len() ==> ms[i].0 != "file"@);
            assert(forall|i: int| 0 <= i < ms.len() ==> ms[i].0 != "data"@);
        },
        MessagePartView::File { file } => {
            let ms = seq![("file"@, spec_file_to_json(file))];
            assert(ms[0].0 == "file"@);
            assert(forall|i: int| 0 <= i < ms.len() ==> ms[i].0 != "text"@);
            assert(forall|i: int| 0 <= i < ms.len() ==> ms[i].0 != "data"@);
            lemma_file_round_trip(file);
        },
        MessagePartView::Data { data } => {
            let ms = seq![("data"@, data)];
            assert(ms[0].0 == "data"@);
            assert(forall|i: int| 0 <= i < ms.len() ==> ms[i].0 != "text"@);
            assert(forall|i: int| 0 <= i < ms.len() ==> ms[i].0 != "file"@);
        },
    }
}

/// Encode a message part.
pub fn part_to_value(p: &MessagePart) -> (r: JsonValue)
    ensures
        r@ == spec_part_to_json(p@),
{
    let r = match p {
        MessagePart::Text { text } => {
            let mut ms: Vec<(String, JsonValue)> = Vec::new();
            ms.push((String::from_str("text"), JsonValue::Str(text.clone())));
            JsonValue::Obj(ms)
        },
        MessagePart::File { file } => {
            let mut ms: Vec<(String, JsonValue)> = Vec::new();
            ms.push((String::from_str("file"), file_to_value(file)));
            JsonValue::Obj(ms)
        },
        MessagePart::Data { data } => {
            let mut ms: Vec<(String, JsonValue)> = Vec::new();
            ms.push((String::from_str("data"), data.clone()));
            JsonValue::Obj(ms)
        },
    };
    proof {
        lemma_json_member_views_index(r->Obj_0@);
        assert(r@->Obj_0 =~= spec_part_to_json(p@)->Obj_0);
    }
    r
}

/// Decode a message part.
pub fn value_to_part(v: &JsonValue) -> (r: Option<MessagePart>)
    ensures
        match r {
            Some(p) => spec_json_to_part(v@) == Some(p@),
            None => spec_json_to_part(v@) is None,
        },
{
    let is_obj = match v {
        JsonValue::Obj(_) => true,
        _ => false,
    };
    if !is_obj {
        return None;
    }
    let text_field = v.get("text");
    let file_field = v.get("file");
    let data_field = v.get("data");
    match (text_field, file_field, data_field) {
        (Some(t), None, None) => match t.as_str() {
            Some(text) => Some(MessagePart::Text { text: text.clone() }),
            None => None,
        },
        (None, Some(f), None) => match value_to_file(f) {
            Some(file) => Some(MessagePart::File { file }),
            None => None,
        },
        (None, None, Some(d)) => Some(MessagePart::Data { data: d.clone() }),
        _ => None,
    }
}

// --- part lists -------------------------------------------------------------

/// A part list as a list of JSON documents.
pub open spec fn spec_parts_to_json(s: Seq<MessagePartView>) -> Seq<JsonView>
    decreases s.len(),
{
    if s.len() == 0 {
        Seq::empty()
    } else {
        seq![spec_part_to_json(s[0])] + spec_parts_to_json(s.drop_first())
    }
}

pub proof fn lemma_parts_to_json_index(s: Seq<MessagePartView>)
    ensures
        spec_parts_to_json(s).len() == s.len(),
        forall|i: int| 0 <= i < s.len() ==> spec_parts_to_json(s)[i] == spec_part_to_json(s[i]),
    decreases s.len(),
{
    if s.len() > 0 {
        lemma_parts_to_json_index(s.drop_first());
    }
}

/// The part list a list of JSON documents denotes; any bad element spoils it.
pub open spec fn spec_json_to_parts(s: Seq<JsonView>) -> Option<Seq<MessagePartView>>
    decreases s.len(),
{
    if s.len() == 0 {
        Some(Seq::empty())
    } else {
        match (spec_json_to_part(s[0]), spec_json_to_parts(s.drop_first())) {
            (Some(p), Some(rest)) => Some(seq![p] + rest),
            _ => None,
        }
    }
}

/// Part lists decode back to the value they encode.
pub proof fn lemma_parts_round_trip(s: Seq<MessagePartView>)
    ensures
        spec_json_to_parts(spec_parts_to_json(s)) == Some(s),
    decreases s.len(),
{
    if s.len() == 0 {
        assert(spec_json_to_parts(spec_parts_to_json(s)) =~= Some(Seq::<MessagePartView>::empty()));
        assert(s =~= Seq::<MessagePartView>::empty());
    } else {
        lemma_part_round_trip(s[0]);
        lemma_parts_round_trip(s.drop_first());
        let js = spec_parts_to_json(s);
        assert(js.drop_first() =~= spec_parts_to_json(s.drop_first()));
        assert(seq![s[0]] + s.drop_first() =~= s);
    }
}

/// Encode a part list.
#[verifier::loop_isolation(false)]
pub fn parts_to_values(parts: &Vec<MessagePart>) -> (r: Vec<JsonValue>)
    ensures
        json_views(r@) == spec_parts_to_json(parts.deep_view()),
{
    let ghost gs = parts.deep_view();
    let mut out: Vec<JsonValue> = Vec::new();
    let mut k: usize = 0;
    while k < parts.len()
        invariant
            k <= parts@.len(),
            gs.len() == parts@.len(),
            forall|j: int| 0 <= j < gs.len() ==> gs[j] == parts@[j]@,
            out@.len() == k,
            forall|j: int| 0 <= j < k ==> out@[j]@ == spec_part_to_json(gs[j]),
        decreases parts@.len() - k,
    {
        out.push(part_to_value(&parts[k]));
        k += 1;
    }
    proof {
        lemma_json_views_index(out@);
        lemma_parts_to_json_index(gs);
        assert(json_views(out@) =~= spec_parts_to_json(gs));
    }
    out
}

/// Elementwise failure of a part list decode.
proof fn lemma_json_to_parts_fail(s: Seq<JsonView>, i: int)
    requires
        0 <= i < s.len(),
        spec_json_to_part(s[i]) is None,
    ensures
        spec_json_to_parts(s) is None,
    decreases i,
{
    if i > 0 {
        lemma_json_to_parts_fail(s.drop_first(), i - 1);
    }
}

/// Elementwise success of a part list decode.
proof fn lemma_json_to_parts_ok(s: Seq<JsonView>, ps: Seq<MessagePartView>)
    requires
        s.len() == ps.len(),
        forall|i: int| 0 <= i < s.len() ==> spec_json_to_part(s[i]) == Some(ps[i]),
    ensures
        spec_json_to_parts(s) == Some(ps),
    decreases s.len(),
{
    if s.len() == 0 {
        assert(ps =~= Seq::<MessagePartView>::empty());
    } else {
        lemma_json_to_parts_ok(s.drop_first(), ps.drop_first());
        assert(seq![ps[0]] + ps.drop_first() =~= ps);
    }
}

/// A decoded list of message parts.
pub type PartList = Vec<MessagePart>;

/// Decode a part list.
#[verifier::loop_isolation(false)]
pub fn values_to_parts(vals: &Vec<JsonValue>) -> (r: Option<PartList>)
    ensures
        (match r {
            Some(parts) => spec_json_to_parts(json_views(vals@)) == Some(parts.deep_view()),
            None => spec_json_to_parts(json_views(vals@)) is None,
        }),
{
    proof {
        lemma_json_views_index(vals@);
    }
    let ghost gs = json_views(vals@);
    let mut out: Vec<MessagePart> = Vec::new();
    let mut k: usize = 0;
    while k < vals.len()
        invariant
            k <= vals@.len(),
            out@.len() == k,
            forall|j: int| 0 <= j < k ==> (spec_json_to_part(gs[j]) == Some(out@[j]@)),
        decreases vals@.len() - k,
    {
        match value_to_part(&vals[k]) {
            Some(p) => {
                out.push(p);
            },
            None => {
                proof {
                    lemma_json_to_parts_fail(gs, k as int);
                }
                return None;
            },
        }
        k += 1;
    }
    proof {
        lemma_json_to_parts_ok(gs, out.deep_view());
    }
    Some(out)
}

// --- messages ---------------------------------------------------------------

/// Zero or one members: an optional string field.
pub open spec fn spec_opt_str_member(
    key: Seq<char>,
    o: Option<Seq<char>>,
) -> Seq<(Seq<char>, JsonView)> {
    match o {
        Some(s) => seq![(key, JsonView::Str(s))],
        None => Seq::empty(),
    }
}

/// Zero or one members: an optional object-valued field.
pub open spec fn spec_opt_obj_member(
    key: Seq<char>,
    o: Option<Seq<(Seq<char>, JsonView)>>,
) -> Seq<(Seq<char>, JsonView)> {
    match o {
        Some(ms) => seq![(key, JsonView::Obj(ms))],
        None => Seq::empty(),
    }
}

/// The members of a message object, in encoding order.
pub open spec fn spec_message_members(m: MessageView) -> Seq<(Seq<char>, JsonView)> {
    seq![("role"@, JsonView::Str(spec_role_str(m.role)))]
        + seq![("parts"@, JsonView::Arr(spec_parts_to_json(m.parts)))]
        + spec_opt_str_member("messageId"@, m.message_id)
        + spec_opt_str_member("taskId"@, m.task_id)
        + spec_opt_str_member("contextId"@, m.context_id)
        + spec_opt_obj_member("metadata"@, m.metadata)
        + spec_opt_obj_member("extensions"@, m.extensions)
}

/// A message as a JSON document.
pub open spec fn spec_message_to_json(m: MessageView) -> JsonView {
    JsonView::Obj(spec_message_members(m))
}

/// An optional object-valued field of an object: `None` stands for a present
/// key with a non-object value.
pub open spec fn spec_opt_obj_field(
    ms: Seq<(Seq<char>, JsonView)>,
    key: Seq<char>,
) -> Option<Option<Seq<(Seq<char>, JsonView)>>> {
    if spec_obj_has_key(ms, key) {
        match spec_obj_get(ms, key) {
            JsonView::Obj(mm) => Some(Some(mm)),
            _ => None,
        }
    } else {
        Some(None)
    }
}

/// The message a JSON document denotes.
pub open spec fn spec_json_to_message(v: JsonView) -> Option<MessageView> {
    match v {
        JsonView::Obj(ms) => {
            if spec_obj_has_key(ms, "role"@) && spec_obj_has_key(ms, "parts"@) {
                match (spec_obj_get(ms, "role"@), spec_obj_get(ms, "parts"@)) {
                    (JsonView::Str(rs), JsonView::Arr(ps)) => {
                        match (spec_str_role(rs), spec_json_to_parts(ps),
                            spec_opt_str_field(ms, "messageId"@),
                            spec_opt_str_field(ms, "taskId"@),
                            spec_opt_str_field(ms, "contextId"@),
                            spec_opt_obj_field(ms, "metadata"@),
                            spec_opt_obj_field(ms, "extensions"@)) {
                            (Some(role), Some(parts), Some(mid), Some(tid), Some(cid),
                                Some(md), Some(ext)) => Some(MessageView {
                                role,
                                parts,
                                message_id: mid,
                                task_id: tid,
                                context_id: cid,
                                metadata: md,
                                extensions: ext,
                            }),
                            _ => None,
                        }
                    },
                    _ => None,
                }
            } else {
                None
            }
        },
        _ => None,
    }
}

proof fn reveal_message_keys()
    ensures
        "role"@ != "parts"@ && "role"@ != "messageId"@ && "role"@ != "taskId"@
            && "role"@ != "contextId"@ && "role"@ != "metadata"@ && "role"@ != "extensions"@,
        "parts"@ != "messageId"@ && "parts"@ != "taskId"@ && "parts"@ != "contextId"@
            && "parts"@ != "metadata"@ && "parts"@ != "extensions"@,
        "messageId"@ != "taskId"@ && "messageId"@ != "contextId"@ && "messageId"@ != "metadata"@
            && "messageId"@ != "extensions"@,
        "taskId"@ != "contextId"@ && "taskId"@ != "metadata"@ && "taskId"@ != "extensions"@,
        "contextId"@ != "metadata"@ && "contextId"@ != "extensions"@,
        "metadata"@ != "extensions"@,
{
    reveal_strlit("role");
    reveal_strlit("parts");
    reveal_strlit("messageId");
    reveal_strlit("taskId");
    reveal_strlit("contextId");
    reveal_strlit("metadata");
    reveal_strlit("extensions");
    assert("role"@.len() == 4);
    assert("parts"@.len() == 5);
    assert("messageId"@.len() == 9);
    assert("taskId"@.len() == 6);
    assert("contextId"@.len() == 9);
    assert("metadata"@.len() == 8);
    assert("extensions"@.len() == 10);
    assert("messageId"@[0] == 'm');
    assert("contextId"@[0] == 'c');
}

/// Each lookup of a message key finds the member the encoder wrote.
#[verifier::rlimit(60)]
proof fn lemma_message_members_lookup(m: MessageView)
    ensures
        spec_obj_has_key(spec_message_members(m), "role"@),
        spec_obj_get(spec_message_members(m), "role"@)
            == JsonView::Str(spec_role_str(m.role)),
        spec_obj_has_key(spec_message_members(m), "parts"@),
        spec_obj_get(spec_message_members(m), "parts"@)
            == JsonView::Arr(spec_parts_to_json(m.parts)),
        spec_opt_str_field(spec_message_members(m), "messageId"@) == Some(m.message_id),
        spec_opt_str_field(spec_message_members(m), "taskId"@) == Some(m.task_id),
        spec_opt_str_field(spec_message_members(m), "contextId"@) == Some(m.context_id),
        spec_opt_obj_field(spec_message_members(m), "metadata"@) == Some(m.metadata),
        spec_opt_obj_field(spec_message_members(m), "extensions"@) == Some(m.extensions),
{
    reveal_message_keys();
    let s1 = seq![("role"@, JsonView::Str(spec_role_str(m.role)))];
    let s2 = seq![("parts"@, JsonView::Arr(spec_parts_to_json(m.parts)))];
    let s3 = spec_opt_str_member("messageId"@, m.message_id);
    let s4 = spec_opt_str_member("taskId"@, m.task_id);
    let s5 = spec_opt_str_member("contextId"@, m.context_id);
    let s6 = spec_opt_obj_member("metadata"@, m.metadata);
    let s7 = spec_opt_obj_member("extensions"@, m.extensions);
    let ms = spec_message_members(m);
    let t7 = s7;
    let t6 = s6 + t7;
    let t5 = s5 + t6;
    let t4 = s4 + t5;
    let t3 = s3 + t4;
    let t2 = s2 + t3;
    assert(ms =~= s1 + t2);

    assert(spec_obj_get(s1 + t2, "role"@) == JsonView::Str(spec_role_str(m.role))) by {
        lemma_get_head("role"@, JsonView::Str(spec_role_str(m.role)), t2);
    }
    assert(spec_obj_has_key(ms, "role"@)) by {
        lemma_get_head("role"@, JsonView::Str(spec_role_str(m.role)), t2);
    }

    lemma_get_skip(s1, t2, "parts"@);
    lemma_get_head("parts"@, JsonView::Arr(spec_parts_to_json(m.parts)), t3);

    lemma_get_skip(s1, t2, "messageId"@);
    lemma_get_skip(s2, t3, "messageId"@);
    match m.message_id {
        Some(s) => {
            lemma_get_head("messageId"@, JsonView::Str(s), t4);
        },
        None => {
            lemma_get_skip(s3, t4, "messageId"@);
            lemma_get_skip(s4, t5, "messageId"@);
            lemma_get_skip(s5, t6, "messageId"@);
            lemma_get_skip(s6, t7, "messageId"@);
            lemma_get_skip(s7, Seq::empty(), "messageId"@);
            assert(s7 + Seq::empty() =~= s7);
        },
    }

    lemma_get_skip(s1, t2, "taskId"@);
    lemma_get_skip(s2, t3, "taskId"@);
    lemma_get_skip(s3, t4, "taskId"@);
    match m.task_id {
        Some(s) => {
            lemma_get_head("taskId"@, JsonView::Str(s), t5);
        },
        None => {
            lemma_get_skip(s4, t5, "taskId"@);
            lemma_get_skip(s5, t6, "taskId"@);
            lemma_get_skip(s6, t7, "taskId"@);
            lemma_get_skip(s7, Seq::empty(), "taskId"@);
            assert(s7 + Seq::empty() =~= s7);
        },
    }

    lemma_get_skip(s1, t2, "contextId"@);
    lemma_get_skip(s2, t3, "contextId"@);
    lemma_get_skip(s3, t4, "contextId"@);
    lemma_get_skip(s4, t5, "contextId"@);
    match m.context_id {
        Some(s) => {
            lemma_get_head("contextId"@, JsonView::Str(s), t6);
        },
        None => {
            lemma_get_skip(s5, t6, "contextId"@);
            lemma_get_skip(s6, t7, "contextId"@);
            lemma_get_skip(s7, Seq::empty(), "contextId"@);
            assert(s7 + Seq::empty() =~= s7);
        },
    }

    lemma_get_skip(s1, t2, "metadata"@);
    lemma_get_skip(s2, t3, "metadata"@);
    lemma_get_skip(s3, t4, "metadata"@);
    lemma_get_skip(s4, t5, "metadata"@);
    lemma_get_skip(s5, t6, "metadata"@);
    match m.metadata {
        Some(md) => {
            lemma_get_head("metadata"@, JsonView::Obj(md), t7);
        },
        None => {
            lemma_get_skip(s6, t7, "metadata"@);
            lemma_get_skip(s7, Seq::empty(), "metadata"@);
            assert(s7 + Seq::empty() =~= s7);
        },
    }

    lemma_get_skip(s1, t2, "extensions"@);
    lemma_get_skip(s2, t3, "extensions"@);
    lemma_get_skip(s3, t4, "extensions"@);
    lemma_get_skip(s4, t5, "extensions"@);
    lemma_get_skip(s5, t6, "extensions"@);
    lemma_get_skip(s6, t7, "extensions"@);
    match m.extensions {
        Some(ext) => {
            assert(s7 =~= seq![("extensions"@, JsonView::Obj(ext))] + Seq::empty());
            lemma_get_head("extensions"@, JsonView::Obj(ext), Seq::empty());
        },
        None => {
            lemma_get_skip(s7, Seq::empty(), "extensions"@);
            assert(s7 + Seq::empty() =~= s7);
        },
    }
}

/// Messages decode back to the value they encode.
///
/// This is the round-trip law for the plain-JSON binding of messages, at the
/// level of JSON documents.
pub proof fn lemma_message_round_trip(m: MessageView)
    requires
        m.wf(),
    ensures
        spec_json_to_message(spec_message_to_json(m)) == Some(m),
{
    lemma_message_members_lookup(m);
    lemma_role_round_trip(m.role);
    lemma_parts_round_trip(m.parts);
}


/// The member-view list of a key-value vector is its deep view.
pub proof fn lemma_member_views_deep(v: Vec<(String, JsonValue)>)
    ensures
        json_member_views(v@) == v.deep_view(),
{
    lemma_json_member_views_index(v@);
    assert(json_member_views(v@) =~= v.deep_view());
}

/// Clone a key-value member list.
#[verifier::loop_isolation(false)]
pub fn clone_pairs(ms: &Vec<(String, JsonValue)>) -> (r: Vec<(String, JsonValue)>)
    ensures
        r.deep_view() == ms.deep_view(),
{
    let mut out: Vec<(String, JsonValue)> = Vec::new();
    let mut k: usize = 0;
    while k < ms.len()
        invariant
            k <= ms@.len(),
            out@.len() == k,
            forall|j: int| 0 <= j < k
                ==> out@[j].0@ == ms@[j].0@ && out@[j].1@ == ms@[j].1@,
        decreases ms@.len() - k,
    {
        let key = ms[k].0.clone();
        let val = ms[k].1.clone();
        out.push((key, val));
        k += 1;
    }
    proof {
        assert(out.deep_view() =~= ms.deep_view());
    }
    out
}

/// Encode a message.
#[verifier::rlimit(60)]
pub fn message_to_value(m: &Message) -> (r: JsonValue)
    ensures
        r@ == spec_message_to_json(m@),
{
    let mut ms: Vec<(String, JsonValue)> = Vec::new();
    ms.push((String::from_str("role"), JsonValue::Str(role_to_string(m.role))));
    ms.push((String::from_str("parts"), JsonValue::Arr(parts_to_values(&m.parts))));
    match &m.message_id {
        Some(s) => {
            ms.push((String::from_str("messageId"), JsonValue::Str(s.clone())));
        },
        None => {},
    }
    match &m.task_id {
        Some(s) => {
            ms.push((String::from_str("taskId"), JsonValue::Str(s.clone())));
        },
        None => {},
    }
    match &m.context_id {
        Some(s) => {
            ms.push((String::from_str("contextId"), JsonValue::Str(s.clone())));
        },
        None => {},
    }
    match &m.metadata {
        Some(md) => {
            let cloned = clone_pairs(md);
            proof {
                lemma_member_views_deep(cloned);
                lemma_member_views_deep(*md);
            }
            ms.push((String::from_str("metadata"), JsonValue::Obj(cloned)));
        },
        None => {},
    }
    match &m.extensions {
        Some(ext) => {
            let cloned = clone_pairs(ext);
            proof {
                lemma_member_views_deep(cloned);
                lemma_member_views_deep(*ext);
            }
            ms.push((String::from_str("extensions"), JsonValue::Obj(cloned)));
        },
        None => {},
    }
    let r = JsonValue::Obj(ms);
    proof {
        lemma_json_member_views_index(r->Obj_0@);
        assert(r@->Obj_0 =~= spec_message_members(m@));
    }
    r
}

/// Fetch an optional object-valued field; `None` means a present non-object
/// value.
pub fn get_opt_obj_field(v: &JsonValue, key: &str) -> (r: Option<Option<Vec<(String, JsonValue)>>>)
    requires
        v@ is Obj,
    ensures
        (match r {
            Some(opt) => spec_opt_obj_field(v@->Obj_0, key@) == Some(
                match opt {
                    Some(mm) => Some(mm.deep_view()),
                    None => None,
                },
            ),
            None => spec_opt_obj_field(v@->Obj_0, key@) is None,
        }),
{
    match v.get(key) {
        Some(field) => match field {
            JsonValue::Obj(mm) => {
                let cloned = clone_pairs(mm);
                proof {
                    lemma_member_views_deep(cloned);
                    lemma_member_views_deep(*mm);
                }
                Some(Some(cloned))
            },
            _ => None,
        },
        None => Some(None),
    }
}

/// Decode a message.
pub fn value_to_message(v: &JsonValue) -> (r: Option<Message>)
    ensures
        (match r {
            Some(m) => spec_json_to_message(v@) == Some(m@),
            None => spec_json_to_message(v@) is None,
        }),
{
    let is_obj = match v {
        JsonValue::Obj(_) => true,
        _ => false,
    };
    if !is_obj {
        return None;
    }
    let role = match v.get("role") {
        Some(field) => match field.as_str() {
            Some(s) => match string_to_role(s.as_str()) {
                Some(role) => role,
                None => {
                    return None;
                },
            },
            None => {
                return None;
            },
        },
        None => {
            return None;
        },
    };
    let parts = match v.get("parts") {
        Some(field) => match field {
            JsonValue::Arr(items) => match values_to_parts(items) {
                Some(parts) => parts,
                None => {
                    return None;
                },
            },
            _ => {
                return None;
            },
        },
        None => {
            return None;
        },
    };
    let message_id = match get_opt_str_field(v, "messageId") {
        Some(opt) => opt,
        None => {
            return None;
        },
    };
    let task_id = match get_opt_str_field(v, "taskId") {
        Some(opt) => opt,
        None => {
            return None;
        },
    };
    let context_id = match get_opt_str_field(v, "contextId") {
        Some(opt) => opt,
        None => {
            return None;
        },
    };
    let metadata = match get_opt_obj_field(v, "metadata") {
        Some(opt) => opt,
        None => {
            return None;
        },
    };
    let extensions = match get_opt_obj_field(v, "extensions") {
        Some(opt) => opt,
        None => {
            return None;
        },
    };
    Some(Message { role, parts, message_id, task_id, context_id, metadata, extensions })
}

// --- task statuses ----------------------------------------------------------

/// The kebab-case wire spelling of a task status.
pub open spec fn spec_status_str(s: TaskStatus) -> Seq<char> {
    match s {
        TaskStatus::Submitted => "submitted"@,
        TaskStatus::Working => "working"@,
        TaskStatus::InputRequired => "input-required"@,
        TaskStatus::AuthRequired => "auth-required"@,
        TaskStatus::Completed => "completed"@,
        TaskStatus::Failed => "failed"@,
        TaskStatus::Cancelled => "cancelled"@,
        TaskStatus::Rejected => "rejected"@,
    }
}

/// The task status a wire spelling denotes.
pub open spec fn spec_str_status(s: Seq<char>) -> Option<TaskStatus> {
    if s == "submitted"@ {
        Some(TaskStatus::Submitted)
    } else if s == "working"@ {
        Some(TaskStatus::Working)
    } else if s == "input-required"@ {
        Some(TaskStatus::InputRequired)
    } else if s == "auth-required"@ {
        Some(TaskStatus::AuthRequired)
    } else if s == "completed"@ {
        Some(TaskStatus::Completed)
    } else if s == "failed"@ {
        Some(TaskStatus::Failed)
    } else if s == "cancelled"@ {
        Some(TaskStatus::Cancelled)
    } else if s == "rejected"@ {
        Some(TaskStatus::Rejected)
    } else {
        None
    }
}

/// Status spellings decode back to the status they encode.
pub proof fn lemma_status_round_trip(s: TaskStatus)
    ensures
        spec_str_status(spec_status_str(s)) == Some(s),
{
    reveal_strlit("submitted");
    reveal_strlit("working");
    reveal_strlit("input-required");
    reveal_strlit("auth-required");
    reveal_strlit("completed");
    reveal_strlit("failed");
    reveal_strlit("cancelled");
    reveal_strlit("rejected");
    assert("submitted"@.len() == 9);
    assert("working"@.len() == 7);
    assert("input-required"@.len() == 14);
    assert("auth-required"@.len() == 13);
    assert("completed"@.len() == 9);
    assert("failed"@.len() == 6);
    assert("cancelled"@.len() == 9);
    assert("rejected"@.len() == 8);
    assert("submitted"@[0] == 's');
    assert("completed"@[0] == 'c');
    assert("cancelled"@[0] == 'c');
    assert("completed"@[1] == 'o');
    assert("cancelled"@[1] == 'a');
}

/// Encode a task status.
pub fn status_to_string(s: TaskStatus) -> (r: String)
    ensures
        r@ == spec_status_str(s),
{
    match s {
        TaskStatus::Submitted => String::from_str("submitted"),
        TaskStatus::Working => String::from_str("working"),
        TaskStatus::InputRequired => String::from_str("input-required"),
        TaskStatus::AuthRequired => String::from_str("auth-required"),
        TaskStatus::Completed => String::from_str("completed"),
        TaskStatus::Failed => String::from_str("failed"),
        TaskStatus::Cancelled => String::from_str("cancelled"),
        TaskStatus::Rejected => String::from_str("rejected"),
    }
}

/// Decode a task status.
pub fn string_to_status(s: &str) -> (r: Option<TaskStatus>)
    ensures
        r == spec_str_status(s@),
{
    if str_eq(s, "submitted") {
        Some(TaskStatus::Submitted)
    } else if str_eq(s, "working") {
        Some(TaskStatus::Working)
    } else if str_eq(s, "input-required") {
        Some(TaskStatus::InputRequired)
    } else if str_eq(s, "auth-required") {
        Some(TaskStatus::AuthRequired)
    } else if str_eq(s, "completed") {
        Some(TaskStatus::Completed)
    } else if str_eq(s, "failed") {
        Some(TaskStatus::Failed)
    } else if str_eq(s, "cancelled") {
        Some(TaskStatus::Cancelled)
    } else if str_eq(s, "rejected") {
        Some(TaskStatus::Rejected)
    } else {
        None
    }
}

// --- task errors ------------------------------------------------------------

/// Zero or one members: an optional field of any JSON value.
pub open spec fn spec_opt_val_member(
    key: Seq<char>,
    o: Option<JsonView>,
) -> Seq<(Seq<char>, JsonView)> {
    match o {
        Some(v) => seq![(key, v)],
        None => Seq::empty(),
    }
}

/// An optional field of any value: present or absent, never malformed.
pub open spec fn spec_opt_val_field(
    ms: Seq<(Seq<char>, JsonView)>,
    key: Seq<char>,
) -> Option<JsonView> {
    if spec_obj_has_key(ms, key) {
        Some(spec_obj_get(ms, key))
    } else {
        None
    }
}

/// The members of a task-error object, in encoding order.
pub open spec fn spec_task_error_members(e: TaskErrorView) -> Seq<(Seq<char>, JsonView)> {
    seq![("code"@, JsonView::Str(e.code))] + seq![("message"@, JsonView::Str(e.message))]
        + spec_opt_val_member("details"@, e.details)
}

/// A task error as a JSON document.
pub open spec fn spec_task_error_to_json(e: TaskErrorView) -> JsonView {
    JsonView::Obj(spec_task_error_members(e))
}

/// The task error a JSON document denotes.
pub open spec fn spec_json_to_task_error(v: JsonView) -> Option<TaskErrorView> {
    match v {
        JsonView::Obj(ms) => {
            if spec_obj_has_key(ms, "code"@) && spec_obj_has_key(ms, "message"@) {
                match (spec_obj_get(ms, "code"@), spec_obj_get(ms, "message"@)) {
                    (JsonView::Str(code), JsonView::Str(message)) => Some(TaskErrorView {
                        code,
                        message,
                        details: spec_opt_val_field(ms, "details"@),
                    }),
                    _ => None,
                }
            } else {
                None
            }
        },
        _ => None,
    }
}

proof fn reveal_task_error_keys()
    ensures
        "code"@ != "message"@,
        "code"@ != "details"@,
        "message"@ != "details"@,
{
    reveal_strlit("code");
    reveal_strlit("message");
    reveal_strlit("details");
    assert("code"@.len() == 4);
    assert("message"@.len() == 7);
    assert("details"@.len() == 7);
    assert("message"@[0] == 'm');
    assert("details"@[0] == 'd');
}

/// Task errors decode back to the value they encode.
pub proof fn lemma_task_error_round_trip(e: TaskErrorView)
    ensures
        spec_json_to_task_error(spec_task_error_to_json(e)) == Some(e),
{
    reveal_task_error_keys();
    let s1 = seq![("code"@, JsonView::Str(e.code))];
    let s2 = seq![("message"@, JsonView::Str(e.message))];
    let s3 = spec_opt_val_member("details"@, e.details);
    let ms = spec_task_error_members(e);
    assert(ms =~= s1 + (s2 + s3));
    lemma_get_head("code"@, JsonView::Str(e.code), s2 + s3);
    lemma_get_skip(s1, s2 + s3, "message"@);
    lemma_get_head("message"@, JsonView::Str(e.message), s3);
    lemma_get_skip(s1, s2 + s3, "details"@);
    lemma_get_skip(s2, s3, "details"@);
    match e.details {
        Some(d) => {
            assert(s3 =~= seq![("details"@, d)] + Seq::empty());
            lemma_get_head("details"@, d, Seq::empty());
        },
        None => {
            lemma_get_skip(s3, Seq::empty(), "details"@);
            assert(s3 + Seq::empty() =~= s3);
        },
    }
}

/// Encode a task error.
pub fn task_error_to_value(e: &TaskError) -> (r: JsonValue)
    ensures
        r@ == spec_task_error_to_json(e@),
{
    let mut ms: Vec<(String, JsonValue)> = Vec::new();
    ms.push((String::from_str("code"), JsonValue::Str(e.code.clone())));
    ms.push((String::from_str("message"), JsonValue::Str(e.message.clone())));
    match &e.details {
        Some(d) => {
            ms.push((String::from_str("details"), d.clone()));
        },
        None => {},
    }
    let r = JsonValue::Obj(ms);
    proof {
        lemma_json_member_views_index(r->Obj_0@);
        assert(r@->Obj_0 =~= spec_task_error_members(e@));
    }
    r
}

/// Fetch an optional field of any value.
pub fn get_opt_val_field(v: &JsonValue, key: &str) -> (r: Option<JsonValue>)
    requires
        v@ is Obj,
    ensures
        r.deep_view() == spec_opt_val_field(v@->Obj_0, key@),
{
    match v.get(key) {
        Some(field) => Some(field.clone()),
        None => None,
    }
}

/// Decode a task error.
pub fn value_to_task_error(v: &JsonValue) -> (r: Option<TaskError>)
    ensures
        (match r {
            Some(e) => spec_json_to_task_error(v@) == Some(e@),
            None => spec_json_to_task_error(v@) is None,
        }),
{
    let is_obj = match v {
        JsonValue::Obj(_) => true,
        _ => false,
    };
    if !is_obj {
        return None;
    }
    let code = match v.get("code") {
        Some(field) => match field.as_str() {
            Some(s) => s.clone(),
            None => {
                return None;
            },
        },
        None => {
            return None;
        },
    };
    let message = match v.get("message") {
        Some(field) => match field.as_str() {
            Some(s) => s.clone(),
            None => {
                return None;
            },
        },
        None => {
            return None;
        },
    };
    let details = get_opt_val_field(v, "details");
    Some(TaskError { code, message, details })
}

// --- string lists -----------------------------------------------------------

/// A list of strings as a list of JSON documents.
pub open spec fn spec_strs_to_json(s: Seq<Seq<char>>) -> Seq<JsonView>
    decreases s.len(),
{
    if s.len() == 0 {
        Seq::empty()
    } else {
        seq![JsonView::Str(s[0])] + spec_strs_to_json(s.drop_first())
    }
}

pub proof fn lemma_strs_to_json_index(s: Seq<Seq<char>>)
    ensures
        spec_strs_to_json(s).len() == s.len(),
        forall|i: int| 0 <= i < s.len() ==> spec_strs_to_json(s)[i] == JsonView::Str(s[i]),
    decreases s.len(),
{
    if s.len() > 0 {
        lemma_strs_to_json_index(s.drop_first());
    }
}

/// The string list a list of JSON documents denotes.
pub open spec fn spec_json_to_strs(s: Seq<JsonView>) -> Option<Seq<Seq<char>>>
    decreases s.len(),
{
    if s.len() == 0 {
        Some(Seq::empty())
    } else {
        match (s[0], spec_json_to_strs(s.drop_first())) {
            (JsonView::Str(h), Some(rest)) => Some(seq![h] + rest),
            _ => None,
        }
    }
}

/// String lists decode back to the value they encode.
pub proof fn lemma_strs_round_trip(s: Seq<Seq<char>>)
    ensures
        spec_json_to_strs(spec_strs_to_json(s)) == Some(s),
    decreases s.len(),
{
    if s.len() == 0 {
        assert(s =~= Seq::<Seq<char>>::empty());
    } else {
        lemma_strs_round_trip(s.drop_first());
        let js = spec_strs_to_json(s);
        assert(js.drop_first() =~= spec_strs_to_json(s.drop_first()));
        assert(seq![s[0]] + s.drop_first() =~= s);
    }
}

/// Encode a list of strings.
#[verifier::loop_isolation(false)]
pub fn strs_to_values(strs: &Vec<String>) -> (r: Vec<JsonValue>)
    ensures
        json_views(r@) == spec_strs_to_json(strs.deep_view()),
{
    let ghost gs = strs.deep_view();
    let mut out: Vec<JsonValue> = Vec::new();
    let mut k: usize = 0;
    while k < strs.len()
        invariant
            k <= strs@.len(),
            out@.len() == k,
            forall|j: int| 0 <= j < k ==> out@[j]@ == JsonView::Str(gs[j]),
        decreases strs@.len() - k,
    {
        out.push(JsonValue::Str(strs[k].clone()));
        k += 1;
    }
    proof {
        lemma_json_views_index(out@);
        lemma_strs_to_json_index(gs);
        assert(json_views(out@) =~= spec_strs_to_json(gs));
    }
    out
}

proof fn lemma_json_to_strs_fail(s: Seq<JsonView>, i: int)
    requires
        0 <= i < s.len(),
        !(s[i] is Str),
    ensures
        spec_json_to_strs(s) is None,
    decreases i,
{
    if i > 0 {
        lemma_json_to_strs_fail(s.drop_first(), i - 1);
    }
}

proof fn lemma_json_to_strs_ok(s: Seq<JsonView>, out: Seq<Seq<char>>)
    requires
        s.len() == out.len(),
        forall|i: int| 0 <= i < s.len() ==> s[i] == JsonView::Str(out[i]),
    ensures
        spec_json_to_strs(s) == Some(out),
    decreases s.len(),
{
    if s.len() == 0 {
        assert(out =~= Seq::<Seq<char>>::empty());
    } else {
        lemma_json_to_strs_ok(s.drop_first(), out.drop_first());
        assert(seq![out[0]] + out.drop_first() =~= out);
    }
}

/// A decoded list of strings.
pub type StrList = Vec<String>;

/// Decode a list of strings.
#[verifier::loop_isolation(false)]
pub fn values_to_strs(vals: &Vec<JsonValue>) -> (r: Option<StrList>)
    ensures
        (match r {
            Some(strs) => spec_json_to_strs(json_views(vals@)) == Some(strs.deep_view()),
            None => spec_json_to_strs(json_views(vals@)) is None,
        }),
{
    proof {
        lemma_json_views_index(vals@);
    }
    let ghost gs = json_views(vals@);
    let mut out: Vec<String> = Vec::new();
    let mut k: usize = 0;
    while k < vals.len()
        invariant
            k <= vals@.len(),
            out@.len() == k,
            forall|j: int| 0 <= j < k ==> gs[j] == JsonView::Str(out@[j]@),
        decreases vals@.len() - k,
    {
        match vals[k].as_str() {
            Some(s) => {
                out.push(s.clone());
            },
            None => {
                proof {
                    lemma_json_to_strs_fail(gs, k as int);
                }
                return None;
            },
        }
        k += 1;
    }
    proof {
        lemma_json_to_strs_ok(gs, out.deep_view());
    }
    Some(out)
}

// --- artifacts --------------------------------------------------------------

/// The members of an artifact object, in encoding order. The extension list
/// is omitted when empty.
pub open spec fn spec_artifact_members(a: ArtifactView) -> Seq<(Seq<char>, JsonView)> {
    seq![("artifact_id"@, JsonView::Str(a.artifact_id))]
        + spec_opt_str_member("name"@, a.name)
        + spec_opt_str_member("description"@, a.description)
        + seq![("parts"@, JsonView::Arr(spec_parts_to_json(a.parts)))]
        + spec_opt_val_member("metadata"@, a.metadata)
        + (if a.extensions.len() == 0 {
            Seq::empty()
        } else {
            seq![("extensions"@, JsonView::Arr(spec_strs_to_json(a.extensions)))]
        })
}

/// An artifact as a JSON document.
pub open spec fn spec_artifact_to_json(a: ArtifactView) -> JsonView {
    JsonView::Obj(spec_artifact_members(a))
}

/// The artifact a JSON document denotes. A missing extension list stands
/// for no extensions.
pub open spec fn spec_json_to_artifact(v: JsonView) -> Option<ArtifactView> {
    match v {
        JsonView::Obj(ms) => {
            if spec_obj_has_key(ms, "artifact_id"@) && spec_obj_has_key(ms, "parts"@) {
                match (spec_obj_get(ms, "artifact_id"@), spec_obj_get(ms, "parts"@)) {
                    (JsonView::Str(artifact_id), JsonView::Arr(ps)) => {
                        match (spec_json_to_parts(ps), spec_opt_str_field(ms, "name"@),
                            spec_opt_str_field(ms, "description"@)) {
                            (Some(parts), Some(name), Some(description)) => {
                                let metadata = spec_opt_val_field(ms, "metadata"@);
                                if spec_obj_has_key(ms, "extensions"@) {
                                    match spec_obj_get(ms, "extensions"@) {
                                        JsonView::Arr(es) => match spec_json_to_strs(es) {
                                            Some(extensions) => Some(ArtifactView {
                                                artifact_id,
                                                name,
                                                description,
                                                parts,
                                                metadata,
                                                extensions,
                                            }),
                                            None => None,
                                        },
                                        _ => None,
                                    }
                                } else {
                                    Some(ArtifactView {
                                        artifact_id,
                                        name,
                                        description,
                                        parts,
                                        metadata,
                                        extensions: Seq::empty(),
                                    })
                                }
                            },
                            _ => None,
                        }
                    },
                    _ => None,
                }
            } else {
                None
            }
        },
        _ => None,
    }
}

proof fn reveal_artifact_keys()
    ensures
        "artifact_id"@ != "name"@ && "artifact_id"@ != "description"@
            && "artifact_id"@ != "parts"@ && "artifact_id"@ != "metadata"@
            && "artifact_id"@ != "extensions"@,
        "name"@ != "description"@ && "name"@ != "parts"@ && "name"@ != "metadata"@
            && "name"@ != "extensions"@,
        "description"@ != "parts"@ && "description"@ != "metadata"@
            && "description"@ != "extensions"@,
        "parts"@ != "metadata"@ && "parts"@ != "extensions"@,
        "metadata"@ != "extensions"@,
{
    reveal_strlit("artifact_id");
    reveal_strlit("name");
    reveal_strlit("description");
    reveal_strlit("parts");
    reveal_strlit("metadata");
    reveal_strlit("extensions");
    assert("artifact_id"@.len() == 11);
    assert("name"@.len() == 4);
    assert("description"@.len() == 11);
    assert("parts"@.len() == 5);
    assert("metadata"@.len() == 8);
    assert("extensions"@.len() == 10);
    assert("artifact_id"@[0] == 'a');
    assert("description"@[0] == 'd');
}

/// Each lookup of an artifact key finds the member the encoder wrote.
#[verifier::rlimit(100)]
proof fn lemma_artifact_members_lookup(a: ArtifactView)
    ensures
        spec_obj_has_key(spec_artifact_members(a), "artifact_id"@),
        spec_obj_get(spec_artifact_members(a), "artifact_id"@)
            == JsonView::Str(a.artifact_id),
        spec_opt_str_field(spec_artifact_members(a), "name"@) == Some(a.name),
        spec_opt_str_field(spec_artifact_members(a), "description"@) == Some(a.description),
        spec_obj_has_key(spec_artifact_members(a), "parts"@),
        spec_obj_get(spec_artifact_members(a), "parts"@)
            == JsonView::Arr(spec_parts_to_json(a.parts)),
        spec_opt_val_field(spec_artifact_members(a), "metadata"@) == a.metadata,
        spec_obj_has_key(spec_artifact_members(a), "extensions"@) == (a.extensions.len() != 0),
        a.extensions.len() != 0 ==> spec_obj_get(spec_artifact_members(a), "extensions"@)
            == JsonView::Arr(spec_strs_to_json(a.extensions)),
{
    reveal_artifact_keys();
    let s1 = seq![("artifact_id"@, JsonView::Str(a.artifact_id))];
    let s2 = spec_opt_str_member("name"@, a.name);
    let s3 = spec_opt_str_member("description"@, a.description);
    let s4 = seq![("parts"@, JsonView::Arr(spec_parts_to_json(a.parts)))];
    let s5 = spec_opt_val_member("metadata"@, a.metadata);
    let s6 = if a.extensions.len() == 0 {
        Seq::<(Seq<char>, JsonView)>::empty()
    } else {
        seq![("extensions"@, JsonView::Arr(spec_strs_to_json(a.extensions)))]
    };
    let t5 = s5 + s6;
    let t4 = s4 + t5;
    let t3 = s3 + t4;
    let t2 = s2 + t3;
    let ms = spec_artifact_members(a);
    assert(ms =~= s1 + t2);

    lemma_get_head("artifact_id"@, JsonView::Str(a.artifact_id), t2);

    lemma_get_skip(s1, t2, "name"@);
    match a.name {
        Some(n) => {
            lemma_get_head("name"@, JsonView::Str(n), t3);
        },
        None => {
            lemma_get_skip(s2, t3, "name"@);
            lemma_get_skip(s3, t4, "name"@);
            lemma_get_skip(s4, t5, "name"@);
            lemma_get_skip(s5, s6, "name"@);
            lemma_get_skip(s6, Seq::empty(), "name"@);
            assert(s6 + Seq::empty() =~= s6);
        },
    }

    lemma_get_skip(s1, t2, "description"@);
    lemma_get_skip(s2, t3, "description"@);
    match a.description {
        Some(d) => {
            lemma_get_head("description"@, JsonView::Str(d), t4);
        },
        None => {
            lemma_get_skip(s3, t4, "description"@);
            lemma_get_skip(s4, t5, "description"@);
            lemma_get_skip(s5, s6, "description"@);
            lemma_get_skip(s6, Seq::empty(), "description"@);
            assert(s6 + Seq::empty() =~= s6);
        },
    }

    lemma_get_skip(s1, t2, "parts"@);
    lemma_get_skip(s2, t3, "parts"@);
    lemma_get_skip(s3, t4, "parts"@);
    lemma_get_head("parts"@, JsonView::Arr(spec_parts_to_json(a.parts)), t5);

    lemma_get_skip(s1, t2, "metadata"@);
    lemma_get_skip(s2, t3, "metadata"@);
    lemma_get_skip(s3, t4, "metadata"@);
    lemma_get_skip(s4, t5, "metadata"@);
    match a.metadata {
        Some(md) => {
            lemma_get_head("metadata"@, md, s6);
        },
        None => {
            lemma_get_skip(s5, s6, "metadata"@);
            lemma_get_skip(s6, Seq::empty(), "metadata"@);
            assert(s6 + Seq::empty() =~= s6);
        },
    }

    lemma_get_skip(s1, t2, "extensions"@);
    lemma_get_skip(s2, t3, "extensions"@);
    lemma_get_skip(s3, t4, "extensions"@);
    lemma_get_skip(s4, t5, "extensions"@);
    lemma_get_skip(s5, s6, "extensions"@);
    if a.extensions.len() == 0 {
        lemma_get_skip(s6, Seq::empty(), "extensions"@);
        assert(s6 + Seq::empty() =~= s6);
    } else {
        assert(s6 =~= seq![("extensions"@, JsonView::Arr(spec_strs_to_json(a.extensions)))]
            + Seq::empty());
        lemma_get_head("extensions"@, JsonView::Arr(spec_strs_to_json(a.extensions)),
            Seq::empty());
    }
}

/// Artifacts decode back to the value they encode.
pub proof fn lemma_artifact_round_trip(a: ArtifactView)
    ensures
        spec_json_to_artifact(spec_artifact_to_json(a)) == Some(a),
{
    lemma_artifact_members_lookup(a);
    lemma_parts_round_trip(a.parts);
    if a.extensions.len() != 0 {
        lemma_strs_round_trip(a.extensions);
    } else {
        assert(a.extensions =~= Seq::<Seq<char>>::empty());
    }
}

/// Encode an artifact.
#[verifier::rlimit(30)]
pub fn artifact_to_value(a: &Artifact) -> (r: JsonValue)
    ensures
        r@ == spec_artifact_to_json(a@),
{
    let mut ms: Vec<(String, JsonValue)> = Vec::new();
    ms.push((String::from_str("artifact_id"), JsonValue::Str(a.artifact_id.clone())));
    match &a.name {
        Some(n) => {
            ms.push((String::from_str("name"), JsonValue::Str(n.clone())));
        },
        None => {},
    }
    match &a.description {
        Some(d) => {
            ms.push((String::from_str("description"), JsonValue::Str(d.clone())));
        },
        None => {},
    }
    ms.push((String::from_str("parts"), JsonValue::Arr(parts_to_values(&a.parts))));
    match &a.metadata {
        Some(md) => {
            ms.push((String::from_str("metadata"), md.clone()));
        },
        None => {},
    }
    if a.extensions.len() > 0 {
        ms.push((String::from_str("extensions"), JsonValue::Arr(strs_to_values(&a.extensions))));
    }
    let r = JsonValue::Obj(ms);
    proof {
        lemma_json_member_views_index(r->Obj_0@);
        assert(r@->Obj_0 =~= spec_artifact_members(a@));
    }
    r
}

/// Decode an artifact.
pub fn value_to_artifact(v: &JsonValue) -> (r: Option<Artifact>)
    ensures
        (match r {
            Some(a) => spec_json_to_artifact(v@) == Some(a@),
            None => spec_json_to_artifact(v@) is None,
        }),
{
    let is_obj = match v {
        JsonValue::Obj(_) => true,
        _ => false,
    };
    if !is_obj {
        return None;
    }
    let artifact_id = match v.get("artifact_id") {
        Some(field) => match field.as_str() {
            Some(s) => s.clone(),
            None => {
                return None;
            },
        },
        None => {
            return None;
        },
    };
    let parts = match v.get("parts") {
        Some(field) => match field {
            JsonValue::Arr(items) => match values_to_parts(items) {
                Some(parts) => parts,
                None => {
                    return None;
                },
            },
            _ => {
                return None;
            },
        },
        None => {
            return None;
        },
    };
    let name = match get_opt_str_field(v, "name") {
        Some(opt) => opt,
        None => {
            return None;
        },
    };
    let description = match get_opt_str_field(v, "description") {
        Some(opt) => opt,
        None => {
            return None;
        },
    };
    let metadata = get_opt_val_field(v, "metadata");
    let extensions = match v.get("extensions") {
        Some(field) => match field {
            JsonValue::Arr(items) => match values_to_strs(items) {
                Some(strs) => strs,
                None => {
                    return None;
                },
            },
            _ => {
                return None;
            },
        },
        None => Vec::new(),
    };
    let r = Artifact { artifact_id, name, description, parts, metadata, extensions };
    proof {
        if !spec_obj_has_key(v@->Obj_0, "extensions"@) {
            assert(r@.extensions =~= Seq::<Seq<char>>::empty());
        }
    }
    Some(r)
}

// --- artifact and message lists --------------------------------------------

/// A list of artifacts as JSON documents.
pub open spec fn spec_artifacts_to_json(s: Seq<ArtifactView>) -> Seq<JsonView>
    decreases s.len(),
{
    if s.len() == 0 {
        Seq::empty()
    } else {
        seq![spec_artifact_to_json(s[0])] + spec_artifacts_to_json(s.drop_first())
    }
}

pub proof fn lemma_artifacts_to_json_index(s: Seq<ArtifactView>)
    ensures
        spec_artifacts_to_json(s).len() == s.len(),
        forall|i: int| 0 <= i < s.len()
            ==> spec_artifacts_to_json(s)[i] == spec_artifact_to_json(s[i]),
    decreases s.len(),
{
    if s.len() > 0 {
        lemma_artifacts_to_json_index(s.drop_first());
    }
}

/// The artifact list a list of JSON documents denotes.
pub open spec fn spec_json_to_artifacts(s: Seq<JsonView>) -> Option<Seq<ArtifactView>>
    decreases s.len(),
{
    if s.len() == 0 {
        Some(Seq::empty())
    } else {
        match (spec_json_to_artifact(s[0]), spec_json_to_artifacts(s.drop_first())) {
            (Some(a), Some(rest)) => Some(seq![a] + rest),
            _ => None,
        }
    }
}

/// Artifact lists decode back to the value they encode.
pub proof fn lemma_artifacts_round_trip(s: Seq<ArtifactView>)
    ensures
        spec_json_to_artifacts(spec_artifacts_to_json(s)) == Some(s),
    decreases s.len(),
{
    if s.len() == 0 {
        assert(s =~= Seq::<ArtifactView>::empty());
    } else {
        lemma_artifact_round_trip(s[0]);
        lemma_artifacts_round_trip(s.drop_first());
        let js = spec_artifacts_to_json(s);
        assert(js.drop_first() =~= spec_artifacts_to_json(s.drop_first()));
        assert(seq![s[0]] + s.drop_first() =~= s);
    }
}

/// Encode a list of artifacts.
#[verifier::loop_isolation(false)]
pub fn artifacts_to_values(arts: &Vec<Artifact>) -> (r: Vec<JsonValue>)
    ensures
        json_views(r@) == spec_artifacts_to_json(arts.deep_view()),
{
    let ghost gs = arts.deep_view();
    let mut out: Vec<JsonValue> = Vec::new();
    let mut k: usize = 0;
    while k < arts.len()
        invariant
            k <= arts@.len(),
            gs.len() == arts@.len(),
            forall|j: int| 0 <= j < gs.len() ==> gs[j] == arts@[j]@,
            out@.len() == k,
            forall|j: int| 0 <= j < k ==> out@[j]@ == spec_artifact_to_json(gs[j]),
        decreases arts@.len() - k,
    {
        out.push(artifact_to_value(&arts[k]));
        k += 1;
    }
    proof {
        lemma_json_views_index(out@);
        lemma_artifacts_to_json_index(gs);
        assert(json_views(out@) =~= spec_artifacts_to_json(gs));
    }
    out
}

proof fn lemma_json_to_artifacts_fail(s: Seq<JsonView>, i: int)
    requires
        0 <= i < s.len(),
        spec_json_to_artifact(s[i]) is None,
    ensures
        spec_json_to_artifacts(s) is None,
    decreases i,
{
    if i > 0 {
        lemma_json_to_artifacts_fail(s.drop_first(), i - 1);
    }
}

proof fn lemma_json_to_artifacts_ok(s: Seq<JsonView>, out: Seq<ArtifactView>)
    requires
        s.len() == out.len(),
        forall|i: int| 0 <= i < s.len() ==> spec_json_to_artifact(s[i]) == Some(out[i]),
    ensures
        spec_json_to_artifacts(s) == Some(out),
    decreases s.len(),
{
    if s.len() == 0 {
        assert(out =~= Seq::<ArtifactView>::empty());
    } else {
        lemma_json_to_artifacts_ok(s.drop_first(), out.drop_first());
        assert(seq![out[0]] + out.drop_first() =~= out);
    }
}

/// A decoded list of artifacts.
pub type ArtifactList = Vec<Artifact>;

/// Decode a list of artifacts.
#[verifier::loop_isolation(false)]
pub fn values_to_artifacts(vals: &Vec<JsonValue>) -> (r: Option<ArtifactList>)
    ensures
        (match r {
            Some(arts) => spec_json_to_artifacts(json_views(vals@)) == Some(arts.deep_view()),
            None => spec_json_to_artifacts(json_views(vals@)) is None,
        }),
{
    proof {
        lemma_json_views_index(vals@);
    }
    let ghost gs = json_views(vals@);
    let mut out: Vec<Artifact> = Vec::new();
    let mut k: usize = 0;
    while k < vals.len()
        invariant
            k <= vals@.len(),
            out@.len() == k,
            forall|j: int| 0 <= j < k ==> spec_json_to_artifact(gs[j]) == Some(out@[j]@),
        decreases vals@.len() - k,
    {
        match value_to_artifact(&vals[k]) {
            Some(a) => {
                out.push(a);
            },
            None => {
                proof {
                    lemma_json_to_artifacts_fail(gs, k as int);
                }
                return None;
            },
        }
        k += 1;
    }
    proof {
        lemma_json_to_artifacts_ok(gs, out.deep_view());
    }
    Some(out)
}

/// A list of messages as JSON documents.
pub open spec fn spec_messages_to_json(s: Seq<MessageView>) -> Seq<JsonView>
    decreases s.len(),
{
    if s.len() == 0 {
        Seq::empty()
    } else {
        seq![spec_message_to_json(s[0])] + spec_messages_to_json(s.drop_first())
    }
}

pub proof fn lemma_messages_to_json_index(s: Seq<MessageView>)
    ensures
        spec_messages_to_json(s).len() == s.len(),
        forall|i: int| 0 <= i < s.len()
            ==> spec_messages_to_json(s)[i] == spec_message_to_json(s[i]),
    decreases s.len(),
{
    if s.len() > 0 {
        lemma_messages_to_json_index(s.drop_first());
    }
}

/// The message list a list of JSON documents denotes.
pub open spec fn spec_json_to_messages(s: Seq<JsonView>) -> Option<Seq<MessageView>>
    decreases s.len(),
{
    if s.len() == 0 {
        Some(Seq::empty())
    } else {
        match (spec_json_to_message(s[0]), spec_json_to_messages(s.drop_first())) {
            (Some(m), Some(rest)) => Some(seq![m] + rest),
            _ => None,
        }
    }
}

/// A message decodes back to its encoding even without its invariant.
proof fn lemma_message_round_trip_raw(m: MessageView)
    ensures
        spec_json_to_message(spec_message_to_json(m)) == Some(m),
{
    lemma_message_members_lookup(m);
    lemma_role_round_trip(m.role);
    lemma_parts_round_trip(m.parts);
}

/// Message lists decode back to the value they encode.
pub proof fn lemma_messages_round_trip(s: Seq<MessageView>)
    ensures
        spec_json_to_messages(spec_messages_to_json(s)) == Some(s),
    decreases s.len(),
{
    if s.len() == 0 {
        assert(s =~= Seq::<MessageView>::empty());
    } else {
        lemma_message_round_trip_raw(s[0]);
        lemma_messages_round_trip(s.drop_first());
        let js = spec_messages_to_json(s);
        assert(js.drop_first() =~= spec_messages_to_json(s.drop_first()));
        assert(seq![s[0]] + s.drop_first() =~= s);
    }
}

/// Encode a list of messages.
#[verifier::loop_isolation(false)]
pub fn messages_to_values(msgs: &Vec<Message>) -> (r: Vec<JsonValue>)
    ensures
        json_views(r@) == spec_messages_to_json(msgs.deep_view()),
{
    let ghost gs = msgs.deep_view();
    let mut out: Vec<JsonValue> = Vec::new();
    let mut k: usize = 0;
    while k < msgs.len()
        invariant
            k <= msgs@.len(),
            gs.len() == msgs@.len(),
            forall|j: int| 0 <= j < gs.len() ==> gs[j] == msgs@[j]@,
            out@.len() == k,
            forall|j: int| 0 <= j < k ==> out@[j]@ == spec_message_to_json(gs[j]),
        decreases msgs@.len() - k,
    {
        out.push(message_to_value(&msgs[k]));
        k += 1;
    }
    proof {
        lemma_json_views_index(out@);
        lemma_messages_to_json_index(gs);
        assert(json_views(out@) =~= spec_messages_to_json(gs));
    }
    out
}

proof fn lemma_json_to_messages_fail(s: Seq<JsonView>, i: int)
    requires
        0 <= i < s.len(),
        spec_json_to_message(s[i]) is None,
    ensures
        spec_json_to_messages(s) is None,
    decreases i,
{
    if i > 0 {
        lemma_json_to_messages_fail(s.drop_first(), i - 1);
    }
}

proof fn lemma_json_to_messages_ok(s: Seq<JsonView>, out: Seq<MessageView>)
    requires
        s.len() == out.len(),
        forall|i: int| 0 <= i < s.len() ==> spec_json_to_message(s[i]) == Some(out[i]),
    ensures
        spec_json_to_messages(s) == Some(out),
    decreases s.len(),
{
    if s.len() == 0 {
        assert(out =~= Seq::<MessageView>::empty());
    } else {
        lemma_json_to_messages_ok(s.drop_first(), out.drop_first());
        assert(seq![out[0]] + out.drop_first() =~= out);
    }
}

/// A decoded list of messages.
pub type MessageList = Vec<Message>;

/// Decode a list of messages.
#[verifier::loop_isolation(false)]
pub fn values_to_messages(vals: &Vec<JsonValue>) -> (r: Option<MessageList>)
    ensures
        (match r {
            Some(msgs) => spec_json_to_messages(json_views(vals@)) == Some(msgs.deep_view()),
            None => spec_json_to_messages(json_views(vals@)) is None,
        }),
{
    proof {
        lemma_json_views_index(vals@);
    }
    let ghost gs = json_views(vals@);
    let mut out: Vec<Message> = Vec::new();
    let mut k: usize = 0;
    while k < vals.len()
        invariant
            k <= vals@.len(),
            out@.len() == k,
            forall|j: int| 0 <= j < k ==> spec_json_to_message(gs[j]) == Some(out@[j]@),
        decreases vals@.len() - k,
    {
        match value_to_message(&vals[k]) {
            Some(m) => {
                out.push(m);
            },
            None => {
                proof {
                    lemma_json_to_messages_fail(gs, k as int);
                }
                return None;
            },
        }
        k += 1;
    }
    proof {
        lemma_json_to_messages_ok(gs, out.deep_view());
    }
    Some(out)
}

// --- tasks ------------------------------------------------------------------

/// The members of a task object, in encoding order. The artifact and
/// history lists are omitted when empty.
pub open spec fn spec_task_members(t: TaskView) -> Seq<(Seq<char>, JsonView)> {
    seq![("id"@, JsonView::Str(t.id))]
        + seq![("status"@, JsonView::Str(spec_status_str(t.status)))]
        + seq![("input"@, spec_message_to_json(t.input))]
        + (match t.output {
            Some(m) => seq![("output"@, spec_message_to_json(m))],
            None => Seq::empty(),
        })
        + (match t.error {
            Some(e) => seq![("error"@, spec_task_error_to_json(e))],
            None => Seq::empty(),
        })
        + seq![("createdAt"@, JsonView::Str(t.created_at))]
        + spec_opt_str_member("updatedAt"@, t.updated_at)
        + spec_opt_str_member("contextId"@, t.context_id)
        + (if t.artifacts.len() == 0 {
            Seq::empty()
        } else {
            seq![("artifacts"@, JsonView::Arr(spec_artifacts_to_json(t.artifacts)))]
        })
        + (if t.history.len() == 0 {
            Seq::empty()
        } else {
            seq![("history"@, JsonView::Arr(spec_messages_to_json(t.history)))]
        })
}

/// A task as a JSON document.
pub open spec fn spec_task_to_json(t: TaskView) -> JsonView {
    JsonView::Obj(spec_task_members(t))
}

/// The task a JSON document denotes. Missing artifact and history lists
/// stand for empty ones.
pub open spec fn spec_json_to_task(v: JsonView) -> Option<TaskView> {
    match v {
        JsonView::Obj(ms) => {
            if spec_obj_has_key(ms, "id"@) && spec_obj_has_key(ms, "status"@)
                && spec_obj_has_key(ms, "input"@) && spec_obj_has_key(ms, "createdAt"@) {
                match (spec_obj_get(ms, "id"@), spec_obj_get(ms, "status"@),
                    spec_obj_get(ms, "input"@), spec_obj_get(ms, "createdAt"@)) {
                    (JsonView::Str(id), JsonView::Str(st), input_v, JsonView::Str(created_at)) => {
                        match (spec_str_status(st), spec_json_to_message(input_v),
                            spec_json_to_task_output(ms), spec_json_to_task_err_field(ms),
                            spec_opt_str_field(ms, "updatedAt"@),
                            spec_opt_str_field(ms, "contextId"@),
                            spec_json_to_task_artifacts(ms), spec_json_to_task_history(ms)) {
                            (Some(status), Some(input), Some(output), Some(error),
                                Some(updated_at), Some(context_id), Some(artifacts),
                                Some(history)) => Some(TaskView {
                                id,
                                status,
                                input,
                                output,
                                error,
                                created_at,
                                updated_at,
                                context_id,
                                artifacts,
                                history,
                            }),
                            _ => None,
                        }
                    },
                    _ => None,
                }
            } else {
                None
            }
        },
        _ => None,
    }
}

/// The optional output message of a task object.
pub open spec fn spec_json_to_task_output(
    ms: Seq<(Seq<char>, JsonView)>,
) -> Option<Option<MessageView>> {
    if spec_obj_has_key(ms, "output"@) {
        match spec_json_to_message(spec_obj_get(ms, "output"@)) {
            Some(m) => Some(Some(m)),
            None => None,
        }
    } else {
        Some(None)
    }
}

/// The optional error of a task object.
pub open spec fn spec_json_to_task_err_field(
    ms: Seq<(Seq<char>, JsonView)>,
) -> Option<Option<TaskErrorView>> {
    if spec_obj_has_key(ms, "error"@) {
        match spec_json_to_task_error(spec_obj_get(ms, "error"@)) {
            Some(e) => Some(Some(e)),
            None => None,
        }
    } else {
        Some(None)
    }
}

/// The artifact list of a task object, empty when absent.
pub open spec fn spec_json_to_task_artifacts(
    ms: Seq<(Seq<char>, JsonView)>,
) -> Option<Seq<ArtifactView>> {
    if spec_obj_has_key(ms, "artifacts"@) {
        match spec_obj_get(ms, "artifacts"@) {
            JsonView::Arr(items) => spec_json_to_artifacts(items),
            _ => None,
        }
    } else {
        Some(Seq::empty())
    }
}

/// The history list of a task object, empty when absent.
pub open spec fn spec_json_to_task_history(
    ms: Seq<(Seq<char>, JsonView)>,
) -> Option<Seq<MessageView>> {
    if spec_obj_has_key(ms, "history"@) {
        match spec_obj_get(ms, "history"@) {
            JsonView::Arr(items) => spec_json_to_messages(items),
            _ => None,
        }
    } else {
        Some(Seq::empty())
    }
}

proof fn reveal_task_keys()
    ensures
        "id"@ != "status"@ && "id"@ != "input"@ && "id"@ != "output"@ && "id"@ != "error"@
            && "id"@ != "createdAt"@ && "id"@ != "updatedAt"@ && "id"@ != "contextId"@
            && "id"@ != "artifacts"@ && "id"@ != "history"@,
        "status"@ != "input"@ && "status"@ != "output"@ && "status"@ != "error"@
            && "status"@ != "createdAt"@ && "status"@ != "updatedAt"@
            && "status"@ != "contextId"@ && "status"@ != "artifacts"@
            && "status"@ != "history"@,
        "input"@ != "output"@ && "input"@ != "error"@ && "input"@ != "createdAt"@
            && "input"@ != "updatedAt"@ && "input"@ != "contextId"@
            && "input"@ != "artifacts"@ && "input"@ != "history"@,
        "output"@ != "error"@ && "output"@ != "createdAt"@ && "output"@ != "updatedAt"@
            && "output"@ != "contextId"@ && "output"@ != "artifacts"@
            && "output"@ != "history"@,
        "error"@ != "createdAt"@ && "error"@ != "updatedAt"@ && "error"@ != "contextId"@
            && "error"@ != "artifacts"@ && "error"@ != "history"@,
        "createdAt"@ != "updatedAt"@ && "createdAt"@ != "contextId"@
            && "createdAt"@ != "artifacts"@ && "createdAt"@ != "history"@,
        "updatedAt"@ != "contextId"@ && "updatedAt"@ != "artifacts"@
            && "updatedAt"@ != "history"@,
        "contextId"@ != "artifacts"@ && "contextId"@ != "history"@,
        "artifacts"@ != "history"@,
{
    reveal_strlit("id");
    reveal_strlit("status");
    reveal_strlit("input");
    reveal_strlit("output");
    reveal_strlit("error");
    reveal_strlit("createdAt");
    reveal_strlit("updatedAt");
    reveal_strlit("contextId");
    reveal_strlit("artifacts");
    reveal_strlit("history");
    assert("id"@.len() == 2);
    assert("status"@.len() == 6);
    assert("input"@.len() == 5);
    assert("output"@.len() == 6);
    assert("error"@.len() == 5);
    assert("createdAt"@.len() == 9);
    assert("updatedAt"@.len() == 9);
    assert("contextId"@.len() == 9);
    assert("artifacts"@.len() == 9);
    assert("history"@.len() == 7);
    assert("status"@[0] == 's');
    assert("output"@[0] == 'o');
    assert("input"@[0] == 'i');
    assert("error"@[0] == 'e');
    assert("createdAt"@[0] == 'c');
    assert("updatedAt"@[0] == 'u');
    assert("contextId"@[0] == 'c');
    assert("artifacts"@[0] == 'a');
    assert("createdAt"@[1] == 'r');
    assert("contextId"@[1] == 'o');
}

/// Each lookup of a task key finds the member the encoder wrote.
#[verifier::rlimit(100)]
proof fn lemma_task_members_lookup(t: TaskView)
    ensures
        spec_obj_has_key(spec_task_members(t), "id"@),
        spec_obj_get(spec_task_members(t), "id"@) == JsonView::Str(t.id),
        spec_obj_has_key(spec_task_members(t), "status"@),
        spec_obj_get(spec_task_members(t), "status"@)
            == JsonView::Str(spec_status_str(t.status)),
        spec_obj_has_key(spec_task_members(t), "input"@),
        spec_obj_get(spec_task_members(t), "input"@) == spec_message_to_json(t.input),
        spec_obj_has_key(spec_task_members(t), "output"@) == (t.output is Some),
        t.output matches Some(m) ==> spec_obj_get(spec_task_members(t), "output"@)
            == spec_message_to_json(m),
        spec_obj_has_key(spec_task_members(t), "error"@) == (t.error is Some),
        t.error matches Some(e) ==> spec_obj_get(spec_task_members(t), "error"@)
            == spec_task_error_to_json(e),
        spec_obj_has_key(spec_task_members(t), "createdAt"@),
        spec_obj_get(spec_task_members(t), "createdAt"@) == JsonView::Str(t.created_at),
        spec_opt_str_field(spec_task_members(t), "updatedAt"@) == Some(t.updated_at),
        spec_opt_str_field(spec_task_members(t), "contextId"@) == Some(t.context_id),
        spec_obj_has_key(spec_task_members(t), "artifacts"@) == (t.artifacts.len() != 0),
        t.artifacts.len() != 0 ==> spec_obj_get(spec_task_members(t), "artifacts"@)
            == JsonView::Arr(spec_artifacts_to_json(t.artifacts)),
        spec_obj_has_key(spec_task_members(t), "history"@) == (t.history.len() != 0),
        t.history.len() != 0 ==> spec_obj_get(spec_task_members(t), "history"@)
            == JsonView::Arr(spec_messages_to_json(t.history)),
{
    reveal_task_keys();
    let s1 = seq![("id"@, JsonView::Str(t.id))];
    let s2 = seq![("status"@, JsonView::Str(spec_status_str(t.status)))];
    let s3 = seq![("input"@, spec_message_to_json(t.input))];
    let s4 = match t.output {
        Some(m) => seq![("output"@, spec_message_to_json(m))],
        None => Seq::<(Seq<char>, JsonView)>::empty(),
    };
    let s5 = match t.error {
        Some(e) => seq![("error"@, spec_task_error_to_json(e))],
        None => Seq::<(Seq<char>, JsonView)>::empty(),
    };
    let s6 = seq![("createdAt"@, JsonView::Str(t.created_at))];
    let s7 = spec_opt_str_member("updatedAt"@, t.updated_at);
    let s8 = spec_opt_str_member("contextId"@, t.context_id);
    let s9 = if t.artifacts.len() == 0 {
        Seq::<(Seq<char>, JsonView)>::empty()
    } else {
        seq![("artifacts"@, JsonView::Arr(spec_artifacts_to_json(t.artifacts)))]
    };
    let s10 = if t.history.len() == 0 {
        Seq::<(Seq<char>, JsonView)>::empty()
    } else {
        seq![("history"@, JsonView::Arr(spec_messages_to_json(t.history)))]
    };
    let t9 = s9 + s10;
    let t8 = s8 + t9;
    let t7 = s7 + t8;
    let t6 = s6 + t7;
    let t5 = s5 + t6;
    let t4 = s4 + t5;
    let t3 = s3 + t4;
    let t2 = s2 + t3;
    let ms = spec_task_members(t);
    assert(ms =~= s1 + t2);

    lemma_get_head("id"@, JsonView::Str(t.id), t2);

    lemma_get_skip(s1, t2, "status"@);
    lemma_get_head("status"@, JsonView::Str(spec_status_str(t.status)), t3);

    lemma_get_skip(s1, t2, "input"@);
    lemma_get_skip(s2, t3, "input"@);
    lemma_get_head("input"@, spec_message_to_json(t.input), t4);

    lemma_get_skip(s1, t2, "output"@);
    lemma_get_skip(s2, t3, "output"@);
    lemma_get_skip(s3, t4, "output"@);
    match t.output {
        Some(m) => {
            lemma_get_head("output"@, spec_message_to_json(m), t5);
        },
        None => {
            lemma_get_skip(s4, t5, "output"@);
            lemma_get_skip(s5, t6, "output"@);
            lemma_get_skip(s6, t7, "output"@);
            lemma_get_skip(s7, t8, "output"@);
            lemma_get_skip(s8, t9, "output"@);
            lemma_get_skip(s9, s10, "output"@);
            lemma_get_skip(s10, Seq::empty(), "output"@);
            assert(s10 + Seq::empty() =~= s10);
        },
    }

    lemma_get_skip(s1, t2, "error"@);
    lemma_get_skip(s2, t3, "error"@);
    lemma_get_skip(s3, t4, "error"@);
    lemma_get_skip(s4, t5, "error"@);
    match t.error {
        Some(e) => {
            lemma_get_head("error"@, spec_task_error_to_json(e), t6);
        },
        None => {
            lemma_get_skip(s5, t6, "error"@);
            lemma_get_skip(s6, t7, "error"@);
            lemma_get_skip(s7, t8, "error"@);
            lemma_get_skip(s8, t9, "error"@);
            lemma_get_skip(s9, s10, "error"@);
            lemma_get_skip(s10, Seq::empty(), "error"@);
            assert(s10 + Seq::empty() =~= s10);
        },
    }

    lemma_get_skip(s1, t2, "createdAt"@);
    lemma_get_skip(s2, t3, "createdAt"@);
    lemma_get_skip(s3, t4, "createdAt"@);
    lemma_get_skip(s4, t5, "createdAt"@);
    lemma_get_skip(s5, t6, "createdAt"@);
    lemma_get_head("createdAt"@, JsonView::Str(t.created_at), t7);

    lemma_get_skip(s1, t2, "updatedAt"@);
    lemma_get_skip(s2, t3, "updatedAt"@);
    lemma_get_skip(s3, t4, "updatedAt"@);
    lemma_get_skip(s4, t5, "updatedAt"@);
    lemma_get_skip(s5, t6, "updatedAt"@);
    lemma_get_skip(s6, t7, "updatedAt"@);
    match t.updated_at {
        Some(s) => {
            lemma_get_head("updatedAt"@, JsonView::Str(s), t8);
        },
        None => {
            lemma_get_skip(s7, t8, "updatedAt"@);
            lemma_get_skip(s8, t9, "updatedAt"@);
            lemma_get_skip(s9, s10, "updatedAt"@);
            lemma_get_skip(s10, Seq::empty(), "updatedAt"@);
            assert(s10 + Seq::empty() =~= s10);
        },
    }

    lemma_get_skip(s1, t2, "contextId"@);
    lemma_get_skip(s2, t3, "contextId"@);
    lemma_get_skip(s3, t4, "contextId"@);
    lemma_get_skip(s4, t5, "contextId"@);
    lemma_get_skip(s5, t6, "contextId"@);
    lemma_get_skip(s6, t7, "contextId"@);
    lemma_get_skip(s7, t8, "contextId"@);
    match t.context_id {
        Some(s) => {
            lemma_get_head("contextId"@, JsonView::Str(s), t9);
        },
        None => {
            lemma_get_skip(s8, t9, "contextId"@);
            lemma_get_skip(s9, s10, "contextId"@);
            lemma_get_skip(s10, Seq::empty(), "contextId"@);
            assert(s10 + Seq::empty() =~= s10);
        },
    }

    lemma_get_skip(s1, t2, "artifacts"@);
    lemma_get_skip(s2, t3, "artifacts"@);
    lemma_get_skip(s3, t4, "artifacts"@);
    lemma_get_skip(s4, t5, "artifacts"@);
    lemma_get_skip(s5, t6, "artifacts"@);
    lemma_get_skip(s6, t7, "artifacts"@);
    lemma_get_skip(s7, t8, "artifacts"@);
    lemma_get_skip(s8, t9, "artifacts"@);
    if t.artifacts.len() == 0 {
        lemma_get_skip(s9, s10, "artifacts"@);
        lemma_get_skip(s10, Seq::empty(), "artifacts"@);
        assert(s10 + Seq::empty() =~= s10);
    } else {
        lemma_get_head("artifacts"@, JsonView::Arr(spec_artifacts_to_json(t.artifacts)), s10);
    }

    lemma_get_skip(s1, t2, "history"@);
    lemma_get_skip(s2, t3, "history"@);
    lemma_get_skip(s3, t4, "history"@);
    lemma_get_skip(s4, t5, "history"@);
    lemma_get_skip(s5, t6, "history"@);
    lemma_get_skip(s6, t7, "history"@);
    lemma_get_skip(s7, t8, "history"@);
    lemma_get_skip(s8, t9, "history"@);
    lemma_get_skip(s9, s10, "history"@);
    if t.history.len() == 0 {
        lemma_get_skip(s10, Seq::empty(), "history"@);
        assert(s10 + Seq::empty() =~= s10);
    } else {
        assert(s10 =~= seq![("history"@, JsonView::Arr(spec_messages_to_json(t.history)))]
            + Seq::empty());
        lemma_get_head("history"@, JsonView::Arr(spec_messages_to_json(t.history)),
            Seq::empty());
    }
}

/// Tasks decode back to the value they encode.
///
/// This is the round-trip law for the plain-JSON binding of tasks, at the
/// level of JSON documents, kebab-case statuses and camelCase keys included.
pub proof fn lemma_task_round_trip(t: TaskView)
    ensures
        spec_json_to_task(spec_task_to_json(t)) == Some(t),
{
    lemma_task_members_lookup(t);
    lemma_status_round_trip(t.status);
    lemma_message_round_trip_raw(t.input);
    match t.output {
        Some(m) => {
            lemma_message_round_trip_raw(m);
        },
        None => {},
    }
    match t.error {
        Some(e) => {
            lemma_task_error_round_trip(e);
        },
        None => {},
    }
    if t.artifacts.len() != 0 {
        lemma_artifacts_round_trip(t.artifacts);
    } else {
        assert(t.artifacts =~= Seq::<ArtifactView>::empty());
    }
    if t.history.len() != 0 {
        lemma_messages_round_trip(t.history);
    } else {
        assert(t.history =~= Seq::<MessageView>::empty());
    }
}

/// Encode a task.
#[verifier::rlimit(60)]
pub fn task_to_value(t: &Task) -> (r: JsonValue)
    ensures
        r@ == spec_task_to_json(t@),
{
    let mut ms: Vec<(String, JsonValue)> = Vec::new();
    ms.push((String::from_str("id"), JsonValue::Str(t.id.clone())));
    ms.push((String::from_str("status"), JsonValue::Str(status_to_string(t.status))));
    ms.push((String::from_str("input"), message_to_value(&t.input)));
    match &t.output {
        Some(m) => {
            ms.push((String::from_str("output"), message_to_value(m)));
        },
        None => {},
    }
    match &t.error {
        Some(e) => {
            ms.push((String::from_str("error"), task_error_to_value(e)));
        },
        None => {},
    }
    ms.push((String::from_str("createdAt"), JsonValue::Str(t.created_at.clone())));
    match &t.updated_at {
        Some(s) => {
            ms.push((String::from_str("updatedAt"), JsonValue::Str(s.clone())));
        },
        None => {},
    }
    match &t.context_id {
        Some(s) => {
            ms.push((String::from_str("contextId"), JsonValue::Str(s.clone())));
        },
        None => {},
    }
    if t.artifacts.len() > 0 {
        ms.push((String::from_str("artifacts"), JsonValue::Arr(artifacts_to_values(&t.artifacts))));
    }
    if t.history.len() > 0 {
        ms.push((String::from_str("history"), JsonValue::Arr(messages_to_values(&t.history))));
    }
    let r = JsonValue::Obj(ms);
    proof {
        lemma_json_member_views_index(r->Obj_0@);
        assert(r@->Obj_0 =~= spec_task_members(t@));
    }
    r
}

/// Decode a task.
#[verifier::rlimit(30)]
pub fn value_to_task(v: &JsonValue) -> (r: Option<Task>)
    ensures
        (match r {
            Some(t) => spec_json_to_task(v@) == Some(t@),
            None => spec_json_to_task(v@) is None,
        }),
{
    let is_obj = match v {
        JsonValue::Obj(_) => true,
        _ => false,
    };
    if !is_obj {
        return None;
    }
    let id = match v.get("id") {
        Some(field) => match field.as_str() {
            Some(s) => s.clone(),
            None => {
                return None;
            },
        },
        None => {
            return None;
        },
    };
    let status = match v.get("status") {
        Some(field) => match field.as_str() {
            Some(s) => match string_to_status(s.as_str()) {
                Some(status) => status,
                None => {
                    return None;
                },
            },
            None => {
                return None;
            },
        },
        None => {
            return None;
        },
    };
    let input = match v.get("input") {
        Some(field) => match value_to_message(field) {
            Some(m) => m,
            None => {
                return None;
            },
        },
        None => {
            return None;
        },
    };
    let created_at = match v.get("createdAt") {
        Some(field) => match field.as_str() {
            Some(s) => s.clone(),
            None => {
                return None;
            },
        },
        None => {
            return None;
        },
    };
    let output = match v.get("output") {
        Some(field) => match value_to_message(field) {
            Some(m) => Some(m),
            None => {
                return None;
            },
        },
        None => None,
    };
    let error = match v.get("error") {
        Some(field) => match value_to_task_error(field) {
            Some(e) => Some(e),
            None => {
                return None;
            },
        },
        None => None,
    };
    let updated_at = match get_opt_str_field(v, "updatedAt") {
        Some(opt) => opt,
        None => {
            return None;
        },
    };
    let context_id = match get_opt_str_field(v, "contextId") {
        Some(opt) => opt,
        None => {
            return None;
        },
    };
    let artifacts = match v.get("artifacts") {
        Some(field) => match field {
            JsonValue::Arr(items) => match values_to_artifacts(items) {
                Some(arts) => arts,
                None => {
                    return None;
                },
            },
            _ => {
                return None;
            },
        },
        None => Vec::new(),
    };
    let history = match v.get("history") {
        Some(field) => match field {
            JsonValue::Arr(items) => match values_to_messages(items) {
                Some(msgs) => msgs,
                None => {
                    return None;
                },
            },
            _ => {
                return None;
            },
        },
        None => Vec::new(),
    };
    let r = Task {
        id,
        status,
        input,
        output,
        error,
        created_at,
        updated_at,
        context_id,
        artifacts,
        history,
    };
    proof {
        if !spec_obj_has_key(v@->Obj_0, "artifacts"@) {
            assert(r@.artifacts =~= Seq::<ArtifactView>::empty());
        }
        if !spec_obj_has_key(v@->Obj_0, "history"@) {
            assert(r@.history =~= Seq::<MessageView>::empty());
        }
    }
    Some(r)
}

// --- optional fields on the wire -------------------------------------------

/// Optional message fields are written exactly when set, and never as
/// `null`: each optional key is present in the encoding exactly when the
/// model holds a value, and then it carries that value.
pub proof fn lemma_message_optional_fields(m: MessageView)
    ensures
        spec_obj_has_key(spec_message_members(m), "messageId"@) <==> m.message_id is Some,
        spec_obj_has_key(spec_message_members(m), "taskId"@) <==> m.task_id is Some,
        spec_obj_has_key(spec_message_members(m), "contextId"@) <==> m.context_id is Some,
        spec_obj_has_key(spec_message_members(m), "metadata"@) <==> m.metadata is Some,
        spec_obj_has_key(spec_message_members(m), "extensions"@) <==> m.extensions is Some,
        m.message_id matches Some(s) ==> spec_obj_get(spec_message_members(m), "messageId"@)
            == JsonView::Str(s),
        m.task_id matches Some(s) ==> spec_obj_get(spec_message_members(m), "taskId"@)
            == JsonView::Str(s),
        m.context_id matches Some(s) ==> spec_obj_get(spec_message_members(m), "contextId"@)
            == JsonView::Str(s),
        m.metadata matches Some(md) ==> spec_obj_get(spec_message_members(m), "metadata"@)
            == JsonView::Obj(md),
        m.extensions matches Some(ext) ==> spec_obj_get(spec_message_members(m), "extensions"@)
            == JsonView::Obj(ext),
{
    lemma_message_members_lookup(m);
}

/// Optional task fields are written exactly when set, and never as
/// `null`; the artifact and history lists are written exactly when
/// non-empty.
pub proof fn lemma_task_optional_fields(t: TaskView)
    ensures
        spec_obj_has_key(spec_task_members(t), "output"@) <==> t.output is Some,
        spec_obj_has_key(spec_task_members(t), "error"@) <==> t.error is Some,
        spec_obj_has_key(spec_task_members(t), "updatedAt"@) <==> t.updated_at is Some,
        spec_obj_has_key(spec_task_members(t), "contextId"@) <==> t.context_id is Some,
        spec_obj_has_key(spec_task_members(t), "artifacts"@) <==> t.artifacts.len() != 0,
        spec_obj_has_key(spec_task_members(t), "history"@) <==> t.history.len() != 0,
        t.output matches Some(m) ==> spec_obj_get(spec_task_members(t), "output"@)
            == spec_message_to_json(m),
        t.error matches Some(e) ==> spec_obj_get(spec_task_members(t), "error"@)
            == spec_task_error_to_json(e),
        t.updated_at matches Some(s) ==> spec_obj_get(spec_task_members(t), "updatedAt"@)
            == JsonView::Str(s),
        t.context_id matches Some(s) ==> spec_obj_get(spec_task_members(t), "contextId"@)
            == JsonView::Str(s),
{
    lemma_task_members_lookup(t);
}

} // verus!
