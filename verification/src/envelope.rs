//! The two response bodies of the remote interface, decoded from JSON.
//!
//! A page envelope is an object `{ ok, data: { list: [..] } }`; a result envelope is an
//! object with an optional `ok` and an optional `msg`. What each decoder accepts is a
//! spec function over [`Json`]; the executable decoders are proved against it.
use crate::json::{
    as_array, as_i64, as_str, as_u64, is_null, is_object, json_of, json_text, member, parse_value,
    Json,
};
use crate::text::{decimal_string, signed_decimal, signed_decimal_string};
use vstd::prelude::*;

verus! {

/// One post of the listed user.
#[derive(Debug, Clone, PartialEq, Eq)]
pub struct WeiboInfo {
    /// The identifier, kept as text whatever its encoding on the wire.
    pub id: String,
    pub text: Option<String>,
    pub created_at: Option<String>,
}

/// A [`WeiboInfo`] with its strings as character sequences.
pub struct ItemView {
    pub id: Seq<char>,
    pub text: Option<Seq<char>>,
    pub created_at: Option<Seq<char>>,
}

/// The characters of an optional string.
pub open spec fn text_view(text: Option<String>) -> Option<Seq<char>> {
    match text {
        Some(s) => Some(s@),
        None => None,
    }
}

impl View for WeiboInfo {
    type V = ItemView;

    open spec fn view(&self) -> ItemView {
        ItemView { id: self.id@, text: text_view(self.text), created_at: text_view(self.created_at) }
    }
}

/// The views of a sequence of items, in order.
pub open spec fn items_view(items: Seq<WeiboInfo>) -> Seq<ItemView> {
    items.map_values(|item: WeiboInfo| item@)
}

/// A decoded page: its status flag and its items.
#[derive(Debug, Clone, PartialEq, Eq)]
pub struct PageEnvelope {
    pub ok: i32,
    pub list: Vec<WeiboInfo>,
}

/// A [`PageEnvelope`] as a mathematical value.
pub struct PageView {
    pub ok: i32,
    pub list: Seq<ItemView>,
}

impl View for PageEnvelope {
    type V = PageView;

    open spec fn view(&self) -> PageView {
        PageView { ok: self.ok, list: items_view(self.list@) }
    }
}

/// A decoded answer to a mutation: the status flag and the message, each optional.
#[derive(Debug, Clone, PartialEq, Eq)]
pub struct ResultEnvelope {
    pub ok: Option<i32>,
    pub msg: Option<String>,
}

/// A [`ResultEnvelope`] as a mathematical value.
pub struct ResultView {
    pub ok: Option<i32>,
    pub msg: Option<Seq<char>>,
}

impl View for ResultEnvelope {
    type V = ResultView;

    open spec fn view(&self) -> ResultView {
        ResultView { ok: self.ok, msg: text_view(self.msg) }
    }
}

/// The view of an optional page envelope.
pub open spec fn page_view(page: Option<PageEnvelope>) -> Option<PageView> {
    match page {
        Some(p) => Some(p@),
        None => None,
    }
}

/// The view of an optional result envelope.
pub open spec fn result_view(envelope: Option<ResultEnvelope>) -> Option<ResultView> {
    match envelope {
        Some(e) => Some(e@),
        None => None,
    }
}

/// A status flag: an integer that fits in 32 bits.
pub open spec fn flag_of(j: Json) -> Option<i32> {
    match j {
        Json::Integer(n) if i32::MIN <= n <= i32::MAX => Some(n as i32),
        _ => None,
    }
}

/// An identifier as text. A string stands for itself; an integer becomes its decimal
/// numeral, digit for digit, however large it is.
pub open spec fn id_of(j: Json) -> Option<Seq<char>> {
    match j {
        Json::Text(t) => Some(t),
        Json::Integer(n) if i64::MIN <= n <= u64::MAX => Some(signed_decimal(n)),
        _ => None,
    }
}

/// An optional string member: absent and `null` both mean none. The outer `None` says
/// that the member is there with another type.
pub open spec fn optional_text(fields: Map<Seq<char>, Json>, key: Seq<char>) -> Option<
    Option<Seq<char>>,
> {
    if !fields.contains_key(key) {
        Some(None)
    } else {
        match fields[key] {
            Json::Null => Some(None),
            Json::Text(t) => Some(Some(t)),
            _ => None,
        }
    }
}

/// An optional status flag, read like [`optional_text`].
pub open spec fn optional_flag(fields: Map<Seq<char>, Json>, key: Seq<char>) -> Option<
    Option<i32>,
> {
    if !fields.contains_key(key) {
        Some(None)
    } else if fields[key] is Null {
        Some(None)
    } else if flag_of(fields[key]) is Some {
        Some(flag_of(fields[key]))
    } else {
        None
    }
}

/// An item: an object with an `id` and, optionally, `text` and `created_at`.
pub open spec fn item_of(j: Json) -> Option<ItemView> {
    match j {
        Json::Object(fields) => {
            if fields.contains_key("id"@) && id_of(fields["id"@]) is Some && optional_text(
                fields,
                "text"@,
            ) is Some && optional_text(fields, "created_at"@) is Some {
                Some(
                    ItemView {
                        id: id_of(fields["id"@]).unwrap(),
                        text: optional_text(fields, "text"@).unwrap(),
                        created_at: optional_text(fields, "created_at"@).unwrap(),
                    },
                )
            } else {
                None
            }
        },
        _ => None,
    }
}

/// The items of an array, in order; nothing where one element is no item.
pub open spec fn items_of(elements: Seq<Json>) -> Option<Seq<ItemView>> {
    if forall|i: int| 0 <= i < elements.len() ==> (#[trigger] item_of(elements[i])) is Some {
        Some(Seq::new(elements.len(), |i: int| item_of(elements[i]).unwrap()))
    } else {
        None
    }
}

/// The item list of a `data` member: an object whose `list` is an array of items.
pub open spec fn list_of(data: Json) -> Option<Seq<ItemView>> {
    match data {
        Json::Object(fields) => {
            if fields.contains_key("list"@) {
                match fields["list"@] {
                    Json::Array(elements) => items_of(elements),
                    _ => None,
                }
            } else {
                None
            }
        },
        _ => None,
    }
}

/// A page envelope: an object with a status flag `ok` and a `data` member that holds
/// the item list. Other members are ignored.
pub open spec fn page_of(j: Json) -> Option<PageView> {
    match j {
        Json::Object(fields) => {
            if fields.contains_key("ok"@) && flag_of(fields["ok"@]) is Some && fields.contains_key(
                "data"@,
            ) && list_of(fields["data"@]) is Some {
                Some(
                    PageView {
                        ok: flag_of(fields["ok"@]).unwrap(),
                        list: list_of(fields["data"@]).unwrap(),
                    },
                )
            } else {
                None
            }
        },
        _ => None,
    }
}

/// A result envelope: an object whose `ok`, where present, is a status flag and whose
/// `msg`, where present, is a string.
pub open spec fn result_of(j: Json) -> Option<ResultView> {
    match j {
        Json::Object(fields) => {
            if optional_flag(fields, "ok"@) is Some && optional_text(fields, "msg"@) is Some {
                Some(
                    ResultView {
                        ok: optional_flag(fields, "ok"@).unwrap(),
                        msg: optional_text(fields, "msg"@).unwrap(),
                    },
                )
            } else {
                None
            }
        },
        _ => None,
    }
}

/// The page envelope that a body holds, if it is JSON of that shape.
pub open spec fn page_of_text(body: Seq<char>) -> Option<PageView> {
    match json_text(body) {
        Some(j) => page_of(j),
        None => None,
    }
}

/// The result envelope that a body holds, if it is JSON of that shape.
pub open spec fn result_of_text(body: Seq<char>) -> Option<ResultView> {
    match json_text(body) {
        Some(j) => result_of(j),
        None => None,
    }
}

/// An identifier reads the same whether it arrives as a number or as the string of
/// that number's decimal digits.
pub proof fn id_encodings_agree(n: int)
    requires
        i64::MIN <= n <= u64::MAX,
    ensures
        id_of(Json::Integer(n)) == id_of(Json::Text(signed_decimal(n))),
        id_of(Json::Integer(n)) == Some(signed_decimal(n)),
{
}

fn read_flag(value: &serde_json::Value) -> (r: Option<i32>)
    ensures
        r == flag_of(json_of(*value)),
{
    match as_i64(value) {
        Some(n) => {
            if -2147483648 <= n && n <= 2147483647 {
                Some(n as i32)
            } else {
                None
            }
        },
        None => None,
    }
}

/// Reads an identifier, which the wire gives as a string or as a number.
fn read_id(value: &serde_json::Value) -> (r: Option<String>)
    ensures
        text_view(r) == id_of(json_of(*value)),
{
    match as_str(value) {
        Some(s) => Some(s.to_owned()),
        None => match as_u64(value) {
            Some(n) => Some(decimal_string(n)),
            None => match as_i64(value) {
                Some(n) => Some(signed_decimal_string(n)),
                None => None,
            },
        },
    }
}

fn read_optional_text(object: &serde_json::Value, key: &str) -> (r: Option<Option<String>>)
    requires
        json_of(*object) is Object,
    ensures
        match r {
            Some(t) => optional_text(json_of(*object)->Object_0, key@) == Some(text_view(t)),
            None => optional_text(json_of(*object)->Object_0, key@) is None,
        },
{
    match member(object, key) {
        None => Some(None),
        Some(value) => {
            if is_null(value) {
                Some(None)
            } else {
                match as_str(value) {
                    Some(s) => Some(Some(s.to_owned())),
                    None => None,
                }
            }
        },
    }
}

fn read_optional_flag(object: &serde_json::Value, key: &str) -> (r: Option<Option<i32>>)
    requires
        json_of(*object) is Object,
    ensures
        r == optional_flag(json_of(*object)->Object_0, key@),
{
    match member(object, key) {
        None => Some(None),
        Some(value) => {
            if is_null(value) {
                Some(None)
            } else {
                match read_flag(value) {
                    Some(n) => Some(Some(n)),
                    None => None,
                }
            }
        },
    }
}

fn read_item(value: &serde_json::Value) -> (r: Option<WeiboInfo>)
    ensures
        match r {
            Some(item) => item_of(json_of(*value)) == Some(item@),
            None => item_of(json_of(*value)) is None,
        },
{
    let id = match member(value, "id") {
        Some(v) => match read_id(v) {
            Some(id) => id,
            None => { return None; },
        },
        None => { return None; },
    };
    let text = match read_optional_text(value, "text") {
        Some(t) => t,
        None => { return None; },
    };
    let created_at = match read_optional_text(value, "created_at") {
        Some(t) => t,
        None => { return None; },
    };
    Some(WeiboInfo { id, text, created_at })
}

fn read_items(elements: &Vec<serde_json::Value>) -> (r: Option<Vec<WeiboInfo>>)
    ensures
        match r {
            Some(items) => items_of(elements@.map_values(|v: serde_json::Value| json_of(v)))
                == Some(items_view(items@)),
            None => items_of(elements@.map_values(|v: serde_json::Value| json_of(v))) is None,
        },
{
    let ghost docs = elements@.map_values(|v: serde_json::Value| json_of(v));
    let mut items: Vec<WeiboInfo> = Vec::new();
    let mut i: usize = 0;
    while i < elements.len()
        invariant
            i <= elements.len(),
            docs == elements@.map_values(|v: serde_json::Value| json_of(v)),
            items@.len() == i,
            forall|k: int| 0 <= k < i ==> item_of(docs[k]) == Some(#[trigger] items@[k]@),
        decreases elements.len() - i,
    {
        match read_item(&elements[i]) {
            Some(item) => {
                items.push(item);
            },
            None => {
                assert(item_of(docs[i as int]) is None);
                return None;
            },
        }
        i += 1;
    }
    proof {
        assert forall|k: int| 0 <= k < docs.len() implies (#[trigger] item_of(docs[k])) is Some by {
            assert(item_of(docs[k]) == Some(items@[k]@));
        }
        assert(items_of(docs).unwrap() =~= items_view(items@));
    }
    Some(items)
}

fn read_list(data: &serde_json::Value) -> (r: Option<Vec<WeiboInfo>>)
    ensures
        match r {
            Some(items) => list_of(json_of(*data)) == Some(items_view(items@)),
            None => list_of(json_of(*data)) is None,
        },
{
    match member(data, "list") {
        Some(list) => match as_array(list) {
            Some(elements) => {
                proof {
                    let docs = elements@.map_values(|v: serde_json::Value| json_of(v));
                    assert(docs =~= json_of(*list)->Array_0);
                }
                read_items(elements)
            },
            None => None,
        },
        None => None,
    }
}

/// Decodes the body of a page. Returns the envelope exactly where the body is a JSON
/// object of the page shape.
pub fn decode_page(body: &str) -> (r: Option<PageEnvelope>)
    ensures
        page_view(r) == page_of_text(body@),
{
    let value = match parse_value(body) {
        Ok(v) => v,
        Err(_) => { return None; },
    };
    let ok = match member(&value, "ok") {
        Some(flag) => match read_flag(flag) {
            Some(n) => n,
            None => { return None; },
        },
        None => { return None; },
    };
    let list = match member(&value, "data") {
        Some(data) => match read_list(data) {
            Some(items) => items,
            None => { return None; },
        },
        None => { return None; },
    };
    Some(PageEnvelope { ok, list })
}

/// Decodes the answer to a mutation. Returns the envelope exactly where the body is a
/// JSON object whose `ok` and `msg`, as far as present, have their types.
pub fn decode_result(body: &str) -> (r: Option<ResultEnvelope>)
    ensures
        result_view(r) == result_of_text(body@),
{
    let value = match parse_value(body) {
        Ok(v) => v,
        Err(_) => { return None; },
    };
    if !is_object(&value) {
        return None;
    }
    let ok = match read_optional_flag(&value, "ok") {
        Some(flag) => flag,
        None => { return None; },
    };
    let msg = match read_optional_text(&value, "msg") {
        Some(text) => text,
        None => { return None; },
    };
    Some(ResultEnvelope { ok, msg })
}

} // verus!
