//! The calls into the TOML and JSON crates, and the library-side shapes of
//! the values that pass through them.
use vstd::prelude::*;

verus! {

/// A top-level member of a parsed document, as far as this library reads it.
pub enum Member {
    /// The document has no member of that name.
    Missing,
    /// The member is a string.
    Text(String),
    /// The member is an array; each item is `Some` of its text where it is a
    /// string, `None` otherwise.
    List(Vec<Option<String>>),
    /// The member is of another kind.
    Other,
}

/// The mathematical form of a [`Member`].
pub enum MemberView {
    Missing,
    Text(Seq<char>),
    List(Seq<Option<Seq<char>>>),
    Other,
}

pub open spec fn opt_text_view(o: Option<String>) -> Option<Seq<char>> {
    match o {
        Some(s) => Some(s@),
        None => None,
    }
}

impl View for Member {
    type V = MemberView;

    open spec fn view(&self) -> MemberView {
        match self {
            Member::Missing => MemberView::Missing,
            Member::Text(s) => MemberView::Text(s@),
            Member::List(items) => MemberView::List(items@.map_values(|o: Option<String>| opt_text_view(o))),
            Member::Other => MemberView::Other,
        }
    }
}

pub open spec fn opt_member_view(o: Option<Member>) -> Option<MemberView> {
    match o {
        Some(m) => Some(m@),
        None => None,
    }
}

/// A value of the JSON documents this library writes.
pub enum JsonItem {
    Str(String),
    Bool(bool),
    StrList(Vec<String>),
}

/// The mathematical form of a [`JsonItem`].
pub enum JsonView {
    Str(Seq<char>),
    Bool(bool),
    StrList(Seq<Seq<char>>),
}

pub open spec fn texts_view(v: Seq<String>) -> Seq<Seq<char>> {
    v.map_values(|s: String| s@)
}

impl View for JsonItem {
    type V = JsonView;

    open spec fn view(&self) -> JsonView {
        match self {
            JsonItem::Str(s) => JsonView::Str(s@),
            JsonItem::Bool(b) => JsonView::Bool(*b),
            JsonItem::StrList(l) => JsonView::StrList(texts_view(l@)),
        }
    }
}

pub open spec fn document_view(d: Seq<(String, JsonItem)>) -> Seq<(Seq<char>, JsonView)> {
    d.map_values(|m: (String, JsonItem)| (m.0@, m.1@))
}

/// What parsing `text` as TOML and looking up the top-level member `key`
/// gives: `None` where the text is no TOML document.
pub uninterp spec fn toml_member(text: Seq<char>, key: Seq<char>) -> Option<MemberView>;

/// What parsing `text` as JSON and looking up the top-level member `key`
/// gives: `None` where the text is no JSON document.
pub uninterp spec fn json_member(text: Seq<char>, key: Seq<char>) -> Option<MemberView>;

/// The pretty-printed JSON text of an object with these members.
pub uninterp spec fn pretty_json(members: Seq<(Seq<char>, JsonView)>) -> Seq<char>;

/// Relies on `toml::from_str` (into `toml::Value`) and `toml::Value::get`:
/// whether the text parses, and what the member is, depend on the text and
/// the key alone.
#[verifier::external_body]
pub(crate) fn read_toml_member(text: &str, key: &str) -> (r: Option<Member>)
    ensures
        opt_member_view(r) == toml_member(text@, key@),
{
    let doc: toml::Value = toml::from_str(text).ok()?;
    Some(match doc.get(key) {
        None => Member::Missing,
        Some(toml::Value::String(s)) => Member::Text(s.clone()),
        Some(toml::Value::Array(a)) => Member::List(a.iter().map(|i| i.as_str().map(String::from)).collect()),
        Some(_) => Member::Other,
    })
}

/// Relies on `serde_json::from_str` (into `serde_json::Value`) and
/// `serde_json::Value::get`: whether the text parses, and what the member is,
/// depend on the text and the key alone.
#[verifier::external_body]
pub(crate) fn read_json_member(text: &str, key: &str) -> (r: Option<Member>)
    ensures
        opt_member_view(r) == json_member(text@, key@),
{
    let doc: serde_json::Value = serde_json::from_str(text).ok()?;
    Some(match doc.get(key) {
        None => Member::Missing,
        Some(serde_json::Value::String(s)) => Member::Text(s.clone()),
        Some(serde_json::Value::Array(a)) => Member::List(a.iter().map(|i| i.as_str().map(String::from)).collect()),
        Some(_) => Member::Other,
    })
}

/// Relies on `serde_json::to_string_pretty` on a `serde_json::Value` object:
/// the text depends on the members alone.
#[verifier::external_body]
pub(crate) fn render_json(members: &Vec<(String, JsonItem)>) -> (r: String)
    ensures
        r@ == pretty_json(document_view(members@)),
{
    let mut map = serde_json::Map::new();
    for (k, v) in members.iter() {
        map.insert(k.clone(), match v {
            JsonItem::Str(s) => serde_json::Value::from(s.as_str()),
            JsonItem::Bool(b) => serde_json::Value::from(*b),
            JsonItem::StrList(l) => serde_json::Value::from(l.clone()),
        });
    }
    serde_json::to_string_pretty(&serde_json::Value::Object(map)).unwrap_or_default()
}

} // verus!
