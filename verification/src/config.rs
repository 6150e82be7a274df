//! The persisted device-definition document: the parsed form the library's
//! logic works on, and the delegated JSON encoding and decoding of it.
//!
//! The document is the object `{ "mdev_type": ..., "start": ...,
//! "attrs": [ {"name": "value"}, ... ] }`; attribute order is meaningful
//! and duplicates are permitted.

use vstd::prelude::*;

use crate::errors::MdevError;
use crate::strutil::attrs_view;
use crate::strutil::opt_view;

verus! {

/// The parsed definition document. A field is `None` where the document
/// lacks the key or holds a non-string under it.
#[derive(Debug)]
pub struct ConfigDoc {
    pub mdev_type: Option<String>,
    pub start: Option<String>,
    pub attrs: Vec<(String, String)>,
}

/// View of a document: type, start mode, and attribute pairs.
pub type DocView = (Option<Seq<char>>, Option<Seq<char>>, Seq<(Seq<char>, Seq<char>)>);

impl View for ConfigDoc {
    type V = DocView;

    open spec fn view(&self) -> DocView {
        (opt_view(self.mdev_type), opt_view(self.start), attrs_view(self.attrs@))
    }
}

/// What decoding the `mdev_type` and `start` fields of a definition text
/// yields: the two optional strings, or the decoder's message.
pub uninterp spec fn parsed_fields(text: Seq<char>) -> Result<
    (Option<Seq<char>>, Option<Seq<char>>),
    Seq<char>,
>;

/// What decoding the `attrs` array of a definition text yields: the
/// key/value pairs in array order, or the decoder's message.
pub uninterp spec fn parsed_attrs(text: Seq<char>) -> Result<
    Seq<(Seq<char>, Seq<char>)>,
    Seq<char>,
>;

/// What decoding a whole definition text yields: the document's view, or
/// the first decoder message.
pub open spec fn parsed_config(text: Seq<char>) -> Result<DocView, Seq<char>> {
    match parsed_fields(text) {
        Err(m) => Err(m),
        Ok(f) => match parsed_attrs(text) {
            Err(m) => Err(m),
            Ok(a) => Ok((f.0, f.1, a)),
        },
    }
}

/// Relies on `serde_json::from_str` and the `Value` accessors: decoding is
/// a pure function of the input text, and `mdev_type` and `start` are
/// taken as strings when present.
#[verifier::external_body]
fn parse_fields_raw(text: &str) -> (r: Result<(Option<String>, Option<String>), String>)
    ensures
        match r {
            Ok(f) => parsed_fields(text@) == Ok::<_, Seq<char>>((opt_view(f.0), opt_view(f.1))),
            Err(m) => parsed_fields(text@) == Err::<(Option<Seq<char>>, Option<Seq<char>>), _>(m@),
        },
{
    let v: serde_json::Value = match serde_json::from_str(text) {
        Ok(x) => x,
        Err(e) => return Err(e.to_string()),
    };
    let mdev_type = v.get("mdev_type").and_then(serde_json::Value::as_str).map(str::to_string);
    let start = v.get("start").and_then(serde_json::Value::as_str).map(str::to_string);
    Ok((mdev_type, start))
}

/// Relies on `serde_json::from_str` and the `Value` accessors: decoding is
/// a pure function of the input text; every entry of the `attrs` array
/// must be an object with string values. Entries are kept in array order;
/// the pairs within one entry follow the decoder's map order (an entry of
/// the documented shape holds exactly one pair, so its order is fixed).
#[verifier::external_body]
fn parse_attrs_raw(text: &str) -> (r: Result<Vec<(String, String)>, String>)
    ensures
        match r {
            Ok(a) => parsed_attrs(text@) == Ok::<_, Seq<char>>(attrs_view(a@)),
            Err(m) => parsed_attrs(text@) == Err::<Seq<(Seq<char>, Seq<char>)>, _>(m@),
        },
{
    let parsed: Result<serde_json::Value, serde_json::Error> = serde_json::from_str(text);
    let v = match parsed { Ok(x) => x, Err(e) => return Err(e.to_string()) };
    let mut attrs: Vec<(String, String)> = Vec::new();
    if let Some(arr) = v.get("attrs").and_then(serde_json::Value::as_array) {
        for a in arr {
            let obj = a.as_object().ok_or(String::from("malformed attrs entry"))?;
            for (k, val) in obj {
                let s = val.as_str().ok_or(String::from("malformed attrs entry"))?;
                attrs.push((k.clone(), s.to_string()));
            }
        }
    }
    Ok(attrs)
}

/// Decodes a definition text, mapping a decoder failure to a validation
/// error that carries the decoder's message.
pub fn parse_config(text: &str) -> (r: Result<ConfigDoc, MdevError>)
    ensures
        match r {
            Ok(c) => parsed_config(text@) == Ok::<DocView, Seq<char>>(c@),
            Err(e) => e matches MdevError::MalformedJson { msg } && parsed_config(text@)
                == Err::<DocView, Seq<char>>(msg@),
        },
{
    let fields = match parse_fields_raw(text) {
        Ok(f) => f,
        Err(m) => {
            return Err(MdevError::MalformedJson { msg: m });
        },
    };
    let attrs = match parse_attrs_raw(text) {
        Ok(a) => a,
        Err(m) => {
            return Err(MdevError::MalformedJson { msg: m });
        },
    };
    Ok(ConfigDoc { mdev_type: fields.0, start: fields.1, attrs })
}

/// The compact JSON encoding of a definition document.
pub uninterp spec fn device_json(
    mdev_type: Seq<char>,
    start: Seq<char>,
    attrs: Seq<(Seq<char>, Seq<char>)>,
) -> Seq<char>;

/// The compact JSON encoding of a definition document wrapped in an object
/// keyed by the device identity.
pub uninterp spec fn device_json_full(
    uuid: Seq<char>,
    mdev_type: Seq<char>,
    start: Seq<char>,
    attrs: Seq<(Seq<char>, Seq<char>)>,
) -> Seq<char>;

/// The pretty-printed JSON encoding of a definition document.
pub uninterp spec fn device_json_pretty(
    mdev_type: Seq<char>,
    start: Seq<char>,
    attrs: Seq<(Seq<char>, Seq<char>)>,
) -> Seq<char>;

/// Relies on `serde_json::Value`'s compact rendering over a map built from
/// the arguments: the text is a pure function of them — an object with the
/// keys `mdev_type`, `start` and `attrs`, the latter an array of
/// single-pair objects in the order given.
#[verifier::external_body]
pub fn render_device_json(
    mdev_type: &String,
    start: &String,
    attrs: &Vec<(String, String)>,
) -> (r: String)
    ensures
        r@ == device_json(mdev_type@, start@, attrs_view(attrs@)),
{
    let mut m = serde_json::Map::new();
    m.insert("mdev_type".to_string(), serde_json::Value::String(mdev_type.clone()));
    m.insert("start".to_string(), serde_json::Value::String(start.clone()));
    let mut arr: Vec<serde_json::Value> = Vec::new();
    for (k, v) in attrs {
        let mut o = serde_json::Map::new();
        o.insert(k.clone(), serde_json::Value::String(v.clone()));
        arr.push(serde_json::Value::Object(o));
    }
    m.insert("attrs".to_string(), serde_json::Value::Array(arr));
    serde_json::Value::Object(m).to_string()
}

/// Relies on `serde_json::Value`'s compact rendering, as
/// `render_device_json` does, with the document wrapped in an object keyed
/// by the identity text.
#[verifier::external_body]
pub fn render_device_json_full(
    uuid: &String,
    mdev_type: &String,
    start: &String,
    attrs: &Vec<(String, String)>,
) -> (r: String)
    ensures
        r@ == device_json_full(uuid@, mdev_type@, start@, attrs_view(attrs@)),
{
    let mut m = serde_json::Map::new();
    m.insert("mdev_type".to_string(), serde_json::Value::String(mdev_type.clone()));
    m.insert("start".to_string(), serde_json::Value::String(start.clone()));
    let mut arr: Vec<serde_json::Value> = Vec::new();
    for (k, v) in attrs {
        let mut o = serde_json::Map::new();
        o.insert(k.clone(), serde_json::Value::String(v.clone()));
        arr.push(serde_json::Value::Object(o));
    }
    m.insert("attrs".to_string(), serde_json::Value::Array(arr));
    let mut w = serde_json::Map::new();
    w.insert(uuid.clone(), serde_json::Value::Object(m));
    serde_json::Value::Object(w).to_string()
}

/// Relies on `serde_json::to_string_pretty` over the same map
/// `render_device_json` builds; pretty-printing a string-keyed value map
/// cannot fail.
#[verifier::external_body]
pub fn render_device_json_pretty(
    mdev_type: &String,
    start: &String,
    attrs: &Vec<(String, String)>,
) -> (r: String)
    ensures
        r@ == device_json_pretty(mdev_type@, start@, attrs_view(attrs@)),
{
    let mut m = serde_json::Map::new();
    m.insert("mdev_type".to_string(), serde_json::Value::String(mdev_type.clone()));
    m.insert("start".to_string(), serde_json::Value::String(start.clone()));
    let mut arr: Vec<serde_json::Value> = Vec::new();
    for (k, v) in attrs {
        let mut o = serde_json::Map::new();
        o.insert(k.clone(), serde_json::Value::String(v.clone()));
        arr.push(serde_json::Value::Object(o));
    }
    m.insert("attrs".to_string(), serde_json::Value::Array(arr));
    serde_json::to_string_pretty(&serde_json::Value::Object(m)).unwrap_or(String::new())
}

/// View of an optional borrowed string as an optional character sequence.
pub open spec fn opt_ref_view(o: Option<&String>) -> Option<Seq<char>> {
    match o {
        Some(s) => Some(s@),
        None => None,
    }
}

/// The JSON listing entry of a device type: an object keyed by the type
/// name, holding its capacity and device API, and a name and description
/// when given.
pub uninterp spec fn type_json(
    typename: Seq<char>,
    available: i32,
    api: Seq<char>,
    name: Option<Seq<char>>,
    descr: Option<Seq<char>>,
) -> Seq<char>;

/// Relies on `serde_json::Value`'s compact rendering over a map built from
/// the arguments: the text is a pure function of them — an object keyed by
/// the type name whose value holds `available_instances` and `device_api`,
/// plus `name` and `description` exactly when they are given.
#[verifier::external_body]
pub fn render_type_json(
    typename: &String,
    available: i32,
    api: &String,
    name: Option<&String>,
    descr: Option<&String>,
) -> (r: String)
    ensures
        r@ == type_json(typename@, available, api@, opt_ref_view(name), opt_ref_view(descr)),
{
    let mut o = serde_json::Map::new();
    o.insert("available_instances".to_string(), serde_json::Value::from(available));
    o.insert("device_api".to_string(), serde_json::Value::String(api.clone()));
    if let Some(n) = name {
        o.insert("name".to_string(), serde_json::Value::String(n.clone()));
    }
    if let Some(d) = descr {
        o.insert("description".to_string(), serde_json::Value::String(d.clone()));
    }
    let mut w = serde_json::Map::new();
    w.insert(typename.clone(), serde_json::Value::Object(o));
    serde_json::Value::Object(w).to_string()
}

} // verus!
