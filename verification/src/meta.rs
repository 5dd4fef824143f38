use vstd::prelude::*;

verus! {

#[verifier::external_type_specification]
#[verifier::external_body]
#[verifier::reject_recursive_types(K)]
#[verifier::reject_recursive_types(V)]
pub struct ExTomlMap<K, V>(toml::map::Map<K, V>);

#[verifier::external_type_specification]
#[verifier::external_body]
pub struct ExTomlValue(toml::Value);

/// The date of a structured-metadata timestamp, as plain values.
#[derive(Clone, Copy, PartialEq, Eq, Structural, Debug)]
pub struct TomlDate {
    pub year: u16,
    pub month: u8,
    pub day: u8,
}

/// The time of day of a structured-metadata timestamp, as plain values; the
/// format allows the seconds to be left out.
#[derive(Clone, Copy, PartialEq, Eq, Structural, Debug)]
pub struct TomlTime {
    pub hour: u8,
    pub minute: u8,
    pub second: Option<u8>,
}

/// A structured-metadata timestamp: either part may be absent.
#[derive(Clone, Copy, PartialEq, Eq, Structural, Debug)]
pub struct TomlDatetime {
    pub date: Option<TomlDate>,
    pub time: Option<TomlTime>,
}

/// What the pipeline reads of one metadata value: a string, a timestamp, an
/// array of values, or anything else.
pub enum MetaVal {
    Str(Seq<char>),
    Time(TomlDatetime),
    List(Seq<MetaVal>),
    Other,
}

/// The model of a table with no fields.
pub open spec fn empty_model() -> Map<Seq<char>, MetaVal> {
    Map::empty()
}

/// The contents of a parsed metadata table: each key's value, keyed by the
/// key's characters.
pub uninterp spec fn table_model(t: toml::map::Map<String, toml::Value>) -> Map<
    Seq<char>,
    MetaVal,
>;

/// The table that parsing a text as structured data yields, or nothing when
/// the text is not well-formed.
pub uninterp spec fn toml_of(s: Seq<char>) -> Option<Map<Seq<char>, MetaVal>>;

/// Relies on toml::from_str for tables: parses the text as a TOML table; an
/// empty text parses to an empty table. The result depends on the text
/// alone. The error message is passed through unconstrained.
#[verifier::external_body]
pub(crate) fn parse_toml(s: &str) -> (r: Result<toml::map::Map<String, toml::Value>, String>)
    ensures
        r is Ok <==> toml_of(s@) is Some,
        r is Ok ==> table_model(r->Ok_0) == toml_of(s@)->0,
        s@.len() == 0 ==> r is Ok && table_model(r->Ok_0) == empty_model(),
{
    match toml::from_str::<toml::Table>(s) {
        Ok(t) => Ok(t),
        Err(e) => Err(e.to_string()),
    }
}

/// Relies on toml::map::Map::new: makes an empty table.
#[verifier::external_body]
pub(crate) fn new_table() -> (r: toml::map::Map<String, toml::Value>)
    ensures
        table_model(r) == empty_model(),
{
    toml::map::Map::new()
}

/// The string under a key, when the key is present and holds a string.
pub open spec fn str_field(m: Map<Seq<char>, MetaVal>, k: Seq<char>) -> Option<Seq<char>> {
    if m.dom().contains(k) && m[k] is Str {
        Some(m[k]->Str_0)
    } else {
        None
    }
}

/// The timestamp under a key, when the key is present and holds one.
pub open spec fn datetime_field(m: Map<Seq<char>, MetaVal>, k: Seq<char>) -> Option<
    TomlDatetime,
> {
    if m.dom().contains(k) && m[k] is Time {
        Some(m[k]->Time_0)
    } else {
        None
    }
}

/// The array under a key, when the key is present and holds one.
pub open spec fn array_field(m: Map<Seq<char>, MetaVal>, k: Seq<char>) -> Option<Seq<MetaVal>> {
    if m.dom().contains(k) && m[k] is List {
        Some(m[k]->List_0)
    } else {
        None
    }
}

/// Whether an element handed out of an array matches the value it models: the
/// string's characters for a string element, nothing otherwise.
pub open spec fn elem_matches(o: Option<String>, v: MetaVal) -> bool {
    match o {
        Option::Some(s) => v is Str && s@ == v->Str_0,
        Option::None => !(v is Str),
    }
}

/// Relies on toml::map::Map::get and toml::Value::as_str: the string value
/// under the key, when the key is present and holds a string.
#[verifier::external_body]
pub(crate) fn table_str_field(t: &toml::map::Map<String, toml::Value>, key: &str) -> (r: Option<
    String,
>)
    ensures
        match r {
            Option::Some(s) => str_field(table_model(*t), key@) == Some(s@),
            Option::None => str_field(table_model(*t), key@) is None,
        },
{
    t.get(key).and_then(|v| v.as_str()).map(|s| s.to_owned())
}

/// Relies on toml::map::Map::get and toml::Value::as_datetime: the timestamp
/// under the key, when the key is present and holds one; its parts are handed
/// over as plain values, without the sub-second part.
#[verifier::external_body]
pub(crate) fn table_datetime_field(t: &toml::map::Map<String, toml::Value>, key: &str) -> (r:
    Option<TomlDatetime>)
    ensures
        match r {
            Option::Some(dt) => datetime_field(table_model(*t), key@) == Some(dt),
            Option::None => datetime_field(table_model(*t), key@) is None,
        },
{
    t.get(key).and_then(|v| v.as_datetime()).map(|dt| TomlDatetime {
        date: dt.date.map(|d| TomlDate { year: d.year, month: d.month, day: d.day }),
        time: dt.time.map(|tm| TomlTime { hour: tm.hour, minute: tm.minute, second: tm.second }),
    })
}

/// Relies on toml::map::Map::get, toml::Value::as_array and
/// toml::Value::as_str: the array under the key, each element handed over as
/// its string content, or as nothing where the element is not a string.
#[verifier::external_body]
pub(crate) fn table_str_array_field(t: &toml::map::Map<String, toml::Value>, key: &str) -> (r:
    Option<Vec<Option<String>>>)
    ensures
        match r {
            Option::Some(v) => {
                &&& array_field(table_model(*t), key@) is Some
                &&& v@.len() == array_field(table_model(*t), key@)->0.len()
                &&& forall|i: int|
                    0 <= i < v@.len() ==> elem_matches(
                        #[trigger] v@[i],
                        array_field(table_model(*t), key@)->0[i],
                    )
            },
            Option::None => array_field(table_model(*t), key@) is None,
        },
{
    t.get(key).and_then(|v| v.as_array()).map(
        |arr| arr.iter().map(|x| x.as_str().map(|s| s.to_owned())).collect(),
    )
}

/// The sub-text of a source text at a byte range, or nothing when the range
/// does not lie on character boundaries of its encoding.
pub uninterp spec fn byte_slice_of(s: Seq<char>, start: int, end: int) -> Option<Seq<char>>;

/// Relies on str::get with a byte range: the sub-text at those byte offsets.
/// The result depends on the arguments alone.
#[verifier::external_body]
pub(crate) fn byte_slice(s: &str, start: usize, end: usize) -> (r: Option<String>)
    ensures
        match r {
            Option::Some(t) => byte_slice_of(s@, start as int, end as int) == Some(t@),
            Option::None => byte_slice_of(s@, start as int, end as int) is None,
        },
{
    s.get(start..end).map(|t| t.to_owned())
}

} // verus!
