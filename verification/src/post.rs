use vstd::prelude::*;

use crate::error::{Error, ErrorKind};
use crate::markdown::{
    html_of, metadata_span, scan_meta, starts_with_meta_fence, tokenize, tokens_of, has_meta_fence,
};
use crate::meta::{
    array_field, byte_slice, byte_slice_of, datetime_field, empty_model, new_table, parse_toml,
    str_field, table_datetime_field, table_model, table_str_array_field, table_str_field,
    toml_of, MetaVal, TomlDatetime, elem_matches,
};
use crate::text::{slug, slug_of};
use crate::time::{civil_secs, timestamp_from_parts, valid_date, valid_time, Timestamp};

verus! {

/// One source document, fully resolved: its attributes follow the layered
/// precedence rules — a well-typed metadata field wins, otherwise the
/// fallback (filename stem or placeholder for the title, filesystem creation
/// time for both timestamps, the empty sequence for keywords). A document is
/// immutable after construction.
pub struct Post {
    /// The originating file, as handed in by the caller.
    pub path: String,
    /// The resolved title.
    pub title: String,
    /// The markdown body rendered to HTML, the metadata block excluded.
    pub body: String,
    /// The full metadata table as parsed, kept verbatim so templates may read
    /// arbitrary custom fields; empty when the document has no metadata block.
    pub metadata: toml::map::Map<String, toml::Value>,
    pub created: Timestamp,
    pub modified: Timestamp,
    /// Keyword strings in declaration order; non-string entries are dropped.
    pub keywords: Vec<String>,
}

/// The mathematical content of a document: every resolved attribute, with
/// the metadata table abstracted to its contents.
pub struct DocModel {
    pub title: Seq<char>,
    pub body: Seq<char>,
    pub meta: Map<Seq<char>, MetaVal>,
    pub created: Timestamp,
    pub modified: Timestamp,
    pub keywords: Seq<Seq<char>>,
}

impl Post {
    pub open spec fn model(&self) -> DocModel {
        DocModel {
            title: self.title@,
            body: self.body@,
            meta: table_model(self.metadata),
            created: self.created,
            modified: self.modified,
            keywords: self.keywords.deep_view(),
        }
    }
}

/// The model of an optional table in hand.
pub open spec fn opt_table_model(m: Option<toml::map::Map<String, toml::Value>>) -> Option<
    Map<Seq<char>, MetaVal>,
> {
    match m {
        Option::Some(t) => Some(table_model(t)),
        Option::None => None,
    }
}

/// The canonical timestamp a structured-metadata timestamp denotes, or
/// nothing when it lacks a date or time part or they do not form a valid
/// calendar instant. Seconds left out count as zero.
pub open spec fn dt_timestamp(dt: TomlDatetime) -> Option<Timestamp> {
    match (dt.date, dt.time) {
        (Option::Some(d), Option::Some(t)) => {
            let sec = match t.second {
                Option::Some(s) => s as int,
                Option::None => 0,
            };
            if valid_date(d.year as int, d.month as int, d.day as int) && valid_time(
                t.hour as int,
                t.minute as int,
                sec,
            ) {
                Some(
                    Timestamp {
                        secs: civil_secs(
                            d.year as int,
                            d.month as int,
                            d.day as int,
                            t.hour as int,
                            t.minute as int,
                            sec,
                        ) as i64,
                        nanos: 0,
                    },
                )
            } else {
                None
            }
        },
        _ => None,
    }
}

/// Normalizes a structured-metadata timestamp, or reports it malformed.
pub fn timestamp_from_datetime(dt: &TomlDatetime) -> (r: Result<Timestamp, Error>)
    ensures
        r is Ok <==> dt_timestamp(*dt) is Some,
        r is Ok ==> r->Ok_0 == dt_timestamp(*dt)->0,
        r is Err ==> r->Err_0 is BadTimestamp,
{
    match (dt.date, dt.time) {
        (Some(d), Some(t)) => {
            let sec: u8 = match t.second {
                Some(s) => s,
                None => 0,
            };
            match timestamp_from_parts(d.year, d.month, d.day, t.hour, t.minute, sec) {
                Some(ts) => Ok(ts),
                None => Err(Error::BadTimestamp),
            }
        },
        _ => Err(Error::BadTimestamp),
    }
}

/// The resolved title: the metadata `title` field when present as a string,
/// else the filename stem, else a fixed placeholder.
pub open spec fn resolve_title(meta: Option<Map<Seq<char>, MetaVal>>, stem: Option<Seq<char>>) -> Seq<
    char,
> {
    let from_meta = match meta {
        Option::Some(m) => str_field(m, "title"@),
        Option::None => None,
    };
    match from_meta {
        Option::Some(t) => t,
        Option::None => match stem {
            Option::Some(s) => s,
            Option::None => "Title not found!"@,
        },
    }
}

/// The resolved timestamp under `key`: the metadata field when present as a
/// well-formed timestamp (a malformed one is an error, never silently
/// replaced), else the filesystem creation time, else an error when that
/// time is unavailable.
pub open spec fn resolve_time(
    meta: Option<Map<Seq<char>, MetaVal>>,
    key: Seq<char>,
    fs: Option<Timestamp>,
) -> Result<Timestamp, ErrorKind> {
    let from_meta = match meta {
        Option::Some(m) => datetime_field(m, key),
        Option::None => None,
    };
    match from_meta {
        Option::Some(dt) => match dt_timestamp(dt) {
            Option::Some(t) => Ok(t),
            Option::None => Err(ErrorKind::BadTimestamp),
        },
        Option::None => match fs {
            Option::Some(t) => Ok(t),
            Option::None => Err(ErrorKind::FsTime),
        },
    }
}

/// The string elements of an array of metadata values, in order; anything
/// that is not a string is silently dropped.
pub open spec fn strs_of(vs: Seq<MetaVal>) -> Seq<Seq<char>>
    decreases vs.len(),
{
    if vs.len() == 0 {
        Seq::empty()
    } else if vs.last() is Str {
        strs_of(vs.drop_last()).push(vs.last()->Str_0)
    } else {
        strs_of(vs.drop_last())
    }
}

/// The resolved keywords: the string elements of the metadata `keywords`
/// array, else the empty sequence.
pub open spec fn resolve_keywords(meta: Option<Map<Seq<char>, MetaVal>>) -> Seq<Seq<char>> {
    match meta {
        Option::Some(m) => match array_field(m, "keywords"@) {
            Option::Some(vs) => strs_of(vs),
            Option::None => Seq::empty(),
        },
        Option::None => Seq::empty(),
    }
}

/// The metadata table of a document that opens with a metadata fence, and
/// the number of events the block spans: the inner events' byte span is cut
/// out of the source text and parsed as structured data; a block with no
/// inner events yields the empty table without touching the text.
pub open spec fn meta_outcome(content: Seq<char>, toks: Seq<crate::markdown::MdToken>) -> Result<
    (Map<Seq<char>, MetaVal>, int),
    ErrorKind,
> {
    let scanned = scan_meta(toks, 0, 0, None);
    match scanned.1 {
        Option::None => Ok((empty_model(), scanned.0)),
        Option::Some((a, b)) => match byte_slice_of(content, a as int, b as int) {
            Option::None => Err(ErrorKind::Span),
            Option::Some(src) => match toml_of(src) {
                Option::None => Err(ErrorKind::Toml),
                Option::Some(m) => Ok((m, scanned.0)),
            },
        },
    }
}

/// The view of an optional filename stem.
pub open spec fn stem_view(stem: Option<&str>) -> Option<Seq<char>> {
    match stem {
        Option::Some(s) => Some(s@),
        Option::None => None,
    }
}

/// What parsing a source text resolves to: the whole pipeline — tokenize,
/// extract and parse the leading metadata block, render the remaining events
/// to HTML, resolve the attributes — as one function of the inputs. Parsing
/// is deterministic: equal inputs resolve equally.
pub open spec fn spec_parse(
    content: Seq<char>,
    stem: Option<Seq<char>>,
    fs: Option<Timestamp>,
) -> Result<DocModel, ErrorKind> {
    match tokens_of(content) {
        Option::None => Err(ErrorKind::BrokenLink),
        Option::Some(toks) => {
            let staged: Result<(Option<Map<Seq<char>, MetaVal>>, int), ErrorKind> = if starts_with_meta_fence(
                toks,
            ) {
                match meta_outcome(content, toks) {
                    Result::Ok(p) => Ok((Some(p.0), p.1)),
                    Result::Err(e) => Err(e),
                }
            } else {
                Ok((None, 0))
            };
            match staged {
                Result::Err(e) => Err(e),
                Result::Ok((meta, skip)) => match resolve_time(meta, "created"@, fs) {
                    Result::Err(e) => Err(e),
                    Result::Ok(created) => match resolve_time(meta, "modified"@, fs) {
                        Result::Err(e) => Err(e),
                        Result::Ok(modified) => Ok(
                            DocModel {
                                title: resolve_title(meta, stem),
                                body: html_of(content, skip),
                                meta: match meta {
                                    Option::Some(m) => m,
                                    Option::None => empty_model(),
                                },
                                created,
                                modified,
                                keywords: resolve_keywords(meta),
                            },
                        ),
                    },
                },
            }
        },
    }
}

fn resolve_time_exec(
    meta: &Option<toml::map::Map<String, toml::Value>>,
    key: &str,
    fs: &Option<Timestamp>,
) -> (r: Result<Timestamp, Error>)
    ensures
        r is Ok <==> resolve_time(opt_table_model(*meta), key@, *fs) is Ok,
        r is Ok ==> r->Ok_0 == resolve_time(opt_table_model(*meta), key@, *fs)->Ok_0,
        r is Err ==> r->Err_0.kind() == resolve_time(opt_table_model(*meta), key@, *fs)->Err_0,
{
    let dt = match meta {
        Some(t) => table_datetime_field(t, key),
        None => None,
    };
    match dt {
        Some(d) => timestamp_from_datetime(&d),
        None => match fs {
            Some(t) => Ok(*t),
            None => Err(Error::FsTime),
        },
    }
}

fn resolve_keywords_exec(meta: &Option<toml::map::Map<String, toml::Value>>) -> (r: Vec<String>)
    ensures
        r.deep_view() == resolve_keywords(opt_table_model(*meta)),
{
    let arr = match meta {
        Some(t) => table_str_array_field(t, "keywords"),
        None => None,
    };
    match arr {
        None => Vec::new(),
        Some(v) => {
            let ghost vs = array_field(opt_table_model(*meta)->0, "keywords"@)->0;
            let mut out: Vec<String> = Vec::new();
            let mut i: usize = 0;
            while i < v.len()
                invariant
                    i <= v@.len(),
                    v@.len() == vs.len(),
                    forall|k: int| 0 <= k < vs.len() ==> elem_matches(#[trigger] v@[k], vs[k]),
                    out.deep_view() == strs_of(vs.take(i as int)),
                decreases v@.len() - i,
            {
                proof {
                    assert(vs.take(i as int + 1).drop_last() =~= vs.take(i as int));
                }
                match &v[i] {
                    Some(s) => {
                        out.push(s.clone());
                        proof {
                            assert(out.deep_view() =~= strs_of(vs.take(i as int + 1)));
                        }
                    },
                    None => {
                        proof {
                            assert(out.deep_view() =~= strs_of(vs.take(i as int + 1)));
                        }
                    },
                }
                i = i + 1;
            }
            proof {
                assert(vs.take(vs.len() as int) =~= vs);
            }
            out
        },
    }
}

impl Post {
    /// Parses one document: tokenizes the source text as markdown with all
    /// extensions enabled, extracts and parses the leading metadata block if
    /// one is present, renders the remaining events to HTML, and resolves
    /// the attributes by the layered precedence rules. Any failure — a
    /// broken reference link, a malformed metadata block, a malformed
    /// timestamp, a missing fallback time — is fatal for the run.
    pub fn parse(path: &str, stem: Option<&str>, content: &str, fs_time: Option<Timestamp>) -> (r:
        Result<Post, Error>)
        ensures
            r is Ok <==> spec_parse(content@, stem_view(stem), fs_time) is Ok,
            r is Ok ==> r->Ok_0.model() == spec_parse(content@, stem_view(stem), fs_time)->Ok_0
                && r->Ok_0.path@ == path@,
            r is Err ==> r->Err_0.kind() == spec_parse(content@, stem_view(stem), fs_time)->Err_0,
    {
        let toks = match tokenize(content) {
            Ok(t) => t,
            Err(e) => {
                return Err(e);
            },
        };
        let with_fence = has_meta_fence(&toks);
        let (meta, skip): (Option<toml::map::Map<String, toml::Value>>, usize) = if with_fence {
            let (consumed, span) = metadata_span(&toks);
            let table = match span {
                None => new_table(),
                Some((a, b)) => {
                    let src = match byte_slice(content, a, b) {
                        Some(s) => s,
                        None => {
                            return Err(Error::Span);
                        },
                    };
                    match parse_toml(src.as_str()) {
                        Ok(t) => t,
                        Err(m) => {
                            return Err(Error::Toml(m));
                        },
                    }
                },
            };
            (Some(table), consumed)
        } else {
            (None, 0)
        };
        let body = crate::markdown::render_html_after(content, skip);
        let created = match resolve_time_exec(&meta, "created", &fs_time) {
            Ok(t) => t,
            Err(e) => {
                return Err(e);
            },
        };
        let modified = match resolve_time_exec(&meta, "modified", &fs_time) {
            Ok(t) => t,
            Err(e) => {
                return Err(e);
            },
        };
        let title_meta: Option<String> = match &meta {
            Some(t) => table_str_field(t, "title"),
            None => None,
        };
        let title: String = match title_meta {
            Some(t) => t,
            None => match stem {
                Some(s) => s.to_owned(),
                None => String::from_str("Title not found!"),
            },
        };
        let keywords = resolve_keywords_exec(&meta);
        let metadata = match meta {
            Some(t) => t,
            None => new_table(),
        };
        Ok(Post { path: path.to_owned(), title, body, metadata, created, modified, keywords })
    }
}

/// The relative output path a document is rendered to. The middle segment is
/// the created timestamp rendered through an empty date format, which writes
/// no characters; it is kept that way so generated links stay stable.
pub open spec fn url_path_of(title: Seq<char>) -> Seq<char> {
    "posts//"@ + slug_of(title) + ".html"@
}

impl Post {
    /// Derives the document's relative output path from its title: the same
    /// document always yields the same path, within a run and across runs.
    /// Two documents with colliding paths are not disambiguated; the later
    /// write wins.
    pub fn url_path(&self) -> (r: String)
        ensures
            r@ == url_path_of(self.title@),
    {
        let s = slug(self.title.as_str());
        let mut out = String::from_str("posts//");
        out.append(s.as_str());
        out.append(".html");
        out
    }

    /// The output path under the publish root.
    pub fn publish_path(&self) -> (r: String)
        ensures
            r@ == "publish/"@ + url_path_of(self.title@),
    {
        let mut out = String::from_str("publish/");
        let rel = self.url_path();
        out.append(rel.as_str());
        out
    }
}

/// Parsing is idempotent: parsing the same source text with the same stem
/// and fallback timestamp twice resolves to field-for-field identical
/// documents.
pub proof fn lemma_parse_deterministic(
    content: Seq<char>,
    stem: Option<Seq<char>>,
    fs: Option<Timestamp>,
    d1: DocModel,
    d2: DocModel,
)
    requires
        spec_parse(content, stem, fs) is Ok,
        d1 == spec_parse(content, stem, fs)->Ok_0,
        d2 == spec_parse(content, stem, fs)->Ok_0,
    ensures
        d1 == d2,
{
}

/// A document with no metadata block resolves both timestamps to the file's
/// creation time and its title to the filename stem.
pub proof fn lemma_no_metadata_fallback(content: Seq<char>, stem: Seq<char>, fs: Timestamp)
    requires
        tokens_of(content) is Some,
        !starts_with_meta_fence(tokens_of(content)->0),
    ensures
        spec_parse(content, Some(stem), Some(fs)) is Ok,
        spec_parse(content, Some(stem), Some(fs))->Ok_0.created == fs,
        spec_parse(content, Some(stem), Some(fs))->Ok_0.modified == fs,
        spec_parse(content, Some(stem), Some(fs))->Ok_0.title == stem,
        spec_parse(content, Some(stem), Some(fs))->Ok_0.keywords == Seq::<Seq<char>>::empty(),
{
}

/// A metadata block with no inner events parses to the empty table, without
/// error and without ever slicing the source text.
pub proof fn lemma_empty_metadata_block(content: Seq<char>, stem: Seq<char>, fs: Timestamp)
    requires
        tokens_of(content) is Some,
        starts_with_meta_fence(tokens_of(content)->0),
        scan_meta(tokens_of(content)->0, 0, 0, None).1 is None,
    ensures
        spec_parse(content, Some(stem), Some(fs)) is Ok,
        spec_parse(content, Some(stem), Some(fs))->Ok_0.meta == empty_model(),
        spec_parse(content, Some(stem), Some(fs))->Ok_0.created == fs,
        spec_parse(content, Some(stem), Some(fs))->Ok_0.title == stem,
{
    assert(!empty_model().dom().contains("created"@));
    assert(!empty_model().dom().contains("modified"@));
    assert(!empty_model().dom().contains("title"@));
}

/// A malformed timestamp in the metadata aborts resolution with an error; it
/// is never silently replaced by the filesystem fallback.
pub proof fn lemma_bad_date_aborts(
    m: Map<Seq<char>, MetaVal>,
    key: Seq<char>,
    fs: Option<Timestamp>,
)
    requires
        datetime_field(m, key) is Some,
        dt_timestamp(datetime_field(m, key)->0) is None,
    ensures
        resolve_time(Some(m), key, fs) is Err,
        resolve_time(Some(m), key, fs)->Err_0 == ErrorKind::BadTimestamp,
{
}

} // verus!
