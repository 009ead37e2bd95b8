//! The data carried back from the GIF search service: result records and
//! their media format variants. The HTTP client itself lives outside the
//! core.

use vstd::prelude::*;
use crate::error::CoreError;
use crate::textutil::str_eq;

verus! {

/// A JSON document, as the core reads it: the transport parses the
/// service's response text and hands the structure over as plain values.
/// Object fields keep their order; lookup takes the first match.
pub enum JsonValue {
    Null,
    Bool(bool),
    /// A number, kept as its decimal text; the extraction never reads one.
    Number(String),
    Text(String),
    Array(Vec<JsonValue>),
    Object(Vec<(String, JsonValue)>),
}

/// A GIF search result.
#[derive(Debug, Clone)]
pub struct Gif {
    /// Result identifier.
    pub id: String,
    /// Title.
    pub title: Option<String>,
    /// Original URL.
    pub url: Option<String>,
    /// Preview or thumbnail URL.
    pub preview_url: Option<String>,
    /// Media format variants.
    pub media_formats: Option<MediaFormats>,
}

impl Gif {
    /// The best URL for sharing.
    pub fn share_url(&self) -> (r: Option<&str>)
        ensures
            match r {
                Some(s) => self.url matches Some(u) && s@ == u@,
                None => self.url is None,
            },
    {
        match &self.url {
            Some(u) => Some(u.as_str()),
            None => None,
        }
    }

    /// The preview URL.
    pub fn preview_url(&self) -> (r: Option<&str>)
        ensures
            match r {
                Some(s) => self.preview_url matches Some(u) && s@ == u@,
                None => self.preview_url is None,
            },
    {
        match &self.preview_url {
            Some(u) => Some(u.as_str()),
            None => None,
        }
    }
}

/// Media format variants of one result.
#[derive(Debug, Clone)]
pub struct MediaFormats {
    /// The full GIF.
    pub gif: Option<MediaFormat>,
    /// The preview or thumbnail.
    pub preview: Option<MediaFormat>,
    /// The small version.
    pub tiny: Option<MediaFormat>,
}

/// One media format variant.
#[derive(Debug, Clone)]
pub struct MediaFormat {
    /// URL to the media.
    pub url: String,
    /// Dimensions.
    pub dims: Option<Vec<u32>>,
    /// File size in bytes.
    pub size: Option<u64>,
}

/// The mathematical content of an extracted [`Gif`].
pub ghost struct GifV {
    pub id: Seq<char>,
    pub title: Option<Seq<char>>,
    pub url: Option<Seq<char>>,
    pub preview_url: Option<Seq<char>>,
}

/// The content of a result record, as a mathematical value.
pub open spec fn gif_view(g: Gif) -> GifV {
    GifV {
        id: g.id@,
        title: match g.title {
            Option::Some(t) => Some(t@),
            Option::None => None,
        },
        url: match g.url {
            Option::Some(u) => Some(u@),
            Option::None => None,
        },
        preview_url: match g.preview_url {
            Option::Some(u) => Some(u@),
            Option::None => None,
        },
    }
}

/// First-match lookup of an object field.
pub open spec fn obj_lookup(fields: Seq<(String, JsonValue)>, key: Seq<char>) -> Option<JsonValue>
    decreases fields.len(),
{
    if fields.len() == 0 {
        None
    } else if fields[0].0@ == key {
        Some(fields[0].1)
    } else {
        obj_lookup(fields.drop_first(), key)
    }
}

/// The value under a key; `None` on anything but an object.
pub open spec fn json_get(j: JsonValue, key: Seq<char>) -> Option<JsonValue> {
    match j {
        JsonValue::Object(fields) => obj_lookup(fields@, key),
        _ => None,
    }
}

/// The characters of a text value; `None` on anything else.
pub open spec fn json_str(j: JsonValue) -> Option<Seq<char>> {
    match j {
        JsonValue::Text(s) => Some(s@),
        _ => None,
    }
}

/// The first value present among two keys.
pub open spec fn json_get_or(j: JsonValue, k1: Seq<char>, k2: Seq<char>) -> Option<JsonValue> {
    if json_get(j, k1) is Some {
        json_get(j, k1)
    } else {
        json_get(j, k2)
    }
}

/// The first value present among three keys.
pub open spec fn json_get_or3(j: JsonValue, k1: Seq<char>, k2: Seq<char>, k3: Seq<char>) -> Option<
    JsonValue,
> {
    if json_get(j, k1) is Some {
        json_get(j, k1)
    } else {
        json_get_or(j, k2, k3)
    }
}

/// The first value present among four keys.
pub open spec fn json_get_or4(
    j: JsonValue,
    k1: Seq<char>,
    k2: Seq<char>,
    k3: Seq<char>,
    k4: Seq<char>,
) -> Option<JsonValue> {
    if json_get(j, k1) is Some {
        json_get(j, k1)
    } else {
        json_get_or3(j, k2, k3, k4)
    }
}

/// The array of result items a service response carries: under `data`
/// directly, under one of the usual nested keys of a `data` object, under
/// a top-level `results` or `items` key, or as a bare top-level array.
pub open spec fn spec_items_source(json: JsonValue) -> Option<Seq<JsonValue>> {
    let from_data = match json_get(json, "data"@) {
        Option::Some(d) => match d {
            JsonValue::Array(items) => Some(items@),
            JsonValue::Object(fields) => {
                let picked = if obj_lookup(fields@, "items"@) is Some {
                    obj_lookup(fields@, "items"@)
                } else if obj_lookup(fields@, "results"@) is Some {
                    obj_lookup(fields@, "results"@)
                } else {
                    obj_lookup(fields@, "gifs"@)
                };
                match picked {
                    Option::Some(JsonValue::Array(items)) => Some(items@),
                    _ => None,
                }
            },
            _ => None,
        },
        Option::None => None,
    };
    if from_data is Some {
        from_data
    } else {
        match json_get(json, "results"@) {
            Option::Some(JsonValue::Array(items)) => Some(items@),
            _ => match json_get(json, "items"@) {
                Option::Some(JsonValue::Array(items)) => Some(items@),
                _ => match json {
                    JsonValue::Array(items) => Some(items@),
                    _ => None,
                },
            },
        }
    }
}

/// The text under a possibly-absent value.
pub open spec fn opt_json_str(v: Option<JsonValue>) -> Option<Seq<char>> {
    match v {
        Option::Some(x) => json_str(x),
        Option::None => None,
    }
}

/// The result one item of an items array yields: advertisements are
/// skipped, the identifier defaults to empty, the URLs come from the
/// first of the usual field names, and an item with neither identifier
/// nor URL is dropped.
pub open spec fn spec_item_gif(item: JsonValue) -> Option<GifV> {
    let is_ad = match json_get(item, "type"@) {
        Option::Some(t) => json_str(t) == Some("ad"@),
        Option::None => false,
    };
    if is_ad {
        None
    } else {
        let id = match opt_json_str(json_get(item, "id"@)) {
            Option::Some(s) => s,
            Option::None => Seq::<char>::empty(),
        };
        let title = opt_json_str(json_get(item, "title"@));
        let url = opt_json_str(
            json_get_or4(item, "original_url"@, "url"@, "itemurl"@, "content_url"@),
        );
        let preview = opt_json_str(json_get_or3(item, "preview_url"@, "preview"@, "thumbnail"@));
        if id.len() == 0 && url is None {
            None
        } else {
            Some(GifV { id, title, url, preview_url: preview })
        }
    }
}

/// The results an items array yields, in order.
pub open spec fn spec_array_gifs(items: Seq<JsonValue>) -> Seq<GifV>
    decreases items.len(),
{
    if items.len() == 0 {
        Seq::empty()
    } else {
        match spec_item_gif(items[0]) {
            Option::Some(g) => seq![g] + spec_array_gifs(items.drop_first()),
            Option::None => spec_array_gifs(items.drop_first()),
        }
    }
}

/// The result one value of a map-shaped `data` object yields: only
/// objects count, nothing is skipped as an advertisement, and the URL
/// field names are the shorter list.
pub open spec fn spec_map_item_gif(v: JsonValue) -> GifV {
    GifV {
        id: match opt_json_str(json_get(v, "id"@)) {
            Option::Some(s) => s,
            Option::None => Seq::<char>::empty(),
        },
        title: opt_json_str(json_get(v, "title"@)),
        url: opt_json_str(json_get_or(v, "original_url"@, "url"@)),
        preview_url: opt_json_str(json_get_or(v, "preview_url"@, "preview"@)),
    }
}

/// The results a map-shaped `data` object yields, in field order.
pub open spec fn spec_map_gifs(fields: Seq<(String, JsonValue)>) -> Seq<GifV>
    decreases fields.len(),
{
    if fields.len() == 0 {
        Seq::empty()
    } else {
        match fields[0].1 {
            JsonValue::Object(_) => seq![spec_map_item_gif(fields[0].1)] + spec_map_gifs(
                fields.drop_first(),
            ),
            _ => spec_map_gifs(fields.drop_first()),
        }
    }
}

/// What a whole response yields: the items array if one can be found,
/// else the map-shaped `data` object, else nothing — an unrecognized
/// format.
pub open spec fn spec_extract_gifs(json: JsonValue) -> Option<Seq<GifV>> {
    match spec_items_source(json) {
        Option::Some(items) => Some(spec_array_gifs(items)),
        Option::None => match json_get(json, "data"@) {
            Option::Some(JsonValue::Object(fields)) => Some(spec_map_gifs(fields@)),
            _ => None,
        },
    }
}

/// The contents of a result list, as mathematical values.
pub open spec fn gifs_views(gs: Seq<Gif>) -> Seq<GifV> {
    gs.map_values(|g: Gif| gif_view(g))
}

/// Dropping a prefix with no field named `key` leaves the lookup
/// unchanged.
proof fn lemma_obj_skip(s: Seq<(String, JsonValue)>, i: int, key: Seq<char>)
    requires
        0 <= i <= s.len(),
        forall|j: int| 0 <= j < i ==> s[j].0@ != key,
    ensures
        obj_lookup(s, key) == obj_lookup(s.skip(i), key),
    decreases i,
{
    if i > 0 {
        assert(s[0].0@ != key);
        assert forall|j: int| 0 <= j < i - 1 implies s.drop_first()[j].0@ != key by {
            assert(s.drop_first()[j] == s[j + 1]);
        }
        lemma_obj_skip(s.drop_first(), i - 1, key);
        assert(s.drop_first().skip(i - 1) =~= s.skip(i));
    } else {
        assert(s.skip(0) =~= s);
    }
}

/// Find the first field named `key`.
fn obj_get<'a>(fields: &'a Vec<(String, JsonValue)>, key: &str) -> (r: Option<&'a JsonValue>)
    ensures
        match r {
            Some(v) => obj_lookup(fields@, key@) == Some(*v),
            None => obj_lookup(fields@, key@) is None,
        },
{
    let n = fields.len();
    let mut i: usize = 0;
    while i < n
        invariant
            n == fields@.len(),
            i <= n,
            forall|j: int| 0 <= j < i ==> fields@[j].0@ != key@,
        decreases n - i,
    {
        if str_eq(fields[i].0.as_str(), key) {
            proof {
                lemma_obj_skip(fields@, i as int, key@);
                assert(fields@.skip(i as int)[0] == fields@[i as int]);
            }
            return Some(&fields[i].1);
        }
        i += 1;
    }
    proof {
        lemma_obj_skip(fields@, n as int, key@);
        assert(fields@.skip(n as int) =~= Seq::<(String, JsonValue)>::empty());
    }
    None
}

/// The value under `key`, on an object.
fn json_get_exec<'a>(j: &'a JsonValue, key: &str) -> (r: Option<&'a JsonValue>)
    ensures
        match r {
            Some(v) => json_get(*j, key@) == Some(*v),
            None => json_get(*j, key@) is None,
        },
{
    match j {
        JsonValue::Object(fields) => obj_get(fields, key),
        _ => None,
    }
}

/// The text of a value, if it is text.
fn json_as_str<'a>(j: &'a JsonValue) -> (r: Option<&'a String>)
    ensures
        match r {
            Some(s) => json_str(*j) == Some(s@),
            None => json_str(*j) is None,
        },
{
    match j {
        JsonValue::Text(s) => Some(s),
        _ => None,
    }
}

/// The text under a possibly-found value, cloned out.
fn cloned_str(v: Option<&JsonValue>) -> (r: Option<String>)
    ensures
        match v {
            Some(x) => (match r {
                Option::Some(s) => json_str(*x) == Some(s@),
                Option::None => json_str(*x) is None,
            }),
            None => r is None,
        },
{
    match v {
        Some(x) => match json_as_str(x) {
            Some(s) => Some(s.clone()),
            None => None,
        },
        None => None,
    }
}

/// One item of an items array, extracted.
fn item_gif(v: &JsonValue) -> (r: Option<Gif>)
    ensures
        match spec_item_gif(*v) {
            Option::Some(gv) => r matches Some(g) && gif_view(g) == gv && g.media_formats
                is None,
            Option::None => r is None,
        },
{
    proof {
        reveal_strlit("");
        assert(""@ =~= Seq::<char>::empty());
    }
    let mut is_ad = false;
    if let Some(t) = json_get_exec(v, "type") {
        if let Some(s) = json_as_str(t) {
            if str_eq(s.as_str(), "ad") {
                is_ad = true;
            }
        }
    }
    if is_ad {
        return None;
    }

    let id: String = match cloned_str(json_get_exec(v, "id")) {
        Some(s) => s,
        None => String::new(),
    };
    let title = cloned_str(json_get_exec(v, "title"));

    let url_field = match json_get_exec(v, "original_url") {
        Some(x) => Some(x),
        None => match json_get_exec(v, "url") {
            Some(x) => Some(x),
            None => match json_get_exec(v, "itemurl") {
                Some(x) => Some(x),
                None => json_get_exec(v, "content_url"),
            },
        },
    };
    let url = cloned_str(url_field);

    let preview_field = match json_get_exec(v, "preview_url") {
        Some(x) => Some(x),
        None => match json_get_exec(v, "preview") {
            Some(x) => Some(x),
            None => json_get_exec(v, "thumbnail"),
        },
    };
    let preview_url = cloned_str(preview_field);

    if str_eq(id.as_str(), "") && url.is_none() {
        return None;
    }
    proof {
        if id@.len() == 0 {
            assert(id@ =~= ""@);
        }
    }
    Some(Gif { id, title, url, preview_url, media_formats: None })
}

/// One value of a map-shaped `data` object, extracted; the caller has
/// already checked it is an object.
fn map_item_gif(v: &JsonValue) -> (r: Gif)
    ensures
        gif_view(r) == spec_map_item_gif(*v),
        r.media_formats is None,
{
    let id: String = match cloned_str(json_get_exec(v, "id")) {
        Some(s) => s,
        None => String::new(),
    };
    let title = cloned_str(json_get_exec(v, "title"));
    let url_field = match json_get_exec(v, "original_url") {
        Some(x) => Some(x),
        None => json_get_exec(v, "url"),
    };
    let url = cloned_str(url_field);
    let preview_field = match json_get_exec(v, "preview_url") {
        Some(x) => Some(x),
        None => json_get_exec(v, "preview"),
    };
    let preview_url = cloned_str(preview_field);
    Gif { id, title, url, preview_url, media_formats: None }
}

/// Find the items array a response carries, if any.
fn items_source<'a>(json: &'a JsonValue) -> (r: Option<&'a Vec<JsonValue>>)
    ensures
        match r {
            Some(items) => spec_items_source(*json) == Some(items@),
            None => spec_items_source(*json) is None,
        },
{
    if let Some(d) = json_get_exec(json, "data") {
        match d {
            JsonValue::Array(items) => {
                return Some(items);
            },
            JsonValue::Object(fields) => {
                let picked = match obj_get(fields, "items") {
                    Some(x) => Some(x),
                    None => match obj_get(fields, "results") {
                        Some(x) => Some(x),
                        None => obj_get(fields, "gifs"),
                    },
                };
                if let Some(JsonValue::Array(items)) = picked {
                    return Some(items);
                }
            },
            _ => {},
        }
    }
    if let Some(JsonValue::Array(items)) = json_get_exec(json, "results") {
        return Some(items);
    }
    if let Some(JsonValue::Array(items)) = json_get_exec(json, "items") {
        return Some(items);
    }
    if let JsonValue::Array(items) = json {
        return Some(items);
    }
    None
}

/// Extract the GIF results from a parsed service response, whichever of
/// the known response shapes it uses; an unrecognized shape is rejected
/// whole.
pub fn extract_gifs(json: &JsonValue) -> (r: Result<Vec<Gif>, CoreError>)
    ensures
        match spec_extract_gifs(*json) {
            Option::Some(vs) => r matches Ok(gs) && gs@.len() == vs.len() && (forall|i: int|
                0 <= i < vs.len() ==> gif_view(#[trigger] gs@[i]) == vs[i] && gs@[i].media_formats
                    is None),
            Option::None => r == Err::<Vec<Gif>, CoreError>(CoreError::MalformedInput),
        },
{
    match items_source(json) {
        Some(items) => {
            let mut out: Vec<Gif> = Vec::new();
            let n = items.len();
            let mut i: usize = 0;
            proof {
                assert(items@.skip(0) =~= items@);
                assert(gifs_views(out@) + spec_array_gifs(items@) =~= spec_array_gifs(items@));
            }
            while i < n
                invariant
                    n == items@.len(),
                    i <= n,
                    spec_array_gifs(items@) == gifs_views(out@) + spec_array_gifs(
                        items@.skip(i as int),
                    ),
                    forall|j: int|
                        0 <= j < out@.len() ==> (#[trigger] out@[j]).media_formats is None,
                decreases n - i,
            {
                proof {
                    assert(items@.skip(i as int)[0] == items@[i as int]);
                    assert(items@.skip(i as int).drop_first() =~= items@.skip(i + 1));
                }
                let ghost prev = out@;
                match item_gif(&items[i]) {
                    Some(g) => {
                        let ghost gv = gif_view(g);
                        out.push(g);
                        proof {
                            assert(gifs_views(out@) =~= gifs_views(prev) + seq![gv]);
                            assert(gifs_views(prev) + (seq![gv] + spec_array_gifs(
                                items@.skip(i + 1),
                            )) =~= (gifs_views(prev) + seq![gv]) + spec_array_gifs(
                                items@.skip(i + 1),
                            ));
                        }
                    },
                    None => {},
                }
                i += 1;
            }
            proof {
                assert(items@.skip(n as int) =~= Seq::<JsonValue>::empty());
                assert(gifs_views(out@) + spec_array_gifs(Seq::<JsonValue>::empty()) =~= gifs_views(
                    out@,
                ));
            }
            Ok(out)
        },
        None => {
            if let Some(d) = json_get_exec(json, "data") {
                if let JsonValue::Object(fields) = d {
                    let mut out: Vec<Gif> = Vec::new();
                    let n = fields.len();
                    let mut i: usize = 0;
                    proof {
                        assert(fields@.skip(0) =~= fields@);
                        assert(gifs_views(out@) + spec_map_gifs(fields@) =~= spec_map_gifs(
                            fields@,
                        ));
                    }
                    while i < n
                        invariant
                            n == fields@.len(),
                            i <= n,
                            spec_map_gifs(fields@) == gifs_views(out@) + spec_map_gifs(
                                fields@.skip(i as int),
                            ),
                            forall|j: int|
                                0 <= j < out@.len() ==> (#[trigger] out@[j]).media_formats
                                    is None,
                        decreases n - i,
                    {
                        proof {
                            assert(fields@.skip(i as int)[0] == fields@[i as int]);
                            assert(fields@.skip(i as int).drop_first() =~= fields@.skip(i + 1));
                        }
                        let ghost prev = out@;
                        let is_object = match &fields[i].1 {
                            JsonValue::Object(_) => true,
                            _ => false,
                        };
                        if is_object {
                            let g = map_item_gif(&fields[i].1);
                            let ghost gv = gif_view(g);
                            out.push(g);
                            proof {
                                assert(gifs_views(out@) =~= gifs_views(prev) + seq![gv]);
                                assert(gifs_views(prev) + (seq![gv] + spec_map_gifs(
                                    fields@.skip(i + 1),
                                )) =~= (gifs_views(prev) + seq![gv]) + spec_map_gifs(
                                    fields@.skip(i + 1),
                                ));
                            }
                        }
                        i += 1;
                    }
                    proof {
                        assert(fields@.skip(n as int) =~= Seq::<(String, JsonValue)>::empty());
                        assert(gifs_views(out@) + spec_map_gifs(
                            Seq::<(String, JsonValue)>::empty(),
                        ) =~= gifs_views(out@));
                    }
                    return Ok(out);
                }
            }
            Err(CoreError::MalformedInput)
        },
    }
}

} // verus!
