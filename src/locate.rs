use vstd::prelude::*;

use crate::error::WallpaperError;

verus! {

/// The host that relative image addresses are resolved against.
pub const BING: &'static str = "http://cn.bing.com";

#[verifier::external_type_specification]
#[verifier::external_body]
pub struct ExParseError(url::ParseError);

/// The `application/x-www-form-urlencoded` pairs of the query of the
/// absolute URL written `s`, in order, decoded; `None` where `s` is no
/// absolute URL.
pub uninterp spec fn query_pairs_of(s: Seq<char>) -> Option<Seq<(Seq<char>, Seq<char>)>>;

/// The pairs held by `v`, as character sequences.
pub open spec fn pairs_view(v: Seq<(String, String)>) -> Seq<(Seq<char>, Seq<char>)> {
    v.map_values(|p: (String, String)| (p.0@, p.1@))
}

/// The value of the last pair whose name is `key`. Collecting the pairs into
/// a map keeps, for each name, the value that came last.
pub open spec fn last_value(pairs: Seq<(Seq<char>, Seq<char>)>, key: Seq<char>) -> Option<Seq<char>>
    decreases pairs.len(),
{
    if pairs.len() == 0 {
        None
    } else if pairs.last().0 == key {
        Some(pairs.last().1)
    } else {
        last_value(pairs.drop_last(), key)
    }
}

/// The absolute address of an image given its address relative to [`BING`].
pub open spec fn absolute_url_of(uri: Seq<char>) -> Seq<char> {
    BING@ + uri
}

/// The picture identifier carried by the absolute address `url`.
pub open spec fn picture_id_of(url: Seq<char>) -> Result<Seq<char>, WallpaperError> {
    match query_pairs_of(url) {
        None => Err(WallpaperError::MalformedUrl),
        Some(pairs) => match last_value(pairs, "id"@) {
            None => Err(WallpaperError::MissingId),
            Some(v) => Ok(v),
        },
    }
}

/// Relies on url::Url::parse to read `s` as an absolute URL, and on
/// Url::query_pairs to split and decode its query string.
#[verifier::external_body]
fn url_query_pairs(s: &str) -> (r: Result<Vec<(String, String)>, url::ParseError>)
    ensures
        match r {
            Ok(v) => query_pairs_of(s@) == Some(pairs_view(v@)),
            Err(_) => query_pairs_of(s@) is None,
        },
{
    let parsed = url::Url::parse(s)?;
    Ok(parsed.query_pairs().into_owned().collect())
}

/// The absolute address of the image whose relative address is `uri`.
pub fn absolute_image_url(uri: &str) -> (r: String)
    ensures
        r@ == absolute_url_of(uri@),
{
    let mut url = String::from_str(BING);
    url.append(uri);
    url
}

/// The value of the last pair named `id`, if any.
pub fn find_id(pairs: &Vec<(String, String)>) -> (r: Option<String>)
    ensures
        match r {
            Some(v) => last_value(pairs_view(pairs@), "id"@) == Some(v@),
            None => last_value(pairs_view(pairs@), "id"@) is None,
        },
{
    let key = String::from_str("id");
    let mut i: usize = pairs.len();
    proof {
        assert(pairs@.subrange(0, i as int) =~= pairs@);
    }
    while i > 0
        invariant
            i <= pairs@.len(),
            key@ == "id"@,
            last_value(pairs_view(pairs@), "id"@) == last_value(
                pairs_view(pairs@.subrange(0, i as int)),
                "id"@,
            ),
        decreases i,
    {
        let ghost prefix = pairs_view(pairs@.subrange(0, i as int));
        proof {
            assert(pairs_view(pairs@.subrange(0, i - 1)) =~= prefix.drop_last());
        }
        let pair = &pairs[i - 1];
        if pair.0 == key {
            return Some(pair.1.clone());
        }
        i = i - 1;
    }
    proof {
        assert(pairs_view(pairs@.subrange(0, 0)) =~= Seq::empty());
    }
    None
}

/// Extracts the picture identifier from an absolute image address: the value
/// of its `id` query parameter.
pub fn picture_id(url: &str) -> (r: Result<String, WallpaperError>)
    ensures
        match (r, picture_id_of(url@)) {
            (Ok(v), Ok(w)) => v@ == w,
            (Err(e), Err(f)) => e == f,
            _ => false,
        },
{
    match url_query_pairs(url) {
        Err(_) => Err(WallpaperError::MalformedUrl),
        Ok(pairs) => match find_id(&pairs) {
            None => Err(WallpaperError::MissingId),
            Some(id) => Ok(id),
        },
    }
}

} // verus!
