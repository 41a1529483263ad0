use vstd::prelude::*;
use vstd::string::StringExecFns;

use crate::error::Error;

verus! {

/// What the user names: a direct download link, a content UUID, or a content code.
#[derive(Clone, Debug)]
pub enum ContentId {
    /// The serialized URL and the file name taken from its last path segment.
    DownloadUrl(String, String),
    /// A UUID, held as its 128-bit big-endian value.
    Uuid(u128),
    Code(String),
}

/// The value of `uuid::Uuid::parse_str(s)` read as a number, `None` where it fails.
pub uninterp spec fn uuid_value(s: Seq<char>) -> Option<u128>;

/// What `url::Url::parse(s)` gives: `None` where parsing fails, else the
/// serialization and the path segments (`None` for a cannot-be-a-base URL).
pub uninterp spec fn url_reading(s: Seq<char>) -> Option<(Seq<char>, Option<Seq<Seq<char>>>)>;

/// Relies on uuid::Uuid::parse_str (and Uuid::as_u128 to read the result).
#[verifier::external_body]
fn parse_uuid(s: &str) -> (r: Option<u128>)
    ensures
        r == uuid_value(s@),
{
    uuid::Uuid::parse_str(s).ok().map(|u| u.as_u128())
}

/// Relies on url::Url::parse, read through Url::as_str and Url::path_segments.
#[verifier::external_body]
fn parse_url(s: &str) -> (r: Option<(String, Option<Vec<String>>)>)
    ensures
        r matches Some((text, segs)) ==> url_reading(s@) == Some(
            (text@, match segs {
                Some(v) => Some(texts(v@)),
                None => None,
            }),
        ),
        r is None <==> url_reading(s@) is None,
{
    url::Url::parse(s).ok().map(
        |u| (u.as_str().to_string(), u.path_segments().map(|p| p.map(String::from).collect())),
    )
}

pub open spec fn texts(v: Seq<String>) -> Seq<Seq<char>> {
    v.map_values(|x: String| x@)
}

/// The outcome of resolving an identifier, as plain values.
pub enum Resolution {
    Link(Seq<char>, Seq<char>),
    Unique(u128),
    Code(Seq<char>),
    InvalidUrl(Seq<char>),
    InvalidContentUrl(Seq<char>),
    InvalidDownloadUrl(Seq<char>),
    Other,
}

/// Reads a result of resolution as a `Resolution`.
pub open spec fn resolved(r: &Result<ContentId, Error>) -> Resolution {
    match r {
        Ok(ContentId::DownloadUrl(u, n)) => Resolution::Link(u@, n@),
        Ok(ContentId::Uuid(id)) => Resolution::Unique(*id),
        Ok(ContentId::Code(c)) => Resolution::Code(c@),
        Err(Error::InvalidUrl(u)) => Resolution::InvalidUrl(u@),
        Err(Error::InvalidContentUrl(u)) => Resolution::InvalidContentUrl(u@),
        Err(Error::InvalidDownloadUrl(u)) => Resolution::InvalidDownloadUrl(u@),
        Err(_) => Resolution::Other,
    }
}

/// How a parsed URL resolves, from its serialization and path segments:
/// `/d/<code>` is a content code, `/download/<uuid>/<name>` a direct link,
/// and every other shape is refused.
pub open spec fn url_resolution(url: Seq<char>, segs: Option<Seq<Seq<char>>>) -> Resolution {
    match segs {
        None => Resolution::InvalidUrl(url),
        Some(s) => if s.len() >= 1 && s[0] == "d"@ {
            if s.len() == 2 {
                Resolution::Code(s[1])
            } else {
                Resolution::InvalidContentUrl(url)
            }
        } else if s.len() >= 1 && s[0] == "download"@ {
            if s.len() == 3 && uuid_value(s[1]) is Some {
                Resolution::Link(url, s[2])
            } else {
                Resolution::InvalidDownloadUrl(url)
            }
        } else {
            Resolution::InvalidUrl(url)
        },
    }
}

/// How an input string resolves: a UUID first, then a URL, else a code taken verbatim.
pub open spec fn resolution(s: Seq<char>) -> Resolution {
    match uuid_value(s) {
        Some(id) => Resolution::Unique(id),
        None => match url_reading(s) {
            Some((text, segs)) => url_resolution(text, segs),
            None => Resolution::Code(s),
        },
    }
}

/// Resolves a URL, given as its serialization and its path segments.
pub fn resolve_url(text: String, segments: Option<Vec<String>>) -> (r: Result<ContentId, Error>)
    ensures
        resolved(&r) == url_resolution(
            text@,
            match segments {
                Some(v) => Some(texts(v@)),
                None => None,
            },
        ),
{
    let segs = match segments {
        Some(v) => v,
        None => return Err(Error::InvalidUrl(text)),
    };
    let ghost s = texts(segs@);
    if segs.len() == 0 {
        return Err(Error::InvalidUrl(text));
    }
    assert(s.len() == segs.len() && s[0] == segs@[0]@);
    let first: &String = &segs[0];
    if first.eq(&String::from_str("d")) {
        if segs.len() == 2 {
            assert(s[1] == segs@[1]@);
            return Ok(ContentId::Code(segs[1].clone()));
        }
        return Err(Error::InvalidContentUrl(text));
    }
    if first.eq(&String::from_str("download")) {
        if segs.len() != 3 {
            return Err(Error::InvalidDownloadUrl(text));
        }
        if parse_uuid(segs[1].as_str()).is_none() {
            return Err(Error::InvalidDownloadUrl(text));
        }
        assert(s[1] == segs@[1]@ && s[2] == segs@[2]@);
        let name = segs[2].clone();
        return Ok(ContentId::DownloadUrl(text, name));
    }
    Err(Error::InvalidUrl(text))
}

/// A URL whose path is `/d/<code>` resolves to that code; any segment after
/// the code makes it an invalid content URL.
pub proof fn lemma_content_url(s: Seq<char>, url: Seq<char>, segs: Seq<Seq<char>>)
    requires
        uuid_value(s) is None,
        url_reading(s) == Some((url, Some(segs))),
        segs.len() >= 2,
        segs[0] == "d"@,
    ensures
        segs.len() == 2 ==> resolution(s) == Resolution::Code(segs[1]),
        segs.len() > 2 ==> resolution(s) == Resolution::InvalidContentUrl(url),
{
}

/// A URL whose path is `/download/<uuid>/<name>` resolves to a direct link to
/// the whole URL under that name; a second segment that is no UUID, a missing
/// name, or any further segment makes it an invalid download URL.
pub proof fn lemma_download_url(s: Seq<char>, url: Seq<char>, segs: Seq<Seq<char>>)
    requires
        uuid_value(s) is None,
        url_reading(s) == Some((url, Some(segs))),
        segs.len() >= 1,
        segs[0] == "download"@,
    ensures
        segs.len() == 3 && uuid_value(segs[1]) is Some ==> resolution(s) == Resolution::Link(
            url,
            segs[2],
        ),
        segs.len() != 3 || uuid_value(segs[1]) is None ==> resolution(s)
            == Resolution::InvalidDownloadUrl(url),
{    reveal_strlit("d");
    reveal_strlit("download");
    assert("d"@.len() != "download"@.len());
}

/// A URL whose first path segment is neither `d` nor `download` is refused as
/// an invalid URL; input that is neither a UUID nor a URL is a code, verbatim.
pub proof fn lemma_other_input(s: Seq<char>)
    requires
        uuid_value(s) is None,
    ensures
        url_reading(s) is None ==> resolution(s) == Resolution::Code(s),
        url_reading(s) matches Some((url, Some(segs))) ==> (segs.len() >= 1 && segs[0] != "d"@
            && segs[0] != "download"@ ==> resolution(s) == Resolution::InvalidUrl(url)),
        url_reading(s) matches Some((url, None)) ==> resolution(s) == Resolution::InvalidUrl(url),
{
}

impl ContentId {
    /// Resolves free-form user input into a content identifier.
    ///
    /// A string that parses as a UUID is a UUID, even where it would parse
    /// as a URL too; a URL must have one of the two known shapes; anything
    /// else is a content code, taken as it stands.
    pub fn parse_content_id(content_id_str: &str) -> (r: Result<ContentId, Error>)
        ensures
            resolved(&r) == resolution(content_id_str@),
            uuid_value(content_id_str@) matches Some(id) ==> r matches Ok(ContentId::Uuid(u))
                && u == id,
            uuid_value(content_id_str@) is None && url_reading(content_id_str@) is None ==> (r matches Ok(
                ContentId::Code(c),
            ) && c@ == content_id_str@),
    {
        if let Some(id) = parse_uuid(content_id_str) {
            return Ok(ContentId::Uuid(id));
        }
        match parse_url(content_id_str) {
            Some((text, segments)) => resolve_url(text, segments),
            None => Ok(ContentId::Code(String::from_str(content_id_str))),
        }
    }
}

} // verus!
