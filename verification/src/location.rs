//! URLs with a query, built with the `url` crate.
//!
//! A URL is carried as `Option<url::Url>`: `None` once a step could not be
//! taken, so that a chain of steps needs one test at its end.

use url::Url;
use vstd::prelude::*;
use vstd::string::*;
use vstd::utf8::encode_utf8;
use crate::error::PatreonError;

verus! {

/// `url::Url`, known here by its text alone.
#[verifier::external_type_specification]
#[verifier::external_body]
pub struct ExLocation(url::Url);

/// The text that a URL serializes to.
pub uninterp spec fn url_text(url: url::Url) -> Seq<char>;

/// The text of the URL that `url` reads from `text`, if it reads one.
pub uninterp spec fn parsed_url(text: Seq<char>) -> Option<Seq<char>>;

/// The text of the URL with text `url` after its path is set to `path`.
pub uninterp spec fn url_with_path(url: Seq<char>, path: Seq<char>) -> Seq<char>;

/// The text of the URL with text `url` after the pair `name`, `value` is
/// added at the end of its query.
pub uninterp spec fn url_with_pair(url: Seq<char>, name: Seq<char>, value: Seq<char>) -> Seq<char>;

/// The length of a text in UTF-8 bytes.
pub open spec fn byte_len(text: Seq<char>) -> nat {
    encode_utf8(text).len()
}

/// Whether a URL of `len` bytes can take `extra` more bytes of input: the
/// crate counts positions in 32 bits, and writes at most three bytes and
/// two separators for what it is given.
pub open spec fn fits(len: nat, extra: nat) -> bool {
    len + 3 * extra + 2 <= u32::MAX
}

/// `Url::parse`. The URL read depends on the text alone.
#[verifier::external_body]
fn url_parse(text: &str) -> (r: Option<url::Url>)
    ensures
        r is Some <==> parsed_url(text@) is Some,
        r is Some ==> url_text(r->0) == parsed_url(text@)->0,
{
    Url::parse(text).ok()
}

/// `Url::as_str`, measured with `str::len`: the length of the URL's text
/// in bytes.
#[verifier::external_body]
fn url_len(url: &url::Url) -> (r: usize)
    ensures
        r == byte_len(url_text(*url)),
{
    url.as_str().len()
}

/// `Url::set_path`. The new URL depends on the old one and the path alone.
/// The method panics where the new text does not fit in 32 bits of length;
/// a path is written with at most three bytes for each of its own and one
/// leading `/`.
#[verifier::external_body]
fn url_set_path(url: &mut url::Url, path: &str)
    requires
        fits(byte_len(url_text(*old(url))), byte_len(path@)),
    ensures
        url_text(*final(url)) == url_with_path(url_text(*old(url)), path@),
{
    url.set_path(path)
}

/// `Url::query_pairs_mut` and `Serializer::append_pair`. The new URL
/// depends on the old one, the name and the value alone. The methods panic
/// where the new text does not fit in 32 bits of length; a pair is written
/// with at most three bytes for each of its own and two separators.
#[verifier::external_body]
fn url_append_pair(url: &mut url::Url, name: &str, value: &str)
    requires
        fits(byte_len(url_text(*old(url))), byte_len(name@) + byte_len(value@)),
    ensures
        url_text(*final(url)) == url_with_pair(url_text(*old(url)), name@, value@),
{
    url.query_pairs_mut().append_pair(name, value);
}

/// `Url::to_string`: the text of the URL.
#[verifier::external_body]
fn url_to_string(url: &url::Url) -> (r: String)
    ensures
        r@ == url_text(*url),
{
    url.to_string()
}

/// The text of a URL that may be missing.
pub open spec fn text_of(url: Option<url::Url>) -> Option<Seq<char>> {
    match url {
        Some(u) => Some(url_text(u)),
        None => None,
    }
}

/// The text after the path of `url` is set, where the result fits.
pub open spec fn with_path(url: Option<Seq<char>>, path: Seq<char>) -> Option<Seq<char>> {
    match url {
        Some(u) => if fits(byte_len(u), byte_len(path)) {
            Some(url_with_path(u, path))
        } else {
            None
        },
        None => None,
    }
}

/// The text after a pair is added to the query of `url`, where the result
/// fits.
pub open spec fn with_pair(url: Option<Seq<char>>, name: Seq<char>, value: Seq<char>) -> Option<
    Seq<char>,
> {
    match url {
        Some(u) => if fits(byte_len(u), byte_len(name) + byte_len(value)) {
            Some(url_with_pair(u, name, value))
        } else {
            None
        },
        None => None,
    }
}

/// The text after a pair is added to the query of `url` if its value is
/// not empty.
pub open spec fn with_pair_unless_empty(
    url: Option<Seq<char>>,
    name: Seq<char>,
    value: Seq<char>,
) -> Option<Seq<char>> {
    if value.len() == 0 {
        url
    } else {
        with_pair(url, name, value)
    }
}

fn has_room(len: usize, extra_a: usize, extra_b: usize) -> (r: bool)
    ensures
        r == fits(len as nat, extra_a as nat + extra_b as nat),
{
    let limit: usize = 0x5555_5555;
    if len > 0xffff_ffff || extra_a > limit || extra_b > limit {
        false
    } else {
        let total: u64 = len as u64 + 3 * (extra_a as u64 + extra_b as u64) + 2;
        total <= 0xffff_ffff
    }
}

/// Reads a URL.
pub fn parse(text: &str) -> (r: Option<url::Url>)
    ensures
        text_of(r) == parsed_url(text@),
{
    url_parse(text)
}

/// Sets the path of a URL.
pub fn set_path(url: Option<url::Url>, path: &str) -> (r: Option<url::Url>)
    ensures
        text_of(r) == with_path(text_of(url), path@),
{
    match url {
        Some(mut u) => {
            if has_room(url_len(&u), path.as_bytes().len(), 0) {
                url_set_path(&mut u, path);
                Some(u)
            } else {
                None
            }
        },
        None => None,
    }
}

/// Adds a pair at the end of the query of a URL.
pub fn append_pair(url: Option<url::Url>, name: &str, value: &str) -> (r: Option<url::Url>)
    ensures
        text_of(r) == with_pair(text_of(url), name@, value@),
{
    match url {
        Some(mut u) => {
            if has_room(url_len(&u), name.as_bytes().len(), value.as_bytes().len()) {
                url_append_pair(&mut u, name, value);
                Some(u)
            } else {
                None
            }
        },
        None => None,
    }
}

/// Adds a pair at the end of the query of a URL if its value is not
/// empty.
pub fn append_pair_unless_empty(url: Option<url::Url>, name: &str, value: &str) -> (r: Option<
    url::Url,
>)
    ensures
        text_of(r) == with_pair_unless_empty(text_of(url), name@, value@),
{
    if value.is_empty() {
        url
    } else {
        append_pair(url, name, value)
    }
}

/// The text of a URL.
pub fn to_text(url: Option<url::Url>) -> (r: Option<String>)
    ensures
        r is Some <==> text_of(url) is Some,
        r is Some ==> r->0@ == text_of(url)->0,
{
    match url {
        Some(u) => Some(url_to_string(&u)),
        None => None,
    }
}

/// The text of a URL that was built, or the failure that says it could
/// not be.
pub fn url_or_message(text: Option<String>) -> (r: Result<String, PatreonError>)
    ensures
        r is Ok <==> text is Some,
        r is Ok ==> r->Ok_0 == text->0,
        r is Err ==> r->Err_0 is Message,
        r is Err ==> r->Err_0->Message_0@ == "the URL cannot be built"@,
{
    match text {
        Some(url) => Ok(url),
        None => Err(PatreonError::Message("the URL cannot be built".to_owned())),
    }
}

} // verus!
