//! Rules on catalogue data: which rating strings and media types are kept, and
//! where the images of kept items are stored.

use crate::documents::anime_search::ItemType;
use crate::documents::spec_is_hentai_str;
use crate::text::{seq_contains, str_contains, str_eq};
use vstd::prelude::*;

verus! {

/// `url::Url`, a parsed URL, carried through unopened.
#[verifier::external_type_specification]
#[verifier::external_body]
pub struct ExUrl(url::Url);

/// `url::ParseError`, the error of a failed parse.
#[verifier::external_type_specification]
#[verifier::external_body]
pub struct ExUrlParseError(url::ParseError);

/// The URL that `url::Url::parse` makes of a text, or `None` where it fails.
pub uninterp spec fn url_parse(text: Seq<char>) -> Option<url::Url>;

/// The path of a URL as `url::Url::path` gives it.
pub uninterp spec fn url_path_of(u: url::Url) -> Seq<char>;

/// The digest that `blake3::hash` computes of some bytes.
pub uninterp spec fn blake3_hash(data: Seq<u8>) -> Seq<u8>;

/// Calls `url::Url::parse`. Claims that the result is the named parse of the
/// text, `Ok` exactly where that succeeds.
#[verifier::external_body]
pub fn parse_url(text: &str) -> (r: Result<url::Url, url::ParseError>)
    ensures
        r is Ok <==> url_parse(text@) is Some,
        r matches Ok(u) ==> url_parse(text@) == Some(u),
{
    url::Url::parse(text)
}

/// Calls `url::Url::path` and copies the path. Claims that the result is the
/// named path of the URL.
#[verifier::external_body]
pub fn url_path(u: &url::Url) -> (r: String)
    ensures
        r@ == url_path_of(*u),
{
    u.path().to_string()
}

/// Calls `blake3::hash` and copies the digest's bytes. Claims that the result
/// is the named digest of the input and, as `blake3::OUT_LEN` fixes it, that
/// it is 32 bytes long.
#[verifier::external_body]
fn blake3_digest(data: &[u8]) -> (r: Vec<u8>)
    ensures
        r@ == blake3_hash(data@),
        r@.len() == 32,
{
    blake3::hash(data).as_bytes().to_vec()
}

/// The lower-case hexadecimal digit of a value below 16.
pub open spec fn hex_digit(d: int) -> char {
    if d < 10 {
        crate::text::digit_char(d as nat)
    } else if d == 10 { 'a' }
    else if d == 11 { 'b' }
    else if d == 12 { 'c' }
    else if d == 13 { 'd' }
    else if d == 14 { 'e' }
    else { 'f' }
}

/// Bytes written as lower-case hexadecimal, two digits per byte, high half
/// first.
pub open spec fn hex_lower(data: Seq<u8>) -> Seq<char>
    decreases data.len(),
{
    if data.len() == 0 {
        Seq::empty()
    } else {
        seq![hex_digit((data[0] / 16) as int), hex_digit((data[0] % 16) as int)] + hex_lower(data.drop_first())
    }
}

/// A lower-case hexadecimal digit: '0' to '9' or 'a' to 'f'.
pub open spec fn is_lower_hex_digit(c: char) -> bool {
    ('0' <= c && c <= '9') || ('a' <= c && c <= 'f')
}

/// The hexadecimal of some bytes has two lower-case hexadecimal digits per
/// byte.
pub proof fn lemma_hex_lower(data: Seq<u8>)
    ensures
        hex_lower(data).len() == 2 * data.len(),
        forall|i: int| 0 <= i < hex_lower(data).len() ==> is_lower_hex_digit(#[trigger] hex_lower(data)[i]),
    decreases data.len(),
{
    if data.len() > 0 {
        lemma_hex_lower(data.drop_first());
        let hi = (data[0] / 16) as int;
        let lo = (data[0] % 16) as int;
        assert(0 <= hi < 16 && 0 <= lo < 16);
        assert(is_lower_hex_digit(hex_digit(hi)));
        assert(is_lower_hex_digit(hex_digit(lo)));
        let h = hex_lower(data);
        let t = hex_lower(data.drop_first());
        assert(h == seq![hex_digit(hi), hex_digit(lo)] + t);
        assert forall|i: int| 0 <= i < h.len() implies is_lower_hex_digit(#[trigger] h[i]) by {
            if i >= 2 {
                assert(h[i] == t[i - 2]);
            }
        }
    }
}

/// Calls `hex::encode`. Claims what its documentation and source state: each
/// byte becomes two lower-case hexadecimal digits, high half first.
#[verifier::external_body]
fn hex_encode(data: &[u8]) -> (r: String)
    ensures
        r@ == hex_lower(data@),
{
    hex::encode(data)
}

/// The rating markers of a restricted title, as `Rating::is_hentai_str`.
pub fn is_hentai_str(rating_str: &str) -> (r: bool)
    ensures
        r == spec_is_hentai_str(rating_str@),
{
    crate::documents::Rating::is_hentai_str(rating_str)
}

/// The media types that are kept.
pub open spec fn spec_is_expected_media_type(s: Seq<char>) -> bool {
    ||| s == seq!['T', 'V']
    ||| s == seq!['M', 'o', 'v', 'i', 'e']
    ||| s == seq!['O', 'V', 'A']
    ||| s == seq!['O', 'N', 'A']
}

/// Whether a media type is kept: "TV", "Movie", "OVA" or "ONA", exactly.
pub fn is_expected_media_type(media_type: &str) -> (r: bool)
    ensures
        r == spec_is_expected_media_type(media_type@),
{
    proof {
        reveal_strlit("TV");
        reveal_strlit("Movie");
        reveal_strlit("OVA");
        reveal_strlit("ONA");
        assert("TV"@ =~= seq!['T', 'V']);
        assert("Movie"@ =~= seq!['M', 'o', 'v', 'i', 'e']);
        assert("OVA"@ =~= seq!['O', 'V', 'A']);
        assert("ONA"@ =~= seq!['O', 'N', 'A']);
    }
    str_eq(media_type, "TV") || str_eq(media_type, "Movie") || str_eq(media_type, "OVA")
        || str_eq(media_type, "ONA")
}

/// The path of an image under the root of raw images: its URL's path without
/// the leading character (the slash).
pub fn relative_img_path(path: &str) -> (r: String)
    requires
        path@.len() > 0,
    ensures
        r@ == path@.drop_first(),
{
    let n = path.unicode_len();
    let rest = path.substring_char(1, n);
    let r = String::from_str(rest);
    assert(r@ =~= path@.drop_first());
    r
}

/// Why an image cannot be placed.
#[derive(Clone, Copy, Debug, PartialEq, Eq, Structural)]
pub enum ImgError {
    /// The image's URL does not parse.
    Url,
    /// The image's URL has an empty path.
    EmptyPath,
}

/// Where the raw copy of the image at `img_url` lies, relative to the root of
/// raw images: the URL's path without its leading slash.
pub fn raw_img_path(img_url: &str) -> (r: Result<String, ImgError>)
    ensures
        url_parse(img_url@) is None ==> r == Err::<String, ImgError>(ImgError::Url),
        url_parse(img_url@) matches Some(u) ==> {
            if url_path_of(u).len() == 0 {
                r == Err::<String, ImgError>(ImgError::EmptyPath)
            } else {
                r matches Ok(p) && p@ == url_path_of(u).drop_first()
            }
        },
{
    let u = match parse_url(img_url) {
        Ok(u) => u,
        Err(_) => {
            return Err(ImgError::Url);
        },
    };
    let path = url_path(&u);
    if path.as_str().unicode_len() == 0 {
        return Err(ImgError::EmptyPath);
    }
    Ok(relative_img_path(path.as_str()))
}

/// The file name under which the image at `img_url` is published:
/// "preview/<kind>/<hex>.jpg", with the lower-case hexadecimal of the first 16
/// bytes of the BLAKE3 digest of the URL's UTF-8 bytes.
pub open spec fn spec_new_img_name(img_url: Seq<char>, item_type: ItemType) -> Seq<char> {
    seq!['p', 'r', 'e', 'v', 'i', 'e', 'w', '/'] + item_type.spec_name().unwrap() + seq!['/']
        + img_hex(img_url) + seq!['.', 'j', 'p', 'g']
}

/// The hexadecimal part of a published image name: the lower-case
/// hexadecimal of the first 16 bytes of the BLAKE3 digest of the URL.
pub open spec fn img_hex(img_url: Seq<char>) -> Seq<char> {
    hex_lower(blake3_hash(vstd::utf8::encode_utf8(img_url)).take(16))
}

/// The published file name of the image at `img_url` for an item of kind
/// `item_type` (a kind with a displayed name).
pub fn new_img_name(img_url: &str, item_type: ItemType) -> (r: String)
    requires
        item_type != ItemType::Unspecified,
    ensures
        r@ == spec_new_img_name(img_url@, item_type),
        img_hex(img_url@).len() == 32,
        forall|i: int| 0 <= i < 32 ==> is_lower_hex_digit(#[trigger] img_hex(img_url@)[i]),
{
    let digest = blake3_digest(img_url.as_bytes());
    proof {
        lemma_hex_lower(digest@.take(16));
    }
    let mut head: Vec<u8> = Vec::new();
    let mut i: usize = 0;
    while i < 16
        invariant
            digest@.len() == 32,
            i <= 16,
            head@ == digest@.take(i as int),
        decreases 16 - i,
    {
        head.push(digest[i]);
        i = i + 1;
        assert(head@ =~= digest@.take(i as int));
    }
    let hex = hex_encode(head.as_slice());
    let kind = match item_type.to_display_string() {
        Some(k) => k,
        None => String::new(),
    };
    proof {
        reveal_strlit("preview/");
        reveal_strlit("/");
        reveal_strlit(".jpg");
    }
    let mut s = String::from_str("preview/");
    s.append(kind.as_str());
    s.append("/");
    s.append(hex.as_str());
    s.append(".jpg");
    assert(s@ =~= spec_new_img_name(img_url@, item_type));
    s
}

/// What becomes of an image that is to be published.
#[derive(Clone, Copy, Debug, PartialEq, Eq, Structural)]
pub enum ImgPlan {
    /// The raw image is missing: the item is left out.
    Missing,
    /// The image was published before: its file name is used as it is.
    Reuse,
    /// The raw image is copied to the new root under its file name.
    Copy,
}

/// Decides what becomes of an image from whether its raw copy exists and
/// whether it was published before.
pub fn plan_new_img(raw_exists: bool, published: bool) -> (r: ImgPlan)
    ensures
        !raw_exists ==> r == ImgPlan::Missing,
        raw_exists && published ==> r == ImgPlan::Reuse,
        raw_exists && !published ==> r == ImgPlan::Copy,
{
    if !raw_exists {
        ImgPlan::Missing
    } else if published {
        ImgPlan::Reuse
    } else {
        ImgPlan::Copy
    }
}

/// The marker of icon images, which are not fetched.
pub open spec fn icon_marker() -> Seq<char> {
    seq!['i', 'c', 'o', 'n']
}

/// Where a fetched image is written: `img_root` followed by the path of its
/// URL; `None` for icons, which are not fetched.
pub fn img_file_name(img_root: &str, img_url: &str) -> (r: Result<Option<String>, ImgError>)
    ensures
        seq_contains(img_url@, icon_marker()) ==> r == Ok::<Option<String>, ImgError>(None),
        !seq_contains(img_url@, icon_marker()) ==> {
            &&& url_parse(img_url@) is None ==> r == Err::<Option<String>, ImgError>(
                ImgError::Url,
            )
            &&& url_parse(img_url@) matches Some(u) ==> (r matches Ok(Some(f)) && f@ == img_root@
                + url_path_of(u))
        },
{
    proof {
        reveal_strlit("icon");
        assert("icon"@ =~= icon_marker());
    }
    if str_contains(img_url, "icon") {
        return Ok(None);
    }
    let u = match parse_url(img_url) {
        Ok(u) => u,
        Err(_) => {
            return Err(ImgError::Url);
        },
    };
    let path = url_path(&u);
    let mut s = String::from_str(img_root);
    s.append(path.as_str());
    Ok(Some(s))
}

} // verus!
