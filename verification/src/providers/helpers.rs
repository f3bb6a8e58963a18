//! Multimodal helpers shared by the providers that take images inline.
use vstd::prelude::*;

use crate::providers::sse::data_prefix;
use crate::text::{
    chars_of, contains_chars, contains_seq, find_char, first_index, has_prefix, lowercase_text,
    string_of_range, to_lowercase,
};

verus! {

/// The parts of a `data:<media_type>;<encoding>,<data>` URL: the media type
/// (up to the first `;` before the first `,`) and the data (after the first
/// `,`). Nothing when the URL does not have that shape.
pub open spec fn data_url_parts(url: Seq<char>) -> Option<(Seq<char>, Seq<char>)> {
    if !data_prefix().is_prefix_of(url) {
        None
    } else {
        let rest = url.subrange(5, url.len() as int);
        let c = first_index(rest, ',');
        if c < 0 {
            None
        } else {
            let meta = rest.subrange(0, c);
            let data = rest.subrange(c + 1, rest.len() as int);
            let s = first_index(meta, ';');
            if s < 0 {
                None
            } else {
                Some((meta.subrange(0, s), data))
            }
        }
    }
}

/// Parses a `data:<media_type>;base64,<data>` URL into `(media_type, data)`;
/// `None` if the URL is not such a data URL.
pub fn parse_data_url(url: &str) -> (r: Option<(String, String)>)
    ensures
        match (r, data_url_parts(url@)) {
            (Some((m, d)), Some((sm, sd))) => m@ == sm && d@ == sd,
            (None, None) => true,
            _ => false,
        },
{
    let v = chars_of(url);
    let prefix = vec!['d', 'a', 't', 'a', ':'];
    assert(prefix@ =~= data_prefix());
    if !has_prefix(&v, &prefix) {
        return None;
    }
    let n = v.len();
    let comma = find_char(&v, ',', 5, n);
    let ghost rest = v@.subrange(5, n as int);
    if comma == n {
        return None;
    }
    let semi = find_char(&v, ';', 5, comma);
    proof {
        assert(rest.subrange(0, comma - 5) =~= v@.subrange(5, comma as int));
        assert(rest.subrange(comma - 5 + 1, rest.len() as int) =~= v@.subrange(comma + 1, n as int));
    }
    if semi == comma {
        return None;
    }
    proof {
        assert(v@.subrange(5, comma as int).subrange(0, semi - 5) =~= v@.subrange(5, semi as int));
    }
    let media_type = string_of_range(&v, 5, semi);
    let data = string_of_range(&v, comma + 1, n);
    Some((media_type, data))
}

/// The MIME type guessed from an image URL: by extension, looked up in the
/// lower-cased URL; JPEG when nothing matches.
pub open spec fn guessed_image_mime(lower: Seq<char>) -> Seq<char> {
    if contains_seq(lower, ".png"@) {
        "image/png"@
    } else if contains_seq(lower, ".gif"@) {
        "image/gif"@
    } else if contains_seq(lower, ".webp"@) {
        "image/webp"@
    } else {
        "image/jpeg"@
    }
}

/// The MIME type of an image whose URL is already lower-cased: by the first
/// of `.png`, `.gif`, `.webp` that occurs in it; JPEG when none does.
pub fn image_mime_for_lowercase_url(lower: &str) -> (r: &'static str)
    ensures
        r@ == guessed_image_mime(lower@),
{
    let lv = chars_of(lower);
    let png = vec!['.', 'p', 'n', 'g'];
    let gif = vec!['.', 'g', 'i', 'f'];
    let webp = vec!['.', 'w', 'e', 'b', 'p'];
    proof {
        reveal_strlit(".png");
        reveal_strlit(".gif");
        reveal_strlit(".webp");
        assert(png@ =~= ".png"@);
        assert(gif@ =~= ".gif"@);
        assert(webp@ =~= ".webp"@);
    }
    if contains_chars(&lv, &png) {
        "image/png"
    } else if contains_chars(&lv, &gif) {
        "image/gif"
    } else if contains_chars(&lv, &webp) {
        "image/webp"
    } else {
        "image/jpeg"
    }
}

/// Guesses the MIME type of an image from its URL extension, looked up in
/// the lower-cased URL. Defaults to `"image/jpeg"` for unknown extensions.
pub fn guess_image_mime_type(url: &str) -> (r: &'static str)
    ensures
        r@ == guessed_image_mime(lowercase_text(url@)),
{
    let lower = to_lowercase(url);
    image_mime_for_lowercase_url(lower.as_str())
}

} // verus!
