//! Server icons shown on the keys: the URL they are downloaded from, and
//! the data URI made of the downloaded bytes.

use vstd::prelude::*;
use crate::text::{lemma_first_index_of, lemma_last_index_of, ascii_lower, ascii_lower_chars, chars_of, ends_with_chars, find_char, first_index_of, has_suffix, last_index_of, rfind_char, push_chars};

verus! {

/// The standard base64 text (RFC 4648 alphabet, with `=` padding) of `bytes`.
pub uninterp spec fn base64_standard(bytes: Seq<u8>) -> Seq<char>;

/// `base64::engine::general_purpose::STANDARD.encode`: the standard base64
/// text of `bytes`, four characters for every three bytes or part of three.
/// It panics when that length overflows `usize`, which `requires` leaves out.
#[verifier::external_body]
fn base64_encode(bytes: &[u8]) -> (s: String)
    requires
        4 * ((bytes@.len() + 2) / 3) <= usize::MAX,
    ensures
        s@ == base64_standard(bytes@),
        s@.len() == 4 * ((bytes@.len() + 2) / 3),
{
    base64::Engine::encode(&base64::engine::general_purpose::STANDARD, bytes)
}

/// The data URI of a PNG image given its base64 text.
pub fn data_uri_from_base64(encoded: &str) -> (uri: String)
    ensures
        uri@ == "data:image/png;base64,"@ + encoded@,
{
    crate::text::concat("data:image/png;base64,", encoded)
}

/// The data URI of a downloaded icon.
pub fn icon_data_uri(bytes: &[u8]) -> (uri: String)
    requires
        4 * ((bytes@.len() + 2) / 3) <= usize::MAX,
    ensures
        uri@ == "data:image/png;base64,"@ + base64_standard(bytes@),
{
    let encoded = base64_encode(bytes);
    data_uri_from_base64(encoded.as_str())
}

/// The part of a URL before its first `?`.
pub open spec fn url_base(url: Seq<char>) -> Seq<char> {
    let i = first_index_of(url, '?');
    if i < 0 {
        url
    } else {
        url.take(i)
    }
}

/// The path ends, in any letter case, in `.webp`, `.gif`, `.jpg` or `.jpeg`.
pub open spec fn has_raster_extension(base: Seq<char>) -> bool {
    let l = ascii_lower(base);
    has_suffix(l, ".webp"@) || has_suffix(l, ".gif"@) || has_suffix(l, ".jpg"@) || has_suffix(l, ".jpeg"@)
}

/// `base` without its last `.` and what follows it.
pub open spec fn without_extension(base: Seq<char>) -> Seq<char> {
    let k = last_index_of(base, '.');
    if k < 0 {
        base
    } else {
        base.take(k)
    }
}

/// The URL an icon is downloaded from: the query dropped, an image in
/// another format asked for as PNG, and the size set to 128 pixels.
pub open spec fn icon_download_url(url: Seq<char>) -> Seq<char> {
    let base = url_base(url);
    (if has_raster_extension(base) {
        without_extension(base) + ".png"@
    } else {
        base
    }) + "?size=128"@
}

/// The URL an icon is downloaded from.
pub fn download_url(icon_url: &str) -> (r: String)
    ensures
        r@ == icon_download_url(icon_url@),
{
    let v = chars_of(icon_url);
    let q = find_char(&v, '?');
    let ghost base = url_base(v@);
    assert(base == v@.take(q as int));
    let lower_all = ascii_lower_chars(&v);
    let lower = crate::text::vec_range(&lower_all, 0, q);
    assert(lower@ =~= ascii_lower(base));
    let raster = ends_with_chars(&lower, &chars_of(".webp")) || ends_with_chars(&lower, &chars_of(".gif"))
        || ends_with_chars(&lower, &chars_of(".jpg")) || ends_with_chars(&lower, &chars_of(".jpeg"));
    let mut r = String::new();
    if raster {
        let b = crate::text::vec_range(&v, 0, q);
        assert(b@ =~= base);
        let cut = match rfind_char(&b, '.') {
            Some(k) => k,
            None => q,
        };
        push_chars(&mut r, &b, 0, cut);
        assert(Seq::<char>::empty() + b@.subrange(0, cut as int) =~= without_extension(base));
        r.append(".png");
    } else {
        push_chars(&mut r, &v, 0, q);
        assert(Seq::<char>::empty() + v@.subrange(0, q as int) =~= base);
    }
    r.append("?size=128");
    r
}


proof fn lemma_first_index_at_join(a: Seq<char>, b: Seq<char>, c: char)
    requires
        forall|k: int| 0 <= k < a.len() ==> a[k] != c,
        b.len() > 0,
        b[0] == c,
    ensures
        first_index_of(a + b, c) == a.len(),
{
    let n = a + b;
    lemma_first_index_of(n, c);
    assert(n[a.len() as int] == c);
    let r = first_index_of(n, c);
    if r < 0 || r > a.len() {
        assert(n[a.len() as int] != c);
    }
    if 0 <= r < a.len() {
        assert(n[r] == a[r]);
    }
}

proof fn lemma_base_has_no_query(url: Seq<char>)
    ensures
        forall|k: int| 0 <= k < url_base(url).len() ==> url_base(url)[k] != '?',
{
    lemma_first_index_of(url, '?');
}

proof fn lemma_png_is_not_raster(w: Seq<char>)
    ensures
        !has_raster_extension(w + ".png"@),
{
    reveal_strlit(".png");
    reveal_strlit(".webp");
    reveal_strlit(".gif");
    reveal_strlit(".jpg");
    reveal_strlit(".jpeg");
    let b = w + ".png"@;
    let l = ascii_lower(b);
    let n = b.len() as int;
    assert(l.len() == n);
    assert(l[n - 1] == 'g');
    assert(l[n - 3] == 'p');
    assert(l[n - 4] == '.');
    if has_suffix(l, ".webp"@) {
        assert(l.subrange(n - 5, n)[4] == 'p');
    }
    if has_suffix(l, ".gif"@) {
        assert(l.subrange(n - 4, n)[3] == 'f');
    }
    if has_suffix(l, ".jpg"@) {
        assert(l.subrange(n - 4, n)[1] == 'j');
    }
    if has_suffix(l, ".jpeg"@) {
        assert(l.subrange(n - 5, n)[1] == 'j');
    }
}

/// Normalizing a download URL a second time leaves it as it is.
pub proof fn lemma_icon_download_url_idempotent(url: Seq<char>)
    ensures
        icon_download_url(icon_download_url(url)) == icon_download_url(url),
{
    reveal_strlit("?size=128");
    reveal_strlit(".png");
    let base = url_base(url);
    lemma_base_has_no_query(url);
    let head = if has_raster_extension(base) {
        without_extension(base) + ".png"@
    } else {
        base
    };
    assert forall|k: int| 0 <= k < head.len() implies head[k] != '?' by {
        if has_raster_extension(base) {
            lemma_last_index_of(base, '.');
            let w = without_extension(base);
            if k < w.len() {
                assert(head[k] == w[k]);
                assert(w[k] == base[k]);
            } else {
                assert(head[k] == ".png"@[k - w.len()]);
            }
        }
    }
    let n = head + "?size=128"@;
    assert(n == icon_download_url(url));
    lemma_first_index_at_join(head, "?size=128"@, '?');
    assert(url_base(n) =~= head);
    if has_raster_extension(base) {
        lemma_png_is_not_raster(without_extension(base));
    }
    assert(!has_raster_extension(head));
}

} // verus!
