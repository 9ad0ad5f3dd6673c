use vstd::prelude::*;

verus! {

/// One candidate item fetched from the content source.
pub struct ContentItem {
    pub title: String,
    pub url: Option<String>,
    pub body: String,
    pub thumbnail: Option<String>,
    pub score: Option<i64>,
}

/// The message relayed to a destination for one selected item.
pub struct Relay {
    pub title: String,
    pub url: Option<String>,
    pub description: String,
    pub image: String,
}

/// The view of an optional string.
pub open spec fn opt_view(s: Option<String>) -> Option<Seq<char>> {
    match s {
        Some(t) => Some(t@),
        None => None,
    }
}

/// Whether a thumbnail value is one of the markers that mean "no thumbnail".
pub open spec fn is_placeholder(s: Seq<char>) -> bool {
    s == "self"@ || s == "default"@
}

/// The image shown for a thumbnail field: the field when it holds a real
/// address, else the fallback image.
pub open spec fn resolved_image(thumbnail: Option<Seq<char>>, fallback: Seq<char>) -> Seq<char> {
    match thumbnail {
        Some(t) => if is_placeholder(t) {
            fallback
        } else {
            t
        },
        None => fallback,
    }
}

/// Whether `r` is the message rendered from `item` with fallback image `fallback`.
pub open spec fn renders(r: Relay, item: ContentItem, fallback: Seq<char>) -> bool {
    &&& r.title@ == item.title@
    &&& opt_view(r.url) == opt_view(item.url)
    &&& r.description@ == item.body@
    &&& r.image@ == resolved_image(opt_view(item.thumbnail), fallback)
}

/// Character-wise equality of two strings.
pub fn str_equal(a: &str, b: &str) -> (r: bool)
    ensures
        r == (a@ == b@),
{
    let n = a.unicode_len();
    if n != b.unicode_len() {
        return false;
    }
    let mut i: usize = 0;
    while i < n
        invariant
            n == a@.len(),
            n == b@.len(),
            i <= n,
            a@.subrange(0, i as int) == b@.subrange(0, i as int),
        decreases n - i,
    {
        if a.get_char(i) != b.get_char(i) {
            assert(a@[i as int] != b@[i as int]);
            return false;
        }
        assert(a@.subrange(0, i + 1) == a@.subrange(0, i as int).push(a@[i as int]));
        assert(b@.subrange(0, i + 1) == b@.subrange(0, i as int).push(b@[i as int]));
        i = i + 1;
    }
    assert(a@ == a@.subrange(0, n as int));
    assert(b@ == b@.subrange(0, n as int));
    true
}

/// Whether `s` is `"self"` or `"default"`.
pub fn placeholder(s: &str) -> (r: bool)
    ensures
        r == is_placeholder(s@),
{
    str_equal(s, "self") || str_equal(s, "default")
}

/// The image for a thumbnail field, with `fallback` where the field holds
/// none or a placeholder.
pub fn resolve_thumbnail(thumbnail: &Option<String>, fallback: &String) -> (r: String)
    ensures
        r@ == resolved_image(opt_view(*thumbnail), fallback@),
{
    match thumbnail {
        Some(t) => {
            if placeholder(t.as_str()) {
                fallback.clone()
            } else {
                t.clone()
            }
        },
        None => fallback.clone(),
    }
}

/// A copy of an optional string.
fn copy_opt(s: &Option<String>) -> (r: Option<String>)
    ensures
        opt_view(r) == opt_view(*s),
{
    match s {
        Some(t) => Some(t.clone()),
        None => None,
    }
}

/// The message that relays `item`: its title, address, body and image.
pub fn render(item: &ContentItem, fallback: &String) -> (r: Relay)
    ensures
        renders(r, *item, fallback@),
{
    Relay {
        title: item.title.clone(),
        url: copy_opt(&item.url),
        description: item.body.clone(),
        image: resolve_thumbnail(&item.thumbnail, fallback),
    }
}

} // verus!
