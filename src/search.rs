//! Search filters and the search URL that they give.

use vstd::prelude::*;
use vstd::string::*;
use crate::text::{int_text, join, lemma_join_push, push_int, push_str, str_equals};
use crate::urlencode::{url_encode, url_encoded};

verus! {

/// The kind of a search filter.
#[derive(Clone, Copy, Debug, PartialEq, Eq, Structural)]
pub enum FilterKind {
    Title,
    Genre,
    Select,
    Sort,
}

/// The value that a filter carries.
#[derive(Clone, Debug)]
pub enum FilterValue {
    Text(String),
    Int(i64),
    Empty,
}

/// A search criterion: its kind, its display name, its value and, for a
/// genre, the genre's identifier (empty where it has none).
#[derive(Clone, Debug)]
pub struct Filter {
    pub kind: FilterKind,
    pub name: String,
    pub value: FilterValue,
    pub id: String,
}

/// A filter's value read as text; empty where it holds none.
pub open spec fn text_value(v: FilterValue) -> Seq<char> {
    match v {
        FilterValue::Text(s) => s@,
        _ => Seq::empty(),
    }
}

/// A filter's value read as an integer; -1 where it holds none.
pub open spec fn int_value(v: FilterValue) -> int {
    match v {
        FilterValue::Int(i) => i as int,
        _ => -1,
    }
}

/// A title filter whose encoded text is not empty: it asks for a keyword search.
pub open spec fn is_title_query(f: Filter) -> bool {
    f.kind == FilterKind::Title && url_encoded(text_value(f.value)).len() > 0
}

/// The first title query at or after `i`.
pub open spec fn first_title_from(fs: Seq<Filter>, i: int) -> Option<int>
    decreases fs.len() - i,
{
    if i < 0 || i >= fs.len() {
        None
    } else if is_title_query(fs[i]) {
        Some(i)
    } else {
        first_title_from(fs, i + 1)
    }
}

/// The identifiers of the genre filters whose value is `state`
/// (1: included, 0: excluded), in order.
pub open spec fn genre_ids(fs: Seq<Filter>, state: int) -> Seq<Seq<char>>
    decreases fs.len(),
{
    if fs.len() == 0 {
        Seq::empty()
    } else {
        let f = fs.last();
        let rest = genre_ids(fs.drop_last(), state);
        if f.kind == FilterKind::Genre && f.id@.len() > 0 && int_value(f.value) == state {
            rest.push(f.id@)
        } else {
            rest
        }
    }
}

/// The smallest chapter count for each choice of the chapter-count filter.
pub open spec fn min_chapter_threshold(i: int) -> int {
    if i == 0 { 0 } else if i == 1 { 50 } else { 100 * (i - 1) }
}

/// The query parameter that one filter adds to an advanced search.
pub open spec fn filter_param(f: Filter) -> Seq<char> {
    let v = int_value(f.value);
    if f.kind == FilterKind::Title || f.kind == FilterKind::Genre {
        Seq::empty()
    } else if f.name@ == "Tình trạng"@ {
        if v >= 1 { "&status="@ + int_text(v) } else { Seq::empty() }
    } else if f.name@ == "Quốc gia"@ {
        if v >= 0 { "&country="@ + int_text(v) } else { Seq::empty() }
    } else if f.name@ == "Số lượng chapter"@ {
        if 0 <= v <= 6 { "&minchapter="@ + int_text(min_chapter_threshold(v)) } else { Seq::empty() }
    } else if f.name@ == "Sắp xếp theo"@ {
        if v >= 0 { "&sort="@ + int_text(v) } else { Seq::empty() }
    } else {
        Seq::empty()
    }
}

/// The query parameters of all filters, in order.
pub open spec fn query_of(fs: Seq<Filter>) -> Seq<char>
    decreases fs.len(),
{
    if fs.len() == 0 {
        Seq::empty()
    } else {
        query_of(fs.drop_last()) + filter_param(fs.last())
    }
}

/// The keyword search URL for an encoded title.
pub open spec fn title_search_url(page: int, encoded: Seq<char>) -> Seq<char> {
    "https://truyenqqto.com/tim-kiem/trang-"@ + int_text(page) + ".html?q="@ + encoded
}

/// The advanced search URL for a filter set without title query.
pub open spec fn advanced_search_url(fs: Seq<Filter>) -> Seq<char> {
    "https://truyenqqto.com/tim-kiem-nang-cao.html?category="@ + join(genre_ids(fs, 1), ","@)
        + "&notcategory="@ + join(genre_ids(fs, 0), ","@) + query_of(fs)
}

/// The search URL for a filter set and a page.
pub open spec fn search_url(fs: Seq<Filter>, page: int) -> Seq<char> {
    match first_title_from(fs, 0) {
        Some(k) => title_search_url(page, url_encoded(text_value(fs[k].value))),
        None => advanced_search_url(fs),
    }
}

proof fn lemma_first_title(fs: Seq<Filter>, j: int, k: int)
    requires
        0 <= j <= k < fs.len(),
        is_title_query(fs[k]),
        forall|i: int| 0 <= i < k ==> !is_title_query(#[trigger] fs[i]),
    ensures
        first_title_from(fs, j) == Some(k),
    decreases k - j,
{
    if j < k {
        lemma_first_title(fs, j + 1, k);
    }
}

/// A title query decides the search URL alone: the URL is the keyword
/// search that ends with the first non-empty title, encoded, and it is the
/// same as for that title filter with no other filter beside it.
pub proof fn lemma_title_query_overrides(fs: Seq<Filter>, page: int, k: int)
    requires
        0 <= k < fs.len(),
        is_title_query(fs[k]),
        forall|i: int| 0 <= i < k ==> !is_title_query(#[trigger] fs[i]),
    ensures
        search_url(fs, page) == title_search_url(page, url_encoded(text_value(fs[k].value))),
        search_url(fs, page) == search_url(seq![fs[k]], page),
{
    lemma_first_title(fs, 0, k);
    lemma_first_title(seq![fs[k]], 0, 0);
}

fn as_int(v: &FilterValue) -> (r: i64)
    ensures
        r == int_value(*v),
{
    match v {
        FilterValue::Int(i) => *i,
        _ => -1,
    }
}

fn push_param(q: &mut String, key: &str, v: i64)
    ensures
        final(q)@ == old(q)@ + key@ + int_text(v as int),
{
    push_str(q, key);
    push_int(q, v);
}

fn push_filter_param(q: &mut String, f: &Filter)
    requires
        f.kind != FilterKind::Title,
        f.kind != FilterKind::Genre,
    ensures
        final(q)@ == old(q)@ + filter_param(*f),
{
    let v = as_int(&f.value);
    let name = f.name.as_str();
    if str_equals(name, "Tình trạng") {
        if v >= 1 {
            push_param(q, "&status=", v);
        }
    } else if str_equals(name, "Quốc gia") {
        if v >= 0 {
            push_param(q, "&country=", v);
        }
    } else if str_equals(name, "Số lượng chapter") {
        if 0 <= v && v <= 6 {
            let t: i64 = if v == 0 { 0 } else if v == 1 { 50 } else { 100 * (v - 1) };
            push_param(q, "&minchapter=", t);
        }
    } else if str_equals(name, "Sắp xếp theo") {
        if v >= 0 {
            push_param(q, "&sort=", v);
        }
    }
    assert(final(q)@ =~= old(q)@ + filter_param(*f));
}

/// Builds the search URL for `filters` and `page`: the keyword search for the
/// first title query, or else the advanced search from the other filters.
pub fn get_search_url(filters: &Vec<Filter>, page: i32) -> (r: String)
    ensures
        r@ == search_url(filters@, page as int),
{
    let ghost fs = filters@;
    let mut included = String::new();
    let mut n_included: usize = 0;
    let mut excluded = String::new();
    let mut n_excluded: usize = 0;
    let mut query = String::new();
    let mut i: usize = 0;
    while i < filters.len()
        invariant
            fs == filters@,
            i <= fs.len(),
            first_title_from(fs, 0) == first_title_from(fs, i as int),
            included@ == join(genre_ids(fs.subrange(0, i as int), 1), ","@),
            n_included == genre_ids(fs.subrange(0, i as int), 1).len(),
            excluded@ == join(genre_ids(fs.subrange(0, i as int), 0), ","@),
            n_excluded == genre_ids(fs.subrange(0, i as int), 0).len(),
            query@ == query_of(fs.subrange(0, i as int)),
            n_included <= i,
            n_excluded <= i,
        decreases fs.len() - i,
    {
        let f = &filters[i];
        let ghost pre = fs.subrange(0, i as int);
        let ghost now = fs.subrange(0, i + 1);
        assert(now.drop_last() =~= pre);
        match f.kind {
            FilterKind::Title => {
                let empty = String::new();
                let text = match &f.value {
                    FilterValue::Text(s) => s,
                    _ => &empty,
                };
                let title = url_encode(text.as_str());
                if title.as_str().unicode_len() > 0 {
                    let mut r = String::from_str("https://truyenqqto.com/tim-kiem/trang-");
                    push_int(&mut r, page as i64);
                    push_str(&mut r, ".html?q=");
                    push_str(&mut r, title.as_str());
                    return r;
                }
            },
            FilterKind::Genre => {
                let v = as_int(&f.value);
                if f.id.as_str().unicode_len() > 0 {
                    if v == 1 {
                        proof { lemma_join_push(genre_ids(pre, 1), ","@, f.id@); }
                        if n_included > 0 {
                            push_str(&mut included, ",");
                        }
                        push_str(&mut included, f.id.as_str());
                        n_included = n_included + 1;
                    } else if v == 0 {
                        proof { lemma_join_push(genre_ids(pre, 0), ","@, f.id@); }
                        if n_excluded > 0 {
                            push_str(&mut excluded, ",");
                        }
                        push_str(&mut excluded, f.id.as_str());
                        n_excluded = n_excluded + 1;
                    }
                }
            },
            _ => {
                push_filter_param(&mut query, f);
            },
        }
        i = i + 1;
    }
    assert(fs.subrange(0, fs.len() as int) =~= fs);
    let mut r = String::from_str("https://truyenqqto.com/tim-kiem-nang-cao.html?category=");
    push_str(&mut r, included.as_str());
    push_str(&mut r, "&notcategory=");
    push_str(&mut r, excluded.as_str());
    push_str(&mut r, query.as_str());
    r
}

} // verus!
