//! Catalog pages and title details, assembled from what was extracted from
//! the site's pages.

use vstd::prelude::*;
use vstd::string::*;
use crate::mapping::{status_mapping, status_of, MangaStatus};
use crate::source::{detail_url, site_base, MangaViewer};
use crate::text::{chars_of, join, lemma_join_push, push_str, slice_equals};

verus! {

/// A title of the catalog.
#[derive(Clone, Debug)]
pub struct Manga {
    pub id: String,
    pub cover: String,
    pub title: String,
    pub author: String,
    pub artist: String,
    pub description: String,
    pub url: String,
    pub status: MangaStatus,
    pub categories: Vec<String>,
    pub viewer: MangaViewer,
}

/// One page of a catalog listing or search.
#[derive(Clone, Debug)]
pub struct MangaPageResult {
    pub manga: Vec<Manga>,
    pub has_more: bool,
}

/// One cell of a catalog page: its link's target and text, and its cover
/// image's URL.
#[derive(Clone, Debug)]
pub struct CatalogCell {
    pub url: String,
    pub title: String,
    pub cover: String,
}

/// What a title's detail page shows.
#[derive(Clone, Debug)]
pub struct DetailPage {
    pub title: String,
    pub cover: String,
    pub authors: Vec<String>,
    pub description: String,
    pub tags: Vec<String>,
    pub status: String,
}

/// The views of a sequence of strings.
pub open spec fn views(v: Seq<String>) -> Seq<Seq<char>> {
    v.map_values(|s: String| s@)
}

/// The identifier of a title from its link: the link without the site's
/// base URL in front, where it has it.
pub open spec fn relative_id(url: Seq<char>) -> Seq<char> {
    let b = site_base();
    if url.len() >= b.len() && url.subrange(0, b.len() as int) == b {
        url.subrange(b.len() as int, url.len() as int)
    } else {
        url
    }
}

/// Whether `m` is the catalog entry of `cell`.
pub open spec fn entry_of_cell(m: Manga, cell: CatalogCell) -> bool {
    &&& m.id@ == relative_id(cell.url@)
    &&& m.title@ == cell.title@
    &&& m.cover@ == cell.cover@
    &&& m.author@.len() == 0 && m.artist@.len() == 0 && m.description@.len() == 0
    &&& m.url@ == site_base() + relative_id(cell.url@)
    &&& m.status == MangaStatus::Unknown
    &&& m.categories@.len() == 0
    &&& m.viewer == MangaViewer::Rtl
}

/// The identifier of a title from its link.
pub fn manga_id(url: &str) -> (r: String)
    ensures
        r@ == relative_id(url@),
{
    let c = chars_of(url);
    let base = "https://truyenqqto.com";
    let nb = base.unicode_len();
    if c.len() >= nb && slice_equals(&c, 0, nb, base) {
        String::from_str(url.substring_char(nb, c.len()))
    } else {
        String::from_str(url)
    }
}

/// The catalog page from the cells of a catalog page, in document order,
/// and whether the page shows a marker of a next page.
pub fn manga_page_result(cells: &Vec<CatalogCell>, has_next: bool) -> (r: MangaPageResult)
    ensures
        r.has_more == has_next,
        r.manga@.len() == cells@.len(),
        forall|k: int| 0 <= k < cells@.len() ==> entry_of_cell(#[trigger] r.manga@[k], cells@[k]),
{
    let mut manga: Vec<Manga> = Vec::new();
    let mut k: usize = 0;
    while k < cells.len()
        invariant
            k <= cells@.len(),
            manga@.len() == k,
            forall|j: int| 0 <= j < k ==> entry_of_cell(#[trigger] manga@[j], cells@[j]),
        decreases cells@.len() - k,
    {
        let cell = &cells[k];
        let id = manga_id(cell.url.as_str());
        let url = detail_url(id.as_str());
        manga.push(Manga {
            id,
            cover: cell.cover.clone(),
            title: cell.title.clone(),
            author: String::new(),
            artist: String::new(),
            description: String::new(),
            url,
            status: MangaStatus::Unknown,
            categories: Vec::new(),
            viewer: MangaViewer::Rtl,
        });
        k = k + 1;
    }
    MangaPageResult { manga, has_more: has_next }
}

/// The texts joined with `sep` between each two.
pub fn join_strings(parts: &Vec<String>, sep: &str) -> (r: String)
    ensures
        r@ == join(views(parts@), sep@),
{
    let mut r = String::new();
    let mut k: usize = 0;
    while k < parts.len()
        invariant
            k <= parts@.len(),
            r@ == join(views(parts@.subrange(0, k as int)), sep@),
        decreases parts@.len() - k,
    {
        proof {
            assert(views(parts@.subrange(0, k + 1)) =~= views(parts@.subrange(0, k as int)).push(parts@[k as int]@));
            lemma_join_push(views(parts@.subrange(0, k as int)), sep@, parts@[k as int]@);
        }
        if k > 0 {
            push_str(&mut r, sep);
        }
        push_str(&mut r, parts[k].as_str());
        k = k + 1;
    }
    assert(parts@.subrange(0, parts@.len() as int) =~= parts@);
    r
}

fn copy_strings(v: &Vec<String>) -> (r: Vec<String>)
    ensures
        r@ == v@,
{
    let mut r: Vec<String> = Vec::new();
    let mut k: usize = 0;
    while k < v.len()
        invariant
            k <= v@.len(),
            r@ == v@.subrange(0, k as int),
        decreases v@.len() - k,
    {
        r.push(v[k].clone());
        k = k + 1;
    }
    assert(r@ =~= v@);
    r
}

/// The details of the title `id` from what its detail page shows: the
/// authors joined with ", ", the tags one category each, the status mapped
/// from its text.
pub fn get_manga_details(id: &str, page: &DetailPage) -> (r: Manga)
    ensures
        r.id@ == id@,
        r.title@ == page.title@,
        r.cover@ == page.cover@,
        r.author@ == join(views(page.authors@), ", "@),
        r.artist@.len() == 0,
        r.description@ == page.description@,
        r.url@ == site_base() + id@,
        r.status == status_of(page.status@),
        r.categories@ == page.tags@,
        r.viewer == MangaViewer::Rtl,
{
    Manga {
        id: String::from_str(id),
        cover: page.cover.clone(),
        title: page.title.clone(),
        author: join_strings(&page.authors, ", "),
        artist: String::new(),
        description: page.description.clone(),
        url: detail_url(id),
        status: status_mapping(page.status.as_str()),
        categories: copy_strings(&page.tags),
        viewer: MangaViewer::Rtl,
    }
}

} // verus!
