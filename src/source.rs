//! The site profile: base URL, selectors and flags, and the URLs built from it.

use vstd::prelude::*;
use vstd::string::*;
use crate::mapping::{listing_mapping, listing_slug};
use crate::text::{int_text, push_int, push_str};

verus! {

/// How a reader shows the pages of a title.
#[derive(Clone, Copy, Debug, PartialEq, Eq, Structural)]
pub enum MangaViewer {
    Rtl,
    Ltr,
    Vertical,
    Scroll,
}

/// The profile of one site of the template: its base URL, the selectors that
/// locate each record's parts in its pages, and the flags that alter the
/// pipelines.
#[derive(Clone, Debug)]
pub struct WPComicsSource {
    pub base_url: String,
    pub viewer: MangaViewer,
    pub next_page: String,
    pub manga_cell: String,
    pub manga_cell_title: String,
    pub manga_cell_url: String,
    pub manga_cell_image: String,
    pub manga_cell_image_attr: String,
    pub manga_listing_pagination: String,
    pub manga_listing_extension: String,
    pub manga_details_title: String,
    pub manga_details_cover: String,
    pub manga_details_author: String,
    pub manga_details_description: String,
    pub manga_details_tags: String,
    pub manga_details_tags_splitter: String,
    pub manga_details_status: String,
    pub manga_details_chapters: String,
    pub chapter_skip_first: bool,
    pub chapter_anchor_selector: String,
    pub chapter_date_selector: String,
    pub vinahost_protection: bool,
}

/// The site's base URL.
pub open spec fn site_base() -> Seq<char> {
    "https://truyenqqto.com"@
}

/// The profile of the site.
pub fn get_instance() -> (r: WPComicsSource)
    ensures
        r.base_url@ == site_base(),
        r.viewer == MangaViewer::Rtl,
        r.next_page@ == "div.page_redirect span[aria-hidden=true]:contains(›)"@,
        r.manga_cell@ == "ul.list_grid li"@,
        r.manga_cell_title@ == "div.book_info > div.book_name > h3 > a"@,
        r.manga_cell_url@ == "div.book_info > div.book_name > h3 > a"@,
        r.manga_cell_image@ == "div.book_avatar img"@,
        r.manga_cell_image_attr@ == "src"@,
        r.manga_listing_pagination@ == "/trang-"@,
        r.manga_listing_extension@ == ".html"@,
        r.manga_details_title@ == "div.book_other h1[itemprop=name]"@,
        r.manga_details_cover@ == "div.book_avatar img"@,
        r.manga_details_author@ == "li.author.row p.col-xs-9 a"@,
        r.manga_details_description@ == "div.story-detail-info.detail-content"@,
        r.manga_details_tags@ == "ul.list01 > li a"@,
        r.manga_details_tags_splitter@ == ""@,
        r.manga_details_status@ == "li.status.row p.col-xs-9"@,
        r.manga_details_chapters@ == "div.works-chapter-item"@,
        !r.chapter_skip_first,
        r.chapter_anchor_selector@ == "div.name-chap a"@,
        r.chapter_date_selector@ == "div.time-chap"@,
        r.vinahost_protection,
{
    WPComicsSource {
        base_url: String::from_str("https://truyenqqto.com"),
        viewer: MangaViewer::Rtl,
        next_page: String::from_str("div.page_redirect span[aria-hidden=true]:contains(›)"),
        manga_cell: String::from_str("ul.list_grid li"),
        manga_cell_title: String::from_str("div.book_info > div.book_name > h3 > a"),
        manga_cell_url: String::from_str("div.book_info > div.book_name > h3 > a"),
        manga_cell_image: String::from_str("div.book_avatar img"),
        manga_cell_image_attr: String::from_str("src"),
        manga_listing_pagination: String::from_str("/trang-"),
        manga_listing_extension: String::from_str(".html"),
        manga_details_title: String::from_str("div.book_other h1[itemprop=name]"),
        manga_details_cover: String::from_str("div.book_avatar img"),
        manga_details_author: String::from_str("li.author.row p.col-xs-9 a"),
        manga_details_description: String::from_str("div.story-detail-info.detail-content"),
        manga_details_tags: String::from_str("ul.list01 > li a"),
        manga_details_tags_splitter: String::from_str(""),
        manga_details_status: String::from_str("li.status.row p.col-xs-9"),
        manga_details_chapters: String::from_str("div.works-chapter-item"),
        chapter_skip_first: false,
        chapter_anchor_selector: String::from_str("div.name-chap a"),
        chapter_date_selector: String::from_str("div.time-chap"),
        vinahost_protection: true,
    }
}

/// The URL of a page of a listing whose path segment is `slug`.
pub open spec fn listing_url(slug: Seq<char>, page: int) -> Seq<char> {
    site_base() + "/"@ + slug + "/trang-"@ + int_text(page) + ".html"@
}

/// The URL of a page of the listing with the label `label`; `None` where the
/// label names no listing.
pub fn get_manga_listing_url(label: &str, page: i32) -> (r: Option<String>)
    ensures
        listing_slug(label@).len() == 0 ==> r is None,
        listing_slug(label@).len() > 0 ==> (r matches Some(u) && u@ == listing_url(
            listing_slug(label@),
            page as int,
        )),
{
    let slug = listing_mapping(label);
    if slug.as_str().unicode_len() == 0 {
        return None;
    }
    let mut r = String::from_str("https://truyenqqto.com/");
    push_str(&mut r, slug.as_str());
    push_str(&mut r, "/trang-");
    push_int(&mut r, page as i64);
    push_str(&mut r, ".html");
    proof {
        reveal_strlit("https://truyenqqto.com/");
        reveal_strlit("https://truyenqqto.com");
        reveal_strlit("/");
        assert("https://truyenqqto.com/"@ =~= site_base() + "/"@);
    }
    Some(r)
}

/// The URL of the detail page of the title `id`.
pub fn detail_url(id: &str) -> (r: String)
    ensures
        r@ == site_base() + id@,
{
    let mut r = String::from_str("https://truyenqqto.com");
    push_str(&mut r, id);
    r
}

} // verus!
