use truyenqq::catalog::{get_manga_details, manga_id, manga_page_result, CatalogCell, DetailPage};
use truyenqq::chapter::{chapter_number, get_chapter_list, ChapterNumber, ChapterRow};
use truyenqq::image::{get_page_list, page_url_transformer};
use truyenqq::mapping::{listing_mapping, status_mapping, time_converter, MangaStatus};
use truyenqq::search::{get_search_url, Filter, FilterKind, FilterValue};
use truyenqq::source::{detail_url, get_instance, get_manga_listing_url, MangaViewer};
use truyenqq::urlencode::{url_decode, url_encode};

const PROXY: &str = "https://images2-focus-opensocial.googleusercontent.com/gadgets/proxy?container=focus&gadget=a&no_expand=1&resize_h=0&rewriteMime=image%2F*&url=";

fn filter(kind: FilterKind, name: &str, value: FilterValue, id: &str) -> Filter {
    Filter { kind, name: name.to_string(), value, id: id.to_string() }
}

fn title(t: &str) -> Filter {
    filter(FilterKind::Title, "Tên truyện", FilterValue::Text(t.to_string()), "")
}

fn genre(id: &str, state: i64) -> Filter {
    filter(FilterKind::Genre, id, FilterValue::Int(state), id)
}

fn num(mantissa: u64, scale: usize) -> ChapterNumber {
    ChapterNumber { mantissa, scale }
}

#[test]
fn chapter_number_with_fraction() {
    assert_eq!(chapter_number("Chương 10.5", 3), num(105, 1));
}

#[test]
fn chapter_number_without_diacritics() {
    assert_eq!(chapter_number("Chuong 7", 0), num(7, 0));
}

#[test]
fn chapter_number_first_mark_wins() {
    assert_eq!(chapter_number("Chương 12 - Chương 13", 9), num(12, 0));
}

#[test]
fn chapter_number_point_without_digits() {
    assert_eq!(chapter_number("Chương 3.x", 9), num(3, 0));
}

#[test]
fn chapter_number_falls_back_to_index() {
    assert_eq!(chapter_number("Tập đặc biệt", 4), num(4, 0));
    assert_eq!(chapter_number("Chương abc", 2), num(2, 0));
    assert_eq!(chapter_number("Chương10", 6), num(6, 0));
    assert_eq!(chapter_number("", 0), num(0, 0));
}

#[test]
fn chapter_number_too_long_falls_back_to_index() {
    assert_eq!(chapter_number("Chương 99999999999999999999", 5), num(5, 0));
    assert_eq!(chapter_number("Chương 18446744073709551615", 5), num(u64::MAX, 0));
}

#[test]
fn chapter_list_from_rows() {
    let rows = vec![
        ChapterRow { url: "/c/2".to_string(), title: "Chương 2".to_string(), date: "15/03/2024".to_string() },
        ChapterRow { url: "/c/x".to_string(), title: "Ngoại truyện".to_string(), date: "2 giờ trước".to_string() },
        ChapterRow { url: "/c/1".to_string(), title: "Chương 1.5".to_string(), date: "01/01/1970".to_string() },
    ];
    let list = get_chapter_list(&rows, false);
    assert_eq!(list.len(), 3);
    assert_eq!(list[0].id, "/c/2");
    assert_eq!(list[0].title, "Chương 2");
    assert_eq!(list[0].chapter, num(2, 0));
    assert_eq!(list[0].date_updated, 1710460800);
    assert_eq!(list[1].chapter, num(1, 0));
    assert_eq!(list[1].date_updated, -1);
    assert_eq!(list[2].chapter, num(15, 1));
    assert_eq!(list[2].date_updated, 0);
    assert_eq!(list[2].volume, -1);
    assert_eq!(list[2].lang, "vi-vn");
    assert_eq!(list[2].scanlator, "");
}

#[test]
fn chapter_list_skips_first_row() {
    let rows = vec![
        ChapterRow { url: "/c/0".to_string(), title: "Thông báo".to_string(), date: String::new() },
        ChapterRow { url: "/c/a".to_string(), title: "Ngoại truyện".to_string(), date: String::new() },
    ];
    let list = get_chapter_list(&rows, true);
    assert_eq!(list.len(), 1);
    assert_eq!(list[0].id, "/c/a");
    assert_eq!(list[0].chapter, num(0, 0));
    assert!(get_chapter_list(&Vec::new(), true).is_empty());
}

#[test]
fn time_converter_epoch_and_next_day() {
    assert_eq!(time_converter("01/01/1970"), 0);
    assert_eq!(time_converter("02/01/1970"), 86400);
    assert_eq!(time_converter("31/12/1969"), -86400);
}

#[test]
fn time_converter_leap_day() {
    assert_eq!(time_converter("29/02/2024"), 1709164800);
    assert_eq!(time_converter("01/03/2024"), 1709251200);
    assert_eq!(time_converter("29/02/2023"), -1);
}

#[test]
fn time_converter_rejects_other_text() {
    assert_eq!(time_converter("2 giờ trước"), -1);
    assert_eq!(time_converter("1/2/2024"), -1);
    assert_eq!(time_converter("32/01/2024"), -1);
    assert_eq!(time_converter("01/13/2024"), -1);
    assert_eq!(time_converter("00/01/2024"), -1);
    assert_eq!(time_converter(""), -1);
}

#[test]
fn status_mapping_values() {
    assert_eq!(status_mapping("Hoàn Thành"), MangaStatus::Completed);
    assert_eq!(status_mapping("Đang Cập Nhật"), MangaStatus::Ongoing);
    assert_eq!(status_mapping("  Đang Cập Nhật \n"), MangaStatus::Ongoing);
    assert_eq!(status_mapping("Tạm ngưng"), MangaStatus::Unknown);
    assert_eq!(status_mapping(""), MangaStatus::Unknown);
}

#[test]
fn listing_labels() {
    assert_eq!(listing_mapping("Truyện con gái"), "truyen-con-gai");
    assert_eq!(listing_mapping("Truyện con trai"), "truyen-con-trai");
    assert_eq!(listing_mapping("Mới cập nhật"), "");
}

#[test]
fn listing_urls() {
    assert_eq!(
        get_manga_listing_url("Truyện con gái", 3),
        Some("https://truyenqqto.com/truyen-con-gai/trang-3.html".to_string())
    );
    assert_eq!(get_manga_listing_url("Khác", 1), None);
}

#[test]
fn search_url_with_title() {
    let fs = vec![genre("action", 1), title("one piece"), filter(FilterKind::Sort, "Sắp xếp theo", FilterValue::Int(2), "")];
    assert_eq!(get_search_url(&fs, 2), "https://truyenqqto.com/tim-kiem/trang-2.html?q=one%20piece");
}

#[test]
fn search_url_title_alone_is_the_same() {
    let fs = vec![genre("action", 1), genre("drama", 0), title("Hoàn")];
    assert_eq!(get_search_url(&fs, 1), get_search_url(&vec![title("Hoàn")], 1));
    assert_eq!(get_search_url(&fs, 1), "https://truyenqqto.com/tim-kiem/trang-1.html?q=Ho%c3%a0n");
}

#[test]
fn search_url_with_genres() {
    let fs = vec![genre("action", 1), genre("drama", 0)];
    let url = get_search_url(&fs, 2);
    assert_eq!(url, "https://truyenqqto.com/tim-kiem-nang-cao.html?category=action&notcategory=drama");
}

#[test]
fn search_url_with_selects() {
    let fs = vec![
        title(""),
        genre("a", 1),
        genre("b", 1),
        genre("", 1),
        genre("c", 2),
        filter(FilterKind::Select, "Tình trạng", FilterValue::Int(2), ""),
        filter(FilterKind::Select, "Quốc gia", FilterValue::Int(0), ""),
        filter(FilterKind::Select, "Số lượng chapter", FilterValue::Int(3), ""),
        filter(FilterKind::Sort, "Sắp xếp theo", FilterValue::Int(4), ""),
        filter(FilterKind::Select, "Khác", FilterValue::Int(1), ""),
    ];
    assert_eq!(
        get_search_url(&fs, 1),
        "https://truyenqqto.com/tim-kiem-nang-cao.html?category=a,b&notcategory=&status=2&country=0&minchapter=200&sort=4"
    );
}

#[test]
fn search_url_omits_unset_values() {
    let fs = vec![
        filter(FilterKind::Select, "Tình trạng", FilterValue::Int(0), ""),
        filter(FilterKind::Select, "Quốc gia", FilterValue::Empty, ""),
        filter(FilterKind::Select, "Số lượng chapter", FilterValue::Int(7), ""),
        filter(FilterKind::Select, "Số lượng chapter", FilterValue::Int(1), ""),
        filter(FilterKind::Sort, "Sắp xếp theo", FilterValue::Int(-1), ""),
    ];
    assert_eq!(
        get_search_url(&fs, 1),
        "https://truyenqqto.com/tim-kiem-nang-cao.html?category=&notcategory=&minchapter=50"
    );
}

#[test]
fn url_encode_values() {
    assert_eq!(url_encode("a b"), "a%20b");
    assert_eq!(url_encode("Hoàn Thành"), "Ho%c3%a0n%20Th%c3%a0nh");
    assert_eq!(url_encode(""), "");
}

#[test]
fn url_round_trip() {
    for t in ["one piece", "Đảo Hải Tặc 2", "", "100% ~ ok"] {
        assert_eq!(url_decode(&url_encode(t)), Some(t.to_string()));
    }
}

#[test]
fn url_decode_values() {
    assert_eq!(url_decode("%41%4a%4A+x"), Some("AJJ+x".to_string()));
    assert_eq!(url_decode("%zz%4"), Some("%zz%4".to_string()));
    assert_eq!(url_decode("%ff"), None);
}

#[test]
fn image_transform_server_two() {
    assert_eq!(
        page_url_transformer("http://img/x.jpg", Some(2)),
        format!("{}http%3a%2f%2fimg%2fx%2ejpg", PROXY)
    );
}

#[test]
fn image_transform_other_servers() {
    assert_eq!(page_url_transformer("http://img/x.jpg", Some(1)), "http://img/x.jpg");
    assert_eq!(page_url_transformer("http://img/x.jpg", None), "http://img/x.jpg");
}

#[test]
fn page_list_in_order() {
    let urls = vec!["http://img/1.jpg".to_string(), "http://img/2.jpg".to_string()];
    let pages = get_page_list(&urls, None);
    assert_eq!(pages.len(), 2);
    assert_eq!(pages[1].index, 1);
    assert_eq!(pages[1].url, "http://img/2.jpg");
    let proxied = get_page_list(&urls, Some(2));
    assert_eq!(proxied[0].url, format!("{}http%3a%2f%2fimg%2f1%2ejpg", PROXY));
}

fn cells(n: usize) -> Vec<CatalogCell> {
    (0..n)
        .map(|i| CatalogCell {
            url: format!("https://truyenqqto.com/truyen-tranh/t-{}", i),
            title: format!("Truyện {}", i),
            cover: format!("https://img/{}.jpg", i),
        })
        .collect()
}

#[test]
fn catalog_page_with_next() {
    let r = manga_page_result(&cells(20), true);
    assert_eq!(r.manga.len(), 20);
    assert!(r.has_more);
    assert_eq!(r.manga[7].id, "/truyen-tranh/t-7");
    assert_eq!(r.manga[7].title, "Truyện 7");
    assert_eq!(r.manga[7].cover, "https://img/7.jpg");
    assert_eq!(r.manga[7].url, "https://truyenqqto.com/truyen-tranh/t-7");
}

#[test]
fn catalog_page_without_next() {
    let r = manga_page_result(&cells(20), false);
    assert_eq!(r.manga.len(), 20);
    assert!(!r.has_more);
    assert!(manga_page_result(&Vec::new(), false).manga.is_empty());
}

#[test]
fn manga_ids() {
    assert_eq!(manga_id("https://truyenqqto.com/truyen-tranh/a"), "/truyen-tranh/a");
    assert_eq!(manga_id("/truyen-tranh/a"), "/truyen-tranh/a");
    assert_eq!(detail_url("/truyen-tranh/a"), "https://truyenqqto.com/truyen-tranh/a");
}

#[test]
fn manga_details_fields() {
    let page = DetailPage {
        title: "Tên".to_string(),
        cover: "https://img/c.jpg".to_string(),
        authors: vec!["A".to_string(), "B".to_string()],
        description: "Mô tả".to_string(),
        tags: vec!["Action".to_string(), "Drama".to_string()],
        status: " Hoàn Thành ".to_string(),
    };
    let m = get_manga_details("/truyen-tranh/a", &page);
    assert_eq!(m.id, "/truyen-tranh/a");
    assert_eq!(m.title, "Tên");
    assert_eq!(m.cover, "https://img/c.jpg");
    assert_eq!(m.author, "A, B");
    assert_eq!(m.artist, "");
    assert_eq!(m.description, "Mô tả");
    assert_eq!(m.url, "https://truyenqqto.com/truyen-tranh/a");
    assert_eq!(m.status, MangaStatus::Completed);
    assert_eq!(m.categories, vec!["Action".to_string(), "Drama".to_string()]);
    assert_eq!(m.viewer, MangaViewer::Rtl);
}

#[test]
fn profile_values() {
    let p = get_instance();
    assert_eq!(p.base_url, "https://truyenqqto.com");
    assert_eq!(p.manga_cell, "ul.list_grid li");
    assert!(!p.chapter_skip_first);
    assert!(p.vinahost_protection);
    assert_eq!(p.viewer, MangaViewer::Rtl);
}
