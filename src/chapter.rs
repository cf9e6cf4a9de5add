//! Chapter rows: chapter numbers read from titles, publish dates, and the
//! chapter records built from the rows of a detail page.

use vstd::prelude::*;
use vstd::string::*;
use crate::mapping::{date_timestamp, is_digit, time_converter};
use crate::text::{chars_of, slice_equals};

verus! {

/// A chapter number as a decimal: `mantissa / 10^scale`.
#[derive(Clone, Copy, Debug, PartialEq, Eq, Structural)]
pub struct ChapterNumber {
    pub mantissa: u64,
    pub scale: usize,
}

/// The value of an ASCII digit, 0 for any other character.
pub open spec fn digit_nat(c: char) -> nat {
    if is_digit(c) { (c as u32 - 48) as nat } else { 0 }
}

/// The number that a run of decimal digits spells.
pub open spec fn digits_number(d: Seq<char>) -> nat
    decreases d.len(),
{
    if d.len() == 0 {
        0
    } else {
        digits_number(d.drop_last()) * 10 + digit_nat(d.last())
    }
}

/// Whether the word for "chapter" (`Chuong` or `Chương`), a space and a
/// digit start at `i`.
pub open spec fn is_chapter_mark_at(s: Seq<char>, i: int) -> bool {
    &&& 0 <= i && i + 8 <= s.len()
    &&& s.subrange(i, i + 6) == "Chuong"@ || s.subrange(i, i + 6) == "Chương"@
    &&& s[i + 6] == ' '
    &&& is_digit(s[i + 7])
}

/// The first position at or after `i` where a chapter mark starts.
pub open spec fn first_mark_from(s: Seq<char>, i: int) -> Option<int>
    decreases s.len() - i,
{
    if i < 0 || i >= s.len() {
        None
    } else if is_chapter_mark_at(s, i) {
        Some(i)
    } else {
        first_mark_from(s, i + 1)
    }
}

/// The end of the run of digits that starts at `i`.
pub open spec fn digit_run_end(s: Seq<char>, i: int) -> int
    decreases s.len() - i,
{
    if 0 <= i < s.len() && is_digit(s[i]) {
        digit_run_end(s, i + 1)
    } else {
        i
    }
}

/// Whether a point and a digit follow at `e`.
pub open spec fn has_fraction(s: Seq<char>, e: int) -> bool {
    0 <= e && e + 1 < s.len() && s[e] == '.' && is_digit(s[e + 1])
}

/// The digits of the number after the chapter mark at `i`, the point left
/// out, and how many of them follow the point.
pub open spec fn captured_number(s: Seq<char>, i: int) -> (Seq<char>, int) {
    let start = i + 7;
    let e1 = digit_run_end(s, start);
    if has_fraction(s, e1) {
        let e2 = digit_run_end(s, e1 + 1);
        (s.subrange(start, e1) + s.subrange(e1 + 1, e2), e2 - e1 - 1)
    } else {
        (s.subrange(start, e1), 0)
    }
}

/// The chapter number of a title on the row at `index`: the number after the
/// first chapter mark, where there is one and its digits fit in 64 bits;
/// else the row's index.
pub open spec fn chapter_number_of(title: Seq<char>, index: int) -> (int, int) {
    match first_mark_from(title, 0) {
        Some(i) => {
            let (d, scale) = captured_number(title, i);
            if digits_number(d) <= u64::MAX {
                (digits_number(d) as int, scale)
            } else {
                (index, 0)
            }
        },
        None => (index, 0),
    }
}

fn digit(c: char) -> (r: bool)
    ensures
        r == is_digit(c),
{
    let v = c as u32;
    48 <= v && v <= 57
}

fn mark_at(c: &Vec<char>, i: usize) -> (r: bool)
    ensures
        r == is_chapter_mark_at(c@, i as int),
{
    if c.len() < 8 || i > c.len() - 8 {
        return false;
    }
    (slice_equals(c, i, i + 6, "Chuong") || slice_equals(c, i, i + 6, "Chương")) && c[i + 6]
        == ' ' && digit(c[i + 7])
}

proof fn lemma_no_mark_near_end(s: Seq<char>, i: int)
    requires
        0 <= i,
        i + 8 > s.len(),
    ensures
        first_mark_from(s, i) is None,
    decreases s.len() - i,
{
    if i < s.len() {
        lemma_no_mark_near_end(s, i + 1);
    }
}

/// Reads the run of digits at `start`, adding them to the number that
/// `prefix` spells (`acc`, where `fits`).
fn read_digits(c: &Vec<char>, start: usize, acc: u64, fits: bool, Ghost(prefix): Ghost<Seq<char>>) -> (r: (usize, u64, bool))
    requires
        start <= c@.len(),
        fits ==> acc == digits_number(prefix),
        !fits ==> digits_number(prefix) > u64::MAX,
    ensures
        r.0 == digit_run_end(c@, start as int),
        start <= r.0 <= c@.len(),
        r.2 ==> r.1 == digits_number(prefix + c@.subrange(start as int, r.0 as int)),
        !r.2 ==> digits_number(prefix + c@.subrange(start as int, r.0 as int)) > u64::MAX,
{
    let mut j = start;
    let mut acc = acc;
    let mut fits = fits;
    assert(prefix + c@.subrange(start as int, start as int) =~= prefix);
    while j < c.len() && digit(c[j])
        invariant
            start <= j <= c@.len(),
            digit_run_end(c@, start as int) == digit_run_end(c@, j as int),
            fits ==> acc == digits_number(prefix + c@.subrange(start as int, j as int)),
            !fits ==> digits_number(prefix + c@.subrange(start as int, j as int)) > u64::MAX,
        decreases c@.len() - j,
    {
        let ghost d = prefix + c@.subrange(start as int, j as int);
        let ghost d2 = prefix + c@.subrange(start as int, j + 1);
        assert(d2.drop_last() =~= d);
        let v = (c[j] as u32 - 48) as u64;
        if fits {
            if acc > (u64::MAX - v) / 10 {
                fits = false;
            } else {
                acc = acc * 10 + v;
            }
        }
        j = j + 1;
    }
    (j, acc, fits)
}

/// The chapter number of a chapter title on the row at `index`: the number
/// after the first `Chuong` or `Chương` and a space, with its decimal
/// fraction if any; the row's index where there is none or it does not fit.
pub fn chapter_number(title: &str, index: usize) -> (r: ChapterNumber)
    ensures
        (r.mantissa as int, r.scale as int) == chapter_number_of(title@, index as int),
{
    let c = chars_of(title);
    let ghost s = c@;
    let n = c.len();
    let mut i: usize = 0;
    let mut found = false;
    while !found && n - i >= 8
        invariant
            s == c@,
            n == s.len(),
            i <= n,
            first_mark_from(s, 0) == first_mark_from(s, i as int),
            found ==> is_chapter_mark_at(s, i as int),
        decreases n - i + (if found { 0int } else { 1 }),
    {
        if mark_at(&c, i) {
            found = true;
        } else {
            i = i + 1;
        }
    }
    if !found {
        proof { lemma_no_mark_near_end(s, i as int); }
        return ChapterNumber { mantissa: index as u64, scale: 0 };
    }
    assert(first_mark_from(s, 0) == Some(i as int));
    let start = i + 7;
    let (e1, m1, fits1) = read_digits(&c, start, 0, true, Ghost(Seq::empty()));
    assert(Seq::<char>::empty() + s.subrange(start as int, e1 as int) =~= s.subrange(start as int, e1 as int));
    let (digits_end, m, fits, scale) = if e1 < n - 1 && c[e1] == '.' && digit(c[e1 + 1]) {
        let ghost whole = s.subrange(start as int, e1 as int);
        let (e2, m2, fits2) = read_digits(&c, e1 + 1, m1, fits1, Ghost(whole));
        (e2, m2, fits2, e2 - e1 - 1)
    } else {
        (e1, m1, fits1, 0)
    };
    if fits {
        ChapterNumber { mantissa: m, scale }
    } else {
        ChapterNumber { mantissa: index as u64, scale: 0 }
    }
}

/// One chapter row of a detail page: the link's target and text, and the
/// text of the date beside it.
#[derive(Clone, Debug)]
pub struct ChapterRow {
    pub url: String,
    pub title: String,
    pub date: String,
}

/// A chapter record.
#[derive(Clone, Debug)]
pub struct Chapter {
    pub id: String,
    pub title: String,
    pub chapter: ChapterNumber,
    pub date_updated: i64,
    pub scanlator: String,
    pub volume: i64,
    pub lang: String,
}

/// Whether `ch` is the record built from `row` at position `index`.
pub open spec fn chapter_from_row(ch: Chapter, row: ChapterRow, index: int) -> bool {
    &&& ch.id@ == row.url@
    &&& ch.title@ == row.title@
    &&& (ch.chapter.mantissa as int, ch.chapter.scale as int) == chapter_number_of(row.title@, index)
    &&& ch.date_updated == date_timestamp(row.date@)
    &&& ch.scanlator@.len() == 0
    &&& ch.volume == -1
    &&& ch.lang@ == "vi-vn"@
}

/// Builds the chapter records of the rows of a detail page, in document
/// order, leaving out the first row where `skip_first` holds. Each record is
/// numbered by its position among the records built.
pub fn get_chapter_list(rows: &Vec<ChapterRow>, skip_first: bool) -> (r: Vec<Chapter>)
    ensures
        ({
            let off: int = if skip_first && rows@.len() > 0 { 1 } else { 0 };
            &&& r@.len() == rows@.len() - off
            &&& forall|k: int| 0 <= k < r@.len() ==> chapter_from_row(#[trigger] r@[k], rows@[k + off], k)
        }),
{
    let off: usize = if skip_first && rows.len() > 0 { 1 } else { 0 };
    let mut r: Vec<Chapter> = Vec::new();
    let mut k: usize = 0;
    while k < rows.len() - off
        invariant
            off <= rows@.len(),
            off == (if skip_first && rows@.len() > 0 { 1int } else { 0 }),
            k + off <= rows@.len(),
            r@.len() == k,
            forall|j: int| 0 <= j < k ==> chapter_from_row(#[trigger] r@[j], rows@[j + off], j),
        decreases rows@.len() - k - off,
    {
        let row = &rows[k + off];
        let ch = Chapter {
            id: row.url.clone(),
            title: row.title.clone(),
            chapter: chapter_number(row.title.as_str(), k),
            date_updated: time_converter(row.date.as_str()),
            scanlator: String::new(),
            volume: -1,
            lang: String::from_str("vi-vn"),
        };
        r.push(ch);
        k = k + 1;
    }
    r
}

} // verus!
