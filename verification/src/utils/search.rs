//! The web search that feeds the narrative with news.

use vstd::prelude::*;
use vstd::string::*;
use vstd::utf8::encode_utf8;
use crate::calendar::{formatted_time, representable, time_text};
use crate::decimal::digit_char;
use crate::json::text_member;
use crate::json::JsonValue;
use crate::text::join;

verus! {

/// What kind of results a search asks for.
#[derive(Debug, Clone, Copy, PartialEq, Eq, Structural)]
pub enum SearchCategory {
    General,
    News,
}

/// One result of a search; each part may be missing.
#[derive(Debug, Clone, PartialEq, Eq)]
pub struct SearchResult {
    pub url: Option<String>,
    pub title: Option<String>,
    pub content: Option<String>,
}

/// A search result as a mathematical value.
pub struct SearchHit {
    pub url: Option<Seq<char>>,
    pub title: Option<Seq<char>>,
    pub content: Option<Seq<char>>,
}

/// The characters of a text that may be missing.
pub open spec fn optional_text(text: Option<String>) -> Option<Seq<char>> {
    match text {
        Some(t) => Some(t@),
        None => None,
    }
}

impl View for SearchResult {
    type V = SearchHit;

    open spec fn view(&self) -> SearchHit {
        SearchHit {
            url: optional_text(self.url),
            title: optional_text(self.title),
            content: optional_text(self.content),
        }
    }
}

/// The mathematical values of a list of results.
pub open spec fn hits(list: Seq<SearchResult>) -> Seq<SearchHit> {
    list.map_values(|r: SearchResult| r@)
}

/// Whether a byte is an ASCII letter or digit.
pub open spec fn is_alphanumeric(byte: u8) -> bool {
    (0x30 <= byte <= 0x39) || (0x41 <= byte <= 0x5A) || (0x61 <= byte <= 0x7A)
}

/// One of the sixteen hexadecimal digits, the letters in upper case.
pub open spec fn hex_digit(n: int) -> char {
    if n < 10 {
        digit_char(n)
    } else if n == 10 {
        'A'
    } else if n == 11 {
        'B'
    } else if n == 12 {
        'C'
    } else if n == 13 {
        'D'
    } else if n == 14 {
        'E'
    } else {
        'F'
    }
}

/// A byte as it is written in an address: a letter or digit stands for
/// itself, any other byte is a percent sign and its two hexadecimal digits.
pub open spec fn encoded_byte(byte: u8) -> Seq<char> {
    if is_alphanumeric(byte) {
        seq![byte as char]
    } else {
        seq!['%', hex_digit(byte as int / 16), hex_digit(byte as int % 16)]
    }
}

/// A sequence of bytes as it is written in an address.
pub open spec fn encoded_bytes(bytes: Seq<u8>) -> Seq<char>
    decreases bytes.len(),
{
    if bytes.len() == 0 {
        Seq::empty()
    } else {
        encoded_bytes(bytes.drop_last()) + encoded_byte(bytes.last())
    }
}

/// A text as it is written in an address: the bytes of its UTF-8 form, each
/// written as `encoded_byte` says.
pub open spec fn percent_encoded(text: Seq<char>) -> Seq<char> {
    encoded_bytes(encode_utf8(text))
}

/// Calls `percent_encoding::utf8_percent_encode` with the set
/// `NON_ALPHANUMERIC`, which leaves the ASCII letters and digits of the UTF-8
/// form as they are and writes every other byte as a percent sign and two
/// hexadecimal digits in upper case.
#[verifier::external_body]
fn percent_encode(text: &str) -> (r: String)
    ensures
        r@ == percent_encoded(text@),
{
    percent_encoding::utf8_percent_encode(text, percent_encoding::NON_ALPHANUMERIC).to_string()
}

/// The name of a category in a query.
pub open spec fn category_name(category: SearchCategory) -> Seq<char> {
    match category {
        SearchCategory::General => "general"@,
        SearchCategory::News => "news"@,
    }
}

/// The address of a query, given the keyword as it is written in an address.
pub open spec fn query_url(
    base_url: Seq<char>,
    encoded: Seq<char>,
    category: SearchCategory,
) -> Seq<char> {
    base_url + "/search?q="@ + encoded + "&format=json&safesearch=0&categories="@ + category_name(
        category,
    )
}

/// Builds the address of a query from a keyword that is already encoded.
pub fn encoded_search_url(base_url: &str, encoded: &str, category: SearchCategory) -> (r: String)
    ensures
        r@ == query_url(base_url@, encoded@, category),
{
    let mut url = join(base_url, "/search?q=");
    url.append(encoded);
    url.append("&format=json&safesearch=0&categories=");
    match category {
        SearchCategory::General => url.append("general"),
        SearchCategory::News => url.append("news"),
    }
    url
}

/// Builds the address that asks the search service for a keyword.
pub fn search_url(base_url: &str, keyword: &str, category: SearchCategory) -> (r: String)
    ensures
        r@ == query_url(base_url@, percent_encoded(keyword@), category),
{
    let encoded = percent_encode(keyword);
    encoded_search_url(base_url, encoded.as_str(), category)
}

/// The keyword that asks for the news of the day of an instant.
pub fn news_keyword(now: i64) -> (r: String)
    requires
        representable(now as int),
    ensures
        r@ == "news on "@ + formatted_time(now as int, "%Y %m %d"@),
{
    let date = time_text(now, "%Y %m %d");
    join("news on ", date.as_str())
}

/// The result that one item of the answer describes.
pub open spec fn hit_of(item: JsonValue) -> SearchHit {
    SearchHit {
        url: text_member(item, "url"@),
        title: text_member(item, "title"@),
        content: text_member(item, "content"@),
    }
}

/// The results that a list of items describes.
pub open spec fn hits_of(items: Seq<JsonValue>) -> Seq<SearchHit> {
    items.map_values(|item: JsonValue| hit_of(item))
}

/// The results that an answer lists under `results`, up to `max` of them. An
/// answer without such a list gives none.
pub open spec fn listed_hits(document: JsonValue, max: int) -> Seq<SearchHit> {
    match document.member("results"@) {
        Some(results) => match results.items() {
            Some(items) => hits_of(
                items.take(
                    if max < items.len() {
                        max
                    } else {
                        items.len() as int
                    },
                ),
            ),
            None => Seq::empty(),
        },
        None => Seq::empty(),
    }
}

fn text_of(item: &JsonValue, key: &str) -> (r: Option<String>)
    ensures
        optional_text(r) == text_member(*item, key@),
{
    match item.get(key) {
        Some(value) => match value.as_str() {
            Some(text) => Some(String::from_str(text)),
            None => None,
        },
        None => None,
    }
}

/// Reads up to `max` results from the answer of the search service.
pub fn get_news(document: &JsonValue, max: u8) -> (r: Vec<SearchResult>)
    ensures
        hits(r@) == listed_hits(*document, max as int),
{
    let mut list: Vec<SearchResult> = Vec::new();
    let results = match document.get("results") {
        Some(results) => results.as_array(),
        None => None,
    };
    let items = match results {
        Some(items) => items,
        None => {
            assert(hits(list@) =~= Seq::<SearchHit>::empty());
            return list;
        },
    };
    let mut i: usize = 0;
    assert(hits(list@) =~= hits_of(items@.take(0)));
    while i < items.len() && i < max as usize
        invariant
            i <= items.len(),
            i <= max,
            hits(list@) == hits_of(items@.take(i as int)),
        decreases items.len() - i,
    {
        let ghost before = list@;
        let item = &items[i];
        let result = SearchResult {
            url: text_of(item, "url"),
            title: text_of(item, "title"),
            content: text_of(item, "content"),
        };
        assert(result@ == hit_of(*item));
        list.push(result);
        i += 1;
        assert(hits(list@) =~= hits(before).push(result@));
        assert(hits_of(items@.take(i as int)) =~= hits_of(items@.take(i as int - 1)).push(
            hit_of(*item),
        ));
    }
    list
}

} // verus!
