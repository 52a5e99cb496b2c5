use exchange_rate_bot::json::parse;
use exchange_rate_bot::utils::search::{
    encoded_search_url, get_news, news_keyword, search_url, SearchCategory, SearchResult,
};

fn result(url: Option<&str>, title: Option<&str>, content: Option<&str>) -> SearchResult {
    SearchResult { url: url.map(String::from), title: title.map(String::from), content: content.map(String::from) }
}

#[test]
fn a_query_names_its_keyword_and_its_category() {
    assert_eq!(
        search_url("https://search.test", "news", SearchCategory::News),
        "https://search.test/search?q=news&format=json&safesearch=0&categories=news"
    );
    assert_eq!(
        search_url("https://search.test", "rates", SearchCategory::General),
        "https://search.test/search?q=rates&format=json&safesearch=0&categories=general"
    );
}

#[test]
fn a_keyword_is_encoded_for_the_address() {
    assert_eq!(
        search_url("u", "example keyword", SearchCategory::General),
        "u/search?q=example%20keyword&format=json&safesearch=0&categories=general"
    );
    assert_eq!(
        search_url("u", "news on 2024 01 03", SearchCategory::News),
        "u/search?q=news%20on%202024%2001%2003&format=json&safesearch=0&categories=news"
    );
    assert_eq!(
        search_url("u", "a&b=c/d?é-_.~", SearchCategory::News),
        "u/search?q=a%26b%3Dc%2Fd%3F%C3%A9%2D%5F%2E%7E&format=json&safesearch=0&categories=news"
    );
    assert_eq!(search_url("u", "", SearchCategory::News), "u/search?q=&format=json&safesearch=0&categories=news");
}

#[test]
fn an_encoded_keyword_is_taken_as_it_is() {
    assert_eq!(
        encoded_search_url("u", "a b", SearchCategory::General),
        "u/search?q=a b&format=json&safesearch=0&categories=general"
    );
}

#[test]
fn the_news_are_asked_by_date() {
    assert_eq!(news_keyword(1704240000), "news on 2024 01 03");
    assert_eq!(news_keyword(0), "news on 1970 01 01");
}

#[test]
fn reads_the_results_of_an_answer() {
    let document = parse(
        "{\"query\":\"q\",\"results\":[{\"url\":\"https://a\",\"title\":\"A\",\"content\":\"first\",\"score\":1.5},{\"title\":\"B\"},{\"url\":5,\"title\":null,\"content\":[\"x\"]},\"text\"]}",
    )
    .unwrap();
    assert_eq!(
        get_news(&document, 5),
        vec![
            result(Some("https://a"), Some("A"), Some("first")),
            result(None, Some("B"), None),
            result(None, None, None),
            result(None, None, None),
        ]
    );
}

#[test]
fn reads_no_more_results_than_asked() {
    let document = parse("{\"results\":[{\"title\":\"1\"},{\"title\":\"2\"},{\"title\":\"3\"}]}").unwrap();
    assert_eq!(get_news(&document, 0), vec![]);
    assert_eq!(get_news(&document, 1), vec![result(None, Some("1"), None)]);
    assert_eq!(get_news(&document, 2), vec![result(None, Some("1"), None), result(None, Some("2"), None)]);
    assert_eq!(get_news(&document, 3).len(), 3);
    assert_eq!(get_news(&document, 4).len(), 3);
    assert_eq!(get_news(&document, 255).len(), 3);
}

#[test]
fn an_answer_without_a_list_of_results_gives_none() {
    for text in ["{}", "{\"results\":{}}", "{\"results\":null}", "[]", "{\"results\":[]}", "\"results\""] {
        assert_eq!(get_news(&parse(text).unwrap(), 5), vec![]);
    }
}
