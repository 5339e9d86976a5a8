use spider_rs::npage::{page_title, NPage};
use spider_rs::nwebsite::NWebsite;
use spider_rs::page::Page;

fn page_with(content: &str) -> NPage {
    NPage { url: "https://example.com".to_string(), content: content.to_string(), status_code: 200, raw_content: None }
}

#[test]
fn title_is_first_title_element() {
    let page = page_with("<html><head><title>Hello</title></head><body><title>Other</title></body></html>");
    assert_eq!(page.title(), "Hello");
    assert_eq!(page_title(page), "Hello");
}

#[test]
fn title_is_empty_without_title_element() {
    assert_eq!(page_with("<html><body>nothing</body></html>").title(), "");
}

#[test]
fn default_page_is_empty() {
    let page = NPage::default();
    assert_eq!(page.url, "");
    assert_eq!(page.content, "");
    assert_eq!(page.status_code, 0);
    assert!(page.raw_content.is_none());
}

#[test]
fn new_page_is_not_fetched() {
    let page = Page::new("https://example.com".to_string(), Some(true), None);
    assert_eq!(page.url(), "https://example.com");
    assert!(page.includes_subdomains());
    assert!(!page.includes_tld());
    assert_eq!(page.status_code(), 0);
    assert!(page.downloaded().is_none());
    assert_eq!(page.get_html(), "");
    assert!(page.get_bytes().is_empty());
}

#[test]
fn site_result_holds_links_and_pages() {
    let site = NWebsite { links: vec!["https://example.com/a".to_string()], pages: vec![page_with("x")] };
    assert_eq!(site.links.len(), 1);
    assert_eq!(site.pages[0].content, "x");
}

fn crawled(html: &[u8]) -> spider::page::Page {
    spider::page::build(
        "https://example.com/a",
        spider::utils::PageResponse {
            content: Some(spider::bytes::Bytes::from(html.to_vec())),
            status_code: spider::reqwest::StatusCode::NOT_FOUND,
            ..Default::default()
        },
    )
}

#[test]
fn page_record_keeps_text() {
    let page = NPage::new(&crawled(b"<title>T</title>"), false);
    assert_eq!(page.url, "https://example.com/a");
    assert_eq!(page.status_code, 404);
    assert_eq!(page.content, "<title>T</title>");
    assert!(page.raw_content.is_none());
    assert_eq!(page.title(), "T");
}

#[test]
fn page_record_keeps_raw_bytes() {
    let page = NPage::new(&crawled(&[0xff, 0x41]), true);
    assert_eq!(page.content, "");
    assert_eq!(page.raw_content, Some(vec![0xff, 0x41]));
    assert_eq!(page.status_code, 404);
}

#[test]
fn fetched_page_gives_html_and_bytes() {
    let mut page = Page::new("https://example.com/a".to_string(), None, Some(true));
    page.fetch(crawled(b"<p>hi</p>"));
    assert_eq!(page.status_code(), 404);
    assert!(page.downloaded().is_some());
    assert_eq!(page.get_html(), "<p>hi</p>");
    assert_eq!(page.get_bytes(), b"<p>hi</p>");
    assert!(page.includes_tld());
}

#[test]
fn page_selectors_name_host_and_scheme() {
    let page = Page::new("https://Example.com/a".to_string(), None, None);
    let (domain, parts) = page.selectors().unwrap();
    assert_eq!(domain, "");
    assert_eq!(parts, vec!["example.com".to_string(), "https".to_string()]);
    let page = Page::new("https://blog.example.com/a".to_string(), Some(true), None);
    let (domain, _) = page.selectors().unwrap();
    assert!(!domain.is_empty());
    assert!(Page::new("not a url".to_string(), None, None).selectors().is_none());
    assert_eq!(Page::new("https://example.com".to_string(), None, None).get_html(), "");
}
