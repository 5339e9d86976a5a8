//! The page record handed to callers for every page a crawl finds.
use crate::spider_calls::{
    document_title, html_title, page_bytes, page_bytes_of, page_html, page_status_code,
    page_status_of, page_text_of, page_url, page_url_of,
};
use spider::page::Page as SpiderPage;
use vstd::prelude::*;
use vstd::utf8::{decode_utf8, valid_utf8};

verus! {

/// A simple page object.
#[derive(Clone)]
pub struct NPage {
    /// The url found.
    pub url: String,
    /// The content of the page found.
    pub content: String,
    /// The HTTP status code.
    pub status_code: u16,
    /// The raw content, kept instead of the text when raw content is asked for.
    pub raw_content: Option<Vec<u8>>,
}

impl Default for NPage {
    fn default() -> (page: Self)
        ensures
            page.url@ == Seq::<char>::empty(),
            page.content@ == Seq::<char>::empty(),
            page.status_code == 0,
            page.raw_content is None,
    {
        NPage { url: String::new(), content: String::new(), status_code: 0, raw_content: None }
    }
}

/// Whether `record` is the record of the crawled `page`: its url and status
/// code, and either its raw content (with `raw`, the text left empty) or its
/// text.
pub open spec fn is_record_of(record: NPage, page: SpiderPage, raw: bool) -> bool {
    &&& record.url@ == page_url_of(page)
    &&& record.status_code == page_status_of(page)
    &&& raw ==> (record.content@ == Seq::<char>::empty() && (record.raw_content matches Some(b)
        && b@ == page_bytes_of(page)))
    &&& !raw ==> record.content@ == page_text_of(page) && record.raw_content is None
}

/// The title of a page: the text of its first `title` element, or nothing.
pub fn page_title(page: NPage) -> (title: String)
    ensures
        title@ == html_title(page.content@),
{
    page.title()
}

impl NPage {
    /// The record of a crawled page. With `raw`, the content is kept as raw
    /// bytes and the text is left empty; otherwise only the text is kept.
    pub fn new(res: &SpiderPage, raw: bool) -> (page: NPage)
        ensures
            is_record_of(page, *res, raw),
            !raw && valid_utf8(page_bytes_of(*res)) ==> page.content@ == decode_utf8(
                page_bytes_of(*res),
            ),
    {
        NPage {
            url: page_url(res),
            status_code: page_status_code(res),
            content: if raw {
                String::new()
            } else {
                page_html(res)
            },
            raw_content: if raw {
                Some(vstd::slice::slice_to_vec(page_bytes(res)))
            } else {
                None
            },
        }
    }

    /// The HTML page title.
    pub fn title(&self) -> (title: String)
        ensures
            title@ == html_title(self.content@),
    {
        document_title(self.content.as_str())
    }
}

} // verus!
