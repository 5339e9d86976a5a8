//! A single page: its url, the link-detection settings, and, once fetched,
//! the page the crawler downloaded.
use crate::spider_calls::{
    page_bytes, page_bytes_of, page_html, page_selectors, page_selectors_of, page_status_code,
    page_status_of, page_text_of,
};
use spider::page::Page as SpiderPage;
use vstd::prelude::*;

verus! {

/// A simple page object.
pub struct Page {
    /// The page downloaded by the crawler, once fetched.
    inner: Option<SpiderPage>,
    /// The url for the page.
    url: String,
    /// Whether subdomain pages count as links of this page.
    subdomains: Option<bool>,
    /// Whether pages of other top-level domains count as links of this page.
    tld: Option<bool>,
    /// The HTTP status code.
    status_code: u16,
}

/// What a page holds, apart from the downloaded page itself.
pub struct PageView {
    pub url: Seq<char>,
    pub subdomains: Option<bool>,
    pub tld: Option<bool>,
    pub status_code: u16,
    /// Whether the page has been fetched.
    pub fetched: bool,
}

impl View for Page {
    type V = PageView;

    closed spec fn view(&self) -> PageView {
        PageView {
            url: self.url@,
            subdomains: self.subdomains,
            tld: self.tld,
            status_code: self.status_code,
            fetched: self.inner is Some,
        }
    }
}

impl Page {
    /// The page downloaded for this page, once fetched.
    pub closed spec fn downloaded_page(&self) -> Option<SpiderPage> {
        self.inner
    }

    /// A new page, not yet fetched.
    pub fn new(url: String, subdomains: Option<bool>, tld: Option<bool>) -> (page: Self)
        ensures
            page@ == (PageView { url: url@, subdomains, tld, status_code: 0, fetched: false }),
            page.downloaded_page() is None,
    {
        Page { inner: None, url, subdomains, tld, status_code: 0 }
    }

    /// Records the page the crawler downloaded for this page's url, with its
    /// status code.
    pub fn fetch(&mut self, page: SpiderPage) -> (this: &Self)
        ensures
            final(self)@.fetched,
            final(self).downloaded_page() == Some(page),
            final(self)@.status_code == page_status_of(page),
            final(self)@.url == old(self)@.url,
            final(self)@.subdomains == old(self)@.subdomains,
            final(self)@.tld == old(self)@.tld,
    {
        self.status_code = page_status_code(&page);
        self.inner = Some(page);
        self
    }

    /// The downloaded page, if any (used to find its links).
    pub fn downloaded(&self) -> (page: Option<&SpiderPage>)
        ensures
            page is Some <==> self@.fetched,
            page matches Some(p) ==> self.downloaded_page() == Some(*p),
    {
        match &self.inner {
            Some(inner) => Some(inner),
            None => None,
        }
    }

    /// The url for the page.
    pub fn url(&self) -> (url: &String)
        ensures
            url@ == self@.url,
    {
        &self.url
    }

    /// The HTTP status code (0 before the page is fetched).
    pub fn status_code(&self) -> (code: u16)
        ensures
            code == self@.status_code,
    {
        self.status_code
    }

    /// Whether links on subdomains count (unset counts as no).
    pub fn includes_subdomains(&self) -> (b: bool)
        ensures
            b == (self@.subdomains == Some(true)),
    {
        match self.subdomains {
            Some(b) => b,
            None => false,
        }
    }

    /// Whether links on other top-level domains count (unset counts as no).
    pub fn includes_tld(&self) -> (b: bool)
        ensures
            b == (self@.tld == Some(true)),
    {
        match self.tld {
            Some(b) => b,
            None => false,
        }
    }

    /// What picks the links of this page out of its HTML: the domain name
    /// (empty unless subdomains or other top-level domains count), then the
    /// host name and scheme of its url; nothing when the url does not parse.
    pub fn selectors(&self) -> (selectors: Option<(String, Vec<String>)>)
        ensures
            selectors matches Some(sel) ==> page_selectors_of(
                self@.url,
                self@.subdomains == Some(true),
                self@.tld == Some(true),
            ) == Some((sel.0@, sel.1@.map_values(|t: String| t@))),
            selectors is None ==> page_selectors_of(
                self@.url,
                self@.subdomains == Some(true),
                self@.tld == Some(true),
            ) is None,
    {
        page_selectors(self.url.as_str(), self.includes_subdomains(), self.includes_tld())
    }

    /// The HTML of the page; empty before it is fetched.
    pub fn get_html(&self) -> (html: String)
        ensures
            html@ == match self.downloaded_page() {
                Some(p) => page_text_of(p),
                None => Seq::<char>::empty(),
            },
    {
        match &self.inner {
            Some(inner) => page_html(inner),
            None => String::new(),
        }
    }

    /// The bytes of the page; empty before it is fetched.
    pub fn get_bytes(&self) -> (bytes: &[u8])
        ensures
            bytes@ == match self.downloaded_page() {
                Some(p) => page_bytes_of(p),
                None => Seq::<u8>::empty(),
            },
    {
        match &self.inner {
            Some(inner) => page_bytes(inner),
            None => &[],
        }
    }
}

} // verus!
