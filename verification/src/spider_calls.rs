//! The calls into the `spider` crawler (and the HTTP header types it
//! re-exports) that the library makes. The crawler's own state is opaque
//! here: these items promise only what the crawler's source shows about the
//! values they hand back.
use spider::compact_str::CompactString;
use spider::configuration::{GPTConfigs, RedirectPolicy};
use spider::packages::scraper::{Html, Selector};
use spider::page::Page as SpiderPage;
use spider::reqwest::header::{
    HeaderMap, HeaderName, HeaderValue, InvalidHeaderName, InvalidHeaderValue, MaxSizeReached,
};
use spider::tokio::sync::broadcast::Receiver;
use spider::website::{CronType, Website as SpiderWebsite};
use std::str::FromStr;
use std::time::Duration;
use vstd::prelude::*;
use vstd::utf8::{decode_utf8, encode_utf8, valid_utf8};

verus! {

#[verifier::external_type_specification]
#[verifier::external_body]
pub struct ExSpiderWebsite(SpiderWebsite);

#[verifier::external_type_specification]
#[verifier::external_body]
pub struct ExSpiderPage(SpiderPage);

#[verifier::external_type_specification]
#[verifier::external_body]
#[verifier::reject_recursive_types(T)]
pub struct ExReceiver<T>(Receiver<T>);

#[verifier::external_type_specification]
#[verifier::external_body]
pub struct ExGPTConfigs(GPTConfigs);

#[verifier::external_type_specification]
#[verifier::external_body]
#[verifier::reject_recursive_types(T)]
pub struct ExHeaderMap<T>(HeaderMap<T>);

#[verifier::external_type_specification]
#[verifier::external_body]
pub struct ExHeaderName(HeaderName);

#[verifier::external_type_specification]
#[verifier::external_body]
pub struct ExHeaderValue(HeaderValue);

#[verifier::external_type_specification]
#[verifier::external_body]
pub struct ExInvalidHeaderName(InvalidHeaderName);

#[verifier::external_type_specification]
#[verifier::external_body]
pub struct ExInvalidHeaderValue(InvalidHeaderValue);

#[verifier::external_type_specification]
#[verifier::external_body]
pub struct ExMaxSizeReached(MaxSizeReached);

/// The redirect policy to give the crawler.
#[derive(PartialEq, Eq, Structural, Debug, Clone, Copy)]
pub enum RedirectMode {
    /// Only follow redirects to the domain set for crawling.
    Strict,
    /// Follow every redirect up to the redirect limit.
    Loose,
}

/// What a cron job runs.
#[derive(PartialEq, Eq, Structural, Debug, Clone, Copy)]
pub enum CronMode {
    /// Crawl, collecting links and page data.
    Crawl,
    /// Scrape, collecting links and the page data as bytes to store.
    Scrape,
}

/// The characters allowed in a header name (HTTP token characters).
pub open spec fn is_token_char(c: char) -> bool {
    ||| ('a' <= c && c <= 'z')
    ||| ('A' <= c && c <= 'Z')
    ||| ('0' <= c && c <= '9')
    ||| c == '!' || c == '#' || c == '$' || c == '%' || c == '&' || c == '\''
    ||| c == '*' || c == '+' || c == '-' || c == '.' || c == '^' || c == '_'
    ||| c == '`' || c == '|' || c == '~'
}

/// Whether `HeaderName::from_str` accepts the text as a header name: between
/// 1 and 65535 token characters.
pub open spec fn header_name_accepted(text: Seq<char>) -> bool {
    &&& 0 < text.len() <= 65535
    &&& forall|i: int| 0 <= i < text.len() ==> #[trigger] is_token_char(text[i])
}

/// `text` with its ASCII capital letters made small.
pub open spec fn ascii_lowercase(text: Seq<char>) -> Seq<char> {
    text.map_values(
        |c: char|
            if 'A' <= c && c <= 'Z' {
                ((c as u32) + 32) as char
            } else {
                c
            },
    )
}

/// The text of a header name (`HeaderName::as_str`).
pub uninterp spec fn header_name_text(name: HeaderName) -> Seq<char>;

/// The bytes of a header value (`HeaderValue::as_bytes`).
pub uninterp spec fn header_value_bytes(value: HeaderValue) -> Seq<u8>;

/// The name and value of every entry of a header map, in the order the map
/// hands them out: the names in the order they were first added, each with
/// its values in the order they were added.
pub uninterp spec fn header_entries(map: HeaderMap) -> Seq<(Seq<char>, Seq<u8>)>;

/// Whether `HeaderValue::from_str` accepts the text as a header value: every
/// byte of its UTF-8 encoding is a tab, or at least 32 and not 127.
pub open spec fn header_value_accepted(text: Seq<char>) -> bool {
    let bytes = encode_utf8(text);
    forall|i: int|
        0 <= i < bytes.len() ==> (#[trigger] bytes[i] == 9u8 || (bytes[i] >= 32u8 && bytes[i]
            != 127u8))
}

/// The title text `spider`'s HTML parser finds in a document: the inner HTML
/// of its first `title` element, or nothing.
pub uninterp spec fn html_title(html: Seq<char>) -> Seq<char>;

/// The url a crawled page was fetched from (`Page::get_url`).
pub uninterp spec fn page_url_of(page: SpiderPage) -> Seq<char>;

/// The HTTP status code of a crawled page.
pub uninterp spec fn page_status_of(page: SpiderPage) -> u16;

/// The raw content of a crawled page (`Page::get_html_bytes_u8`).
pub uninterp spec fn page_bytes_of(page: SpiderPage) -> Seq<u8>;

/// The content of a crawled page as text (`Page::get_html`).
pub uninterp spec fn page_text_of(page: SpiderPage) -> Seq<char>;

/// The pages a crawler kept from a scrape (`Website::get_pages`).
pub uninterp spec fn kept_pages_of(website: SpiderWebsite) -> Option<Seq<SpiderPage>>;

/// The crawler's start url as text (`Website::get_url`).
pub uninterp spec fn start_url_of(website: SpiderWebsite) -> Seq<char>;

/// The `Display` text of the crawler's status (`Website::get_status`).
pub uninterp spec fn status_text_of(website: SpiderWebsite) -> Seq<char>;

/// The configuration a crawler holds (`Website::configuration`), each setting
/// read as a plain value.
pub struct CrawlSettings {
    /// The user agent of the requests.
    pub user_agent: Option<Seq<char>>,
    /// Whether robots.txt is respected.
    pub respect_robots_txt: bool,
    /// Whether subdomains belong to the crawl.
    pub subdomains: bool,
    /// Whether other top-level domains belong to the crawl.
    pub tld: bool,
    /// Whether only HTTP/2 is used.
    pub http2_prior_knowledge: bool,
    /// The request timeout, in whole milliseconds.
    pub request_timeout_ms: Option<int>,
    /// The external domains treated as part of the site.
    pub external_domains: Set<Seq<char>>,
    /// The crawl budget per path.
    pub budget: Option<Map<Seq<char>, u32>>,
    /// The max redirects allowed.
    pub redirect_limit: usize,
    /// Whether the redirect policy is strict.
    pub redirect_strict: bool,
    /// The url patterns (regular expressions) left out of the crawl.
    pub blacklist: Option<Seq<Seq<char>>>,
    /// The cron schedule.
    pub cron_str: Seq<char>,
    /// Whether a cron job scrapes (rather than crawls).
    pub cron_scrapes: bool,
    /// The delay between requests, in milliseconds.
    pub delay: u64,
    /// The crawl depth limit.
    pub depth: usize,
    /// The proxies of the requests.
    pub proxies: Option<Seq<Seq<char>>>,
    /// The name and value of every header sent with the requests.
    pub headers: Option<Seq<(Seq<char>, Seq<u8>)>>,
    /// Whether Chrome runs in stealth mode.
    pub stealth: bool,
    /// Whether Chrome intercepts requests to keep the host's content only.
    pub chrome_intercept: bool,
    /// Whether intercepted requests leave out images and other visuals.
    pub block_visuals: bool,
    /// The sitemap url.
    pub sitemap: Option<Seq<char>>,
    /// The OpenAI settings (model, prompt, max tokens) that drive the browser.
    pub openai: Option<(Seq<char>, Seq<char>, u16)>,
}

/// The configuration a crawler holds.
pub uninterp spec fn crawl_settings_of(website: SpiderWebsite) -> CrawlSettings;

/// The links a crawler visited, as text (`Website::get_links`).
pub uninterp spec fn visited_links_of(website: SpiderWebsite) -> Set<Seq<char>>;

/// Whether a crawler was asked to stop (its shutdown flag).
pub uninterp spec fn stop_requested_of(website: SpiderWebsite) -> bool;

/// The broadcast channel a crawler sends the pages it finds on, once a
/// listener subscribed (told apart by an identity).
pub uninterp spec fn page_channel_of(website: SpiderWebsite) -> Option<int>;

/// The identity of the broadcast channel a receiver listens to.
pub uninterp spec fn receiver_channel(receiver: Receiver<SpiderPage>) -> int;

/// The model, prompt and max tokens an OpenAI configuration holds.
pub uninterp spec fn gpt_settings_of(configs: GPTConfigs) -> (Seq<char>, Seq<char>, u16);

/// What `spider::page::get_page_selectors` gives for a url and the
/// subdomain and top-level-domain flags: the domain name (empty unless one of
/// the flags is set) and the host name and scheme, or nothing when the url
/// does not parse.
pub uninterp spec fn page_selectors_of(url: Seq<char>, subdomains: bool, tld: bool) -> Option<
    (Seq<char>, Seq<Seq<char>>),
>;

/// Whether `c` is white space as `char::is_whitespace` has it.
pub open spec fn is_white_space(c: char) -> bool {
    ||| ('\t' <= c && c <= '\r')
    ||| c == ' ' || c == '\u{85}' || c == '\u{a0}' || c == '\u{1680}'
    ||| ('\u{2000}' <= c && c <= '\u{200a}')
    ||| c == '\u{2028}' || c == '\u{2029}' || c == '\u{202f}' || c == '\u{205f}' || c == '\u{3000}'
}

/// `text` without its leading white space.
pub open spec fn trim_start(text: Seq<char>) -> Seq<char>
    decreases text.len(),
{
    if text.len() > 0 && is_white_space(text[0]) {
        trim_start(text.drop_first())
    } else {
        text
    }
}

/// `text` without its trailing white space.
pub open spec fn trim_end(text: Seq<char>) -> Seq<char>
    decreases text.len(),
{
    if text.len() > 0 && is_white_space(text.last()) {
        trim_end(text.drop_last())
    } else {
        text
    }
}

/// The start url a crawler keeps for the url it is made with: trimmed of
/// white space when it begins or ends with a space, and with `https://` put
/// in front unless it starts with `http`.
pub open spec fn crawl_start_url(url: Seq<char>) -> Seq<char> {
    let trimmed = if url.len() > 0 && (url[0] == ' ' || url.last() == ' ') {
        trim_end(trim_start(url))
    } else {
        url
    };
    if trimmed.len() >= 4 && trimmed.subrange(0, 4) == seq!['h', 't', 't', 'p'] {
        trimmed
    } else {
        seq!['h', 't', 't', 'p', 's', ':', '/', '/'] + trimmed
    }
}

/// The external domains a crawler keeps for a list of domains
/// (`Website::with_external_domains`): the host of each url, `*` kept as is.
pub uninterp spec fn external_domain_set(domains: Seq<Seq<char>>) -> Set<Seq<char>>;

/// Whether two crawlers agree on everything but their configuration.
pub open spec fn same_crawl_state(a: SpiderWebsite, b: SpiderWebsite) -> bool {
    &&& start_url_of(a) == start_url_of(b)
    &&& kept_pages_of(a) == kept_pages_of(b)
    &&& visited_links_of(a) == visited_links_of(b)
    &&& status_text_of(a) == status_text_of(b)
    &&& stop_requested_of(a) == stop_requested_of(b)
    &&& page_channel_of(a) == page_channel_of(b)
}

/// Whether `after` holds the configuration and state of `before` and sends
/// its pages on the channel `before` had, if it had one.
pub open spec fn keeps_crawl_of(after: SpiderWebsite, before: SpiderWebsite) -> bool {
    &&& crawl_settings_of(after) == crawl_settings_of(before)
    &&& start_url_of(after) == start_url_of(before)
    &&& kept_pages_of(after) == kept_pages_of(before)
    &&& visited_links_of(after) == visited_links_of(before)
    &&& status_text_of(after) == status_text_of(before)
    &&& stop_requested_of(after) == stop_requested_of(before)
    &&& page_channel_of(before) is Some ==> page_channel_of(after) == page_channel_of(before)
}

/// Whether two crawlers agree on their configuration and state.
pub open spec fn same_crawl(a: SpiderWebsite, b: SpiderWebsite) -> bool {
    &&& crawl_settings_of(a) == crawl_settings_of(b)
    &&& same_crawl_state(a, b)
}

/// The texts of optional strings.
pub open spec fn texts(v: Option<Vec<String>>) -> Option<Seq<Seq<char>>> {
    match v {
        Some(v) => Some(v@.map_values(|s: String| s@)),
        None => None,
    }
}

/// Whether no two keys of a budget are equal up to the case of ASCII letters.
pub open spec fn keys_case_distinct(budget: Map<String, u32>) -> bool {
    forall|a: String, b: String|
        #![trigger budget.contains_key(a), budget.contains_key(b)]
        budget.contains_key(a) && budget.contains_key(b) && ascii_lowercase(a@)
            == ascii_lowercase(b@) ==> a == b
}

/// What a crawler keeps of a budget, whichever order it reads the paths in
/// (the map's own order): every path once up to the case of ASCII letters,
/// under the text of one of the given paths, with the value of a given path
/// equal to it up to case.
pub open spec fn budget_kept(kept: Map<Seq<char>, u32>, given: Map<String, u32>) -> bool {
    &&& forall|s: String|
        #![trigger given.contains_key(s)]
        given.contains_key(s) ==> exists|k: Seq<char>|
            kept.contains_key(k) && ascii_lowercase(k) == ascii_lowercase(s@)
    &&& forall|k: Seq<char>|
        #![trigger kept.contains_key(k)]
        kept.contains_key(k) ==> (exists|s: String| given.contains_key(s) && s@ == k) && (exists|
            s: String,
        |
            given.contains_key(s) && ascii_lowercase(s@) == ascii_lowercase(k) && kept[k]
                == given[s])
    &&& forall|a: Seq<char>, b: Seq<char>|
        #![trigger kept.contains_key(a), kept.contains_key(b)]
        kept.contains_key(a) && kept.contains_key(b) && ascii_lowercase(a) == ascii_lowercase(b)
            ==> a == b
}

/// A budget keyed by the texts of its keys.
pub open spec fn budget_texts(budget: Map<String, u32>) -> Map<Seq<char>, u32> {
    Map::new(
        |k: Seq<char>| exists|s: String| budget.contains_key(s) && s@ == k,
        |k: Seq<char>| budget[choose|s: String| budget.contains_key(s) && s@ == k],
    )
}

/// `spider::website::Website::new`: a crawler for the url (see
/// `crawl_start_url`) that has visited nothing, kept no pages, was not asked
/// to stop and has no page channel yet; its configuration is the default one.
#[verifier::external_body]
pub(crate) fn website_new(url: &str) -> (website: SpiderWebsite)
    ensures
        start_url_of(website) == crawl_start_url(url@),
        visited_links_of(website) == Set::<Seq<char>>::empty(),
        kept_pages_of(website) is None,
        !stop_requested_of(website),
        page_channel_of(website) is None,
{
    SpiderWebsite::new(url)
}

/// `Clone::clone` on a crawler (derived), used for runs in the background:
/// the copy holds the same configuration, state and shutdown flag, and
/// shares the page channel (the channel's sender is cloned).
#[verifier::external_body]
pub(crate) fn website_clone(website: &SpiderWebsite) -> (copy: SpiderWebsite)
    ensures
        same_crawl(copy, *website),
{
    website.clone()
}

/// `Website::get_status`, written with its `Display` text.
#[verifier::external_body]
pub(crate) fn website_status(website: &SpiderWebsite) -> (status: String)
    ensures
        status@ == status_text_of(*website),
{
    website.get_status().to_string()
}

/// `Website::get_url`: the crawler's start url as text.
#[verifier::external_body]
pub(crate) fn website_url(website: &SpiderWebsite) -> (url: String)
    ensures
        url@ == start_url_of(*website),
{
    website.get_url().inner().to_string()
}

/// `Website::subscribe`: a receiver of the pages the crawler finds, always
/// present with the crawler's `sync` feature (on by default). The crawler
/// makes its broadcast channel on the first subscription and keeps it;
/// every receiver listens to that channel. Creating the channel panics for a
/// capacity above `usize::MAX / 2`.
#[verifier::external_body]
pub(crate) fn website_subscribe(website: &mut SpiderWebsite, capacity: usize) -> (res: Option<
    Receiver<SpiderPage>,
>)
    requires
        capacity <= usize::MAX / 2,
    ensures
        res is Some,
        keeps_crawl_of(*final(website), *old(website)),
        page_channel_of(*final(website)) is Some,
        res matches Some(rx) ==> page_channel_of(*final(website)) == Some(receiver_channel(rx)),
{
    website.subscribe(capacity)
}

/// `Website::stop`: asks a running crawl to stop by raising the crawler's
/// shutdown flag; nothing else changes.
#[verifier::external_body]
pub(crate) fn website_stop(website: &mut SpiderWebsite)
    ensures
        stop_requested_of(*final(website)),
        crawl_settings_of(*final(website)) == crawl_settings_of(*old(website)),
        start_url_of(*final(website)) == start_url_of(*old(website)),
        kept_pages_of(*final(website)) == kept_pages_of(*old(website)),
        visited_links_of(*final(website)) == visited_links_of(*old(website)),
        status_text_of(*final(website)) == status_text_of(*old(website)),
        page_channel_of(*final(website)) == page_channel_of(*old(website)),
{
    website.stop()
}

/// `Website::get_links`, each link as text. The links are the crawler's set
/// of visited links, each once (in the set's own order).
#[verifier::external_body]
pub(crate) fn website_links(website: &SpiderWebsite) -> (links: Vec<String>)
    ensures
        links@.map_values(|s: String| s@).to_set() == visited_links_of(*website),
        links@.map_values(|s: String| s@).no_duplicates(),
{
    website.get_links().iter().map(|link| link.as_ref().to_string()).collect()
}

/// `Website::drain_links`, each link as text: the visited links are handed
/// out, each once, and the set is left empty; nothing else changes.
#[verifier::external_body]
pub(crate) fn website_drain_links(website: &mut SpiderWebsite) -> (links: Vec<String>)
    ensures
        links@.map_values(|s: String| s@).to_set() == visited_links_of(*old(website)),
        links@.map_values(|s: String| s@).no_duplicates(),
        visited_links_of(*final(website)) == Set::<Seq<char>>::empty(),
        crawl_settings_of(*final(website)) == crawl_settings_of(*old(website)),
        start_url_of(*final(website)) == start_url_of(*old(website)),
        kept_pages_of(*final(website)) == kept_pages_of(*old(website)),
        page_channel_of(*final(website)) == page_channel_of(*old(website)),
{
    website.drain_links().map(|link| link.as_ref().to_string()).collect()
}

/// `Website::size`: the number of links visited.
#[verifier::external_body]
pub(crate) fn website_size(website: &SpiderWebsite) -> (n: usize)
    ensures
        n == visited_links_of(*website).len(),
{
    website.size()
}

/// `Website::get_pages`: the pages kept by a scrape, if any.
#[verifier::external_body]
pub(crate) fn website_pages(website: &SpiderWebsite) -> (pages: Option<&Vec<SpiderPage>>)
    ensures
        pages matches Some(v) ==> kept_pages_of(*website) == Some(v@),
        pages is None ==> kept_pages_of(*website) is None,
{
    website.get_pages().map(|pages| pages.as_ref())
}

/// `Website::clear`: drops the visited links and the kept pages; the
/// configuration, the start url and the page channel stay.
#[verifier::external_body]
pub(crate) fn website_clear(website: &mut SpiderWebsite)
    ensures
        visited_links_of(*final(website)) == Set::<Seq<char>>::empty(),
        kept_pages_of(*final(website)) is None,
        crawl_settings_of(*final(website)) == crawl_settings_of(*old(website)),
        start_url_of(*final(website)) == start_url_of(*old(website)),
        page_channel_of(*final(website)) == page_channel_of(*old(website)),
{
    website.clear()
}

/// `Website::build`: a copy of the crawler, as `Ok` when its url parsed and
/// as `Err` otherwise; either way the copy holds the same state.
#[verifier::external_body]
pub(crate) fn website_build(website: &SpiderWebsite) -> (res: Result<SpiderWebsite, SpiderWebsite>)
    ensures
        res matches Ok(w) ==> same_crawl(w, *website),
        res matches Err(w) ==> same_crawl(w, *website),
{
    website.build()
}

/// `Configuration::with_user_agent`: sets the user agent (`None` unsets it).
#[verifier::external_body]
pub(crate) fn website_with_user_agent(website: &mut SpiderWebsite, user_agent: Option<&str>)
    ensures
        crawl_settings_of(*final(website)) == (CrawlSettings {
            user_agent: match user_agent {
                Some(a) => Some(a@),
                None => None,
            },
            ..crawl_settings_of(*old(website))
        }),
        same_crawl_state(*final(website), *old(website)),
{
    website.configuration.with_user_agent(user_agent);
}

/// `Configuration::with_respect_robots_txt`.
#[verifier::external_body]
pub(crate) fn website_with_respect_robots_txt(website: &mut SpiderWebsite, respect: bool)
    ensures
        crawl_settings_of(*final(website)) == (CrawlSettings {
            respect_robots_txt: respect,
            ..crawl_settings_of(*old(website))
        }),
        same_crawl_state(*final(website), *old(website)),
{
    website.configuration.with_respect_robots_txt(respect);
}

/// `Website::with_chrome_intercept`: sets request interception and whether
/// it blocks visuals.
#[verifier::external_body]
pub(crate) fn website_with_chrome_intercept(
    website: &mut SpiderWebsite,
    chrome_intercept: bool,
    block_images: bool,
)
    ensures
        crawl_settings_of(*final(website)) == (CrawlSettings {
            chrome_intercept,
            block_visuals: block_images,
            ..crawl_settings_of(*old(website))
        }),
        same_crawl_state(*final(website), *old(website)),
{
    website.with_chrome_intercept(chrome_intercept, block_images);
}

/// `Configuration::with_subdomains`.
#[verifier::external_body]
pub(crate) fn website_with_subdomains(website: &mut SpiderWebsite, subdomains: bool)
    ensures
        crawl_settings_of(*final(website)) == (CrawlSettings {
            subdomains,
            ..crawl_settings_of(*old(website))
        }),
        same_crawl_state(*final(website), *old(website)),
{
    website.configuration.with_subdomains(subdomains);
}

/// `Configuration::with_tld`.
#[verifier::external_body]
pub(crate) fn website_with_tld(website: &mut SpiderWebsite, tld: bool)
    ensures
        crawl_settings_of(*final(website)) == (CrawlSettings {
            tld,
            ..crawl_settings_of(*old(website))
        }),
        same_crawl_state(*final(website), *old(website)),
{
    website.configuration.with_tld(tld);
}

/// `Configuration::with_http2_prior_knowledge`.
#[verifier::external_body]
pub(crate) fn website_with_http2_prior_knowledge(website: &mut SpiderWebsite, http2: bool)
    ensures
        crawl_settings_of(*final(website)) == (CrawlSettings {
            http2_prior_knowledge: http2,
            ..crawl_settings_of(*old(website))
        }),
        same_crawl_state(*final(website), *old(website)),
{
    website.configuration.with_http2_prior_knowledge(http2);
}

/// `Configuration::with_request_timeout`, the timeout given in milliseconds
/// (`None` for no timeout).
#[verifier::external_body]
pub(crate) fn website_with_request_timeout(website: &mut SpiderWebsite, millis: Option<u64>)
    ensures
        crawl_settings_of(*final(website)) == (CrawlSettings {
            request_timeout_ms: match millis {
                Some(m) => Some(m as int),
                None => None,
            },
            ..crawl_settings_of(*old(website))
        }),
        same_crawl_state(*final(website), *old(website)),
{
    website.configuration.with_request_timeout(millis.map(Duration::from_millis));
}

/// `Website::with_external_domains`: the domains kept for the list (see
/// `external_domain_set`), or none for `None`.
#[verifier::external_body]
pub(crate) fn website_with_external_domains(website: &mut SpiderWebsite, domains: Option<Vec<String>>)
    ensures
        crawl_settings_of(*final(website)) == (CrawlSettings {
            external_domains: match domains {
                Some(d) => external_domain_set(d@.map_values(|s: String| s@)),
                None => Set::<Seq<char>>::empty(),
            },
            ..crawl_settings_of(*old(website))
        }),
        same_crawl_state(*final(website), *old(website)),
{
    website.with_external_domains(domains.map(|d| d.into_iter()));
}

/// `Website::with_stealth`.
#[verifier::external_body]
pub(crate) fn website_with_stealth(website: &mut SpiderWebsite, stealth: bool)
    ensures
        crawl_settings_of(*final(website)) == (CrawlSettings {
            stealth,
            ..crawl_settings_of(*old(website))
        }),
        same_crawl_state(*final(website), *old(website)),
{
    website.with_stealth(stealth);
}

/// `Website::with_budget`, the budget's keys borrowed as `&str`. The crawler
/// keys its budget case-insensitively (see `budget_kept`); where no two keys
/// differ only in the case of ASCII letters, the budget kept is exactly the
/// one given.
#[verifier::external_body]
pub(crate) fn website_with_budget(
    website: &mut SpiderWebsite,
    budget: &std::collections::HashMap<String, u32>,
)
    ensures
        crawl_settings_of(*final(website)).budget is Some,
        budget_kept(crawl_settings_of(*final(website)).budget.unwrap(), budget@),
        keys_case_distinct(budget@) ==> crawl_settings_of(*final(website)).budget == Some(
            budget_texts(budget@),
        ),
        crawl_settings_of(*final(website)) == (CrawlSettings {
            budget: crawl_settings_of(*final(website)).budget,
            ..crawl_settings_of(*old(website))
        }),
        same_crawl_state(*final(website), *old(website)),
{
    website.with_budget(Some(budget.iter().map(|(k, v)| (k.as_str(), *v)).collect()));
}

/// `Website::with_redirect_limit`.
#[verifier::external_body]
pub(crate) fn website_with_redirect_limit(website: &mut SpiderWebsite, limit: usize)
    ensures
        crawl_settings_of(*final(website)) == (CrawlSettings {
            redirect_limit: limit,
            ..crawl_settings_of(*old(website))
        }),
        same_crawl_state(*final(website), *old(website)),
{
    website.with_redirect_limit(limit);
}

/// `Website::with_redirect_policy`.
#[verifier::external_body]
pub(crate) fn website_with_redirect_policy(website: &mut SpiderWebsite, mode: RedirectMode)
    ensures
        crawl_settings_of(*final(website)) == (CrawlSettings {
            redirect_strict: mode == RedirectMode::Strict,
            ..crawl_settings_of(*old(website))
        }),
        same_crawl_state(*final(website), *old(website)),
{
    website.with_redirect_policy(
        match mode {
            RedirectMode::Strict => RedirectPolicy::Strict,
            RedirectMode::Loose => RedirectPolicy::Loose,
        },
    );
}

/// `Configuration::with_blacklist_url`, each pattern as a `CompactString`.
#[verifier::external_body]
pub(crate) fn website_with_blacklist_url(website: &mut SpiderWebsite, patterns: Option<Vec<String>>)
    ensures
        crawl_settings_of(*final(website)) == (CrawlSettings {
            blacklist: texts(patterns),
            ..crawl_settings_of(*old(website))
        }),
        same_crawl_state(*final(website), *old(website)),
{
    website.configuration.with_blacklist_url(
        patterns.map(|v| v.into_iter().map(CompactString::new).collect::<Vec<CompactString>>()),
    );
}

/// `Website::with_cron`.
#[verifier::external_body]
pub(crate) fn website_with_cron(website: &mut SpiderWebsite, cron_str: &str, mode: CronMode)
    ensures
        crawl_settings_of(*final(website)) == (CrawlSettings {
            cron_str: cron_str@,
            cron_scrapes: mode == CronMode::Scrape,
            ..crawl_settings_of(*old(website))
        }),
        same_crawl_state(*final(website), *old(website)),
{
    website.with_cron(
        cron_str,
        match mode {
            CronMode::Crawl => CronType::Crawl,
            CronMode::Scrape => CronType::Scrape,
        },
    );
}

/// `GPTConfigs::new`: a configuration with the model, a single prompt and the
/// max tokens given (the other fields at their defaults).
#[verifier::external_body]
pub(crate) fn gpt_configs_new(model: &str, prompt: &str, max_tokens: u16) -> (configs: GPTConfigs)
    ensures
        gpt_settings_of(configs) == (model@, prompt@, max_tokens),
{
    GPTConfigs::new(model, prompt, max_tokens)
}

/// `Website::with_openai`: sets the OpenAI configuration (`None` unsets it).
#[verifier::external_body]
pub(crate) fn website_with_openai(website: &mut SpiderWebsite, configs: Option<GPTConfigs>)
    ensures
        crawl_settings_of(*final(website)) == (CrawlSettings {
            openai: match configs {
                Some(c) => Some(gpt_settings_of(c)),
                None => None,
            },
            ..crawl_settings_of(*old(website))
        }),
        same_crawl_state(*final(website), *old(website)),
{
    website.with_openai(configs);
}

/// `Configuration::with_delay`.
#[verifier::external_body]
pub(crate) fn website_with_delay(website: &mut SpiderWebsite, delay: u64)
    ensures
        crawl_settings_of(*final(website)) == (CrawlSettings {
            delay,
            ..crawl_settings_of(*old(website))
        }),
        same_crawl_state(*final(website), *old(website)),
{
    website.configuration.with_delay(delay);
}

/// `Configuration::with_depth`.
#[verifier::external_body]
pub(crate) fn website_with_depth(website: &mut SpiderWebsite, depth: usize)
    ensures
        crawl_settings_of(*final(website)) == (CrawlSettings {
            depth,
            ..crawl_settings_of(*old(website))
        }),
        same_crawl_state(*final(website), *old(website)),
{
    website.configuration.with_depth(depth);
}

/// `spider::page::get_page_selectors`, its parts as strings: the domain name
/// (empty unless a flag is set) and the host name and scheme.
#[verifier::external_body]
pub(crate) fn page_selectors(url: &str, subdomains: bool, tld: bool) -> (res: Option<(String, Vec<String>)>)
    ensures
        res matches Some(s) ==> page_selectors_of(url@, subdomains, tld) == Some(
            (s.0@, s.1@.map_values(|t: String| t@)),
        ),
        res is None ==> page_selectors_of(url@, subdomains, tld) is None,
{
    spider::page::get_page_selectors(url, subdomains, tld).map(
        |(domain, parts)| (domain.to_string(), parts.iter().map(|p| p.to_string()).collect()),
    )
}

/// `Configuration::with_caching`: without the crawler's `cache` feature (left
/// out of this build) it changes nothing.
#[verifier::external_body]
pub(crate) fn website_with_caching(website: &mut SpiderWebsite, cache: bool)
    ensures
        *final(website) == *old(website),
{
    website.configuration.with_caching(cache);
}

/// `Configuration::with_sitemap`: sets the sitemap url (`None` unsets it).
#[verifier::external_body]
pub(crate) fn website_with_sitemap(website: &mut SpiderWebsite, sitemap: Option<&str>)
    ensures
        crawl_settings_of(*final(website)) == (CrawlSettings {
            sitemap: match sitemap {
                Some(s) => Some(s@),
                None => None,
            },
            ..crawl_settings_of(*old(website))
        }),
        same_crawl_state(*final(website), *old(website)),
{
    website.configuration.with_sitemap(sitemap);
}

/// `Configuration::with_proxies`.
#[verifier::external_body]
pub(crate) fn website_with_proxies(website: &mut SpiderWebsite, proxies: Option<Vec<String>>)
    ensures
        crawl_settings_of(*final(website)) == (CrawlSettings {
            proxies: texts(proxies),
            ..crawl_settings_of(*old(website))
        }),
        same_crawl_state(*final(website), *old(website)),
{
    website.configuration.with_proxies(proxies);
}

/// `Website::with_headers`: sets the headers to the map's entries (`None`
/// unsets them).
#[verifier::external_body]
pub(crate) fn website_with_headers(website: &mut SpiderWebsite, headers: Option<HeaderMap>)
    ensures
        crawl_settings_of(*final(website)) == (CrawlSettings {
            headers: match headers {
                Some(m) => Some(header_entries(m)),
                None => None,
            },
            ..crawl_settings_of(*old(website))
        }),
        same_crawl_state(*final(website), *old(website)),
{
    website.with_headers(headers);
}

/// `HeaderMap::new`: an empty map.
#[verifier::external_body]
pub(crate) fn header_map_new() -> (map: HeaderMap)
    ensures
        header_entries(map) == Seq::<(Seq<char>, Seq<u8>)>::empty(),
{
    HeaderMap::new()
}

/// The names a header map holds entries under.
pub open spec fn header_name_set(entries: Seq<(Seq<char>, Seq<u8>)>) -> Set<Seq<char>> {
    entries.map_values(|e: (Seq<char>, Seq<u8>)| e.0).to_set()
}

/// The position of the last entry under `name`, or -1 when there is none.
pub open spec fn last_named(entries: Seq<(Seq<char>, Seq<u8>)>, name: Seq<char>) -> int
    decreases entries.len(),
{
    if entries.len() == 0 {
        -1
    } else if entries.last().0 == name {
        entries.len() - 1
    } else {
        last_named(entries.drop_last(), name)
    }
}

/// A header map's entries after a value is appended under a name: a new name
/// comes last; otherwise the value follows the name's last value.
pub open spec fn header_appended(
    entries: Seq<(Seq<char>, Seq<u8>)>,
    e: (Seq<char>, Seq<u8>),
) -> Seq<(Seq<char>, Seq<u8>)> {
    let k = last_named(entries, e.0);
    if k < 0 {
        entries.push(e)
    } else {
        entries.insert(k + 1, e)
    }
}

/// `HeaderMap::try_append`: appends the value under the name (see
/// `header_appended`), or, when the map cannot grow its table, leaves the
/// entries as they were and fails. With fewer than 6554 names present it can
/// always grow, whatever the state of its hashing.
#[verifier::external_body]
pub(crate) fn header_map_try_append(map: &mut HeaderMap, name: HeaderName, value: HeaderValue) -> (res: Result<bool, MaxSizeReached>)
    ensures
        res is Ok ==> header_entries(*final(map)) == header_appended(
            header_entries(*old(map)),
            (header_name_text(name), header_value_bytes(value)),
        ),
        res is Err ==> header_entries(*final(map)) == header_entries(*old(map)),
        header_name_set(header_entries(*old(map))).len() < 6554 ==> res is Ok,
{
    map.try_append(name, value)
}

/// `HeaderName::from_str`: succeeds exactly on the texts it accepts, giving
/// the name in small letters.
#[verifier::external_body]
pub(crate) fn header_name_parse(text: &str) -> (res: Result<HeaderName, InvalidHeaderName>)
    ensures
        res is Ok <==> header_name_accepted(text@),
        res matches Ok(name) ==> header_name_text(name) == ascii_lowercase(text@),
{
    HeaderName::from_str(text)
}

/// `HeaderValue::from_str`: succeeds exactly when every byte is a tab, or at
/// least 32 and not 127.
#[verifier::external_body]
pub(crate) fn header_value_parse(text: &str) -> (res: Result<HeaderValue, InvalidHeaderValue>)
    ensures
        res is Ok <==> header_value_accepted(text@),
        res matches Ok(value) ==> header_value_bytes(value) == encode_utf8(text@),
{
    HeaderValue::from_str(text)
}

/// `Page::get_url`, as an owned string.
#[verifier::external_body]
pub(crate) fn page_url(page: &SpiderPage) -> (url: String)
    ensures
        url@ == page_url_of(*page),
{
    page.get_url().into()
}

/// The page's HTTP status code (`status_code`), as a number.
#[verifier::external_body]
pub(crate) fn page_status_code(page: &SpiderPage) -> (code: u16)
    ensures
        code == page_status_of(*page),
{
    page.status_code.as_u16()
}

/// `Page::get_html`: the page's content as text, read from its raw content
/// with `String::from_utf8_lossy`, so exactly the decoded raw content when
/// that is valid UTF-8.
#[verifier::external_body]
pub(crate) fn page_html(page: &SpiderPage) -> (html: String)
    ensures
        html@ == page_text_of(*page),
        valid_utf8(page_bytes_of(*page)) ==> html@ == decode_utf8(page_bytes_of(*page)),
{
    page.get_html()
}

/// `Page::get_html_bytes_u8`: the page's raw content.
#[verifier::external_body]
pub(crate) fn page_bytes(page: &SpiderPage) -> (bytes: &[u8])
    ensures
        bytes@ == page_bytes_of(*page),
{
    page.get_html_bytes_u8()
}

/// The text of the first `title` element of an HTML document (its inner
/// HTML), found with `spider`'s HTML parser and the selector `title`; empty
/// when there is none.
#[verifier::external_body]
pub(crate) fn document_title(html: &str) -> (title: String)
    ensures
        title@ == html_title(html@),
{
    match Selector::parse("title") {
        Ok(selector) => match Html::parse_document(html).select(&selector).next() {
            Some(title) => title.inner_html(),
            None => String::new(),
        },
        Err(_) => String::new(),
    }
}

} // verus!
