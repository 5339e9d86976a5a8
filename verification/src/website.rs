//! A website to crawl: the crawler with its configuration, the ids of the
//! background tasks started for it, and the data callers stored with it.
//!
//! Running a crawl is asynchronous and happens outside this library: the
//! functions here decide what is run, where, and under which task ids, and
//! hand back a plan for the caller to carry out.
use crate::conversions::{
    converted_bytes, json_array, json_array_from, json_from_slice_or_null, json_read,
    object_to_u8, ConvertError, ObjectConvert,
};
use crate::export::{
    chars_of, default_directory, default_file_of, default_jsonl_file, default_storage_directory,
    directory_of, file_of, join_lines, jsonl_file_name, jsonl_lines, storage_directory,
};
use crate::headers::{header_map, kept_headers, pair_names};
use crate::npage::{is_record_of, NPage};
use crate::nwebsite::NWebsite;
use crate::registry::{can_allocate, next_handle_id, with_id, without_id, Handles};
use crate::spider_calls::{
    budget_kept, budget_texts, crawl_settings_of, crawl_start_url, external_domain_set, gpt_configs_new,
    gpt_settings_of, keeps_crawl_of, page_channel_of, receiver_channel, stop_requested_of,
    keys_case_distinct, texts, visited_links_of, CrawlSettings, kept_pages_of, start_url_of, status_text_of, website_build,
    website_clear, website_clone, website_drain_links, website_links, website_new, website_pages,
    website_size, website_status, website_stop, website_subscribe, website_url,
    website_with_blacklist_url, website_with_budget, website_with_caching,
    website_with_chrome_intercept, website_with_cron, website_with_delay, website_with_depth,
    website_with_external_domains, website_with_headers, website_with_http2_prior_knowledge,
    website_with_openai, website_with_proxies, website_with_redirect_limit,
    website_with_redirect_policy, website_with_request_timeout, website_with_respect_robots_txt,
    website_with_sitemap, website_with_stealth, website_with_subdomains, website_with_tld,
    website_with_user_agent, CronMode, RedirectMode,
};
use spider::page::Page as SpiderPage;
use spider::tokio::sync::broadcast::Receiver;
use spider::website::Website as SpiderWebsite;
use vstd::prelude::*;

verus! {

/// What the library keeps about a website, apart from the crawler itself.
pub struct WebsiteView {
    /// Ids of the page subscriptions, in registration order.
    pub subscriptions: Seq<u32>,
    /// Ids of the crawls running in the background, in registration order.
    pub crawls: Seq<u32>,
    /// Whether pages are handed out as raw bytes.
    pub raw_content: bool,
    /// The data stored with `push_data`, in order.
    pub collected: Seq<Seq<u8>>,
    /// Whether a crawl was started in the background.
    pub running_in_background: bool,
}

/// A website holding the crawler, fit for a script runtime.
pub struct Website {
    /// The crawler.
    inner: SpiderWebsite,
    /// Ids of the page subscriptions.
    subscription_handles: Handles,
    /// Ids of the background crawls.
    crawl_handles: Handles,
    /// Do not convert content to UTF-8.
    raw_content: bool,
    /// The data collected.
    collected_data: Vec<Vec<u8>>,
    /// Is a crawl running in the background.
    running_in_background: bool,
}

impl View for Website {
    type V = WebsiteView;

    closed spec fn view(&self) -> WebsiteView {
        WebsiteView {
            subscriptions: self.subscription_handles@,
            crawls: self.crawl_handles@,
            raw_content: self.raw_content,
            collected: self.collected_data@.map_values(|d: Vec<u8>| d@),
            running_in_background: self.running_in_background,
        }
    }
}

/// Which run of the crawler a plan starts.
#[derive(PartialEq, Eq, Structural, Debug, Clone, Copy)]
pub enum CrawlKind {
    /// `crawl`: with headless Chrome rendering.
    Crawl,
    /// `crawl_raw`: plain HTTP.
    CrawlRaw,
    /// `crawl_smart`: HTTP first, rendering as needed.
    CrawlSmart,
    /// `scrape`: with headless Chrome rendering, keeping the pages.
    Scrape,
    /// `scrape_raw`: plain HTTP, keeping the pages.
    ScrapeRaw,
}

/// What a crawl request asks the caller to do.
pub struct CrawlPlan {
    /// The run to start.
    pub kind: CrawlKind,
    /// A copy of the crawler to run in a background task; `None` means the run
    /// happens on the website's own crawler and is awaited.
    pub detached: Option<SpiderWebsite>,
    /// The id the background crawl task is registered under.
    pub crawl_id: Option<u32>,
    /// The pages to forward to the caller's callback, from a listener task.
    pub receiver: Option<Receiver<SpiderPage>>,
    /// The id the listener task is registered under.
    pub subscription_id: Option<u32>,
    /// Whether the caller waits for the listener task after the run.
    pub await_listener: bool,
}

/// What `stop` asks the caller to do.
pub struct StopPlan {
    /// The crawl to shut down, when one was started in the background.
    pub shutdown_target: Option<String>,
    /// Whether a background crawl task was removed.
    pub stopped: bool,
}

/// Where and what `export_jsonl_data` writes.
pub struct JsonlExport {
    /// The directory to create.
    pub directory: String,
    /// The file to write.
    pub file: String,
    /// The file's contents: the stored items, one per line.
    pub contents: Vec<u8>,
}

/// One field of the OpenAI settings object, read both as text and as a number
/// (each empty or 0 where the field is not of that type).
pub struct OpenAiEntry {
    pub key: String,
    pub text: String,
    pub number: u16,
}

/// The OpenAI settings taken from the entries.
pub struct OpenAiSettings {
    pub model: String,
    pub prompt: String,
    pub max_tokens: u16,
}

/// The settings after the first `n` entries: each of `model`, `prompt` and
/// `maxTokens` takes the value of its last entry, starting from empty texts
/// and one token.
pub open spec fn openai_after(entries: Seq<OpenAiEntry>, n: int) -> (Seq<char>, Seq<char>, u16)
    decreases n,
{
    if n <= 0 {
        (Seq::empty(), Seq::empty(), 1u16)
    } else {
        let (model, prompt, tokens) = openai_after(entries, n - 1);
        let e = entries[n - 1];
        if e.key@ == "model"@ {
            (e.text@, prompt, tokens)
        } else if e.key@ == "prompt"@ {
            (model, e.text@, tokens)
        } else if e.key@ == "maxTokens"@ {
            (model, prompt, e.number)
        } else {
            (model, prompt, tokens)
        }
    }
}

/// Whether a cron job scrapes: only for the type `scrape`.
pub open spec fn cron_scrapes(cron_type: Option<String>) -> bool {
    match cron_type {
        Some(t) => t@ == "scrape"@,
        None => false,
    }
}

/// Whether two texts are equal.
fn same_text(a: &str, b: &str) -> (res: bool)
    ensures
        res == (a@ == b@),
{
    let x = chars_of(a);
    let y = chars_of(b);
    if x.len() != y.len() {
        return false;
    }
    let mut i: usize = 0;
    while i < x.len()
        invariant
            x@ == a@,
            y@ == b@,
            x@.len() == y@.len(),
            i <= x@.len(),
            forall|k: int| 0 <= k < i ==> x@[k] == y@[k],
        decreases x@.len() - i,
    {
        if x[i] != y[i] {
            assert(x@[i as int] != y@[i as int]);
            return false;
        }
        i = i + 1;
    }
    assert(x@ =~= y@);
    true
}

/// The OpenAI settings the entries give (see `openai_after`).
pub fn openai_settings(entries: &Vec<OpenAiEntry>) -> (settings: OpenAiSettings)
    ensures
        (settings.model@, settings.prompt@, settings.max_tokens) == openai_after(
            entries@,
            entries@.len() as int,
        ),
{
    let mut model = String::new();
    let mut prompt = String::new();
    let mut max_tokens: u16 = 1;
    let mut i: usize = 0;
    while i < entries.len()
        invariant
            i <= entries@.len(),
            (model@, prompt@, max_tokens) == openai_after(entries@, i as int),
        decreases entries@.len() - i,
    {
        let e = &entries[i];
        if same_text(e.key.as_str(), "model") {
            model = e.text.clone();
        } else if same_text(e.key.as_str(), "prompt") {
            prompt = e.text.clone();
        } else if same_text(e.key.as_str(), "maxTokens") {
            max_tokens = e.number;
        }
        i = i + 1;
    }
    OpenAiSettings { model, prompt, max_tokens }
}

/// What a cron job runs: scraping for the type `scrape`, crawling otherwise.
pub fn cron_mode(cron_type: Option<String>) -> (mode: CronMode)
    ensures
        mode == (if cron_scrapes(cron_type) {
            CronMode::Scrape
        } else {
            CronMode::Crawl
        }),
{
    match cron_type {
        Some(t) => if same_text(t.as_str(), "scrape") {
            CronMode::Scrape
        } else {
            CronMode::Crawl
        },
        None => CronMode::Crawl,
    }
}

/// Whether an optional flag is set: unset counts as false.
pub open spec fn flag(value: Option<bool>) -> bool {
    value == Some(true)
}

/// The website after a run was planned: a run in the background registers a
/// background crawl; a callback's listener is registered for background runs
/// and, with `register_listener`, for foreground runs.
pub open spec fn planned_view(
    old: WebsiteView,
    with_callback: bool,
    background: bool,
    register_listener: bool,
) -> WebsiteView {
    WebsiteView {
        subscriptions: if with_callback && (background || register_listener) {
            with_id(old.subscriptions, next_handle_id(old.subscriptions))
        } else {
            old.subscriptions
        },
        crawls: if background {
            with_id(old.crawls, next_handle_id(old.crawls))
        } else {
            old.crawls
        },
        running_in_background: old.running_in_background || background,
        ..old
    }
}

/// Whether `plan` is the plan for a run of `kind` with these requests:
/// with a callback, the pages go to a listener; in the background, the run
/// happens on a copy of the crawler registered as a background crawl;
/// otherwise it runs on the website's crawler, and a listener that is not
/// registered is awaited after the run.
pub open spec fn plan_matches(
    plan: CrawlPlan,
    old: WebsiteView,
    kind: CrawlKind,
    with_callback: bool,
    background: bool,
    register_listener: bool,
) -> bool {
    &&& plan.kind == kind
    &&& (plan.receiver is Some <==> with_callback)
    &&& (plan.detached is Some <==> background)
    &&& plan.crawl_id == (if background {
        Some(next_handle_id(old.crawls))
    } else {
        None
    })
    &&& plan.subscription_id == (if with_callback && (background || register_listener) {
        Some(next_handle_id(old.subscriptions))
    } else {
        None
    })
    &&& plan.await_listener == (with_callback && !background && !register_listener)
}

/// Whether the plan's receiver, if any, listens to the crawler that runs: the
/// detached copy in the background, otherwise the website's own crawler
/// `own`.
pub open spec fn listens_to_run(plan: CrawlPlan, own: SpiderWebsite) -> bool {
    plan.receiver matches Some(rx) ==> match plan.detached {
        Some(copy) => page_channel_of(copy) == Some(receiver_channel(rx)),
        None => page_channel_of(own) == Some(receiver_channel(rx)),
    }
}

/// What a run request needs to be carried out without overflowing an id.
pub open spec fn can_plan(
    old: WebsiteView,
    with_callback: bool,
    background: bool,
    register_listener: bool,
    capacity: usize,
) -> bool {
    &&& background ==> can_allocate(old.crawls)
    &&& with_callback && (background || register_listener) ==> can_allocate(old.subscriptions)
    &&& with_callback ==> capacity <= usize::MAX / 2
}

impl Website {
    /// The pages the crawler kept from a scrape.
    pub open spec fn kept_pages(&self) -> Option<Seq<SpiderPage>> {
        kept_pages_of(self.crawler())
    }

    /// The crawler's start url.
    pub open spec fn start_url(&self) -> Seq<char> {
        start_url_of(self.crawler())
    }

    /// The `Display` text of the crawler's status.
    pub open spec fn status_text(&self) -> Seq<char> {
        status_text_of(self.crawler())
    }

    /// Whether the crawler was asked to stop.
    pub open spec fn stop_requested(&self) -> bool {
        stop_requested_of(self.crawler())
    }

    /// The channel the crawler sends its pages on, once subscribed to.
    pub open spec fn page_channel(&self) -> Option<int> {
        page_channel_of(self.crawler())
    }

    /// The crawler.
    pub closed spec fn crawler(&self) -> SpiderWebsite {
        self.inner
    }

    /// The crawler's configuration.
    pub open spec fn settings(&self) -> CrawlSettings {
        crawl_settings_of(self.crawler())
    }

    /// The links the crawler visited, as text.
    pub open spec fn visited_links(&self) -> Set<Seq<char>> {
        visited_links_of(self.crawler())
    }

    /// Whether this website is `before` with the crawler's configuration
    /// replaced by `settings`, all else kept.
    pub open spec fn reconfigured(&self, before: Website, settings: CrawlSettings) -> bool {
        &&& self@ == before@
        &&& self.settings() == settings
        &&& self.start_url() == before.start_url()
        &&& self.kept_pages() == before.kept_pages()
        &&& self.visited_links() == before.visited_links()
        &&& self.status_text() == before.status_text()
        &&& self.stop_requested() == before.stop_requested()
        &&& self.page_channel() == before.page_channel()
    }

    /// Whether this website's crawler holds the configuration and state of
    /// `before`'s crawler, sending its pages on the channel that one had, if
    /// any.
    pub open spec fn keeps_crawl(&self, before: Website) -> bool {
        keeps_crawl_of(self.crawler(), before.crawler())
    }

    /// A new website for the url; `raw_content` keeps pages as raw bytes.
    pub fn new(url: String, raw_content: Option<bool>) -> (website: Self)
        ensures
            website@ == (WebsiteView {
                subscriptions: Seq::empty(),
                crawls: Seq::empty(),
                raw_content: flag(raw_content),
                collected: Seq::empty(),
                running_in_background: false,
            }),
            website.start_url() == crawl_start_url(url@),
            website.visited_links() == Set::<Seq<char>>::empty(),
            website.kept_pages() is None,
            !website.stop_requested(),
            website.page_channel() is None,
    {
        let raw = match raw_content {
            Some(b) => b,
            None => false,
        };
        let website = Website {
            inner: website_new(url.as_str()),
            subscription_handles: Handles::new(),
            crawl_handles: Handles::new(),
            raw_content: raw,
            collected_data: Vec::new(),
            running_in_background: false,
        };
        assert(website@.collected =~= Seq::<Seq<u8>>::empty());
        website
    }

    /// Whether pages are handed out as raw bytes.
    pub fn raw_content(&self) -> (raw: bool)
        ensures
            raw == self@.raw_content,
    {
        self.raw_content
    }

    /// The ids of the page subscriptions.
    pub fn subscription_ids(&self) -> (ids: &Handles)
        ensures
            ids@ == self@.subscriptions,
    {
        &self.subscription_handles
    }

    /// The ids of the background crawls.
    pub fn crawl_ids(&self) -> (ids: &Handles)
        ensures
            ids@ == self@.crawls,
    {
        &self.crawl_handles
    }

    /// The crawler.
    pub fn inner(&self) -> (crawler: &SpiderWebsite)
        ensures
            *crawler == self.crawler(),
    {
        &self.inner
    }

    /// The crawler, to run it in the foreground.
    pub fn inner_mut(&mut self) -> (crawler: &mut SpiderWebsite)
        ensures
            *crawler == old(self).crawler(),
            final(self).crawler() == *final(crawler),
            final(self)@ == old(self)@,
    {
        &mut self.inner
    }

    /// The crawl status, as text.
    pub fn status(&self) -> (status: String)
        ensures
            status@ == self.status_text(),
    {
        website_status(&self.inner)
    }

    /// Stores an object's converted bytes with the website.
    pub fn push_data(&mut self, obj: ObjectConvert) -> (res: Result<(), ConvertError>)
        ensures
            res is Ok,
            final(self)@ == (WebsiteView {
                collected: old(self)@.collected.push(converted_bytes(obj)),
                ..old(self)@
            }),
            final(self).crawler() == old(self).crawler(),
    {
        match object_to_u8(obj) {
            Ok(bytes) => {
                let ghost b = bytes@;
                self.collected_data.push(bytes);
                assert(self@.collected =~= old(self)@.collected.push(b));
                Ok(())
            },
            Err(e) => Err(e),
        }
    }

    /// Drops the stored data.
    pub fn clear_data(&mut self) -> (res: Result<(), ConvertError>)
        ensures
            res is Ok,
            final(self)@ == (WebsiteView { collected: Seq::empty(), ..old(self)@ }),
            final(self).crawler() == old(self).crawler(),
    {
        self.collected_data = Vec::new();
        assert(self@.collected =~= Seq::<Seq<u8>>::empty());
        Ok(())
    }

    /// The stored data read back: a JSON array with the value parsed from each
    /// stored item (`null` for an item that does not parse).
    pub fn read_data(&mut self) -> (data: serde_json::Value)
        ensures
            final(self)@ == old(self)@,
            final(self).crawler() == old(self).crawler(),
            data == json_array(old(self)@.collected.map_values(|d: Seq<u8>| json_read(d))),
    {
        let mut items: Vec<serde_json::Value> = Vec::new();
        let mut i: usize = 0;
        let ghost stored = self@.collected;
        while i < self.collected_data.len()
            invariant
                i <= self.collected_data@.len(),
                stored == self.collected_data@.map_values(|d: Vec<u8>| d@),
                items@ == stored.subrange(0, i as int).map_values(|d: Seq<u8>| json_read(d)),
            decreases self.collected_data@.len() - i,
        {
            let value = json_from_slice_or_null(self.collected_data[i].as_slice());
            items.push(value);
            i = i + 1;
            assert(items@ =~= stored.subrange(0, i as int).map_values(|d: Seq<u8>| json_read(d)));
        }
        assert(stored.subrange(0, stored.len() as int) =~= stored);
        json_array_from(items)
    }

    /// Where and what to write for an export: a given path names the
    /// directory and the file (see `directory_of` and `file_of`); without one
    /// the data goes under `./storage`, in a file named after the site. The
    /// contents are the stored items, one per line.
    pub fn export_jsonl_data(&self, export_path: Option<String>) -> (export: JsonlExport)
        ensures
            export.contents@ == jsonl_lines(self@.collected),
            export_path matches Some(p) ==> export.directory@ == directory_of(p@)
                && export.file@ == file_of(p@),
            export_path is None ==> export.directory@ == default_directory() && export.file@
                == default_file_of(self.start_url()),
    {
        let contents = join_lines(&self.collected_data);
        match export_path {
            Some(p) => {
                JsonlExport {
                    directory: storage_directory(p.as_str()),
                    file: jsonl_file_name(p.as_str()),
                    contents,
                }
            },
            None => {
                let url = website_url(&self.inner);
                let file = default_jsonl_file(url.as_str());
                JsonlExport { directory: default_storage_directory(), file, contents }
            },
        }
    }

    /// Subscribes to the pages of the next crawls: the listener gets the next
    /// subscription id.
    pub fn subscribe(&mut self, capacity: usize) -> (res: (u32, Receiver<SpiderPage>))
        requires
            can_allocate(old(self)@.subscriptions),
            capacity <= usize::MAX / 2,
        ensures
            res.0 == next_handle_id(old(self)@.subscriptions),
            final(self)@ == (WebsiteView {
                subscriptions: with_id(old(self)@.subscriptions, res.0),
                ..old(self)@
            }),
            final(self).keeps_crawl(*old(self)),
            final(self).page_channel() == Some(receiver_channel(res.1)),
    {
        let rx = website_subscribe(&mut self.inner, capacity).unwrap();
        let id = self.subscription_handles.next_id();
        self.subscription_handles.insert(id);
        (id, rx)
    }

    /// Removes a subscription (or, without an id, all of them); tells whether
    /// one was removed.
    pub fn unsubscribe(&mut self, id: Option<u32>) -> (removed: bool)
        ensures
            id matches Some(i) ==> removed == old(self)@.subscriptions.contains(i) && final(self)@ == (WebsiteView {
                subscriptions: without_id(old(self)@.subscriptions, i),
                ..old(self)@
            }) && !final(self)@.subscriptions.contains(i),
            id is None ==> removed == (old(self)@.subscriptions.len() > 0) && final(self)@ == (
            WebsiteView { subscriptions: Seq::empty(), ..old(self)@ }),
            final(self).crawler() == old(self).crawler(),
    {
        match id {
            Some(i) => self.subscription_handles.remove(i),
            None => {
                let keys = self.subscription_handles.len();
                self.subscription_handles.drain();
                keys > 0
            },
        }
    }

    /// Stops the crawl: asks the crawler to stop, marks a background crawl for
    /// shut down, and removes the background crawl with the id (or, without an
    /// id, all of them).
    pub fn stop(&mut self, id: Option<u32>) -> (plan: StopPlan)
        ensures
            plan.shutdown_target is Some <==> old(self)@.running_in_background,
            plan.shutdown_target matches Some(t) ==> t@ == old(self).start_url(),
            !final(self)@.running_in_background,
            final(self)@.subscriptions == old(self)@.subscriptions,
            final(self)@.raw_content == old(self)@.raw_content,
            final(self)@.collected == old(self)@.collected,
            id matches Some(i) ==> plan.stopped == old(self)@.crawls.contains(i)
                && final(self)@.crawls == without_id(old(self)@.crawls, i) && !final(self)@.crawls.contains(i),
            id is None ==> plan.stopped == (old(self)@.crawls.len() > 0) && final(self)@.crawls
                == Seq::<u32>::empty(),
            final(self).stop_requested(),
            final(self).settings() == old(self).settings(),
            final(self).start_url() == old(self).start_url(),
            final(self).kept_pages() == old(self).kept_pages(),
            final(self).visited_links() == old(self).visited_links(),
            final(self).status_text() == old(self).status_text(),
            final(self).page_channel() == old(self).page_channel(),
    {
        website_stop(&mut self.inner);
        let shutdown_target = if self.running_in_background {
            self.running_in_background = false;
            Some(website_url(&self.inner))
        } else {
            None
        };
        let stopped = match id {
            Some(i) => self.crawl_handles.remove(i),
            None => {
                let keys = self.crawl_handles.len();
                self.crawl_handles.drain();
                keys > 0
            },
        };
        StopPlan { shutdown_target, stopped }
    }

    /// Plans a run of `kind`; with `register_listener` a listener of a run in
    /// the foreground is registered, otherwise it is awaited.
    fn plan_run(
        &mut self,
        kind: CrawlKind,
        with_callback: bool,
        background: bool,
        register_listener: bool,
        capacity: usize,
    ) -> (plan: CrawlPlan)
        requires
            can_plan(old(self)@, with_callback, background, register_listener, capacity),
        ensures
            plan_matches(plan, old(self)@, kind, with_callback, background, register_listener),
            final(self)@ == planned_view(
                old(self)@,
                with_callback,
                background,
                register_listener,
            ),
            background ==> final(self).crawler() == old(self).crawler(),
            final(self).keeps_crawl(*old(self)),
            plan.detached matches Some(copy) ==> keeps_crawl_of(copy, old(self).crawler()),
            listens_to_run(plan, final(self).crawler()),
    {
        if background {
            self.running_in_background = true;
        }
        if with_callback {
            if background {
                let mut website = website_clone(&self.inner);
                let rx = website_subscribe(&mut website, capacity).unwrap();
                let crawl_id = self.crawl_handles.next_id();
                let id = self.subscription_handles.next_id();
                self.crawl_handles.insert(crawl_id);
                self.subscription_handles.insert(id);
                CrawlPlan {
                    kind,
                    detached: Some(website),
                    crawl_id: Some(crawl_id),
                    receiver: Some(rx),
                    subscription_id: Some(id),
                    await_listener: false,
                }
            } else {
                let rx = website_subscribe(&mut self.inner, capacity).unwrap();
                if register_listener {
                    let id = self.subscription_handles.next_id();
                    self.subscription_handles.insert(id);
                    CrawlPlan {
                        kind,
                        detached: None,
                        crawl_id: None,
                        receiver: Some(rx),
                        subscription_id: Some(id),
                        await_listener: false,
                    }
                } else {
                    CrawlPlan {
                        kind,
                        detached: None,
                        crawl_id: None,
                        receiver: Some(rx),
                        subscription_id: None,
                        await_listener: true,
                    }
                }
            }
        } else {
            if background {
                let website = website_clone(&self.inner);
                let crawl_id = self.crawl_handles.next_id();
                self.crawl_handles.insert(crawl_id);
                CrawlPlan {
                    kind,
                    detached: Some(website),
                    crawl_id: Some(crawl_id),
                    receiver: None,
                    subscription_id: None,
                    await_listener: false,
                }
            } else {
                CrawlPlan {
                    kind,
                    detached: None,
                    crawl_id: None,
                    receiver: None,
                    subscription_id: None,
                    await_listener: false,
                }
            }
        }
    }

    /// Plans a crawl: with headless rendering (`crawl`) or plain HTTP
    /// (`crawl_raw`), in the background only when asked; the listener of a
    /// foreground crawl stays registered.
    pub fn crawl(
        &mut self,
        with_callback: bool,
        background: Option<bool>,
        headless: Option<bool>,
        capacity: usize,
    ) -> (plan: CrawlPlan)
        requires
            can_plan(old(self)@, with_callback, flag(background), true, capacity),
        ensures
            plan_matches(
                plan,
                old(self)@,
                if flag(headless) {
                    CrawlKind::Crawl
                } else {
                    CrawlKind::CrawlRaw
                },
                with_callback,
                flag(background),
                true,
            ),
            final(self)@ == planned_view(
                old(self)@,
                with_callback,
                flag(background),
                true,
            ),
            flag(background) ==> final(self).crawler() == old(self).crawler(),
            final(self).keeps_crawl(*old(self)),
            plan.detached matches Some(copy) ==> keeps_crawl_of(copy, old(self).crawler()),
            listens_to_run(plan, final(self).crawler()),
    {
        let background = background == Some(true);
        let headless = headless == Some(true);
        let kind = if headless {
            CrawlKind::Crawl
        } else {
            CrawlKind::CrawlRaw
        };
        self.plan_run(kind, with_callback, background, true, capacity)
    }

    /// Plans a smart crawl (see `CrawlKind::CrawlSmart`), in the
    /// background only when asked; the listener of a foreground crawl is
    /// awaited after the run.
    pub fn crawl_smart(&mut self, with_callback: bool, background: Option<bool>, capacity: usize) -> (plan: CrawlPlan)
        requires
            can_plan(old(self)@, with_callback, flag(background), false, capacity),
        ensures
            plan_matches(
                plan,
                old(self)@,
                CrawlKind::CrawlSmart,
                with_callback,
                flag(background),
                false,
            ),
            final(self)@ == planned_view(
                old(self)@,
                with_callback,
                flag(background),
                false,
            ),
            flag(background) ==> final(self).crawler() == old(self).crawler(),
            final(self).keeps_crawl(*old(self)),
            plan.detached matches Some(copy) ==> keeps_crawl_of(copy, old(self).crawler()),
            listens_to_run(plan, final(self).crawler()),
    {
        let background = background == Some(true);
        self.plan_run(CrawlKind::CrawlSmart, with_callback, background, false, capacity)
    }

    /// Plans a scrape: with headless rendering (`scrape`) or plain HTTP
    /// (`scrape_raw`), in the background only when asked; the listener of a
    /// foreground scrape is awaited after the run.
    pub fn scrape(
        &mut self,
        with_callback: bool,
        background: Option<bool>,
        headless: Option<bool>,
        capacity: usize,
    ) -> (plan: CrawlPlan)
        requires
            can_plan(old(self)@, with_callback, flag(background), false, capacity),
        ensures
            plan_matches(
                plan,
                old(self)@,
                if flag(headless) {
                    CrawlKind::Scrape
                } else {
                    CrawlKind::ScrapeRaw
                },
                with_callback,
                flag(background),
                false,
            ),
            final(self)@ == planned_view(
                old(self)@,
                with_callback,
                flag(background),
                false,
            ),
            flag(background) ==> final(self).crawler() == old(self).crawler(),
            final(self).keeps_crawl(*old(self)),
            plan.detached matches Some(copy) ==> keeps_crawl_of(copy, old(self).crawler()),
            listens_to_run(plan, final(self).crawler()),
    {
        let headless = headless == Some(true);
        let background = background == Some(true);
        let kind = if headless {
            CrawlKind::Scrape
        } else {
            CrawlKind::ScrapeRaw
        };
        self.plan_run(kind, with_callback, background, false, capacity)
    }

    /// Prepares a cron run: with a callback, a receiver of the pages the
    /// cron runs find (no task id is registered for it).
    pub fn run_cron(&mut self, with_callback: bool, capacity: usize) -> (receiver: Option<
        Receiver<SpiderPage>,
    >)
        requires
            with_callback ==> capacity <= usize::MAX / 2,
        ensures
            final(self)@ == old(self)@,
            receiver is Some <==> with_callback,
            final(self).keeps_crawl(*old(self)),
            receiver matches Some(rx) ==> final(self).page_channel() == Some(receiver_channel(rx)),
            !with_callback ==> final(self).crawler() == old(self).crawler(),
    {
        if with_callback {
            website_subscribe(&mut self.inner, capacity)
        } else {
            None
        }
    }

    /// All the links of the website found so far, each once.
    pub fn get_links(&self) -> (links: Vec<String>)
        ensures
            links@.map_values(|s: String| s@).to_set() == self.visited_links(),
            links@.map_values(|s: String| s@).no_duplicates(),
    {
        website_links(&self.inner)
    }

    /// The number of links visited, truncated to 32 bits.
    pub fn size(&mut self) -> (n: u32)
        ensures
            *final(self) == *old(self),
            n == old(self).visited_links().len() as u32,
    {
        website_size(&self.inner) as u32
    }

    /// The pages kept by a scrape, as page records (raw bytes or text, as the
    /// website was set up); none when nothing was kept.
    pub fn get_pages(&self) -> (pages: Vec<NPage>)
        ensures
            self.kept_pages() is None ==> pages@.len() == 0,
            self.kept_pages() matches Some(kept) ==> pages@.len() == kept.len() && forall|i: int|
                0 <= i < kept.len() ==> is_record_of(
                    #[trigger] pages@[i],
                    kept[i],
                    self@.raw_content,
                ),
    {
        let mut pages: Vec<NPage> = Vec::new();
        let raw_content = self.raw_content;
        match website_pages(&self.inner) {
            Some(p) => {
                let mut i: usize = 0;
                while i < p.len()
                    invariant
                        raw_content == self@.raw_content,
                        i <= p@.len(),
                        pages@.len() == i,
                        forall|k: int|
                            0 <= k < i ==> is_record_of(#[trigger] pages@[k], p@[k], raw_content),
                    decreases p@.len() - i,
                {
                    pages.push(NPage::new(&p[i], raw_content));
                    i = i + 1;
                }
            },
            None => {},
        }
        pages
    }

    /// The links and pages the website holds, as handed out by the `crawl`
    /// shortcut (see `get_links` and `get_pages`).
    pub fn summary(&self) -> (site: NWebsite)
        ensures
            site.links@.map_values(|s: String| s@).to_set() == self.visited_links(),
            site.links@.map_values(|s: String| s@).no_duplicates(),
            self.kept_pages() is None ==> site.pages@.len() == 0,
            self.kept_pages() matches Some(kept) ==> site.pages@.len() == kept.len() && forall|i: int|
                0 <= i < kept.len() ==> is_record_of(
                    #[trigger] site.pages@[i],
                    kept[i],
                    self@.raw_content,
                ),
    {
        NWebsite { links: self.get_links(), pages: self.get_pages() }
    }

    /// Drains all the links found so far: they are handed out, each once, and
    /// the crawler keeps none; its configuration, start url and kept pages stay.
    pub fn drain_links(&mut self) -> (links: Vec<String>)
        ensures
            final(self)@ == old(self)@,
            links@.map_values(|s: String| s@).to_set() == old(self).visited_links(),
            links@.map_values(|s: String| s@).no_duplicates(),
            final(self).visited_links() == Set::<Seq<char>>::empty(),
            final(self).settings() == old(self).settings(),
            final(self).start_url() == old(self).start_url(),
            final(self).kept_pages() == old(self).kept_pages(),
            final(self).page_channel() == old(self).page_channel(),
    {
        website_drain_links(&mut self.inner)
    }

    /// Clears all links and page data of the crawler; its configuration and
    /// start url stay.
    pub fn clear(&mut self)
        ensures
            final(self)@ == old(self)@,
            final(self).visited_links() == Set::<Seq<char>>::empty(),
            final(self).kept_pages() is None,
            final(self).settings() == old(self).settings(),
            final(self).start_url() == old(self).start_url(),
            final(self).page_channel() == old(self).page_channel(),
    {
        website_clear(&mut self.inner)
    }

    /// Sets the HTTP headers of the requests to the map of the pairs (see
    /// `header_map`: the valid pairs in order, values of a repeated name
    /// together under it); `None` removes the headers. The map may refuse to
    /// grow past a few thousand names, keeping the pairs before the refused
    /// one; below 6554 distinct names it never refuses.
    pub fn with_headers(&mut self, headers: Option<Vec<(String, String)>>) -> (this: &Self)
        ensures
            *this == *final(self),
            final(self).reconfigured(
                *old(self),
                CrawlSettings { headers: final(self).settings().headers, ..old(self).settings() },
            ),
            headers is None ==> final(self).settings().headers is None,
            headers matches Some(pairs) ==> exists|k: int|
                0 <= k <= pairs@.len() && final(self).settings().headers == Some(
                    kept_headers(pairs@, k),
                ),
            headers matches Some(pairs) ==> (pair_names(pairs@).len() < 6554
                ==> final(self).settings().headers == Some(
                kept_headers(pairs@, pairs@.len() as int),
            )),
    {
        match headers {
            Some(pairs) => website_with_headers(&mut self.inner, Some(header_map(&pairs))),
            None => website_with_headers(&mut self.inner, None),
        }
        self
    }

    /// Sets the user agent of the requests.
    pub fn with_user_agent(&mut self, user_agent: Option<&str>) -> (this: &Self)
        ensures
            *this == *final(self),
            final(self).reconfigured(
                *old(self),
                CrawlSettings {
                    user_agent: match user_agent {
                        Some(a) => Some(a@),
                        None => None,
                    },
                    ..old(self).settings()
                },
            ),
    {
        website_with_user_agent(&mut self.inner, user_agent);
        self
    }

    /// Respects the robots.txt file.
    pub fn with_respect_robots_txt(&mut self, respect_robots_txt: bool) -> (this: &Self)
        ensures
            *this == *final(self),
            final(self).reconfigured(
                *old(self),
                CrawlSettings { respect_robots_txt, ..old(self).settings() },
            ),
    {
        website_with_respect_robots_txt(&mut self.inner, respect_robots_txt);
        self
    }

    /// Intercepts requests in Chrome to keep the content of the host only,
    /// blocking images and other visuals as asked.
    pub fn with_chrome_intercept(&mut self, chrome_intercept: bool, block_images: bool) -> (this:
        &Self)
        ensures
            *this == *final(self),
            final(self).reconfigured(
                *old(self),
                CrawlSettings {
                    chrome_intercept,
                    block_visuals: block_images,
                    ..old(self).settings()
                },
            ),
    {
        website_with_chrome_intercept(&mut self.inner, chrome_intercept, block_images);
        self
    }

    /// Includes subdomains.
    pub fn with_subdomains(&mut self, subdomains: bool) -> (this: &Self)
        ensures
            *this == *final(self),
            final(self).reconfigured(*old(self), CrawlSettings { subdomains, ..old(self).settings() }),
    {
        website_with_subdomains(&mut self.inner, subdomains);
        self
    }

    /// Includes other top-level domains.
    pub fn with_tld(&mut self, tld: bool) -> (this: &Self)
        ensures
            *this == *final(self),
            final(self).reconfigured(*old(self), CrawlSettings { tld, ..old(self).settings() }),
    {
        website_with_tld(&mut self.inner, tld);
        self
    }

    /// Only uses HTTP/2.
    pub fn with_http2_prior_knowledge(&mut self, http2_prior_knowledge: bool) -> (this: &Self)
        ensures
            *this == *final(self),
            final(self).reconfigured(
                *old(self),
                CrawlSettings { http2_prior_knowledge, ..old(self).settings() },
            ),
    {
        website_with_http2_prior_knowledge(&mut self.inner, http2_prior_knowledge);
        self
    }

    /// Sets the request timeout in milliseconds (`None` for no timeout).
    pub fn with_request_timeout(&mut self, request_timeout: Option<u32>) -> (this: &Self)
        ensures
            *this == *final(self),
            final(self).reconfigured(
                *old(self),
                CrawlSettings {
                    request_timeout_ms: match request_timeout {
                        Some(d) => Some(d as int),
                        None => None,
                    },
                    ..old(self).settings()
                },
            ),
    {
        let millis: Option<u64> = match request_timeout {
            Some(d) => Some(d as u64),
            None => None,
        };
        website_with_request_timeout(&mut self.inner, millis);
        self
    }

    /// Sets the external domains treated as part of the site (see
    /// `external_domain_set`); `None` leaves none.
    pub fn with_external_domains(&mut self, external_domains: Option<Vec<String>>) -> (this: &Self)
        ensures
            *this == *final(self),
            final(self).reconfigured(
                *old(self),
                CrawlSettings {
                    external_domains: match external_domains {
                        Some(d) => external_domain_set(d@.map_values(|s: String| s@)),
                        None => Set::<Seq<char>>::empty(),
                    },
                    ..old(self).settings()
                },
            ),
    {
        website_with_external_domains(&mut self.inner, external_domains);
        self
    }

    /// Uses stealth mode (unset counts as off).
    pub fn with_stealth(&mut self, stealth_mode: Option<bool>) -> (this: &Self)
        ensures
            *this == *final(self),
            final(self).reconfigured(
                *old(self),
                CrawlSettings { stealth: flag(stealth_mode), ..old(self).settings() },
            ),
    {
        let stealth = match stealth_mode {
            Some(b) => b,
            None => false,
        };
        website_with_stealth(&mut self.inner, stealth);
        self
    }

    /// Sets the crawl budget per path; `None` leaves the budget as it is. The
    /// crawler keys its budget case-insensitively: where no two paths differ
    /// only in the case of ASCII letters, the budget kept is the one given.
    pub fn with_budget(&mut self, budget: Option<std::collections::HashMap<String, u32>>) -> (this:
        &Self)
        ensures
            *this == *final(self),
            budget is None ==> *final(self) == *old(self),
            budget matches Some(d) ==> {
                &&& final(self).settings().budget matches Some(kept) && budget_kept(kept, d@)
                &&& keys_case_distinct(d@) ==> final(self).settings().budget == Some(
                    budget_texts(d@),
                )
                &&& final(self).reconfigured(
                    *old(self),
                    CrawlSettings { budget: final(self).settings().budget, ..old(self).settings() },
                )
            },
    {
        match budget {
            Some(d) => website_with_budget(&mut self.inner, &d),
            None => {},
        }
        self
    }

    /// Sets the max redirects allowed.
    pub fn with_redirect_limit(&mut self, redirect_limit: u32) -> (this: &Self)
        ensures
            *this == *final(self),
            final(self).reconfigured(
                *old(self),
                CrawlSettings { redirect_limit: redirect_limit as usize, ..old(self).settings() },
            ),
    {
        website_with_redirect_limit(&mut self.inner, redirect_limit as usize);
        self
    }

    /// Sets the redirect policy: strict or loose.
    pub fn with_redirect_policy(&mut self, strict: bool) -> (this: &Self)
        ensures
            *this == *final(self),
            final(self).reconfigured(
                *old(self),
                CrawlSettings { redirect_strict: strict, ..old(self).settings() },
            ),
    {
        let mode = if strict {
            RedirectMode::Strict
        } else {
            RedirectMode::Loose
        };
        website_with_redirect_policy(&mut self.inner, mode);
        self
    }

    /// Sets the url patterns (regular expressions) to leave out of the crawl.
    pub fn with_blacklist_url(&mut self, blacklist_url: Option<Vec<String>>) -> (this: &Self)
        ensures
            *this == *final(self),
            final(self).reconfigured(
                *old(self),
                CrawlSettings { blacklist: texts(blacklist_url), ..old(self).settings() },
            ),
    {
        website_with_blacklist_url(&mut self.inner, blacklist_url);
        self
    }

    /// Sets up cron jobs: scraping for the type `scrape`, crawling otherwise.
    pub fn with_cron(&mut self, cron_str: String, cron_type: Option<String>) -> (this: &Self)
        ensures
            *this == *final(self),
            final(self).reconfigured(
                *old(self),
                CrawlSettings {
                    cron_str: cron_str@,
                    cron_scrapes: cron_scrapes(cron_type),
                    ..old(self).settings()
                },
            ),
    {
        let mode = cron_mode(cron_type);
        website_with_cron(&mut self.inner, cron_str.as_str(), mode);
        self
    }

    /// Sets the OpenAI settings from the entries of a settings object (see
    /// `openai_settings`); `None` removes them.
    pub fn with_openai(&mut self, openai_configs: Option<Vec<OpenAiEntry>>) -> (this: &Self)
        ensures
            *this == *final(self),
            final(self).reconfigured(
                *old(self),
                CrawlSettings {
                    openai: match openai_configs {
                        Some(entries) => Some(openai_after(entries@, entries@.len() as int)),
                        None => None,
                    },
                    ..old(self).settings()
                },
            ),
    {
        match openai_configs {
            Some(entries) => {
                let settings = openai_settings(&entries);
                let configs = gpt_configs_new(
                    settings.model.as_str(),
                    settings.prompt.as_str(),
                    settings.max_tokens,
                );
                website_with_openai(&mut self.inner, Some(configs));
            },
            None => website_with_openai(&mut self.inner, None),
        }
        self
    }

    /// Sets the delay between requests in milliseconds.
    pub fn with_delay(&mut self, delay: u32) -> (this: &Self)
        ensures
            *this == *final(self),
            final(self).reconfigured(
                *old(self),
                CrawlSettings { delay: delay as u64, ..old(self).settings() },
            ),
    {
        website_with_delay(&mut self.inner, delay as u64);
        self
    }

    /// Sets the crawl depth limit (0 for none).
    pub fn with_depth(&mut self, depth: u32) -> (this: &Self)
        ensures
            *this == *final(self),
            final(self).reconfigured(
                *old(self),
                CrawlSettings { depth: depth as usize, ..old(self).settings() },
            ),
    {
        website_with_depth(&mut self.inner, depth as usize);
        self
    }

    /// Caches pages following HTTP rules; the crawler here is built without
    /// its cache, so nothing changes.
    pub fn with_caching(&mut self, cache: bool) -> (this: &Self)
        ensures
            *this == *final(self),
            *final(self) == *old(self),
    {
        website_with_caching(&mut self.inner, cache);
        self
    }

    /// Sets the sitemap url (`None` unsets it).
    pub fn with_sitemap(&mut self, sitemap: Option<&str>) -> (this: &Self)
        ensures
            *this == *final(self),
            final(self).reconfigured(
                *old(self),
                CrawlSettings {
                    sitemap: match sitemap {
                        Some(s) => Some(s@),
                        None => None,
                    },
                    ..old(self).settings()
                },
            ),
    {
        website_with_sitemap(&mut self.inner, sitemap);
        self
    }

    /// Sets the proxies of the requests.
    pub fn with_proxies(&mut self, proxies: Option<Vec<String>>) -> (this: &Self)
        ensures
            *this == *final(self),
            final(self).reconfigured(
                *old(self),
                CrawlSettings { proxies: texts(proxies), ..old(self).settings() },
            ),
    {
        website_with_proxies(&mut self.inner, proxies);
        self
    }

    /// Builds the crawler; keeps it as it is when its url does not parse.
    /// Either way the crawler holds the same configuration and state.
    pub fn build(&mut self) -> (this: &Self)
        ensures
            *this == *final(self),
            final(self).reconfigured(*old(self), old(self).settings()),
    {
        match website_build(&self.inner) {
            Ok(w) => self.inner = w,
            Err(_) => {},
        }
        self
    }
}

} // verus!
