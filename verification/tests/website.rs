use spider_rs::conversions::{FieldValue, ObjectConvert, ObjectField};
use spider_rs::website::{cron_mode, openai_settings, CrawlKind, OpenAiEntry, Website};
use spider_rs::spider_calls::CronMode;

fn site() -> Website {
    Website::new("https://example.com".to_string(), None)
}

fn text_object(key: &str, value: &str) -> ObjectConvert {
    ObjectConvert::Obj(vec![ObjectField { key: key.to_string(), value: FieldValue::Text(value.to_string()) }])
}

#[test]
fn pushed_data_reads_back_as_json() {
    let mut w = site();
    w.push_data(text_object("a", "x")).unwrap();
    w.push_data(ObjectConvert::Obj(vec![ObjectField { key: "b".to_string(), value: FieldValue::Other }, ObjectField { key: "c".to_string(), value: FieldValue::Null }])).unwrap();
    let data = w.read_data();
    let items = data.as_array().unwrap();
    assert_eq!(items.len(), 2);
    assert_eq!(items[0]["a"], serde_json::Value::String("x".to_string()));
    // the unsupported field is left out with its comma: `{"c":null}`
    assert!(items[1].is_object());
    assert!(items[1]["c"].is_null());
    assert!(items[1].get("b").is_none());
}

#[test]
fn clear_data_drops_everything() {
    let mut w = site();
    w.push_data(text_object("a", "x")).unwrap();
    assert!(w.clear_data().is_ok());
    assert_eq!(w.read_data(), serde_json::Value::Array(vec![]));
}

#[test]
fn export_writes_items_one_per_line() {
    let mut w = site();
    w.push_data(text_object("a", "x")).unwrap();
    w.push_data(text_object("b", "y")).unwrap();
    let export = w.export_jsonl_data(Some("./out/data".to_string()));
    assert_eq!(export.directory, "./out");
    assert_eq!(export.file, "./out/data");
    assert_eq!(export.contents, b"{\"a\":\"x\"}\n{\"b\":\"y\"}".to_vec());
    let export = w.export_jsonl_data(Some("out/sub/data.jsonl".to_string()));
    assert_eq!(export.directory, "out/sub");
    assert_eq!(export.file, "out/sub/data.jsonl");
    let export = w.export_jsonl_data(Some("results".to_string()));
    assert_eq!(export.directory, "");
    assert_eq!(export.file, "results.jsonl");
}

#[test]
fn default_export_goes_to_storage() {
    let w = site();
    let export = w.export_jsonl_data(None);
    assert_eq!(export.directory, "./storage");
    assert_eq!(export.file, "./storage/example.comjsonl");
    assert!(export.contents.is_empty());
}

#[test]
fn subscriptions_get_increasing_ids() {
    let mut w = site();
    let (a, _ra) = w.subscribe(16);
    let (b, _rb) = w.subscribe(16);
    assert_eq!((a, b), (0, 1));
    assert!(w.unsubscribe(Some(0)));
    assert!(!w.unsubscribe(Some(0)));
    assert!(w.unsubscribe(None));
    assert!(!w.unsubscribe(None));
    let (c, _rc) = w.subscribe(16);
    assert_eq!(c, 0);
}

#[test]
fn background_crawl_is_registered_and_stopped() {
    let mut w = site();
    let plan = w.crawl(false, Some(true), None, 16);
    assert_eq!(plan.kind, CrawlKind::CrawlRaw);
    assert!(plan.detached.is_some());
    assert_eq!(plan.crawl_id, Some(0));
    assert!(plan.receiver.is_none());
    assert_eq!(plan.subscription_id, None);
    let stop = w.stop(None);
    assert_eq!(stop.shutdown_target, Some("https://example.com".to_string()));
    assert!(stop.stopped);
    let stop = w.stop(Some(0));
    assert_eq!(stop.shutdown_target, None);
    assert!(!stop.stopped);
}

#[test]
fn foreground_crawl_with_callback_registers_listener() {
    let mut w = site();
    let plan = w.crawl(true, None, Some(true), 16);
    assert_eq!(plan.kind, CrawlKind::Crawl);
    assert!(plan.detached.is_none());
    assert!(plan.receiver.is_some());
    assert_eq!(plan.subscription_id, Some(0));
    assert!(!plan.await_listener);
    assert!(w.unsubscribe(Some(0)));
}

#[test]
fn foreground_smart_crawl_awaits_listener() {
    let mut w = site();
    let plan = w.crawl_smart(true, Some(false), 16);
    assert_eq!(plan.kind, CrawlKind::CrawlSmart);
    assert!(plan.receiver.is_some());
    assert_eq!(plan.subscription_id, None);
    assert!(plan.await_listener);
    assert!(!w.unsubscribe(None));
}

#[test]
fn background_scrape_with_callback_registers_both() {
    let mut w = site();
    let plan = w.scrape(true, Some(true), Some(false), 16);
    assert_eq!(plan.kind, CrawlKind::ScrapeRaw);
    assert!(plan.detached.is_some());
    assert_eq!(plan.crawl_id, Some(0));
    assert_eq!(plan.subscription_id, Some(0));
    let plan = w.scrape(false, None, Some(true), 16);
    assert_eq!(plan.kind, CrawlKind::Scrape);
    assert!(plan.detached.is_none());
    assert_eq!(plan.crawl_id, None);
}

#[test]
fn cron_listener_only_with_callback() {
    let mut w = site();
    assert!(w.run_cron(false, 16).is_none());
    assert!(w.run_cron(true, 16).is_some());
}

#[test]
fn fresh_website_has_no_pages_or_links() {
    let mut w = Website::new("https://example.com".to_string(), Some(true));
    assert!(w.get_pages().is_empty());
    assert!(w.get_links().is_empty());
    assert!(w.drain_links().is_empty());
    assert_eq!(w.size(), 0);
    assert_eq!(w.status(), "Start");
    w.clear();
}

#[test]
fn builders_chain() {
    let mut w = site();
    let mut budget = std::collections::HashMap::new();
    budget.insert("*".to_string(), 20u32);
    w.with_headers(Some(vec![("authorization".to_string(), "jwt".to_string()), ("bad name".to_string(), "x".to_string())]));
    w.with_user_agent(Some("agent"));
    w.with_respect_robots_txt(true);
    w.with_chrome_intercept(true, true);
    w.with_subdomains(true);
    w.with_tld(true);
    w.with_http2_prior_knowledge(false);
    w.with_request_timeout(Some(1000));
    w.with_external_domains(Some(vec!["https://other.com".to_string()]));
    w.with_stealth(None);
    w.with_budget(Some(budget));
    w.with_redirect_limit(3);
    w.with_redirect_policy(true);
    w.with_blacklist_url(Some(vec!["/resume".to_string()]));
    w.with_cron("1/5 * * * * *".to_string(), Some("scrape".to_string()));
    w.with_openai(None);
    w.with_delay(10);
    w.with_depth(2);
    w.with_caching(false);
    w.with_sitemap(None);
    w.with_proxies(None);
    w.build();
    w.push_data(text_object("a", "x")).unwrap();
    assert_eq!(w.read_data().as_array().unwrap().len(), 1);
}

#[test]
fn openai_settings_take_last_value_per_key() {
    let entries = vec![
        OpenAiEntry { key: "model".to_string(), text: "gpt-a".to_string(), number: 0 },
        OpenAiEntry { key: "prompt".to_string(), text: "find".to_string(), number: 0 },
        OpenAiEntry { key: "model".to_string(), text: "gpt-b".to_string(), number: 0 },
        OpenAiEntry { key: "other".to_string(), text: "zzz".to_string(), number: 9 },
    ];
    let s = openai_settings(&entries);
    assert_eq!(s.model, "gpt-b");
    assert_eq!(s.prompt, "find");
    assert_eq!(s.max_tokens, 1);
    let s = openai_settings(&vec![OpenAiEntry { key: "maxTokens".to_string(), text: String::new(), number: 250 }]);
    assert_eq!((s.model.as_str(), s.prompt.as_str(), s.max_tokens), ("", "", 250));
}

#[test]
fn cron_type_scrape_only_for_exact_word() {
    assert_eq!(cron_mode(Some("scrape".to_string())), CronMode::Scrape);
    assert_eq!(cron_mode(Some("Scrape".to_string())), CronMode::Crawl);
    assert_eq!(cron_mode(Some("crawl".to_string())), CronMode::Crawl);
    assert_eq!(cron_mode(None), CronMode::Crawl);
}

#[test]
fn builders_set_the_crawler_configuration() {
    let mut w = site();
    w.with_depth(2);
    w.with_delay(10);
    w.with_tld(true);
    w.with_subdomains(true);
    w.with_respect_robots_txt(true);
    w.with_http2_prior_knowledge(true);
    w.with_redirect_limit(3);
    w.with_user_agent(Some("agent"));
    w.with_proxies(Some(vec!["http://proxy:8080".to_string()]));
    w.with_blacklist_url(Some(vec!["/resume".to_string()]));
    w.build();
    let config = &w.inner().configuration;
    assert_eq!(config.depth, 2);
    assert_eq!(config.delay, 10);
    assert!(config.tld);
    assert!(config.subdomains);
    assert!(config.respect_robots_txt);
    assert!(config.http2_prior_knowledge);
    assert_eq!(*config.redirect_limit, 3);
    assert_eq!(config.user_agent.as_ref().unwrap().as_str(), "agent");
    assert_eq!(config.proxies.as_ref().unwrap().len(), 1);
    assert_eq!(config.blacklist_url.as_ref().unwrap()[0].as_str(), "/resume");
    w.with_user_agent(None);
    assert!(w.inner().configuration.user_agent.is_none());
    assert_eq!(w.inner().get_url().inner().as_str(), "https://example.com");
}

#[test]
fn inner_mut_changes_reach_the_website() {
    let mut w = site();
    w.inner_mut().configuration.with_depth(7);
    assert_eq!(w.inner().configuration.depth, 7);
    w.clear();
    assert!(w.get_links().is_empty());
    assert_eq!(w.inner().configuration.depth, 7);
}

#[test]
fn new_website_normalises_its_url() {
    let w = Website::new(" example.com ".to_string(), None);
    assert_eq!(w.inner().get_url().inner().as_str(), "https://example.com");
    let w = Website::new("http://example.com".to_string(), None);
    assert_eq!(w.inner().get_url().inner().as_str(), "http://example.com");
    let mut w = site();
    assert_eq!(w.size(), 0);
}

#[test]
fn pushed_object_with_unsupported_field_reads_back() {
    let mut w = site();
    let obj = ObjectConvert::Obj(vec![
        ObjectField { key: "a".to_string(), value: FieldValue::Text("x".to_string()) },
        ObjectField { key: "b".to_string(), value: FieldValue::Other },
        ObjectField { key: "c".to_string(), value: FieldValue::Null },
    ]);
    assert!(w.push_data(obj).is_ok());
    let data = w.read_data();
    assert_eq!(data[0]["a"], "x");
    assert!(data[0]["c"].is_null());
}

#[test]
fn chrome_openai_and_sitemap_settings_are_kept() {
    let mut w = site();
    w.with_stealth(Some(true));
    w.with_chrome_intercept(true, false);
    w.with_sitemap(Some("/sitemap.xml"));
    w.with_openai(Some(vec![
        OpenAiEntry { key: "model".to_string(), text: "gpt-3.5-turbo".to_string(), number: 0 },
        OpenAiEntry { key: "prompt".to_string(), text: "Search for movies".to_string(), number: 0 },
        OpenAiEntry { key: "maxTokens".to_string(), text: String::new(), number: 300 },
    ]));
    let config = &w.inner().configuration;
    assert!(config.stealth_mode);
    assert!(config.chrome_intercept);
    assert!(!config.chrome_intercept_block_visuals);
    assert_eq!(config.sitemap_url.as_ref().unwrap().as_str(), "/sitemap.xml");
    let openai = config.openai_config.as_ref().unwrap();
    assert_eq!(openai.model, "gpt-3.5-turbo");
    assert_eq!(openai.max_tokens, 300);
    w.with_openai(None);
    assert!(w.inner().configuration.openai_config.is_none());
}

#[test]
fn summary_of_fresh_website_is_empty() {
    let w = site();
    let s = w.summary();
    assert!(s.links.is_empty());
    assert!(s.pages.is_empty());
}

#[test]
fn subscription_after_early_unsubscribe_gets_a_fresh_id() {
    let mut w = site();
    let (a, _ra) = w.subscribe(16);
    let (b, _rb) = w.subscribe(16);
    let (c, _rc) = w.subscribe(16);
    assert_eq!((a, b, c), (0, 1, 2));
    assert!(w.unsubscribe(Some(0)));
    let (d, _rd) = w.subscribe(16);
    assert_eq!(d, 3);
    let plan = w.crawl(false, Some(true), None, 16);
    assert_eq!(plan.crawl_id, Some(0));
}

#[test]
fn budget_paths_equal_up_to_case_are_kept_once() {
    let mut w = site();
    let mut budget = std::collections::HashMap::new();
    budget.insert("/A".to_string(), 1u32);
    budget.insert("/a".to_string(), 2u32);
    budget.insert("*".to_string(), 5u32);
    w.with_budget(Some(budget));
    let kept = w.inner().configuration.budget.as_ref().unwrap();
    assert_eq!(kept.len(), 2);
    let value = kept.iter().find(|(k, _)| k.inner().eq_ignore_ascii_case("/a")).unwrap().1;
    assert!(*value == 1 || *value == 2);
}
