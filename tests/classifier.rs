use atom_shield::rules::{
    AD_NETWORKS, CNAME_CLOAKS, EXCEPTION_DOMAINS, EXCLUDED_FRAGMENTS, GENERIC_PATTERNS, MALWARE,
    POPUPS, SOCIAL_TRACKING, TRACKING, WHITELIST,
};
use atom_shield::classifier::{
    category_table, classify, classify_folded, matches_blocklist, matches_generic_ad_pattern,
    should_block, Category, Verdict,
};

#[test]
fn google_ad_host_is_left_to_the_page_shield() {
    assert_eq!(classify("https://pagead2.googlesyndication.com/pagead/ads"), Verdict::Allow);
    assert!(!should_block("https://pagead2.googlesyndication.com/pagead/ads"));
}

#[test]
fn taboola_is_blocked() {
    assert_eq!(classify("https://trc.taboola.com/x"), Verdict::Block);
    assert!(should_block("https://trc.taboola.com/x"));
}

#[test]
fn sign_in_host_is_whitelisted() {
    assert_eq!(classify("https://accounts.google.com/o/oauth2"), Verdict::Allow);
}

#[test]
fn analytics_collect_endpoint_is_blocked() {
    assert_eq!(classify("https://example.com/collect?v=1"), Verdict::Block);
}

#[test]
fn whitelist_wins_over_a_blocked_host_in_the_same_url() {
    assert_eq!(classify("https://fonts.gstatic.com/s/font.woff?ref=trc.taboola.com"), Verdict::Allow);
    assert_eq!(classify("https://accounts.google.com/collect?v=1&r=criteo.com"), Verdict::Allow);
}

#[test]
fn exception_host_wins_over_blocklist_and_patterns() {
    assert_eq!(classify("https://www.googletagmanager.com/gtag/js?id=1"), Verdict::Allow);
    assert_eq!(classify("https://stats.g.doubleclick.net/pixel.gif"), Verdict::Allow);
}

#[test]
fn blocklist_entry_overlapping_an_exception_host_never_blocks() {
    assert_eq!(classify("https://www-googletagmanager.l.google.com/x"), Verdict::Allow);
}

#[test]
fn every_category_blocks() {
    assert_eq!(classify("https://static.hotjar.com/c/hotjar.js"), Verdict::Block);
    assert_eq!(classify("https://analytics.tiktok.com/i18n/pixel"), Verdict::Block);
    assert_eq!(classify("https://coinhive.com/lib/miner.js"), Verdict::Block);
    assert_eq!(classify("https://popmyads.com/pop"), Verdict::Block);
    assert_eq!(classify("https://metrics.adobedc.net/b/ss"), Verdict::Block);
    assert_eq!(classify("https://c.amazon-adsystem.com/aax2/apstag.js"), Verdict::Block);
}

#[test]
fn matching_ignores_case() {
    assert_eq!(classify("HTTPS://TRC.TABOOLA.COM/X"), Verdict::Block);
    assert_eq!(classify("https://Example.com/Collect?V=1"), Verdict::Block);
    assert_eq!(classify("HTTPS://ACCOUNTS.GOOGLE.COM/?r=taboola.com"), Verdict::Allow);
}

#[test]
fn unmatched_and_empty_urls_are_allowed() {
    assert_eq!(classify(""), Verdict::Allow);
    assert_eq!(classify("not a url at all"), Verdict::Allow);
    assert_eq!(classify("https://example.com/index.html"), Verdict::Allow);
    assert!(!should_block(""));
}

#[test]
fn classifying_twice_gives_the_same_verdict() {
    for url in ["", "https://trc.taboola.com/x", "https://example.com/", "https://pagead2.googlesyndication.com/"] {
        assert_eq!(classify(url), classify(url));
    }
}

#[test]
fn folded_classification_does_not_fold_again() {
    assert_eq!(classify_folded("https://trc.taboola.com/x"), Verdict::Block);
    assert_eq!(classify_folded("HTTPS://TRC.TABOOLA.COM/X"), Verdict::Allow);
}

#[test]
fn generic_patterns() {
    assert!(matches_generic_ad_pattern("https://cdn.example.org/pixel.gif"));
    assert!(matches_generic_ad_pattern("https://news.example/sponsor/item"));
    assert!(matches_generic_ad_pattern("https://example.com/collect?v=1"));
    assert!(!matches_generic_ad_pattern("https://example.com/"));
    assert!(!matches_generic_ad_pattern(""));
}

#[test]
fn blocklist_tables() {
    assert!(matches_blocklist("https://trc.taboola.com/x"));
    assert!(!matches_blocklist("https://example.com/"));
    assert!(category_table(Category::AdNetwork).split(' ').any(|e| e == "taboola.com"));
    assert_eq!(category_table(Category::CnameCloak).split(' ').count(), 12);
    assert!(category_table(Category::Tracking).split(' ').all(|e| !e.is_empty()));
}

#[test]
fn facebook_pixel_script_is_blocked_in_any_case() {
    assert_eq!(classify("https://connect.facebook.net/en_US/fbevents.js"), Verdict::Block);
    assert_eq!(classify_folded("https://connect.facebook.net/en_us/fbevents.js"), Verdict::Block);
    assert!(should_block("https://connect.facebook.net/en_US/fbevents.js"));
}

#[test]
fn every_table_entry_is_lower_case() {
    for table in [
        WHITELIST, EXCEPTION_DOMAINS, EXCLUDED_FRAGMENTS, AD_NETWORKS, TRACKING, SOCIAL_TRACKING,
        MALWARE, POPUPS, CNAME_CLOAKS, GENERIC_PATTERNS,
    ] {
        for entry in table.split(' ') {
            assert!(!entry.is_empty());
            assert_eq!(entry, entry.to_lowercase());
        }
    }
}
