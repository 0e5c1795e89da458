use protonup_core::release::{merge_pages, pick_latest, release_is_older, str_lex_lt, Release};

fn rel(tag: &str, at: u64) -> Release {
    Release {
        tag_name: tag.to_string(),
        asset_url: format!("https://example.invalid/{}.tar.gz", tag),
        published_at: at,
    }
}

#[test]
fn empty_list_has_no_latest() {
    assert_eq!(pick_latest(&vec![]), None);
}

#[test]
fn latest_is_newest_publish_time() {
    let rs = vec![
        rel("GE-Proton9-1", 300),
        rel("GE-Proton8-25", 200),
        rel("GE-Proton8-24", 100),
    ];
    assert_eq!(pick_latest(&rs), Some(0));
    let shuffled = vec![
        rel("GE-Proton8-24", 100),
        rel("GE-Proton9-1", 300),
        rel("GE-Proton8-25", 200),
    ];
    assert_eq!(pick_latest(&shuffled), Some(1));
}

#[test]
fn equal_timestamps_tie_break_lexicographically() {
    let rs = vec![rel("GE-Proton9-1", 100), rel("GE-Proton9-2", 100)];
    assert_eq!(pick_latest(&rs), Some(1));
}

#[test]
fn equal_releases_pick_the_first() {
    let rs = vec![
        rel("GE-Proton9-1", 100),
        rel("GE-Proton9-1", 100),
        rel("GE-Proton9-1", 100),
    ];
    assert_eq!(pick_latest(&rs), Some(0));
}

#[test]
fn release_order_prefers_publish_time_over_tag() {
    let older = rel("zzz", 100);
    let newer = rel("aaa", 200);
    assert!(release_is_older(&older, &newer));
    assert!(!release_is_older(&newer, &older));
}

#[test]
fn pagination_is_transparent() {
    let pages = vec![
        vec![rel("GE-Proton9-2", 400), rel("GE-Proton9-1", 300)],
        vec![rel("GE-Proton8-25", 200)],
        vec![],
        vec![rel("GE-Proton8-24", 100)],
    ];
    let all = merge_pages(pages);
    assert_eq!(all.len(), 4);
    assert_eq!(all[0].tag_name, "GE-Proton9-2");
    assert_eq!(all[3].tag_name, "GE-Proton8-24");
    // The latest release is judged over the whole joined list, not just
    // one page.
    assert_eq!(pick_latest(&all), Some(0));
}

#[test]
fn lexicographic_comparison() {
    assert!(str_lex_lt("GE-Proton8", "GE-Proton9"));
    assert!(!str_lex_lt("GE-Proton9", "GE-Proton8"));
    assert!(str_lex_lt("", "a"));
    assert!(!str_lex_lt("a", ""));
    assert!(str_lex_lt("abc", "abcd"));
    assert!(!str_lex_lt("abc", "abc"));
    assert!(str_lex_lt("abc", "abd"));
}
