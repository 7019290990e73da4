use atom_shield::ids::tab_label_of;
use atom_shield::tabs::{
    recorded_url, start_page, tab_bounds, Bounds, StartPage, TabError, TabManager, WindowGeometry,
    CHROME_HEIGHT,
};

fn open(m: &mut TabManager, url: &str) -> String {
    let t = m.begin_create().expect("ids left");
    m.commit_create(t.num, url.to_string());
    t.id
}

fn ids(m: &TabManager) -> Vec<String> {
    m.layout(800, 600).into_iter().map(|p| p.id).collect()
}

#[test]
fn new_manager_is_empty() {
    let m = TabManager::new();
    assert_eq!(m.get_active_tab(), None);
    assert!(!m.is_fullscreen());
    assert!(m.layout(100, 100).is_empty());
}

#[test]
fn new_id_counts_up() {
    let mut m = TabManager::new();
    assert_eq!(m.new_id(), "tab-1");
    assert_eq!(m.new_id(), "tab-2");
    assert_eq!(tab_label_of(10), "tab-10");
    assert_eq!(tab_label_of(4294967295), "tab-4294967295");
    assert_eq!(tab_label_of(0), "tab-0");
}

#[test]
fn ids_grow_and_are_never_reused() {
    let mut m = TabManager::new();
    let a = open(&mut m, "https://a.example/");
    let b = open(&mut m, "https://b.example/");
    let c = open(&mut m, "https://c.example/");
    assert_eq!((a.as_str(), b.as_str(), c.as_str()), ("tab-1", "tab-2", "tab-3"));
    assert_eq!(m.close_tab(&b), Ok(None));
    let d = m.begin_create().unwrap();
    assert_eq!(d.num, 4);
    assert_eq!(d.id, "tab-4");
    assert_eq!(d.previous, Some("tab-3".to_string()));
    m.commit_create(d.num, String::new());
    assert_eq!(ids(&m), vec!["tab-1", "tab-3", "tab-4"]);
    assert_eq!(m.get_active_tab(), Some("tab-4".to_string()));
}

#[test]
fn closing_the_active_tab_activates_the_newest_remaining() {
    let mut m = TabManager::new();
    open(&mut m, "a");
    open(&mut m, "b");
    open(&mut m, "c");
    m.switch_tab("tab-2").unwrap();
    assert_eq!(m.close_tab("tab-2"), Ok(Some("tab-3".to_string())));
    assert_eq!(m.get_active_tab(), Some("tab-3".to_string()));
    assert_eq!(ids(&m), vec!["tab-1", "tab-3"]);
    assert_eq!(m.close_tab("tab-3"), Ok(Some("tab-1".to_string())));
    assert_eq!(m.close_tab("tab-1"), Ok(None));
    assert_eq!(m.get_active_tab(), None);
}

#[test]
fn closing_an_inactive_tab_keeps_the_active_one() {
    let mut m = TabManager::new();
    open(&mut m, "a");
    open(&mut m, "b");
    assert_eq!(m.close_tab("tab-1"), Ok(None));
    assert_eq!(m.get_active_tab(), Some("tab-2".to_string()));
}

#[test]
fn unknown_tabs_are_not_found() {
    let mut m = TabManager::new();
    open(&mut m, "a");
    assert_eq!(m.close_tab("tab-9"), Err(TabError::NotFound));
    assert_eq!(m.switch_tab("tab-01"), Err(TabError::NotFound));
    assert_eq!(m.switch_tab(""), Err(TabError::NotFound));
    assert_eq!(m.get_active_tab(), Some("tab-1".to_string()));
    assert_eq!(TabError::NotFound.message(), "Tab not found");
    assert_eq!(TabError::NoMainWindow.message(), "No main window");
    assert_eq!(TabError::IdsExhausted.message(), "No tab ids left");
}

#[test]
fn switching_reports_the_tab_to_hide() {
    let mut m = TabManager::new();
    open(&mut m, "a");
    open(&mut m, "b");
    assert_eq!(m.switch_tab("tab-1"), Ok(Some("tab-2".to_string())));
    assert_eq!(m.get_active_tab(), Some("tab-1".to_string()));
    assert_eq!(m.switch_tab("tab-1"), Ok(Some("tab-1".to_string())));
}

#[test]
fn commits_out_of_order_keep_creation_order() {
    let mut m = TabManager::new();
    let first = m.begin_create().unwrap();
    let second = m.begin_create().unwrap();
    m.commit_create(second.num, "b".to_string());
    m.commit_create(first.num, "a".to_string());
    assert_eq!(ids(&m), vec!["tab-1", "tab-2"]);
    assert_eq!(m.get_active_tab(), Some("tab-1".to_string()));
    m.commit_create(first.num, "a2".to_string());
    assert_eq!(ids(&m), vec!["tab-1", "tab-2"]);
}

#[test]
fn fullscreen_round_trip_restores_the_geometry() {
    let mut m = TabManager::new();
    let g = WindowGeometry { x: -8, y: 30, width: 1280, height: 720 };
    m.enter_fullscreen(Some(g));
    assert!(m.is_fullscreen());
    assert_eq!(m.leave_fullscreen(), Some(g));
    assert!(!m.is_fullscreen());
    assert_eq!(m.leave_fullscreen(), None);
}

#[test]
fn unreadable_geometry_keeps_the_saved_one() {
    let mut m = TabManager::new();
    m.enter_fullscreen(None);
    assert_eq!(m.leave_fullscreen(), None);
    let g = WindowGeometry { x: 0, y: 0, width: 10, height: 20 };
    m.enter_fullscreen(Some(g));
    m.enter_fullscreen(None);
    assert_eq!(m.leave_fullscreen(), Some(g));
}

#[test]
fn pages_sit_below_the_chrome_and_never_go_negative() {
    assert_eq!(CHROME_HEIGHT, 72);
    assert_eq!(tab_bounds(1000, 800, false), Bounds { x: 0, y: 72, width: 1000, height: 728 });
    assert_eq!(tab_bounds(1000, 800, true), Bounds { x: 0, y: 0, width: 1000, height: 800 });
    assert_eq!(tab_bounds(300, 50, false), Bounds { x: 0, y: 72, width: 300, height: 0 });
    assert_eq!(tab_bounds(300, 72, false).height, 0);
}

#[test]
fn layout_covers_every_tab() {
    let mut m = TabManager::new();
    open(&mut m, "a");
    open(&mut m, "b");
    m.enter_fullscreen(None);
    let placed = m.layout(1920, 1080);
    assert_eq!(placed.len(), 2);
    assert_eq!(placed[1].id, "tab-2");
    assert_eq!(placed[0].bounds, Bounds { x: 0, y: 0, width: 1920, height: 1080 });
}

#[test]
fn start_page_and_recorded_url() {
    match start_page(&Some("https://x.example/".to_string())) {
        StartPage::External(u) => assert_eq!(u, "https://x.example/"),
        StartPage::Home => panic!("expected the given URL"),
    }
    assert!(matches!(start_page(&Some(String::new())), StartPage::Home));
    assert!(matches!(start_page(&None), StartPage::Home));
    assert_eq!(recorded_url(&None), "atom://home");
    assert_eq!(recorded_url(&Some(String::new())), "");
    assert_eq!(recorded_url(&Some("u".to_string())), "u");
}
