use llm_manager::downloads::DiscoveredModel;
use llm_manager::keys::{Key, KeyCode};
use llm_manager::search::{sort_hits, SearchEffect, SearchHit, SearchResults, SearchSort};

fn hit(id: &str, downloads: u64, likes: u64, trending: u64, created: Option<&str>) -> SearchHit {
    SearchHit {
        model_id: id.to_string(),
        downloads,
        likes,
        trending_score: trending,
        created_at: created.map(|s| s.to_string()),
        downloaded: false,
    }
}

fn sample() -> Vec<SearchHit> {
    vec![
        hit("a/one", 10, 5, 1, Some("2024-03-01T00:00:00Z")),
        hit("b/two", 30, 5, 7, None),
        hit("c/three", 20, 9, 7, Some("2025-01-15T00:00:00Z")),
        hit("d/four", 30, 1, 0, Some("2023-12-31T00:00:00Z")),
    ]
}

fn ids(hits: &[SearchHit]) -> Vec<&str> {
    hits.iter().map(|h| h.model_id.as_str()).collect()
}

fn results(n: usize) -> SearchResults {
    let mut r = SearchResults::start();
    r.hits = sample().into_iter().take(n).collect();
    r.selected = if n > 0 { Some(0) } else { None };
    r
}

#[test]
fn sort_by_downloads_keeps_ties_in_order() {
    let sorted = sort_hits(&sample(), SearchSort::Downloads);
    assert_eq!(ids(&sorted), vec!["b/two", "d/four", "c/three", "a/one"]);
}

#[test]
fn sort_by_likes_and_trending() {
    assert_eq!(ids(&sort_hits(&sample(), SearchSort::Likes)), vec!["c/three", "a/one", "b/two", "d/four"]);
    assert_eq!(ids(&sort_hits(&sample(), SearchSort::Trending)), vec!["b/two", "c/three", "a/one", "d/four"]);
}

#[test]
fn sort_by_creation_puts_newest_first_and_unknown_last() {
    let sorted = sort_hits(&sample(), SearchSort::CreatedAt);
    assert_eq!(ids(&sorted), vec!["c/three", "a/one", "d/four", "b/two"]);
}

#[test]
fn relevance_keeps_the_order() {
    assert_eq!(ids(&sort_hits(&sample(), SearchSort::Relevance)), vec!["a/one", "b/two", "c/three", "d/four"]);
}

#[test]
fn sort_order_cycles() {
    let mut s = SearchSort::Relevance;
    let mut seen = vec![];
    for _ in 0..5 {
        s = s.next();
        seen.push(s);
    }
    assert_eq!(
        seen,
        vec![SearchSort::Downloads, SearchSort::Likes, SearchSort::Trending, SearchSort::CreatedAt, SearchSort::Relevance]
    );
}

#[test]
fn ctrl_s_resorts_and_selects_first() {
    let mut r = results(4);
    r.selected = Some(3);
    let mut vis = 0u8;
    let e = r.handle_search_key(Key::with_ctrl(KeyCode::Char('s')), true, &mut vis);
    assert_eq!(e, SearchEffect::Nothing);
    assert_eq!(r.sort_by, SearchSort::Downloads);
    assert_eq!(ids(&r.hits), vec!["b/two", "d/four", "c/three", "a/one"]);
    assert_eq!(r.selected, Some(0));
    assert_eq!(vis, 0);
}

#[test]
fn escape_goes_back_and_shows_side_panels() {
    let mut r = results(2);
    let mut vis = 0b0000_0011u8;
    assert_eq!(r.handle_search_key(Key::plain(KeyCode::Esc), true, &mut vis), SearchEffect::BackToList);
    assert_eq!(vis, 0b0011_0011);
}

#[test]
fn down_moves_then_asks_for_next_page_at_end() {
    let mut r = results(2);
    r.page = 2;
    let mut vis = 0u8;
    assert_eq!(r.handle_search_key(Key::plain(KeyCode::Down), true, &mut vis), SearchEffect::Nothing);
    assert_eq!(r.selected, Some(1));
    assert_eq!(r.handle_search_key(Key::plain(KeyCode::Char('j')), true, &mut vis), SearchEffect::LoadPage { offset: 150 });
    assert_eq!(r.selected, Some(1));
    r.has_more = false;
    assert_eq!(r.handle_search_key(Key::plain(KeyCode::Down), true, &mut vis), SearchEffect::Nothing);
    assert_eq!(r.selected, Some(1));
}

#[test]
fn down_at_end_while_loading_stays() {
    let mut r = results(3);
    r.selected = Some(2);
    r.loading = true;
    let mut vis = 0u8;
    assert_eq!(r.handle_search_key(Key::plain(KeyCode::Down), true, &mut vis), SearchEffect::Nothing);
    assert_eq!(r.selected, Some(2));
}

#[test]
fn up_moves_back_and_stops_at_top() {
    let mut r = results(3);
    r.selected = Some(1);
    let mut vis = 0u8;
    r.handle_search_key(Key::plain(KeyCode::Up), true, &mut vis);
    assert_eq!(r.selected, Some(0));
    r.handle_search_key(Key::plain(KeyCode::Char('k')), true, &mut vis);
    assert_eq!(r.selected, Some(0));
    r.selected = None;
    r.handle_search_key(Key::plain(KeyCode::Up), true, &mut vis);
    assert_eq!(r.selected, Some(0));
}

#[test]
fn ctrl_b_goes_back_a_page() {
    let mut r = results(1);
    r.page = 3;
    let mut vis = 0u8;
    let back = Key::with_ctrl(KeyCode::Char('B'));
    assert_eq!(r.handle_search_key(back, true, &mut vis), SearchEffect::LoadPage { offset: 100 });
    assert_eq!(r.page, 2);
    r.page = 0;
    assert_eq!(r.handle_search_key(back, true, &mut vis), SearchEffect::Nothing);
    assert_eq!(r.page, 0);
}

#[test]
fn enter_opens_files_of_selected_result() {
    let mut r = results(3);
    r.selected = Some(2);
    let mut vis = 0u8;
    assert_eq!(r.handle_search_key(Key::plain(KeyCode::Enter), true, &mut vis), SearchEffect::OpenFiles(2));
    assert_eq!(r.handle_search_key(Key::with_ctrl(KeyCode::Char('f')), true, &mut vis), SearchEffect::OpenFiles(2));
    r.selected = Some(7);
    assert_eq!(r.handle_search_key(Key::plain(KeyCode::Enter), true, &mut vis), SearchEffect::Nothing);
}

#[test]
fn readme_keys_and_other_keys() {
    let mut r = results(2);
    let mut vis = 0u8;
    assert_eq!(r.handle_search_key(Key::plain(KeyCode::Right), true, &mut vis), SearchEffect::ShowReadme(Some(0)));
    assert_eq!(r.handle_search_key(Key::with_ctrl(KeyCode::Char('R')), true, &mut vis), SearchEffect::ShowReadme(Some(0)));
    assert_eq!(r.handle_search_key(Key::plain(KeyCode::Char('x')), true, &mut vis), SearchEffect::FetchReadme(0));
    assert_eq!(r.handle_search_key(Key::plain(KeyCode::Char('x')), false, &mut vis), SearchEffect::Nothing);
    assert_eq!(r.handle_search_key(Key::plain(KeyCode::Char('f')), true, &mut vis), SearchEffect::FetchReadme(0));
}

fn local(name: &str) -> DiscoveredModel {
    DiscoveredModel {
        path: format!("/models/{}", name),
        name: name.to_string(),
        file_size: 1,
        display_name: name.to_string(),
        pipeline_tag: None,
        capabilities: vec![],
    }
}

#[test]
fn first_page_replaces_and_marks_downloaded() {
    let mut r = results(2);
    r.loading = true;
    let models = vec![local("Qwen3-8B-Q4_K_M.gguf")];
    let page = vec![hit("unsloth/Qwen3-8B-GGUF", 1, 1, 1, None), hit("x/other", 1, 1, 1, None)];
    r.receive_page(page, 2, 0, 50, &models);
    assert_eq!(ids(&r.hits), vec!["unsloth/Qwen3-8B-GGUF", "x/other"]);
    assert!(r.hits[0].downloaded);
    assert!(!r.hits[1].downloaded);
    assert_eq!(r.selected, Some(0));
    assert!(!r.has_more);
    assert!(!r.loading);
}

#[test]
fn later_page_appends() {
    let mut r = results(2);
    r.selected = Some(1);
    r.loading = true;
    let page: Vec<SearchHit> = (0..50).map(|i| hit(&format!("z/m{}", i), 0, 0, 0, None)).collect();
    r.receive_page(page, 50, 50, 50, &[]);
    assert_eq!(r.hits.len(), 52);
    assert_eq!(r.selected, Some(1));
    assert!(r.has_more);
    r.receive_page(vec![hit("z/last", 0, 0, 0, None)], 1, 100, 50, &[]);
    assert_eq!(r.hits.len(), 53);
    assert!(!r.has_more);
}

#[test]
fn empty_first_page_clears_selection() {
    let mut r = results(2);
    r.receive_page(vec![], 0, 0, 50, &[]);
    assert!(r.hits.is_empty());
    assert_eq!(r.selected, None);
    r.loading = true;
    r.search_failed();
    assert!(!r.loading);
}
