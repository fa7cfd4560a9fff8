use emtg::catalog::{
    finish_printings, finish_search, image_request, printings_request, search_request, CatalogError,
    MALFORMED_PRINTINGS, REQUEST_TIMEOUT_SECS, SEARCH_ENDPOINT,
};
use emtg::models::{Card, ImageUris, ScryfallSearchResponse};
use emtg::pipeline::{count_scheduled, FetchEvent, FetchStep, FetchTask, MIN_SPACING_MS};
use emtg::search_view::{CardSearchView, SingleCardView, DEFAULT_QUERY};

fn uris(tag: &str) -> ImageUris {
    ImageUris {
        small: format!("https://img/{}/small.jpg", tag),
        normal: format!("https://img/{}/normal.jpg", tag),
        large: format!("https://img/{}/large.jpg", tag),
        png: format!("https://img/{}/card.png", tag),
        art_crop: format!("https://img/{}/art.jpg", tag),
        border_crop: format!("https://img/{}/border.jpg", tag),
    }
}

fn card(id: &str, with_image: bool) -> Card {
    Card {
        set: "lea".to_string(),
        name: "Serra Angel".to_string(),
        id: id.to_string(),
        image_uris: if with_image { Some(uris(id)) } else { None },
        prints_search_uri: "https://api.scryfall.com/cards/search?q=angel-prints".to_string(),
        type_line: Some("Creature — Angel".to_string()),
        oracle_text: Some("Flying, vigilance".to_string()),
        image_texture: None,
    }
}

fn response(cards: Vec<Card>) -> ScryfallSearchResponse {
    let n = cards.len() as u32;
    ScryfallSearchResponse { data: cards, total_cards: Some(n) }
}

fn ids(cards: &[Card]) -> Vec<String> {
    cards.iter().map(|c| c.id.clone()).collect()
}

/// Runs a task to its end with a clock that advances 30 ms per call,
/// failing the downloads whose position is listed; gives the events in
/// order, the download start times and completion times.
fn drive(task: &mut FetchTask, failing: &[usize]) -> (Vec<FetchEvent>, Vec<u64>, Vec<u64>) {
    let mut now: u64 = 0;
    let mut events = Vec::new();
    let mut starts = Vec::new();
    let mut completions = Vec::new();
    let mut download_no: usize = 0;
    for _ in 0..10_000 {
        match task.next_step(now, false) {
            FetchStep::Finished => return (events, starts, completions),
            FetchStep::Wait(ms) => {
                assert!(ms > 0 && ms <= MIN_SPACING_MS);
                now += ms;
            }
            FetchStep::Download(_) => {
                starts.push(now);
                now += 30;
                completions.push(now);
                if failing.contains(&download_no) {
                    events.push(task.record_failure(now));
                } else {
                    events.push(task.record_success(now));
                }
                download_no += 1;
            }
        }
    }
    panic!("task did not finish");
}

#[test]
fn search_request_appends_query_untransformed() {
    let r = search_request("angel");
    assert_eq!(r.url, format!("{}angel", SEARCH_ENDPOINT));
    assert_eq!(r.url, "https://api.scryfall.com/cards/search?&q=angel");
    assert_eq!(r.timeout_secs, 3);
    let r = search_request("t:angel c:w");
    assert_eq!(r.url, "https://api.scryfall.com/cards/search?&q=t:angel c:w");
}

#[test]
fn printings_and_image_requests_use_given_links() {
    let c = card("a1", true);
    let r = printings_request(&c);
    assert_eq!(r.url, c.prints_search_uri);
    assert_eq!(r.timeout_secs, REQUEST_TIMEOUT_SECS);
    let r = image_request("https://img/a1/normal.jpg");
    assert_eq!(r.url, "https://img/a1/normal.jpg");
}

#[test]
fn search_keeps_every_decoded_card() {
    let r = finish_search(Ok(Some(response(vec![card("a", true), card("b", false), card("c", true)]))));
    let d = r.ok().expect("a decoded body is a result");
    assert_eq!(ids(&d.data), vec!["a", "b", "c"]);
    assert_eq!(d.total_cards, Some(3));
}

#[test]
fn search_with_malformed_body_is_empty() {
    let d = finish_search(Ok(None)).ok().expect("a malformed body is no error");
    assert!(d.data.is_empty());
    assert_eq!(d.total_cards, None);
}

#[test]
fn search_transport_error_is_returned() {
    match finish_search(Err(CatalogError::Transport("timed out".to_string()))) {
        Err(CatalogError::Transport(m)) => assert_eq!(m, "timed out"),
        _ => panic!("expected the transport error"),
    }
}

#[test]
fn search_twice_gives_same_list() {
    let a = finish_search(Ok(Some(response(vec![card("x", true), card("y", true)])))).ok().unwrap();
    let b = finish_search(Ok(Some(response(vec![card("x", true), card("y", true)])))).ok().unwrap();
    assert_eq!(ids(&a.data), ids(&b.data));
    assert_eq!(search_request("angel").url, search_request("angel").url);
}

#[test]
fn printings_with_malformed_body_is_decode_error() {
    match finish_printings(Ok(None)) {
        Err(CatalogError::Decode(m)) => assert_eq!(m, MALFORMED_PRINTINGS),
        _ => panic!("expected a decode error"),
    }
    match finish_printings(Err(CatalogError::Transport("refused".to_string()))) {
        Err(CatalogError::Transport(m)) => assert_eq!(m, "refused"),
        _ => panic!("expected the transport error"),
    }
    let v = finish_printings(Ok(Some(response(vec![card("p1", true), card("p2", false)])))).ok().unwrap();
    assert_eq!(ids(&v), vec!["p1", "p2"]);
}

#[test]
fn error_messages() {
    assert_eq!(CatalogError::Transport("timed out".to_string()).message(), "network error: timed out");
    assert_eq!(CatalogError::Decode("bad".to_string()).message(), "decode error: bad");
}

#[test]
fn card_clone_keeps_every_field() {
    let mut c = card("z9", true);
    c.image_texture = Some(7);
    let d = c.clone();
    assert_eq!(d.id, "z9");
    assert_eq!(d.name, c.name);
    assert_eq!(d.type_line, c.type_line);
    assert_eq!(d.oracle_text, c.oracle_text);
    assert_eq!(d.image_texture, Some(7));
    assert_eq!(d.image_uris.unwrap().normal, "https://img/z9/normal.jpg");
    assert!(c.has_image_reference());
    assert!(!card("n", false).has_image_reference());
}

#[test]
fn default_response_is_empty() {
    let d = ScryfallSearchResponse::default();
    assert!(d.data.is_empty());
    assert!(d.total_cards.is_none());
}

#[test]
fn count_scheduled_skips_cards_without_images() {
    assert_eq!(count_scheduled(&vec![]), 0);
    assert_eq!(count_scheduled(&vec![card("a", true), card("b", false), card("c", true)]), 2);
}

#[test]
fn task_downloads_normal_tier_in_order() {
    let mut t = FetchTask::new(4, vec![card("a", false), card("b", true)]);
    assert_eq!(t.expected_count(), 1);
    match t.next_step(0, false) {
        FetchStep::Download(u) => assert_eq!(u, "https://img/b/normal.jpg"),
        _ => panic!("expected a download"),
    }
    assert!(t.is_in_flight());
    match t.record_success(10) {
        FetchEvent::Loaded(g, c) => {
            assert_eq!(g, 4);
            assert_eq!(c.id, "b");
        }
        _ => panic!("expected a loaded event"),
    }
    assert!(matches!(t.next_step(20, false), FetchStep::Finished));
}

#[test]
fn task_keeps_spacing_between_downloads() {
    let mut t = FetchTask::new(0, vec![card("a", true), card("b", true)]);
    assert!(matches!(t.next_step(0, false), FetchStep::Download(_)));
    t.record_success(50);
    match t.next_step(100, false) {
        FetchStep::Wait(ms) => assert_eq!(ms, 50),
        _ => panic!("expected a wait"),
    }
    match t.next_step(149, false) {
        FetchStep::Wait(ms) => assert_eq!(ms, 1),
        _ => panic!("expected a wait"),
    }
    assert!(matches!(t.next_step(150, false), FetchStep::Download(_)));
}

#[test]
fn completions_are_at_least_spacing_apart() {
    let ps: Vec<Card> = (0..6).map(|i| card(&format!("p{}", i), true)).collect();
    let mut t = FetchTask::new(1, ps);
    let (events, starts, completions) = drive(&mut t, &[]);
    assert_eq!(events.len(), 6);
    assert_eq!(starts.len(), 6);
    for w in completions.windows(2) {
        assert!(w[1] - w[0] >= MIN_SPACING_MS);
    }
}

#[test]
fn cancelled_task_finishes() {
    let mut t = FetchTask::new(0, vec![card("a", true)]);
    assert!(matches!(t.next_step(0, true), FetchStep::Finished));
}

#[test]
fn full_printing_set_is_displayed_in_order() {
    let ps: Vec<Card> = (0..5).map(|i| card(&format!("p{}", i), true)).collect();
    let mut view = CardSearchView::default();
    view.on_search_completed(Ok(response(vec![card("angel", true)])));
    let req = view.select_row(0).expect("row 0 exists");
    assert_eq!(req.url, "https://api.scryfall.com/cards/search?q=angel-prints");
    let g = view.generation();
    let mut task = view.on_printings_loaded(g, Ok(ps)).expect("current generation");
    assert_eq!(view.expected_count(), 5);
    assert!(view.is_loading());
    let (events, _, _) = drive(&mut task, &[]);
    for e in events {
        view.on_frame_tick(Some(e));
    }
    assert_eq!(ids(view.display()), vec!["p0", "p1", "p2", "p3", "p4"]);
    assert!(!view.is_loading());
    assert_eq!(view.progress(), (5, 5));
}

#[test]
fn progress_bounds() {
    let mut view = CardSearchView::default();
    assert_eq!(view.progress(), (1, 1));
    view.on_search_completed(Ok(response(vec![card("angel", true)])));
    view.select_row(0).unwrap();
    let g = view.generation();
    let mut task = view.on_printings_loaded(g, Ok(vec![card("a", true), card("b", true)])).unwrap();
    assert_eq!(view.progress(), (0, 2));
    let (events, _, _) = drive(&mut task, &[]);
    view.on_frame_tick(Some(events.into_iter().next().unwrap()));
    assert_eq!(view.progress(), (1, 2));
    view.on_frame_tick(Some(FetchEvent::Loaded(g, card("extra", true))));
    view.on_frame_tick(Some(FetchEvent::Loaded(g, card("extra2", true))));
    let (done, of) = view.progress();
    assert!(done <= of);
    assert_eq!((done, of), (2, 2));
}

#[test]
fn empty_printing_set_is_complete_at_once() {
    let mut view = CardSearchView::default();
    view.on_search_completed(Ok(response(vec![card("angel", true)])));
    view.select_row(0).unwrap();
    let g = view.generation();
    let task = view.on_printings_loaded(g, Ok(vec![])).unwrap();
    assert_eq!(task.expected_count(), 0);
    assert_eq!(view.expected_count(), 0);
    assert!(!view.is_loading());
    assert_eq!(view.progress(), (1, 1));
}

#[test]
fn angel_selection_with_two_images_of_three() {
    let mut view = CardSearchView::default();
    assert_eq!(view.query(), DEFAULT_QUERY);
    assert_eq!(view.search_request().url, "https://api.scryfall.com/cards/search?&q=angel");
    view.on_search_completed(Ok(response(vec![card("angel-1", true), card("angel-2", true)])));
    assert_eq!(view.results().len(), 2);
    let req = view.select_row(0).unwrap();
    assert_eq!(req.url, "https://api.scryfall.com/cards/search?q=angel-prints");
    assert_eq!(view.selected().as_deref(), Some("Serra Angel"));
    let g = view.generation();
    let printings = vec![card("v1", true), card("v2", false), card("v3", true)];
    let mut task = view.on_printings_loaded(g, Ok(printings)).unwrap();
    assert_eq!(view.expected_count(), 2);
    let (events, _, _) = drive(&mut task, &[]);
    assert_eq!(events.len(), 2);
    for e in events {
        view.on_frame_tick(Some(e));
    }
    view.on_frame_tick(None);
    assert_eq!(ids(view.display()), vec!["v1", "v3"]);
    assert_eq!(view.progress(), (2, 2));
    assert!(!view.is_loading());
}

#[test]
fn failed_download_does_not_stop_the_task() {
    let ps: Vec<Card> = (1..=5).map(|i| card(&format!("p{}", i), true)).collect();
    let mut view = CardSearchView::default();
    view.on_search_completed(Ok(response(vec![card("angel", true)])));
    view.select_row(0).unwrap();
    let g = view.generation();
    let mut task = view.on_printings_loaded(g, Ok(ps)).unwrap();
    let (events, _, _) = drive(&mut task, &[1]);
    assert_eq!(events.len(), 5);
    assert_eq!(task.failed_count(), 1);
    match &events[1] {
        FetchEvent::Failed(eg, id) => {
            assert_eq!(*eg, g);
            assert_eq!(id, "p2");
        }
        _ => panic!("expected the second download to fail"),
    }
    for e in events {
        view.on_frame_tick(Some(e));
    }
    assert_eq!(ids(view.display()), vec!["p1", "p3", "p4", "p5"]);
    assert_eq!(view.failed_fetches(), 1);
    assert_eq!(view.status().as_deref(), Some("image fetch failed: p2"));
    assert!(!view.is_loading());
    assert_eq!(view.progress(), (5, 5));
}

#[test]
fn events_of_an_older_selection_are_dropped() {
    let mut view = CardSearchView::default();
    view.on_search_completed(Ok(response(vec![card("a", true), card("b", true)])));
    view.select_row(0).unwrap();
    let old_g = view.generation();
    view.select_row(1).unwrap();
    assert!(!view.is_current(old_g));
    assert!(view.on_printings_loaded(old_g, Ok(vec![card("x", true)])).is_none());
    view.on_frame_tick(Some(FetchEvent::Loaded(old_g, card("x", true))));
    assert!(view.display().is_empty());
    let g = view.generation();
    assert!(view.is_current(g));
}

#[test]
fn search_error_sets_status_and_keeps_results() {
    let mut view = CardSearchView::default();
    view.on_search_completed(Ok(response(vec![card("a", true)])));
    view.on_search_completed(Err(CatalogError::Transport("timed out".to_string())));
    assert_eq!(view.results().len(), 1);
    assert_eq!(view.status().as_deref(), Some("network error: timed out"));
}

#[test]
fn printings_error_ends_loading() {
    let mut view = CardSearchView::default();
    view.on_search_completed(Ok(response(vec![card("a", true)])));
    view.select_row(0).unwrap();
    let g = view.generation();
    assert!(view.on_printings_loaded(g, Err(CatalogError::Decode("bad".to_string()))).is_none());
    assert!(!view.is_loading());
    assert_eq!(view.status().as_deref(), Some("decode error: bad"));
}

#[test]
fn out_of_range_selections_change_nothing() {
    let mut view = CardSearchView::default();
    assert!(view.select_row(0).is_none());
    view.select_display_card(3);
    assert!(!view.single_card_view().is_loaded());
}

#[test]
fn gallery_card_opens_in_detail_pane() {
    let mut view = CardSearchView::default();
    view.on_search_completed(Ok(response(vec![card("a", true)])));
    view.select_row(0).unwrap();
    let g = view.generation();
    view.on_printings_loaded(g, Ok(vec![card("v1", true)])).unwrap();
    view.on_frame_tick(Some(FetchEvent::Loaded(g, card("v1", true))));
    view.select_display_card(0);
    assert!(view.single_card_view().is_loaded());
    assert_eq!(view.single_card_view().card().as_ref().unwrap().id, "v1");
    view.set_query("goblin".to_string());
    assert_eq!(view.query(), "goblin");
    view.on_search_completed(Ok(response(vec![])));
    assert!(!view.single_card_view().is_loaded());
    assert!(view.display().is_empty());
}

#[test]
fn single_card_view_load_and_clear() {
    let mut s = SingleCardView::default();
    assert!(!s.is_loaded());
    s.load(card("q", true));
    assert!(s.is_loaded());
    s.clear();
    assert!(!s.is_loaded());
}
