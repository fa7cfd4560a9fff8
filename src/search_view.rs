//! Presentation state of the card search: the query, the result list, the
//! selected row, the gallery of fetched printings and the loading progress.
//!
//! Every change comes through one of the transitions below, called from the
//! render loop; the fetch task only reaches this state through the events it
//! emits. Each selection opens a new generation: events of an older one are
//! ignored, and a task whose generation is no longer current is cancelled.
use vstd::prelude::*;
use crate::catalog::{CatalogError, Request, printings_request, search_request, search_url};
use crate::models::{Card, ScryfallSearchResponse};
use crate::pipeline::{FetchEvent, FetchTask, scheduled_count};

verus! {

/// The query a fresh view starts with.
pub const DEFAULT_QUERY: &'static str = "angel";

/// The generation that follows `g`.
pub open spec fn next_generation(g: u64) -> u64 {
    if g < u64::MAX {
        (g + 1) as u64
    } else {
        0
    }
}

/// The detail pane: one card shown on its own, or none.
pub struct SingleCardView {
    card: Option<Card>,
}

impl SingleCardView {
    pub closed spec fn spec_card(&self) -> Option<Card> {
        self.card
    }

    /// Whether a card is shown.
    pub fn is_loaded(&self) -> (r: bool)
        ensures
            r == self.spec_card() is Some,
    {
        self.card.is_some()
    }

    /// Shows `card`.
    pub fn load(&mut self, card: Card)
        ensures
            final(self).spec_card() == Some(card),
    {
        self.card = Some(card);
    }

    /// Shows nothing.
    pub fn clear(&mut self)
        ensures
            final(self).spec_card() is None,
    {
        self.card = None;
    }

    /// The card shown, if any.
    pub fn card(&self) -> (r: &Option<Card>)
        ensures
            *r == self.spec_card(),
    {
        &self.card
    }
}

impl Default for SingleCardView {
    fn default() -> (r: Self)
        ensures
            r.spec_card() is None,
    {
        SingleCardView { card: None }
    }
}

/// The search panel's state: query, results, selection, gallery, loading
/// flag and counts of the current fetch, its generation and a status line.
pub struct CardSearchView {
    card_search_spot: String,
    single_card_view: SingleCardView,
    selected_card_in_table: Option<String>,
    are_cards_loading: bool,
    card_search_result: Vec<Card>,
    cards_in_display: usize,
    card_display: Vec<Card>,
    failed_fetches: usize,
    generation: u64,
    status: Option<String>,
}

/// Progress of a fetch as a fraction: the printings settled (shown or
/// failed) out of those scheduled, capped at one; complete when nothing
/// was scheduled.
pub open spec fn progress_of(settled: nat, expected: nat) -> (nat, nat) {
    if expected == 0 {
        (1, 1)
    } else if settled >= expected {
        (expected, expected)
    } else {
        (settled, expected)
    }
}

impl CardSearchView {
    pub closed spec fn spec_query(&self) -> Seq<char> {
        self.card_search_spot@
    }

    pub closed spec fn spec_single(&self) -> Option<Card> {
        self.single_card_view.spec_card()
    }

    pub closed spec fn spec_selected(&self) -> Option<String> {
        self.selected_card_in_table
    }

    pub closed spec fn spec_loading(&self) -> bool {
        self.are_cards_loading
    }

    pub closed spec fn spec_results(&self) -> Seq<Card> {
        self.card_search_result@
    }

    /// The number of printings the current fetch schedules.
    pub closed spec fn spec_expected(&self) -> nat {
        self.cards_in_display as nat
    }

    pub closed spec fn spec_display(&self) -> Seq<Card> {
        self.card_display@
    }

    pub closed spec fn spec_failed(&self) -> nat {
        self.failed_fetches as nat
    }

    pub closed spec fn spec_generation(&self) -> u64 {
        self.generation
    }

    pub closed spec fn spec_status(&self) -> Option<Seq<char>> {
        match self.status {
            Some(s) => Some(s@),
            None => None,
        }
    }

    /// Printings of the current fetch that are shown or failed.
    pub open spec fn spec_settled(&self) -> nat {
        self.spec_display().len() + self.spec_failed()
    }

    /// The query text.
    pub fn query(&self) -> (r: &String)
        ensures
            r@ == self.spec_query(),
    {
        &self.card_search_spot
    }

    /// Replaces the query text; nothing else changes.
    pub fn set_query(&mut self, text: String)
        ensures
            final(self).spec_query() == text@,
            final(self).spec_results() == old(self).spec_results(),
            final(self).spec_display() == old(self).spec_display(),
            final(self).spec_selected() == old(self).spec_selected(),
            final(self).spec_loading() == old(self).spec_loading(),
            final(self).spec_generation() == old(self).spec_generation(),
    {
        self.card_search_spot = text;
    }

    /// The request of a search for the current query.
    pub fn search_request(&self) -> (r: Request)
        ensures
            r.url@ == search_url(self.spec_query()),
    {
        search_request(self.card_search_spot.as_str())
    }

    fn advance_generation(&mut self)
        ensures
            final(self).generation == next_generation(old(self).generation),
            final(self).card_search_spot == old(self).card_search_spot,
            final(self).single_card_view == old(self).single_card_view,
            final(self).selected_card_in_table == old(self).selected_card_in_table,
            final(self).are_cards_loading == old(self).are_cards_loading,
            final(self).card_search_result == old(self).card_search_result,
            final(self).cards_in_display == old(self).cards_in_display,
            final(self).card_display == old(self).card_display,
            final(self).failed_fetches == old(self).failed_fetches,
            final(self).status == old(self).status,
    {
        if self.generation < u64::MAX {
            self.generation = self.generation + 1;
        } else {
            self.generation = 0;
        }
    }

    /// Takes in the outcome of a search. A result list replaces the old one
    /// and clears the selection, the gallery and the detail pane, and
    /// detaches any fetch still running. An error only sets the status line.
    pub fn on_search_completed(&mut self, result: Result<ScryfallSearchResponse, CatalogError>)
        ensures
            final(self).spec_query() == old(self).spec_query(),
            match result {
                Ok(d) => {
                    &&& final(self).spec_results() == d.data@
                    &&& final(self).spec_selected() is None
                    &&& final(self).spec_display().len() == 0
                    &&& final(self).spec_single() is None
                    &&& !final(self).spec_loading()
                    &&& final(self).spec_expected() == 0
                    &&& final(self).spec_failed() == 0
                    &&& final(self).spec_status() is None
                    &&& final(self).spec_generation() == next_generation(old(self).spec_generation())
                },
                Err(e) => {
                    &&& final(self).spec_results() == old(self).spec_results()
                    &&& final(self).spec_selected() == old(self).spec_selected()
                    &&& final(self).spec_display() == old(self).spec_display()
                    &&& final(self).spec_single() == old(self).spec_single()
                    &&& final(self).spec_loading() == old(self).spec_loading()
                    &&& final(self).spec_expected() == old(self).spec_expected()
                    &&& final(self).spec_failed() == old(self).spec_failed()
                    &&& final(self).spec_generation() == old(self).spec_generation()
                    &&& final(self).spec_status() matches Some(m) && m == match e {
                        CatalogError::Transport(t) => "network error: "@ + t@,
                        CatalogError::Decode(t) => "decode error: "@ + t@,
                    }
                },
            },
    {
        match result {
            Ok(d) => {
                self.card_search_result = d.data;
                self.selected_card_in_table = None;
                self.card_display = Vec::new();
                self.single_card_view.clear();
                self.are_cards_loading = false;
                self.cards_in_display = 0;
                self.failed_fetches = 0;
                self.status = None;
                self.advance_generation();
            },
            Err(e) => {
                self.status = Some(e.message());
            },
        }
    }

    /// Selects row `index` of the result list: the gallery, the failure
    /// count and the detail pane are cleared, loading starts, and a new
    /// generation detaches any fetch still running. Gives the request that
    /// looks up the card's printings; a row out of range changes nothing.
    pub fn select_row(&mut self, index: usize) -> (r: Option<Request>)
        ensures
            index >= old(self).spec_results().len() ==> r is None && *final(self) == *old(self),
            index < old(self).spec_results().len() ==> {
                let card = old(self).spec_results()[index as int];
                &&& r matches Some(req) && req.url == card.prints_search_uri
                &&& final(self).spec_selected() == Some(card.name)
                &&& final(self).spec_results() == old(self).spec_results()
                &&& final(self).spec_query() == old(self).spec_query()
                &&& final(self).spec_display().len() == 0
                &&& final(self).spec_single() is None
                &&& final(self).spec_loading()
                &&& final(self).spec_expected() == 0
                &&& final(self).spec_failed() == 0
                &&& final(self).spec_status() is None
                &&& final(self).spec_generation() == next_generation(old(self).spec_generation())
            },
    {
        if index >= self.card_search_result.len() {
            return None;
        }
        let req = printings_request(&self.card_search_result[index]);
        self.selected_card_in_table = Some(self.card_search_result[index].name.clone());
        self.card_display = Vec::new();
        self.single_card_view.clear();
        self.are_cards_loading = true;
        self.cards_in_display = 0;
        self.failed_fetches = 0;
        self.status = None;
        self.advance_generation();
        Some(req)
    }

    /// Takes in the printings lookup of generation `generation`. For the
    /// current generation: an error ends loading and sets the status line;
    /// a printing set gives the fetch task, and the number of printings it
    /// schedules becomes the expected count (loading ends at once when that
    /// is zero). An older generation's lookup changes nothing.
    pub fn on_printings_loaded(&mut self, generation: u64, result: Result<Vec<Card>, CatalogError>) -> (r:
        Option<FetchTask>)
        ensures
            final(self).spec_query() == old(self).spec_query(),
            final(self).spec_results() == old(self).spec_results(),
            final(self).spec_selected() == old(self).spec_selected(),
            final(self).spec_display() == old(self).spec_display(),
            final(self).spec_single() == old(self).spec_single(),
            final(self).spec_failed() == old(self).spec_failed(),
            final(self).spec_generation() == old(self).spec_generation(),
            generation != old(self).spec_generation() ==> r is None && *final(self) == *old(self),
            generation == old(self).spec_generation() ==> match result {
                Ok(ps) => {
                    &&& r matches Some(t) && t.wf() && t.spec_generation() == generation
                        && t.spec_printings() == ps@ && t.spec_next() == 0 && !t.spec_in_flight()
                        && t.spec_last_completed() is None && t.spec_failed() == 0
                    &&& final(self).spec_expected() == scheduled_count(ps@)
                    &&& final(self).spec_loading() == (scheduled_count(ps@) > 0)
                    &&& final(self).spec_status() == old(self).spec_status()
                },
                Err(e) => {
                    &&& r is None
                    &&& !final(self).spec_loading()
                    &&& final(self).spec_expected() == old(self).spec_expected()
                    &&& final(self).spec_status() matches Some(m) && m == match e {
                        CatalogError::Transport(t) => "network error: "@ + t@,
                        CatalogError::Decode(t) => "decode error: "@ + t@,
                    }
                },
            },
    {
        if generation != self.generation {
            return None;
        }
        match result {
            Ok(ps) => {
                let expected = crate::pipeline::count_scheduled(&ps);
                self.cards_in_display = expected;
                self.are_cards_loading = expected > 0;
                Some(FetchTask::new(generation, ps))
            },
            Err(e) => {
                self.are_cards_loading = false;
                self.status = Some(e.message());
                None
            },
        }
    }

    /// Whether the printings settled so far cover the expected count.
    fn all_settled(&self) -> (r: bool)
        ensures
            r == (self.spec_settled() >= self.spec_expected()),
    {
        self.failed_fetches >= self.cards_in_display || self.card_display.len()
            >= self.cards_in_display - self.failed_fetches
    }

    /// Takes in at most one event of the fetch queue, once per frame. A
    /// printing of the current generation joins the end of the gallery; a
    /// failure of the current generation is counted and named in the status
    /// line; events of older generations are dropped. Loading ends once the
    /// printings shown or failed cover the expected count.
    pub fn on_frame_tick(&mut self, event: Option<FetchEvent>)
        ensures
            final(self).spec_query() == old(self).spec_query(),
            final(self).spec_results() == old(self).spec_results(),
            final(self).spec_selected() == old(self).spec_selected(),
            final(self).spec_single() == old(self).spec_single(),
            final(self).spec_expected() == old(self).spec_expected(),
            final(self).spec_generation() == old(self).spec_generation(),
            match event {
                Some(FetchEvent::Loaded(g, card)) if g == old(self).spec_generation() => {
                    &&& final(self).spec_display() == old(self).spec_display().push(card)
                    &&& final(self).spec_failed() == old(self).spec_failed()
                    &&& final(self).spec_status() == old(self).spec_status()
                },
                Some(FetchEvent::Failed(g, id)) if g == old(self).spec_generation() => {
                    &&& final(self).spec_display() == old(self).spec_display()
                    &&& old(self).spec_failed() < usize::MAX ==> final(self).spec_failed()
                        == old(self).spec_failed() + 1
                    &&& final(self).spec_status() == Some("image fetch failed: "@ + id@)
                },
                _ => {
                    &&& final(self).spec_display() == old(self).spec_display()
                    &&& final(self).spec_failed() == old(self).spec_failed()
                    &&& final(self).spec_status() == old(self).spec_status()
                },
            },
            final(self).spec_loading() == (old(self).spec_loading() && final(self).spec_settled()
                < final(self).spec_expected()),
    {
        match event {
            Some(FetchEvent::Loaded(g, card)) => {
                if g == self.generation {
                    self.card_display.push(card);
                }
            },
            Some(FetchEvent::Failed(g, id)) => {
                if g == self.generation {
                    if self.failed_fetches < usize::MAX {
                        self.failed_fetches = self.failed_fetches + 1;
                    }
                    let mut m = String::from_str("image fetch failed: ");
                    m.append(id.as_str());
                    self.status = Some(m);
                }
            },
            None => {},
        }
        if self.are_cards_loading && self.all_settled() {
            self.are_cards_loading = false;
        }
    }

    /// Progress of the current fetch as `(done, of)`: never below zero nor
    /// above one, and complete when nothing was scheduled.
    pub fn progress(&self) -> (r: (usize, usize))
        ensures
            r.0 <= r.1,
            r.1 > 0,
            (r.0 as nat, r.1 as nat) == progress_of(self.spec_settled(), self.spec_expected()),
            self.spec_expected() == 0 ==> r == (1usize, 1usize),
    {
        if self.cards_in_display == 0 {
            (1, 1)
        } else if self.all_settled() {
            (self.cards_in_display, self.cards_in_display)
        } else {
            (self.card_display.len() + self.failed_fetches, self.cards_in_display)
        }
    }

    /// Opens gallery entry `index` in the detail pane; an index out of
    /// range changes nothing.
    pub fn select_display_card(&mut self, index: usize)
        ensures
            index < old(self).spec_display().len() ==> final(self).spec_single() == Some(
                old(self).spec_display()[index as int],
            ),
            index >= old(self).spec_display().len() ==> final(self).spec_single()
                == old(self).spec_single(),
            final(self).spec_display() == old(self).spec_display(),
            final(self).spec_results() == old(self).spec_results(),
            final(self).spec_loading() == old(self).spec_loading(),
            final(self).spec_generation() == old(self).spec_generation(),
    {
        if index < self.card_display.len() {
            let card = self.card_display[index].clone();
            self.single_card_view.load(card);
        }
    }

    /// Whether a task of generation `generation` should go on: only the
    /// latest selection's task does.
    pub fn is_current(&self, generation: u64) -> (r: bool)
        ensures
            r == (generation == self.spec_generation()),
    {
        generation == self.generation
    }

    pub fn generation(&self) -> (r: u64)
        ensures
            r == self.spec_generation(),
    {
        self.generation
    }

    pub fn results(&self) -> (r: &Vec<Card>)
        ensures
            r@ == self.spec_results(),
    {
        &self.card_search_result
    }

    pub fn display(&self) -> (r: &Vec<Card>)
        ensures
            r@ == self.spec_display(),
    {
        &self.card_display
    }

    pub fn selected(&self) -> (r: &Option<String>)
        ensures
            *r == self.spec_selected(),
    {
        &self.selected_card_in_table
    }

    pub fn is_loading(&self) -> (r: bool)
        ensures
            r == self.spec_loading(),
    {
        self.are_cards_loading
    }

    pub fn expected_count(&self) -> (r: usize)
        ensures
            r == self.spec_expected(),
    {
        self.cards_in_display
    }

    pub fn failed_fetches(&self) -> (r: usize)
        ensures
            r == self.spec_failed(),
    {
        self.failed_fetches
    }

    pub fn status(&self) -> (r: &Option<String>)
        ensures
            match *r {
                Some(s) => self.spec_status() == Some(s@),
                None => self.spec_status() is None,
            },
    {
        &self.status
    }

    pub fn single_card_view(&self) -> (r: &SingleCardView)
        ensures
            r.spec_card() == self.spec_single(),
    {
        &self.single_card_view
    }
}

impl Default for CardSearchView {
    fn default() -> (r: Self)
        ensures
            r.spec_query() == DEFAULT_QUERY@,
            r.spec_results().len() == 0,
            r.spec_display().len() == 0,
            r.spec_selected() is None,
            r.spec_single() is None,
            !r.spec_loading(),
            r.spec_expected() == 0,
            r.spec_failed() == 0,
            r.spec_generation() == 0,
            r.spec_status() is None,
    {
        CardSearchView {
            card_search_spot: String::from_str(DEFAULT_QUERY),
            single_card_view: SingleCardView::default(),
            selected_card_in_table: None,
            are_cards_loading: false,
            card_search_result: Vec::new(),
            cards_in_display: 0,
            card_display: Vec::new(),
            failed_fetches: 0,
            generation: 0,
            status: None,
        }
    }
}

} // verus!
