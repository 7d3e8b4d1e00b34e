//! The application: the one owner of the state, and the only place where it
//! changes.

use vstd::prelude::*;
use crate::fetch::{query_of, search_query};
use crate::msg::{Effect, EffectModel, Msg, MsgModel};
use crate::state::{FetchModel, FetchState, State, StateModel};

verus! {

/// The application. It owns the state; everything else reads it through
/// [`App::state`] or through the page that [`App::view`] describes.
#[derive(Debug)]
pub struct App {
    state: State,
}

impl App {
    /// The state that the application is in, as a value of mathematics.
    pub closed spec fn model(&self) -> StateModel {
        self.state@
    }
}

/// The state after an event.
///
/// A submitted search records its keyword and puts the search under way at
/// once, whatever went before. A report on the search replaces what was
/// known of it and touches nothing else. A change of theme flips the theme
/// and touches nothing else.
pub open spec fn step(state: StateModel, msg: MsgModel) -> StateModel {
    match msg {
        MsgModel::SetReposFetchState(entries) => StateModel { entries, ..state },
        MsgModel::Search(keyword) => StateModel { entries: FetchModel::Fetching, keyword, ..state },
        MsgModel::ChangeTheme => StateModel { is_light_mode: !state.is_light_mode, ..state },
    }
}

/// What an event asks of the surroundings.
///
/// Every event changes what the page shows, so the page is always drawn
/// again. Focus moves whenever the search comes to be under way or settled.
/// A submitted search, and nothing else, starts a request, with the keyword
/// trimmed.
pub open spec fn effect_of(msg: MsgModel) -> EffectModel {
    match msg {
        MsgModel::SetReposFetchState(entries) => EffectModel {
            render: true,
            focus: !(entries is NotFetching),
            search: None,
        },
        MsgModel::Search(keyword) => EffectModel {
            render: true,
            focus: true,
            search: Some(query_of(keyword)),
        },
        MsgModel::ChangeTheme => EffectModel { render: true, focus: false, search: None },
    }
}

impl App {
    /// The application at start: nothing asked for, no keyword, dark theme.
    pub fn create() -> (app: App)
        ensures
            app.model() == StateModel::initial(),
    {
        App { state: State::new() }
    }

    /// The current state, for reading.
    pub fn state(&self) -> (state: &State)
        ensures
            state@ == self.model(),
    {
        &self.state
    }

    /// Applies an event to the state and says what is to be done about it.
    pub fn update(&mut self, msg: Msg) -> (effect: Effect)
        ensures
            final(self).model() == step(old(self).model(), msg@),
            effect@ == effect_of(msg@),
    {
        match msg {
            Msg::SetReposFetchState(entries) => {
                let focus = match &entries {
                    FetchState::NotFetching => false,
                    _ => true,
                };
                self.state.entries = entries;
                Effect { render: true, focus, search: None }
            },
            Msg::Search(keyword) => {
                let query = search_query(keyword.as_str());
                self.state.keyword = keyword;
                self.state.entries = FetchState::Fetching;
                Effect { render: true, focus: true, search: Some(query) }
            },
            Msg::ChangeTheme => {
                self.state.is_light_mode = !self.state.is_light_mode;
                Effect { render: true, focus: false, search: None }
            },
        }
    }
}

} // verus!
