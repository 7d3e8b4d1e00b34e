//! The state of the page: where the latest search stands, the text last
//! searched for, and the theme.

use vstd::prelude::*;
use crate::repo::{Repo, RepoView};

verus! {

/// Why a search failed, as the search service put it. The text is kept as it
/// came and is never interpreted.
#[derive(Debug, PartialEq, Eq)]
pub struct FetchError {
    pub message: String,
}

impl Clone for FetchError {
    fn clone(&self) -> (copy: Self)
        ensures
            copy == *self,
    {
        FetchError { message: self.message.clone() }
    }
}

impl View for FetchError {
    type V = Seq<char>;

    open spec fn view(&self) -> Seq<char> {
        self.message@
    }
}

impl DeepView for FetchError {
    type V = Seq<char>;

    open spec fn deep_view(&self) -> Seq<char> {
        self.view()
    }
}

/// Where a request stands. `Success` and `Failed` are the settled states.
#[derive(Debug, PartialEq, Eq)]
pub enum FetchState<T> {
    /// Nothing was asked for yet.
    NotFetching,
    /// A request is on its way.
    Fetching,
    /// The latest request to settle brought this.
    Success(T),
    /// The latest request to settle failed with this.
    Failed(FetchError),
}

/// What a [`FetchState`] is, as a value of mathematics: the same four cases
/// over the model of the payload, with the error as its text.
pub enum FetchModel<V> {
    NotFetching,
    Fetching,
    Success(V),
    Failed(Seq<char>),
}

impl<V> FetchModel<V> {
    /// A request has settled, one way or the other.
    pub open spec fn is_settled(self) -> bool {
        self is Success || self is Failed
    }
}

impl<T: DeepView> View for FetchState<T> {
    type V = FetchModel<T::V>;

    open spec fn view(&self) -> FetchModel<T::V> {
        match self {
            FetchState::NotFetching => FetchModel::NotFetching,
            FetchState::Fetching => FetchModel::Fetching,
            FetchState::Success(value) => FetchModel::Success(value.deep_view()),
            FetchState::Failed(err) => FetchModel::Failed(err@),
        }
    }
}

impl<T: DeepView> DeepView for FetchState<T> {
    type V = FetchModel<T::V>;

    open spec fn deep_view(&self) -> FetchModel<T::V> {
        self.view()
    }
}

/// Everything the page remembers between two events.
#[derive(Debug, PartialEq, Eq)]
pub struct State {
    /// Where the latest search stands.
    pub entries: FetchState<Vec<Repo>>,
    /// The text of the latest search, as it was submitted.
    pub keyword: String,
    /// Whether the light theme is on.
    pub is_light_mode: bool,
}

/// What a [`State`] is, as a value of mathematics.
pub struct StateModel {
    pub entries: FetchModel<Seq<RepoView>>,
    pub keyword: Seq<char>,
    pub is_light_mode: bool,
}

impl View for State {
    type V = StateModel;

    open spec fn view(&self) -> StateModel {
        StateModel {
            entries: self.entries@,
            keyword: self.keyword@,
            is_light_mode: self.is_light_mode,
        }
    }
}

impl StateModel {
    /// The state at start: nothing asked for, no keyword, dark theme.
    pub open spec fn initial() -> StateModel {
        StateModel {
            entries: FetchModel::NotFetching,
            keyword: Seq::empty(),
            is_light_mode: false,
        }
    }
}

impl State {
    /// The state at start: nothing asked for, no keyword, dark theme.
    pub fn new() -> (state: State)
        ensures
            state@ == StateModel::initial(),
            state.entries is NotFetching,
    {
        State { entries: FetchState::NotFetching, keyword: String::new(), is_light_mode: false }
    }
}

} // verus!
