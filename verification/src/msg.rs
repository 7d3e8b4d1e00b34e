//! The events that the application reacts to, and what it asks of its
//! surroundings in return.

use vstd::prelude::*;
use vstd::string::StringExecFns;
use crate::repo::{Repo, RepoView};
use crate::state::{FetchModel, FetchState};

verus! {

/// An event.
#[derive(Debug, PartialEq, Eq)]
pub enum Msg {
    /// The search moved on: it is under way, or it settled with a result or
    /// an error.
    SetReposFetchState(FetchState<Vec<Repo>>),
    /// The user submitted this text as a search.
    Search(String),
    /// The user switched between the light and the dark theme.
    ChangeTheme,
}

/// What a [`Msg`] is, as a value of mathematics.
pub enum MsgModel {
    SetReposFetchState(FetchModel<Seq<RepoView>>),
    Search(Seq<char>),
    ChangeTheme,
}

impl View for Msg {
    type V = MsgModel;

    open spec fn view(&self) -> MsgModel {
        match self {
            Msg::SetReposFetchState(entries) => MsgModel::SetReposFetchState(entries@),
            Msg::Search(keyword) => MsgModel::Search(keyword@),
            Msg::ChangeTheme => MsgModel::ChangeTheme,
        }
    }
}

impl DeepView for Msg {
    type V = MsgModel;

    open spec fn deep_view(&self) -> MsgModel {
        self.view()
    }
}

/// What the surroundings are to do once an event has been applied.
#[derive(Debug, PartialEq, Eq)]
pub struct Effect {
    /// The page is to be drawn again.
    pub render: bool,
    /// Input focus is to go to the designated control. The attempt may fail;
    /// that is not an error.
    pub focus: bool,
    /// A search is to be started with this query. Its outcome comes back as
    /// the event that [`Msg::from_outcome`] makes of it.
    pub search: Option<String>,
}

/// What an [`Effect`] is, as a value of mathematics.
pub struct EffectModel {
    pub render: bool,
    pub focus: bool,
    pub search: Option<Seq<char>>,
}

impl View for Effect {
    type V = EffectModel;

    open spec fn view(&self) -> EffectModel {
        EffectModel { render: self.render, focus: self.focus, search: self.search.deep_view() }
    }
}

/// The key that submits the search field.
pub open spec fn commit_key() -> Seq<char> {
    "Enter"@
}

/// The event for a key pressed in the search field: a search for the field's
/// text where the key is the commit key, none for any other key.
pub open spec fn key_press(key: Seq<char>, value: Seq<char>) -> Option<MsgModel> {
    if key == commit_key() {
        Some(MsgModel::Search(value))
    } else {
        None
    }
}

impl Msg {
    /// The event for a key pressed in the search field while the field holds
    /// `value`. Only the commit key submits; typing does not.
    pub fn from_key_press(key: &str, value: String) -> (msg: Option<Msg>)
        ensures
            msg.deep_view() == key_press(key@, value@),
            msg matches Some(m) ==> m == Msg::Search(value),
    {
        if key.to_owned() == String::from_str("Enter") {
            Some(Msg::Search(value))
        } else {
            None
        }
    }
}

} // verus!
