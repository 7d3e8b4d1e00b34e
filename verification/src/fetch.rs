//! The two ends of a search: the query that goes to the search service, and
//! the event that its answer becomes.
//!
//! The call itself is made elsewhere. A search that was started is never
//! called off: where a second one is started before the first has settled,
//! both come back, and each is applied when it does. The page then shows
//! whichever settled last, which may be the older of the two.

use vstd::prelude::*;
use crate::msg::{Msg, MsgModel};
use crate::repo::{Repo, RepoView};
use crate::state::{FetchError, FetchModel, FetchState};
use crate::text::{trim, trimmed};

verus! {

/// The query for a keyword: the keyword without the whitespace at its ends.
/// An empty query is a query like any other.
pub open spec fn query_of(keyword: Seq<char>) -> Seq<char> {
    trimmed(keyword)
}

/// The repositories in an answer that may lack its list: the list where
/// there is one, none where there is not.
pub open spec fn items_of(items: Option<Seq<RepoView>>) -> Seq<RepoView> {
    match items {
        Some(repos) => repos,
        None => Seq::empty(),
    }
}

/// The event that a settled search becomes: success with the repositories as
/// they came, or failure with the error as it came.
pub open spec fn settled(outcome: Result<Seq<RepoView>, Seq<char>>) -> MsgModel {
    match outcome {
        Ok(repos) => MsgModel::SetReposFetchState(FetchModel::Success(repos)),
        Err(text) => MsgModel::SetReposFetchState(FetchModel::Failed(text)),
    }
}

/// The query to send for `keyword`.
pub fn search_query(keyword: &str) -> (query: String)
    ensures
        query@ == query_of(keyword@),
{
    trim(keyword).to_owned()
}

/// The repositories in an answer. An answer without a list holds none; it is
/// no failure.
pub fn found_repos(items: Option<Vec<Repo>>) -> (repos: Vec<Repo>)
    ensures
        repos.deep_view() == items_of(items.deep_view()),
        items matches Some(list) ==> repos == list,
        items is None ==> repos@ == Seq::<Repo>::empty(),
{
    match items {
        Some(list) => list,
        None => {
            let none: Vec<Repo> = Vec::new();
            assert(none.deep_view() =~= Seq::<RepoView>::empty());
            none
        },
    }
}

impl Msg {
    /// The event that reports how a search ended.
    pub fn from_outcome(outcome: Result<Vec<Repo>, FetchError>) -> (msg: Msg)
        ensures
            msg@ == settled(
                match outcome {
                    Ok(repos) => Ok(repos.deep_view()),
                    Err(err) => Err(err@),
                },
            ),
            outcome matches Ok(repos) ==> msg == Msg::SetReposFetchState(FetchState::Success(repos)),
            outcome matches Err(err) ==> msg == Msg::SetReposFetchState(FetchState::Failed(err)),
    {
        match outcome {
            Ok(repos) => Msg::SetReposFetchState(FetchState::Success(repos)),
            Err(err) => Msg::SetReposFetchState(FetchState::Failed(err)),
        }
    }
}

} // verus!
