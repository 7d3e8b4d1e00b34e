//! What holds of the application over every state and every run of events.

use vstd::prelude::*;
use crate::controller::{effect_of, step};
use crate::fetch::{items_of, settled};
use crate::msg::MsgModel;
use crate::page::{list_of, rows_of, ListModel};
use crate::repo::RepoView;
use crate::state::{FetchModel, StateModel};

verus! {

/// The state after a run of events, applied in the order in which they came.
pub open spec fn run(state: StateModel, msgs: Seq<MsgModel>) -> StateModel
    decreases msgs.len(),
{
    if msgs.len() == 0 {
        state
    } else {
        step(run(state, msgs.drop_last()), msgs.last())
    }
}

/// One full search: the keyword is submitted, and the request settles with
/// `outcome`.
pub open spec fn search_round(
    state: StateModel,
    keyword: Seq<char>,
    outcome: Result<Seq<RepoView>, Seq<char>>,
) -> StateModel {
    step(step(state, MsgModel::Search(keyword)), settled(outcome))
}

/// A submitted search puts the search under way at once, from every state
/// and for every keyword, the empty one too; it records the keyword and
/// leaves the theme alone.
pub proof fn lemma_search_is_under_way(state: StateModel, keyword: Seq<char>)
    ensures
        step(state, MsgModel::Search(keyword)) == (StateModel {
            entries: FetchModel::Fetching,
            keyword,
            is_light_mode: state.is_light_mode,
        }),
{
}

/// After any run of submitted searches, with none of them settled yet, the
/// search is under way and the keyword is that of the last one.
pub proof fn lemma_searches_end_under_way(state: StateModel, msgs: Seq<MsgModel>)
    requires
        msgs.len() > 0,
        forall|i: int| 0 <= i < msgs.len() ==> #[trigger] msgs[i] is Search,
    ensures
        run(state, msgs).entries is Fetching,
        run(state, msgs).keyword == msgs.last()->Search_0,
        run(state, msgs).is_light_mode == state.is_light_mode,
    decreases msgs.len(),
{
    assert(msgs.last() is Search);
    if msgs.len() > 1 {
        let before = msgs.drop_last();
        assert forall|i: int| 0 <= i < before.len() implies #[trigger] before[i] is Search by {
            assert(before[i] == msgs[i]);
        }
        lemma_searches_end_under_way(state, before);
    } else {
        assert(run(state, msgs.drop_last()) == state);
    }
}

/// Changing the theme flips the theme, leaves the search and the keyword as
/// they were, and starts no request.
pub proof fn lemma_theme_leaves_search_alone(state: StateModel)
    ensures
        step(state, MsgModel::ChangeTheme).entries == state.entries,
        step(state, MsgModel::ChangeTheme).keyword == state.keyword,
        step(state, MsgModel::ChangeTheme).is_light_mode == !state.is_light_mode,
        effect_of(MsgModel::ChangeTheme).search is None,
{
}

/// Changing the theme twice leaves the state as it was.
pub proof fn lemma_theme_twice_is_nothing(state: StateModel)
    ensures
        step(step(state, MsgModel::ChangeTheme), MsgModel::ChangeTheme) == state,
{
}

/// A search that succeeds leaves the repositories it brought, all of them
/// and in their order, and changes nothing else.
pub proof fn lemma_success_keeps_items(state: StateModel, repos: Seq<RepoView>)
    ensures
        step(state, settled(Ok(repos))) == (StateModel {
            entries: FetchModel::Success(repos),
            ..state
        }),
{
}

/// An answer that lacks its list counts as a success with no repositories.
pub proof fn lemma_missing_items_is_empty_success(state: StateModel)
    ensures
        step(state, settled(Ok(items_of(None)))).entries == FetchModel::Success(
            Seq::<RepoView>::empty(),
        ),
        list_of(step(state, settled(Ok(items_of(None)))).entries) == ListModel::Rows(
            Seq::empty(),
        ),
{
    assert(rows_of(Seq::<RepoView>::empty()) =~= Seq::empty());
}

/// A search that fails leaves the error as it came, and changes nothing
/// else.
pub proof fn lemma_failure_keeps_error(state: StateModel, error: Seq<char>)
    ensures
        step(state, settled(Err(error))) == (StateModel {
            entries: FetchModel::Failed(error),
            ..state
        }),
{
}

/// Searching for the same keyword again, once the first search has settled,
/// ends in the same state as the first time, given the same outcome. The
/// request that is started is the same as well.
pub proof fn lemma_same_search_same_end(
    state: StateModel,
    keyword: Seq<char>,
    outcome: Result<Seq<RepoView>, Seq<char>>,
)
    ensures
        search_round(search_round(state, keyword, outcome), keyword, outcome) == search_round(
            state,
            keyword,
            outcome,
        ),
        search_round(state, keyword, outcome).entries.is_settled(),
        search_round(state, keyword, outcome).keyword == keyword,
{
}

/// Where a second search is submitted before the first has settled, both
/// outcomes are applied, each when it comes. Whichever settles last is what
/// is left, be it the answer to the older search; the keyword stays that of
/// the newer one.
pub proof fn lemma_last_to_settle_is_left(
    state: StateModel,
    older: Seq<char>,
    newer: Seq<char>,
    first_settled: Result<Seq<RepoView>, Seq<char>>,
    last_settled: Result<Seq<RepoView>, Seq<char>>,
)
    ensures
        run(
            state,
            seq![
                MsgModel::Search(older),
                MsgModel::Search(newer),
                settled(first_settled),
                settled(last_settled),
            ],
        ) == search_round(state, newer, last_settled),
{
    let msgs = seq![
        MsgModel::Search(older),
        MsgModel::Search(newer),
        settled(first_settled),
        settled(last_settled),
    ];
    let three = msgs.drop_last();
    let two = three.drop_last();
    let one = two.drop_last();
    assert(run(state, one.drop_last()) == state);
    assert(one.last() == MsgModel::Search(older));
    assert(run(state, one) == step(state, MsgModel::Search(older)));
    assert(run(state, two) == step(run(state, one), MsgModel::Search(newer)));
    assert(run(state, three) == step(run(state, two), settled(first_settled)));
    assert(run(state, msgs) == step(run(state, three), settled(last_settled)));
}

/// The keyword is that of the latest submitted search, whatever else has
/// happened since.
pub proof fn lemma_keyword_is_latest_search(state: StateModel, msgs: Seq<MsgModel>, latest: int)
    requires
        0 <= latest < msgs.len(),
        msgs[latest] is Search,
        forall|i: int| latest < i < msgs.len() ==> !(#[trigger] msgs[i] is Search),
    ensures
        run(state, msgs).keyword == msgs[latest]->Search_0,
    decreases msgs.len(),
{
    let before = msgs.drop_last();
    if latest + 1 < msgs.len() {
        assert(!(msgs[msgs.len() - 1] is Search));
        assert(before[latest] == msgs[latest]);
        assert forall|i: int| latest < i < before.len() implies !(#[trigger] before[i] is Search) by {
            assert(before[i] == msgs[i]);
        }
        lemma_keyword_is_latest_search(state, before, latest);
    }
}

/// Once a search has been made, the list never goes back to blank: reports
/// on a search say that it is under way or that it has settled.
pub proof fn lemma_never_blank_again(state: StateModel, msgs: Seq<MsgModel>)
    requires
        !(state.entries is NotFetching),
        forall|i: int|
            0 <= i < msgs.len() ==> #[trigger] msgs[i] != MsgModel::SetReposFetchState(
                FetchModel::NotFetching,
            ),
    ensures
        !(run(state, msgs).entries is NotFetching),
    decreases msgs.len(),
{
    if msgs.len() > 0 {
        let before = msgs.drop_last();
        assert forall|i: int| 0 <= i < before.len() implies #[trigger] before[i]
            != MsgModel::SetReposFetchState(FetchModel::NotFetching) by {
            assert(before[i] == msgs[i]);
        }
        lemma_never_blank_again(state, before);
        assert(msgs.last() == msgs[msgs.len() - 1]);
    }
}

/// The list shows one row for each repository, in the same order, and the
/// last row is the only one with no separator after it.
pub proof fn lemma_rows_follow_repos(repos: Seq<RepoView>, i: int)
    requires
        0 <= i < repos.len(),
    ensures
        rows_of(repos).len() == repos.len(),
        rows_of(repos)[i].full_name == repos[i].full_name,
        rows_of(repos)[i].stargazers_count == repos[i].stargazers_count,
        rows_of(repos)[i].forks_count == repos[i].forks_count,
        rows_of(repos)[i].trailing_separator <==> i != repos.len() - 1,
{
}

} // verus!
