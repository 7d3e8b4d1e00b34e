//! What the page shows, as a plain value that a front end can draw without
//! deciding anything.

use vstd::prelude::*;
use crate::controller::App;
use crate::repo::{Repo, RepoView};
use crate::state::{FetchModel, FetchState, StateModel};

verus! {

/// One row of the result list.
#[derive(Debug, PartialEq, Eq)]
pub struct RepoRow {
    /// The address of the owner's picture; empty where there is none.
    pub avatar_url: String,
    pub full_name: String,
    /// The primary language; empty where there is none.
    pub language: String,
    pub stargazers_count: i64,
    pub forks_count: i64,
    /// Whether a separator follows the row. Every row has one but the last.
    pub trailing_separator: bool,
}

/// What a [`RepoRow`] is, as a value of mathematics.
pub struct RowModel {
    pub avatar_url: Seq<char>,
    pub full_name: Seq<char>,
    pub language: Seq<char>,
    pub stargazers_count: int,
    pub forks_count: int,
    pub trailing_separator: bool,
}

impl View for RepoRow {
    type V = RowModel;

    open spec fn view(&self) -> RowModel {
        RowModel {
            avatar_url: self.avatar_url@,
            full_name: self.full_name@,
            language: self.language@,
            stargazers_count: self.stargazers_count as int,
            forks_count: self.forks_count as int,
            trailing_separator: self.trailing_separator,
        }
    }
}

impl DeepView for RepoRow {
    type V = RowModel;

    open spec fn deep_view(&self) -> RowModel {
        self.view()
    }
}

/// What stands in the place of the result list.
#[derive(Debug, PartialEq, Eq)]
pub enum RepoList {
    /// Nothing: no search was made yet.
    Blank,
    /// A sign that a search is on its way.
    Loading,
    /// The results, in the order in which they came.
    Rows(Vec<RepoRow>),
    /// The text of the error that the search ended with.
    Failure(String),
}

/// What a [`RepoList`] is, as a value of mathematics.
pub enum ListModel {
    Blank,
    Loading,
    Rows(Seq<RowModel>),
    Failure(Seq<char>),
}

impl View for RepoList {
    type V = ListModel;

    open spec fn view(&self) -> ListModel {
        match self {
            RepoList::Blank => ListModel::Blank,
            RepoList::Loading => ListModel::Loading,
            RepoList::Rows(rows) => ListModel::Rows(rows.deep_view()),
            RepoList::Failure(text) => ListModel::Failure(text@),
        }
    }
}

/// The row that shows `repo`. What the repository lacks is shown as empty
/// text.
pub open spec fn row_of(repo: RepoView, trailing_separator: bool) -> RowModel {
    RowModel {
        avatar_url: repo.avatar_url(),
        full_name: repo.full_name,
        language: repo.language_text(),
        stargazers_count: repo.stargazers_count,
        forks_count: repo.forks_count,
        trailing_separator,
    }
}

/// One row for each repository, in the same order; the last row, and only
/// the last, has no separator after it.
pub open spec fn rows_of(repos: Seq<RepoView>) -> Seq<RowModel> {
    Seq::new(repos.len(), |i: int| row_of(repos[i], i + 1 < repos.len()))
}

/// What is shown for each state of the search.
pub open spec fn list_of(entries: FetchModel<Seq<RepoView>>) -> ListModel {
    match entries {
        FetchModel::NotFetching => ListModel::Blank,
        FetchModel::Fetching => ListModel::Loading,
        FetchModel::Success(repos) => ListModel::Rows(rows_of(repos)),
        FetchModel::Failed(text) => ListModel::Failure(text),
    }
}

impl RepoRow {
    /// The row that shows `repo`.
    pub fn of(repo: &Repo, trailing_separator: bool) -> (row: RepoRow)
        ensures
            row@ == row_of(repo@, trailing_separator),
    {
        let avatar_url = match &repo.owner {
            Some(owner) => match &owner.avatar_url {
                Some(url) => url.clone(),
                None => String::new(),
            },
            None => String::new(),
        };
        let language = match &repo.language {
            Some(language) => language.clone(),
            None => String::new(),
        };
        RepoRow {
            avatar_url,
            full_name: repo.full_name.clone(),
            language,
            stargazers_count: repo.stargazers_count,
            forks_count: repo.forks_count,
            trailing_separator,
        }
    }
}

/// The rows that show `repos`.
fn rows_for(repos: &Vec<Repo>) -> (rows: Vec<RepoRow>)
    ensures
        rows.deep_view() == rows_of(repos.deep_view()),
{
    let count = repos.len();
    let mut rows: Vec<RepoRow> = Vec::with_capacity(count);
    let mut i: usize = 0;
    while i < count
        invariant
            i <= count,
            count == repos.len(),
            rows.len() == i,
            forall|j: int|
                0 <= j < i ==> (#[trigger] rows[j])@ == row_of(repos[j]@, j + 1 < count),
        decreases count - i,
    {
        let row = RepoRow::of(&repos[i], i + 1 < count);
        rows.push(row);
        i += 1;
    }
    assert(rows.deep_view() =~= rows_of(repos.deep_view()));
    rows
}

/// The two ways the page can look.
#[derive(Debug, Clone, Copy, PartialEq, Eq, Structural)]
pub enum Theme {
    Light,
    Dark,
}

impl Theme {
    /// The theme for a state of the switch.
    pub open spec fn of(is_light_mode: bool) -> Theme {
        if is_light_mode {
            Theme::Light
        } else {
            Theme::Dark
        }
    }

    /// The name by which the style sheet knows the theme.
    pub open spec fn spec_name(self) -> Seq<char> {
        match self {
            Theme::Light => "light"@,
            Theme::Dark => "dark"@,
        }
    }

    /// The name by which the style sheet knows the theme.
    pub fn name(self) -> (name: &'static str)
        ensures
            name@ == self.spec_name(),
    {
        match self {
            Theme::Light => "light",
            Theme::Dark => "dark",
        }
    }
}

/// The whole page.
#[derive(Debug, PartialEq, Eq)]
pub struct Page {
    pub theme: Theme,
    /// The text in the search field.
    pub keyword: String,
    pub list: RepoList,
}

/// What a [`Page`] is, as a value of mathematics.
pub struct PageModel {
    pub theme: Theme,
    pub keyword: Seq<char>,
    pub list: ListModel,
}

impl View for Page {
    type V = PageModel;

    open spec fn view(&self) -> PageModel {
        PageModel { theme: self.theme, keyword: self.keyword@, list: self.list@ }
    }
}

/// The page for a state: the theme that the switch says, the latest keyword
/// in the search field, and the list that the search has come to.
pub open spec fn page_of(state: StateModel) -> PageModel {
    PageModel {
        theme: Theme::of(state.is_light_mode),
        keyword: state.keyword,
        list: list_of(state.entries),
    }
}

impl App {
    /// The page as it is to be shown now.
    pub fn view(&self) -> (page: Page)
        ensures
            page@ == page_of(self.model()),
    {
        let state = self.state();
        let theme = if state.is_light_mode {
            Theme::Light
        } else {
            Theme::Dark
        };
        Page { theme, keyword: state.keyword.clone(), list: self.view_repo_list() }
    }

    /// What stands in the place of the result list: nothing before the first
    /// search, a loading sign while a search is on its way, one row for each
    /// result once it has succeeded, and the error's text once it has failed.
    pub fn view_repo_list(&self) -> (list: RepoList)
        ensures
            list@ == list_of(self.model().entries),
    {
        match &self.state().entries {
            FetchState::NotFetching => RepoList::Blank,
            FetchState::Fetching => RepoList::Loading,
            FetchState::Success(repos) => RepoList::Rows(rows_for(repos)),
            FetchState::Failed(err) => RepoList::Failure(err.message.clone()),
        }
    }
}

} // verus!
