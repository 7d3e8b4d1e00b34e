//! One search result, as the search service reports it.

use vstd::prelude::*;

verus! {

/// The account that a repository belongs to.
#[derive(Debug, PartialEq, Eq)]
pub struct Owner {
    pub avatar_url: Option<String>,
}

/// A repository in a result list.
#[derive(Debug, PartialEq, Eq)]
pub struct Repo {
    pub full_name: String,
    pub language: Option<String>,
    pub stargazers_count: i64,
    pub forks_count: i64,
    pub owner: Option<Owner>,
}

/// What an [`Owner`] is, as a value of mathematics.
pub struct OwnerView {
    pub avatar_url: Option<Seq<char>>,
}

/// What a [`Repo`] is, as a value of mathematics.
pub struct RepoView {
    pub full_name: Seq<char>,
    pub language: Option<Seq<char>>,
    pub stargazers_count: int,
    pub forks_count: int,
    pub owner: Option<OwnerView>,
}

impl View for Owner {
    type V = OwnerView;

    open spec fn view(&self) -> OwnerView {
        OwnerView { avatar_url: self.avatar_url.deep_view() }
    }
}

impl DeepView for Owner {
    type V = OwnerView;

    open spec fn deep_view(&self) -> OwnerView {
        self.view()
    }
}

impl View for Repo {
    type V = RepoView;

    open spec fn view(&self) -> RepoView {
        RepoView {
            full_name: self.full_name@,
            language: self.language.deep_view(),
            stargazers_count: self.stargazers_count as int,
            forks_count: self.forks_count as int,
            owner: self.owner.deep_view(),
        }
    }
}

impl DeepView for Repo {
    type V = RepoView;

    open spec fn deep_view(&self) -> RepoView {
        self.view()
    }
}

impl Clone for Owner {
    fn clone(&self) -> (copy: Self)
        ensures
            copy == *self,
    {
        Owner {
            avatar_url: match &self.avatar_url {
                Some(url) => Some(url.clone()),
                None => None,
            },
        }
    }
}

impl Clone for Repo {
    fn clone(&self) -> (copy: Self)
        ensures
            copy == *self,
    {
        Repo {
            full_name: self.full_name.clone(),
            language: match &self.language {
                Some(language) => Some(language.clone()),
                None => None,
            },
            stargazers_count: self.stargazers_count,
            forks_count: self.forks_count,
            owner: match &self.owner {
                Some(owner) => Some(owner.clone()),
                None => None,
            },
        }
    }
}

/// The text, or the empty text where there is none.
pub open spec fn text_or_empty(text: Option<Seq<char>>) -> Seq<char> {
    match text {
        Some(text) => text,
        None => Seq::empty(),
    }
}

/// The count, or zero where there is none.
pub open spec fn count_or_zero(count: Option<i64>) -> int {
    match count {
        Some(count) => count as int,
        None => 0,
    }
}

impl Repo {
    /// A repository made of what an answer holds of it, where any part may
    /// be missing. A missing name becomes the empty text and a missing count
    /// zero; the language and the owner stay as they are, there or not.
    pub fn from_parts(
        full_name: Option<String>,
        language: Option<String>,
        stargazers_count: Option<i64>,
        forks_count: Option<i64>,
        owner: Option<Owner>,
    ) -> (repo: Repo)
        ensures
            repo@ == (RepoView {
                full_name: text_or_empty(full_name.deep_view()),
                language: language.deep_view(),
                stargazers_count: count_or_zero(stargazers_count),
                forks_count: count_or_zero(forks_count),
                owner: owner.deep_view(),
            }),
    {
        Repo {
            full_name: match full_name {
                Some(name) => name,
                None => String::new(),
            },
            language,
            stargazers_count: match stargazers_count {
                Some(count) => count,
                None => 0,
            },
            forks_count: match forks_count {
                Some(count) => count,
                None => 0,
            },
            owner,
        }
    }
}

impl RepoView {
    /// The address of the owner's picture, or the empty text where the
    /// repository has no owner or the owner has no picture.
    pub open spec fn avatar_url(self) -> Seq<char> {
        match self.owner {
            Some(owner) => text_or_empty(owner.avatar_url),
            None => Seq::empty(),
        }
    }

    /// The primary language, or the empty text where none is recorded.
    pub open spec fn language_text(self) -> Seq<char> {
        text_or_empty(self.language)
    }
}

} // verus!
