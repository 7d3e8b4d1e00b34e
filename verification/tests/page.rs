use github_search::{App, FetchError, FetchState, Msg, Owner, Page, Repo, RepoList, RepoRow, Theme};

fn full_repo(name: &str, stars: i64, forks: i64) -> Repo {
    Repo {
        full_name: name.to_string(),
        language: Some("Rust".to_string()),
        stargazers_count: stars,
        forks_count: forks,
        owner: Some(Owner { avatar_url: Some(format!("https://avatars.test/{name}.png")) }),
    }
}

fn full_row(name: &str, stars: i64, forks: i64, trailing_separator: bool) -> RepoRow {
    RepoRow {
        avatar_url: format!("https://avatars.test/{name}.png"),
        full_name: name.to_string(),
        language: "Rust".to_string(),
        stargazers_count: stars,
        forks_count: forks,
        trailing_separator,
    }
}

fn app_with(repos: Vec<Repo>) -> App {
    let mut app = App::create();
    app.update(Msg::Search("q".to_string()));
    app.update(Msg::SetReposFetchState(FetchState::Success(repos)));
    app
}

#[test]
fn first_page_is_blank_and_dark() {
    let app = App::create();
    assert_eq!(
        app.view(),
        Page { theme: Theme::Dark, keyword: String::new(), list: RepoList::Blank }
    );
    assert_eq!(app.view_repo_list(), RepoList::Blank);
}

#[test]
fn loading_sign_while_the_search_is_under_way() {
    let mut app = App::create();
    app.update(Msg::Search("octocat".to_string()));
    assert_eq!(
        app.view(),
        Page { theme: Theme::Dark, keyword: "octocat".to_string(), list: RepoList::Loading }
    );
}

#[test]
fn two_results_make_two_rows_and_the_second_has_no_separator() {
    let mut app = App::create();
    app.update(Msg::Search("octocat".to_string()));
    app.update(Msg::from_outcome(Ok(vec![
        full_repo("octocat/hello", 10, 3),
        full_repo("octocat/spoon", 7, 0),
    ])));
    assert_eq!(
        app.view_repo_list(),
        RepoList::Rows(vec![
            full_row("octocat/hello", 10, 3, true),
            full_row("octocat/spoon", 7, 0, false),
        ])
    );
    assert_eq!(app.view().list, app.view_repo_list());
    assert_eq!(app.view().keyword, "octocat");
}

#[test]
fn error_is_shown_by_its_text() {
    let mut app = App::create();
    app.update(Msg::Search("x".to_string()));
    app.update(Msg::from_outcome(Err(FetchError { message: "E".to_string() })));
    assert_eq!(app.view_repo_list(), RepoList::Failure("E".to_string()));
    assert_eq!(
        app.view(),
        Page { theme: Theme::Dark, keyword: "x".to_string(), list: RepoList::Failure("E".to_string()) }
    );
}

#[test]
fn no_results_make_no_rows() {
    let app = app_with(vec![]);
    assert_eq!(app.view_repo_list(), RepoList::Rows(vec![]));
}

#[test]
fn single_row_has_no_separator() {
    let app = app_with(vec![full_repo("a/b", 1, 2)]);
    assert_eq!(app.view_repo_list(), RepoList::Rows(vec![full_row("a/b", 1, 2, false)]));
}

#[test]
fn rows_keep_the_order_of_the_results() {
    let names = ["z/z", "a/a", "m/m", "a/a", "b/b"];
    let app = app_with(names.iter().map(|n| full_repo(n, 5, 5)).collect());
    match app.view_repo_list() {
        RepoList::Rows(rows) => {
            let shown: Vec<&str> = rows.iter().map(|r| r.full_name.as_str()).collect();
            assert_eq!(shown, names);
            let separators: Vec<bool> = rows.iter().map(|r| r.trailing_separator).collect();
            assert_eq!(separators, [true, true, true, true, false]);
        }
        other => panic!("expected rows, found {other:?}"),
    }
}

#[test]
fn what_a_result_lacks_is_shown_empty() {
    let no_owner = Repo {
        full_name: "a/b".to_string(),
        language: None,
        stargazers_count: 0,
        forks_count: 12,
        owner: None,
    };
    let no_avatar = Repo {
        full_name: "c/d".to_string(),
        language: Some("Go".to_string()),
        stargazers_count: 123456,
        forks_count: 0,
        owner: Some(Owner { avatar_url: None }),
    };
    assert_eq!(
        RepoRow::of(&no_owner, true),
        RepoRow {
            avatar_url: String::new(),
            full_name: "a/b".to_string(),
            language: String::new(),
            stargazers_count: 0,
            forks_count: 12,
            trailing_separator: true,
        }
    );
    assert_eq!(
        RepoRow::of(&no_avatar, false),
        RepoRow {
            avatar_url: String::new(),
            full_name: "c/d".to_string(),
            language: "Go".to_string(),
            stargazers_count: 123456,
            forks_count: 0,
            trailing_separator: false,
        }
    );
}

#[test]
fn theme_follows_the_switch() {
    let mut app = App::create();
    assert_eq!(app.view().theme, Theme::Dark);
    app.update(Msg::ChangeTheme);
    assert_eq!(app.view().theme, Theme::Light);
    app.update(Msg::ChangeTheme);
    assert_eq!(app.view().theme, Theme::Dark);
}

#[test]
fn theme_change_does_not_touch_the_list() {
    let mut app = app_with(vec![full_repo("a/b", 1, 1), full_repo("c/d", 2, 2)]);
    let before = app.view_repo_list();
    app.update(Msg::ChangeTheme);
    assert_eq!(app.view_repo_list(), before);
    assert_eq!(app.view().keyword, "q");
}

#[test]
fn themes_have_their_names() {
    assert_eq!(Theme::Light.name(), "light");
    assert_eq!(Theme::Dark.name(), "dark");
}

#[test]
fn search_field_shows_the_keyword_as_submitted() {
    let mut app = App::create();
    app.update(Msg::Search("  spaced  ".to_string()));
    assert_eq!(app.view().keyword, "  spaced  ");
    app.update(Msg::from_outcome(Ok(vec![])));
    assert_eq!(app.view().keyword, "  spaced  ");
}
