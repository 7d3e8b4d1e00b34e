//! The core of a repository search page: the state it keeps, the events that
//! change it, and the projection of that state for display.
//!
//! Nothing here touches the network or the screen. The surrounding application
//! feeds events to [`App::update`], carries out the [`Effect`] it gets back, and
//! draws the [`Page`] that [`App::view`] describes.

pub mod controller;
pub mod fetch;
pub mod laws;
pub mod msg;
pub mod page;
pub mod repo;
pub mod state;
pub mod text;

pub use controller::App;
pub use msg::{Effect, Msg};
pub use page::{Page, RepoList, RepoRow, Theme};
pub use repo::{Owner, Repo};
pub use state::{FetchError, FetchState, State};
