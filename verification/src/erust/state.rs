//! The data-presence state of the interface and the displayed records.

use crate::db::github::{copy_records, views, Repository, RepositoryView};
use vstd::prelude::*;
use vstd::std_specs::cmp::PartialEqSpecImpl;

verus! {

/// What the interface knows of the data of the selected language.
#[derive(Debug)]
pub enum AppState {
    Init,
    Empty,
    Syncing,
    Normal,
    Ready,
    Error(String),
}

/// An `AppState` as a mathematical value.
pub enum AppStateView {
    Init,
    Empty,
    Syncing,
    Normal,
    Ready,
    Error(Seq<char>),
}

impl View for AppState {
    type V = AppStateView;

    open spec fn view(&self) -> AppStateView {
        match self {
            AppState::Init => AppStateView::Init,
            AppState::Empty => AppStateView::Empty,
            AppState::Syncing => AppStateView::Syncing,
            AppState::Normal => AppStateView::Normal,
            AppState::Ready => AppStateView::Ready,
            AppState::Error(msg) => AppStateView::Error(msg@),
        }
    }
}

impl DeepView for AppState {
    type V = AppStateView;

    open spec fn deep_view(&self) -> AppStateView {
        self@
    }
}

impl Clone for AppState {
    fn clone(&self) -> (r: Self)
        ensures
            r@ == self@,
    {
        match self {
            AppState::Init => AppState::Init,
            AppState::Empty => AppState::Empty,
            AppState::Syncing => AppState::Syncing,
            AppState::Normal => AppState::Normal,
            AppState::Ready => AppState::Ready,
            AppState::Error(msg) => AppState::Error(msg.clone()),
        }
    }
}

impl PartialEq for AppState {
    fn eq(&self, other: &Self) -> (r: bool) {
        match self {
            AppState::Init => matches!(other, AppState::Init),
            AppState::Empty => matches!(other, AppState::Empty),
            AppState::Syncing => matches!(other, AppState::Syncing),
            AppState::Normal => matches!(other, AppState::Normal),
            AppState::Ready => matches!(other, AppState::Ready),
            AppState::Error(a) => match other {
                AppState::Error(b) => *a == *b,
                _ => false,
            },
        }
    }
}

impl Eq for AppState {

}

impl PartialEqSpecImpl for AppState {
    open spec fn obeys_eq_spec() -> bool {
        true
    }

    open spec fn eq_spec(&self, other: &Self) -> bool {
        self@ == other@
    }
}

/// The displayed records with the state they imply and a log of failures.
#[derive(Debug)]
pub struct WaffleState {
    pub app_state: AppState,
    pub filtered_repos: Vec<Repository>,
    pub log: String,
}

/// What a `WaffleState` holds, as mathematical values.
pub struct WaffleStateView {
    pub app_state: AppStateView,
    pub filtered_repos: Seq<RepositoryView>,
    pub log: Seq<char>,
}

impl View for WaffleState {
    type V = WaffleStateView;

    open spec fn view(&self) -> WaffleStateView {
        WaffleStateView {
            app_state: self.app_state@,
            filtered_repos: views(self.filtered_repos@),
            log: self.log@,
        }
    }
}

impl Clone for WaffleState {
    fn clone(&self) -> (r: Self)
        ensures
            r@ == self@,
    {
        WaffleState {
            app_state: self.app_state.clone(),
            filtered_repos: copy_records(&self.filtered_repos),
            log: self.log.clone(),
        }
    }
}

impl WaffleState {
    /// The state at startup: nothing displayed, nothing logged.
    pub fn new() -> (state: Self)
        ensures
            state@ == (WaffleStateView {
                app_state: AppStateView::Init,
                filtered_repos: Seq::empty(),
                log: Seq::empty(),
            }),
    {
        let state = WaffleState {
            app_state: AppState::Init,
            filtered_repos: Vec::new(),
            log: String::new(),
        };
        assert(views(state.filtered_repos@) =~= Seq::<RepositoryView>::empty());
        state
    }

    /// Shows nothing: there is no data.
    pub fn set_empty(&mut self)
        ensures
            final(self)@ == (WaffleStateView {
                app_state: AppStateView::Empty,
                filtered_repos: Seq::empty(),
                ..old(self)@
            }),
    {
        self.app_state = AppState::Empty;
        self.filtered_repos = Vec::new();
        assert(views(self.filtered_repos@) =~= Seq::<RepositoryView>::empty());
    }

    /// Marks a sync as under way.
    pub fn set_syncing(&mut self)
        ensures
            final(self)@ == (WaffleStateView { app_state: AppStateView::Syncing, ..old(self)@ }),
    {
        self.app_state = AppState::Syncing;
    }

    /// Shows `repos`; an empty list means that there is no data.
    pub fn set_ready(&mut self, repos: Vec<Repository>)
        ensures
            final(self)@ == (WaffleStateView {
                app_state: if repos@.len() == 0 {
                    AppStateView::Empty
                } else {
                    AppStateView::Ready
                },
                filtered_repos: views(repos@),
                ..old(self)@
            }),
    {
        if repos.len() == 0 {
            assert(views(repos@) =~= Seq::<RepositoryView>::empty());
            self.set_empty();
        } else {
            self.app_state = AppState::Ready;
            self.filtered_repos = repos;
        }
    }

    /// Records a failure: the state carries the message, the log gains the
    /// line `Error: ` and the message, and nothing is shown.
    pub fn set_error(&mut self, msg: String)
        ensures
            final(self)@ == (WaffleStateView {
                app_state: AppStateView::Error(msg@),
                filtered_repos: Seq::empty(),
                log: old(self)@.log + "Error: "@ + msg@ + "\n"@,
            }),
    {
        self.log.append("Error: ");
        self.log.append(msg.as_str());
        self.log.append("\n");
        self.app_state = AppState::Error(msg);
        self.filtered_repos = Vec::new();
        assert(views(self.filtered_repos@) =~= Seq::<RepositoryView>::empty());
    }

    /// Adds a line to the log.
    pub fn log(&mut self, msg: &str)
        ensures
            final(self)@ == (WaffleStateView { log: old(self)@.log + msg@ + "\n"@, ..old(self)@ }),
    {
        self.log.append(msg);
        self.log.append("\n");
    }

    /// True when records are shown.
    pub fn is_ready(&self) -> (ready: bool)
        ensures
            ready == (self@.app_state == AppStateView::Ready),
    {
        matches!(self.app_state, AppState::Ready)
    }
}

} // verus!
