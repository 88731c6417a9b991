//! The controller: the selected language, the operation state machine, the
//! notification and the displayed records. It decides; the host performs
//! what it decides and reports back.

use crate::db::github::{copy_records, views, Repository, RepositoryView};
use crate::db::github::{fetch_failure, fetch_failure_of, fetched, loaded, recorded};
use crate::db::github::{search_request_of, snapshot_of, written};
use crate::db::github::{FetchOutcome, FetchRequest, FetchRequestView, GithubDb, GithubDbView};
use crate::db::github::{SnapshotRef, SnapshotRefView, SnapshotWrite, SnapshotWriteView};
use crate::db::idb::{snapshot_key_of, CacheFailure};
use crate::erust::state::{AppState, AppStateView, WaffleState, WaffleStateView};
use crate::erust::uiux::auth::{AuthView, AuthWidget};
use crate::erust::uiux::javascript_interop::{carries, send_action_message, ActionMessage};
use crate::erust::uiux::search::{FilterRequest, FilterRequestView, SearchWidget};
use crate::erust::uiux::search::SearchWidgetView;
use crate::erust::uiux::user::User;
use crate::notification::{advanced, fresh, Notification, NotificationView};
use crate::text::joined;
use vstd::prelude::*;
use vstd::std_specs::cmp::PartialEqSpecImpl;

verus! {

/// The three operations; at most one is in flight.
#[derive(Debug, Clone, Copy, PartialEq, Eq, Structural)]
pub enum LoadingKind {
    LanguageSwitch,
    Sync,
    ClearCache,
}

/// The state of the operation state machine.
#[derive(Debug)]
pub enum LoadingState {
    /// No operation is in flight; commands are accepted.
    Idle,
    /// A command was accepted; its work is dispatched on the next tick.
    Loading { kind: LoadingKind, message: String, pending_language: Option<String> },
    /// The work was dispatched; the cycle ends on the next tick.
    Finishing { message: String },
    /// An operation failed; the reason is shown on the next tick.
    Error(String),
}

/// A `LoadingState` as a mathematical value.
pub enum LoadingStateView {
    Idle,
    Loading { kind: LoadingKind, message: Seq<char>, pending_language: Option<Seq<char>> },
    Finishing { message: Seq<char> },
    Error(Seq<char>),
}

impl DeepView for LoadingState {
    type V = LoadingStateView;

    open spec fn deep_view(&self) -> LoadingStateView {
        match self {
            LoadingState::Idle => LoadingStateView::Idle,
            LoadingState::Loading { kind, message, pending_language } => LoadingStateView::Loading {
                kind: *kind,
                message: message@,
                pending_language: pending_language.deep_view(),
            },
            LoadingState::Finishing { message } => LoadingStateView::Finishing {
                message: message@,
            },
            LoadingState::Error(reason) => LoadingStateView::Error(reason@),
        }
    }
}

impl View for LoadingState {
    type V = LoadingStateView;

    open spec fn view(&self) -> LoadingStateView {
        self.deep_view()
    }
}

impl Clone for LoadingState {
    fn clone(&self) -> (r: Self)
        ensures
            r@ == self@,
    {
        match self {
            LoadingState::Idle => LoadingState::Idle,
            LoadingState::Loading { kind, message, pending_language } => LoadingState::Loading {
                kind: *kind,
                message: message.clone(),
                pending_language: crate::text::copy_of_option(pending_language),
            },
            LoadingState::Finishing { message } => LoadingState::Finishing {
                message: message.clone(),
            },
            LoadingState::Error(reason) => LoadingState::Error(reason.clone()),
        }
    }
}

impl PartialEq for LoadingState {
    fn eq(&self, other: &Self) -> (r: bool) {
        match self {
            LoadingState::Idle => matches!(other, LoadingState::Idle),
            LoadingState::Loading { kind, message, pending_language } => match other {
                LoadingState::Loading { kind: k, message: m, pending_language: p } => {
                    let same_pending = match pending_language {
                        Some(a) => match p {
                            Some(b) => *a == *b,
                            None => false,
                        },
                        None => p.is_none(),
                    };
                    *kind == *k && *message == *m && same_pending
                },
                _ => false,
            },
            LoadingState::Finishing { message } => match other {
                LoadingState::Finishing { message: m } => *message == *m,
                _ => false,
            },
            LoadingState::Error(reason) => match other {
                LoadingState::Error(r) => *reason == *r,
                _ => false,
            },
        }
    }
}

impl Eq for LoadingState {

}

impl PartialEqSpecImpl for LoadingState {
    open spec fn obeys_eq_spec() -> bool {
        true
    }

    open spec fn eq_spec(&self, other: &Self) -> bool {
        self@ == other@
    }
}

/// Work that the controller hands to the host. The host performs it off
/// the render loop and reports the result as a `Completion`.
#[derive(Debug)]
pub enum Effect {
    /// Send the request to the search service.
    Fetch(FetchRequest),
    /// Store the snapshot, overwriting what is stored under its key.
    Store(SnapshotWrite),
    /// Delete the snapshot.
    Delete(SnapshotRef),
    /// Read the snapshot for the repository set.
    Load(SnapshotRef),
    /// Search the partition of the language for the query.
    Filter(FilterRequest),
    /// Read the snapshot to learn whether there is data.
    CheckPresence(SnapshotRef),
}

/// An `Effect` as a mathematical value.
pub enum EffectView {
    Fetch(FetchRequestView),
    Store(SnapshotWriteView),
    Delete(SnapshotRefView),
    Load(SnapshotRefView),
    Filter(FilterRequestView),
    CheckPresence(SnapshotRefView),
}

impl DeepView for Effect {
    type V = EffectView;

    open spec fn deep_view(&self) -> EffectView {
        match self {
            Effect::Fetch(request) => EffectView::Fetch(request@),
            Effect::Store(write) => EffectView::Store(write@),
            Effect::Delete(place) => EffectView::Delete(place@),
            Effect::Load(place) => EffectView::Load(place@),
            Effect::Filter(request) => EffectView::Filter(request@),
            Effect::CheckPresence(place) => EffectView::CheckPresence(place@),
        }
    }
}

impl View for Effect {
    type V = EffectView;

    open spec fn view(&self) -> EffectView {
        self.deep_view()
    }
}

/// What the host reports once it has performed an `Effect`.
#[derive(Debug)]
pub enum Completion {
    /// A `Fetch` ended.
    Fetched(FetchOutcome),
    /// A `Store` ended.
    Stored(Result<(), CacheFailure>),
    /// A `Delete` ended.
    Deleted(Result<(), CacheFailure>),
    /// A `Load` ended; `None` where no snapshot is stored.
    Loaded(Result<Option<Vec<Repository>>, CacheFailure>),
    /// A `Filter` ended.
    Filtered(Result<Vec<Repository>, CacheFailure>),
    /// A `CheckPresence` ended; `None` where no snapshot is stored.
    PresenceChecked(Result<Option<Vec<Repository>>, CacheFailure>),
}

/// The controller. It owns the selected language and the repository set,
/// the operation state, the notification, the data-presence state with the
/// one that waits to be applied, the displayed records, the search field
/// with the slot for its latest result, the sign-in form and the user.
pub struct TemplateApp {
    label: String,
    db: GithubDb,
    loading_state: LoadingState,
    toast: Option<Notification>,
    app_state: AppState,
    pending_app_state: Option<AppState>,
    waffle_state: WaffleState,
    filtered_repos: Option<Vec<Repository>>,
    filter_loading: bool,
    search_widget: SearchWidget,
    results_slot: Option<Vec<Repository>>,
    auth_widget: AuthWidget,
    user: User,
    show_auth_window: bool,
    show_welcome: bool,
}

/// What a `TemplateApp` holds, as mathematical values.
pub struct TemplateAppView {
    pub label: Seq<char>,
    pub db: GithubDbView,
    pub loading_state: LoadingStateView,
    pub toast: Option<NotificationView>,
    pub app_state: AppStateView,
    pub pending_app_state: Option<AppStateView>,
    pub waffle_state: WaffleStateView,
    pub filtered_repos: Option<Seq<RepositoryView>>,
    pub filter_loading: bool,
    pub search_widget: SearchWidgetView,
    pub results_slot: Option<Seq<RepositoryView>>,
    pub auth_widget: AuthWidget,
    pub user: User,
    pub show_auth_window: bool,
    pub show_welcome: bool,
}

/// The views of an optional list of records.
pub open spec fn optional_views(records: Option<Vec<Repository>>) -> Option<Seq<RepositoryView>> {
    match records {
        Some(list) => Some(views(list@)),
        None => None,
    }
}

impl View for TemplateApp {
    type V = TemplateAppView;

    closed spec fn view(&self) -> TemplateAppView {
        TemplateAppView {
            label: self.label@,
            db: self.db@,
            loading_state: self.loading_state@,
            toast: self.toast.deep_view(),
            app_state: self.app_state@,
            pending_app_state: self.pending_app_state.deep_view(),
            waffle_state: self.waffle_state@,
            filtered_repos: optional_views(self.filtered_repos),
            filter_loading: self.filter_loading,
            search_widget: self.search_widget@,
            results_slot: optional_views(self.results_slot),
            auth_widget: self.auth_widget,
            user: self.user,
            show_auth_window: self.show_auth_window,
            show_welcome: self.show_welcome,
        }
    }
}

/// The controller at startup: the language "Rust", no operation, no
/// notification, nothing displayed, the welcome prompt armed.
pub open spec fn initial(s: TemplateAppView) -> bool {
    &&& s.label == "Hello World!"@
    &&& s.db == (GithubDbView {
        repos: Seq::empty(),
        error: None,
        is_loading: false,
        language: "Rust"@,
    })
    &&& s.loading_state == LoadingStateView::Idle
    &&& s.toast is None
    &&& s.app_state == AppStateView::Init
    &&& s.pending_app_state is None
    &&& s.waffle_state == (WaffleStateView {
        app_state: AppStateView::Init,
        filtered_repos: Seq::empty(),
        log: Seq::empty(),
    })
    &&& s.filtered_repos is None
    &&& !s.filter_loading
    &&& s.search_widget == (SearchWidgetView {
        query: Seq::empty(),
        results: Seq::empty(),
        loading: false,
    })
    &&& s.results_slot is None
    &&& s.auth_widget.view == AuthView::Register
    &&& s.auth_widget.error is None
    &&& !s.user.is_authenticated
    &&& !s.show_auth_window
    &&& s.show_welcome
}

impl Default for TemplateApp {
    fn default() -> (app: Self)
        ensures
            initial(app@),
    {
        TemplateApp {
            label: String::from_str("Hello World!"),
            db: GithubDb::new(),
            loading_state: LoadingState::Idle,
            toast: None,
            app_state: AppState::Init,
            pending_app_state: None,
            waffle_state: WaffleState::new(),
            filtered_repos: None,
            filter_loading: false,
            search_widget: SearchWidget::new(),
            results_slot: None,
            auth_widget: AuthWidget::new(false),
            user: User::new(),
            show_auth_window: false,
            show_welcome: true,
        }
    }
}

/// The work of a reload for a language: load its snapshot, and search its
/// partition with an empty query.
pub open spec fn reload_of(language: Seq<char>) -> Seq<EffectView> {
    seq![
        EffectView::Load(snapshot_of(language)),
        EffectView::Filter(FilterRequestView { language, query: ""@ }),
    ]
}

impl TemplateApp {
    /// The controller at startup, with the work that the host is to do
    /// first: a reload for the language "Rust".
    pub fn new() -> (started: (Self, Vec<Effect>))
        ensures
            initial(started.0@),
            started.1.deep_view() == reload_of("Rust"@),
    {
        let app = TemplateApp::default();
        let work = app.reload();
        (app, work)
    }

    /// The work of a reload for the selected language.
    fn reload(&self) -> (work: Vec<Effect>)
        ensures
            work.deep_view() == reload_of(self@.db.language),
    {
        let mut work: Vec<Effect> = Vec::new();
        work.push(Effect::Load(self.db.load_from_indexeddb()));
        work.push(self.load_filtered_repos_from_idb());
        assert(work.deep_view() =~= reload_of(self@.db.language));
        work
    }

    /// The search of the selected language's partition with an empty query,
    /// which finds every record of the language.
    pub fn load_filtered_repos_from_idb(&self) -> (work: Effect)
        ensures
            work@ == EffectView::Filter(
                FilterRequestView { language: self@.db.language, query: ""@ },
            ),
    {
        Effect::Filter(FilterRequest { language: self.db.get_language(), query: String::from_str("") })
    }

    /// The state of the operation state machine.
    pub fn loading_state(&self) -> (state: &LoadingState)
        ensures
            state@ == self@.loading_state,
    {
        &self.loading_state
    }

    /// True when no operation is in flight. The controls that issue a
    /// command are to be enabled exactly then.
    pub fn is_idle(&self) -> (idle: bool)
        ensures
            idle == (self@.loading_state is Idle),
    {
        matches!(self.loading_state, LoadingState::Idle)
    }

    /// The message of the progress overlay, shown while an operation is
    /// loading or finishing.
    pub fn progress_message(&self) -> (message: Option<&str>)
        ensures
            match self@.loading_state {
                LoadingStateView::Loading { message: m, .. } => message is Some
                    && message.unwrap()@ == m,
                LoadingStateView::Finishing { message: m } => message is Some
                    && message.unwrap()@ == m,
                _ => message is None,
            },
    {
        match &self.loading_state {
            LoadingState::Loading { message, .. } => Some(message.as_str()),
            LoadingState::Finishing { message } => Some(message.as_str()),
            _ => None,
        }
    }

    /// The notification, if one is shown.
    pub fn toast_message(&self) -> (message: Option<&str>)
        ensures
            match self@.toast {
                Some(n) => message is Some && message.unwrap()@ == n.message,
                None => message is None,
            },
    {
        match &self.toast {
            Some(n) => Some(n.message()),
            None => None,
        }
    }

    /// The data-presence state.
    pub fn app_state(&self) -> (state: &AppState)
        ensures
            state@ == self@.app_state,
    {
        &self.app_state
    }

    /// The selected language.
    pub fn language(&self) -> (language: String)
        ensures
            language@ == self@.db.language,
    {
        self.db.get_language()
    }

    /// The repository set.
    pub fn db(&self) -> (db: &GithubDb)
        ensures
            db@ == self@.db,
    {
        &self.db
    }

    /// The displayed records; `None` until a search has finished.
    pub fn filtered_repos(&self) -> (records: &Option<Vec<Repository>>)
        ensures
            optional_views(*records) == self@.filtered_repos,
    {
        &self.filtered_repos
    }

    /// The displayed records with the state they imply.
    pub fn waffle_state(&self) -> (state: &WaffleState)
        ensures
            state@ == self@.waffle_state,
    {
        &self.waffle_state
    }

    /// The signed-in user.
    pub fn user(&self) -> (user: &User)
        ensures
            *user == self@.user,
    {
        &self.user
    }

    /// True when the prompt that asks for a first sync is to be shown:
    /// there is no data and the prompt was not dismissed.
    pub fn shows_welcome(&self) -> (shown: bool)
        ensures
            shown == (self@.app_state == AppStateView::Empty && self@.show_welcome),
    {
        matches!(self.app_state, AppState::Empty) && self.show_welcome
    }

    /// True when the sign-in window is to be shown: it was opened and
    /// nobody is signed in.
    pub fn shows_auth_window(&self) -> (shown: bool)
        ensures
            shown == (!self@.user.is_authenticated && self@.show_auth_window),
    {
        !self.user.is_logged_in() && self.show_auth_window
    }
}

/// The controller after a command that starts an operation: accepted only
/// while no operation is in flight, and then the operation is loading.
pub open spec fn admitted(
    s: TemplateAppView,
    kind: LoadingKind,
    message: Seq<char>,
    pending_language: Option<Seq<char>>,
) -> TemplateAppView {
    if s.loading_state is Idle {
        TemplateAppView {
            loading_state: LoadingStateView::Loading { kind, message, pending_language },
            ..s
        }
    } else {
        s
    }
}

/// Admission control: while an operation is in flight, a command that
/// would start another changes nothing.
pub proof fn lemma_busy_rejects(
    s: TemplateAppView,
    kind: LoadingKind,
    message: Seq<char>,
    pending_language: Option<Seq<char>>,
)
    requires
        !(s.loading_state is Idle),
    ensures
        admitted(s, kind, message, pending_language) == s,
{
}

/// While no operation is in flight a step changes nothing and dispatches
/// nothing.
pub proof fn lemma_idle_step_is_quiet(s: TemplateAppView)
    requires
        s.loading_state is Idle,
    ensures
        stepped(s) == s,
        dispatched(s).len() == 0,
{
}

/// Every cycle ends: whatever the state of the machine, it is idle after
/// two steps in which no command is accepted and no fetch fails.
pub proof fn lemma_cycle_ends(s: TemplateAppView)
    ensures
        stepped(stepped(s)).loading_state is Idle,
{
}

/// A step dispatches the work of an operation once: the step that follows
/// the dispatch of a loading operation asks only for the data-presence
/// check, and the one after that for nothing.
pub proof fn lemma_work_is_dispatched_once(s: TemplateAppView)
    requires
        s.loading_state is Loading,
    ensures
        dispatched(stepped(s)) == seq![
            EffectView::CheckPresence(snapshot_of(stepped(s).db.language)),
        ],
        dispatched(stepped(stepped(s))).len() == 0,
{
}

/// The message of the progress overlay once the work of an operation has
/// been dispatched.
pub open spec fn finishing_message(kind: LoadingKind) -> Seq<char> {
    match kind {
        LoadingKind::LanguageSwitch => "Finishing language switch..."@,
        LoadingKind::Sync => "Finishing sync..."@,
        LoadingKind::ClearCache => "Finishing cache clear..."@,
    }
}

/// The controller after `elapsed` microseconds have passed: the
/// notification has aged.
pub open spec fn aged(s: TemplateAppView, elapsed: nat) -> TemplateAppView {
    TemplateAppView { toast: advanced(s.toast, elapsed), ..s }
}

/// The controller after one step of the operation state machine.
pub open spec fn stepped(s: TemplateAppView) -> TemplateAppView {
    match s.loading_state {
        LoadingStateView::Idle => s,
        LoadingStateView::Loading { kind, message, pending_language } => TemplateAppView {
            db: match kind {
                LoadingKind::LanguageSwitch => match pending_language {
                    Some(language) => GithubDbView { language, ..s.db },
                    None => s.db,
                },
                LoadingKind::Sync => GithubDbView { is_loading: true, ..s.db },
                LoadingKind::ClearCache => s.db,
            },
            loading_state: LoadingStateView::Finishing { message: finishing_message(kind) },
            ..s
        },
        LoadingStateView::Finishing { message } => TemplateAppView {
            loading_state: LoadingStateView::Idle,
            toast: match s.app_state {
                AppStateView::Normal => Some(fresh("Repositories synced!"@)),
                AppStateView::Empty => Some(fresh("No repositories found. Please sync again."@)),
                _ => s.toast,
            },
            ..s
        },
        LoadingStateView::Error(reason) => TemplateAppView {
            loading_state: LoadingStateView::Idle,
            toast: Some(fresh("Error: "@ + reason)),
            ..s
        },
    }
}

/// The work that one step of the operation state machine hands to the
/// host.
pub open spec fn dispatched(s: TemplateAppView) -> Seq<EffectView> {
    match s.loading_state {
        LoadingStateView::Loading { kind, message, pending_language } => match kind {
            LoadingKind::LanguageSwitch => match pending_language {
                Some(language) => reload_of(language),
                None => Seq::empty(),
            },
            LoadingKind::Sync => seq![EffectView::Fetch(search_request_of(s.db.language))],
            LoadingKind::ClearCache => seq![EffectView::Delete(snapshot_of(s.db.language))],
        },
        LoadingStateView::Finishing { message } => seq![
            EffectView::CheckPresence(snapshot_of(s.db.language)),
        ],
        _ => Seq::empty(),
    }
}

/// The controller after the data-presence state that waited is applied.
pub open spec fn applied(s: TemplateAppView) -> TemplateAppView {
    match s.pending_app_state {
        Some(state) => TemplateAppView { app_state: state, pending_app_state: None, ..s },
        None => s,
    }
}

/// The state that a list of records implies for the display.
pub open spec fn shown_state(found: Seq<RepositoryView>) -> AppStateView {
    if found.len() == 0 {
        AppStateView::Empty
    } else {
        AppStateView::Ready
    }
}

/// The data-presence state that a displayed list of records implies:
/// there is data exactly when the list holds a record.
pub open spec fn presence_shown(found: Seq<RepositoryView>) -> AppStateView {
    if found.len() == 0 {
        AppStateView::Empty
    } else {
        AppStateView::Normal
    }
}

/// The controller after the slot for the latest search result is read: a
/// result that waits there is taken out and displayed, the search stops
/// loading, and the data-presence state follows the display.
pub open spec fn absorbed(s: TemplateAppView) -> TemplateAppView {
    match s.results_slot {
        Some(found) => TemplateAppView {
            search_widget: SearchWidgetView { results: found, loading: false, ..s.search_widget },
            results_slot: None,
            waffle_state: WaffleStateView {
                app_state: shown_state(found),
                filtered_repos: found,
                ..s.waffle_state
            },
            filtered_repos: Some(found),
            filter_loading: false,
            app_state: presence_shown(found),
            ..s
        },
        None => s,
    }
}

/// The controller after one frame.
pub open spec fn updated(s: TemplateAppView, elapsed: nat) -> TemplateAppView {
    absorbed(applied(stepped(aged(s, elapsed))))
}

impl TemplateApp {
    /// Takes a command that starts an operation.
    fn begin(&mut self, kind: LoadingKind, message: String, pending_language: Option<String>) -> (accepted:
        bool)
        ensures
            accepted == (old(self)@.loading_state is Idle),
            final(self)@ == admitted(old(self)@, kind, message@, pending_language.deep_view()),
    {
        if matches!(self.loading_state, LoadingState::Idle) {
            self.loading_state = LoadingState::Loading { kind, message, pending_language };
            true
        } else {
            false
        }
    }

    /// The command to switch to another language. Accepted only while no
    /// operation is in flight; otherwise nothing changes.
    pub fn select_language(&mut self, language: &str) -> (accepted: bool)
        ensures
            accepted == (old(self)@.loading_state is Idle),
            final(self)@ == admitted(
                old(self)@,
                LoadingKind::LanguageSwitch,
                "Switching to "@ + language@ + "..."@,
                Some(language@),
            ),
    {
        let message = joined("Switching to ", language).concat("...");
        self.begin(LoadingKind::LanguageSwitch, message, Some(String::from_str(language)))
    }

    /// The command to sync the selected language. Accepted only while no
    /// operation is in flight; otherwise nothing changes.
    pub fn start_sync(&mut self) -> (accepted: bool)
        ensures
            accepted == (old(self)@.loading_state is Idle),
            final(self)@ == admitted(
                old(self)@,
                LoadingKind::Sync,
                "Syncing repositories..."@,
                None,
            ),
    {
        self.begin(LoadingKind::Sync, String::from_str("Syncing repositories..."), None)
    }

    /// The command to clear the cache of the selected language. Accepted
    /// only while no operation is in flight; otherwise nothing changes.
    pub fn start_clear_cache(&mut self) -> (accepted: bool)
        ensures
            accepted == (old(self)@.loading_state is Idle),
            final(self)@ == admitted(
                old(self)@,
                LoadingKind::ClearCache,
                "Clearing cache..."@,
                None,
            ),
    {
        self.begin(LoadingKind::ClearCache, String::from_str("Clearing cache..."), None)
    }

    /// The command to dismiss the notification.
    pub fn dismiss_notification(&mut self)
        ensures
            final(self)@ == (TemplateAppView { toast: None, ..old(self)@ }),
    {
        self.toast = None;
    }

    /// Lets `elapsed` microseconds pass: the notification ages, and is
    /// gone once its time is used up.
    pub fn advance_notification(&mut self, elapsed: u64)
        ensures
            final(self)@ == aged(old(self)@, elapsed as nat),
    {
        let current = self.toast.take();
        self.toast = match current {
            Some(n) => n.advance(elapsed),
            None => None,
        };
    }

    /// Shows a notification in place of the one that is shown, with the
    /// full time to stay.
    fn notify(&mut self, message: String)
        ensures
            final(self)@ == (TemplateAppView { toast: Some(fresh(message@)), ..old(self)@ }),
    {
        self.toast = Some(Notification::new(message));
    }

    /// One step of the operation state machine. A loading operation has
    /// its work dispatched and is then finishing. A finishing operation has
    /// the data-presence check dispatched, notifies by the data-presence
    /// state as it is now, and the machine is idle. A failure is notified,
    /// and the machine is idle.
    pub fn step(&mut self) -> (work: Vec<Effect>)
        ensures
            final(self)@ == stepped(old(self)@),
            work.deep_view() == dispatched(old(self)@),
    {
        let mut current = LoadingState::Idle;
        core::mem::swap(&mut self.loading_state, &mut current);
        let mut work: Vec<Effect> = Vec::new();
        assert(work.deep_view() =~= Seq::<EffectView>::empty());
        match current {
            LoadingState::Idle => {},
            LoadingState::Loading { kind, message: _, pending_language } => {
                match kind {
                    LoadingKind::LanguageSwitch => {
                        match pending_language {
                            Some(language) => {
                                self.db.set_language(language.as_str());
                                work = self.reload();
                            },
                            None => {},
                        }
                        self.loading_state = LoadingState::Finishing {
                            message: String::from_str("Finishing language switch..."),
                        };
                    },
                    LoadingKind::Sync => {
                        let request = self.db.sync_and_store();
                        work.push(Effect::Fetch(request));
                        assert(work.deep_view() =~= seq![
                            EffectView::Fetch(search_request_of(old(self)@.db.language)),
                        ]);
                        self.loading_state = LoadingState::Finishing {
                            message: String::from_str("Finishing sync..."),
                        };
                    },
                    LoadingKind::ClearCache => {
                        let place = self.db.clear_indexeddb();
                        work.push(Effect::Delete(place));
                        assert(work.deep_view() =~= seq![
                            EffectView::Delete(snapshot_of(old(self)@.db.language)),
                        ]);
                        self.loading_state = LoadingState::Finishing {
                            message: String::from_str("Finishing cache clear..."),
                        };
                    },
                }
            },
            LoadingState::Finishing { message: _ } => {
                let place = self.db.snapshot();
                work.push(Effect::CheckPresence(place));
                assert(work.deep_view() =~= seq![
                    EffectView::CheckPresence(snapshot_of(old(self)@.db.language)),
                ]);
                match self.app_state {
                    AppState::Normal => {
                        self.notify(String::from_str("Repositories synced!"));
                    },
                    AppState::Empty => {
                        self.notify(String::from_str("No repositories found. Please sync again."));
                    },
                    _ => {},
                }
            },
            LoadingState::Error(reason) => {
                self.notify(joined("Error: ", reason.as_str()));
            },
        }
        work
    }

    /// Applies the data-presence state that waits, if one does.
    pub fn apply_pending_state(&mut self)
        ensures
            final(self)@ == applied(old(self)@),
    {
        match self.pending_app_state.take() {
            Some(state) => {
                self.app_state = state;
            },
            None => {},
        }
    }

    /// Reads the slot for the latest search result. A result that waits
    /// there is taken out and displayed, the search stops loading, and the
    /// data-presence state follows the display: no data for an empty list,
    /// data for any other.
    pub fn absorb_results(&mut self)
        ensures
            final(self)@ == absorbed(old(self)@),
    {
        let slot = self.results_slot.take();
        self.search_widget.update_results_from_ctx(&slot);
        match slot {
            Some(found) => {
                self.app_state = if found.len() == 0 {
                    AppState::Empty
                } else {
                    AppState::Normal
                };
                self.filtered_repos = Some(copy_records(&found));
                self.waffle_state.set_ready(found);
                self.filter_loading = false;
            },
            None => {},
        }
    }

    /// One frame: `elapsed` microseconds pass, the operation state machine
    /// takes one step, the data-presence state that waits is applied, and
    /// the slot for the latest search result is read. Hands back the work
    /// that the step dispatched.
    pub fn update(&mut self, elapsed: u64) -> (work: Vec<Effect>)
        ensures
            final(self)@ == updated(old(self)@, elapsed as nat),
            work.deep_view() == dispatched(old(self)@),
    {
        self.advance_notification(elapsed);
        let work = self.step();
        self.apply_pending_state();
        self.absorb_results();
        work
    }
}

/// What the answer to a data-presence check says: there is data when a
/// snapshot is stored and holds a record, and none in every other case, a
/// failure of the cache included.
pub open spec fn presence_of(answer: Result<Option<Vec<Repository>>, CacheFailure>) -> AppStateView {
    match answer {
        Ok(Some(records)) => if records@.len() == 0 {
            AppStateView::Empty
        } else {
            AppStateView::Normal
        },
        _ => AppStateView::Empty,
    }
}

/// What the answer to a search puts in the slot: the records found, or
/// none where the cache failed.
pub open spec fn slot_of(answer: Result<Vec<Repository>, CacheFailure>) -> Seq<RepositoryView> {
    match answer {
        Ok(found) => views(found@),
        Err(_) => Seq::empty(),
    }
}

/// The controller after the host has reported a completion.
pub open spec fn completed(s: TemplateAppView, completion: Completion) -> TemplateAppView {
    match completion {
        Completion::Fetched(outcome) => TemplateAppView {
            db: fetched(s.db, outcome),
            loading_state: match fetch_failure_of(outcome) {
                Some(reason) => LoadingStateView::Error(reason),
                None => s.loading_state,
            },
            ..s
        },
        Completion::Stored(answer) => TemplateAppView {
            db: recorded(s.db, "store in"@, answer),
            ..s
        },
        Completion::Deleted(answer) => TemplateAppView {
            db: recorded(s.db, "clear"@, answer),
            ..s
        },
        Completion::Loaded(answer) => TemplateAppView { db: loaded(s.db, answer), ..s },
        Completion::Filtered(answer) => TemplateAppView {
            results_slot: Some(slot_of(answer)),
            ..s
        },
        Completion::PresenceChecked(answer) => TemplateAppView {
            pending_app_state: Some(presence_of(answer)),
            ..s
        },
    }
}

/// The work that follows a completion: after a fetch that gave records,
/// the storing of its licensed records as the snapshot of the selected
/// language; after a store or a delete, a reload; else nothing.
pub open spec fn followed(s: TemplateAppView, completion: Completion) -> Seq<EffectView> {
    match completion {
        Completion::Fetched(outcome) => match written(
            outcome,
            s.db.language,
            snapshot_key_of(s.db.language),
        ) {
            Some(write) => seq![EffectView::Store(write)],
            None => Seq::empty(),
        },
        Completion::Stored(_) => reload_of(s.db.language),
        Completion::Deleted(_) => reload_of(s.db.language),
        _ => Seq::empty(),
    }
}

/// The controller after a search for `query` is asked for.
pub open spec fn searching(s: TemplateAppView, query: Seq<char>) -> TemplateAppView {
    TemplateAppView {
        filter_loading: true,
        filtered_repos: None,
        search_widget: SearchWidgetView { query, loading: true, ..s.search_widget },
        ..s
    }
}

impl TemplateApp {
    /// Takes the answer to a data-presence check: the state that it
    /// implies waits to be applied on the next frame.
    pub fn check_empty_and_update_state(
        &mut self,
        answer: &Result<Option<Vec<Repository>>, CacheFailure>,
    )
        ensures
            final(self)@ == (TemplateAppView {
                pending_app_state: Some(presence_of(*answer)),
                ..old(self)@
            }),
    {
        let state = match answer {
            Ok(Some(records)) => if records.len() == 0 {
                AppState::Empty
            } else {
                AppState::Normal
            },
            _ => AppState::Empty,
        };
        self.pending_app_state = Some(state);
    }

    /// Puts the answer to a search in the slot for the latest result, in
    /// place of what waits there. Where the cache failed, the result is
    /// empty.
    pub fn publish_results(&mut self, answer: &Result<Vec<Repository>, CacheFailure>)
        ensures
            final(self)@ == (TemplateAppView {
                results_slot: Some(slot_of(*answer)),
                ..old(self)@
            }),
    {
        let found = match answer {
            Ok(found) => copy_records(found),
            Err(_) => {
                let none: Vec<Repository> = Vec::new();
                assert(views(none@) =~= Seq::<RepositoryView>::empty());
                none
            },
        };
        self.results_slot = Some(found);
    }

    /// Takes the outcome of a fetch. A failure puts the state machine in
    /// its error state with the reason, and nothing is to be stored.
    /// Records that came are stripped of those without a license, and what
    /// is left is to be stored as the snapshot of the selected language.
    fn fetch_returned(&mut self, outcome: &FetchOutcome) -> (work: Vec<Effect>)
        ensures
            final(self)@ == completed(old(self)@, Completion::Fetched(*outcome)),
            work.deep_view() == followed(old(self)@, Completion::Fetched(*outcome)),
    {
        let mut work: Vec<Effect> = Vec::new();
        assert(work.deep_view() =~= Seq::<EffectView>::empty());
        let write = self.db.sync_completed(outcome);
        match fetch_failure(outcome) {
            Some(reason) => {
                self.loading_state = LoadingState::Error(reason);
            },
            None => {},
        }
        match write {
            Some(snapshot) => {
                let ghost shown = snapshot@;
                work.push(Effect::Store(snapshot));
                assert(work.deep_view() =~= seq![EffectView::Store(shown)]);
            },
            None => {},
        }
        work
    }

    /// Takes what the host reports of work that it has performed, and
    /// hands back the work that follows.
    pub fn complete(&mut self, completion: &Completion) -> (work: Vec<Effect>)
        ensures
            final(self)@ == completed(old(self)@, *completion),
            work.deep_view() == followed(old(self)@, *completion),
    {
        match completion {
            Completion::Fetched(outcome) => self.fetch_returned(outcome),
            Completion::Stored(answer) => {
                self.db.store_completed(answer);
                self.reload()
            },
            Completion::Deleted(answer) => {
                self.db.clear_completed(answer);
                self.reload()
            },
            Completion::Loaded(answer) => {
                self.db.load_completed(answer);
                let work: Vec<Effect> = Vec::new();
                assert(work.deep_view() =~= Seq::<EffectView>::empty());
                work
            },
            Completion::Filtered(answer) => {
                self.publish_results(answer);
                let work: Vec<Effect> = Vec::new();
                assert(work.deep_view() =~= Seq::<EffectView>::empty());
                work
            },
            Completion::PresenceChecked(answer) => {
                self.check_empty_and_update_state(answer);
                let work: Vec<Effect> = Vec::new();
                assert(work.deep_view() =~= Seq::<EffectView>::empty());
                work
            },
        }
    }

    /// Asks for a search of the selected language for `query`: nothing is
    /// displayed until the result arrives, and the search field takes the
    /// query and is loading. Hands back the search that the host is to
    /// perform.
    pub fn filter_repos_async(&mut self, query: &str) -> (work: Effect)
        ensures
            final(self)@ == searching(old(self)@, query@),
            work@ == EffectView::Filter(
                FilterRequestView { language: old(self)@.db.language, query: query@ },
            ),
    {
        self.filter_loading = true;
        self.filtered_repos = None;
        let language = self.db.get_language();
        self.search_widget.query = String::from_str(query);
        Effect::Filter(self.search_widget.search(language.as_str()))
    }
}

/// True for the two data-presence states that say whether there is data.
pub open spec fn presence_known(state: AppStateView) -> bool {
    state is Empty || state is Normal
}

/// The data-presence states that a controller goes through: it starts
/// without knowing, and from then on it holds, and waits to apply, only
/// states that say whether there is data.
pub open spec fn presence_kept(s: TemplateAppView) -> bool {
    &&& s.app_state is Init || presence_known(s.app_state)
    &&& s.pending_app_state matches Some(state) ==> presence_known(state)
}

/// A controller at startup holds a lawful data-presence state.
pub proof fn lemma_presence_at_startup(s: TemplateAppView)
    requires
        initial(s),
    ensures
        presence_kept(s),
{
}

/// Every frame, completion and command keeps the data-presence state
/// lawful.
pub proof fn lemma_presence_is_kept(
    s: TemplateAppView,
    elapsed: nat,
    completion: Completion,
    kind: LoadingKind,
    message: Seq<char>,
    pending_language: Option<Seq<char>>,
    query: Seq<char>,
)
    requires
        presence_kept(s),
    ensures
        presence_kept(updated(s, elapsed)),
        presence_kept(completed(s, completion)),
        presence_kept(admitted(s, kind, message, pending_language)),
        presence_kept(searching(s, query)),
{
}

/// The step of a finishing operation notifies whenever the controller
/// knows whether there is data, and by what it knows at that moment.
pub proof fn lemma_finishing_notifies(s: TemplateAppView)
    requires
        s.loading_state is Finishing,
        presence_known(s.app_state),
    ensures
        stepped(s).toast == Some(
            fresh(
                if s.app_state is Normal {
                    "Repositories synced!"@
                } else {
                    "No repositories found. Please sync again."@
                },
            ),
        ),
{
}

/// A frame that reads a result from the slot displays it, and the
/// data-presence state says whether the displayed list holds a record,
/// whatever state waited to be applied.
pub proof fn lemma_frame_displays_result(s: TemplateAppView, elapsed: nat)
    requires
        s.results_slot is Some,
    ensures
        updated(s, elapsed).filtered_repos == s.results_slot,
        updated(s, elapsed).results_slot is None,
        updated(s, elapsed).app_state == presence_shown(s.results_slot.unwrap()),
{
}

impl TemplateApp {
    /// The text of the search field on the side panel.
    pub fn label(&self) -> (text: &str)
        ensures
            text@ == self@.label,
    {
        self.label.as_str()
    }

    /// The text of the search field, for editing.
    pub fn label_mut(&mut self) -> (text: &mut String)
        ensures
            text@ == old(self)@.label,
            final(self)@ == (TemplateAppView { label: final(text)@, ..old(self)@ }),
    {
        &mut self.label
    }

    /// The sign-in form.
    pub fn auth_widget(&self) -> (form: &AuthWidget)
        ensures
            *form == self@.auth_widget,
    {
        &self.auth_widget
    }

    /// The sign-in form, for editing.
    pub fn auth_widget_mut(&mut self) -> (form: &mut AuthWidget)
        ensures
            *form == old(self)@.auth_widget,
            final(self)@ == (TemplateAppView { auth_widget: *final(form), ..old(self)@ }),
    {
        &mut self.auth_widget
    }

    /// Opens the sign-in window on the given view of the form.
    pub fn open_auth_window(&mut self, view: AuthView)
        ensures
            final(self)@ == (TemplateAppView {
                auth_widget: AuthWidget { view, ..old(self)@.auth_widget },
                show_auth_window: true,
                ..old(self)@
            }),
    {
        self.auth_widget.view = view;
        self.show_auth_window = true;
    }

    /// Closes the sign-in window.
    pub fn close_auth_window(&mut self)
        ensures
            final(self)@ == (TemplateAppView { show_auth_window: false, ..old(self)@ }),
    {
        self.show_auth_window = false;
    }

    /// Dismisses the prompt that asks for a first sync, for good.
    pub fn dismiss_welcome(&mut self)
        ensures
            final(self)@ == (TemplateAppView { show_welcome: false, ..old(self)@ }),
    {
        self.show_welcome = false;
    }

    /// Signs the user out: the user is forgotten, a notification says so,
    /// and the request to the hosting page is handed back.
    pub fn logout(&mut self) -> (message: ActionMessage)
        ensures
            final(self)@ == (TemplateAppView {
                user: User { id: None, email: None, username: None, is_authenticated: false },
                toast: Some(fresh("Sent logout request to JS"@)),
                ..old(self)@
            }),
            carries(message, "logout"@, ""@, ""@, ""@),
    {
        self.user = User::new();
        self.notify(String::from_str("Sent logout request to JS"));
        send_action_message("logout", "", "", "")
    }

    /// Takes a user that the hosting page reports: one who is signed in
    /// becomes the user, another is dropped. Says whether the user changed.
    pub fn sign_in(&mut self, new_user: User) -> (changed: bool)
        ensures
            changed == new_user.is_authenticated,
            final(self)@ == if new_user.is_authenticated {
                TemplateAppView { user: new_user, ..old(self)@ }
            } else {
                old(self)@
            },
    {
        if new_user.is_authenticated {
            self.user = new_user;
            true
        } else {
            false
        }
    }
}

} // verus!
