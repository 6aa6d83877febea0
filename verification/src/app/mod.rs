//! The browser itself: what a key press or a finished request does to it.

pub mod actions;
pub mod search;
pub mod state;
pub mod ui;

use crate::app::actions::{
    all_actions, find_in, lemma_all_actions_conflict_free, Action, Actions,
};
use crate::app::state::{next_index, previous_index, AppMode, AppState};
use crate::inputs::key::Key;
use crate::io::{IoEvent, WorkRequest};
use crate::utils::{ImageMode, ImagePath};
use vstd::prelude::*;

verus! {

/// Whether the input loop goes on.
#[derive(Debug, Clone, Copy, PartialEq, Eq, Structural)]
pub enum AppReturn {
    Exit,
    Continue,
}

/// Settings fixed at start.
#[derive(Debug, Clone, Copy, PartialEq, Eq, Structural)]
pub struct AppConfig {
    pub image_mode: ImageMode,
}

/// What the picture pane shows.
#[derive(Debug, Clone, Copy, PartialEq, Eq, Structural)]
pub enum Pane {
    /// The placeholder for a load in flight.
    Loading,
    /// The picture rendered last, or nothing if there is none.
    Image,
}

/// The browser: the live actions, the loading flag, the browse state and the
/// settings.
#[derive(Debug)]
pub struct App {
    actions: Actions,
    is_loading: bool,
    pub state: AppState,
    pub config: AppConfig,
}

impl App {
    /// The live actions.
    pub closed spec fn spec_actions(self) -> Seq<Action> {
        self.actions@
    }

    /// Whether a request is in flight.
    pub closed spec fn spec_loading(self) -> bool {
        self.is_loading
    }

    /// The browse state.
    pub closed spec fn spec_state(self) -> AppState {
        self.state
    }

    /// The settings.
    pub closed spec fn spec_config(self) -> AppConfig {
        self.config
    }

    /// Whether the two browsers differ in nothing but the browse state.
    pub open spec fn same_but_state(self, other: App) -> bool {
        self.spec_actions() == other.spec_actions() && self.spec_loading() == other.spec_loading()
            && self.spec_config() == other.spec_config()
    }

    /// The request that loads the selected candidate: there is one once a
    /// candidate is selected and the picture area is known.
    pub open spec fn spec_request(self) -> Option<WorkRequest> {
        match (self.spec_state().spec_index(), self.spec_state().spec_term_size()) {
            (Some(index), Some(term_size)) => if index < self.spec_state().spec_paths().len() {
                Some(WorkRequest { path: self.spec_state().spec_paths()[index as int], term_size })
            } else {
                None
            },
            _ => None,
        }
    }

    /// A browser before its directory is listed: nothing but quitting is
    /// live, nothing is loading.
    pub fn new(image_mode: ImageMode) -> (app: App)
        ensures
            app.spec_actions() == seq![Action::Quit],
            !app.spec_loading(),
            app.spec_state() is Init,
            app.spec_config() == (AppConfig { image_mode }),
    {
        let list = vec![Action::Quit];
        assert(list@ =~= seq![Action::Quit]);
        App {
            actions: Actions::from(list),
            is_loading: false,
            state: AppState::Init,
            config: AppConfig { image_mode },
        }
    }

    /// The live actions.
    pub fn actions(&self) -> (actions: &Actions)
        ensures
            actions@ == self.spec_actions(),
    {
        &self.actions
    }

    /// The browse state.
    pub fn state(&self) -> (state: &AppState)
        ensures
            *state == self.spec_state(),
    {
        &self.state
    }

    /// Whether a request is in flight.
    pub fn is_loading(&self) -> (loading: bool)
        ensures
            loading == self.spec_loading(),
    {
        self.is_loading
    }

    /// Starts browsing the listed candidates: every action is live, the first
    /// candidate is selected.
    pub fn initialized(&mut self, paths: Vec<ImagePath>)
        ensures
            final(self).spec_actions() == all_actions(),
            final(self).spec_loading() == old(self).spec_loading(),
            final(self).spec_config() == old(self).spec_config(),
            final(self).spec_state().fresh(paths@),
            final(self).spec_state().wf(),
    {
        proof {
            lemma_all_actions_conflict_free();
        }
        self.actions = Actions::from(Action::iterator());
        self.state = AppState::initialized(paths);
    }

    /// Marks the request in flight as finished, however it ended.
    pub fn loaded(&mut self)
        ensures
            !final(self).spec_loading(),
            final(self).spec_actions() == old(self).spec_actions(),
            final(self).spec_config() == old(self).spec_config(),
            final(self).spec_state() == old(self).spec_state(),
    {
        self.is_loading = false;
    }

    /// Marks a request as in flight and hands it back for queueing. The flag
    /// is set before the request is queued; the worker clears it.
    pub fn dispatch(&mut self, action: IoEvent) -> (queued: IoEvent)
        ensures
            queued == action,
            final(self).spec_loading(),
            final(self).spec_actions() == old(self).spec_actions(),
            final(self).spec_config() == old(self).spec_config(),
            final(self).spec_state() == old(self).spec_state(),
    {
        self.is_loading = true;
        action
    }

    /// Takes note that a request could not be queued: nothing is in flight.
    pub fn dispatch_failed(&mut self)
        ensures
            !final(self).spec_loading(),
            final(self).spec_actions() == old(self).spec_actions(),
            final(self).spec_config() == old(self).spec_config(),
            final(self).spec_state() == old(self).spec_state(),
    {
        self.is_loading = false;
    }

    /// What a tick of the redraw timer does: nothing but go on.
    pub fn update_on_tick(&mut self) -> (status: AppReturn)
        ensures
            status == AppReturn::Continue,
            *final(self) == *old(self),
    {
        AppReturn::Continue
    }

    /// What the picture pane shows: the loading placeholder while a request
    /// is in flight and a picture was rendered before, else the picture.
    pub fn image_pane(&self) -> (pane: Pane)
        ensures
            pane == if self.spec_loading() && self.spec_state().spec_image() is Some {
                Pane::Loading
            } else {
                Pane::Image
            },
    {
        let rendered = match &self.state {
            AppState::Initialized { current_image: Some(_), .. } => true,
            _ => false,
        };
        if self.is_loading && rendered {
            Pane::Loading
        } else {
            Pane::Image
        }
    }

    /// The browse state, to change it.
    pub fn state_mut(&mut self) -> (state: &mut AppState)
        ensures
            *state == old(self).spec_state(),
            final(self).spec_state() == *final(state),
            final(self).same_but_state(*old(self)),
    {
        &mut self.state
    }

    /// The request that loads the selected candidate, if one is selected and
    /// the picture area is known.
    pub fn work_request(&self) -> (request: Option<WorkRequest>)
        ensures
            request == self.spec_request(),
    {
        match (self.state.get_index(), self.state.get_term_size()) {
            (Some(index), Some(term_size)) => match self.state.get_path(index) {
                Some(path) => Some(WorkRequest { path, term_size }),
                None => None,
            },
            _ => None,
        }
    }
}

/// What a key press does while keys browse: the action that the key is bound
/// to among the live ones decides. Quitting ends the loop; moving selects the
/// next or previous candidate, around the ends; showing asks the worker for
/// the selected picture, if there is one to ask for, and is then in flight;
/// searching switches the mode. A key without a live action does nothing.
pub open spec fn browse_step(
    pre: App,
    key: Key,
    post: App,
    status: AppReturn,
    request: Option<IoEvent>,
) -> bool {
    let len = pre.spec_state().spec_paths().len() as int;
    &&& post.spec_actions() == pre.spec_actions()
    &&& post.spec_config() == pre.spec_config()
    &&& match find_in(pre.spec_actions(), key) {
        Some(Action::Quit) => {
            &&& status == AppReturn::Exit
            &&& request is None
            &&& post.spec_loading() == pre.spec_loading()
            &&& post.spec_state() == pre.spec_state()
        },
        Some(Action::Increment) => {
            &&& status == AppReturn::Continue
            &&& request is None
            &&& post.spec_loading() == pre.spec_loading()
            &&& post.spec_state().same_but_index(pre.spec_state())
            &&& pre.spec_state().spec_index() matches Some(index) ==> post.spec_state().selects(
                next_index(index as int, len),
            )
        },
        Some(Action::Decrement) => {
            &&& status == AppReturn::Continue
            &&& request is None
            &&& post.spec_loading() == pre.spec_loading()
            &&& post.spec_state().same_but_index(pre.spec_state())
            &&& pre.spec_state().spec_index() matches Some(index) ==> post.spec_state().selects(
                previous_index(index as int, len),
            )
        },
        Some(Action::Show) => {
            &&& status == AppReturn::Continue
            &&& post.spec_state() == pre.spec_state()
            &&& match pre.spec_request() {
                Some(wanted) => request == Some(IoEvent::LoadImage(wanted)) && post.spec_loading(),
                None => request is None && post.spec_loading() == pre.spec_loading(),
            }
        },
        Some(Action::Search) => {
            &&& status == AppReturn::Continue
            &&& request is None
            &&& post.spec_loading() == pre.spec_loading()
            &&& post.spec_state().same_but_search(pre.spec_state())
            &&& post.spec_state().spec_search_term() == pre.spec_state().spec_search_term()
            &&& post.spec_state().spec_mode() == if pre.spec_state() is Initialized {
                AppMode::Search
            } else {
                AppMode::Normal
            }
        },
        None => {
            &&& status == AppReturn::Continue
            &&& request is None
            &&& post.spec_loading() == pre.spec_loading()
            &&& post.spec_state() == pre.spec_state()
        },
    }
}

/// The search term after a key press in search mode: backspace takes the
/// last character off, escape empties the term, enter keeps it, a character
/// key adds its character, and any other key changes nothing.
pub open spec fn typed_term(term: Seq<char>, key: Key) -> Seq<char> {
    match key {
        Key::Backspace => if term.len() == 0 {
            term
        } else {
            term.drop_last()
        },
        Key::Esc => Seq::empty(),
        Key::Enter => term,
        Key::Char(c) => term.push(c),
        _ => term,
    }
}

/// The mode after a key press in search mode: escape and enter go back to
/// browsing.
pub open spec fn typed_mode(key: Key) -> AppMode {
    match key {
        Key::Esc | Key::Enter => AppMode::Normal,
        _ => AppMode::Search,
    }
}

/// What a key press does while keys edit the search term: only the term and
/// the mode can change, and the loop goes on.
pub open spec fn search_step(
    pre: App,
    key: Key,
    post: App,
    status: AppReturn,
    request: Option<IoEvent>,
) -> bool {
    &&& status == AppReturn::Continue
    &&& request is None
    &&& post.same_but_state(pre)
    &&& post.spec_state().same_but_search(pre.spec_state())
    &&& post.spec_state().spec_search_term() == typed_term(
        pre.spec_state().spec_search_term(),
        key,
    )
    &&& post.spec_state().spec_mode() == typed_mode(key)
}

impl App {
    /// Reacts to a key press. The result says whether the loop goes on and
    /// which request, if any, is to be queued for the worker.
    pub fn do_action(&mut self, key: Key) -> (reaction: (AppReturn, Option<IoEvent>))
        ensures
            old(self).spec_state().spec_mode() == AppMode::Normal ==> browse_step(
                *old(self),
                key,
                *final(self),
                reaction.0,
                reaction.1,
            ),
            old(self).spec_state().spec_mode() == AppMode::Search ==> search_step(
                *old(self),
                key,
                *final(self),
                reaction.0,
                reaction.1,
            ),
            old(self).spec_state().wf() ==> final(self).spec_state().wf(),
    {
        match self.state.get_app_mode() {
            AppMode::Normal => match self.actions.find(key) {
                Some(Action::Quit) => (AppReturn::Exit, None),
                Some(Action::Increment) => {
                    self.state.increment_index();
                    (AppReturn::Continue, None)
                },
                Some(Action::Decrement) => {
                    self.state.decrement_index();
                    (AppReturn::Continue, None)
                },
                Some(Action::Show) => match self.work_request() {
                    Some(wanted) => {
                        let queued = self.dispatch(IoEvent::LoadImage(wanted));
                        (AppReturn::Continue, Some(queued))
                    },
                    None => (AppReturn::Continue, None),
                },
                Some(Action::Search) => {
                    self.state.enter_search();
                    (AppReturn::Continue, None)
                },
                None => (AppReturn::Continue, None),
            },
            AppMode::Search => {
                match key {
                    Key::Backspace => self.state.backspace_search(),
                    Key::Esc => self.state.exit_search(),
                    Key::Enter => self.state.set_app_mode(AppMode::Normal),
                    other => match other.key_char() {
                        Some(c) => self.state.append_search_char(c),
                        None => {},
                    },
                }
                (AppReturn::Continue, None)
            },
        }
    }
}

} // verus!
