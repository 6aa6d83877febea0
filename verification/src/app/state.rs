//! The browse state: the candidate pictures, the selection, the search and
//! the picture rendered last.

use crate::app::search::{
    check_names, filter_paths, kept_by, names_within_limit, within_match_limit, MATCH_LIMIT,
};
use crate::image::{duplicate_grid, grid_rows, Cell};
use crate::utils::{duplicate_paths, pop_char, push_char, ImagePath};
use vstd::prelude::*;

verus! {

/// Whether keys browse or edit the search term.
#[derive(Debug, Clone, Copy, PartialEq, Eq, Structural)]
pub enum AppMode {
    Normal,
    Search,
}

/// The area, in cells, that a picture may fill.
#[derive(Debug, Clone, Copy, PartialEq, Eq, Structural)]
pub struct TermSize {
    pub width: u32,
    pub height: u32,
}

/// What is shown about the rendered picture.
#[derive(Debug)]
pub struct ImageInfo {
    /// The file name.
    pub name: String,
    /// The file size in bytes.
    pub size: u64,
    /// Width and height in pixels.
    pub dimensions: (u32, u32),
}

impl ImageInfo {
    /// A copy of this record.
    pub fn duplicate(&self) -> (copy: ImageInfo)
        ensures
            copy == *self,
    {
        ImageInfo { name: self.name.clone(), size: self.size, dimensions: self.dimensions }
    }
}

/// The browse state. Nothing but `initialized` leaves `Init`, and every
/// mutator leaves `Init` as it is.
#[derive(Debug)]
pub enum AppState {
    /// No directory has been listed yet.
    Init,
    /// A directory has been listed.
    Initialized {
        /// The candidate pictures, in listing order.
        paths: Vec<ImagePath>,
        /// The selected candidate.
        selected_index: usize,
        /// The picture area of the last redraw.
        term_size: Option<TermSize>,
        /// The cells of the picture rendered last.
        current_image: Option<Vec<Vec<Cell>>>,
        /// What is known about that picture.
        current_image_info: Option<ImageInfo>,
        /// The text typed in search mode.
        search_term: String,
        /// Whether keys browse or search.
        app_mode: AppMode,
    },
}

/// The index after `index` among `len` entries, the last one followed by the
/// first.
pub open spec fn next_index(index: int, len: int) -> int {
    if index + 1 >= len {
        0
    } else {
        index + 1
    }
}

/// The index before `index` among `len` entries, the first one preceded by
/// the last.
pub open spec fn previous_index(index: int, len: int) -> int {
    if len == 0 {
        index
    } else if index == 0 {
        len - 1
    } else {
        index - 1
    }
}

/// Among `len` candidates, stepping forward from a candidate and back again
/// ends where it began, and so does stepping back and forward; from the last
/// candidate forward is the first, from the first back is the last.
pub proof fn lemma_steps_wrap_around(index: int, len: int)
    requires
        0 <= index < len,
    ensures
        0 <= next_index(index, len) < len,
        0 <= previous_index(index, len) < len,
        previous_index(next_index(index, len), len) == index,
        next_index(previous_index(index, len), len) == index,
        next_index(len - 1, len) == 0,
        previous_index(0, len) == len - 1,
{
}

impl AppState {
    /// The candidates; none before initialization.
    pub open spec fn spec_paths(self) -> Seq<ImagePath> {
        match self {
            AppState::Initialized { paths, .. } => paths@,
            AppState::Init => Seq::empty(),
        }
    }

    /// The selected index, once initialized.
    pub open spec fn spec_index(self) -> Option<usize> {
        match self {
            AppState::Initialized { selected_index, .. } => Some(selected_index),
            AppState::Init => None,
        }
    }

    /// Whether the state is initialized and `index` is selected.
    pub open spec fn selects(self, index: int) -> bool {
        self.spec_index() matches Some(selected) && selected == index
    }

    /// The picture area of the last redraw.
    pub open spec fn spec_term_size(self) -> Option<TermSize> {
        match self {
            AppState::Initialized { term_size, .. } => term_size,
            AppState::Init => None,
        }
    }

    /// The rows of the picture rendered last.
    pub open spec fn spec_image(self) -> Option<Seq<Seq<Cell>>> {
        match self {
            AppState::Initialized { current_image: Some(grid), .. } => Some(grid_rows(grid@)),
            _ => None,
        }
    }

    /// What is known about the picture rendered last.
    pub open spec fn spec_image_info(self) -> Option<ImageInfo> {
        match self {
            AppState::Initialized { current_image_info, .. } => current_image_info,
            AppState::Init => None,
        }
    }

    /// The search term; empty before initialization.
    pub open spec fn spec_search_term(self) -> Seq<char> {
        match self {
            AppState::Initialized { search_term, .. } => search_term@,
            AppState::Init => Seq::empty(),
        }
    }

    /// The mode; `Normal` before initialization.
    pub open spec fn spec_mode(self) -> AppMode {
        match self {
            AppState::Initialized { app_mode, .. } => app_mode,
            AppState::Init => AppMode::Normal,
        }
    }

    /// The selection points at a candidate, or there is none and it is zero.
    pub open spec fn wf(self) -> bool {
        match self {
            AppState::Initialized { paths, selected_index, .. } => {
                selected_index < paths@.len() || (paths@.len() == 0 && selected_index == 0)
            },
            AppState::Init => true,
        }
    }

    /// Whether this is the state right after `paths` were listed: the first
    /// candidate selected, no picture area, nothing rendered, no search.
    pub open spec fn fresh(self, paths: Seq<ImagePath>) -> bool {
        &&& self is Initialized
        &&& self.spec_paths() == paths
        &&& self.spec_index() == Some(0usize)
        &&& self.spec_term_size() is None
        &&& self.spec_image() is None
        &&& self.spec_image_info() is None
        &&& self.spec_search_term() == Seq::<char>::empty()
        &&& self.spec_mode() == AppMode::Normal
    }

    /// Whether the two states differ in nothing but the selection.
    pub open spec fn same_but_index(self, other: AppState) -> bool {
        match (self, other) {
            (AppState::Init, AppState::Init) => true,
            (
                AppState::Initialized {
                    paths: pa,
                    term_size: ta,
                    current_image: ca,
                    current_image_info: ia,
                    search_term: sa,
                    app_mode: ma,
                    ..
                },
                AppState::Initialized {
                    paths: pb,
                    term_size: tb,
                    current_image: cb,
                    current_image_info: ib,
                    search_term: sb,
                    app_mode: mb,
                    ..
                },
            ) => pa == pb && ta == tb && ca == cb && ia == ib && sa == sb && ma == mb,
            _ => false,
        }
    }

    /// Whether the two states differ in nothing but the rendered picture and
    /// what is known about it.
    pub open spec fn same_but_image(self, other: AppState) -> bool {
        match (self, other) {
            (AppState::Init, AppState::Init) => true,
            (
                AppState::Initialized {
                    paths: pa,
                    selected_index: xa,
                    term_size: ta,
                    search_term: sa,
                    app_mode: ma,
                    ..
                },
                AppState::Initialized {
                    paths: pb,
                    selected_index: xb,
                    term_size: tb,
                    search_term: sb,
                    app_mode: mb,
                    ..
                },
            ) => pa == pb && xa == xb && ta == tb && sa == sb && ma == mb,
            _ => false,
        }
    }

    /// Whether the two states differ in nothing but the picture area.
    pub open spec fn same_but_term_size(self, other: AppState) -> bool {
        match (self, other) {
            (AppState::Init, AppState::Init) => true,
            (
                AppState::Initialized {
                    paths: pa,
                    selected_index: xa,
                    current_image: ca,
                    current_image_info: ia,
                    search_term: sa,
                    app_mode: ma,
                    ..
                },
                AppState::Initialized {
                    paths: pb,
                    selected_index: xb,
                    current_image: cb,
                    current_image_info: ib,
                    search_term: sb,
                    app_mode: mb,
                    ..
                },
            ) => pa == pb && xa == xb && ca == cb && ia == ib && sa == sb && ma == mb,
            _ => false,
        }
    }

    /// Whether the two states differ in nothing but the search term and the
    /// mode.
    pub open spec fn same_but_search(self, other: AppState) -> bool {
        match (self, other) {
            (AppState::Init, AppState::Init) => true,
            (
                AppState::Initialized {
                    paths: pa,
                    selected_index: xa,
                    term_size: ta,
                    current_image: ca,
                    current_image_info: ia,
                    ..
                },
                AppState::Initialized {
                    paths: pb,
                    selected_index: xb,
                    term_size: tb,
                    current_image: cb,
                    current_image_info: ib,
                    ..
                },
            ) => pa == pb && xa == xb && ta == tb && ca == cb && ia == ib,
            _ => false,
        }
    }

    /// The state right after a directory was listed: the first candidate
    /// selected, nothing rendered, no search.
    pub fn initialized(paths: Vec<ImagePath>) -> (state: AppState)
        ensures
            state.fresh(paths@),
            state.wf(),
    {
        AppState::Initialized {
            paths,
            selected_index: 0,
            term_size: None,
            current_image: None,
            current_image_info: None,
            search_term: String::new(),
            app_mode: AppMode::Normal,
        }
    }

    /// Whether a directory has been listed.
    pub fn is_initialized(&self) -> (yes: bool)
        ensures
            yes == (*self is Initialized),
    {
        match self {
            AppState::Initialized { .. } => true,
            AppState::Init => false,
        }
    }

    /// The candidates, in listing order; none before initialization.
    pub fn get_paths(&self) -> (paths: Vec<ImagePath>)
        ensures
            paths@ == self.spec_paths(),
    {
        match self {
            AppState::Initialized { paths, .. } => duplicate_paths(paths),
            AppState::Init => Vec::new(),
        }
    }

    /// The candidate at `index`, if there is one.
    pub fn get_path(&self, index: usize) -> (path: Option<ImagePath>)
        ensures
            path == if index < self.spec_paths().len() {
                Some(self.spec_paths()[index as int])
            } else {
                None
            },
    {
        match self {
            AppState::Initialized { paths, .. } => {
                if index < paths.len() {
                    Some(paths[index].duplicate())
                } else {
                    None
                }
            },
            AppState::Init => None,
        }
    }

    /// Selects the next candidate; after the last one comes the first.
    pub fn increment_index(&mut self)
        ensures
            final(self).same_but_index(*old(self)),
            old(self).spec_index() matches Some(index) ==> final(self).selects(
                next_index(index as int, old(self).spec_paths().len() as int),
            ),
            final(self).wf(),
    {
        match self {
            AppState::Initialized { paths, selected_index, .. } => {
                let len = paths.len();
                if len == 0 || *selected_index >= len - 1 {
                    *selected_index = 0;
                } else {
                    *selected_index = *selected_index + 1;
                }
            },
            AppState::Init => {},
        }
    }

    /// Selects the previous candidate; before the first one comes the last.
    /// Without candidates nothing changes.
    pub fn decrement_index(&mut self)
        ensures
            final(self).same_but_index(*old(self)),
            old(self).spec_index() matches Some(index) ==> final(self).selects(
                previous_index(index as int, old(self).spec_paths().len() as int),
            ),
            old(self).wf() ==> final(self).wf(),
    {
        match self {
            AppState::Initialized { paths, selected_index, .. } => {
                let len = paths.len();
                if len == 0 {
                } else if *selected_index == 0 {
                    *selected_index = len - 1;
                } else {
                    *selected_index = *selected_index - 1;
                }
            },
            AppState::Init => {},
        }
    }

    /// Moves the selection one step: forward for a positive `delta`, backward
    /// for a negative one, not at all for zero.
    pub fn move_selection(&mut self, delta: i32)
        ensures
            final(self).same_but_index(*old(self)),
            old(self).spec_index() matches Some(index) ==> final(self).selects(
                if delta > 0 {
                    next_index(index as int, old(self).spec_paths().len() as int)
                } else if delta < 0 {
                    previous_index(index as int, old(self).spec_paths().len() as int)
                } else {
                    index as int
                },
            ),
            old(self).wf() ==> final(self).wf(),
    {
        if delta > 0 {
            self.increment_index();
        } else if delta < 0 {
            self.decrement_index();
        }
    }

    /// The selected index, once initialized.
    pub fn get_index(&self) -> (index: Option<usize>)
        ensures
            index == self.spec_index(),
    {
        match self {
            AppState::Initialized { selected_index, .. } => Some(*selected_index),
            AppState::Init => None,
        }
    }

    /// Records the picture area of this redraw.
    pub fn set_term_size(&mut self, width: u32, height: u32)
        ensures
            final(self).same_but_term_size(*old(self)),
            old(self).wf() ==> final(self).wf(),
            *old(self) is Initialized ==> final(self).spec_term_size() == Some(
                TermSize { width, height },
            ),
    {
        match self {
            AppState::Initialized { term_size, .. } => {
                *term_size = Some(TermSize { width, height });
            },
            AppState::Init => {},
        }
    }

    /// The picture area of the last redraw.
    pub fn get_term_size(&self) -> (size: Option<TermSize>)
        ensures
            size == self.spec_term_size(),
    {
        match self {
            AppState::Initialized { term_size, .. } => *term_size,
            AppState::Init => None,
        }
    }

    /// Takes `img` as the picture rendered last.
    pub fn set_current_image(&mut self, img: Vec<Vec<Cell>>)
        ensures
            final(self).same_but_image(*old(self)),
            old(self).wf() ==> final(self).wf(),
            final(self).spec_image_info() == old(self).spec_image_info(),
            *old(self) is Initialized ==> final(self).spec_image() == Some(grid_rows(img@)),
    {
        match self {
            AppState::Initialized { current_image, .. } => {
                *current_image = Some(img);
            },
            AppState::Init => {},
        }
    }

    /// The rows of the picture rendered last.
    pub fn get_current_image(&self) -> (img: Option<Vec<Vec<Cell>>>)
        ensures
            match img {
                Some(grid) => self.spec_image() == Some(grid_rows(grid@)),
                None => self.spec_image() is None,
            },
    {
        match self {
            AppState::Initialized { current_image: Some(grid), .. } => Some(duplicate_grid(grid)),
            _ => None,
        }
    }

    /// Takes `image_info` as what is known about the picture rendered last.
    pub fn set_current_image_info(&mut self, image_info: ImageInfo)
        ensures
            final(self).same_but_image(*old(self)),
            old(self).wf() ==> final(self).wf(),
            final(self).spec_image() == old(self).spec_image(),
            *old(self) is Initialized ==> final(self).spec_image_info() == Some(image_info),
    {
        match self {
            AppState::Initialized { current_image_info, .. } => {
                *current_image_info = Some(image_info);
            },
            AppState::Init => {},
        }
    }

    /// What is known about the picture rendered last.
    pub fn get_current_image_info(&self) -> (image_info: Option<ImageInfo>)
        ensures
            image_info == self.spec_image_info(),
    {
        match self {
            AppState::Initialized { current_image_info: Some(info), .. } => Some(info.duplicate()),
            _ => None,
        }
    }

    /// Takes the cells and the record of a finished rendering, whatever was
    /// there before and whatever is selected now: the last writer wins.
    pub fn set_rendered_result(&mut self, cells: Vec<Vec<Cell>>, metadata: ImageInfo)
        ensures
            final(self).same_but_image(*old(self)),
            old(self).wf() ==> final(self).wf(),
            *old(self) is Initialized ==> final(self).spec_image() == Some(grid_rows(cells@))
                && final(self).spec_image_info() == Some(metadata),
    {
        self.set_current_image_info(metadata);
        self.set_current_image(cells);
    }

    /// Forgets the picture rendered last; what is known about it stays.
    pub fn clear_rendered_result(&mut self)
        ensures
            final(self).same_but_image(*old(self)),
            old(self).wf() ==> final(self).wf(),
            final(self).spec_image() is None,
            final(self).spec_image_info() == old(self).spec_image_info(),
    {
        match self {
            AppState::Initialized { current_image, .. } => {
                *current_image = None;
            },
            AppState::Init => {},
        }
    }

    /// Replaces the search term.
    pub fn set_search_term(&mut self, arg: String)
        ensures
            final(self).same_but_search(*old(self)),
            old(self).wf() ==> final(self).wf(),
            final(self).spec_mode() == old(self).spec_mode(),
            *old(self) is Initialized ==> final(self).spec_search_term() == arg@,
    {
        match self {
            AppState::Initialized { search_term, .. } => {
                *search_term = arg;
            },
            AppState::Init => {},
        }
    }

    /// Switches the mode; the search term stays.
    pub fn set_app_mode(&mut self, mode: AppMode)
        ensures
            final(self).same_but_search(*old(self)),
            old(self).wf() ==> final(self).wf(),
            final(self).spec_search_term() == old(self).spec_search_term(),
            *old(self) is Initialized ==> final(self).spec_mode() == mode,
    {
        match self {
            AppState::Initialized { app_mode, .. } => {
                *app_mode = mode;
            },
            AppState::Init => {},
        }
    }

    /// Starts editing the search term.
    pub fn enter_search(&mut self)
        ensures
            final(self).same_but_search(*old(self)),
            old(self).wf() ==> final(self).wf(),
            final(self).spec_search_term() == old(self).spec_search_term(),
            *old(self) is Initialized ==> final(self).spec_mode() == AppMode::Search,
    {
        self.set_app_mode(AppMode::Search);
    }

    /// Gives up the search: the term is emptied and keys browse again.
    pub fn exit_search(&mut self)
        ensures
            final(self).same_but_search(*old(self)),
            old(self).wf() ==> final(self).wf(),
            final(self).spec_search_term() == Seq::<char>::empty(),
            final(self).spec_mode() == AppMode::Normal,
    {
        self.set_search_term(String::new());
        self.set_app_mode(AppMode::Normal);
    }

    /// Adds a character to the end of the search term.
    pub fn append_search_char(&mut self, c: char)
        ensures
            final(self).same_but_search(*old(self)),
            old(self).wf() ==> final(self).wf(),
            final(self).spec_mode() == old(self).spec_mode(),
            *old(self) is Initialized ==> final(self).spec_search_term() == old(
                self,
            ).spec_search_term().push(c),
    {
        match self {
            AppState::Initialized { search_term, .. } => {
                push_char(search_term, c);
            },
            AppState::Init => {},
        }
    }

    /// Takes the last character off the search term; an empty term stays
    /// empty.
    pub fn backspace_search(&mut self)
        ensures
            final(self).same_but_search(*old(self)),
            old(self).wf() ==> final(self).wf(),
            final(self).spec_mode() == old(self).spec_mode(),
            final(self).spec_search_term() == if old(self).spec_search_term().len() == 0 {
                old(self).spec_search_term()
            } else {
                old(self).spec_search_term().drop_last()
            },
    {
        match self {
            AppState::Initialized { search_term, .. } => {
                let _ = pop_char(search_term);
            },
            AppState::Init => {},
        }
    }

    /// Whether the search term and every file name are short enough for the
    /// matcher.
    pub open spec fn spec_can_filter(self) -> bool {
        self.spec_search_term().len() <= MATCH_LIMIT && names_within_limit(self.spec_paths())
    }

    /// Whether `filtered_paths` may be called.
    pub fn can_filter(&self) -> (yes: bool)
        ensures
            yes == self.spec_can_filter(),
    {
        match self {
            AppState::Initialized { paths, search_term, .. } => {
                within_match_limit(search_term.as_str()) && check_names(paths)
            },
            AppState::Init => true,
        }
    }

    /// The candidates whose file name the search term keeps, in listing
    /// order. The empty term keeps them all.
    pub fn filtered_paths(&self) -> (kept: Vec<ImagePath>)
        requires
            self.spec_can_filter(),
        ensures
            kept@ == kept_by(self.spec_paths(), self.spec_search_term()),
    {
        match self {
            AppState::Initialized { paths, search_term, .. } => {
                filter_paths(paths, search_term.as_str())
            },
            AppState::Init => {
                proof {
                    reveal(Seq::filter);
                }
                Vec::new()
            },
        }
    }

    /// The search term; empty before initialization.
    pub fn get_search_term(&self) -> (term: &str)
        ensures
            term@ == self.spec_search_term(),
    {
        match self {
            AppState::Initialized { search_term, .. } => search_term.as_str(),
            AppState::Init => {
                proof {
                    reveal_strlit("");
                }
                ""
            },
        }
    }

    /// The mode; `Normal` before initialization.
    pub fn get_app_mode(&self) -> (mode: AppMode)
        ensures
            mode == self.spec_mode(),
    {
        match self {
            AppState::Initialized { app_mode, .. } => *app_mode,
            AppState::Init => AppMode::Normal,
        }
    }
}

impl Default for AppState {
    fn default() -> (state: AppState)
        ensures
            state is Init,
    {
        AppState::Init
    }
}

} // verus!
