//! What a redraw shows, as plain values for the terminal layer to paint.

use crate::app::actions::{Action, Actions};
use crate::app::search::{filter_paths, kept_by};
use crate::app::state::{AppMode, AppState, ImageInfo, TermSize};
use crate::app::{App, Pane};
use crate::image::{grid_rows, Cell};
use crate::inputs::key::Key;
use crate::utils::{decimal_text, push_char, push_decimal, ImagePath};
use byte_unit::Byte;
use vstd::prelude::*;
use vstd::string::*;

verus! {

/// One line of the help table: the keys of an action and its name.
#[derive(Debug)]
pub struct HelpRow {
    pub keys: Vec<Key>,
    pub name: String,
}

/// One line of the info table.
#[derive(Debug)]
pub struct InfoRow {
    pub label: String,
    pub value: String,
}

/// Everything a redraw shows.
#[derive(Debug)]
pub struct Screen {
    /// The help table, one row per live action.
    pub help: Vec<HelpRow>,
    /// The info table: empty until a picture was rendered.
    pub info: Vec<InfoRow>,
    /// The file names that the search term keeps, in listing order.
    pub names: Vec<String>,
    /// The selected index.
    pub selected: Option<usize>,
    /// The search line, in search mode only.
    pub search: Option<String>,
    /// What the picture pane shows.
    pub pane: Pane,
    /// The rows of the picture rendered last; none if there is no picture.
    pub image: Vec<Vec<Cell>>,
}

/// The texts of a list of strings.
pub open spec fn texts(list: Seq<String>) -> Seq<Seq<char>> {
    Seq::new(list.len(), |i: int| list[i]@)
}

/// How a file size reads: the amount in the largest fitting decimal unit.
pub uninterp spec fn adjusted_size_text(size: u64) -> Seq<char>;

/// `byte_unit`'s `Byte::from`, `get_appropriate_unit(false)` and the
/// `to_string` of the adjusted amount: whole bytes up to 1000, beyond that
/// two decimals in the largest unit of powers of 1000 that the size exceeds.
/// The result is named.
#[verifier::external_body]
fn size_text(size: u64) -> (text: String)
    ensures
        text@ == adjusted_size_text(size),
{
    Byte::from(size).get_appropriate_unit(false).to_string()
}

/// How the pixel size of a picture reads: width, `x`, height.
pub open spec fn dimensions_text(dimensions: (u32, u32)) -> Seq<char> {
    decimal_text(dimensions.0 as nat).push('x') + decimal_text(dimensions.1 as nat)
}

/// The rows of the help table for these actions.
pub open spec fn help_of(actions: Seq<Action>, rows: Seq<HelpRow>) -> bool {
    &&& rows.len() == actions.len()
    &&& forall|i: int|
        0 <= i < rows.len() ==> (#[trigger] rows[i]).keys@ == actions[i].spec_keys() && rows[i].name@
            == actions[i].spec_name()
}

/// The help table: for each live action its keys and its name.
pub fn help_rows(actions: &Actions) -> (rows: Vec<HelpRow>)
    ensures
        help_of(actions@, rows@),
{
    let list = actions.actions();
    let mut rows: Vec<HelpRow> = Vec::new();
    let mut i: usize = 0;
    while i < list.len()
        invariant
            i <= list@.len(),
            list@ == actions@,
            rows@.len() == i,
            forall|j: int|
                0 <= j < i ==> (#[trigger] rows@[j]).keys@ == actions@[j].spec_keys() && rows@[j].name@
                    == actions@[j].spec_name(),
        decreases list@.len() - i,
    {
        rows.push(HelpRow { keys: list[i].keys(), name: list[i].to_string() });
        i += 1;
    }
    rows
}

/// The rows of the info table for this record.
pub open spec fn info_of(info: Option<ImageInfo>, rows: Seq<InfoRow>) -> bool {
    match info {
        Some(known) => {
            &&& rows.len() == 3
            &&& rows[0].label@ == "Name"@
            &&& rows[0].value@ == known.name@
            &&& rows[1].label@ == "Dimensions"@
            &&& rows[1].value@ == dimensions_text(known.dimensions)
            &&& rows[2].label@ == "Size"@
            &&& rows[2].value@ == adjusted_size_text(known.size)
        },
        None => rows.len() == 0,
    }
}

/// The info table: name, pixel size and file size of the picture rendered
/// last; empty while nothing is known.
pub fn info_rows(state: &AppState) -> (rows: Vec<InfoRow>)
    ensures
        info_of(state.spec_image_info(), rows@),
{
    match state.get_current_image_info() {
        Some(known) => {
            let mut dims = String::new();
            push_decimal(&mut dims, known.dimensions.0);
            push_char(&mut dims, 'x');
            push_decimal(&mut dims, known.dimensions.1);
            assert(dims@ =~= dimensions_text(known.dimensions));
            vec![
                InfoRow { label: "Name".to_owned(), value: known.name },
                InfoRow { label: "Dimensions".to_owned(), value: dims },
                InfoRow { label: "Size".to_owned(), value: size_text(known.size) },
            ]
        },
        None => Vec::new(),
    }
}

/// The file names of the entries.
pub open spec fn names_of(paths: Seq<ImagePath>) -> Seq<Seq<char>> {
    Seq::new(paths.len(), |i: int| paths[i].file_name@)
}

/// The list of a redraw: the file names of the candidates that the search
/// term keeps, in listing order.
pub fn image_list(state: &AppState) -> (names: Vec<String>)
    requires
        state.spec_can_filter(),
    ensures
        texts(names@) == names_of(kept_by(state.spec_paths(), state.spec_search_term())),
{
    let kept = state.filtered_paths();
    let mut names: Vec<String> = Vec::new();
    let mut i: usize = 0;
    while i < kept.len()
        invariant
            i <= kept@.len(),
            names@.len() == i,
            forall|j: int| 0 <= j < i ==> (#[trigger] names@[j])@ == kept@[j].file_name@,
        decreases kept@.len() - i,
    {
        names.push(kept[i].file_name.clone());
        i += 1;
    }
    assert(texts(names@) =~= names_of(kept@));
    names
}

/// The search line: the term with a block cursor behind it.
pub fn search_line(term: &str) -> (line: String)
    ensures
        line@ == term@.push('\u{2588}'),
{
    let mut line = term.to_owned();
    push_char(&mut line, '\u{2588}');
    line
}

/// The rows of the picture pane: those of the picture rendered last, none
/// if there is no picture.
pub fn image_rows(state: &AppState) -> (rows: Vec<Vec<Cell>>)
    ensures
        grid_rows(rows@) == match state.spec_image() {
            Some(grid) => grid,
            None => Seq::empty(),
        },
{
    match state.get_current_image() {
        Some(grid) => grid,
        None => {
            let rows: Vec<Vec<Cell>> = Vec::new();
            assert(grid_rows(rows@) =~= Seq::<Seq<Cell>>::empty());
            rows
        },
    }
}

/// Redraws: records the picture area of this frame, `width` x `height`
/// cells, and says what the frame shows. The loading placeholder stands in
/// the picture pane while a request is in flight and an earlier picture
/// exists; the search line is there in search mode only.
pub fn draw(app: &mut App, width: u32, height: u32) -> (screen: Screen)
    requires
        old(app).spec_state().spec_can_filter(),
    ensures
        final(app).same_but_state(*old(app)),
        final(app).spec_state().same_but_term_size(old(app).spec_state()),
        old(app).spec_state() is Initialized ==> final(app).spec_state().spec_term_size() == Some(
            TermSize { width, height },
        ),
        help_of(old(app).spec_actions(), screen.help@),
        info_of(old(app).spec_state().spec_image_info(), screen.info@),
        texts(screen.names@) == names_of(
            kept_by(old(app).spec_state().spec_paths(), old(app).spec_state().spec_search_term()),
        ),
        screen.selected == old(app).spec_state().spec_index(),
        match screen.search {
            Some(line) => old(app).spec_state().spec_mode() == AppMode::Search && line@ == old(
                app,
            ).spec_state().spec_search_term().push('\u{2588}'),
            None => old(app).spec_state().spec_mode() == AppMode::Normal,
        },
        screen.pane == if old(app).spec_loading() && old(app).spec_state().spec_image() is Some {
            Pane::Loading
        } else {
            Pane::Image
        },
        grid_rows(screen.image@) == match old(app).spec_state().spec_image() {
            Some(grid) => grid,
            None => Seq::empty(),
        },
{
    let help = help_rows(app.actions());
    let info = info_rows(app.state());
    let names = image_list(app.state());
    let search = match app.state().get_app_mode() {
        AppMode::Search => Some(search_line(app.state().get_search_term())),
        AppMode::Normal => None,
    };
    let selected = app.state().get_index();
    let pane = app.image_pane();
    let image = image_rows(app.state());
    app.state_mut().set_term_size(width, height);
    Screen { help, info, names, selected, search, pane, image }
}

} // verus!
