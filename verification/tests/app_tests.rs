use picterm::app::actions::Action;
use picterm::app::state::{AppMode, ImageInfo, TermSize};
use picterm::app::{App, AppConfig, AppReturn, Pane};
use picterm::image::{Cell, PixelBuffer};
use picterm::inputs::key::Key;
use picterm::inputs::InputEvent;
use picterm::io::handler::{do_initialize, do_load_image, handle_io_event, image_info, IoResult};
use picterm::io::{IoEvent, WorkRequest};
use picterm::utils::{ImageMode, ImagePath};

fn entry(name: &str) -> ImagePath {
    ImagePath {
        path: format!("/pictures/{}", name),
        file_name: name.to_string(),
        extension: name.rsplit_once('.').map(|(_, ext)| ext.to_string()),
    }
}

fn browsing(names: &[&str]) -> App {
    let mut app = App::new(ImageMode::Rgba);
    app.initialized(names.iter().map(|n| entry(n)).collect());
    app
}

fn info(name: &str) -> ImageInfo {
    ImageInfo { name: name.to_string(), size: 1, dimensions: (1, 1) }
}

#[test]
fn a_new_app_can_only_quit() {
    let mut app = App::new(ImageMode::GrayScale);
    assert_eq!(app.actions().actions(), &[Action::Quit]);
    assert!(!app.is_loading());
    assert!(!app.state().is_initialized());
    assert_eq!(app.config, AppConfig { image_mode: ImageMode::GrayScale });
    let (status, request) = app.do_action(Key::Char('j'));
    assert_eq!(status, AppReturn::Continue);
    assert!(request.is_none());
    let (status, request) = app.do_action(Key::Char('q'));
    assert_eq!(status, AppReturn::Exit);
    assert!(request.is_none());
}

#[test]
fn initialization_makes_every_action_live() {
    let app = browsing(&["a.png", "b.png"]);
    assert_eq!(
        app.actions().actions(),
        &[Action::Quit, Action::Increment, Action::Decrement, Action::Show, Action::Search]
    );
    assert_eq!(app.state().get_index(), Some(0));
    assert!(!app.is_loading());
}

#[test]
fn keys_move_the_selection_around_the_ends() {
    let mut app = browsing(&["a.png", "b.png", "c.png", "d.png", "e.png"]);
    assert_eq!(app.do_action(Key::Up).0, AppReturn::Continue);
    assert_eq!(app.state().get_index(), Some(4));
    app.do_action(Key::Down);
    assert_eq!(app.state().get_index(), Some(0));
    app.do_action(Key::Char('j'));
    app.do_action(Key::Ctrl('n'));
    assert_eq!(app.state().get_index(), Some(2));
    app.do_action(Key::Char('k'));
    app.do_action(Key::Ctrl('p'));
    assert_eq!(app.state().get_index(), Some(0));
}

#[test]
fn unbound_keys_do_nothing_while_browsing() {
    let mut app = browsing(&["a.png", "b.png"]);
    let (status, request) = app.do_action(Key::Char('x'));
    assert_eq!(status, AppReturn::Continue);
    assert!(request.is_none());
    assert_eq!(app.state().get_index(), Some(0));
    assert_eq!(app.state().get_search_term(), "");
    assert!(!app.is_loading());
}

#[test]
fn quitting_ends_the_loop() {
    let mut app = browsing(&["a.png"]);
    assert_eq!(app.do_action(Key::Ctrl('c')).0, AppReturn::Exit);
}

#[test]
fn showing_asks_for_the_selected_picture() {
    let mut app = browsing(&["a.png", "b.png"]);
    app.state_mut().set_term_size(80, 24);
    app.do_action(Key::Down);
    let (status, request) = app.do_action(Key::Enter);
    assert_eq!(status, AppReturn::Continue);
    assert!(app.is_loading());
    match request {
        Some(IoEvent::LoadImage(wanted)) => {
            assert_eq!(wanted.path.path, "/pictures/b.png");
            assert_eq!(wanted.path.file_name, "b.png");
            assert_eq!(wanted.term_size, TermSize { width: 80, height: 24 });
        }
        _ => panic!("no load was asked for"),
    }
}

#[test]
fn showing_without_a_picture_area_asks_for_nothing() {
    let mut app = browsing(&["a.png"]);
    let (status, request) = app.do_action(Key::Enter);
    assert_eq!(status, AppReturn::Continue);
    assert!(request.is_none());
    assert!(!app.is_loading());
}

#[test]
fn showing_without_candidates_asks_for_nothing() {
    let mut app = browsing(&[]);
    app.state_mut().set_term_size(80, 24);
    let (_, request) = app.do_action(Key::Ctrl('m'));
    assert!(request.is_none());
    assert!(!app.is_loading());
    assert!(app.work_request().is_none());
}

#[test]
fn search_mode_edits_the_term() {
    let mut app = browsing(&["a.png", "b.png"]);
    app.do_action(Key::Char('/'));
    assert_eq!(app.state().get_app_mode(), AppMode::Search);
    for key in [Key::Char('c'), Key::Char('q'), Key::Char('j'), Key::Char('/')] {
        let (status, request) = app.do_action(key);
        assert_eq!(status, AppReturn::Continue);
        assert!(request.is_none());
    }
    assert_eq!(app.state().get_search_term(), "cqj/");
    assert_eq!(app.state().get_index(), Some(0));
    app.do_action(Key::Backspace);
    assert_eq!(app.state().get_search_term(), "cqj");
    // keys that type nothing change nothing
    app.do_action(Key::Down);
    app.do_action(Key::Ctrl('c'));
    app.do_action(Key::Alt('x'));
    app.do_action(Key::Tab);
    assert_eq!(app.state().get_search_term(), "cqj");
    assert_eq!(app.state().get_app_mode(), AppMode::Search);
    assert_eq!(app.state().get_index(), Some(0));
}

#[test]
fn backspace_on_an_empty_term_does_nothing() {
    let mut app = browsing(&["a.png"]);
    app.do_action(Key::Ctrl('f'));
    app.do_action(Key::Backspace);
    assert_eq!(app.state().get_search_term(), "");
    assert_eq!(app.state().get_app_mode(), AppMode::Search);
}

#[test]
fn escape_gives_up_the_search() {
    let mut app = browsing(&["a.png"]);
    app.do_action(Key::Char('/'));
    app.do_action(Key::Char('a'));
    app.do_action(Key::Esc);
    assert_eq!(app.state().get_search_term(), "");
    assert_eq!(app.state().get_app_mode(), AppMode::Normal);
}

#[test]
fn enter_keeps_the_term() {
    let mut app = browsing(&["a.png"]);
    app.state_mut().set_term_size(10, 10);
    app.do_action(Key::Char('/'));
    app.do_action(Key::Char('a'));
    let (status, request) = app.do_action(Key::Enter);
    assert_eq!(status, AppReturn::Continue);
    assert!(request.is_none());
    assert_eq!(app.state().get_search_term(), "a");
    assert_eq!(app.state().get_app_mode(), AppMode::Normal);
    // back in normal mode the same key shows the picture
    assert!(app.do_action(Key::Enter).1.is_some());
}

#[test]
fn a_tick_changes_nothing() {
    let mut app = browsing(&["a.png", "b.png"]);
    app.do_action(Key::Down);
    assert_eq!(app.update_on_tick(), AppReturn::Continue);
    assert_eq!(app.state().get_index(), Some(1));
    assert!(!app.is_loading());
    assert!(matches!(InputEvent::Tick, InputEvent::Tick));
    assert_eq!(InputEvent::Input(Key::Up), InputEvent::Input(Key::Up));
}

#[test]
fn dispatch_sets_the_flag_and_hands_the_request_back() {
    let mut app = App::new(ImageMode::Rgba);
    let queued = app.dispatch(IoEvent::Initialize("./".to_string()));
    assert!(app.is_loading());
    assert!(matches!(queued, IoEvent::Initialize(ref path) if path == "./"));
    app.dispatch_failed();
    assert!(!app.is_loading());
}

#[test]
fn loading_ends_when_the_first_job_completes() {
    let mut app = App::new(ImageMode::Rgba);
    app.dispatch(IoEvent::Initialize("./".to_string()));
    handle_io_event(&mut app, IoResult::Listed(vec![entry("b.png"), entry("a.png"), entry("c.txt")]));
    assert!(!app.is_loading());
    assert!(app.state().is_initialized());
    let names: Vec<String> = app.state().get_paths().iter().map(|p| p.file_name.clone()).collect();
    assert_eq!(names, vec!["a.png", "b.png"]);
    assert_eq!(app.state().get_index(), Some(0));
}

#[test]
fn loading_ends_when_a_job_fails() {
    let mut app = browsing(&["broken.png"]);
    app.state_mut().set_term_size(10, 10);
    assert!(app.do_action(Key::Enter).1.is_some());
    assert!(app.is_loading());
    handle_io_event(&mut app, IoResult::Failed);
    assert!(!app.is_loading());
    assert!(app.state().get_current_image().is_none());
    assert_eq!(app.state().get_index(), Some(0));
}

#[test]
fn a_failed_job_leaves_the_last_picture() {
    let mut app = browsing(&["a.png", "broken.png"]);
    handle_io_event(&mut app, IoResult::Rendered(vec![vec![Cell::Colored(1, 2, 3)]], info("a.png")));
    app.dispatch(IoEvent::Initialize(String::new()));
    handle_io_event(&mut app, IoResult::Failed);
    assert!(!app.is_loading());
    assert_eq!(app.state().get_current_image(), Some(vec![vec![Cell::Colored(1, 2, 3)]]));
    assert_eq!(app.state().get_current_image_info().unwrap().name, "a.png");
}

#[test]
fn a_stale_result_still_overwrites() {
    let mut app = browsing(&["a.png", "b.png"]);
    app.state_mut().set_term_size(10, 10);
    app.do_action(Key::Enter);
    app.do_action(Key::Down);
    handle_io_event(&mut app, IoResult::Rendered(vec![vec![Cell::Blank]], info("a.png")));
    assert_eq!(app.state().get_index(), Some(1));
    assert_eq!(app.state().get_current_image_info().unwrap().name, "a.png");
    assert!(!app.is_loading());
}

#[test]
fn the_pane_shows_the_placeholder_only_over_an_earlier_picture() {
    let mut app = browsing(&["a.png"]);
    app.state_mut().set_term_size(10, 10);
    assert_eq!(app.image_pane(), Pane::Image);
    app.do_action(Key::Enter);
    // first load: nothing rendered yet
    assert_eq!(app.image_pane(), Pane::Image);
    handle_io_event(&mut app, IoResult::Rendered(vec![vec![Cell::Blank]], info("a.png")));
    assert_eq!(app.image_pane(), Pane::Image);
    app.do_action(Key::Enter);
    assert_eq!(app.image_pane(), Pane::Loading);
    app.loaded();
    assert_eq!(app.image_pane(), Pane::Image);
}

#[test]
fn do_initialize_lists_the_pictures() {
    let mut app = App::new(ImageMode::Rgba);
    do_initialize(&mut app, vec![entry("z.gif"), entry("note.md"), entry("m.bmp")]);
    let names: Vec<String> = app.state().get_paths().iter().map(|p| p.file_name.clone()).collect();
    assert_eq!(names, vec!["m.bmp", "z.gif"]);
    assert_eq!(app.actions().actions().len(), 5);
}

#[test]
fn image_info_falls_back_to_size_zero() {
    let picture = PixelBuffer::new(3, 2, vec![0; 24]).unwrap();
    let known = image_info(&entry("a.png"), Some(1234), &picture);
    assert_eq!(known.name, "a.png");
    assert_eq!(known.size, 1234);
    assert_eq!(known.dimensions, (3, 2));
    let unknown = image_info(&entry("a.png"), None, &picture);
    assert_eq!(unknown.size, 0);
}

#[test]
fn a_load_fits_and_renders() {
    let mut data = Vec::new();
    for _ in 0..(8 * 8) {
        data.extend_from_slice(&[9, 8, 7, 255]);
    }
    let picture = PixelBuffer::new(8, 8, data).unwrap();
    let request = WorkRequest { path: entry("a.png"), term_size: TermSize { width: 4, height: 4 } };
    // 8 x 8 in 4 x 4 cells: width-bound, 4 wide and (8 * 4 / 8) / 2 = 2 high
    let (cells, known) = do_load_image(&request, &picture, None, ImageMode::Rgba).unwrap();
    assert_eq!(cells, vec![vec![Cell::Colored(9, 8, 7); 4]; 2]);
    assert_eq!(known.name, "a.png");
    assert_eq!(known.size, 0);
    assert_eq!(known.dimensions, (8, 8));
}

#[test]
fn a_load_reserves_a_row() {
    let picture = PixelBuffer::new(2, 4, vec![255; 32]).unwrap();
    let request = WorkRequest { path: entry("a.png"), term_size: TermSize { width: 10, height: 2 } };
    let (cells, _) = do_load_image(&request, &picture, Some(5), ImageMode::GrayScale).unwrap();
    assert_eq!(cells, vec![vec![Cell::Colored(255, 255, 255); 2]]);
}

#[test]
fn a_small_picture_in_a_huge_area_keeps_its_size() {
    let picture = PixelBuffer::new(1, 1, vec![1, 2, 3, 255]).unwrap();
    let huge = TermSize { width: u32::MAX, height: u32::MAX };
    let request = WorkRequest { path: entry("a.png"), term_size: huge };
    let (cells, _) = do_load_image(&request, &picture, None, ImageMode::Rgba).unwrap();
    assert_eq!(cells, vec![vec![Cell::Colored(1, 2, 3)]]);
}

#[test]
fn a_picture_beyond_the_resampler_gives_nothing() {
    let width = 1048577u32;
    let picture = PixelBuffer::new(width, 1, vec![0; 4 * width as usize]).unwrap();
    assert!(!picterm::image::can_rasterize(&picture, 80, 1));
    let request = WorkRequest { path: entry("a.png"), term_size: TermSize { width: 80, height: 24 } };
    assert!(do_load_image(&request, &picture, None, ImageMode::Rgba).is_none());
}
