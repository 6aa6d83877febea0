use picterm::app::search::{check_names, filter_paths, matches_term, within_match_limit};
use picterm::app::state::{AppMode, AppState, ImageInfo, TermSize};
use picterm::image::Cell;
use picterm::utils::ImagePath;

fn entry(name: &str) -> ImagePath {
    ImagePath {
        path: format!("/pictures/{}", name),
        file_name: name.to_string(),
        extension: name.rsplit_once('.').map(|(_, ext)| ext.to_string()),
    }
}

fn five() -> AppState {
    AppState::initialized(vec![
        entry("a.png"),
        entry("b.png"),
        entry("c.png"),
        entry("d.png"),
        entry("e.png"),
    ])
}

fn names(paths: &[ImagePath]) -> Vec<String> {
    paths.iter().map(|p| p.file_name.clone()).collect()
}

#[test]
fn a_fresh_state_is_uninitialized() {
    let state = AppState::default();
    assert!(!state.is_initialized());
    assert!(state.get_paths().is_empty());
    assert_eq!(state.get_index(), None);
    assert_eq!(state.get_term_size(), None);
    assert!(state.get_current_image().is_none());
    assert!(state.get_current_image_info().is_none());
    assert_eq!(state.get_search_term(), "");
    assert_eq!(state.get_app_mode(), AppMode::Normal);
}

#[test]
fn initialized_selects_the_first_candidate() {
    let state = five();
    assert!(state.is_initialized());
    assert_eq!(names(&state.get_paths()), vec!["a.png", "b.png", "c.png", "d.png", "e.png"]);
    assert_eq!(state.get_index(), Some(0));
    assert_eq!(state.get_term_size(), None);
    assert!(state.get_current_image().is_none());
    assert!(state.get_current_image_info().is_none());
    assert_eq!(state.get_search_term(), "");
    assert_eq!(state.get_app_mode(), AppMode::Normal);
}

#[test]
fn selection_wraps_forward_from_the_last() {
    let mut state = five();
    for expected in [1, 2, 3, 4] {
        state.move_selection(1);
        assert_eq!(state.get_index(), Some(expected));
    }
    state.move_selection(1);
    assert_eq!(state.get_index(), Some(0));
}

#[test]
fn selection_wraps_backward_from_the_first() {
    let mut state = five();
    state.move_selection(-1);
    assert_eq!(state.get_index(), Some(4));
    state.move_selection(-1);
    assert_eq!(state.get_index(), Some(3));
}

#[test]
fn selection_stays_on_an_empty_list() {
    let mut state = AppState::initialized(vec![]);
    state.move_selection(1);
    assert_eq!(state.get_index(), Some(0));
    state.move_selection(-1);
    assert_eq!(state.get_index(), Some(0));
    state.increment_index();
    state.decrement_index();
    assert_eq!(state.get_index(), Some(0));
}

#[test]
fn selection_of_a_single_candidate_stays() {
    let mut state = AppState::initialized(vec![entry("only.png")]);
    state.increment_index();
    assert_eq!(state.get_index(), Some(0));
    state.decrement_index();
    assert_eq!(state.get_index(), Some(0));
}

#[test]
fn a_step_of_zero_moves_nothing() {
    let mut state = five();
    state.increment_index();
    state.move_selection(0);
    assert_eq!(state.get_index(), Some(1));
}

#[test]
fn forward_and_back_ends_where_it_began() {
    for start in 0..5 {
        let mut state = five();
        for _ in 0..start {
            state.increment_index();
        }
        state.increment_index();
        state.decrement_index();
        assert_eq!(state.get_index(), Some(start));
        state.decrement_index();
        state.increment_index();
        assert_eq!(state.get_index(), Some(start));
    }
}

#[test]
fn mutators_leave_an_uninitialized_state_alone() {
    let mut state = AppState::default();
    state.increment_index();
    state.decrement_index();
    state.move_selection(1);
    state.set_term_size(80, 24);
    state.set_current_image(vec![vec![Cell::Blank]]);
    state.set_current_image_info(ImageInfo { name: "x".to_string(), size: 1, dimensions: (1, 1) });
    state.set_rendered_result(
        vec![vec![Cell::Blank]],
        ImageInfo { name: "x".to_string(), size: 1, dimensions: (1, 1) },
    );
    state.clear_rendered_result();
    state.set_search_term("abc".to_string());
    state.set_app_mode(AppMode::Search);
    state.enter_search();
    state.append_search_char('a');
    state.backspace_search();
    state.exit_search();
    assert!(!state.is_initialized());
    assert_eq!(state.get_index(), None);
    assert_eq!(state.get_term_size(), None);
    assert!(state.get_current_image().is_none());
    assert!(state.get_current_image_info().is_none());
    assert_eq!(state.get_search_term(), "");
    assert_eq!(state.get_app_mode(), AppMode::Normal);
}

#[test]
fn get_path_gives_the_candidate_or_nothing() {
    let state = five();
    assert_eq!(state.get_path(2).unwrap().file_name, "c.png");
    assert_eq!(state.get_path(2).unwrap().path, "/pictures/c.png");
    assert!(state.get_path(5).is_none());
    assert!(AppState::initialized(vec![]).get_path(0).is_none());
    assert!(AppState::default().get_path(0).is_none());
}

#[test]
fn term_size_is_overwritten() {
    let mut state = five();
    state.set_term_size(80, 24);
    assert_eq!(state.get_term_size(), Some(TermSize { width: 80, height: 24 }));
    state.set_term_size(100, 30);
    assert_eq!(state.get_term_size(), Some(TermSize { width: 100, height: 30 }));
    assert_eq!(state.get_index(), Some(0));
}

#[test]
fn the_last_rendered_result_wins() {
    let mut state = five();
    state.set_rendered_result(
        vec![vec![Cell::Colored(1, 2, 3)]],
        ImageInfo { name: "a.png".to_string(), size: 10, dimensions: (1, 1) },
    );
    state.increment_index();
    state.set_rendered_result(
        vec![vec![Cell::Blank, Cell::Colored(4, 5, 6)]],
        ImageInfo { name: "b.png".to_string(), size: 20, dimensions: (2, 1) },
    );
    assert_eq!(state.get_current_image(), Some(vec![vec![Cell::Blank, Cell::Colored(4, 5, 6)]]));
    let info = state.get_current_image_info().unwrap();
    assert_eq!(info.name, "b.png");
    assert_eq!(info.size, 20);
    assert_eq!(info.dimensions, (2, 1));
    assert_eq!(state.get_index(), Some(1));
}

#[test]
fn clearing_forgets_the_picture_only() {
    let mut state = five();
    state.set_rendered_result(
        vec![vec![Cell::Colored(1, 2, 3)]],
        ImageInfo { name: "a.png".to_string(), size: 10, dimensions: (1, 1) },
    );
    state.clear_rendered_result();
    assert!(state.get_current_image().is_none());
    assert_eq!(state.get_current_image_info().unwrap().name, "a.png");
}

#[test]
fn image_and_info_are_set_apart() {
    let mut state = five();
    state.set_current_image(vec![vec![Cell::Blank]]);
    assert_eq!(state.get_current_image(), Some(vec![vec![Cell::Blank]]));
    assert!(state.get_current_image_info().is_none());
    state.set_current_image_info(ImageInfo { name: "n".to_string(), size: 3, dimensions: (4, 5) });
    assert_eq!(state.get_current_image_info().unwrap().duplicate().dimensions, (4, 5));
    assert_eq!(state.get_current_image(), Some(vec![vec![Cell::Blank]]));
}

#[test]
fn search_term_is_edited_at_its_end() {
    let mut state = five();
    state.enter_search();
    assert_eq!(state.get_app_mode(), AppMode::Search);
    state.append_search_char('c');
    state.append_search_char('a');
    state.append_search_char('é');
    assert_eq!(state.get_search_term(), "caé");
    state.backspace_search();
    assert_eq!(state.get_search_term(), "ca");
    state.backspace_search();
    state.backspace_search();
    assert_eq!(state.get_search_term(), "");
    state.backspace_search();
    assert_eq!(state.get_search_term(), "");
    assert_eq!(state.get_app_mode(), AppMode::Search);
}

#[test]
fn leaving_the_search_empties_the_term() {
    let mut state = five();
    state.enter_search();
    state.set_search_term("cat".to_string());
    state.exit_search();
    assert_eq!(state.get_search_term(), "");
    assert_eq!(state.get_app_mode(), AppMode::Normal);
}

#[test]
fn switching_the_mode_keeps_the_term() {
    let mut state = five();
    state.set_search_term("cat".to_string());
    state.set_app_mode(AppMode::Search);
    assert_eq!(state.get_search_term(), "cat");
    state.set_app_mode(AppMode::Normal);
    assert_eq!(state.get_search_term(), "cat");
    assert_eq!(state.get_app_mode(), AppMode::Normal);
}

#[test]
fn term_matches_a_subsequence() {
    assert!(matches_term("Vacation_cat.png", "cat"));
    assert!(!matches_term("dog.png", "cat"));
}

#[test]
fn term_matches_scattered_characters_in_order() {
    assert!(matches_term("axbycz", "abc"));
    assert!(matches_term("axbycz", "xyz"));
    assert!(!matches_term("abc", "abx"));
    assert!(!matches_term("cba", "abc"));
    assert!(!matches_term("ab", "abb"));
    assert!(matches_term("abb", "abb"));
}

#[test]
fn the_empty_term_matches_everything() {
    assert!(matches_term("anything.png", ""));
    assert!(matches_term("", ""));
    assert!(!matches_term("", "a"));
}

#[test]
fn a_lower_case_term_ignores_case() {
    assert!(matches_term("CAT.PNG", "cat"));
    assert!(matches_term("Holiday.JPG", "hjpg"));
}

#[test]
fn an_upper_case_letter_makes_the_term_exact() {
    assert!(matches_term("Cat.png", "Cat"));
    assert!(!matches_term("cat.png", "Cat"));
    assert!(!matches_term("CAT.png", "Cat"));
}

#[test]
fn only_ascii_letters_fold() {
    assert!(!matches_term("École.png", "école"));
    assert!(matches_term("école.png", "école"));
}

#[test]
fn filtering_keeps_listing_order() {
    let mut state = AppState::initialized(vec![
        entry("Vacation_cat.png"),
        entry("dog.png"),
        entry("cat2.jpg"),
        entry("scatter.gif"),
    ]);
    assert!(state.can_filter());
    assert_eq!(
        names(&state.filtered_paths()),
        vec!["Vacation_cat.png", "dog.png", "cat2.jpg", "scatter.gif"]
    );
    state.set_search_term("cat".to_string());
    assert_eq!(
        names(&state.filtered_paths()),
        vec!["Vacation_cat.png", "cat2.jpg", "scatter.gif"]
    );
    state.set_search_term("cat2".to_string());
    assert_eq!(names(&state.filtered_paths()), vec!["cat2.jpg"]);
    state.set_search_term("zebra".to_string());
    assert!(state.filtered_paths().is_empty());
    // the candidates themselves are untouched
    assert_eq!(state.get_paths().len(), 4);
}

#[test]
fn filtering_an_uninitialized_state_gives_nothing() {
    let state = AppState::default();
    assert!(state.can_filter());
    assert!(state.filtered_paths().is_empty());
}

#[test]
fn filter_paths_matches_on_the_file_name_only() {
    let paths = vec![ImagePath {
        path: "/cat/dog.png".to_string(),
        file_name: "dog.png".to_string(),
        extension: Some("png".to_string()),
    }];
    assert!(filter_paths(&paths, "cat").is_empty());
    assert_eq!(filter_paths(&paths, "dg").len(), 1);
}

#[test]
fn overlong_texts_are_not_for_the_matcher() {
    assert!(within_match_limit("cat"));
    assert!(within_match_limit(&"a".repeat(65536)));
    assert!(!within_match_limit(&"a".repeat(65537)));
    // characters count, not bytes
    assert!(within_match_limit(&"é".repeat(65536)));
    assert!(check_names(&[entry("a.png")].into_iter().collect()));
    let long = ImagePath { path: String::new(), file_name: "a".repeat(70000), extension: None };
    assert!(!check_names(&vec![entry("a.png"), long]));
    let mut state = five();
    state.set_search_term("a".repeat(70000));
    assert!(!state.can_filter());
}
