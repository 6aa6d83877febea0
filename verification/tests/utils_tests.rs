use picterm::utils::{
    comes_before, duplicate_paths, get_image_paths, is_picture_extension, select_mode, Argument,
    ImagePath, RunMode, UsageError,
};

fn entry(path: &str, name: &str, ext: Option<&str>) -> ImagePath {
    ImagePath {
        path: path.to_string(),
        file_name: name.to_string(),
        extension: ext.map(|e| e.to_string()),
    }
}

fn file(name: &str) -> ImagePath {
    entry(
        &format!("./{}", name),
        name,
        match name.rsplit_once('.') {
            Some((stem, ext)) if !stem.is_empty() => Some(ext),
            _ => None,
        },
    )
}

fn names(paths: &[ImagePath]) -> Vec<String> {
    paths.iter().map(|p| p.file_name.clone()).collect()
}

#[test]
fn picture_extensions() {
    for ext in ["png", "jpg", "jpeg", "webp", "bmp", "gif"] {
        assert!(is_picture_extension(&ext.to_string()));
    }
    for ext in ["PNG", "txt", "", "pn", "pngg", "tiff", "Jpg"] {
        assert!(!is_picture_extension(&ext.to_string()));
    }
}

#[test]
fn listing_keeps_pictures_only() {
    let listing = get_image_paths(vec![
        file("notes.txt"),
        file("b.png"),
        file("README"),
        file("a.jpg"),
        file("movie.mp4"),
        file(".png"),
        file("c.PNG"),
    ]);
    assert_eq!(names(&listing), vec!["a.jpg", "b.png"]);
}

#[test]
fn listing_is_sorted_by_file_name() {
    let listing = get_image_paths(vec![
        file("zebra.png"),
        file("apple.gif"),
        file("Mango.bmp"),
        file("apple.bmp"),
        file("b.webp"),
        file("a.jpeg"),
        file("ab.png"),
        file("a.png"),
    ]);
    assert_eq!(
        names(&listing),
        vec![
            "Mango.bmp",
            "a.jpeg",
            "a.png",
            "ab.png",
            "apple.bmp",
            "apple.gif",
            "b.webp",
            "zebra.png"
        ]
    );
}

#[test]
fn listing_agrees_with_a_stable_sort() {
    let raw = ["m.png", "ü.png", "z.png", "é.png", "10.png", "9.png", "a b.png", "a.png", "m.png"];
    let entries: Vec<ImagePath> = raw
        .iter()
        .enumerate()
        .map(|(i, n)| entry(&format!("/{}/{}", i, n), n, Some("png")))
        .collect();
    let mut expected = duplicate_paths(&entries);
    expected.sort_by(|a, b| a.file_name.cmp(&b.file_name));
    let listing = get_image_paths(entries);
    assert_eq!(
        listing.iter().map(|p| p.path.clone()).collect::<Vec<_>>(),
        expected.iter().map(|p| p.path.clone()).collect::<Vec<_>>()
    );
}

#[test]
fn listing_keeps_equal_names_in_their_order() {
    let listing = get_image_paths(vec![
        entry("/second/x.png", "x.png", Some("png")),
        entry("/first/a.png", "a.png", Some("png")),
        entry("/third/x.png", "x.png", Some("png")),
    ]);
    assert_eq!(
        listing.iter().map(|p| p.path.as_str()).collect::<Vec<_>>(),
        vec!["/first/a.png", "/second/x.png", "/third/x.png"]
    );
}

#[test]
fn listing_of_nothing_is_empty() {
    assert!(get_image_paths(vec![]).is_empty());
    assert!(get_image_paths(vec![file("a.txt")]).is_empty());
}

#[test]
fn names_are_ordered_by_their_bytes() {
    assert!(comes_before(&file("a.png"), &file("b.png")));
    assert!(!comes_before(&file("b.png"), &file("a.png")));
    assert!(!comes_before(&file("a.png"), &file("a.png")));
    assert!(comes_before(&file("a"), &file("a.png")));
    assert!(comes_before(&file("Z.png"), &file("a.png")));
    assert!(comes_before(&file("z.png"), &file("é.png")));
    assert!(comes_before(&file(""), &file("a")));
}

#[test]
fn duplicates_are_equal() {
    let p = entry("/x/y.png", "y.png", Some("png"));
    let copy = p.duplicate();
    assert_eq!(copy.path, "/x/y.png");
    assert_eq!(copy.file_name, "y.png");
    assert_eq!(copy.extension, Some("png".to_string()));
    assert_eq!(names(&duplicate_paths(&vec![file("a.png"), file("b.png")])), vec!["a.png", "b.png"]);
}

#[test]
fn no_argument_browses() {
    assert_eq!(select_mode(&vec![]), Ok(RunMode::TUI));
}

#[test]
fn a_directory_browses() {
    assert_eq!(select_mode(&vec![Argument::Directory]), Ok(RunMode::TUI));
}

#[test]
fn a_picture_file_prints() {
    for ext in ["png", "jpg", "jpeg", "webp", "bmp", "gif"] {
        let args = vec![Argument::File { extension: Some(ext.to_string()) }];
        assert_eq!(select_mode(&args), Ok(RunMode::CLI));
    }
}

#[test]
fn anything_else_is_a_usage_error() {
    assert_eq!(select_mode(&vec![Argument::File { extension: Some("txt".to_string()) }]), Err(UsageError));
    assert_eq!(select_mode(&vec![Argument::File { extension: None }]), Err(UsageError));
    assert_eq!(select_mode(&vec![Argument::Directory, Argument::Directory]), Err(UsageError));
    assert_eq!(
        select_mode(&vec![
            Argument::File { extension: Some("png".to_string()) },
            Argument::File { extension: Some("png".to_string()) }
        ]),
        Err(UsageError)
    );
}

#[test]
fn the_usage_error_has_its_line() {
    assert_eq!(UsageError.message(), "The argument must be a directory or a single image file.");
}
