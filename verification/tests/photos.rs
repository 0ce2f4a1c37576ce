use astraos::photos::{sort_paths, Gallery};

fn strings(v: &[&str]) -> Vec<String> {
    v.iter().map(|s| s.to_string()).collect()
}

#[test]
fn paths_sort_by_code_point() {
    let sorted = sort_paths(&strings(&["/p/b.png", "/p/a.png", "/p/C.png", "/p/a.png", "/p/\u{e9}t\u{e9}.png"]));
    assert_eq!(sorted, strings(&["/p/C.png", "/p/a.png", "/p/a.png", "/p/b.png", "/p/\u{e9}t\u{e9}.png"]));
    assert!(sort_paths(&Vec::new()).is_empty());
}

#[test]
fn gallery_lists_sorted_images_of_folder() {
    let mut g = Gallery::new();
    assert!(g.navigate(1).is_none());
    let listing = strings(&["/p/zebra.JPG", "/p/notes.txt", "/p/apple.png", "/p/mid.webp", "/p/sub"]);
    g.load(&listing, "/p/mid.webp");
    assert_eq!(g.files(), &strings(&["/p/apple.png", "/p/mid.webp", "/p/zebra.JPG"]));
    assert_eq!(g.current_index(), Some(1));
    assert_eq!(g.navigate(1).as_deref(), Some("/p/zebra.JPG"));
    assert_eq!(g.navigate(-1).as_deref(), Some("/p/apple.png"));
}

#[test]
fn gallery_wraps_around() {
    let mut g = Gallery::new();
    g.load(&strings(&["/p/a.png", "/p/b.png", "/p/c.png"]), "/p/a.png");
    assert_eq!(g.navigate(-1).as_deref(), Some("/p/c.png"));
    g.load(&strings(&["/p/a.png", "/p/b.png", "/p/c.png"]), "/p/c.png");
    assert_eq!(g.navigate(1).as_deref(), Some("/p/a.png"));
}

#[test]
fn gallery_matches_paths_not_text() {
    let mut g = Gallery::new();
    g.load(&strings(&["/p/a.png", "/p/b.png"]), "/p//b.png");
    assert_eq!(g.current_index(), Some(1));
    g.load(&strings(&["/p/a.png"]), "/q/a.png");
    assert_eq!(g.current_index(), None);
    assert!(g.navigate(1).is_none());
}
