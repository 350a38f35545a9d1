//! Discovery: extension filtering and dense id assignment.

use image_gallery::image_data::{has_image_extension, Id, Image};

fn paths(list: &[&str]) -> Vec<String> {
    list.iter().map(|p| p.to_string()).collect()
}

#[test]
fn list_assigns_dense_ids_in_order() {
    let images = Image::list(paths(&[
        "shots/a.jpg",
        "notes.txt",
        "shots/b.PNG",
        "c.jpeg",
        "d.gif",
    ]));
    assert_eq!(images.len(), 4);
    assert_eq!(images[0].id, Id(0));
    assert_eq!(images[0].path, "shots/a.jpg");
    assert_eq!(images[1].id, Id(1));
    assert_eq!(images[1].path, "shots/b.PNG");
    assert_eq!(images[2].id, Id(2));
    assert_eq!(images[2].path, "c.jpeg");
    assert_eq!(images[3].id, Id(3));
    assert_eq!(images[3].path, "d.gif");
}

#[test]
fn list_of_nothing_is_empty() {
    let images = Image::list(Vec::new());
    assert!(images.is_empty());
}

#[test]
fn list_with_no_survivors_is_empty() {
    let images = Image::list(paths(&["readme.md", "data.bin", "noext"]));
    assert!(images.is_empty());
}

#[test]
fn extension_match_ignores_ascii_case() {
    assert!(has_image_extension("photo.JPG"));
    assert!(has_image_extension("photo.Jpeg"));
    assert!(has_image_extension("photo.pNg"));
    assert!(has_image_extension("photo.GIF"));
}

#[test]
fn extension_must_be_one_of_the_four() {
    assert!(has_image_extension("a.jpg"));
    assert!(has_image_extension("a.jpeg"));
    assert!(has_image_extension("a.png"));
    assert!(has_image_extension("a.gif"));
    assert!(!has_image_extension("a.jpe"));
    assert!(!has_image_extension("a.tiff"));
    assert!(!has_image_extension("a.jpgx"));
    assert!(!has_image_extension("a.pn"));
}

#[test]
fn extension_is_read_from_the_file_name_only() {
    // The dot must be the last one of the final path component.
    assert!(!has_image_extension("archive.jpg.txt"));
    assert!(!has_image_extension("shots.png/raw"));
    assert!(has_image_extension("album.2024/cover.png"));
}

#[test]
fn hidden_files_and_bare_dots_are_not_extensions() {
    // A file name that is nothing but ".gif" has no extension.
    assert!(!has_image_extension(".gif"));
    assert!(!has_image_extension("dir/.gif"));
    // A trailing dot has an empty extension.
    assert!(!has_image_extension("photo."));
    assert!(!has_image_extension("jpg"));
    assert!(!has_image_extension(""));
}
