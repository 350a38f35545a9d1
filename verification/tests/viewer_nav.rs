//! The viewer state machine: open/close, navigation bounds, stale results.

use image_gallery::image_data::{Id, Rgba};
use image_gallery::viewer::{Direction, Viewer};

fn rgba(width: u32, height: u32) -> Rgba {
    Rgba { width, height, pixels: vec![0u8; (width * height * 4) as usize] }
}

#[test]
fn a_new_viewer_is_closed_and_empty() {
    let v = Viewer::new();
    assert!(!v.is_open(0));
    assert!(!v.is_open(1_000_000));
    assert!(v.image.is_none());
    assert!(v.current_id().is_none());
    assert!(v.current_index().is_none());
}

#[test]
fn open_fades_the_backdrop_in() {
    let mut v = Viewer::new();
    v.open(100);
    // At the transition instant the fade is still at zero.
    assert!(!v.is_open(100));
    assert!(v.is_open(150));
    assert!(v.is_open(10_000));
    assert!(v.is_animating(100));
}

#[test]
fn show_installs_only_the_current_target() {
    let mut v = Viewer::new();
    v.open(0);
    v.set_current_id(Some(Id(1)));
    v.set_current_index(Some(1));
    // A completion for a different id is stale and must be discarded.
    v.show(Id(0), rgba(2, 2), 10);
    assert!(v.image.is_none());
    // The matching completion is installed.
    v.show(Id(1), rgba(4, 4), 20);
    let shown = v.image.as_ref().expect("image installed");
    assert_eq!(shown.id, Id(1));
    assert_eq!(shown.rgba.width, 4);
}

#[test]
fn navigate_prev_is_a_no_op_only_at_the_start() {
    let mut v = Viewer::new();
    v.open(0);
    v.set_current_id(Some(Id(0)));
    v.set_current_index(Some(0));
    assert_eq!(v.navigate(Direction::Prev, 5), None);
    assert_eq!(v.current_index(), Some(0));
    assert_eq!(v.current_id(), Some(Id(0)));

    v.set_current_id(Some(Id(3)));
    v.set_current_index(Some(3));
    assert_eq!(v.navigate(Direction::Prev, 5), Some(Id(2)));
    assert_eq!(v.current_index(), Some(2));
    assert_eq!(v.current_id(), Some(Id(2)));
}

#[test]
fn navigate_next_is_a_no_op_only_at_the_end() {
    let mut v = Viewer::new();
    v.open(0);
    v.set_current_id(Some(Id(4)));
    v.set_current_index(Some(4));
    assert_eq!(v.navigate(Direction::Next, 5), None);
    assert_eq!(v.current_index(), Some(4));

    v.set_current_id(Some(Id(1)));
    v.set_current_index(Some(1));
    assert_eq!(v.navigate(Direction::Next, 5), Some(Id(2)));
    assert_eq!(v.current_index(), Some(2));
    assert_eq!(v.current_id(), Some(Id(2)));
}

#[test]
fn navigation_keeps_the_displayed_image_until_the_new_one_arrives() {
    let mut v = Viewer::new();
    v.open(0);
    v.set_current_id(Some(Id(1)));
    v.set_current_index(Some(1));
    v.show(Id(1), rgba(2, 2), 5);
    assert!(v.image.is_some());
    // Moving on does not blank the overlay.
    assert_eq!(v.navigate(Direction::Next, 3), Some(Id(2)));
    let still = v.image.as_ref().expect("previous image still shown");
    assert_eq!(still.id, Id(1));
    // The late completion for the old target is now stale.
    v.show(Id(1), rgba(9, 9), 30);
    assert_eq!(v.image.as_ref().unwrap().rgba.width, 2);
    // The new target's completion replaces it.
    v.show(Id(2), rgba(7, 7), 40);
    assert_eq!(v.image.as_ref().unwrap().id, Id(2));
    assert_eq!(v.image.as_ref().unwrap().rgba.width, 7);
}

#[test]
fn close_clears_the_target_and_fades_out() {
    let mut v = Viewer::new();
    v.open(0);
    v.set_current_id(Some(Id(0)));
    v.set_current_index(Some(0));
    v.show(Id(0), rgba(2, 2), 10);
    v.close(1000);
    assert!(v.current_id().is_none());
    // Still open while the fade-out runs, closed afterwards.
    assert!(v.is_open(1050));
    assert!(!v.is_open(1200));
    // A completion arriving after close has no target to match.
    v.show(Id(0), rgba(9, 9), 1100);
    assert_eq!(v.image.as_ref().unwrap().rgba.width, 2);
}

#[test]
fn close_then_open_clears_the_previous_image() {
    let mut v = Viewer::new();
    v.open(0);
    v.set_current_id(Some(Id(0)));
    v.set_current_index(Some(0));
    v.show(Id(0), rgba(2, 2), 10);
    assert!(v.image.is_some());
    v.close(100);
    v.open(110);
    // Nothing is shown until the new target's decode resolves.
    assert!(v.image.is_none());
}
