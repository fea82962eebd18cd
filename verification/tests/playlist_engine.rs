//! Playlist cycling, wrap-around and index maintenance.

use opendrop::playlist::Playlist;

fn three_items() -> Playlist {
    let mut p = Playlist::new();
    p.add(String::from("one"), String::from("/p/one.milk"));
    p.add(String::from("two"), String::from("/p/two.milk"));
    p.add(String::from("three"), String::from("/p/three.milk"));
    p
}

#[test]
fn advance_cycles_exactly() {
    let mut p = three_items();
    assert_eq!(p.current_index, 0);
    assert_eq!(p.advance(0).unwrap().path, "/p/two.milk");
    assert_eq!(p.current_index, 1);
    assert_eq!(p.advance(0).unwrap().path, "/p/three.milk");
    assert_eq!(p.current_index, 2);
    assert_eq!(p.advance(0).unwrap().path, "/p/one.milk");
    assert_eq!(p.current_index, 0);
    assert_eq!(p.advance(0).unwrap().path, "/p/two.milk");
    assert_eq!(p.current_index, 1);
}

#[test]
fn previous_wraps_from_zero() {
    let mut p = three_items();
    assert_eq!(p.current_index, 0);
    let item = p.previous().unwrap();
    assert_eq!(p.current_index, 2);
    assert_eq!(item.path, "/p/three.milk");
}

#[test]
fn empty_playlist_is_a_no_op() {
    let mut p = Playlist::new();
    assert!(p.advance(12345).is_none());
    assert_eq!(p.current_index, 0);
    assert!(p.previous().is_none());
    assert_eq!(p.current_index, 0);
    assert!(p.current_preset().is_none());
}

#[test]
fn shuffle_uses_entropy_modulo_length() {
    let mut p = three_items();
    p.shuffle = true;
    assert_eq!(p.advance(7).unwrap().path, "/p/two.milk");
    assert_eq!(p.current_index, 1);
    assert_eq!(p.advance(3).unwrap().path, "/p/one.milk");
    assert_eq!(p.current_index, 0);
}

#[test]
fn previous_ignores_shuffle() {
    let mut p = three_items();
    p.shuffle = true;
    p.jump_to(2);
    assert_eq!(p.previous().unwrap().path, "/p/two.milk");
    assert_eq!(p.current_index, 1);
}

#[test]
fn reorder_follows_selected_item() {
    let mut p = three_items();
    p.jump_to(0);
    assert!(p.reorder(0, 2));
    // The selected item moved to position 2 and the selection followed it.
    assert_eq!(p.current_index, 2);
    assert_eq!(p.items[2].path, "/p/one.milk");
    assert_eq!(p.items[0].path, "/p/two.milk");
}

#[test]
fn remove_before_selection_shifts_it_down() {
    let mut p = three_items();
    p.jump_to(2);
    assert!(p.remove(0));
    assert_eq!(p.current_index, 1);
    assert_eq!(p.items[p.current_index].path, "/p/three.milk");
}

#[test]
fn remove_selected_last_item_clamps() {
    let mut p = three_items();
    p.jump_to(2);
    assert!(p.remove(2));
    assert_eq!(p.current_index, 1);
    assert!(!p.remove(7));
}

#[test]
fn jump_to_validates_bounds() {
    let mut p = three_items();
    assert!(p.jump_to(2));
    assert_eq!(p.current_index, 2);
    assert!(!p.jump_to(3));
    assert_eq!(p.current_index, 2);
}

#[test]
fn clear_resets_selection() {
    let mut p = three_items();
    p.jump_to(2);
    p.clear();
    assert_eq!(p.items.len(), 0);
    assert_eq!(p.current_index, 0);
}
