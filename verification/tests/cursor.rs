use musictui::selecthandler::SelectHandler;

#[test]
fn new_cursor_is_empty() {
    let handler: SelectHandler<u32> = SelectHandler::new();
    assert!(handler.items().is_empty());
    assert_eq!(handler.selected_index(), None);
}

#[test]
fn set_items_resets_cursor_to_top() {
    let mut handler: SelectHandler<u32> = SelectHandler::new();
    handler.set_items(vec![10, 20, 30]);
    assert_eq!(handler.selected_index(), Some(0));
    handler.down();
    handler.set_items(vec![5]);
    assert_eq!(handler.selected_index(), Some(0));
    handler.set_items(Vec::new());
    assert_eq!(handler.selected_index(), None);
}

#[test]
fn down_and_up_clamp_at_bounds() {
    let mut handler: SelectHandler<u32> = SelectHandler::new();
    handler.set_items(vec![1, 2, 3]);
    handler.up();
    assert_eq!(handler.selected_index(), Some(0));
    handler.down();
    assert_eq!(handler.selected_index(), Some(1));
    handler.down();
    assert_eq!(handler.selected_index(), Some(2));
    handler.down();
    assert_eq!(handler.selected_index(), Some(2));
    handler.up();
    assert_eq!(handler.selected_index(), Some(1));
}

#[test]
fn moves_on_empty_list_are_no_ops() {
    let mut handler: SelectHandler<u32> = SelectHandler::new();
    handler.down();
    assert_eq!(handler.selected_index(), None);
    handler.up();
    assert_eq!(handler.selected_index(), None);
}

#[test]
fn select_returns_item_at_cursor() {
    let mut handler: SelectHandler<u32> = SelectHandler::new();
    assert_eq!(handler.select(), None);
    handler.set_items(vec![7, 8, 9]);
    assert_eq!(handler.select(), Some(&7));
    handler.down();
    assert_eq!(handler.select(), Some(&8));
}

#[test]
fn split_rotated_keeps_length_and_elements_and_starts_at_index() {
    let mut handler: SelectHandler<u32> = SelectHandler::new();
    let items = vec![4, 9, 2, 7, 7];
    handler.set_items(items.clone());
    for at in 0..items.len() {
        let rotated = handler.split_rotated_at(at);
        assert_eq!(rotated.len(), items.len());
        assert_eq!(rotated[0], items[at]);
        let mut a = rotated.clone();
        let mut b = items.clone();
        a.sort();
        b.sort();
        assert_eq!(a, b);
    }
}

#[test]
fn split_rotated_is_tail_then_head() {
    let mut handler: SelectHandler<u32> = SelectHandler::new();
    handler.set_items(vec![1, 2, 3]);
    assert_eq!(handler.split_rotated_at(1), vec![2, 3, 1]);
    assert_eq!(handler.split_rotated_at(0), vec![1, 2, 3]);
    assert_eq!(handler.split_rotated_at(2), vec![3, 1, 2]);
}
