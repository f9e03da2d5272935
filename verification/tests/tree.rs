use musictui::folder_handler::{Folder, FolderHandler, Node};
use musictui::paths::{parent_segments, split_path};
use musictui::song::{Song, SongType};

fn local_song(title: &str, path: &str) -> Song {
    Song {
        title: title.to_string(),
        artist: None,
        album: None,
        total_time: 100,
        song_type: SongType::Local { path: path.to_string() },
    }
}

fn seg(parts: &[&str]) -> Vec<String> {
    parts.iter().map(|p| p.to_string()).collect()
}

#[test]
fn split_path_splits_at_separators() {
    let segs = split_path("music/rock/song.mp3");
    assert_eq!(segs, vec!["music", "rock", "song.mp3"]);
}

#[test]
fn split_path_keeps_leading_empty_segment() {
    let segs = split_path("/home/song.mp3");
    assert_eq!(segs, vec!["", "home", "song.mp3"]);
}

#[test]
fn split_path_without_separator_is_one_segment() {
    assert_eq!(split_path("song.mp3"), vec!["song.mp3"]);
}

#[test]
fn split_path_edge_cases() {
    assert_eq!(split_path(""), vec![""]);
    assert_eq!(split_path("a/"), vec!["a", ""]);
    assert_eq!(split_path("//"), vec!["", "", ""]);
}

#[test]
fn a_song_at_the_root_itself_needs_no_folder() {
    let mut root = Folder::new("root".to_string(), Vec::new());
    root.add_child_at_path(Node::Song(local_song("Top", "top.mp3")), &Vec::new());
    assert_eq!(root.get_children().len(), 1);
    assert!(matches!(&root.get_children()[0], Node::Song(s) if s.title == "Top"));
}

#[test]
fn parent_segments_drop_the_file_name() {
    assert_eq!(parent_segments("music/rock/song.mp3"), vec!["music", "rock"]);
    assert_eq!(parent_segments("song.mp3"), Vec::<String>::new());
}

#[test]
fn add_child_at_path_creates_missing_folders() {
    let mut root = Folder::new("root".to_string(), Vec::new());
    let song = local_song("Deep", "a/b/deep.mp3");
    root.add_child_at_path(Node::Song(song), &seg(&["a", "b"]));

    let a = root.get_folder_at_path(&seg(&["a"])).expect("folder a must exist");
    assert_eq!(a.name(), "a");
    let b = a.get_folder_at_path(&seg(&["a", "b"])).expect("folder a/b must exist");
    assert_eq!(b.name(), "b");
    assert_eq!(b.get_children().len(), 1);
    match &b.get_children()[0] {
        Node::Song(s) => assert_eq!(s.title, "Deep"),
        Node::Folder(_) => panic!("expected the inserted leaf"),
    }
}

#[test]
fn insertion_order_does_not_matter_for_reachability() {
    // The grandchild arrives before anything under `a` exists; the parent
    // folder is fabricated and later inserts reuse it.
    let mut root = Folder::new("root".to_string(), Vec::new());
    root.add_child_at_path(Node::Song(local_song("One", "a/b/one.mp3")), &seg(&["a", "b"]));
    root.add_child_at_path(Node::Song(local_song("Two", "a/two.mp3")), &seg(&["a"]));
    root.add_child_at_path(Node::Song(local_song("Three", "a/b/three.mp3")), &seg(&["a", "b"]));

    let a = root.get_folder_at_path(&seg(&["a"])).expect("folder a must exist");
    let titles_a: Vec<&str> = a
        .get_children()
        .iter()
        .filter_map(|c| match c {
            Node::Song(s) => Some(s.title.as_str()),
            Node::Folder(_) => None,
        })
        .collect();
    assert_eq!(titles_a, vec!["Two"]);

    let b = a.get_folder_at_path(&seg(&["a", "b"])).expect("folder a/b must exist");
    let titles_b: Vec<&str> = b
        .get_children()
        .iter()
        .filter_map(|c| match c {
            Node::Song(s) => Some(s.title.as_str()),
            Node::Folder(_) => None,
        })
        .collect();
    assert_eq!(titles_b, vec!["One", "Three"]);
}

#[test]
fn folders_sort_before_leaves() {
    let mut root = Folder::new("root".to_string(), Vec::new());
    root.add_child(Node::Song(local_song("Loose", "loose.mp3")));
    root.add_child_at_path(Node::Song(local_song("Nested", "dir/nested.mp3")), &seg(&["dir"]));
    let children = root.get_children();
    assert_eq!(children.len(), 2);
    assert!(matches!(children[0], Node::Folder(_)));
    assert!(matches!(children[1], Node::Song(_)));
}

#[test]
fn handler_navigation_follows_the_tree() {
    let root = Folder::new("root".to_string(), Vec::new());
    let mut handler = FolderHandler::new(root);
    handler.insert_songs(vec![
        local_song("One", "a/one.mp3"),
        local_song("Two", "a/b/two.mp3"),
        local_song("Flat", "flat.mp3"),
    ]);

    // At the root: folder `a` first (folders before leaves), then `Flat`.
    assert_eq!(handler.current_folder().name(), "root");
    let children = handler.current_folder().get_children().clone();
    assert_eq!(children.len(), 2);
    assert!(matches!(children[0], Node::Folder(_)));

    // Select the folder: the browser steps into it.
    let selected = handler.select_handler_select();
    assert!(selected.is_none());
    assert_eq!(handler.current_folder().name(), "a");

    // Move past folder `b` onto the song and select it: the song comes back.
    handler.select_handler_down();
    let selected = handler.select_handler_select();
    let song = selected.expect("a song should be selected");
    assert_eq!(song.title, "One");
    assert_eq!(handler.current_folder().name(), "a");

    handler.go_to_parent();
    assert_eq!(handler.current_folder().name(), "root");
    handler.go_to_parent();
    assert_eq!(handler.current_folder().name(), "root");
}

#[test]
fn go_to_root_returns_to_the_top() {
    let root = Folder::new("root".to_string(), Vec::new());
    let mut handler = FolderHandler::new(root);
    handler.insert_songs(vec![local_song("Two", "a/b/two.mp3")]);
    handler.select_handler_select();
    handler.select_handler_select();
    assert_eq!(handler.current_folder().name(), "b");
    handler.go_to_root();
    assert_eq!(handler.current_folder().name(), "root");
}
