use musicus::config::{Cache, FileManagerCache, ViewState};
use musicus::file_manager::file_utils::DirectoryEntry;
use musicus::file_manager::{DirectoryListing, FileManager};
use musicus::play_state::PlayMode;
use musicus::playlist_manager::PlaylistView;
use musicus::render::RenderColor::{Black, Blue, White};
use musicus::render::{Alignment, RenderColor, RenderEntry};

fn entry(directory: &str, name: &str, is_file: bool) -> DirectoryEntry {
    DirectoryEntry {
        is_file,
        filename: name.to_string(),
        path: format!("{}/{}", directory, name),
    }
}

fn music() -> Vec<DirectoryEntry> {
    vec![
        entry("/music", "album", false),
        entry("/music", "other", false),
        entry("/music", "song.ogg", true),
    ]
}

fn root() -> Vec<DirectoryEntry> {
    vec![entry("", "home", false), entry("", "music", false)]
}

fn browser() -> FileManager {
    let cache = FileManagerCache { current_directory: "/music/other".to_string() };
    let listings = vec![
        DirectoryListing { path: "/".to_string(), entries: root() },
        DirectoryListing { path: "/music".to_string(), entries: music() },
    ];
    FileManager::new(&cache, &listings)
}

fn line(entry: &RenderEntry) -> (String, RenderColor, RenderColor) {
    (entry.text.clone(), entry.foreground_color, entry.background_color)
}

#[test]
fn a_cache_that_has_kept_nothing() {
    let cache = Cache::default("/home".to_string());
    assert_eq!(cache.view, ViewState::FileManager);
    assert_eq!(cache.play_mode, PlayMode::Normal);
    assert_eq!(cache.filemanager_cache.current_directory, "/home");
    assert_eq!(cache.playlist_manager_cache.view, PlaylistView::Overview);
    assert_eq!(cache.playlist_manager_cache.shown_playlist_index, 0);
    assert_eq!(cache.playlist_manager_cache.playlist_scroll_position, 0);
    assert!(cache.playlist_manager_cache.scroll_cursor_positions.is_empty());
    assert_eq!(cache.volume, 100);
    assert!(cache.follow);
}

#[test]
fn a_new_file_browser_points_down_to_its_directory() {
    let manager = browser();
    assert_eq!(manager.current_path, "/music/other");
    assert_eq!(manager.position_of(&"/".to_string()), (1, 0));
    assert_eq!(manager.position_of(&"/music".to_string()), (1, 0));
    assert_eq!(manager.position_of(&"/music/other".to_string()), (0, 0));
    assert_eq!(manager.positions.len(), 2);
}

#[test]
fn positions_are_kept_for_each_directory() {
    let mut manager = browser();
    manager.set_position(&"/music".to_string(), 2, 1);
    manager.set_position(&"/else".to_string(), 5, 4);
    assert_eq!(manager.position_of(&"/music".to_string()), (2, 1));
    assert_eq!(manager.position_of(&"/else".to_string()), (5, 4));
    assert_eq!(manager.position_of(&"/".to_string()), (1, 0));
    assert_eq!(manager.positions.len(), 3);
}

#[test]
fn the_file_browser_goes_left_and_right() {
    let mut manager = browser();
    manager.move_left();
    assert_eq!(manager.current_path, "/music");
    manager.move_right(&music());
    assert_eq!(manager.current_path, "/music/other");
    manager.move_left();
    manager.move_left();
    assert_eq!(manager.current_path, "/");
    manager.move_left();
    assert_eq!(manager.current_path, "/");
    manager.move_to_parent(None);
    assert_eq!(manager.current_path, "/");
    manager.move_to_parent(Some("/up".to_string()));
    assert_eq!(manager.current_path, "/up");
    // a cursor on no entry leads nowhere
    manager.move_right(&Vec::new());
    assert_eq!(manager.current_path, "/up");
    assert_eq!(manager.get_current_num_entries(&music()), 3);
}

#[test]
fn the_file_browser_goes_up_and_down() {
    let mut manager = browser();
    manager.move_down(&music(), 2);
    assert_eq!(manager.current_path, "/music/song.ogg");
    assert_eq!(manager.position_of(&"/music".to_string()), (2, 1));
    manager.move_down(&music(), 2);
    assert_eq!(manager.current_path, "/music/song.ogg");
    assert_eq!(manager.position_of(&"/music".to_string()), (2, 1));
    manager.move_up(&music());
    assert_eq!(manager.current_path, "/music/other");
    assert_eq!(manager.position_of(&"/music".to_string()), (1, 1));
    manager.move_up(&music());
    assert_eq!(manager.current_path, "/music/album");
    assert_eq!(manager.position_of(&"/music".to_string()), (0, 0));
    manager.move_up(&music());
    assert_eq!(manager.current_path, "/music/album");
    assert_eq!(manager.position_of(&"/music".to_string()), (0, 0));
}

#[test]
fn the_cursor_of_a_directory_moves() {
    let mut manager = browser();
    manager.move_cursor_up();
    assert_eq!(manager.position_of(&"/music/other".to_string()), (0, 0));
    manager.move_cursor_down(1, 3);
    assert_eq!(manager.position_of(&"/music/other".to_string()), (0, 0));
    for _ in 0..8 {
        manager.move_cursor_down(6, 3);
    }
    assert_eq!(manager.position_of(&"/music/other".to_string()), (5, 3));
    manager.move_cursor_up();
    assert_eq!(manager.position_of(&"/music/other".to_string()), (4, 3));
    manager.move_cursor_up();
    manager.move_cursor_up();
    assert_eq!(manager.position_of(&"/music/other".to_string()), (2, 2));
}

#[test]
fn the_file_browser_is_drawn() {
    let manager = browser();
    let listings = vec![
        DirectoryListing { path: "/".to_string(), entries: root() },
        DirectoryListing { path: "/music".to_string(), entries: music() },
        DirectoryListing {
            path: "/music/other".to_string(),
            entries: vec![entry("/music/other", "a.ogg", true)],
        },
    ];
    let object = manager.get_render_object(&listings);
    assert_eq!(object.alignment, Alignment::Right);
    assert_eq!(object.panels.len(), 3);
    assert_eq!(
        object.panels[0].entries.iter().map(line).collect::<Vec<_>>(),
        vec![("home".to_string(), Blue, Black), ("music".to_string(), Black, Blue)]
    );
    assert_eq!(
        object.panels[1].entries.iter().map(line).collect::<Vec<_>>(),
        vec![
            ("album".to_string(), Blue, Black),
            ("other".to_string(), Black, Blue),
            ("song.ogg".to_string(), White, Black)
        ]
    );
    // in the last panel nothing is under the cursor
    assert_eq!(
        object.panels[2].entries.iter().map(line).collect::<Vec<_>>(),
        vec![("a.ogg".to_string(), White, Black)]
    );
    assert_eq!(object.panels[1].scroll_position, 0);
}
