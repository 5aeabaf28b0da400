pub mod audio_backend;
pub mod config;
pub mod debug_manager;
pub mod done_access;
pub mod file_manager;
pub mod musicus;
pub mod path_parts;
pub mod play_state;
pub mod playlist_manager;
pub mod random;
pub mod render;
pub mod seekable;
pub mod song;
pub mod start_access;
pub mod string_helpers;
pub mod text;
pub mod time;
