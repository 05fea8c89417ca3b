pub mod archives;
pub mod dependencies;
pub mod ffmpeg_suite;
pub mod github_releases;
pub mod save_dialog;
pub mod tool_lookup;
pub mod yt_dlp;
