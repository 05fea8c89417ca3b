//! A desktop media downloader's logic: validating links, deciding when an
//! update is offered, building the `yt-dlp` command line, locating and
//! installing the external tools it needs, and the window's state machine.
pub mod modules;
pub mod text;

