# Pullyt

A desktop YouTube downloader built on `yt-dlp` and FFmpeg. The logic lives in
a library verified with Verus (`src/`); the window, processes, network and
files are handled by the program in `app/`.

## Layout

- `src/text.rs` — trimming, searching and comparing text, with contracts over
  the characters of each string.
- `src/modules/downloader/domain` — requests, errors, the YouTube link check,
  release version numbers and the ports the use cases call.
- `src/modules/downloader/application` — the use cases: bootstrapping the
  tools, downloading, checking for updates.
- `src/modules/downloader/infrastructure` — the `yt-dlp` command line and its
  progress lines, the save dialog's plan, where tools live (`~/.pullyt/`),
  which files are taken from the downloaded `ffmpeg` archives (read with the
  `tar`, `xz2` and `zip` crates), and the state machines that find, install
  and check the tools.
- `src/modules/downloader/presentation` — the window's state and its updates.
- `app/` — the `iced` window and the adapters that run commands, download
  archives, write files and open dialogs, driving the library's state machines.
