# PaperWall

A live wallpaper app for macOS and Windows. Its rules are a library written in Verus: what the
picker shows, what is stored, which bytes of a video are served, and what the app does from its
start to its end.

- `src/`: the library. Every function states what it does, and the proof functions named `law_*`
  state what holds of the library as a whole.
- `tests/`: examples of what the library does.
- `app/`: windows, files and the web view. It does what the library asks for and tells it what
  came of it. Pages, style sheets and scripts are read from `assets` beside the program.
