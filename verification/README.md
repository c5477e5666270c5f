# socorin

The verified core of Socorin, a screenshot and screen-recording tray app.

`src/` is a Verus library; every function in it is proved against its
contract:

- `text` — Unicode whitespace and control characters, ASCII case, trimming,
  substring tests, and the conversions between `&str`, `String` and `Vec<char>`.
- `prefix` — the file-name prefix of saved files (`sanitise_prefix`) and its laws.
- `settings` — the settings, their defaults, `normalise` and its laws.
- `patch` — partial updates of the settings by key (`merge`), what an update
  has to do besides storing (`update_plan`), and the order of its steps
  (`update_next`), with the law that every update ends once and commits only
  when its hotkeys and its file were accepted.
- `recorder` — the recording state (one recording at a time, stops while
  starting) and what becomes of the file when a recording stops.
- `ffmpeg` — the check of a configured ffmpeg path and where ffmpeg is looked for
  (only absolute places; `std::path` results are named, not restated).
- `encoder` — the command lines of ffmpeg and of macOS' `screencapture`, how the
  encoder is waited for, which binary runs.
- `startup` — what a launch does with its command line; the login item; the
  window-close policy of a tray app.
- `install` — where the app runs from on macOS, and the window levels.
- `platform` — what the webviews are told about the machine.

`app/` is ordinary Rust around it: the JSON settings file, the encoder
process, environment queries, the window events and the float geometry of
areas and bars.
`tests/` runs the library on concrete values.
