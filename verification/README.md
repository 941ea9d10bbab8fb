# discord_tui

The verified core of a terminal Discord client, written in Verus.

`src/` is the library. Every function in it carries a contract; Verus proves
all of them except five small trusted wrappers, whose contracts it takes on
trust: two around `unicode-segmentation`'s grapheme iterator, one around
`chrono`'s RFC 3339 formatting, one around `unicode-width`'s character width,
and one around `String::push`.

- `commands` — the commands the interface sends to the backend, which
  handler serves each one, and which of them must run inline, in order.
- `request_lifecycle` — the last selection sent to the gateway, and a bounded
  set of recent requests that expire after a time to live.
- `text_cursor` — byte cursors over UTF-8 text, clamped to character
  boundaries and moved one grapheme cluster at a time (`unicode-segmentation`).
- `clipboard` — the order in which clipboard backends are tried and the error
  reported when all fail.
- `keys`, `keybindings`, `keyboard`, `popup_keys`, `back_out`, `paste`,
  `terminal` — key events, numbered shortcuts, the steps of the keyboard,
  popup and leader handlers and what they hand back, the order in which Back
  steps out of nested views, and what a terminal event does.
- `state` — the dashboard state: navigation, the member pane, modal popups,
  member actions and the user profile popup.
- `rest`, `decimal` — the Discord REST requests (method, URL, JSON body,
  the label their failures carry), what a sent request comes to, and the
  decimal text of identifiers; end times are written by `chrono`.
- `url_picker`, `display_width`, `layout` — lines of the URL picker, cut to
  the popup's width in columns (`unicode-width`), and message row heights.

`app/` holds what Verus does not see: the system clipboard (`arboard`,
`crossterm`'s OSC 52), conversion of terminal key events, the HTTP client
(`reqwest`, `serde_json`), the async command loop (`tokio`), drawing
(`ratatui`), and the runners that carry out the library's keyboard and
terminal steps on the interface's operations.

`tests/` runs the library on concrete values.
