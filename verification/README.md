# consort

The rules of a Matrix chat client, verified with Verus: what a pile of
bytes is and how large a picture is, which correction a message shows,
what is worth interrupting somebody for and when, what one "I have read
this" sends, and what is refused before an attachment is uploaded.

- `src/` is the library. Its functions are verified against their
  contracts; calls into matrix-sdk, mime and image go through small
  trusted wrappers, each of which states what the call it makes
  returns, as far as that can be stated (a wrapper that only formats a
  log line states nothing).
- `tests/` runs the library on concrete values.
- `app/` is the shell around it: the homeserver requests, the desktop
  notification, the filesystem, and the serialised shapes the webview is
  handed.
