# lumina_rcs

The verified core of Lumina, a desktop client for Google Messages that talks
to a helper process (the bridge) over newline-delimited JSON.

`src/` is checked by Verus:

- `browsers` — the browsers whose cookie stores are read, per platform, their
  display names and probing order.
- `cookie_jar` — cookies and the name-to-value map handed to the bridge.
- `cookies` — judging what probing the browsers yielded (`detect`) and
  whether one browser's cookies can be used to pair (`import`).
- `pending` — the calls that wait for a response, by request id.
- `protocol` — framing a request as one line of JSON, and routing a line that
  comes back to its waiting call or publishing it as an event.
- `media` — answering the front end's media requests from the bridge's reply.
- `gaia` — the embedded sign-in window, which pairs at most once.

`app/` is the Tauri application around it: the bridge process and its pipes,
the commands the front end invokes, reading browser cookie stores, and the
sign-in window.
