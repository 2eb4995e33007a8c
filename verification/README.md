# peekscreen

An MCP server that lists application windows and captures window and screen
screenshots. This crate holds its logic as a verified library:

- `src/capture.rs` — which windows are listed, how a window (by id, by title
  without regard to case, or the focused one) or a monitor (by id, or the
  primary one) is chosen, what is reported about it, and the error texts.
- `src/imaging.rs` — output formats and their names, the RGBA image type,
  proportional downscaling, PNG/JPEG encoding and base64 wrapping.
- `src/server.rs` — the tool parameters, the texts that describe a capture,
  and the screenshot a tool answers with.
- `src/text.rs` — case folding, substring search, decimal and boolean text.
- `src/laws.rs` — properties that tie these together.

`app/` is the program around it: it asks the platform (xcap) for windows,
monitors and pixels, and serves the tools over MCP on stdio (rmcp).
