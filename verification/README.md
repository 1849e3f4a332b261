# ov_chat

A chat with a bot over HTTP: single messages and an interactive chat, with whole or streamed
answers.

`src/` is a library, verified with Verus, that takes every decision and performs none of the
input or output. A command starts with `ChatCommand::run`. From then on the library says what to
show and what to do, and is told what came of it:

- `exchange` is one message and its answer. `ChatCommand::advance` takes it from event to event:
  the status, the text of a refusal, the body, or the chunks of a stream and the events in them.
- `interactive` is the chat around the exchanges. `ChatCommand::converse` takes it from line to
  line.
- `command` holds the credentials and the requests, `sse` the framing of a stream, and `render`
  what is shown.
- `laws` states what holds of every exchange and of every chat: that a session, once known, is
  kept; that the last message of a stream is the one shown; that a stream is read as the texts of
  its chunks, one after the other, and that it does not matter where it is cut as long as no
  character is cut in two; that a refused request fails with its status; and more.

What is believed without proof is small: that `String::from_utf8_lossy` decodes valid UTF-8 as it
stands and that its result on other bytes depends on them alone, and what `reqwest::StatusCode`
says of a status code (`sse::from_utf8_lossy`, `error::is_success`, `error::write_status`).

`app/` is the program: the command line, the configuration file, HTTP, JSON, the line editor and
the terminal. `tests/` runs the library on concrete values.
