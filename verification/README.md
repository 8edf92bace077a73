# assistant2

An assistant panel beside the editors of a program: a chat with a language model that can search
the codebase and call tools. Its state and its rules are a library that is verified with Verus.

- `src/` is the library. `chat.rs` holds the chat, `round.rs` the rounds of a request to the model,
  `delta.rs` how a message is put together from the pieces in which it comes, `conversation.rs`
  what is sent to the model, `codebase.rs` what the model is told of the codebase: excerpts and the
  current file, `render.rs` what is shown, `panel.rs` the panel around the chat. `validity.rs` says
  what holds of every chat, and `laws/` what holds of the library as a whole.
- `tests/` runs the library on concrete values.
- `app/` ties the library to a window, a language model, tools and files.
