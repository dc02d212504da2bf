# openruscli

A terminal assistant that talks to a chat model (Ollama or OpenRouter) and lets
the model call local tools: files and directories, `git`, a commit-and-push to
GitHub, and saved plans. Conversations are kept as JSON files, one per session.

## Layout

- `src/` is the library, verified with Verus. It holds the conversation model,
  the reading of the models' answers (structured calls, calls written between
  `<tool_call>` tags, fenced JSON calls), the request and prompt builders, the
  streamed-answer decoders, the tool declarations and argument checks, the Git
  and GitHub tools as state machines that ask for one effect at a time, the
  prompt loop as a state machine, and the session-file and plan-file naming.
  The calls into `serde_json` and `ulid` stand behind small trusted wrappers
  whose contracts are stated in `json.rs`, `ids.rs` and `text.rs`.
- `app/` is the program around it: HTTP (`reqwest`), the terminal
  (`rustyline`), the file system and `git` processes, serde's copies of the
  library types, and `main`.
- `tests/` exercises the library on concrete values.
