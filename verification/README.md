# rewrite-it

A "Help me rewrite" service for Linux desktops that runs a language model
locally and answers on the DBus session bus, in Rust and Verus.

- `src/` is the library: the rules of the service, each with a contract that
  Verus proves.
  - `prompt`: rewriting styles, the chat messages, the prompt and its prefix.
  - `llm/inference`: one inference job as a dialogue with the model, token by
    token, with the reuse of the KV-cache; `llm/inference_laws` says what holds
    of every job, whatever the model answers, and `llm/cache_laws` what the
    KV-cache holds.
  - `llm/engine`, `llm/status`, `llm/sampling`: the life cycle of the engine, and
    how the model is set up.
  - `model`: how the model file is found or downloaded.
  - `config`: settings, their defaults and their file.
  - `dbus`, `relay`: which requests are accepted, what they are answered, and the
    signals of a streaming rewrite.
  - `daemon`: idle exit, watchdog and command-line input.
  - `text`, `path`, `clock`: the text, path and time functions behind these.
- `app/` is the program around it: the command line, the session bus, the model
  (llama.cpp), files, downloads and the clipboard. The library says what to do
  next, and `app/` does it and hands back what came of it.
- `tests/` are tests of the library.

A path is held as the bytes that the operating system knows it by, and the
sampling temperature as the bits of a single-precision number. A settings file
need only hold what it overrides; `idle_timeout_secs = "never"` keeps the daemon
from exiting by itself.

What the library takes on trust stands in the doc comments of the items marked
`external_body` or `assume_specification`: a few functions of the standard
library, the user's directories (`dirs`) and random job numbers (`uuid`).
