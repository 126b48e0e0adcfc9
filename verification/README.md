# llm_runner_rs

The core of a local LLM runner (GGUF models through llama.cpp), as a
library whose behaviour is stated in contracts and proved with Verus, and a
binary around it.

- `src/` — the verified library:
  - `error` — the failures, their HTTP status and their descriptions;
  - `settings`, `config` — settings and command line as plain values, with
    the defaults;
  - `api` — request rules (`validation`), answers and error bodies
    (`handlers`), and the wire-independent models (`models`);
  - `service` — the chat service: answers, health, and the cutting of an
    answer into stream events, with the proof that the events rejoin to the
    answer;
  - `engine` — the conversation history and the state machine of token
    generation that the inference loop follows;
  - `cli` — the meaning of a line typed in the terminal session;
  - `text` — word counting.
- `app/` — the binary: configuration files, HTTP server, terminal loop, the
  calls into llama.cpp, and the serde/clap forms of the library's types.
- `tests/` — tests of the library.
