# lingxi_llm_client

A client library for large language models, written in Verus. It speaks the
OpenAI Chat and Responses wires, the Anthropic Messages wire and Gemini's
`generateContent`, and their variants on Azure, Bedrock, Foundry and Vertex.

- `src/` is the library. Every function states what it returns or changes, and
  Verus proves it.
  - `framing/` takes byte streams apart: server-sent events and the binary event
    stream with its CRCs.
  - `codecs/` encodes requests and decodes responses and streams, wire by wire.
  - `files/` and `images/` plan the calls of the file and image APIs and read the
    replies.
  - `directory/` reads the model lists of the providers.
  - `configuration/` and `presets.rs` keep the connections of a user: what a
    definition says, what the user overrides, what a directory listed.
  - `exact_json.rs` writes JSON whose strings are given in UTF-16 code units, and
    `pointers.rs` shows that the pointers to them lead there.
  - `json.rs`, `text.rs`, `encoding.rs`, `views.rs`, `content.rs` and `sorted.rs`
    are what the rest is built of.
- `tests/` runs the library.
- `app/` is ordinary Rust around it: the transport, waiting, the file on disk,
  and the copies of the library's types that serde reads and writes.

What the library takes from other crates (JSON text, Base64, SHA-256, URLs) goes
through small functions marked `external_body`. Their doc comments say what is
believed of the crate without proof.
