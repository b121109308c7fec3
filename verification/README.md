# gemini-live-api

A client for real-time, bidirectional conversations with Gemini models over
the Live API's WebSocket protocol, with function calling.

The crate in `src/` is verified with Verus. It holds the protocol's messages,
the wire codes of languages, roles, modalities and voice-activity settings, the
setup that a builder assembles, the messages a client sends, and every decision
of the connection: the endpoint URL, how frames are read, when the setup has
succeeded, what each event of the listening loop leads to, and how a server
message is dispatched to the handlers and its function calls answered. It also
holds the analysis behind the `tool_function` attribute: the schema of a tool's
parameters, read from the function's signature.

`app/` runs what cannot be verified around it: the JSON encoding (serde), the
asynchronous connection task (tokio, tokio-tungstenite), the event and tool
handlers, the asynchronous sending operations, the error messages, and the
code generation of `tool_function` (syn, quote). The attribute itself needs a
procedural-macro crate whose `#[proc_macro_attribute] fn tool_function` hands
its input to `app::tool_macro::expand_tool_function`; that crate is not part
of this repository.

`tests/` exercises the library on concrete values.
