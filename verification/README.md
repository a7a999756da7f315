# gemini_rust

The data model of the Gemini content-generation API, written in Verus.

- `src/models.rs`: roles, parts, contents, messages, generation responses,
  embedding requests, thinking, tool and safety configuration. Constructors
  and builders state exactly what they build. The response accessors `text`,
  `function_calls`, `thoughts` and `all_text` are proved to return exactly
  what the parts of every candidate give, in order.
- `src/tools.rs`: function calls and function responses.
- `src/json.rs`: the JSON documents that function calls and responses carry,
  and the one call into `serde_json` (parsing a text), with its trusted
  contract.
- `src/laws.rs`: properties that relate several operations, such as
  "the thoughts are exactly the entries of `all_text` flagged as thoughts".
- `app/`: the serde wire format (copies of the library's types with serde's
  derives and the API's field names, converting both ways), and the
  generation settings and embeddings, which hold floating-point values.
- `tests/`: tests on concrete values.
