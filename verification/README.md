# yard_plugin

Verified core of the yard plugins for AWS Glue.

- `src/codegen` renders PySpark fragments from a job definition: literals,
  option dictionaries, imports, JDBC authentication, transforms, sinks and the
  PII masking block. `src/codegen/laws.rs` states what holds of them as a whole.
- `src/aws` chooses the settings of an AWS client and names the scripts in S3.
- `src/glue` validates job definitions and drives their lifecycle: deployment,
  destruction and verification are state machines that say which call comes next
  and what follows from its reply. `src/glue/lifecycle.rs` states what they come
  to together.
- `src/text.rs`, `src/json.rs`, `src/string_map.rs` and `src/error.rs` hold the
  values that the rest is stated over.
- `app` is the `yard-plugin-glue` program: the plugin protocol and the calls to
  AWS.
- `tests` runs the library.

The functions in `src` state what they return in their contracts, and Verus proves
it; only a constructor of a type without fields has nothing to state. What is
believed without proof is `String::push`, the text of a `serde_json::Number`, and
four operations of `serde_json::Map`.
