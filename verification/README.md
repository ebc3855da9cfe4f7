# arq_core

The core of Arq, a spec-first coding agent: a task moves through three
phases (Research, Planning, Agent), and the agent reasons over a knowledge
graph of the codebase it works on.

The library in `src/` is written in Verus. Each public function carries a
`requires`/`ensures` contract over mathematical models (`Seq`, `Map`, spec
functions and views), and Verus proves the code against it.

## Layout

- `src/phase.rs`, `src/task.rs`, `src/manager.rs`: phases, tasks and their
  prerequisites, and the task manager over a `Storage` backend.
- `src/research/`, `src/planning/`: research documents, the context the
  knowledge graph gives, approaches and plans, the prompts that ask for them and the reading of the replies;
  `src/response.rs` finds the JSON in a reply.
- `src/knowledge/ontology/`: the node and edge types of the graph.
- `src/knowledge/parser/`: parse results and the parser registry; the Go,
  Python, TypeScript/JavaScript and Java parsers walk a tree-sitter syntax
  tree (`syntax.rs`), and `rust.rs` holds the rules the Rust parser applies.
- `src/knowledge/indexer/`: the regex-based extractor, chunking and hashing
  of files for embedding.
- `src/knowledge/records.rs`: record ids, and the string handling around
  the graph database's queries and results.
- `src/llm/`: provider selection, request bodies, the decoding of streamed
  replies and tool calls, and the Bedrock Converse client's decisions.
- `src/storage/`: the storage interface and the choices of the file store.

`app/` is the ordinary Rust around the library: the file store, the HTTP
clients for the model providers, the phase runners and the gathering of
graph context, the syn-based Rust parser, and the serde copies of the
library's record types. This build has no AWS SDK: asking for the Bedrock
provider there ends in a missing-configuration error, though the Bedrock
client's decisions stand verified in `src/llm/bedrock.rs`.

Calls into outside crates (tree-sitter, regex, sha2 and hex, serde_json,
chrono, uuid) stand behind small trusted wrappers whose doc comments say what
their contracts assume.
