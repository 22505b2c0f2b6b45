# openfang_runtime

Verified pieces of the OpenFang runtime:

- `codex_oauth`: the OpenAI Codex OAuth PKCE flow: PKCE pairs and state,
  the authorization URL (`urlencoding` percent-encodes its values), token
  responses and Codex CLI credentials, account IDs from JWT claims, the forms
  posted to the token endpoint and what its replies give, and (`token_resolution`) the decisions of
  "find valid tokens, refreshing when expired" as a step function.
- `drivers::openai_codex`: the driver's token cache (lifetimes, freshness) and
  the extra request headers.
- `command_lane`: shell command classification and warnings, lanes and their
  concurrency limits.
- `tool_compat`: mapping of foreign tool names onto OpenFang tools.
- `json`, `text`: the JSON model and the string helpers the above rely on.

`app/` holds what cannot be verified: file storage of tokens, the HTTP
exchanges, the async loop that drives token resolution, lane submission of
futures, and the driver's lock.
