# opto_sync_mcp_server

The verified core of the read-only Opto Sync MCP diagnostics server.

- `src/` is the verified library: the resource and prompt catalogs
  and their lookups (`knowledge`), the descriptive JSON documents (`json`,
  `knowledge`), the tool catalog, annotations, output bound and request
  refusals (`server`), lifecycle records (`observability`), the decisions of
  the stdio run (`runtime`), the fleet-parity identity (`parity`), and text
  helpers (`text`).
- `app/` is the process around it: the MCP transport, the logger, telemetry
  and rendering through serde_json.
- `tests/` exercise the library.
