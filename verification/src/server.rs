//! The read-only MCP tool catalog, its annotations and output bound, and the
//! answers to resource and prompt requests.

use vstd::prelude::*;

use crate::knowledge::{prompt, resource, spec_prompt, spec_resource, PromptDocument, ResourceDocument};
use crate::text::{has_prefix, lemma_prefix_of_ten, lemma_neighbours_sorted, neighbours_sorted, strictly_sorted, utf8_len};

verus! {

/// The name under which the server introduces itself.
pub const SERVER_NAME: &'static str = "opto-sync-mcp-server";

/// The namespace of the server's telemetry.
pub const SERVER_NAMESPACE: &'static str = "opto-sync";

/// The title under which the server introduces itself.
pub const SERVER_TITLE: &'static str = "Opto Sync MCP Server";

/// What the server tells clients about itself.
pub const SERVER_INSTRUCTIONS: &'static str = "Read-only Opto Sync diagnostics for reconciliation, contract invariants, cross-language consumer compatibility, and provider posture. The exact same MCP 2025-11-25 catalog is served to Cursor, ChatGPT/OpenAI, Gemini, Grok, and Qwen over stdio or Shared-Auth-protected Streamable HTTP. Start with organization_posture for GitHub, AWS, GCP, Supabase, Neon, Cloudflare, ORESoftware/k8s-cluster, and NATS; missing configuration is never success.";

/// No tool result longer than this many bytes is ever returned.
pub const MAX_TOOL_OUTPUT_BYTES: usize = 40960;

/// Every tool name starts with this.
pub const TOOL_PREFIX: &'static str = "opto_sync_";

/// What each tool tells clients it does.
pub const OPTO_SYNC_CONSUMER_MATRIX_DESCRIPTION: &'static str = "Return the required Dart, Rust, and TypeScript consumer capabilities plus the breaking-contract policy. Pure, bounded, and read-only.";
pub const OPTO_SYNC_CONTRACT_INVARIANTS_DESCRIPTION: &'static str = "Return the exact Opto Sync replay, watermark, tombstone, conflict, schema, and telemetry invariants. Pure, bounded, and read-only.";
pub const OPTO_SYNC_FLEET_MAP_DESCRIPTION: &'static str = "Return the product-owned repository topology and component roles. Pure, local, and read-only.";
pub const OPTO_SYNC_LIFECYCLE_STATE_DESCRIPTION: &'static str = "Return the formal runtime lifecycle state, monotonic revision, and bounded transition audit. Callers cannot trigger transitions.";
pub const OPTO_SYNC_PLAN_DESCRIPTION: &'static str = "Calculate a bounded, deterministic product plan from a closed workload enum and numeric units. Never executes or mutates anything.";
pub const OPTO_SYNC_RUNTIME_READINESS_DESCRIPTION: &'static str = "Report presence-only configuration readiness. Values are never read into output, logged, or authenticated; no network request is made.";
pub const OPTO_SYNC_SAFETY_BOUNDARY_DESCRIPTION: &'static str = "Return the product-specific safety and privacy boundary. Pure, local, and read-only.";
pub const OPTO_SYNC_SHARED_PLATFORM_DESCRIPTION: &'static str = "Return bounded shared knowledge for ORE Kubernetes, shared definitions, dpm, Cloudflare/Squarespace, Supabase, and Fiducia. Descriptive only.";

/// The class under which a tool's calls are measured.
#[derive(Clone, Copy, PartialEq, Eq, Structural)]
pub enum ToolClass {
    Inventory,
    Details,
    Health,
}

/// How a measured tool call ended.
#[derive(Clone, Copy, PartialEq, Eq, Structural)]
pub enum ToolOutcome {
    Success,
    Error,
    Rejected,
}

/// A tool of the catalog: its name, description, class, and how a call that
/// fails is counted.
#[derive(Clone, Copy)]
pub struct ToolDescriptor {
    pub name: &'static str,
    pub description: &'static str,
    pub class: ToolClass,
    pub failure: ToolOutcome,
}

/// The MCP annotations that every tool carries.
#[derive(Clone, Copy)]
pub struct ToolAnnotationFlags {
    pub read_only: bool,
    pub destructive: bool,
    pub idempotent: bool,
    pub open_world: bool,
}

/// How the server introduces itself.
#[derive(Clone, Copy)]
pub struct ServerIdentity {
    pub name: &'static str,
    pub title: &'static str,
    pub instructions: &'static str,
}

/// Why a resource or prompt request was refused, with the message sent back.
#[derive(Clone, Copy)]
pub enum CatalogError {
    ResourceNotFound(&'static str),
    InvalidParams(&'static str),
}

/// The tool catalog, sorted by name.
pub open spec fn spec_tool_catalog() -> Seq<ToolDescriptor> {
    seq![
        ToolDescriptor {
            name: "opto_sync_consumer_matrix",
            description: OPTO_SYNC_CONSUMER_MATRIX_DESCRIPTION,
            class: ToolClass::Details,
            failure: ToolOutcome::Error,
        },
        ToolDescriptor {
            name: "opto_sync_contract_invariants",
            description: OPTO_SYNC_CONTRACT_INVARIANTS_DESCRIPTION,
            class: ToolClass::Details,
            failure: ToolOutcome::Error,
        },
        ToolDescriptor {
            name: "opto_sync_fleet_map",
            description: OPTO_SYNC_FLEET_MAP_DESCRIPTION,
            class: ToolClass::Inventory,
            failure: ToolOutcome::Error,
        },
        ToolDescriptor {
            name: "opto_sync_lifecycle_state",
            description: OPTO_SYNC_LIFECYCLE_STATE_DESCRIPTION,
            class: ToolClass::Health,
            failure: ToolOutcome::Error,
        },
        ToolDescriptor {
            name: "opto_sync_plan",
            description: OPTO_SYNC_PLAN_DESCRIPTION,
            class: ToolClass::Details,
            failure: ToolOutcome::Rejected,
        },
        ToolDescriptor {
            name: "opto_sync_runtime_readiness",
            description: OPTO_SYNC_RUNTIME_READINESS_DESCRIPTION,
            class: ToolClass::Health,
            failure: ToolOutcome::Error,
        },
        ToolDescriptor {
            name: "opto_sync_safety_boundary",
            description: OPTO_SYNC_SAFETY_BOUNDARY_DESCRIPTION,
            class: ToolClass::Inventory,
            failure: ToolOutcome::Error,
        },
        ToolDescriptor {
            name: "opto_sync_shared_platform",
            description: OPTO_SYNC_SHARED_PLATFORM_DESCRIPTION,
            class: ToolClass::Inventory,
            failure: ToolOutcome::Error,
        },
    ]
}

/// The names of the tools, in catalog order.
pub open spec fn tool_names() -> Seq<Seq<char>> {
    spec_tool_catalog().map_values(|t: ToolDescriptor| t.name@)
}

/// The tool catalog, sorted by name.
pub fn tool_catalog() -> (r: Vec<ToolDescriptor>)
    ensures
        r@ == spec_tool_catalog(),
{
    let r = vec![
        ToolDescriptor {
            name: "opto_sync_consumer_matrix",
            description: OPTO_SYNC_CONSUMER_MATRIX_DESCRIPTION,
            class: ToolClass::Details,
            failure: ToolOutcome::Error,
        },
        ToolDescriptor {
            name: "opto_sync_contract_invariants",
            description: OPTO_SYNC_CONTRACT_INVARIANTS_DESCRIPTION,
            class: ToolClass::Details,
            failure: ToolOutcome::Error,
        },
        ToolDescriptor {
            name: "opto_sync_fleet_map",
            description: OPTO_SYNC_FLEET_MAP_DESCRIPTION,
            class: ToolClass::Inventory,
            failure: ToolOutcome::Error,
        },
        ToolDescriptor {
            name: "opto_sync_lifecycle_state",
            description: OPTO_SYNC_LIFECYCLE_STATE_DESCRIPTION,
            class: ToolClass::Health,
            failure: ToolOutcome::Error,
        },
        ToolDescriptor {
            name: "opto_sync_plan",
            description: OPTO_SYNC_PLAN_DESCRIPTION,
            class: ToolClass::Details,
            failure: ToolOutcome::Rejected,
        },
        ToolDescriptor {
            name: "opto_sync_runtime_readiness",
            description: OPTO_SYNC_RUNTIME_READINESS_DESCRIPTION,
            class: ToolClass::Health,
            failure: ToolOutcome::Error,
        },
        ToolDescriptor {
            name: "opto_sync_safety_boundary",
            description: OPTO_SYNC_SAFETY_BOUNDARY_DESCRIPTION,
            class: ToolClass::Inventory,
            failure: ToolOutcome::Error,
        },
        ToolDescriptor {
            name: "opto_sync_shared_platform",
            description: OPTO_SYNC_SHARED_PLATFORM_DESCRIPTION,
            class: ToolClass::Inventory,
            failure: ToolOutcome::Error,
        },
    ];
    assert(r@ =~= spec_tool_catalog());
    r
}

/// The annotations of every tool: read-only, not destructive, idempotent, and
/// closed-world.
pub fn tool_annotations() -> (r: ToolAnnotationFlags)
    ensures
        r.read_only,
        !r.destructive,
        r.idempotent,
        !r.open_world,
{
    ToolAnnotationFlags { read_only: true, destructive: false, idempotent: true, open_world: false }
}

/// How a call of `tool` is counted once it has finished.
pub fn finish_outcome(tool: &ToolDescriptor, succeeded: bool) -> (r: ToolOutcome)
    ensures
        r == (if succeeded {
            ToolOutcome::Success
        } else {
            tool.failure
        }),
{
    if succeeded {
        ToolOutcome::Success
    } else {
        tool.failure
    }
}

/// A rendered tool result, unless it is longer than the fixed output bound, in
/// which case the call fails instead of returning a cut result.
pub fn truncate_output(rendered: String) -> (r: Result<String, String>)
    requires
        utf8_len(rendered@) <= usize::MAX,
    ensures
        match r {
            Ok(out) => utf8_len(rendered@) <= MAX_TOOL_OUTPUT_BYTES
                && out == rendered,
            Err(message) => utf8_len(rendered@) > MAX_TOOL_OUTPUT_BYTES
                && message@ == "Opto Sync tool result exceeded the fixed output bound"@,
        },
{
    if rendered.as_str().len() > MAX_TOOL_OUTPUT_BYTES {
        return Err("Opto Sync tool result exceeded the fixed output bound".to_owned());
    }
    Ok(rendered)
}

/// The answer to a request for the resource at `uri`: the resource, or a
/// refusal for a URI that the catalog does not list.
pub fn read_resource(uri: &str) -> (r: Result<ResourceDocument, CatalogError>)
    ensures
        match spec_resource(uri@) {
            Some(d) => r == Ok::<ResourceDocument, CatalogError>(d),
            None => r == Err::<ResourceDocument, CatalogError>(
                CatalogError::ResourceNotFound("unknown Opto Sync resource"),
            ),
        },
{
    match resource(uri) {
        Some(d) => Ok(d),
        None => Err(CatalogError::ResourceNotFound("unknown Opto Sync resource")),
    }
}

/// The answer to a request for the prompt `name`: the prompt, or a refusal for
/// a name that the catalog does not list.
pub fn get_prompt(name: &str) -> (r: Result<PromptDocument, CatalogError>)
    ensures
        match spec_prompt(name@) {
            Some(d) => r == Ok::<PromptDocument, CatalogError>(d),
            None => r == Err::<PromptDocument, CatalogError>(
                CatalogError::InvalidParams("unknown Opto Sync prompt"),
            ),
        },
{
    match prompt(name) {
        Some(d) => Ok(d),
        None => Err(CatalogError::InvalidParams("unknown Opto Sync prompt")),
    }
}

/// How the server introduces itself to clients.
pub fn server_identity() -> (r: ServerIdentity)
    ensures
        r.name == SERVER_NAME,
        r.title == SERVER_TITLE,
        r.instructions == SERVER_INSTRUCTIONS,
{
    ServerIdentity { name: SERVER_NAME, title: SERVER_TITLE, instructions: SERVER_INSTRUCTIONS }
}

/// The tool catalog is closed and namespaced: exactly eight tools, sorted by
/// name with no name twice, each name starting with `opto_sync_`.
pub proof fn lemma_tool_catalog_closed_and_namespaced()
    ensures
        tool_names().len() == 8,
        strictly_sorted(tool_names()),
        forall|i: int| 0 <= i < tool_names().len() ==> has_prefix(#[trigger] tool_names()[i], TOOL_PREFIX@),
{
    reveal_strlit("opto_sync_consumer_matrix");
    reveal_strlit("opto_sync_contract_invariants");
    reveal_strlit("opto_sync_fleet_map");
    reveal_strlit("opto_sync_lifecycle_state");
    reveal_strlit("opto_sync_plan");
    reveal_strlit("opto_sync_runtime_readiness");
    reveal_strlit("opto_sync_safety_boundary");
    reveal_strlit("opto_sync_shared_platform");
    reveal_strlit("opto_sync_");
    let n = tool_names();
    assert(n[0] == "opto_sync_consumer_matrix"@);
    assert(n[1] == "opto_sync_contract_invariants"@);
    assert(n[2] == "opto_sync_fleet_map"@);
    assert(n[3] == "opto_sync_lifecycle_state"@);
    assert(n[4] == "opto_sync_plan"@);
    assert(n[5] == "opto_sync_runtime_readiness"@);
    assert(n[6] == "opto_sync_safety_boundary"@);
    assert(n[7] == "opto_sync_shared_platform"@);
    assert(neighbours_sorted(n)) by {
        reveal_with_fuel(crate::text::char_lex_lt, 16);
    }
    lemma_neighbours_sorted(n);
    lemma_prefix_of_ten(n[0], TOOL_PREFIX@);
    lemma_prefix_of_ten(n[1], TOOL_PREFIX@);
    lemma_prefix_of_ten(n[2], TOOL_PREFIX@);
    lemma_prefix_of_ten(n[3], TOOL_PREFIX@);
    lemma_prefix_of_ten(n[4], TOOL_PREFIX@);
    lemma_prefix_of_ten(n[5], TOOL_PREFIX@);
    lemma_prefix_of_ten(n[6], TOOL_PREFIX@);
    lemma_prefix_of_ten(n[7], TOOL_PREFIX@);
}

} // verus!
