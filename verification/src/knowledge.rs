//! Shared fleet knowledge: the resource and prompt catalogs and the three
//! descriptive documents. Nothing here exposes a mutation path.

use vstd::prelude::*;
use vstd::string::StringSliceAdditionalSpecFns;

use crate::json::{entry_value, Json, JsonView};

use crate::text::{absent_between, distinct, lemma_absent_between, occurs_at, word_at, word_end, lemma_neighbours_sorted, lemma_utf8_len_bound, neighbours_sorted, str_equal, strictly_sorted};

verus! {

/// A read-only resource that the server lists and serves.
#[derive(Clone, Copy)]
pub struct ResourceDocument {
    pub uri: &'static str,
    pub name: &'static str,
    pub description: &'static str,
    pub mime_type: &'static str,
    pub body: &'static str,
}

/// A prompt that the server lists and serves.
#[derive(Clone, Copy)]
pub struct PromptDocument {
    pub name: &'static str,
    pub description: &'static str,
    pub text: &'static str,
}

/// Bodies of served resources stay below this many bytes.
pub const MAX_RESOURCE_BODY_BYTES: usize = 16384;
pub const PROTOCOL_DESCRIPTION: &'static str = "Conflict, replay, watermark, tombstone, and compatibility invariants shared by Opto Sync consumers.";
pub const PROTOCOL_BODY: &'static str = "# Opto Sync protocol invariants\n\n- Mutation identities are stable across retries.\n- Replays are idempotent and preserve causal order.\n- A server watermark cannot acknowledge an identity the client has not allocated.\n- Tombstones participate in reconciliation until every relevant replica has observed them.\n- Conflicts are resolved by an explicit strategy; payloads are never silently discarded.\n- Rust, Dart, and TypeScript consumers share versioned JSON-schema contracts.\n";
pub const ORG_MAP_DESCRIPTION: &'static str = "Exact repositories, deployment authority, clients, and shared service boundaries for Opto Sync.";
pub const ORG_MAP_BODY: &'static str = "# opto-sync organization\n\n- `syncer.c`: canonical deep-merge engine\n- `syncer.rs`: Rust, C ABI, and WebAssembly engine\n- `opto-sync-interfaces`: transport-neutral schemas\n- `opto-sync-lib`: local-first synchronization semantics\n- `opto-sync-clients`: Dart, TypeScript, and Rust clients\n- `opto-sync-mcp-server.rs`: read-only diagnostics\n- `ORESoftware/k8s-cluster`: deployment authority\n- `shared-auth`: identity authority\n- `ores-otel`: telemetry\n- `zed-pkg`: dependency intent\n";
pub const CONTRACT_SCHEMA_DESCRIPTION: &'static str = "Bounded schema outline for mutation envelopes, watermarks, conflicts, and acknowledgements.";
pub const CONTRACT_SCHEMA_BODY: &'static str = r#"{"$schema":"https://json-schema.org/draft/2020-12/schema","title":"OptoSyncContractOutline","type":"object","additionalProperties":false,"required":["mutationId","replicaId","schemaVersion","operation"],"properties":{"mutationId":{"type":"string","minLength":1,"maxLength":128},"replicaId":{"type":"string","minLength":1,"maxLength":128},"schemaVersion":{"type":"string","minLength":1,"maxLength":64},"operation":{"enum":["upsert","delete","acknowledge"]},"watermark":{"type":"integer","minimum":0},"conflictStrategy":{"enum":["reject","last_write_wins","deep_merge","manual"]}}}"#;
pub const CONSUMER_COMPATIBILITY_DESCRIPTION: &'static str = "Review cross-language Opto Sync consumer compatibility without changing a contract or deployment.";
pub const CONSUMER_COMPATIBILITY_TEXT: &'static str = "Review opto_sync_consumer_matrix, opto_sync_contract_invariants, zed_dependency_graph, and github_posture. Identify schema-version, generated-client, replay, and watermark incompatibilities across Rust, Dart, and TypeScript. Cite evidence and propose additive remediation only; do not mutate repositories or providers.";
pub const DEPLOY_READINESS_DESCRIPTION: &'static str = "Decide whether the Opto Sync MCP and synchronization stack have sufficient evidence to deploy.";
pub const DEPLOY_READINESS_TEXT: &'static str = "Evaluate organization_posture, opto_sync_runtime_readiness, opto_sync_lifecycle_state, opto_sync_contract_invariants, and github_posture. Treat not_configured, degraded, unauthorized, and forbidden as distinct states. Report blockers and evidence; never infer provider success from missing configuration.";
pub const SYNC_CONFLICT_REVIEW_DESCRIPTION: &'static str = "Review a synchronization design against Opto Sync conflict and replay invariants.";
pub const SYNC_CONFLICT_REVIEW_TEXT: &'static str = "Use opto_sync_plan, opto_sync_contract_invariants, opto_sync_consumer_matrix, and the docs://opto-sync-protocol resource. Check stable mutation identity, idempotent replay, causal ordering, watermarks, tombstones, explicit conflict strategy, and consumer schema compatibility. Produce a read-only review with concrete failed invariants.";

/// The resource catalog, in the order in which it is listed.
pub open spec fn resource_catalog() -> Seq<ResourceDocument> {
    seq![
        ResourceDocument {
            uri: "docs://opto-sync-protocol",
            name: "Opto Sync protocol invariants",
            description: PROTOCOL_DESCRIPTION,
            mime_type: "text/markdown",
            body: PROTOCOL_BODY,
        },
        ResourceDocument {
            uri: "orgmap://opto-sync",
            name: "Opto Sync organization map",
            description: ORG_MAP_DESCRIPTION,
            mime_type: "text/markdown",
            body: ORG_MAP_BODY,
        },
        ResourceDocument {
            uri: "schema://opto-sync-contract",
            name: "Opto Sync contract schema outline",
            description: CONTRACT_SCHEMA_DESCRIPTION,
            mime_type: "application/json",
            body: CONTRACT_SCHEMA_BODY,
        },
    ]
}

/// The prompt catalog, in the order in which it is listed.
pub open spec fn prompt_catalog() -> Seq<PromptDocument> {
    seq![
        PromptDocument { name: "consumer_compatibility", description: CONSUMER_COMPATIBILITY_DESCRIPTION, text: CONSUMER_COMPATIBILITY_TEXT },
        PromptDocument { name: "deploy_readiness", description: DEPLOY_READINESS_DESCRIPTION, text: DEPLOY_READINESS_TEXT },
        PromptDocument { name: "sync_conflict_review", description: SYNC_CONFLICT_REVIEW_DESCRIPTION, text: SYNC_CONFLICT_REVIEW_TEXT },
    ]
}

/// The URIs of the listed resources, in order.
pub open spec fn resource_uris() -> Seq<Seq<char>> {
    resource_catalog().map_values(|d: ResourceDocument| d.uri@)
}

/// The names of the listed prompts, in order.
pub open spec fn prompt_names() -> Seq<Seq<char>> {
    prompt_catalog().map_values(|d: PromptDocument| d.name@)
}

/// The resource served under `uri`, if the catalog lists one.
pub open spec fn spec_resource(uri: Seq<char>) -> Option<ResourceDocument> {
    if exists|i: int| 0 <= i < resource_catalog().len() && #[trigger] resource_catalog()[i].uri@ == uri {
        let i = choose|i: int| 0 <= i < resource_catalog().len() && #[trigger] resource_catalog()[i].uri@ == uri;
        Some(resource_catalog()[i])
    } else {
        None
    }
}

/// The prompt served under `name`, if the catalog lists one.
pub open spec fn spec_prompt(name: Seq<char>) -> Option<PromptDocument> {
    if exists|i: int| 0 <= i < prompt_catalog().len() && #[trigger] prompt_catalog()[i].name@ == name {
        let i = choose|i: int| 0 <= i < prompt_catalog().len() && #[trigger] prompt_catalog()[i].name@ == name;
        Some(prompt_catalog()[i])
    } else {
        None
    }
}

/// The listed resources, in catalog order.
pub fn resources() -> (r: Vec<ResourceDocument>)
    ensures
        r@ == resource_catalog(),
{
    let r = vec![
        ResourceDocument {
            uri: "docs://opto-sync-protocol",
            name: "Opto Sync protocol invariants",
            description: PROTOCOL_DESCRIPTION,
            mime_type: "text/markdown",
            body: PROTOCOL_BODY,
        },
        ResourceDocument {
            uri: "orgmap://opto-sync",
            name: "Opto Sync organization map",
            description: ORG_MAP_DESCRIPTION,
            mime_type: "text/markdown",
            body: ORG_MAP_BODY,
        },
        ResourceDocument {
            uri: "schema://opto-sync-contract",
            name: "Opto Sync contract schema outline",
            description: CONTRACT_SCHEMA_DESCRIPTION,
            mime_type: "application/json",
            body: CONTRACT_SCHEMA_BODY,
        },
    ];
    assert(r@ =~= resource_catalog());
    r
}

/// The listed prompts, in catalog order.
pub fn prompts() -> (r: Vec<PromptDocument>)
    ensures
        r@ == prompt_catalog(),
{
    let r = vec![
        PromptDocument {
            name: "consumer_compatibility",
            description: CONSUMER_COMPATIBILITY_DESCRIPTION,
            text: CONSUMER_COMPATIBILITY_TEXT,
        },
        PromptDocument {
            name: "deploy_readiness",
            description: DEPLOY_READINESS_DESCRIPTION,
            text: DEPLOY_READINESS_TEXT,
        },
        PromptDocument {
            name: "sync_conflict_review",
            description: SYNC_CONFLICT_REVIEW_DESCRIPTION,
            text: SYNC_CONFLICT_REVIEW_TEXT,
        },
    ];
    assert(r@ =~= prompt_catalog());
    r
}

/// The resource listed under `uri`; nothing for a URI that the catalog does not list.
pub fn resource(uri: &str) -> (r: Option<ResourceDocument>)
    ensures
        r == spec_resource(uri@),
{
    let all = resources();
    let mut i: usize = 0;
    while i < all.len()
        invariant
            all@ == resource_catalog(),
            i <= all@.len(),
            forall|k: int| 0 <= k < i ==> (#[trigger] resource_catalog()[k]).uri@ != uri@,
        decreases all@.len() - i,
    {
        if str_equal(all[i].uri, uri) {
            proof {
                lemma_resource_uris_sorted();
                assert(resource_catalog()[i as int].uri@ == uri@);
                let j = choose|j: int| 0 <= j < resource_catalog().len() && #[trigger] resource_catalog()[j].uri@ == uri@;
                assert(resource_uris()[j] == resource_uris()[i as int]);
                assert(j == i);
            }
            return Some(all[i]);
        }
        i = i + 1;
    }
    None
}

/// The prompt listed under `name`; nothing for a name that the catalog does not list.
pub fn prompt(name: &str) -> (r: Option<PromptDocument>)
    ensures
        r == spec_prompt(name@),
{
    let all = prompts();
    let mut i: usize = 0;
    while i < all.len()
        invariant
            all@ == prompt_catalog(),
            i <= all@.len(),
            forall|k: int| 0 <= k < i ==> (#[trigger] prompt_catalog()[k]).name@ != name@,
        decreases all@.len() - i,
    {
        if str_equal(all[i].name, name) {
            proof {
                lemma_prompt_names_sorted();
                assert(prompt_catalog()[i as int].name@ == name@);
                let j = choose|j: int| 0 <= j < prompt_catalog().len() && #[trigger] prompt_catalog()[j].name@ == name@;
                assert(prompt_names()[j] == prompt_names()[i as int]);
                assert(j == i);
            }
            return Some(all[i]);
        }
        i = i + 1;
    }
    None
}

/// The resource catalog is sorted by URI, so no URI is listed twice.
pub proof fn lemma_resource_uris_sorted()
    ensures
        strictly_sorted(resource_uris()),
        distinct(resource_uris()),
        resource_uris().len() == resource_catalog().len(),
        forall|i: int| 0 <= i < resource_catalog().len() ==> #[trigger] resource_uris()[i] == resource_catalog()[i].uri@,
{
    reveal_strlit("docs://opto-sync-protocol");
    reveal_strlit("orgmap://opto-sync");
    reveal_strlit("schema://opto-sync-contract");
    let u = resource_uris();
    assert(u[0] == "docs://opto-sync-protocol"@);
    assert(u[1] == "orgmap://opto-sync"@);
    assert(u[2] == "schema://opto-sync-contract"@);
    assert(neighbours_sorted(u));
    lemma_neighbours_sorted(u);
}

/// The prompt catalog is sorted by name, so no name is listed twice.
pub proof fn lemma_prompt_names_sorted()
    ensures
        strictly_sorted(prompt_names()),
        distinct(prompt_names()),
        prompt_names().len() == prompt_catalog().len(),
        forall|i: int| 0 <= i < prompt_catalog().len() ==> #[trigger] prompt_names()[i] == prompt_catalog()[i].name@,
{
    reveal_strlit("consumer_compatibility");
    reveal_strlit("deploy_readiness");
    reveal_strlit("sync_conflict_review");
    let n = prompt_names();
    assert(n[0] == "consumer_compatibility"@);
    assert(n[1] == "deploy_readiness"@);
    assert(n[2] == "sync_conflict_review"@);
    assert(neighbours_sorted(n));
    lemma_neighbours_sorted(n);
}

/// Every listed resource is served back under its own URI.
pub proof fn lemma_listed_resources_resolve(i: int)
    requires
        0 <= i < resource_catalog().len(),
    ensures
        spec_resource(resource_catalog()[i].uri@) == Some(resource_catalog()[i]),
{
    lemma_resource_uris_sorted();
    let uri = resource_catalog()[i].uri@;
    assert(resource_uris()[i] == uri);
    assert forall|k: int| 0 <= k < resource_catalog().len() && #[trigger] resource_catalog()[k].uri@ == uri implies k
        == i by {
        assert(resource_uris()[k] == resource_uris()[i]);
    }
}

/// Every listed prompt is served back under its own name.
pub proof fn lemma_listed_prompts_resolve(i: int)
    requires
        0 <= i < prompt_catalog().len(),
    ensures
        spec_prompt(prompt_catalog()[i].name@) == Some(prompt_catalog()[i]),
{
    lemma_prompt_names_sorted();
    let name = prompt_catalog()[i].name@;
    assert(prompt_names()[i] == name);
    assert forall|k: int| 0 <= k < prompt_catalog().len() && #[trigger] prompt_catalog()[k].name@ == name implies k
        == i by {
        assert(prompt_names()[k] == prompt_names()[i]);
    }
}

/// Every resource body is smaller than the fixed body bound, in bytes.
pub proof fn lemma_resource_bodies_bounded()
    ensures
        forall|i: int|
            0 <= i < resource_catalog().len() ==> (#[trigger] resource_catalog()[i]).body.spec_bytes().len()
                < MAX_RESOURCE_BODY_BYTES,
{
    reveal_strlit("# Opto Sync protocol invariants\n\n- Mutation identities are stable across retries.\n- Replays are idempotent and preserve causal order.\n- A server watermark cannot acknowledge an identity the client has not allocated.\n- Tombstones participate in reconciliation until every relevant replica has observed them.\n- Conflicts are resolved by an explicit strategy; payloads are never silently discarded.\n- Rust, Dart, and TypeScript consumers share versioned JSON-schema contracts.\n");
    reveal_strlit("# opto-sync organization\n\n- `syncer.c`: canonical deep-merge engine\n- `syncer.rs`: Rust, C ABI, and WebAssembly engine\n- `opto-sync-interfaces`: transport-neutral schemas\n- `opto-sync-lib`: local-first synchronization semantics\n- `opto-sync-clients`: Dart, TypeScript, and Rust clients\n- `opto-sync-mcp-server.rs`: read-only diagnostics\n- `ORESoftware/k8s-cluster`: deployment authority\n- `shared-auth`: identity authority\n- `ores-otel`: telemetry\n- `zed-pkg`: dependency intent\n");
    reveal_strlit(r#"{"$schema":"https://json-schema.org/draft/2020-12/schema","title":"OptoSyncContractOutline","type":"object","additionalProperties":false,"required":["mutationId","replicaId","schemaVersion","operation"],"properties":{"mutationId":{"type":"string","minLength":1,"maxLength":128},"replicaId":{"type":"string","minLength":1,"maxLength":128},"schemaVersion":{"type":"string","minLength":1,"maxLength":64},"operation":{"enum":["upsert","delete","acknowledge"]},"watermark":{"type":"integer","minimum":0},"conflictStrategy":{"enum":["reject","last_write_wins","deep_merge","manual"]}}}"#);
    lemma_utf8_len_bound(PROTOCOL_BODY@);
    lemma_utf8_len_bound(ORG_MAP_BODY@);
    lemma_utf8_len_bound(CONTRACT_SCHEMA_BODY@);
}

/// An object with one text member and one boolean member.
pub open spec fn flagged(key: Seq<char>, value: Seq<char>, flag: Seq<char>, on: bool) -> JsonView {
    JsonView::Object(seq![(key, JsonView::Str(value)), (flag, JsonView::Bool(on))])
}

/// The shared platform knowledge document.
pub open spec fn spec_shared_platform() -> JsonView {
    JsonView::Object(
        seq![
            ("oreKubernetes"@, JsonView::Object(seq![
                ("role"@, JsonView::Str("GitOps deployment and runtime topology"@)),
                ("diagnosticsOnly"@, JsonView::Bool(true)),
                ("clusterMutationExposed"@, JsonView::Bool(false)),
            ])),
            ("sharedDefinitions"@, flagged(
                "role"@,
                "shared service and infrastructure contracts"@,
                "consumerMustPinReviewedRevision"@,
                true,
            )),
            ("dpm"@, flagged(
                "role"@,
                "declarative migration planning and verification"@,
                "databaseMutationExposed"@,
                false,
            )),
            ("cloudflareSquarespace"@, JsonView::Object(seq![
                ("role"@, JsonView::Str("edge, DNS, and site-handoff context"@)),
                ("credentials"@, JsonView::Str("environment only"@)),
                ("mutationExposed"@, JsonView::Bool(false)),
            ])),
            ("supabase"@, JsonView::Object(seq![
                ("role"@, JsonView::Str("data and authentication boundary where adopted"@)),
                ("credentials"@, JsonView::Str("environment/header only"@)),
                ("payloadTelemetry"@, JsonView::Bool(false)),
            ])),
            ("fiducia"@, JsonView::Object(seq![
                ("role"@, JsonView::Str("secret and lease delivery boundary"@)),
                ("credentials"@, JsonView::Str("environment/header only"@)),
                ("secretValuesExposed"@, JsonView::Bool(false)),
            ])),
        ],
    )
}

/// One invariant that every consumer must uphold.
pub open spec fn required_invariant(id: Seq<char>) -> JsonView {
    flagged("id"@, id, "required"@, true)
}

/// The contract invariants document.
pub open spec fn spec_contract_invariants() -> JsonView {
    JsonView::Object(
        seq![
            ("contract"@, JsonView::Str("opto-sync"@)),
            ("schemaAuthority"@, JsonView::Str("opto-sync/opto-sync-interfaces"@)),
            ("engines"@, JsonView::Array(seq![
                JsonView::Str("opto-sync/syncer.c"@),
                JsonView::Str("opto-sync/syncer.rs"@),
            ])),
            ("invariants"@, JsonView::Array(seq![
                required_invariant("stable_mutation_identity"@),
                required_invariant("idempotent_replay"@),
                required_invariant("causal_order_preserved"@),
                required_invariant("watermark_never_acknowledges_unallocated_identity"@),
                required_invariant("tombstones_retained_until_observed"@),
                required_invariant("conflict_strategy_is_explicit"@),
                required_invariant("payloads_excluded_from_telemetry"@),
            ])),
            ("mutationExposed"@, JsonView::Bool(false)),
        ],
    )
}

/// The capabilities that a consumer in `language` must have.
pub open spec fn consumer_requirements(language: Seq<char>) -> JsonView {
    JsonView::Object(
        seq![
            ("language"@, JsonView::Str(language)),
            ("required"@, JsonView::Array(seq![
                JsonView::Str("json_schema"@),
                JsonView::Str("offline_queue"@),
                JsonView::Str("idempotent_replay"@),
                JsonView::Str("watermark_validation"@),
            ])),
        ],
    )
}

/// The consumer compatibility matrix document.
pub open spec fn spec_consumer_matrix() -> JsonView {
    JsonView::Object(
        seq![
            ("schemaAuthority"@, JsonView::Str("opto-sync/opto-sync-interfaces"@)),
            ("clientsRepository"@, JsonView::Str("opto-sync/opto-sync-clients"@)),
            ("consumers"@, JsonView::Array(seq![
                consumer_requirements("dart"@),
                consumer_requirements("rust"@),
                consumer_requirements("typescript"@),
            ])),
            ("breakingChangePolicy"@, JsonView::Str(
                "new major schema version plus generated-client compatibility evidence"@,
            )),
            ("readOnly"@, JsonView::Bool(true)),
        ],
    )
}

fn flagged_object(key: &'static str, value: &'static str, flag: &'static str, on: bool) -> (r: Json)
    ensures
        r.view_json() == flagged(key@, value@, flag@, on),
{
    let r = Json::Object(vec![(key, Json::Str(value)), (flag, Json::Bool(on))]);
    proof {
        reveal_with_fuel(Json::view_json, 2);
    }
    assert(r.view_json()->Object_0 =~= flagged(key@, value@, flag@, on)->Object_0);
    r
}

fn three_members(
    k0: &'static str,
    v0: &'static str,
    k1: &'static str,
    v1: &'static str,
    k2: &'static str,
    on: bool,
) -> (r: Json)
    ensures
        r.view_json() == JsonView::Object(
            seq![(k0@, JsonView::Str(v0@)), (k1@, JsonView::Str(v1@)), (k2@, JsonView::Bool(on))],
        ),
{
    let r = Json::Object(vec![(k0, Json::Str(v0)), (k1, Json::Str(v1)), (k2, Json::Bool(on))]);
    proof {
        reveal_with_fuel(Json::view_json, 2);
    }
    assert(r.view_json()->Object_0 =~= seq![
        (k0@, JsonView::Str(v0@)),
        (k1@, JsonView::Str(v1@)),
        (k2@, JsonView::Bool(on)),
    ]);
    r
}

/// Shared knowledge of ORE Kubernetes, shared definitions, dpm,
/// Cloudflare/Squarespace, Supabase and Fiducia. Descriptive only.
pub fn shared_platform() -> (r: Json)
    ensures
        r.view_json() == spec_shared_platform(),
{
    let ghost d = spec_shared_platform()->Object_0;
    let ore = Json::Object(
        vec![
            ("role", Json::Str("GitOps deployment and runtime topology")),
            ("diagnosticsOnly", Json::Bool(true)),
            ("clusterMutationExposed", Json::Bool(false)),
        ],
    );
    proof {
        reveal_with_fuel(Json::view_json, 2);
    }
    assert(ore.view_json()->Object_0 =~= d[0].1->Object_0);
    let shared = flagged_object(
        "role",
        "shared service and infrastructure contracts",
        "consumerMustPinReviewedRevision",
        true,
    );
    let dpm = flagged_object(
        "role",
        "declarative migration planning and verification",
        "databaseMutationExposed",
        false,
    );
    let edge = three_members(
        "role",
        "edge, DNS, and site-handoff context",
        "credentials",
        "environment only",
        "mutationExposed",
        false,
    );
    let supabase = three_members(
        "role",
        "data and authentication boundary where adopted",
        "credentials",
        "environment/header only",
        "payloadTelemetry",
        false,
    );
    let fiducia = three_members(
        "role",
        "secret and lease delivery boundary",
        "credentials",
        "environment/header only",
        "secretValuesExposed",
        false,
    );
    let r = Json::Object(
        vec![
            ("oreKubernetes", ore),
            ("sharedDefinitions", shared),
            ("dpm", dpm),
            ("cloudflareSquarespace", edge),
            ("supabase", supabase),
            ("fiducia", fiducia),
        ],
    );
    assert(r.view_json()->Object_0 =~= d);
    r
}

/// The invariants that every Opto Sync engine and consumer must uphold.
pub fn contract_invariants() -> (r: Json)
    ensures
        r.view_json() == spec_contract_invariants(),
{
    let ghost d = spec_contract_invariants()->Object_0;
    let engines = Json::Array(vec![Json::Str("opto-sync/syncer.c"), Json::Str("opto-sync/syncer.rs")]);
    proof {
        reveal_with_fuel(Json::view_json, 2);
    }
    assert(engines.view_json()->Array_0 =~= d[2].1->Array_0);
    let invariants = Json::Array(
        vec![
            flagged_object("id", "stable_mutation_identity", "required", true),
            flagged_object("id", "idempotent_replay", "required", true),
            flagged_object("id", "causal_order_preserved", "required", true),
            flagged_object("id", "watermark_never_acknowledges_unallocated_identity", "required", true),
            flagged_object("id", "tombstones_retained_until_observed", "required", true),
            flagged_object("id", "conflict_strategy_is_explicit", "required", true),
            flagged_object("id", "payloads_excluded_from_telemetry", "required", true),
        ],
    );
    assert(invariants.view_json()->Array_0 =~= d[3].1->Array_0);
    let r = Json::Object(
        vec![
            ("contract", Json::Str("opto-sync")),
            ("schemaAuthority", Json::Str("opto-sync/opto-sync-interfaces")),
            ("engines", engines),
            ("invariants", invariants),
            ("mutationExposed", Json::Bool(false)),
        ],
    );
    assert(r.view_json()->Object_0 =~= d);
    r
}

fn consumer(language: &'static str) -> (r: Json)
    ensures
        r.view_json() == consumer_requirements(language@),
{
    let ghost d = consumer_requirements(language@)->Object_0;
    let required = Json::Array(
        vec![
            Json::Str("json_schema"),
            Json::Str("offline_queue"),
            Json::Str("idempotent_replay"),
            Json::Str("watermark_validation"),
        ],
    );
    proof {
        reveal_with_fuel(Json::view_json, 2);
    }
    assert(required.view_json()->Array_0 =~= d[1].1->Array_0);
    let r = Json::Object(vec![("language", Json::Str(language)), ("required", required)]);
    assert(r.view_json()->Object_0 =~= d);
    r
}

/// The capabilities required of the Dart, Rust and TypeScript consumers and the
/// policy for breaking changes.
pub fn consumer_matrix() -> (r: Json)
    ensures
        r.view_json() == spec_consumer_matrix(),
{
    let ghost d = spec_consumer_matrix()->Object_0;
    let consumers = Json::Array(vec![consumer("dart"), consumer("rust"), consumer("typescript")]);
    proof {
        reveal_with_fuel(Json::view_json, 2);
    }
    assert(consumers.view_json()->Array_0 =~= d[2].1->Array_0);
    let r = Json::Object(
        vec![
            ("schemaAuthority", Json::Str("opto-sync/opto-sync-interfaces")),
            ("clientsRepository", Json::Str("opto-sync/opto-sync-clients")),
            ("consumers", consumers),
            (
                "breakingChangePolicy",
                Json::Str("new major schema version plus generated-client compatibility evidence"),
            ),
            ("readOnly", Json::Bool(true)),
        ],
    );
    assert(r.view_json()->Object_0 =~= d);
    r
}

/// The contract invariants document says that no mutation is exposed, and the
/// consumer matrix says that it is read-only.
pub proof fn lemma_documents_expose_no_mutation()
    ensures
        spec_contract_invariants().member("mutationExposed"@) == Some(JsonView::Bool(false)),
        spec_consumer_matrix().member("readOnly"@) == Some(JsonView::Bool(true)),
{
    reveal_strlit("mutationExposed");
    reveal_strlit("contract");
    reveal_strlit("schemaAuthority");
    reveal_strlit("engines");
    reveal_strlit("invariants");
    reveal_strlit("readOnly");
    reveal_strlit("clientsRepository");
    reveal_strlit("consumers");
    reveal_strlit("breakingChangePolicy");
    reveal_with_fuel(entry_value, 6);
    let c = spec_contract_invariants()->Object_0;
    assert(c[0].0[0] != "mutationExposed"@[0]);
    assert(c[1].0[0] != "mutationExposed"@[0]);
    assert(c[2].0[0] != "mutationExposed"@[0]);
    assert(c[3].0[0] != "mutationExposed"@[0]);
    let m = spec_consumer_matrix()->Object_0;
    assert(m[0].0[0] != "readOnly"@[0]);
    assert(m[1].0[0] != "readOnly"@[0]);
    assert(m[2].0[0] != "readOnly"@[0]);
    assert(m[3].0[0] != "readOnly"@[0]);
}

/// A resource address, under one of the schemes that resources are listed
/// under, starts at position `k` of `text`.
pub open spec fn cites_resource_at(text: Seq<char>, k: int) -> bool {
    occurs_at(text, k, "docs://"@) || occurs_at(text, k, "orgmap://"@) || occurs_at(text, k, "schema://"@)
}

/// Every prompt has a description and a text, and every resource address that
/// a prompt's text cites is served by the resource catalog.
pub proof fn lemma_prompts_cite_listed_resources()
    ensures
        forall|i: int|
            0 <= i < prompt_catalog().len() ==> (#[trigger] prompt_catalog()[i]).description@.len() > 0
                && prompt_catalog()[i].text@.len() > 0,
        forall|i: int, k: int|
            0 <= i < prompt_catalog().len() && #[trigger] cites_resource_at(prompt_catalog()[i].text@, k)
                ==> spec_resource(word_at(prompt_catalog()[i].text@, k)) is Some,
{
    reveal_strlit("Review opto_sync_consumer_matrix, opto_sync_contract_invariants, zed_dependency_graph, and github_posture. Identify schema-version, generated-client, replay, and watermark incompatibilities across Rust, Dart, and TypeScript. Cite evidence and propose additive remediation only; do not mutate repositories or providers.");
    reveal_strlit("Review cross-language Opto Sync consumer compatibility without changing a contract or deployment.");
    reveal_strlit("Evaluate organization_posture, opto_sync_runtime_readiness, opto_sync_lifecycle_state, opto_sync_contract_invariants, and github_posture. Treat not_configured, degraded, unauthorized, and forbidden as distinct states. Report blockers and evidence; never infer provider success from missing configuration.");
    reveal_strlit("Decide whether the Opto Sync MCP and synchronization stack have sufficient evidence to deploy.");
    reveal_strlit("Use opto_sync_plan, opto_sync_contract_invariants, opto_sync_consumer_matrix, and the docs://opto-sync-protocol resource. Check stable mutation identity, idempotent replay, causal ordering, watermarks, tombstones, explicit conflict strategy, and consumer schema compatibility. Produce a read-only review with concrete failed invariants.");
    reveal_strlit("Review a synchronization design against Opto Sync conflict and replay invariants.");
    reveal_strlit("docs://");
    reveal_strlit("orgmap://");
    reveal_strlit("schema://");
    let t0 = CONSUMER_COMPATIBILITY_TEXT@;
    let t1 = DEPLOY_READINESS_TEXT@;
    let t2 = SYNC_CONFLICT_REVIEW_TEXT@;
    assert(t0.len() == 318 && t1.len() == 304 && t2.len() == 336);
    // Each text is checked from its end back to its start, twenty positions at a time.
    assert(absent_between(t0, ':', 0, 318) && absent_between(t1, ':', 0, 304) && absent_between(t2, ':', 0, 90)
        && absent_between(t2, ':', 91, 336)) by {
        reveal_with_fuel(absent_between, 21);
        assert(absent_between(t0, ':', 298, 318));
        assert(absent_between(t0, ':', 278, 318));
        assert(absent_between(t0, ':', 258, 318));
        assert(absent_between(t0, ':', 238, 318));
        assert(absent_between(t0, ':', 218, 318));
        assert(absent_between(t0, ':', 198, 318));
        assert(absent_between(t0, ':', 178, 318));
        assert(absent_between(t0, ':', 158, 318));
        assert(absent_between(t0, ':', 138, 318));
        assert(absent_between(t0, ':', 118, 318));
        assert(absent_between(t0, ':', 98, 318));
        assert(absent_between(t0, ':', 78, 318));
        assert(absent_between(t0, ':', 58, 318));
        assert(absent_between(t0, ':', 38, 318));
        assert(absent_between(t0, ':', 18, 318));
        assert(absent_between(t0, ':', 0, 318));
        assert(absent_between(t1, ':', 284, 304));
        assert(absent_between(t1, ':', 264, 304));
        assert(absent_between(t1, ':', 244, 304));
        assert(absent_between(t1, ':', 224, 304));
        assert(absent_between(t1, ':', 204, 304));
        assert(absent_between(t1, ':', 184, 304));
        assert(absent_between(t1, ':', 164, 304));
        assert(absent_between(t1, ':', 144, 304));
        assert(absent_between(t1, ':', 124, 304));
        assert(absent_between(t1, ':', 104, 304));
        assert(absent_between(t1, ':', 84, 304));
        assert(absent_between(t1, ':', 64, 304));
        assert(absent_between(t1, ':', 44, 304));
        assert(absent_between(t1, ':', 24, 304));
        assert(absent_between(t1, ':', 4, 304));
        assert(absent_between(t1, ':', 0, 304));
        assert(absent_between(t2, ':', 70, 90));
        assert(absent_between(t2, ':', 50, 90));
        assert(absent_between(t2, ':', 30, 90));
        assert(absent_between(t2, ':', 10, 90));
        assert(absent_between(t2, ':', 0, 90));
        assert(absent_between(t2, ':', 316, 336));
        assert(absent_between(t2, ':', 296, 336));
        assert(absent_between(t2, ':', 276, 336));
        assert(absent_between(t2, ':', 256, 336));
        assert(absent_between(t2, ':', 236, 336));
        assert(absent_between(t2, ':', 216, 336));
        assert(absent_between(t2, ':', 196, 336));
        assert(absent_between(t2, ':', 176, 336));
        assert(absent_between(t2, ':', 156, 336));
        assert(absent_between(t2, ':', 136, 336));
        assert(absent_between(t2, ':', 116, 336));
        assert(absent_between(t2, ':', 96, 336));
        assert(absent_between(t2, ':', 91, 336));
    }
    lemma_absent_between(t0, ':', 0, 318);
    lemma_absent_between(t1, ':', 0, 304);
    lemma_absent_between(t2, ':', 0, 90);
    lemma_absent_between(t2, ':', 91, 336);
    assert forall|t: Seq<char>, k: int| #[trigger] cites_resource_at(t, k) implies t[k + 4] == ':' || t[k + 6]
        == ':' by {
        if occurs_at(t, k, "docs://"@) {
            assert(t.subrange(k, k + 7)[4] == t[k + 4]);
        } else if occurs_at(t, k, "orgmap://"@) {
            assert(t.subrange(k, k + 9)[6] == t[k + 6]);
        } else {
            assert(t.subrange(k, k + 9)[6] == t[k + 6]);
        }
    }
    assert forall|k: int| cites_resource_at(t2, k) implies k == 86 by {
        if occurs_at(t2, k, "orgmap://"@) {
            assert(t2.subrange(k, k + 9)[6] == t2[k + 6]);
            assert(t2.subrange(k, k + 9)[0] == t2[k]);
        } else if occurs_at(t2, k, "schema://"@) {
            assert(t2.subrange(k, k + 9)[6] == t2[k + 6]);
            assert(t2.subrange(k, k + 9)[0] == t2[k]);
        } else {
            assert(t2.subrange(k, k + 7)[4] == t2[k + 4]);
        }
    }
    assert(word_end(t2, 86) == 111) by {
        reveal_with_fuel(word_end, 27);
    }
    assert(word_at(t2, 86) =~= resource_catalog()[0].uri@) by {
        reveal_strlit("docs://opto-sync-protocol");
        assert forall|j: int| 0 <= j < 25 implies #[trigger] word_at(t2, 86)[j] == resource_catalog()[0].uri@[j] by {
            assert(j == 0 || j == 1 || j == 2 || j == 3 || j == 4 || j == 5 || j == 6 || j == 7 || j == 8 || j == 9 || j == 10 || j == 11 || j == 12 || j == 13 || j == 14 || j == 15 || j == 16 || j == 17 || j == 18 || j == 19 || j == 20 || j == 21 || j == 22 || j == 23 || j == 24);
        }
    }
    lemma_listed_resources_resolve(0);
    assert(prompt_catalog()[0].text@ == t0);
    assert(prompt_catalog()[1].text@ == t1);
    assert(prompt_catalog()[2].text@ == t2);
}

} // verus!
