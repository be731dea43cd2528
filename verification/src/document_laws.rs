//! Laws of the catalogs and documents: what each entry says of itself and
//! how the documents agree with each other and with the dependency graph.

use vstd::prelude::*;

use crate::json::{entry_value, JsonView};
use crate::knowledge::{
    consumer_requirements, flagged, spec_consumer_matrix, spec_contract_invariants, spec_shared_platform,
    lemma_listed_prompts_resolve, lemma_listed_resources_resolve, prompt_catalog, resource_catalog,
    spec_prompt, spec_resource, CONSUMER_COMPATIBILITY_DESCRIPTION, CONSUMER_COMPATIBILITY_TEXT,
    CONTRACT_SCHEMA_BODY, CONTRACT_SCHEMA_DESCRIPTION, DEPLOY_READINESS_DESCRIPTION, DEPLOY_READINESS_TEXT,
    ORG_MAP_BODY, ORG_MAP_DESCRIPTION, PROTOCOL_BODY, PROTOCOL_DESCRIPTION, SYNC_CONFLICT_REVIEW_DESCRIPTION,
    SYNC_CONFLICT_REVIEW_TEXT,
};
use crate::parity::{spec_dependencies, texts};
use crate::server::SERVER_NAMESPACE;
use crate::text::{contains_text, has_suffix, first_segment, has_prefix, occurs_at, segment_end};

verus! {

/// No two listed resources share a name, a description or a body; every
/// markdown resource's body opens with a heading and every JSON resource's
/// body with an object.
pub proof fn lemma_resources_are_distinct_documents()
    ensures
        forall|i: int, j: int|
            0 <= i < j < resource_catalog().len() ==> {
                &&& (#[trigger] resource_catalog()[i]).body@ != (#[trigger] resource_catalog()[j]).body@
                &&& resource_catalog()[i].name@ != resource_catalog()[j].name@
                &&& resource_catalog()[i].description@ != resource_catalog()[j].description@
            },
        forall|i: int|
            0 <= i < resource_catalog().len() ==> {
                &&& (#[trigger] resource_catalog()[i]).mime_type@ == "text/markdown"@ ==> has_prefix(
                    resource_catalog()[i].body@,
                    "# "@,
                )
                &&& resource_catalog()[i].mime_type@ == "application/json"@ ==> has_prefix(
                    resource_catalog()[i].body@,
                    "{"@,
                )
            },
{
    reveal_strlit("# Opto Sync protocol invariants\n\n- Mutation identities are stable across retries.\n- Replays are idempotent and preserve causal order.\n- A server watermark cannot acknowledge an identity the client has not allocated.\n- Tombstones participate in reconciliation until every relevant replica has observed them.\n- Conflicts are resolved by an explicit strategy; payloads are never silently discarded.\n- Rust, Dart, and TypeScript consumers share versioned JSON-schema contracts.\n");
    reveal_strlit("# opto-sync organization\n\n- `syncer.c`: canonical deep-merge engine\n- `syncer.rs`: Rust, C ABI, and WebAssembly engine\n- `opto-sync-interfaces`: transport-neutral schemas\n- `opto-sync-lib`: local-first synchronization semantics\n- `opto-sync-clients`: Dart, TypeScript, and Rust clients\n- `opto-sync-mcp-server.rs`: read-only diagnostics\n- `ORESoftware/k8s-cluster`: deployment authority\n- `shared-auth`: identity authority\n- `ores-otel`: telemetry\n- `zed-pkg`: dependency intent\n");
    reveal_strlit(r#"{"$schema":"https://json-schema.org/draft/2020-12/schema","title":"OptoSyncContractOutline","type":"object","additionalProperties":false,"required":["mutationId","replicaId","schemaVersion","operation"],"properties":{"mutationId":{"type":"string","minLength":1,"maxLength":128},"replicaId":{"type":"string","minLength":1,"maxLength":128},"schemaVersion":{"type":"string","minLength":1,"maxLength":64},"operation":{"enum":["upsert","delete","acknowledge"]},"watermark":{"type":"integer","minimum":0},"conflictStrategy":{"enum":["reject","last_write_wins","deep_merge","manual"]}}}"#);
    reveal_strlit("Conflict, replay, watermark, tombstone, and compatibility invariants shared by Opto Sync consumers.");
    reveal_strlit("Exact repositories, deployment authority, clients, and shared service boundaries for Opto Sync.");
    reveal_strlit("Bounded schema outline for mutation envelopes, watermarks, conflicts, and acknowledgements.");
    reveal_strlit("Opto Sync protocol invariants");
    reveal_strlit("Opto Sync organization map");
    reveal_strlit("Opto Sync contract schema outline");
    reveal_strlit("text/markdown");
    reveal_strlit("application/json");
    reveal_strlit("# ");
    reveal_strlit("{");
    let c = resource_catalog();
    assert(c[0].body@[2] != c[1].body@[2]);
    assert(c[0].body@[0] != c[2].body@[0]);
    assert(c[1].body@[0] != c[2].body@[0]);
    assert(c[0].name@[10] != c[1].name@[10]);
    assert(c[0].name@[10] != c[2].name@[10]);
    assert(c[1].name@[10] != c[2].name@[10]);
    assert(c[0].description@[0] != c[1].description@[0]);
    assert(c[0].description@[0] != c[2].description@[0]);
    assert(c[1].description@[0] != c[2].description@[0]);
    assert(c[0].mime_type@[0] != "application/json"@[0]);
    assert(c[1].mime_type@[0] != "application/json"@[0]);
    assert(c[2].mime_type@[0] != "text/markdown"@[0]);
    assert(c[0].body@.subrange(0, 2) =~= "# "@);
    assert(c[1].body@.subrange(0, 2) =~= "# "@);
    assert(c[2].body@.subrange(0, 1) =~= "{"@);
}

/// Each listed URI is served with its own document: the protocol invariants,
/// the organization map and the contract schema outline.
pub proof fn lemma_resources_by_uri()
    ensures
        spec_resource("docs://opto-sync-protocol"@) matches Some(d) && d.body == PROTOCOL_BODY && d.description
            == PROTOCOL_DESCRIPTION && d.name@ == "Opto Sync protocol invariants"@ && d.mime_type@
            == "text/markdown"@,
        spec_resource("orgmap://opto-sync"@) matches Some(d) && d.body == ORG_MAP_BODY && d.description
            == ORG_MAP_DESCRIPTION && d.name@ == "Opto Sync organization map"@ && d.mime_type@
            == "text/markdown"@,
        spec_resource("schema://opto-sync-contract"@) matches Some(d) && d.body == CONTRACT_SCHEMA_BODY
            && d.description == CONTRACT_SCHEMA_DESCRIPTION && d.name@ == "Opto Sync contract schema outline"@
            && d.mime_type@ == "application/json"@,
{
    lemma_listed_resources_resolve(0);
    lemma_listed_resources_resolve(1);
    lemma_listed_resources_resolve(2);
}

/// Every prompt's description names what the prompt is for, by the first word
/// of the prompt's name; no two prompts share a description or a text.
pub proof fn lemma_prompts_describe_themselves()
    ensures
        forall|i: int|
            0 <= i < prompt_catalog().len() ==> contains_text(
                (#[trigger] prompt_catalog()[i]).description@,
                first_segment(prompt_catalog()[i].name@, '_'),
            ),
        forall|i: int, j: int|
            0 <= i < j < prompt_catalog().len() ==> (#[trigger] prompt_catalog()[i]).description@
                != (#[trigger] prompt_catalog()[j]).description@ && prompt_catalog()[i].text@
                != prompt_catalog()[j].text@,
{
    reveal_strlit("Review cross-language Opto Sync consumer compatibility without changing a contract or deployment.");
    reveal_strlit("Review opto_sync_consumer_matrix, opto_sync_contract_invariants, zed_dependency_graph, and github_posture. Identify schema-version, generated-client, replay, and watermark incompatibilities across Rust, Dart, and TypeScript. Cite evidence and propose additive remediation only; do not mutate repositories or providers.");
    reveal_strlit("consumer_compatibility");
    reveal_strlit("Decide whether the Opto Sync MCP and synchronization stack have sufficient evidence to deploy.");
    reveal_strlit("Evaluate organization_posture, opto_sync_runtime_readiness, opto_sync_lifecycle_state, opto_sync_contract_invariants, and github_posture. Treat not_configured, degraded, unauthorized, and forbidden as distinct states. Report blockers and evidence; never infer provider success from missing configuration.");
    reveal_strlit("deploy_readiness");
    reveal_strlit("Review a synchronization design against Opto Sync conflict and replay invariants.");
    reveal_strlit("Use opto_sync_plan, opto_sync_contract_invariants, opto_sync_consumer_matrix, and the docs://opto-sync-protocol resource. Check stable mutation identity, idempotent replay, causal ordering, watermarks, tombstones, explicit conflict strategy, and consumer schema compatibility. Produce a read-only review with concrete failed invariants.");
    reveal_strlit("sync_conflict_review");
    let c = prompt_catalog();
    assert(segment_end(c[0].name@, 0, '_') == 8) by {
        reveal_with_fuel(segment_end, 10);
    }
    assert(occurs_at(c[0].description@, 32, first_segment(c[0].name@, '_'))) by {
        assert forall|j: int| 0 <= j < 8 implies #[trigger] c[0].description@.subrange(32, 40)[j]
            == first_segment(c[0].name@, '_')[j] by {
            assert(j == 0 || j == 1 || j == 2 || j == 3 || j == 4 || j == 5 || j == 6 || j == 7);
        }
        assert(c[0].description@.subrange(32, 40) =~= first_segment(c[0].name@, '_'));
    }
    assert(segment_end(c[1].name@, 0, '_') == 6) by {
        reveal_with_fuel(segment_end, 8);
    }
    assert(occurs_at(c[1].description@, 87, first_segment(c[1].name@, '_'))) by {
        assert forall|j: int| 0 <= j < 6 implies #[trigger] c[1].description@.subrange(87, 93)[j]
            == first_segment(c[1].name@, '_')[j] by {
            assert(j == 0 || j == 1 || j == 2 || j == 3 || j == 4 || j == 5);
        }
        assert(c[1].description@.subrange(87, 93) =~= first_segment(c[1].name@, '_'));
    }
    assert(segment_end(c[2].name@, 0, '_') == 4) by {
        reveal_with_fuel(segment_end, 6);
    }
    assert(occurs_at(c[2].description@, 9, first_segment(c[2].name@, '_'))) by {
        assert forall|j: int| 0 <= j < 4 implies #[trigger] c[2].description@.subrange(9, 13)[j]
            == first_segment(c[2].name@, '_')[j] by {
            assert(j == 0 || j == 1 || j == 2 || j == 3);
        }
        assert(c[2].description@.subrange(9, 13) =~= first_segment(c[2].name@, '_'));
    }
    assert(c[0].description@[0] != c[1].description@[0]);
    assert(c[1].description@[0] != c[2].description@[0]);
    assert(c[0].description@.len() != c[2].description@.len() || c[0].description@[7] != c[2].description@[7]);
    assert(c[0].text@[0] != c[1].text@[0]);
    assert(c[0].text@[0] != c[2].text@[0]);
    assert(c[1].text@[0] != c[2].text@[0]);
}

/// Each listed prompt name is served with its own description and text.
pub proof fn lemma_prompts_by_name()
    ensures
        spec_prompt("consumer_compatibility"@) matches Some(d) && d.description
            == CONSUMER_COMPATIBILITY_DESCRIPTION && d.text == CONSUMER_COMPATIBILITY_TEXT,
        spec_prompt("deploy_readiness"@) matches Some(d) && d.description == DEPLOY_READINESS_DESCRIPTION
            && d.text == DEPLOY_READINESS_TEXT,
        spec_prompt("sync_conflict_review"@) matches Some(d) && d.description
            == SYNC_CONFLICT_REVIEW_DESCRIPTION && d.text == SYNC_CONFLICT_REVIEW_TEXT,
{
    lemma_listed_prompts_resolve(0);
    lemma_listed_prompts_resolve(1);
    lemma_listed_prompts_resolve(2);
}

/// The two members of an object built by `flagged` are found under their keys.
pub proof fn lemma_flagged_members(key: Seq<char>, value: Seq<char>, flag: Seq<char>, on: bool)
    requires
        key != flag,
    ensures
        flagged(key, value, flag, on).member(key) == Some(JsonView::Str(value)),
        flagged(key, value, flag, on).member(flag) == Some(JsonView::Bool(on)),
{
    let es = flagged(key, value, flag, on)->Object_0;
    assert(es.drop_first()[0] == es[1]);
    reveal_with_fuel(entry_value, 3);
}

/// The contract is named after the server's namespace and lists seven invariants, each required and none twice, among
/// them that a watermark never acknowledges an unallocated identity; its
/// schema authority and both engines are repositories that the server
/// depends on.
pub proof fn lemma_contract_invariants_are_distinct_and_required()
    ensures
        spec_contract_invariants().member("invariants"@) matches Some(JsonView::Array(items)) && {
            &&& items.len() == 7
            &&& forall|i: int| 0 <= i < items.len() ==> (#[trigger] items[i]).member("required"@) == Some(
                JsonView::Bool(true),
            )
            &&& forall|i: int, j: int|
                0 <= i < j < items.len() ==> (#[trigger] items[i]).member("id"@) != (#[trigger] items[j]).member(
                    "id"@,
                )
            &&& exists|i: int|
                0 <= i < items.len() && (#[trigger] items[i]).member("id"@) == Some(
                    JsonView::Str("watermark_never_acknowledges_unallocated_identity"@),
                )
        },
        spec_contract_invariants().member("contract"@) == Some(JsonView::Str(SERVER_NAMESPACE@)),
        spec_contract_invariants().member("schemaAuthority"@) matches Some(JsonView::Str(a)) && texts(
            spec_dependencies(),
        ).contains(a),
        spec_contract_invariants().member("engines"@) matches Some(JsonView::Array(engines)) && engines.len()
            == 2 && forall|i: int|
            0 <= i < engines.len() ==> ((#[trigger] engines[i]) matches JsonView::Str(e) && texts(
                spec_dependencies(),
            ).contains(e)),
{
    reveal_strlit("contract");
    reveal_strlit("schemaAuthority");
    reveal_strlit("engines");
    reveal_strlit("invariants");
    reveal_strlit("mutationExposed");
    reveal_strlit("stable_mutation_identity");
    reveal_strlit("idempotent_replay");
    reveal_strlit("causal_order_preserved");
    reveal_strlit("watermark_never_acknowledges_unallocated_identity");
    reveal_strlit("tombstones_retained_until_observed");
    reveal_strlit("conflict_strategy_is_explicit");
    reveal_strlit("payloads_excluded_from_telemetry");
    reveal_strlit("id");
    reveal_strlit("required");
    reveal_strlit("opto-sync/opto-sync-interfaces");
    reveal_strlit("opto-sync/syncer.c");
    reveal_strlit("opto-sync/syncer.rs");
    let es = spec_contract_invariants()->Object_0;
    assert(es[0].0[0] != es[1].0[0]);
    assert(es[0].0[0] != es[2].0[0]);
    assert(es[0].0[0] != es[3].0[0]);
    assert(es[0].0[0] != es[4].0[0]);
    assert(es[1].0[0] != es[2].0[0]);
    assert(es[1].0[0] != es[3].0[0]);
    assert(es[1].0[0] != es[4].0[0]);
    assert(es[2].0[0] != es[3].0[0]);
    assert(es[2].0[0] != es[4].0[0]);
    assert(es[3].0[0] != es[4].0[0]);
    reveal_with_fuel(entry_value, 6);
    assert(spec_contract_invariants().member("invariants"@) == Some(es[3].1));
    assert(spec_contract_invariants().member("schemaAuthority"@) == Some(es[1].1));
    assert(spec_contract_invariants().member("engines"@) == Some(es[2].1));
    let items = es[3].1->Array_0;
    assert("id"@[0] != "required"@[0]);
    lemma_flagged_members("id"@, "stable_mutation_identity"@, "required"@, true);
    lemma_flagged_members("id"@, "idempotent_replay"@, "required"@, true);
    lemma_flagged_members("id"@, "causal_order_preserved"@, "required"@, true);
    lemma_flagged_members("id"@, "watermark_never_acknowledges_unallocated_identity"@, "required"@, true);
    lemma_flagged_members("id"@, "tombstones_retained_until_observed"@, "required"@, true);
    lemma_flagged_members("id"@, "conflict_strategy_is_explicit"@, "required"@, true);
    lemma_flagged_members("id"@, "payloads_excluded_from_telemetry"@, "required"@, true);
    assert forall|i: int| 0 <= i < items.len() implies (#[trigger] items[i]).member("required"@) == Some(
        JsonView::Bool(true),
    ) by {
        assert(i == 0 || i == 1 || i == 2 || i == 3 || i == 4 || i == 5 || i == 6);
    }
    assert(items[0].member("id"@)->Some_0->Str_0[0] != items[1].member("id"@)->Some_0->Str_0[0]);
    assert(items[0].member("id"@)->Some_0->Str_0[0] != items[2].member("id"@)->Some_0->Str_0[0]);
    assert(items[0].member("id"@)->Some_0->Str_0[0] != items[3].member("id"@)->Some_0->Str_0[0]);
    assert(items[0].member("id"@)->Some_0->Str_0[0] != items[4].member("id"@)->Some_0->Str_0[0]);
    assert(items[0].member("id"@)->Some_0->Str_0[0] != items[5].member("id"@)->Some_0->Str_0[0]);
    assert(items[0].member("id"@)->Some_0->Str_0[0] != items[6].member("id"@)->Some_0->Str_0[0]);
    assert(items[1].member("id"@)->Some_0->Str_0[0] != items[2].member("id"@)->Some_0->Str_0[0]);
    assert(items[1].member("id"@)->Some_0->Str_0[0] != items[3].member("id"@)->Some_0->Str_0[0]);
    assert(items[1].member("id"@)->Some_0->Str_0[0] != items[4].member("id"@)->Some_0->Str_0[0]);
    assert(items[1].member("id"@)->Some_0->Str_0[0] != items[5].member("id"@)->Some_0->Str_0[0]);
    assert(items[1].member("id"@)->Some_0->Str_0[0] != items[6].member("id"@)->Some_0->Str_0[0]);
    assert(items[2].member("id"@)->Some_0->Str_0[0] != items[3].member("id"@)->Some_0->Str_0[0]);
    assert(items[2].member("id"@)->Some_0->Str_0[0] != items[4].member("id"@)->Some_0->Str_0[0]);
    assert(items[2].member("id"@)->Some_0->Str_0[1] != items[5].member("id"@)->Some_0->Str_0[1]);
    assert(items[2].member("id"@)->Some_0->Str_0[0] != items[6].member("id"@)->Some_0->Str_0[0]);
    assert(items[3].member("id"@)->Some_0->Str_0[0] != items[4].member("id"@)->Some_0->Str_0[0]);
    assert(items[3].member("id"@)->Some_0->Str_0[0] != items[5].member("id"@)->Some_0->Str_0[0]);
    assert(items[3].member("id"@)->Some_0->Str_0[0] != items[6].member("id"@)->Some_0->Str_0[0]);
    assert(items[4].member("id"@)->Some_0->Str_0[0] != items[5].member("id"@)->Some_0->Str_0[0]);
    assert(items[4].member("id"@)->Some_0->Str_0[0] != items[6].member("id"@)->Some_0->Str_0[0]);
    assert(items[5].member("id"@)->Some_0->Str_0[0] != items[6].member("id"@)->Some_0->Str_0[0]);
    assert(items[3].member("id"@) == Some(JsonView::Str("watermark_never_acknowledges_unallocated_identity"@)));
    let deps = texts(spec_dependencies());
    assert(deps[5] == "opto-sync/opto-sync-interfaces"@);
    assert(deps[7] == "opto-sync/syncer.c"@);
    assert(deps[8] == "opto-sync/syncer.rs"@);
    let engines = es[2].1->Array_0;
    assert forall|i: int| 0 <= i < engines.len() implies ((#[trigger] engines[i]) matches JsonView::Str(e)
        && deps.contains(e)) by {
        assert(i == 0 || i == 1);
    }
}

/// The two members of a consumer's entry are found under their keys.
pub proof fn lemma_consumer_members(language: Seq<char>)
    ensures
        consumer_requirements(language).member("language"@) == Some(JsonView::Str(language)),
        consumer_requirements(language).member("required"@) == Some(
            consumer_requirements(language)->Object_0[1].1,
        ),
{
    reveal_strlit("language");
    reveal_strlit("required");
    let es = consumer_requirements(language)->Object_0;
    assert(es[0].0[0] != es[1].0[0]);
    assert(es.drop_first()[0] == es[1]);
    reveal_with_fuel(entry_value, 3);
}

/// The consumer matrix names the same schema authority as the contract, and a
/// client repository that the server depends on; it lists three consumers in
/// different languages that all require the same capabilities, idempotent
/// replay among them; and it is read-only.
pub proof fn lemma_consumer_matrix_agrees_with_contract()
    ensures
        spec_consumer_matrix().member("schemaAuthority"@) == spec_contract_invariants().member(
            "schemaAuthority"@,
        ),
        spec_consumer_matrix().member("clientsRepository"@) matches Some(JsonView::Str(r)) && texts(
            spec_dependencies(),
        ).contains(r),
        spec_consumer_matrix().member("consumers"@) matches Some(JsonView::Array(cs)) && {
            &&& cs.len() == 3
            &&& forall|i: int, j: int|
                0 <= i < j < cs.len() ==> (#[trigger] cs[i]).member("language"@) != (#[trigger] cs[j]).member(
                    "language"@,
                )
            &&& forall|i: int, j: int|
                0 <= i < cs.len() && 0 <= j < cs.len() ==> (#[trigger] cs[i]).member("required"@) == (
                #[trigger] cs[j]).member("required"@)
            &&& forall|i: int|
                0 <= i < cs.len() ==> ((#[trigger] cs[i]).member("required"@) matches Some(
                    JsonView::Array(required),
                ) && required.contains(JsonView::Str("idempotent_replay"@)))
        },
        spec_consumer_matrix().member("readOnly"@) == Some(JsonView::Bool(true)),
{
    reveal_strlit("schemaAuthority");
    reveal_strlit("clientsRepository");
    reveal_strlit("consumers");
    reveal_strlit("breakingChangePolicy");
    reveal_strlit("readOnly");
    reveal_strlit("contract");
    reveal_strlit("engines");
    reveal_strlit("invariants");
    reveal_strlit("mutationExposed");
    reveal_strlit("dart");
    reveal_strlit("rust");
    reveal_strlit("typescript");
    reveal_strlit("opto-sync/opto-sync-clients");
    let es = spec_consumer_matrix()->Object_0;
    assert(es[0].0[0] != es[1].0[0]);
    assert(es[0].0[0] != es[2].0[0]);
    assert(es[0].0[0] != es[3].0[0]);
    assert(es[0].0[0] != es[4].0[0]);
    assert(es[1].0[1] != es[2].0[1]);
    assert(es[1].0[0] != es[3].0[0]);
    assert(es[1].0[0] != es[4].0[0]);
    assert(es[2].0[0] != es[3].0[0]);
    assert(es[2].0[0] != es[4].0[0]);
    assert(es[3].0[0] != es[4].0[0]);
    let ce = spec_contract_invariants()->Object_0;
    assert(ce[0].0[0] != es[0].0[0]);
    reveal_with_fuel(entry_value, 6);
    assert(spec_consumer_matrix().member("consumers"@) == Some(es[2].1));
    let cs = es[2].1->Array_0;
    lemma_consumer_members("dart"@);
    lemma_consumer_members("rust"@);
    lemma_consumer_members("typescript"@);
    assert(cs[0].member("language"@)->Some_0->Str_0[0] != cs[1].member("language"@)->Some_0->Str_0[0]);
    assert(cs[0].member("language"@)->Some_0->Str_0[0] != cs[2].member("language"@)->Some_0->Str_0[0]);
    assert(cs[1].member("language"@)->Some_0->Str_0[0] != cs[2].member("language"@)->Some_0->Str_0[0]);
    assert forall|i: int| 0 <= i < cs.len() implies ((#[trigger] cs[i]).member("required"@) matches Some(
        JsonView::Array(required),
    ) && required.contains(JsonView::Str("idempotent_replay"@))) by {
        assert(i == 0 || i == 1 || i == 2);
        assert(cs[i].member("required"@)->Some_0->Array_0[2] == JsonView::Str("idempotent_replay"@));
    }
    let deps = texts(spec_dependencies());
    assert(deps[4] == "opto-sync/opto-sync-clients"@);
}

/// A flag that exposes something: one named `...Exposed` or `...Telemetry`.
pub open spec fn exposes(key: Seq<char>) -> bool {
    has_suffix(key, "Exposed"@) || has_suffix(key, "Telemetry"@)
}

/// Every boolean member of an object is set safely: a flag that exposes
/// something is off, and every other flag (a restriction) is on.
pub open spec fn flags_safe(v: JsonView) -> bool {
    match v {
        JsonView::Object(ms) => forall|j: int|
            0 <= j < ms.len() ==> ((#[trigger] ms[j]).1 matches JsonView::Bool(b) ==> b == !exposes(ms[j].0)),
        _ => false,
    }
}

/// Credentials come from the environment only.
pub open spec fn credentials_from_environment(v: JsonView) -> bool {
    match v {
        JsonView::Object(ms) => forall|j: int|
            0 <= j < ms.len() && (#[trigger] ms[j]).0 == "credentials"@ ==> (ms[j].1 matches JsonView::Str(c)
                && has_prefix(c, "environment"@)),
        _ => false,
    }
}

/// Every boundary of the shared platform document takes credentials from the
/// environment only and sets each of its flags safely: nothing is exposed, no payload reaches telemetry, ORE Kubernetes is
/// diagnostics-only and consumers must pin a reviewed revision of the shared
/// definitions.
pub proof fn lemma_shared_platform_flags_are_safe()
    ensures
        spec_shared_platform() matches JsonView::Object(bs) && bs.len() == 6 && forall|i: int|
            0 <= i < bs.len() ==> flags_safe(#[trigger] bs[i].1) && credentials_from_environment(bs[i].1),
        spec_shared_platform().member("sharedDefinitions"@) matches Some(s) && s.member(
            "consumerMustPinReviewedRevision"@,
        ) == Some(JsonView::Bool(true)),
        spec_shared_platform().member("oreKubernetes"@) matches Some(o) && o.member("diagnosticsOnly"@)
            == Some(JsonView::Bool(true)),
{
    reveal_strlit("oreKubernetes");
    reveal_strlit("sharedDefinitions");
    reveal_strlit("dpm");
    reveal_strlit("cloudflareSquarespace");
    reveal_strlit("supabase");
    reveal_strlit("fiducia");
    reveal_strlit("clusterMutationExposed");
    reveal_strlit("consumerMustPinReviewedRevision");
    reveal_strlit("databaseMutationExposed");
    reveal_strlit("diagnosticsOnly");
    reveal_strlit("mutationExposed");
    reveal_strlit("payloadTelemetry");
    reveal_strlit("secretValuesExposed");
    reveal_strlit("role");
    reveal_strlit("credentials");
    reveal_strlit("environment");
    reveal_strlit("environment only");
    reveal_strlit("environment/header only");
    reveal_strlit("Exposed");
    reveal_strlit("Telemetry");
    let bs = spec_shared_platform()->Object_0;
    assert(bs[0].0[0] != bs[1].0[0]);
    assert(bs[0].0[0] != bs[2].0[0]);
    assert(bs[0].0[0] != bs[3].0[0]);
    assert(bs[0].0[0] != bs[4].0[0]);
    assert(bs[0].0[0] != bs[5].0[0]);
    assert(bs[1].0[0] != bs[2].0[0]);
    assert(bs[1].0[0] != bs[3].0[0]);
    assert(bs[1].0[1] != bs[4].0[1]);
    assert(bs[1].0[0] != bs[5].0[0]);
    assert(bs[2].0[0] != bs[3].0[0]);
    assert(bs[2].0[0] != bs[4].0[0]);
    assert(bs[2].0[0] != bs[5].0[0]);
    assert(bs[3].0[0] != bs[4].0[0]);
    assert(bs[3].0[0] != bs[5].0[0]);
    assert(bs[4].0[0] != bs[5].0[0]);
    assert(has_suffix("clusterMutationExposed"@, "Exposed"@)) by {
        assert forall|k: int| 0 <= k < 7 implies #[trigger] "clusterMutationExposed"@.subrange(15, 22)[k] == "Exposed"@[k] by {
            assert(k == 0 || k == 1 || k == 2 || k == 3 || k == 4 || k == 5 || k == 6);
        }
        assert("clusterMutationExposed"@.subrange(15, 22) =~= "Exposed"@);
    }
    assert(!has_suffix("clusterMutationExposed"@, "Telemetry"@)) by {
        if 9 <= 22 { assert("clusterMutationExposed"@.subrange(13, 22)[8] != "Telemetry"@[8]); }
    }
    assert(!has_suffix("consumerMustPinReviewedRevision"@, "Exposed"@)) by {
        if 7 <= 31 { assert("consumerMustPinReviewedRevision"@.subrange(24, 31)[6] != "Exposed"@[6]); }
    }
    assert(!has_suffix("consumerMustPinReviewedRevision"@, "Telemetry"@)) by {
        if 9 <= 31 { assert("consumerMustPinReviewedRevision"@.subrange(22, 31)[8] != "Telemetry"@[8]); }
    }
    assert(has_suffix("databaseMutationExposed"@, "Exposed"@)) by {
        assert forall|k: int| 0 <= k < 7 implies #[trigger] "databaseMutationExposed"@.subrange(16, 23)[k] == "Exposed"@[k] by {
            assert(k == 0 || k == 1 || k == 2 || k == 3 || k == 4 || k == 5 || k == 6);
        }
        assert("databaseMutationExposed"@.subrange(16, 23) =~= "Exposed"@);
    }
    assert(!has_suffix("databaseMutationExposed"@, "Telemetry"@)) by {
        if 9 <= 23 { assert("databaseMutationExposed"@.subrange(14, 23)[8] != "Telemetry"@[8]); }
    }
    assert(!has_suffix("diagnosticsOnly"@, "Exposed"@)) by {
        if 7 <= 15 { assert("diagnosticsOnly"@.subrange(8, 15)[6] != "Exposed"@[6]); }
    }
    assert(!has_suffix("diagnosticsOnly"@, "Telemetry"@)) by {
        if 9 <= 15 { assert("diagnosticsOnly"@.subrange(6, 15)[7] != "Telemetry"@[7]); }
    }
    assert(has_suffix("mutationExposed"@, "Exposed"@)) by {
        assert forall|k: int| 0 <= k < 7 implies #[trigger] "mutationExposed"@.subrange(8, 15)[k] == "Exposed"@[k] by {
            assert(k == 0 || k == 1 || k == 2 || k == 3 || k == 4 || k == 5 || k == 6);
        }
        assert("mutationExposed"@.subrange(8, 15) =~= "Exposed"@);
    }
    assert(!has_suffix("mutationExposed"@, "Telemetry"@)) by {
        if 9 <= 15 { assert("mutationExposed"@.subrange(6, 15)[8] != "Telemetry"@[8]); }
    }
    assert(!has_suffix("payloadTelemetry"@, "Exposed"@)) by {
        if 7 <= 16 { assert("payloadTelemetry"@.subrange(9, 16)[6] != "Exposed"@[6]); }
    }
    assert(has_suffix("payloadTelemetry"@, "Telemetry"@)) by {
        assert forall|k: int| 0 <= k < 9 implies #[trigger] "payloadTelemetry"@.subrange(7, 16)[k] == "Telemetry"@[k] by {
            assert(k == 0 || k == 1 || k == 2 || k == 3 || k == 4 || k == 5 || k == 6 || k == 7 || k == 8);
        }
        assert("payloadTelemetry"@.subrange(7, 16) =~= "Telemetry"@);
    }
    assert(has_suffix("secretValuesExposed"@, "Exposed"@)) by {
        assert forall|k: int| 0 <= k < 7 implies #[trigger] "secretValuesExposed"@.subrange(12, 19)[k] == "Exposed"@[k] by {
            assert(k == 0 || k == 1 || k == 2 || k == 3 || k == 4 || k == 5 || k == 6);
        }
        assert("secretValuesExposed"@.subrange(12, 19) =~= "Exposed"@);
    }
    assert(!has_suffix("secretValuesExposed"@, "Telemetry"@)) by {
        if 9 <= 19 { assert("secretValuesExposed"@.subrange(10, 19)[8] != "Telemetry"@[8]); }
    }
    assert(credentials_from_environment(bs[0].1)) by {
        let ms = bs[0].1->Object_0;
        assert(ms[0].0[0] != "credentials"@[0]);
        assert(ms[1].0[0] != "credentials"@[0]);
        assert(ms[2].0[1] != "credentials"@[1]);
        assert forall|j: int| 0 <= j < ms.len() && (#[trigger] ms[j]).0 == "credentials"@ implies (ms[j].1 matches JsonView::Str(c)
            && has_prefix(c, "environment"@)) by {
            assert(j == 0 || j == 1 || j == 2);
        }
    }
    assert(credentials_from_environment(bs[1].1)) by {
        let ms = bs[1].1->Object_0;
        assert(ms[0].0[0] != "credentials"@[0]);
        assert(ms[1].0[1] != "credentials"@[1]);
        assert forall|j: int| 0 <= j < ms.len() && (#[trigger] ms[j]).0 == "credentials"@ implies (ms[j].1 matches JsonView::Str(c)
            && has_prefix(c, "environment"@)) by {
            assert(j == 0 || j == 1);
        }
    }
    assert(credentials_from_environment(bs[2].1)) by {
        let ms = bs[2].1->Object_0;
        assert(ms[0].0[0] != "credentials"@[0]);
        assert(ms[1].0[0] != "credentials"@[0]);
        assert forall|j: int| 0 <= j < ms.len() && (#[trigger] ms[j]).0 == "credentials"@ implies (ms[j].1 matches JsonView::Str(c)
            && has_prefix(c, "environment"@)) by {
            assert(j == 0 || j == 1);
        }
    }
    assert(credentials_from_environment(bs[3].1)) by {
        let ms = bs[3].1->Object_0;
        assert(ms[0].0[0] != "credentials"@[0]);
        assert(ms[2].0[0] != "credentials"@[0]);
        assert(has_prefix("environment only"@, "environment"@)) by {
            assert forall|k: int| 0 <= k < 11 implies #[trigger] "environment only"@.subrange(0, 11)[k] == "environment"@[k] by {
                assert(k == 0 || k == 1 || k == 2 || k == 3 || k == 4 || k == 5 || k == 6 || k == 7 || k == 8 || k == 9 || k == 10);
            }
            assert("environment only"@.subrange(0, 11) =~= "environment"@);
        }
        assert forall|j: int| 0 <= j < ms.len() && (#[trigger] ms[j]).0 == "credentials"@ implies (ms[j].1 matches JsonView::Str(c)
            && has_prefix(c, "environment"@)) by {
            assert(j == 0 || j == 1 || j == 2);
        }
    }
    assert(credentials_from_environment(bs[4].1)) by {
        let ms = bs[4].1->Object_0;
        assert(ms[0].0[0] != "credentials"@[0]);
        assert(ms[2].0[0] != "credentials"@[0]);
        assert(has_prefix("environment/header only"@, "environment"@)) by {
            assert forall|k: int| 0 <= k < 11 implies #[trigger] "environment/header only"@.subrange(0, 11)[k] == "environment"@[k] by {
                assert(k == 0 || k == 1 || k == 2 || k == 3 || k == 4 || k == 5 || k == 6 || k == 7 || k == 8 || k == 9 || k == 10);
            }
            assert("environment/header only"@.subrange(0, 11) =~= "environment"@);
        }
        assert forall|j: int| 0 <= j < ms.len() && (#[trigger] ms[j]).0 == "credentials"@ implies (ms[j].1 matches JsonView::Str(c)
            && has_prefix(c, "environment"@)) by {
            assert(j == 0 || j == 1 || j == 2);
        }
    }
    assert(credentials_from_environment(bs[5].1)) by {
        let ms = bs[5].1->Object_0;
        assert(ms[0].0[0] != "credentials"@[0]);
        assert(ms[2].0[0] != "credentials"@[0]);
        assert(has_prefix("environment/header only"@, "environment"@)) by {
            assert forall|k: int| 0 <= k < 11 implies #[trigger] "environment/header only"@.subrange(0, 11)[k] == "environment"@[k] by {
                assert(k == 0 || k == 1 || k == 2 || k == 3 || k == 4 || k == 5 || k == 6 || k == 7 || k == 8 || k == 9 || k == 10);
            }
            assert("environment/header only"@.subrange(0, 11) =~= "environment"@);
        }
        assert forall|j: int| 0 <= j < ms.len() && (#[trigger] ms[j]).0 == "credentials"@ implies (ms[j].1 matches JsonView::Str(c)
            && has_prefix(c, "environment"@)) by {
            assert(j == 0 || j == 1 || j == 2);
        }
    }
    assert(flags_safe(bs[0].1)) by {
        let ms = bs[0].1->Object_0;
        assert forall|j: int| 0 <= j < ms.len() implies ((#[trigger] ms[j]).1 matches JsonView::Bool(b) ==> b
            == !exposes(ms[j].0)) by {
            assert(j == 0 || j == 1 || j == 2);
        }
    }
    assert(flags_safe(bs[1].1)) by {
        let ms = bs[1].1->Object_0;
        assert forall|j: int| 0 <= j < ms.len() implies ((#[trigger] ms[j]).1 matches JsonView::Bool(b) ==> b
            == !exposes(ms[j].0)) by {
            assert(j == 0 || j == 1);
        }
    }
    assert(flags_safe(bs[2].1)) by {
        let ms = bs[2].1->Object_0;
        assert forall|j: int| 0 <= j < ms.len() implies ((#[trigger] ms[j]).1 matches JsonView::Bool(b) ==> b
            == !exposes(ms[j].0)) by {
            assert(j == 0 || j == 1);
        }
    }
    assert(flags_safe(bs[3].1)) by {
        let ms = bs[3].1->Object_0;
        assert forall|j: int| 0 <= j < ms.len() implies ((#[trigger] ms[j]).1 matches JsonView::Bool(b) ==> b
            == !exposes(ms[j].0)) by {
            assert(j == 0 || j == 1 || j == 2);
        }
    }
    assert(flags_safe(bs[4].1)) by {
        let ms = bs[4].1->Object_0;
        assert forall|j: int| 0 <= j < ms.len() implies ((#[trigger] ms[j]).1 matches JsonView::Bool(b) ==> b
            == !exposes(ms[j].0)) by {
            assert(j == 0 || j == 1 || j == 2);
        }
    }
    assert(flags_safe(bs[5].1)) by {
        let ms = bs[5].1->Object_0;
        assert forall|j: int| 0 <= j < ms.len() implies ((#[trigger] ms[j]).1 matches JsonView::Bool(b) ==> b
            == !exposes(ms[j].0)) by {
            assert(j == 0 || j == 1 || j == 2);
        }
    }
    assert forall|i: int| 0 <= i < bs.len() implies flags_safe(#[trigger] bs[i].1) && credentials_from_environment(bs[i].1) by {
        assert(i == 0 || i == 1 || i == 2 || i == 3 || i == 4 || i == 5);
    }
    reveal_with_fuel(entry_value, 4);
    assert(spec_shared_platform().member("sharedDefinitions"@) == Some(bs[1].1));
    lemma_flagged_members("role"@, "shared service and infrastructure contracts"@, "consumerMustPinReviewedRevision"@, true);
    let ore = bs[0].1->Object_0;
    assert(ore[0].0[0] != ore[1].0[0]);
}

} // verus!
