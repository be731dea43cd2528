use opto_sync_mcp_server::json::Json;
use opto_sync_mcp_server::knowledge::{
    consumer_matrix, contract_invariants, prompt, prompts, resource, resources, shared_platform,
    MAX_RESOURCE_BODY_BYTES,
};

#[test]
fn domain_knowledge_catalogs_are_exact_sorted_and_bounded() {
    assert_eq!(
        resources().iter().map(|item| item.uri).collect::<Vec<_>>(),
        [
            "docs://opto-sync-protocol",
            "orgmap://opto-sync",
            "schema://opto-sync-contract"
        ]
    );
    assert_eq!(
        prompts().iter().map(|item| item.name).collect::<Vec<_>>(),
        [
            "consumer_compatibility",
            "deploy_readiness",
            "sync_conflict_review"
        ]
    );
    assert!(resources().iter().all(|item| item.body.len() < 16_384));
    assert!(matches!(contract_invariants().get("mutationExposed"), Some(Json::Bool(false))));
    assert!(matches!(consumer_matrix().get("readOnly"), Some(Json::Bool(true))));
}

#[test]
fn every_listed_resource_is_served_under_its_uri() {
    for listed in resources() {
        let found = resource(listed.uri).expect("listed resource resolves");
        assert_eq!(found.uri, listed.uri);
        assert_eq!(found.name, listed.name);
        assert_eq!(found.body, listed.body);
        assert_eq!(found.mime_type, listed.mime_type);
    }
}

#[test]
fn every_listed_prompt_is_served_under_its_name() {
    for listed in prompts() {
        let found = prompt(listed.name).expect("listed prompt resolves");
        assert_eq!(found.name, listed.name);
        assert_eq!(found.text, listed.text);
        assert_eq!(found.description, listed.description);
    }
}

#[test]
fn unknown_or_near_miss_names_are_not_served() {
    assert!(resource("docs://opto-sync").is_none());
    assert!(resource("docs://opto-sync-protocol ").is_none());
    assert!(resource("").is_none());
    assert!(resource("DOCS://opto-sync-protocol").is_none());
    assert!(prompt("deploy_readines").is_none());
    assert!(prompt("sync_conflict_review_").is_none());
    assert!(prompt("").is_none());
}

#[test]
fn schema_resource_is_json_and_bodies_fit_the_bound() {
    let schema = resource("schema://opto-sync-contract").expect("schema resource");
    assert_eq!(schema.mime_type, "application/json");
    assert!(schema.body.starts_with("{\"$schema\""));
    let protocol = resource("docs://opto-sync-protocol").expect("protocol resource");
    assert_eq!(protocol.mime_type, "text/markdown");
    assert_eq!(protocol.name, "Opto Sync protocol invariants");
    assert!(resources().iter().all(|item| item.body.len() < MAX_RESOURCE_BODY_BYTES));
}

#[test]
fn contract_invariants_document_is_exact() {
    let doc = contract_invariants();
    assert!(matches!(doc.get("contract"), Some(Json::Str("opto-sync"))));
    assert!(matches!(doc.get("schemaAuthority"), Some(Json::Str("opto-sync/opto-sync-interfaces"))));
    match doc.get("engines") {
        Some(Json::Array(items)) => {
            assert_eq!(items.len(), 2);
            assert!(matches!(items[0], Json::Str("opto-sync/syncer.c")));
            assert!(matches!(items[1], Json::Str("opto-sync/syncer.rs")));
        }
        _ => panic!("engines is an array"),
    }
    match doc.get("invariants") {
        Some(Json::Array(items)) => {
            assert_eq!(items.len(), 7);
            assert!(matches!(items[0].get("id"), Some(Json::Str("stable_mutation_identity"))));
            assert!(matches!(items[6].get("id"), Some(Json::Str("payloads_excluded_from_telemetry"))));
            assert!(items.iter().all(|item| matches!(item.get("required"), Some(Json::Bool(true)))));
        }
        _ => panic!("invariants is an array"),
    }
    assert!(doc.get("missing").is_none());
}

#[test]
fn consumer_matrix_lists_three_languages_with_the_same_requirements() {
    let doc = consumer_matrix();
    match doc.get("consumers") {
        Some(Json::Array(items)) => {
            assert_eq!(items.len(), 3);
            assert!(matches!(items[0].get("language"), Some(Json::Str("dart"))));
            assert!(matches!(items[1].get("language"), Some(Json::Str("rust"))));
            assert!(matches!(items[2].get("language"), Some(Json::Str("typescript"))));
            for item in items {
                match item.get("required") {
                    Some(Json::Array(required)) => assert_eq!(required.len(), 4),
                    _ => panic!("required is an array"),
                }
            }
        }
        _ => panic!("consumers is an array"),
    }
    assert!(matches!(doc.get("clientsRepository"), Some(Json::Str("opto-sync/opto-sync-clients"))));
}

#[test]
fn shared_platform_exposes_no_mutation_or_secret() {
    let doc = shared_platform();
    let ore = doc.get("oreKubernetes").expect("ORE Kubernetes entry");
    assert!(matches!(ore.get("diagnosticsOnly"), Some(Json::Bool(true))));
    assert!(matches!(ore.get("clusterMutationExposed"), Some(Json::Bool(false))));
    let fiducia = doc.get("fiducia").expect("Fiducia entry");
    assert!(matches!(fiducia.get("secretValuesExposed"), Some(Json::Bool(false))));
    assert!(matches!(fiducia.get("credentials"), Some(Json::Str("environment/header only"))));
    let edge = doc.get("cloudflareSquarespace").expect("edge entry");
    assert!(matches!(edge.get("credentials"), Some(Json::Str("environment only"))));
    assert!(matches!(doc.get("dpm").and_then(|d| d.get("databaseMutationExposed")), Some(Json::Bool(false))));
    assert!(matches!(doc.get("supabase").and_then(|d| d.get("payloadTelemetry")), Some(Json::Bool(false))));
    assert!(doc.get("role").is_none());
    assert!(Json::Bool(true).get("role").is_none());
}

#[test]
fn prompts_cite_only_listed_resources() {
    let mut cited = 0;
    for listed in prompts() {
        assert!(!listed.description.is_empty());
        assert!(!listed.text.is_empty());
        for scheme in ["docs://", "orgmap://", "schema://"] {
            for (start, _) in listed.text.match_indices(scheme) {
                let word = listed.text[start..].split(' ').next().expect("a word");
                assert!(resource(word).is_some(), "{word} is not a listed resource");
                cited += 1;
            }
        }
    }
    assert_eq!(cited, 1);
    assert!(prompt("sync_conflict_review")
        .expect("review prompt")
        .text
        .contains("docs://opto-sync-protocol resource"));
}
