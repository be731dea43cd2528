use opto_sync_mcp_server::knowledge::{prompts, resources};
use opto_sync_mcp_server::server::{
    finish_outcome, get_prompt, read_resource, server_identity, tool_annotations, tool_catalog,
    truncate_output, CatalogError, ToolClass, ToolOutcome, MAX_TOOL_OUTPUT_BYTES, SERVER_NAME,
    SERVER_NAMESPACE,
};

#[test]
fn exact_prefixed_tool_catalog_is_exposed() {
    let names = tool_catalog()
        .into_iter()
        .map(|tool| tool.name.to_string())
        .collect::<Vec<_>>();
    assert_eq!(
        names,
        [
            "opto_sync_consumer_matrix",
            "opto_sync_contract_invariants",
            "opto_sync_fleet_map",
            "opto_sync_lifecycle_state",
            "opto_sync_plan",
            "opto_sync_runtime_readiness",
            "opto_sync_safety_boundary",
            "opto_sync_shared_platform",
        ]
    );
}

#[test]
fn metadata_is_read_only_and_namespaced() {
    let info = server_identity();
    assert_eq!(info.name, SERVER_NAME);
    assert!(info.instructions.to_ascii_lowercase().contains("read-only"));
    let annotations = tool_annotations();
    assert!(
        annotations.read_only && !annotations.destructive && annotations.idempotent
    );
    assert!(!annotations.open_world);
}

#[test]
fn output_bound_fails_closed() {
    assert!(truncate_output("x".repeat(MAX_TOOL_OUTPUT_BYTES)).is_ok());
    assert!(truncate_output("x".repeat(MAX_TOOL_OUTPUT_BYTES + 1)).is_err());
}

#[test]
fn output_bound_keeps_the_result_and_counts_bytes() {
    assert_eq!(truncate_output(String::new()), Ok(String::new()));
    assert_eq!(truncate_output("{\"readOnly\":true}".to_string()), Ok("{\"readOnly\":true}".to_string()));
    let wide = "\u{e9}".repeat(MAX_TOOL_OUTPUT_BYTES / 2);
    assert_eq!(wide.len(), MAX_TOOL_OUTPUT_BYTES);
    assert_eq!(truncate_output(wide.clone()), Ok(wide.clone()));
    let over = format!("{wide}x");
    assert_eq!(
        truncate_output(over),
        Err("Opto Sync tool result exceeded the fixed output bound".to_string())
    );
    assert_eq!(MAX_TOOL_OUTPUT_BYTES, 40_960);
}

#[test]
fn tool_catalog_is_namespaced_and_classified() {
    let catalog = tool_catalog();
    assert_eq!(catalog.len(), 8);
    assert!(catalog.iter().all(|tool| tool.name.starts_with("opto_sync_")));
    assert!(catalog.windows(2).all(|pair| pair[0].name < pair[1].name));
    let plan = catalog.iter().find(|tool| tool.name == "opto_sync_plan").expect("plan tool");
    assert!(plan.class == ToolClass::Details);
    assert!(plan.failure == ToolOutcome::Rejected);
    let lifecycle = catalog
        .iter()
        .find(|tool| tool.name == "opto_sync_lifecycle_state")
        .expect("lifecycle tool");
    assert!(lifecycle.class == ToolClass::Health);
    assert!(lifecycle.description.contains("Callers cannot trigger transitions"));
    let fleet = catalog.iter().find(|tool| tool.name == "opto_sync_fleet_map").expect("fleet tool");
    assert!(fleet.class == ToolClass::Inventory);
    assert!(catalog
        .iter()
        .filter(|tool| tool.name != "opto_sync_plan")
        .all(|tool| tool.failure == ToolOutcome::Error));
}

#[test]
fn tool_calls_are_counted_by_outcome() {
    let catalog = tool_catalog();
    for tool in &catalog {
        assert!(finish_outcome(tool, true) == ToolOutcome::Success);
    }
    let plan = catalog.iter().find(|tool| tool.name == "opto_sync_plan").expect("plan tool");
    assert!(finish_outcome(plan, false) == ToolOutcome::Rejected);
    let matrix = catalog
        .iter()
        .find(|tool| tool.name == "opto_sync_consumer_matrix")
        .expect("matrix tool");
    assert!(finish_outcome(matrix, false) == ToolOutcome::Error);
}

#[test]
fn unknown_resources_and_prompts_are_refused() {
    assert!(matches!(
        read_resource("file:///etc/passwd"),
        Err(CatalogError::ResourceNotFound("unknown Opto Sync resource"))
    ));
    assert!(matches!(
        get_prompt("run_shell"),
        Err(CatalogError::InvalidParams("unknown Opto Sync prompt"))
    ));
    for listed in resources() {
        match read_resource(listed.uri) {
            Ok(found) => assert_eq!(found.body, listed.body),
            Err(_) => panic!("listed resource is served"),
        }
    }
    for listed in prompts() {
        match get_prompt(listed.name) {
            Ok(found) => assert_eq!(found.text, listed.text),
            Err(_) => panic!("listed prompt is served"),
        }
    }
}

#[test]
fn server_identity_is_namespaced() {
    let info = server_identity();
    assert_eq!(info.name, "opto-sync-mcp-server");
    assert_eq!(SERVER_NAMESPACE, "opto-sync");
    assert!(info.name.starts_with(SERVER_NAMESPACE));
    assert_eq!(info.title, "Opto Sync MCP Server");
    assert!(info.instructions.contains("missing configuration is never success"));
}

#[test]
fn server_instructions_are_exact() {
    let info = server_identity();
    assert_eq!(
        info.instructions,
        "Read-only Opto Sync diagnostics for reconciliation, contract invariants, cross-language consumer compatibility, and provider posture. The exact same MCP 2025-11-25 catalog is served to Cursor, ChatGPT/OpenAI, Gemini, Grok, and Qwen over stdio or Shared-Auth-protected Streamable HTTP. Start with organization_posture for GitHub, AWS, GCP, Supabase, Neon, Cloudflare, ORESoftware/k8s-cluster, and NATS; missing configuration is never success."
    );
    assert_eq!(info.instructions.len(), 441);
}
