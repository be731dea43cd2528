use opto_sync_mcp_server::parity::{dependencies, org_spec, provider_operations};

#[test]
fn identity_dependencies_and_provider_contract_are_exact() {
    let spec = org_spec("opto-sync-mcp-server", "0.1.0");
    assert_eq!(spec.organization, "opto-sync");
    assert_eq!(spec.repository, "opto-sync/opto-sync-mcp-server.rs");
    assert!(dependencies().contains(&"opto-sync/syncer.c"));
    assert!(dependencies().contains(&"opto-sync/syncer.rs"));
    assert!(dependencies().contains(&"shared-auth/shared-auth-lib"));
    assert!(dependencies().contains(&"ORESoftware/k8s-cluster"));
    assert_eq!(provider_operations().len(), 16);
    assert!(provider_operations().windows(2).all(|pair| pair[0] < pair[1]));
}

#[test]
fn org_spec_carries_the_package_and_every_dependency() {
    let spec = org_spec("opto-sync-mcp-server", "1.2.3");
    assert_eq!(spec.service_name, "opto-sync-mcp-server");
    assert_eq!(spec.package_name, "opto-sync-mcp-server");
    assert_eq!(spec.version, "1.2.3");
    assert_eq!(spec.dependencies, dependencies());
    assert_eq!(spec.dependencies.len(), 14);
    assert!(spec.dependencies.windows(2).all(|pair| pair[0] < pair[1]));
    assert_eq!(spec.dependencies[0], "ORESoftware/k8s-cluster");
    assert_eq!(spec.dependencies[13], "zed-pkg/zed-cli");
}

#[test]
fn provider_operations_are_reads_only() {
    let ops = provider_operations();
    assert!(ops.iter().all(|op| op.starts_with("read_")));
    assert_eq!(ops[0], "read_auth_settings");
    assert_eq!(ops[15], "read_zone");
}
