//! The fleet-parity identity of the server: its organization, repository,
//! package, dependency graph, and the provider read operations it relies on.

use vstd::prelude::*;

use crate::text::{lemma_neighbours_sorted, neighbours_sorted, strictly_sorted};

verus! {

/// The organization, repository, package and dependency identity.
pub struct OrgSpec {
    pub organization: &'static str,
    pub repository: &'static str,
    pub service_name: &'static str,
    pub package_name: &'static str,
    pub dependencies: Vec<&'static str>,
    pub version: &'static str,
}

/// The repositories that the server depends on.
pub open spec fn spec_dependencies() -> Seq<&'static str> {
    seq![
        "ORESoftware/k8s-cluster",
        "ORESoftware/k8s-libs-and-shared-defs",
        "ORESoftware/mcp-rust-libs",
        "declarative-migrations/dpm",
        "opto-sync/opto-sync-clients",
        "opto-sync/opto-sync-interfaces",
        "opto-sync/opto-sync-lib",
        "opto-sync/syncer.c",
        "opto-sync/syncer.rs",
        "ores-otel/ores-mcp-server-core-libs.rs",
        "shared-auth/shared-auth-clients",
        "shared-auth/shared-auth-interfaces",
        "shared-auth/shared-auth-lib",
        "zed-pkg/zed-cli",
    ]
}

/// The read operations implemented by the shared provider adapters.
pub open spec fn spec_provider_operations() -> Seq<&'static str> {
    seq![
        "read_auth_settings",
        "read_caller_identity",
        "read_data_api_schema",
        "read_dependency_snapshot",
        "read_deployments",
        "read_dns_records",
        "read_eks_clusters",
        "read_enabled_services",
        "read_latest_workflow_run",
        "read_organization",
        "read_pods",
        "read_project",
        "read_project_branches",
        "read_projects",
        "read_service_snapshot",
        "read_zone",
    ]
}

/// The text of each entry of `s`.
pub open spec fn texts(s: Seq<&'static str>) -> Seq<Seq<char>> {
    s.map_values(|t: &'static str| t@)
}

/// The repositories that the server depends on, sorted.
pub fn dependencies() -> (r: Vec<&'static str>)
    ensures
        r@ == spec_dependencies(),
{
    let r = vec![
        "ORESoftware/k8s-cluster",
        "ORESoftware/k8s-libs-and-shared-defs",
        "ORESoftware/mcp-rust-libs",
        "declarative-migrations/dpm",
        "opto-sync/opto-sync-clients",
        "opto-sync/opto-sync-interfaces",
        "opto-sync/opto-sync-lib",
        "opto-sync/syncer.c",
        "opto-sync/syncer.rs",
        "ores-otel/ores-mcp-server-core-libs.rs",
        "shared-auth/shared-auth-clients",
        "shared-auth/shared-auth-interfaces",
        "shared-auth/shared-auth-lib",
        "zed-pkg/zed-cli",
    ];
    assert(r@ =~= spec_dependencies());
    r
}

/// The exact read operations implemented by the shared provider adapters, sorted.
pub fn provider_operations() -> (r: Vec<&'static str>)
    ensures
        r@ == spec_provider_operations(),
{
    let r = vec![
        "read_auth_settings",
        "read_caller_identity",
        "read_data_api_schema",
        "read_dependency_snapshot",
        "read_deployments",
        "read_dns_records",
        "read_eks_clusters",
        "read_enabled_services",
        "read_latest_workflow_run",
        "read_organization",
        "read_pods",
        "read_project",
        "read_project_branches",
        "read_projects",
        "read_service_snapshot",
        "read_zone",
    ];
    assert(r@ =~= spec_provider_operations());
    r
}

/// The immutable organization, repository, package and dependency identity,
/// for the package `package_name` at `version`.
pub fn org_spec(package_name: &'static str, version: &'static str) -> (r: OrgSpec)
    ensures
        r.organization == "opto-sync",
        r.repository == "opto-sync/opto-sync-mcp-server.rs",
        r.service_name == "opto-sync-mcp-server",
        r.package_name == package_name,
        r.dependencies@ == spec_dependencies(),
        r.version == version,
{
    OrgSpec {
        organization: "opto-sync",
        repository: "opto-sync/opto-sync-mcp-server.rs",
        service_name: "opto-sync-mcp-server",
        package_name,
        dependencies: dependencies(),
        version,
    }
}

/// There are sixteen provider operations, strictly sorted, none listed twice.
pub proof fn lemma_provider_operations_sorted()
    ensures
        spec_provider_operations().len() == 16,
        strictly_sorted(texts(spec_provider_operations())),
{
    reveal_strlit("read_auth_settings");
    reveal_strlit("read_caller_identity");
    reveal_strlit("read_data_api_schema");
    reveal_strlit("read_dependency_snapshot");
    reveal_strlit("read_deployments");
    reveal_strlit("read_dns_records");
    reveal_strlit("read_eks_clusters");
    reveal_strlit("read_enabled_services");
    reveal_strlit("read_latest_workflow_run");
    reveal_strlit("read_organization");
    reveal_strlit("read_pods");
    reveal_strlit("read_project");
    reveal_strlit("read_project_branches");
    reveal_strlit("read_projects");
    reveal_strlit("read_service_snapshot");
    reveal_strlit("read_zone");
    let t = texts(spec_provider_operations());
    assert(t[0] == "read_auth_settings"@);
    assert(t[1] == "read_caller_identity"@);
    assert(t[2] == "read_data_api_schema"@);
    assert(t[3] == "read_dependency_snapshot"@);
    assert(t[4] == "read_deployments"@);
    assert(t[5] == "read_dns_records"@);
    assert(t[6] == "read_eks_clusters"@);
    assert(t[7] == "read_enabled_services"@);
    assert(t[8] == "read_latest_workflow_run"@);
    assert(t[9] == "read_organization"@);
    assert(t[10] == "read_pods"@);
    assert(t[11] == "read_project"@);
    assert(t[12] == "read_project_branches"@);
    assert(t[13] == "read_projects"@);
    assert(t[14] == "read_service_snapshot"@);
    assert(t[15] == "read_zone"@);
    assert(neighbours_sorted(t)) by {
        reveal_with_fuel(crate::text::char_lex_lt, 16);
    }
    lemma_neighbours_sorted(t);
}

/// The dependencies are strictly sorted, none listed twice.
pub proof fn lemma_dependencies_sorted()
    ensures
        strictly_sorted(texts(spec_dependencies())),
{
    reveal_strlit("ORESoftware/k8s-cluster");
    reveal_strlit("ORESoftware/k8s-libs-and-shared-defs");
    reveal_strlit("ORESoftware/mcp-rust-libs");
    reveal_strlit("declarative-migrations/dpm");
    reveal_strlit("opto-sync/opto-sync-clients");
    reveal_strlit("opto-sync/opto-sync-interfaces");
    reveal_strlit("opto-sync/opto-sync-lib");
    reveal_strlit("opto-sync/syncer.c");
    reveal_strlit("opto-sync/syncer.rs");
    reveal_strlit("ores-otel/ores-mcp-server-core-libs.rs");
    reveal_strlit("shared-auth/shared-auth-clients");
    reveal_strlit("shared-auth/shared-auth-interfaces");
    reveal_strlit("shared-auth/shared-auth-lib");
    reveal_strlit("zed-pkg/zed-cli");
    let t = texts(spec_dependencies());
    assert(t[0] == "ORESoftware/k8s-cluster"@);
    assert(t[1] == "ORESoftware/k8s-libs-and-shared-defs"@);
    assert(t[2] == "ORESoftware/mcp-rust-libs"@);
    assert(t[3] == "declarative-migrations/dpm"@);
    assert(t[4] == "opto-sync/opto-sync-clients"@);
    assert(t[5] == "opto-sync/opto-sync-interfaces"@);
    assert(t[6] == "opto-sync/opto-sync-lib"@);
    assert(t[7] == "opto-sync/syncer.c"@);
    assert(t[8] == "opto-sync/syncer.rs"@);
    assert(t[9] == "ores-otel/ores-mcp-server-core-libs.rs"@);
    assert(t[10] == "shared-auth/shared-auth-clients"@);
    assert(t[11] == "shared-auth/shared-auth-interfaces"@);
    assert(t[12] == "shared-auth/shared-auth-lib"@);
    assert(t[13] == "zed-pkg/zed-cli"@);
    assert(neighbours_sorted(t)) by {
        reveal_with_fuel(crate::text::char_lex_lt, 28);
    }
    lemma_neighbours_sorted(t);
}

} // verus!
