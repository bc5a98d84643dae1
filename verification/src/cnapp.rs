use vstd::prelude::*;

use crate::json::{fields_map, object_map, JsonFields, JsonNumber, JsonValue};
use crate::tally::{
    count_high, count_of, count_severity, count_status, tally_high, tally_severity, tally_status, HasSeverity,
    HasStatus,
};
use crate::text::{copy_opt_text, or_text, text_or};

verus! {

pub struct CnappPostureFindingRecord {
    pub id: String,
    pub device_id: Option<String>,
    pub resource_id: Option<String>,
    pub finding_kind: String,
    pub severity: String,
    pub title: String,
    pub description: Option<String>,
    pub status: String,
    pub framework: Option<String>,
    pub detected_at: String,
}

pub struct CnappCloudResourceRecord {
    pub id: String,
    pub device_id: Option<String>,
    pub provider: String,
    pub resource_type: String,
    pub name: String,
    pub region: Option<String>,
    pub risk_score: u8,
    pub status: String,
    pub discovered_at: String,
}

pub struct CnappRiskScoreRecord {
    pub id: String,
    pub device_id: Option<String>,
    pub scope_kind: String,
    pub risk_score: u8,
    pub risk_level: String,
    pub evaluated_at: String,
}

pub struct CnappWorkloadRecord {
    pub id: String,
    pub device_id: Option<String>,
    pub workload_kind: String,
    pub name: String,
    pub namespace: Option<String>,
    pub status: String,
    pub image_ref: Option<String>,
    pub discovered_at: String,
}

pub struct CnappWorkloadThreatRecord {
    pub id: String,
    pub workload_id: Option<String>,
    pub device_id: Option<String>,
    pub threat_kind: String,
    pub severity: String,
    pub title: String,
    pub status: String,
    pub detected_at: String,
}

pub struct CnappK8sClusterRecord {
    pub id: String,
    pub device_id: Option<String>,
    pub name: String,
    pub provider: String,
    pub version: Option<String>,
    pub node_count: u32,
    pub status: String,
    pub discovered_at: String,
}

pub struct CnappK8sResourceRecord {
    pub id: String,
    pub cluster_id: String,
    pub resource_kind: String,
    pub namespace: Option<String>,
    pub name: String,
    pub discovered_at: String,
}

pub struct CnappK8sFindingRecord {
    pub id: String,
    pub cluster_id: Option<String>,
    pub finding_kind: String,
    pub severity: String,
    pub title: String,
    pub status: String,
    pub detected_at: String,
}

pub struct CnappContainerImageRecord {
    pub id: String,
    pub device_id: Option<String>,
    pub repository: String,
    pub tag: Option<String>,
    pub digest: Option<String>,
    pub scan_status: String,
    pub discovered_at: String,
}

pub struct CnappContainerFindingRecord {
    pub id: String,
    pub image_id: Option<String>,
    pub severity: String,
    pub title: String,
    pub cve_id: Option<String>,
    pub package_name: Option<String>,
    pub status: String,
    pub detected_at: String,
}

pub struct CnappIacScanRecord {
    pub id: String,
    pub device_id: Option<String>,
    pub scan_kind: String,
    pub repository: Option<String>,
    pub status: String,
    pub finding_count: u32,
    pub scanned_at: String,
}

pub struct CnappIacFindingRecord {
    pub id: String,
    pub scan_id: Option<String>,
    pub severity: String,
    pub title: String,
    pub file_path: Option<String>,
    pub rule_id: Option<String>,
    pub status: String,
    pub detected_at: String,
}

pub struct CnappSecretFindingRecord {
    pub id: String,
    pub device_id: Option<String>,
    pub secret_kind: String,
    pub severity: String,
    pub source: Option<String>,
    pub file_path: Option<String>,
    pub status: String,
    pub detected_at: String,
}

pub struct CnappDependencyRecord {
    pub id: String,
    pub device_id: Option<String>,
    pub ecosystem: String,
    pub package_name: String,
    pub version: Option<String>,
    pub direct: bool,
    pub discovered_at: String,
}

pub struct CnappSupplyChainThreatRecord {
    pub id: String,
    pub device_id: Option<String>,
    pub threat_kind: String,
    pub severity: String,
    pub title: String,
    pub status: String,
    pub detected_at: String,
}

pub struct CnappSbomDocumentRecord {
    pub id: String,
    pub device_id: Option<String>,
    pub format: String,
    pub name: String,
    pub component_count: u32,
    pub generated_at: String,
}

pub struct CnappSbomComponentRecord {
    pub id: String,
    pub document_id: String,
    pub name: String,
    pub version: Option<String>,
    pub purl: Option<String>,
    pub kind: String,
}

pub struct CnappAffectedAssetRecord {
    pub id: String,
    pub vulnerability_id: String,
    pub device_id: Option<String>,
    pub asset_kind: String,
    pub asset_ref: String,
    pub status: String,
    pub detected_at: String,
}

pub struct CnappRemediationPlanRecord {
    pub id: String,
    pub finding_ref: String,
    pub plan_kind: String,
    pub status: String,
    pub title: String,
    pub priority: String,
}

pub struct CnappAttackPathRecord {
    pub id: String,
    pub device_id: Option<String>,
    pub name: String,
    pub severity: String,
    pub status: String,
    pub entry_asset: Option<String>,
    pub target_asset: Option<String>,
    pub node_count: u32,
    pub discovered_at: String,
}

pub struct CnappAttackPathNodeRecord {
    pub id: String,
    pub path_id: Option<String>,
    pub node_kind: String,
    pub label: String,
}

pub struct CnappAttackPathEdgeRecord {
    pub id: String,
    pub path_id: Option<String>,
    pub source_node_id: String,
    pub target_node_id: String,
    pub edge_kind: String,
}

pub struct CnappComplianceControlRecord {
    pub id: String,
    pub framework: String,
    pub control_id: String,
    pub title: String,
    pub category: Option<String>,
    pub enabled: bool,
}

pub struct CnappComplianceViolationRecord {
    pub id: String,
    pub device_id: Option<String>,
    pub severity: String,
    pub title: String,
    pub resource_ref: Option<String>,
    pub status: String,
    pub detected_at: String,
}

pub struct CnappTelemetrySnapshot {
    pub id: String,
    pub device_id: String,
    pub posture_finding_count: u32,
    pub workload_count: u32,
    pub k8s_finding_count: u32,
    pub container_finding_count: u32,
    pub iac_finding_count: u32,
    pub secret_finding_count: u32,
    pub vulnerability_count: u32,
    pub compliance_violation_count: u32,
    pub reported_at: String,
}

pub struct WorkloadsSummary {
    pub workload_count: i64,
    pub active_workloads: i64,
    pub threat_count: i64,
    pub open_threats: i64,
    pub workloads: Vec<CnappWorkloadRecord>,
    pub threats: Vec<CnappWorkloadThreatRecord>,
}

pub struct KubernetesSummary {
    pub cluster_count: i64,
    pub resource_count: i64,
    pub finding_count: i64,
    pub open_findings: i64,
    pub clusters: Vec<CnappK8sClusterRecord>,
    pub resources: Vec<CnappK8sResourceRecord>,
    pub findings: Vec<CnappK8sFindingRecord>,
}

pub struct ContainersSummary {
    pub image_count: i64,
    pub scanned_images: i64,
    pub finding_count: i64,
    pub critical_findings: i64,
    pub images: Vec<CnappContainerImageRecord>,
    pub findings: Vec<CnappContainerFindingRecord>,
}

pub struct IacSummary {
    pub scan_count: i64,
    pub finding_count: i64,
    pub open_findings: i64,
    pub scans: Vec<CnappIacScanRecord>,
    pub findings: Vec<CnappIacFindingRecord>,
}

pub struct SecretsSummary {
    pub finding_count: i64,
    pub open_findings: i64,
    pub high_severity: i64,
    pub findings: Vec<CnappSecretFindingRecord>,
}

pub struct SupplyChainSummary {
    pub dependency_count: i64,
    pub direct_dependencies: i64,
    pub threat_count: i64,
    pub open_threats: i64,
    pub dependencies: Vec<CnappDependencyRecord>,
    pub threats: Vec<CnappSupplyChainThreatRecord>,
}

pub struct SbomSummary {
    pub document_count: i64,
    pub component_count: i64,
    pub documents: Vec<CnappSbomDocumentRecord>,
    pub components: Vec<CnappSbomComponentRecord>,
}

pub struct AttackPathsSummary {
    pub path_count: i64,
    pub open_paths: i64,
    pub node_count: i64,
    pub edge_count: i64,
    pub paths: Vec<CnappAttackPathRecord>,
    pub nodes: Vec<CnappAttackPathNodeRecord>,
    pub edges: Vec<CnappAttackPathEdgeRecord>,
}

pub struct CnappPostureFindingInput {
    pub resource_id: Option<String>,
    pub finding_kind: Option<String>,
    pub severity: Option<String>,
    pub title: String,
    pub description: Option<String>,
    pub status: Option<String>,
    pub framework: Option<String>,
    pub details: Option<JsonValue>,
    pub detected_at: Option<String>,
}

pub struct CnappCloudResourceInput {
    pub provider: Option<String>,
    pub resource_type: String,
    pub resource_arn: Option<String>,
    pub name: String,
    pub region: Option<String>,
    pub account_id: Option<String>,
    pub tags: Option<JsonValue>,
    pub risk_score: Option<u8>,
    pub details: Option<JsonValue>,
    pub discovered_at: Option<String>,
}

pub struct CnappWorkloadInput {
    pub workload_kind: Option<String>,
    pub name: String,
    pub namespace: Option<String>,
    pub cluster_id: Option<String>,
    pub status: Option<String>,
    pub image_ref: Option<String>,
    pub labels: Option<JsonValue>,
    pub details: Option<JsonValue>,
    pub discovered_at: Option<String>,
}

pub struct CnappWorkloadThreatInput {
    pub workload_id: Option<String>,
    pub threat_kind: Option<String>,
    pub severity: Option<String>,
    pub title: String,
    pub description: Option<String>,
    pub details: Option<JsonValue>,
    pub detected_at: Option<String>,
}

pub struct CnappK8sClusterInput {
    pub name: String,
    pub provider: Option<String>,
    pub version: Option<String>,
    pub node_count: Option<u32>,
    pub status: Option<String>,
    pub details: Option<JsonValue>,
    pub discovered_at: Option<String>,
}

pub struct CnappK8sFindingInput {
    pub cluster_id: Option<String>,
    pub resource_id: Option<String>,
    pub finding_kind: Option<String>,
    pub severity: Option<String>,
    pub title: String,
    pub description: Option<String>,
    pub details: Option<JsonValue>,
    pub detected_at: Option<String>,
}

pub struct CnappContainerImageInput {
    pub registry: Option<String>,
    pub repository: String,
    pub tag: Option<String>,
    pub digest: Option<String>,
    pub scan_status: Option<String>,
    pub details: Option<JsonValue>,
    pub discovered_at: Option<String>,
}

pub struct CnappContainerFindingInput {
    pub image_id: Option<String>,
    pub finding_kind: Option<String>,
    pub severity: Option<String>,
    pub title: String,
    pub cve_id: Option<String>,
    pub package_name: Option<String>,
    pub details: Option<JsonValue>,
    pub detected_at: Option<String>,
}

pub struct CnappIacScanInput {
    pub scan_kind: Option<String>,
    pub repository: Option<String>,
    pub branch: Option<String>,
    pub commit_sha: Option<String>,
    pub status: Option<String>,
    pub details: Option<JsonValue>,
    pub scanned_at: Option<String>,
}

pub struct CnappIacFindingInput {
    pub scan_id: Option<String>,
    pub finding_kind: Option<String>,
    pub severity: Option<String>,
    pub title: String,
    pub file_path: Option<String>,
    pub line_number: Option<i64>,
    pub rule_id: Option<String>,
    pub details: Option<JsonValue>,
    pub detected_at: Option<String>,
}

pub struct CnappSecretFindingInput {
    pub secret_kind: Option<String>,
    pub severity: Option<String>,
    pub source: Option<String>,
    pub file_path: Option<String>,
    pub redacted_preview: Option<String>,
    pub details: Option<JsonValue>,
    pub detected_at: Option<String>,
}

pub struct CnappDependencyInput {
    pub ecosystem: Option<String>,
    pub package_name: String,
    pub version: Option<String>,
    pub license: Option<String>,
    pub direct: Option<bool>,
    pub details: Option<JsonValue>,
    pub discovered_at: Option<String>,
}

pub struct CnappSupplyChainThreatInput {
    pub dependency_id: Option<String>,
    pub threat_kind: Option<String>,
    pub severity: Option<String>,
    pub title: String,
    pub description: Option<String>,
    pub details: Option<JsonValue>,
    pub detected_at: Option<String>,
}

pub struct CnappSbomDocumentInput {
    pub format: Option<String>,
    pub name: String,
    pub version: Option<String>,
    pub source: Option<String>,
    pub components: Option<Vec<CnappSbomComponentInput>>,
    pub details: Option<JsonValue>,
    pub generated_at: Option<String>,
}

pub struct CnappSbomComponentInput {
    pub name: String,
    pub version: Option<String>,
    pub purl: Option<String>,
    pub license: Option<String>,
    pub kind: Option<String>,
    pub details: Option<JsonValue>,
}

pub struct CnappComplianceViolationInput {
    pub control_id: Option<String>,
    pub severity: Option<String>,
    pub title: String,
    pub resource_ref: Option<String>,
    pub details: Option<JsonValue>,
    pub detected_at: Option<String>,
}

pub struct CnappAttackPathInput {
    pub name: String,
    pub severity: Option<String>,
    pub entry_asset: Option<String>,
    pub target_asset: Option<String>,
    pub details: Option<JsonValue>,
    pub discovered_at: Option<String>,
}

pub struct CnappTelemetryIngest {
    pub posture_findings: Option<Vec<CnappPostureFindingInput>>,
    pub cloud_resources: Option<Vec<CnappCloudResourceInput>>,
    pub workloads: Option<Vec<CnappWorkloadInput>>,
    pub workload_threats: Option<Vec<CnappWorkloadThreatInput>>,
    pub k8s_clusters: Option<Vec<CnappK8sClusterInput>>,
    pub k8s_findings: Option<Vec<CnappK8sFindingInput>>,
    pub container_findings: Option<Vec<CnappContainerFindingInput>>,
    pub secret_findings: Option<Vec<CnappSecretFindingInput>>,
    pub compliance_violations: Option<Vec<CnappComplianceViolationInput>>,
    pub reported_at: Option<String>,
}

impl HasStatus for CnappPostureFindingRecord {
    open spec fn status_view(&self) -> Seq<char> {
        self.status@
    }

    fn status_text(&self) -> (r: &str) {
        self.status.as_str()
    }
}

impl HasSeverity for CnappPostureFindingRecord {
    open spec fn severity_view(&self) -> Seq<char> {
        self.severity@
    }

    fn severity_text(&self) -> (r: &str) {
        self.severity.as_str()
    }
}

impl HasStatus for CnappWorkloadRecord {
    open spec fn status_view(&self) -> Seq<char> {
        self.status@
    }

    fn status_text(&self) -> (r: &str) {
        self.status.as_str()
    }
}

impl HasStatus for CnappWorkloadThreatRecord {
    open spec fn status_view(&self) -> Seq<char> {
        self.status@
    }

    fn status_text(&self) -> (r: &str) {
        self.status.as_str()
    }
}

impl HasStatus for CnappK8sFindingRecord {
    open spec fn status_view(&self) -> Seq<char> {
        self.status@
    }

    fn status_text(&self) -> (r: &str) {
        self.status.as_str()
    }
}

impl HasStatus for CnappContainerImageRecord {
    open spec fn status_view(&self) -> Seq<char> {
        self.scan_status@
    }

    fn status_text(&self) -> (r: &str) {
        self.scan_status.as_str()
    }
}

impl HasSeverity for CnappContainerFindingRecord {
    open spec fn severity_view(&self) -> Seq<char> {
        self.severity@
    }

    fn severity_text(&self) -> (r: &str) {
        self.severity.as_str()
    }
}

impl HasStatus for CnappIacFindingRecord {
    open spec fn status_view(&self) -> Seq<char> {
        self.status@
    }

    fn status_text(&self) -> (r: &str) {
        self.status.as_str()
    }
}

impl HasStatus for CnappSecretFindingRecord {
    open spec fn status_view(&self) -> Seq<char> {
        self.status@
    }

    fn status_text(&self) -> (r: &str) {
        self.status.as_str()
    }
}

impl HasSeverity for CnappSecretFindingRecord {
    open spec fn severity_view(&self) -> Seq<char> {
        self.severity@
    }

    fn severity_text(&self) -> (r: &str) {
        self.severity.as_str()
    }
}

impl HasStatus for CnappSupplyChainThreatRecord {
    open spec fn status_view(&self) -> Seq<char> {
        self.status@
    }

    fn status_text(&self) -> (r: &str) {
        self.status.as_str()
    }
}

impl HasStatus for CnappAttackPathRecord {
    open spec fn status_view(&self) -> Seq<char> {
        self.status@
    }

    fn status_text(&self) -> (r: &str) {
        self.status.as_str()
    }
}

impl HasStatus for CnappComplianceViolationRecord {
    open spec fn status_view(&self) -> Seq<char> {
        self.status@
    }

    fn status_text(&self) -> (r: &str) {
        self.status.as_str()
    }
}

/// Workload figures: how many workloads and how many running, how many
/// threats and how many open.
pub fn workloads_summary(workloads: Vec<CnappWorkloadRecord>, threats: Vec<CnappWorkloadThreatRecord>) -> (r:
    WorkloadsSummary)
    requires
        workloads@.len() <= i64::MAX,
        threats@.len() <= i64::MAX,
    ensures
        r.workload_count == workloads@.len(),
        r.active_workloads == count_status(workloads@, "running"@),
        r.threat_count == threats@.len(),
        r.open_threats == count_status(threats@, "open"@),
        r.workloads@ == workloads@,
        r.threats@ == threats@,
{
    WorkloadsSummary {
        workload_count: count_of(&workloads),
        active_workloads: tally_status(&workloads, "running"),
        threat_count: count_of(&threats),
        open_threats: tally_status(&threats, "open"),
        workloads,
        threats,
    }
}

/// Kubernetes figures: clusters, resources, findings and open findings.
pub fn kubernetes_summary(
    clusters: Vec<CnappK8sClusterRecord>,
    resources: Vec<CnappK8sResourceRecord>,
    findings: Vec<CnappK8sFindingRecord>,
) -> (r: KubernetesSummary)
    requires
        clusters@.len() <= i64::MAX,
        resources@.len() <= i64::MAX,
        findings@.len() <= i64::MAX,
    ensures
        r.cluster_count == clusters@.len(),
        r.resource_count == resources@.len(),
        r.finding_count == findings@.len(),
        r.open_findings == count_status(findings@, "open"@),
        r.clusters@ == clusters@,
        r.resources@ == resources@,
        r.findings@ == findings@,
{
    KubernetesSummary {
        cluster_count: count_of(&clusters),
        resource_count: count_of(&resources),
        finding_count: count_of(&findings),
        open_findings: tally_status(&findings, "open"),
        clusters,
        resources,
        findings,
    }
}

/// Container figures: images and how many finished scanning, findings and
/// how many critical.
pub fn containers_summary(images: Vec<CnappContainerImageRecord>, findings: Vec<CnappContainerFindingRecord>) -> (r:
    ContainersSummary)
    requires
        images@.len() <= i64::MAX,
        findings@.len() <= i64::MAX,
    ensures
        r.image_count == images@.len(),
        r.scanned_images == count_status(images@, "completed"@),
        r.finding_count == findings@.len(),
        r.critical_findings == count_severity(findings@, "critical"@),
        r.images@ == images@,
        r.findings@ == findings@,
{
    ContainersSummary {
        image_count: count_of(&images),
        scanned_images: tally_status(&images, "completed"),
        finding_count: count_of(&findings),
        critical_findings: tally_severity(&findings, "critical"),
        images,
        findings,
    }
}

/// Infrastructure-as-code figures: scans, findings and open findings.
pub fn iac_summary(scans: Vec<CnappIacScanRecord>, findings: Vec<CnappIacFindingRecord>) -> (r: IacSummary)
    requires
        scans@.len() <= i64::MAX,
        findings@.len() <= i64::MAX,
    ensures
        r.scan_count == scans@.len(),
        r.finding_count == findings@.len(),
        r.open_findings == count_status(findings@, "open"@),
        r.scans@ == scans@,
        r.findings@ == findings@,
{
    IacSummary {
        scan_count: count_of(&scans),
        finding_count: count_of(&findings),
        open_findings: tally_status(&findings, "open"),
        scans,
        findings,
    }
}

/// Secret figures: findings, open findings, high or critical findings.
pub fn secrets_summary(findings: Vec<CnappSecretFindingRecord>) -> (r: SecretsSummary)
    requires
        findings@.len() <= i64::MAX,
    ensures
        r.finding_count == findings@.len(),
        r.open_findings == count_status(findings@, "open"@),
        r.high_severity == count_high(findings@),
        r.findings@ == findings@,
{
    SecretsSummary {
        finding_count: count_of(&findings),
        open_findings: tally_status(&findings, "open"),
        high_severity: tally_high(&findings),
        findings,
    }
}

/// How many dependencies are direct.
pub open spec fn count_direct(s: Seq<CnappDependencyRecord>) -> nat
    decreases s.len(),
{
    if s.len() == 0 {
        0
    } else {
        count_direct(s.drop_last()) + if s.last().direct {
            1nat
        } else {
            0nat
        }
    }
}

/// Supply-chain figures: dependencies and how many direct, threats and how
/// many open.
pub fn supply_chain_summary(dependencies: Vec<CnappDependencyRecord>, threats: Vec<CnappSupplyChainThreatRecord>) -> (r:
    SupplyChainSummary)
    requires
        dependencies@.len() <= i64::MAX,
        threats@.len() <= i64::MAX,
    ensures
        r.dependency_count == dependencies@.len(),
        r.direct_dependencies == count_direct(dependencies@),
        r.threat_count == threats@.len(),
        r.open_threats == count_status(threats@, "open"@),
        r.dependencies@ == dependencies@,
        r.threats@ == threats@,
{
    let mut direct: i64 = 0;
    let mut i: usize = 0;
    while i < dependencies.len()
        invariant
            i <= dependencies@.len(),
            dependencies@.len() <= i64::MAX,
            direct == count_direct(dependencies@.take(i as int)),
            direct <= i,
        decreases dependencies@.len() - i,
    {
        proof {
            assert(dependencies@.take(i + 1).drop_last() =~= dependencies@.take(i as int));
        }
        if dependencies[i].direct {
            direct = direct + 1;
        }
        i = i + 1;
    }
    assert(dependencies@.take(i as int) =~= dependencies@);
    SupplyChainSummary {
        dependency_count: count_of(&dependencies),
        direct_dependencies: direct,
        threat_count: count_of(&threats),
        open_threats: tally_status(&threats, "open"),
        dependencies,
        threats,
    }
}

/// SBOM figures: the latest documents, and the stored number of components.
pub fn sbom_summary(
    documents: Vec<CnappSbomDocumentRecord>,
    component_count: i64,
    components: Vec<CnappSbomComponentRecord>,
) -> (r: SbomSummary)
    requires
        documents@.len() <= i64::MAX,
    ensures
        r.document_count == documents@.len(),
        r.component_count == component_count,
        r.documents@ == documents@,
        r.components@ == components@,
{
    SbomSummary { document_count: count_of(&documents), component_count, documents, components }
}

/// Attack-path figures: paths and how many open, nodes and edges.
pub fn attack_paths_summary(
    paths: Vec<CnappAttackPathRecord>,
    nodes: Vec<CnappAttackPathNodeRecord>,
    edges: Vec<CnappAttackPathEdgeRecord>,
) -> (r: AttackPathsSummary)
    requires
        paths@.len() <= i64::MAX,
        nodes@.len() <= i64::MAX,
        edges@.len() <= i64::MAX,
    ensures
        r.path_count == paths@.len(),
        r.open_paths == count_status(paths@, "open"@),
        r.node_count == nodes@.len(),
        r.edge_count == edges@.len(),
        r.paths@ == paths@,
        r.nodes@ == nodes@,
        r.edges@ == edges@,
{
    AttackPathsSummary {
        path_count: count_of(&paths),
        open_paths: tally_status(&paths, "open"),
        node_count: count_of(&nodes),
        edge_count: count_of(&edges),
        paths,
        nodes,
        edges,
    }
}

fn text_default(v: &Option<String>, d: &str) -> (r: String)
    ensures
        r@ == text_or(*v, d@),
{
    or_text(copy_opt_text(v), d)
}

/// A posture finding as recorded: kind `misconfiguration`, severity `medium`
/// and status `open` unless told, detected now unless told.
pub fn posture_finding_record(id: String, device_id: &str, input: &CnappPostureFindingInput, now: &str) -> (r:
    CnappPostureFindingRecord)
    ensures
        r.id == id,
        r.device_id matches Some(d) && d@ == device_id@,
        r.resource_id == input.resource_id,
        r.finding_kind@ == text_or(input.finding_kind, "misconfiguration"@),
        r.severity@ == text_or(input.severity, "medium"@),
        r.title == input.title,
        r.description == input.description,
        r.status@ == text_or(input.status, "open"@),
        r.framework == input.framework,
        r.detected_at@ == text_or(input.detected_at, now@),
{
    CnappPostureFindingRecord {
        id,
        device_id: Some(String::from_str(device_id)),
        resource_id: copy_opt_text(&input.resource_id),
        finding_kind: text_default(&input.finding_kind, "misconfiguration"),
        severity: text_default(&input.severity, "medium"),
        title: input.title.clone(),
        description: copy_opt_text(&input.description),
        status: text_default(&input.status, "open"),
        framework: copy_opt_text(&input.framework),
        detected_at: text_default(&input.detected_at, now),
    }
}

/// A cloud resource as stored: provider `aws` and risk 0 unless told, always
/// `active`, discovered now unless told.
pub fn cloud_resource_record(id: String, device_id: &str, input: &CnappCloudResourceInput, now: &str) -> (r:
    CnappCloudResourceRecord)
    ensures
        r.id == id,
        r.device_id matches Some(d) && d@ == device_id@,
        r.provider@ == text_or(input.provider, "aws"@),
        r.resource_type == input.resource_type,
        r.name == input.name,
        r.region == input.region,
        r.risk_score == match input.risk_score {
            Some(s) => s,
            None => 0u8,
        },
        r.status@ == "active"@,
        r.discovered_at@ == text_or(input.discovered_at, now@),
{
    CnappCloudResourceRecord {
        id,
        device_id: Some(String::from_str(device_id)),
        provider: text_default(&input.provider, "aws"),
        resource_type: input.resource_type.clone(),
        name: input.name.clone(),
        region: copy_opt_text(&input.region),
        risk_score: match input.risk_score {
            Some(s) => s,
            None => 0,
        },
        status: String::from_str("active"),
        discovered_at: text_default(&input.discovered_at, now),
    }
}

/// A workload as stored: kind `pod` and status `running` unless told.
pub fn workload_record(id: String, device_id: &str, input: &CnappWorkloadInput, now: &str) -> (r:
    CnappWorkloadRecord)
    ensures
        r.id == id,
        r.device_id matches Some(d) && d@ == device_id@,
        r.workload_kind@ == text_or(input.workload_kind, "pod"@),
        r.name == input.name,
        r.namespace == input.namespace,
        r.status@ == text_or(input.status, "running"@),
        r.image_ref == input.image_ref,
        r.discovered_at@ == text_or(input.discovered_at, now@),
{
    CnappWorkloadRecord {
        id,
        device_id: Some(String::from_str(device_id)),
        workload_kind: text_default(&input.workload_kind, "pod"),
        name: input.name.clone(),
        namespace: copy_opt_text(&input.namespace),
        status: text_default(&input.status, "running"),
        image_ref: copy_opt_text(&input.image_ref),
        discovered_at: text_default(&input.discovered_at, now),
    }
}

/// A workload threat as stored: kind `runtime`, severity `medium`, `open`.
pub fn workload_threat_record(id: String, device_id: &str, input: &CnappWorkloadThreatInput, now: &str) -> (r:
    CnappWorkloadThreatRecord)
    ensures
        r.id == id,
        r.workload_id == input.workload_id,
        r.device_id matches Some(d) && d@ == device_id@,
        r.threat_kind@ == text_or(input.threat_kind, "runtime"@),
        r.severity@ == text_or(input.severity, "medium"@),
        r.title == input.title,
        r.status@ == "open"@,
        r.detected_at@ == text_or(input.detected_at, now@),
{
    CnappWorkloadThreatRecord {
        id,
        workload_id: copy_opt_text(&input.workload_id),
        device_id: Some(String::from_str(device_id)),
        threat_kind: text_default(&input.threat_kind, "runtime"),
        severity: text_default(&input.severity, "medium"),
        title: input.title.clone(),
        status: String::from_str("open"),
        detected_at: text_default(&input.detected_at, now),
    }
}

/// A cluster as stored: provider `eks`, no nodes and status `healthy` unless told.
pub fn k8s_cluster_record(id: String, device_id: &str, input: &CnappK8sClusterInput, now: &str) -> (r:
    CnappK8sClusterRecord)
    ensures
        r.id == id,
        r.device_id matches Some(d) && d@ == device_id@,
        r.name == input.name,
        r.provider@ == text_or(input.provider, "eks"@),
        r.version == input.version,
        r.node_count == match input.node_count {
            Some(n) => n,
            None => 0u32,
        },
        r.status@ == text_or(input.status, "healthy"@),
        r.discovered_at@ == text_or(input.discovered_at, now@),
{
    CnappK8sClusterRecord {
        id,
        device_id: Some(String::from_str(device_id)),
        name: input.name.clone(),
        provider: text_default(&input.provider, "eks"),
        version: copy_opt_text(&input.version),
        node_count: match input.node_count {
            Some(n) => n,
            None => 0,
        },
        status: text_default(&input.status, "healthy"),
        discovered_at: text_default(&input.discovered_at, now),
    }
}

/// A cluster finding as stored: kind `policy`, severity `medium`, `open`.
pub fn k8s_finding_record(id: String, input: &CnappK8sFindingInput, now: &str) -> (r: CnappK8sFindingRecord)
    ensures
        r.id == id,
        r.cluster_id == input.cluster_id,
        r.finding_kind@ == text_or(input.finding_kind, "policy"@),
        r.severity@ == text_or(input.severity, "medium"@),
        r.title == input.title,
        r.status@ == "open"@,
        r.detected_at@ == text_or(input.detected_at, now@),
{
    CnappK8sFindingRecord {
        id,
        cluster_id: copy_opt_text(&input.cluster_id),
        finding_kind: text_default(&input.finding_kind, "policy"),
        severity: text_default(&input.severity, "medium"),
        title: input.title.clone(),
        status: String::from_str("open"),
        detected_at: text_default(&input.detected_at, now),
    }
}

/// A container image as stored: scan `completed` unless told.
pub fn container_image_record(id: String, device_id: &str, input: &CnappContainerImageInput, now: &str) -> (r:
    CnappContainerImageRecord)
    ensures
        r.id == id,
        r.device_id matches Some(d) && d@ == device_id@,
        r.repository == input.repository,
        r.tag == input.tag,
        r.digest == input.digest,
        r.scan_status@ == text_or(input.scan_status, "completed"@),
        r.discovered_at@ == text_or(input.discovered_at, now@),
{
    CnappContainerImageRecord {
        id,
        device_id: Some(String::from_str(device_id)),
        repository: input.repository.clone(),
        tag: copy_opt_text(&input.tag),
        digest: copy_opt_text(&input.digest),
        scan_status: text_default(&input.scan_status, "completed"),
        discovered_at: text_default(&input.discovered_at, now),
    }
}

/// A container finding as stored: severity `medium`, `open`.
pub fn container_finding_record(id: String, input: &CnappContainerFindingInput, now: &str) -> (r:
    CnappContainerFindingRecord)
    ensures
        r.id == id,
        r.image_id == input.image_id,
        r.severity@ == text_or(input.severity, "medium"@),
        r.title == input.title,
        r.cve_id == input.cve_id,
        r.package_name == input.package_name,
        r.status@ == "open"@,
        r.detected_at@ == text_or(input.detected_at, now@),
{
    CnappContainerFindingRecord {
        id,
        image_id: copy_opt_text(&input.image_id),
        severity: text_default(&input.severity, "medium"),
        title: input.title.clone(),
        cve_id: copy_opt_text(&input.cve_id),
        package_name: copy_opt_text(&input.package_name),
        status: String::from_str("open"),
        detected_at: text_default(&input.detected_at, now),
    }
}

/// An IaC scan as stored: kind `terraform` and status `completed` unless
/// told, no findings yet.
pub fn iac_scan_record(id: String, device_id: &str, input: &CnappIacScanInput, now: &str) -> (r: CnappIacScanRecord)
    ensures
        r.id == id,
        r.device_id matches Some(d) && d@ == device_id@,
        r.scan_kind@ == text_or(input.scan_kind, "terraform"@),
        r.repository == input.repository,
        r.status@ == text_or(input.status, "completed"@),
        r.finding_count == 0,
        r.scanned_at@ == text_or(input.scanned_at, now@),
{
    CnappIacScanRecord {
        id,
        device_id: Some(String::from_str(device_id)),
        scan_kind: text_default(&input.scan_kind, "terraform"),
        repository: copy_opt_text(&input.repository),
        status: text_default(&input.status, "completed"),
        finding_count: 0,
        scanned_at: text_default(&input.scanned_at, now),
    }
}

/// An IaC finding as stored: severity `medium`, `open`.
pub fn iac_finding_record(id: String, input: &CnappIacFindingInput, now: &str) -> (r: CnappIacFindingRecord)
    ensures
        r.id == id,
        r.scan_id == input.scan_id,
        r.severity@ == text_or(input.severity, "medium"@),
        r.title == input.title,
        r.file_path == input.file_path,
        r.rule_id == input.rule_id,
        r.status@ == "open"@,
        r.detected_at@ == text_or(input.detected_at, now@),
{
    CnappIacFindingRecord {
        id,
        scan_id: copy_opt_text(&input.scan_id),
        severity: text_default(&input.severity, "medium"),
        title: input.title.clone(),
        file_path: copy_opt_text(&input.file_path),
        rule_id: copy_opt_text(&input.rule_id),
        status: String::from_str("open"),
        detected_at: text_default(&input.detected_at, now),
    }
}

/// A secret finding as stored: kind `api_key` and severity `high` unless
/// told, `open`.
pub fn secret_finding_record(id: String, device_id: &str, input: &CnappSecretFindingInput, now: &str) -> (r:
    CnappSecretFindingRecord)
    ensures
        r.id == id,
        r.device_id matches Some(d) && d@ == device_id@,
        r.secret_kind@ == text_or(input.secret_kind, "api_key"@),
        r.severity@ == text_or(input.severity, "high"@),
        r.source == input.source,
        r.file_path == input.file_path,
        r.status@ == "open"@,
        r.detected_at@ == text_or(input.detected_at, now@),
{
    CnappSecretFindingRecord {
        id,
        device_id: Some(String::from_str(device_id)),
        secret_kind: text_default(&input.secret_kind, "api_key"),
        severity: text_default(&input.severity, "high"),
        source: copy_opt_text(&input.source),
        file_path: copy_opt_text(&input.file_path),
        status: String::from_str("open"),
        detected_at: text_default(&input.detected_at, now),
    }
}

/// A dependency as stored: ecosystem `npm` and direct unless told.
pub fn dependency_record(id: String, device_id: &str, input: &CnappDependencyInput, now: &str) -> (r:
    CnappDependencyRecord)
    ensures
        r.id == id,
        r.device_id matches Some(d) && d@ == device_id@,
        r.ecosystem@ == text_or(input.ecosystem, "npm"@),
        r.package_name == input.package_name,
        r.version == input.version,
        r.direct == match input.direct {
            Some(d) => d,
            None => true,
        },
        r.discovered_at@ == text_or(input.discovered_at, now@),
{
    CnappDependencyRecord {
        id,
        device_id: Some(String::from_str(device_id)),
        ecosystem: text_default(&input.ecosystem, "npm"),
        package_name: input.package_name.clone(),
        version: copy_opt_text(&input.version),
        direct: match input.direct {
            Some(d) => d,
            None => true,
        },
        discovered_at: text_default(&input.discovered_at, now),
    }
}

/// A supply-chain threat as stored: kind `typosquat`, severity `medium`, `open`.
pub fn supply_chain_threat_record(id: String, device_id: &str, input: &CnappSupplyChainThreatInput, now: &str) -> (r:
    CnappSupplyChainThreatRecord)
    ensures
        r.id == id,
        r.device_id matches Some(d) && d@ == device_id@,
        r.threat_kind@ == text_or(input.threat_kind, "typosquat"@),
        r.severity@ == text_or(input.severity, "medium"@),
        r.title == input.title,
        r.status@ == "open"@,
        r.detected_at@ == text_or(input.detected_at, now@),
{
    CnappSupplyChainThreatRecord {
        id,
        device_id: Some(String::from_str(device_id)),
        threat_kind: text_default(&input.threat_kind, "typosquat"),
        severity: text_default(&input.severity, "medium"),
        title: input.title.clone(),
        status: String::from_str("open"),
        detected_at: text_default(&input.detected_at, now),
    }
}

/// An SBOM document as recorded: format `cyclonedx` unless told, its
/// component count the number of components it lists (kept to 32 bits).
pub fn sbom_document_record(id: String, device_id: &str, input: &CnappSbomDocumentInput, now: &str) -> (r:
    CnappSbomDocumentRecord)
    ensures
        r.id == id,
        r.device_id matches Some(d) && d@ == device_id@,
        r.format@ == text_or(input.format, "cyclonedx"@),
        r.name == input.name,
        r.component_count == match input.components {
            Some(c) => c@.len() as u32,
            None => 0u32,
        },
        r.generated_at@ == text_or(input.generated_at, now@),
{
    let component_count: u32 = match &input.components {
        Some(c) => c.len() as u32,
        None => 0,
    };
    CnappSbomDocumentRecord {
        id,
        device_id: Some(String::from_str(device_id)),
        format: text_default(&input.format, "cyclonedx"),
        name: input.name.clone(),
        component_count,
        generated_at: text_default(&input.generated_at, now),
    }
}

/// An SBOM component as stored: kind `library` unless told.
pub fn sbom_component_record(id: String, document_id: &str, input: &CnappSbomComponentInput) -> (r:
    CnappSbomComponentRecord)
    ensures
        r.id == id,
        r.document_id@ == document_id@,
        r.name == input.name,
        r.version == input.version,
        r.purl == input.purl,
        r.kind@ == text_or(input.kind, "library"@),
{
    CnappSbomComponentRecord {
        id,
        document_id: String::from_str(document_id),
        name: input.name.clone(),
        version: copy_opt_text(&input.version),
        purl: copy_opt_text(&input.purl),
        kind: text_default(&input.kind, "library"),
    }
}

/// The asset a reported vulnerability affects, where the report names one:
/// kind `container` unless told, `open`, detected now.
pub fn affected_asset_record(
    id: String,
    vulnerability_id: &str,
    device_id: &str,
    asset_kind: &Option<String>,
    asset_ref: &Option<String>,
    now: &str,
) -> (r: Option<CnappAffectedAssetRecord>)
    ensures
        match *asset_ref {
            None => r is None,
            Some(a) => r matches Some(x) && x.id == id && x.vulnerability_id@ == vulnerability_id@
                && (x.device_id matches Some(d) && d@ == device_id@) && x.asset_kind@ == text_or(
                *asset_kind,
                "container"@,
            ) && x.asset_ref == a && x.status@ == "open"@ && x.detected_at@ == now@,
        },
{
    match asset_ref {
        None => None,
        Some(a) => Some(
            CnappAffectedAssetRecord {
                id,
                vulnerability_id: String::from_str(vulnerability_id),
                device_id: Some(String::from_str(device_id)),
                asset_kind: text_default(asset_kind, "container"),
                asset_ref: a.clone(),
                status: String::from_str("open"),
                detected_at: String::from_str(now),
            },
        ),
    }
}

/// A compliance violation as stored: severity `medium`, `open`.
pub fn compliance_violation_record(id: String, device_id: &str, input: &CnappComplianceViolationInput, now: &str) -> (r:
    CnappComplianceViolationRecord)
    ensures
        r.id == id,
        r.device_id matches Some(d) && d@ == device_id@,
        r.severity@ == text_or(input.severity, "medium"@),
        r.title == input.title,
        r.resource_ref == input.resource_ref,
        r.status@ == "open"@,
        r.detected_at@ == text_or(input.detected_at, now@),
{
    CnappComplianceViolationRecord {
        id,
        device_id: Some(String::from_str(device_id)),
        severity: text_default(&input.severity, "medium"),
        title: input.title.clone(),
        resource_ref: copy_opt_text(&input.resource_ref),
        status: String::from_str("open"),
        detected_at: text_default(&input.detected_at, now),
    }
}

/// An attack path as stored: severity `high` unless told, `open`, no nodes yet.
pub fn attack_path_record(id: String, device_id: &str, input: &CnappAttackPathInput, now: &str) -> (r:
    CnappAttackPathRecord)
    ensures
        r.id == id,
        r.device_id matches Some(d) && d@ == device_id@,
        r.name == input.name,
        r.severity@ == text_or(input.severity, "high"@),
        r.status@ == "open"@,
        r.entry_asset == input.entry_asset,
        r.target_asset == input.target_asset,
        r.node_count == 0,
        r.discovered_at@ == text_or(input.discovered_at, now@),
{
    CnappAttackPathRecord {
        id,
        device_id: Some(String::from_str(device_id)),
        name: input.name.clone(),
        severity: text_default(&input.severity, "high"),
        status: String::from_str("open"),
        entry_asset: copy_opt_text(&input.entry_asset),
        target_asset: copy_opt_text(&input.target_asset),
        node_count: 0,
        discovered_at: text_default(&input.discovered_at, now),
    }
}

/// The number of items an optional list holds.
pub open spec fn listed<T>(v: Option<Vec<T>>) -> nat {
    match v {
        Some(items) => items@.len(),
        None => 0,
    }
}

fn listed_count<T>(v: &Option<Vec<T>>) -> (r: usize)
    ensures
        r == listed(*v),
{
    match v {
        Some(items) => items.len(),
        None => 0,
    }
}

/// The snapshot one telemetry report records: how many posture findings,
/// workloads, cluster findings, container findings, secret findings and
/// compliance violations it carried (no IaC findings or vulnerabilities come
/// by telemetry), reported now unless told.
pub fn telemetry_snapshot(id: String, device_id: &str, payload: &CnappTelemetryIngest, now: &str) -> (r:
    CnappTelemetrySnapshot)
    requires
        listed(payload.posture_findings) <= u32::MAX,
        listed(payload.workloads) <= u32::MAX,
        listed(payload.k8s_findings) <= u32::MAX,
        listed(payload.container_findings) <= u32::MAX,
        listed(payload.secret_findings) <= u32::MAX,
        listed(payload.compliance_violations) <= u32::MAX,
    ensures
        r.id == id,
        r.device_id@ == device_id@,
        r.posture_finding_count == listed(payload.posture_findings),
        r.workload_count == listed(payload.workloads),
        r.k8s_finding_count == listed(payload.k8s_findings),
        r.container_finding_count == listed(payload.container_findings),
        r.iac_finding_count == 0,
        r.secret_finding_count == listed(payload.secret_findings),
        r.vulnerability_count == 0,
        r.compliance_violation_count == listed(payload.compliance_violations),
        r.reported_at@ == text_or(payload.reported_at, now@),
{
    CnappTelemetrySnapshot {
        id,
        device_id: String::from_str(device_id),
        posture_finding_count: listed_count(&payload.posture_findings) as u32,
        workload_count: listed_count(&payload.workloads) as u32,
        k8s_finding_count: listed_count(&payload.k8s_findings) as u32,
        container_finding_count: listed_count(&payload.container_findings) as u32,
        iac_finding_count: 0,
        secret_finding_count: listed_count(&payload.secret_findings) as u32,
        vulnerability_count: 0,
        compliance_violation_count: listed_count(&payload.compliance_violations) as u32,
        reported_at: text_default(&payload.reported_at, now),
    }
}

/// How many items of each kind one scan report carried.
pub struct CnappScanCounts {
    pub iac_scans: usize,
    pub iac_findings: usize,
    pub container_images: usize,
    pub container_findings: usize,
    pub sbom_documents: usize,
    pub dependencies: usize,
    pub supply_chain_threats: usize,
    pub vulnerabilities: usize,
    pub attack_paths: usize,
}

/// Every count of a scan report fits in 32 bits.
pub open spec fn scan_counts_fit(c: CnappScanCounts) -> bool {
    &&& c.iac_scans <= u32::MAX
    &&& c.iac_findings <= u32::MAX
    &&& c.container_images <= u32::MAX
    &&& c.container_findings <= u32::MAX
    &&& c.sbom_documents <= u32::MAX
    &&& c.dependencies <= u32::MAX
    &&& c.supply_chain_threats <= u32::MAX
    &&& c.vulnerabilities <= u32::MAX
    &&& c.attack_paths <= u32::MAX
}

/// The JSON form of a count.
pub open spec fn count_json(n: usize) -> JsonValue {
    JsonValue::Number(JsonNumber::PosInt(n as u64))
}

/// The counts in the reply to a scan report, one member per kind.
pub open spec fn scan_count_members(c: CnappScanCounts) -> Map<Seq<char>, JsonValue> {
    Map::empty().insert("iac_scans"@, count_json(c.iac_scans)).insert(
        "iac_findings"@,
        count_json(c.iac_findings),
    ).insert("container_images"@, count_json(c.container_images)).insert(
        "container_findings"@,
        count_json(c.container_findings),
    ).insert("sbom_documents"@, count_json(c.sbom_documents)).insert(
        "dependencies"@,
        count_json(c.dependencies),
    ).insert("supply_chain_threats"@, count_json(c.supply_chain_threats)).insert(
        "vulnerabilities"@,
        count_json(c.vulnerabilities),
    ).insert("attack_paths"@, count_json(c.attack_paths))
}

fn push_count(f: JsonFields, key: &str, n: usize) -> (r: JsonFields)
    ensures
        fields_map(r) == fields_map(f).insert(key@, count_json(n)),
{
    JsonFields::Field(String::from_str(key), Box::new(JsonValue::Number(JsonNumber::PosInt(n as u64))), Box::new(f))
}

/// The counts of a scan report, each the number of items of its kind that the
/// report lists (vulnerabilities, whose records the server holds, by their
/// number).
pub fn scan_counts(
    iac_scans: &Option<Vec<CnappIacScanInput>>,
    iac_findings: &Option<Vec<CnappIacFindingInput>>,
    container_images: &Option<Vec<CnappContainerImageInput>>,
    container_findings: &Option<Vec<CnappContainerFindingInput>>,
    sbom_documents: &Option<Vec<CnappSbomDocumentInput>>,
    dependencies: &Option<Vec<CnappDependencyInput>>,
    supply_chain_threats: &Option<Vec<CnappSupplyChainThreatInput>>,
    vulnerabilities: usize,
    attack_paths: &Option<Vec<CnappAttackPathInput>>,
) -> (r: CnappScanCounts)
    ensures
        r.iac_scans == listed(*iac_scans),
        r.iac_findings == listed(*iac_findings),
        r.container_images == listed(*container_images),
        r.container_findings == listed(*container_findings),
        r.sbom_documents == listed(*sbom_documents),
        r.dependencies == listed(*dependencies),
        r.supply_chain_threats == listed(*supply_chain_threats),
        r.vulnerabilities == vulnerabilities,
        r.attack_paths == listed(*attack_paths),
{
    CnappScanCounts {
        iac_scans: listed_count(iac_scans),
        iac_findings: listed_count(iac_findings),
        container_images: listed_count(container_images),
        container_findings: listed_count(container_findings),
        sbom_documents: listed_count(sbom_documents),
        dependencies: listed_count(dependencies),
        supply_chain_threats: listed_count(supply_chain_threats),
        vulnerabilities,
        attack_paths: listed_count(attack_paths),
    }
}

/// The reply to a scan report: how many items of each kind it carried, and
/// under `scanned_at` when it was scanned (now unless told).
pub fn scan_reply(counts: &CnappScanCounts, scanned_at: Option<String>, now: &str) -> (r: JsonValue)
    requires
        scan_counts_fit(*counts),
    ensures
        object_map(r) matches Some(m) && m.contains_key("scanned_at"@) && (m["scanned_at"@] matches JsonValue::String(s)
            && s@ == text_or(scanned_at, now@)) && forall|k: Seq<char>|
            k != "scanned_at"@ ==> (m.contains_key(k) == scan_count_members(*counts).contains_key(k) && (
            m.contains_key(k) ==> m[k] == scan_count_members(*counts)[k])),
{
    let mut f = JsonFields::Empty;
    f = push_count(f, "iac_scans", counts.iac_scans);
    f = push_count(f, "iac_findings", counts.iac_findings);
    f = push_count(f, "container_images", counts.container_images);
    f = push_count(f, "container_findings", counts.container_findings);
    f = push_count(f, "sbom_documents", counts.sbom_documents);
    f = push_count(f, "dependencies", counts.dependencies);
    f = push_count(f, "supply_chain_threats", counts.supply_chain_threats);
    f = push_count(f, "vulnerabilities", counts.vulnerabilities);
    f = push_count(f, "attack_paths", counts.attack_paths);
    let at = or_text(scanned_at, now);
    JsonValue::Object(JsonFields::Field(String::from_str("scanned_at"), Box::new(JsonValue::String(at)), Box::new(f)))
}

fn control(id: String, framework: &str, control_id: &str, title: &str, category: &str) -> (r:
    CnappComplianceControlRecord)
    ensures
        r.id == id,
        r.framework@ == framework@,
        r.control_id@ == control_id@,
        r.title@ == title@,
        r.category matches Some(c) && c@ == category@,
        r.enabled,
{
    CnappComplianceControlRecord {
        id,
        framework: String::from_str(framework),
        control_id: String::from_str(control_id),
        title: String::from_str(title),
        category: Some(String::from_str(category)),
        enabled: true,
    }
}

/// Whether a control is the seeded one with these framework, id, title and category.
pub open spec fn is_seed_control(
    c: CnappComplianceControlRecord,
    id: String,
    framework: Seq<char>,
    control_id: Seq<char>,
    title: Seq<char>,
    category: Seq<char>,
) -> bool {
    &&& c.id == id
    &&& c.framework@ == framework
    &&& c.control_id@ == control_id
    &&& c.title@ == title
    &&& (c.category matches Some(x) && x@ == category)
    &&& c.enabled
}

/// The compliance controls seeded while none exist (none otherwise): three CIS
/// and two PCI controls, enabled.
pub fn seed_controls(existing: i64, ids: (String, String, String, String, String)) -> (r: Vec<
    CnappComplianceControlRecord,
>)
    ensures
        existing != 0 ==> r@.len() == 0,
        existing == 0 ==> r@.len() == 5 && is_seed_control(
            r@[0],
            ids.0,
            "cis"@,
            "1.1"@,
            "Ensure MFA is enabled"@,
            "identity"@,
        ) && is_seed_control(r@[1], ids.1, "cis"@, "2.1"@, "Ensure logging is enabled"@, "logging"@)
            && is_seed_control(
            r@[2],
            ids.2,
            "cis"@,
            "3.4"@,
            "Ensure security groups restrict traffic"@,
            "network"@,
        ) && is_seed_control(r@[3], ids.3, "pci"@, "1.2.1"@, "Restrict inbound traffic"@, "network"@)
            && is_seed_control(r@[4], ids.4, "pci"@, "8.3"@, "Secure authentication"@, "identity"@),
{
    let mut v: Vec<CnappComplianceControlRecord> = Vec::new();
    if existing != 0 {
        return v;
    }
    let (a, b, c, d, e) = ids;
    v.push(control(a, "cis", "1.1", "Ensure MFA is enabled", "identity"));
    v.push(control(b, "cis", "2.1", "Ensure logging is enabled", "logging"));
    v.push(control(c, "cis", "3.4", "Ensure security groups restrict traffic", "network"));
    v.push(control(d, "pci", "1.2.1", "Restrict inbound traffic", "network"));
    v.push(control(e, "pci", "8.3", "Secure authentication", "identity"));
    v
}

fn plan(id: String, kind: &str, title: &str, priority: &str) -> (r: CnappRemediationPlanRecord)
    ensures
        r.id == id,
        r.finding_ref@ == "default"@,
        r.plan_kind@ == kind@,
        r.status@ == "pending"@,
        r.title@ == title@,
        r.priority@ == priority@,
{
    CnappRemediationPlanRecord {
        id,
        finding_ref: String::from_str("default"),
        plan_kind: String::from_str(kind),
        status: String::from_str("pending"),
        title: String::from_str(title),
        priority: String::from_str(priority),
    }
}

/// Whether a plan is the seeded one with this kind, title and priority.
pub open spec fn is_seed_plan(p: CnappRemediationPlanRecord, id: String, kind: Seq<char>, title: Seq<char>, priority: Seq<char>) -> bool {
    &&& p.id == id
    &&& p.finding_ref@ == "default"@
    &&& p.plan_kind@ == kind
    &&& p.status@ == "pending"@
    &&& p.title@ == title
    &&& p.priority@ == priority
}

/// The remediation plans seeded while none exist (none otherwise): patch,
/// rotate and harden, all pending.
pub fn seed_remediation_plans(existing: i64, ids: (String, String, String)) -> (r: Vec<CnappRemediationPlanRecord>)
    ensures
        existing != 0 ==> r@.len() == 0,
        existing == 0 ==> r@.len() == 3 && is_seed_plan(r@[0], ids.0, "patch"@, "Apply security patch"@, "high"@)
            && is_seed_plan(r@[1], ids.1, "rotate"@, "Rotate exposed credentials"@, "critical"@)
            && is_seed_plan(r@[2], ids.2, "harden"@, "Apply CIS benchmark hardening"@, "medium"@),
{
    let mut v: Vec<CnappRemediationPlanRecord> = Vec::new();
    if existing != 0 {
        return v;
    }
    let (a, b, c) = ids;
    v.push(plan(a, "patch", "Apply security patch", "high"));
    v.push(plan(b, "rotate", "Rotate exposed credentials", "critical"));
    v.push(plan(c, "harden", "Apply CIS benchmark hardening", "medium"));
    v
}

} // verus!
