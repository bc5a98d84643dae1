use vstd::prelude::*;

use crate::models::CloudControllerLinkRow;
use crate::text::{trim_trailing_slashes, u64_text};

verus! {

/// A cloud controller that this controller is linked to.
pub struct CloudControllerLink {
    pub id: String,
    pub tenant_id: String,
    pub cloud_base_url: String,
    pub registered_at: String,
}

pub struct CreateCloudControllerRequest {
    pub tenant_id: String,
    pub cloud_base_url: String,
    pub federation_token: String,
}

pub struct CloudControllerJobStub {
    pub job_id: String,
    pub controller_id: String,
    pub status: String,
    pub message: String,
}

pub struct CloudControllerDiagnosticsStub {
    pub controller_id: String,
    pub reachable: bool,
    pub federation_registered: bool,
    pub last_sync_at: Option<String>,
    pub notes: String,
}

pub struct CloudControllerBackupStub {
    pub backup_id: String,
    pub controller_id: String,
    pub status: String,
}

pub struct CloudControllerRestoreStub {
    pub restore_id: String,
    pub controller_id: String,
    pub status: String,
}

/// The link record of a stored row.
pub fn row_to_link(row: CloudControllerLinkRow) -> (r: CloudControllerLink)
    ensures
        r.id == row.id,
        r.tenant_id == row.tenant_id,
        r.cloud_base_url == row.cloud_base_url,
        r.registered_at == row.registered_at,
{
    CloudControllerLink {
        id: row.id,
        tenant_id: row.tenant_id,
        cloud_base_url: row.cloud_base_url,
        registered_at: row.registered_at,
    }
}

/// A new link as it is stored: the base URL loses its trailing slashes.
pub fn new_link(id: String, req: CreateCloudControllerRequest, registered_at: String) -> (r:
    CloudControllerLink)
    ensures
        r.id == id,
        r.tenant_id == req.tenant_id,
        r.cloud_base_url@ == crate::text::trim_slashes(req.cloud_base_url@),
        r.registered_at == registered_at,
{
    let url = trim_trailing_slashes(req.cloud_base_url.as_str());
    CloudControllerLink { id, tenant_id: req.tenant_id, cloud_base_url: url, registered_at }
}

/// A stored outbound federation token counts only when it is not empty.
pub fn usable_token(token: Option<String>) -> (r: Option<String>)
    ensures
        match token {
            Some(t) => if t@.len() > 0 {
                r == Some(t)
            } else {
                r is None
            },
            None => r is None,
        },
{
    match token {
        Some(t) => if t.as_str().is_empty() {
            None
        } else {
            Some(t)
        },
        None => None,
    }
}

/// How many bytes of a link id name its controller: eight, or all of a
/// shorter id.
pub open spec fn name_bytes(link_id: Seq<char>) -> int {
    let n = vstd::utf8::encode_utf8(link_id).len() as int;
    if n < 8 {
        n
    } else {
        8
    }
}

/// The name under which a controller is provisioned in the cloud:
/// `controller-` followed by the first eight bytes of its link id (all of a
/// shorter id). Those bytes must end on a character boundary.
pub fn provision_name(link_id: &str) -> (r: String)
    requires
        vstd::utf8::is_char_boundary(vstd::utf8::encode_utf8(link_id@), name_bytes(link_id@)),
    ensures
        r@ == "controller-"@ + vstd::utf8::decode_utf8(
            vstd::utf8::encode_utf8(link_id@).subrange(0, name_bytes(link_id@)),
        ),
{
    let n = link_id.as_bytes().len();
    let k: usize = if n < 8 {
        n
    } else {
        8
    };
    proof {
        vstd::utf8::encode_utf8_valid_utf8(link_id@);
    }
    let (head, _) = link_id.split_at(k);
    proof {
        vstd::utf8::encode_utf8_decode_utf8(head@);
    }
    String::from_str("controller-").concat(head)
}

/// Where provisioning requests are sent.
pub fn provision_url(cloud_base_url: &str) -> (r: String)
    ensures
        r@ == cloud_base_url@ + "/api/v1/federation/controllers"@,
{
    String::from_str(cloud_base_url).concat("/api/v1/federation/controllers")
}

/// How the cloud answered an HTTP request: its status code and status line
/// text, or the error that kept it from answering.
pub enum CloudReply {
    Status(u16, String),
    Unreachable(String),
}

pub open spec fn success_code(code: u16) -> bool {
    200 <= code <= 299
}

/// Status and message of a provisioning job: with no usable federation token
/// nothing is sent; a successful answer means the cloud took the request.
pub fn provision_outcome(reply: Option<CloudReply>) -> (r: (String, String))
    ensures
        match reply {
            None => r.0@ == "queued"@ && r.1@
                == "no federation token \u{2014} provision not sent to cloud"@,
            Some(CloudReply::Status(code, text)) => if success_code(code) {
                r.0@ == "submitted"@ && r.1@ == "provision request accepted by cloud"@
            } else {
                r.0@ == "queued"@ && r.1@ == "cloud provision returned "@ + text@
            },
            Some(CloudReply::Unreachable(e)) => r.0@ == "queued"@ && r.1@
                == "cloud provision unreachable: "@ + e@,
        },
{
    match reply {
        None => (
            String::from_str("queued"),
            String::from_str("no federation token \u{2014} provision not sent to cloud"),
        ),
        Some(CloudReply::Status(code, text)) => {
            if 200 <= code && code <= 299 {
                (
                    String::from_str("submitted"),
                    String::from_str("provision request accepted by cloud"),
                )
            } else {
                (
                    String::from_str("queued"),
                    String::from_str("cloud provision returned ").concat(text.as_str()),
                )
            }
        },
        Some(CloudReply::Unreachable(e)) => (
            String::from_str("queued"),
            String::from_str("cloud provision unreachable: ").concat(e.as_str()),
        ),
    }
}

/// The health endpoint of a cloud controller.
pub fn health_url(cloud_base_url: &str) -> (r: String)
    ensures
        r@ == cloud_base_url@ + "/health"@,
{
    String::from_str(cloud_base_url).concat("/health")
}

/// The note that diagnostics give on the cloud's health endpoint.
pub fn diagnostics_notes(reachable: bool, health_url: &str) -> (r: String)
    ensures
        reachable ==> r@ == "cloud health endpoint reachable"@,
        !reachable ==> r@ == "cloud health check failed for "@ + health_url@,
{
    if reachable {
        String::from_str("cloud health endpoint reachable")
    } else {
        String::from_str("cloud health check failed for ").concat(health_url)
    }
}

/// Where backups are uploaded.
pub fn sync_upload_url(cloud_base_url: &str) -> (r: String)
    ensures
        r@ == cloud_base_url@ + "/api/v1/cloud/sync"@,
{
    String::from_str(cloud_base_url).concat("/api/v1/cloud/sync")
}

/// Where a restore fetches the tenant's latest bundle from.
pub fn restore_url(cloud_base_url: &str, tenant_id: &str) -> (r: String)
    ensures
        r@ == cloud_base_url@ + "/api/v1/federation/sync?tenant_id="@ + tenant_id@,
{
    String::from_str(cloud_base_url).concat("/api/v1/federation/sync?tenant_id=").concat(tenant_id)
}

/// A backup upload succeeded when the cloud answered with a success status (204 included).
pub fn upload_accepted(code: u16) -> (r: bool)
    ensures
        r == (success_code(code) || code == 204),
{
    (200 <= code && code <= 299) || code == 204
}

/// Status of a backup job.
pub fn backup_status(uploaded: bool) -> (r: String)
    ensures
        uploaded ==> r@ == "uploaded"@,
        !uploaded ==> r@ == "queued"@,
{
    if uploaded {
        String::from_str("uploaded")
    } else {
        String::from_str("queued")
    }
}

/// How a restore went: no usable token (`None`), the cloud's answer with
/// whether a successful answer carried a JSON body, or unreachable.
pub enum RestoreReply {
    Answered(u16, bool),
    Unreachable,
}

/// Status of a restore job: `restored` once a successful answer's bundle is
/// stored, `cloud_restore_<code>` for an unsuccessful answer,
/// `cloud_unreachable` when the cloud did not answer, `queued` otherwise.
pub fn restore_status(reply: Option<RestoreReply>) -> (r: String)
    ensures
        match reply {
            None => r@ == "queued"@,
            Some(RestoreReply::Answered(code, has_body)) => if success_code(code) {
                if has_body {
                    r@ == "restored"@
                } else {
                    r@ == "queued"@
                }
            } else {
                r@ == "cloud_restore_"@ + crate::text::decimal(code as nat)
            },
            Some(RestoreReply::Unreachable) => r@ == "cloud_unreachable"@,
        },
{
    match reply {
        None => String::from_str("queued"),
        Some(RestoreReply::Answered(code, has_body)) => {
            if 200 <= code && code <= 299 {
                if has_body {
                    String::from_str("restored")
                } else {
                    String::from_str("queued")
                }
            } else {
                String::from_str("cloud_restore_").concat(u64_text(code as u64).as_str())
            }
        },
        Some(RestoreReply::Unreachable) => String::from_str("cloud_unreachable"),
    }
}

} // verus!
