//! Records kept by the server and the messages exchanged with agents.
use vstd::prelude::*;

verus! {

/// Per-client settings that override the agent's defaults; a missing field means
/// "use the agent's default".
#[derive(Clone, Debug, Default)]
pub struct ClientConfig {
    pub service_dir: Option<String>,
    pub restart_command: Option<String>,
    pub pre_update_script: Option<String>,
    pub post_update_script: Option<String>,
    pub health_check_url: Option<String>,
    pub health_check_timeout: Option<i32>,
    pub rollback_on_failure: Option<bool>,
}

impl ClientConfig {
    /// Whether at least one setting is given.
    pub open spec fn spec_has_settings(&self) -> bool {
        self.service_dir.is_some() || self.restart_command.is_some()
            || self.pre_update_script.is_some() || self.post_update_script.is_some()
            || self.health_check_url.is_some() || self.health_check_timeout.is_some()
            || self.rollback_on_failure.is_some()
    }

    /// Whether two settings records hold the same values.
    pub open spec fn same_as(&self, o: &ClientConfig) -> bool {
        opt_view(self.service_dir) == opt_view(o.service_dir)
            && opt_view(self.restart_command) == opt_view(o.restart_command)
            && opt_view(self.pre_update_script) == opt_view(o.pre_update_script)
            && opt_view(self.post_update_script) == opt_view(o.post_update_script)
            && opt_view(self.health_check_url) == opt_view(o.health_check_url)
            && self.health_check_timeout == o.health_check_timeout
            && self.rollback_on_failure == o.rollback_on_failure
    }

    /// A copy of the settings.
    pub fn duplicate(&self) -> (r: ClientConfig)
        ensures
            r.same_as(self),
            r.spec_has_settings() == self.spec_has_settings(),
    {
        ClientConfig {
            service_dir: copy_opt(&self.service_dir),
            restart_command: copy_opt(&self.restart_command),
            pre_update_script: copy_opt(&self.pre_update_script),
            post_update_script: copy_opt(&self.post_update_script),
            health_check_url: copy_opt(&self.health_check_url),
            health_check_timeout: self.health_check_timeout,
            rollback_on_failure: self.rollback_on_failure,
        }
    }

    /// Whether at least one setting is given.
    #[verifier::when_used_as_spec(spec_has_settings)]
    pub fn has_settings(&self) -> (r: bool)
        ensures
            r == self.spec_has_settings(),
    {
        self.service_dir.is_some() || self.restart_command.is_some()
            || self.pre_update_script.is_some() || self.post_update_script.is_some()
            || self.health_check_url.is_some() || self.health_check_timeout.is_some()
            || self.rollback_on_failure.is_some()
    }
}

/// Liveness and deployment status of a client.
#[derive(Clone, Copy, Debug, PartialEq, Eq, Structural)]
pub enum ClientStatus {
    Online,
    Offline,
    Updating,
    Error,
}

impl ClientStatus {
    /// The status named by its wire text, if any.
    pub open spec fn parse_spec(s: Seq<char>) -> Option<ClientStatus> {
        if s == "online"@ {
            Some(ClientStatus::Online)
        } else if s == "offline"@ {
            Some(ClientStatus::Offline)
        } else if s == "updating"@ {
            Some(ClientStatus::Updating)
        } else if s == "error"@ {
            Some(ClientStatus::Error)
        } else {
            None
        }
    }

    /// The status named by its wire text, if any.
    pub fn parse(s: &str) -> (r: Option<ClientStatus>)
        ensures
            r == ClientStatus::parse_spec(s@),
    {
        proof {
            reveal_strlit("online");
            reveal_strlit("offline");
            reveal_strlit("updating");
            reveal_strlit("error");
            assert("online"@.len() == 6);
            assert("offline"@.len() == 7);
            assert("updating"@.len() == 8);
            assert("error"@.len() == 5);
        }
        if crate::text::same_text(s, "online") {
            Some(ClientStatus::Online)
        } else if crate::text::same_text(s, "offline") {
            Some(ClientStatus::Offline)
        } else if crate::text::same_text(s, "updating") {
            Some(ClientStatus::Updating)
        } else if crate::text::same_text(s, "error") {
            Some(ClientStatus::Error)
        } else {
            None
        }
    }
}

/// A registered client (a managed host). Times are Unix seconds.
#[derive(Clone, Debug)]
pub struct Client {
    pub id: String,
    pub name: String,
    pub api_key: String,
    pub current_version: Option<String>,
    pub target_version: Option<String>,
    pub last_seen: Option<i64>,
    pub status: ClientStatus,
    pub created_at: i64,
    pub updated_at: i64,
    pub config: ClientConfig,
}

/// An uploaded release. Times are Unix seconds.
#[derive(Clone, Debug)]
pub struct Version {
    pub id: String,
    pub version: String,
    pub artifact_path: String,
    pub artifact_size: u64,
    pub checksum: String,
    pub release_notes: Option<String>,
    pub is_active: bool,
    pub created_at: i64,
}

/// Progress of one dispatched update.
#[derive(Clone, Copy, Debug, PartialEq, Eq, Structural)]
pub enum LogStatus {
    Pending,
    Downloading,
    Installing,
    Completed,
    Failed,
    RolledBack,
}

impl LogStatus {
    /// Terminal statuses are never rewritten and carry a completion time.
    pub open spec fn spec_is_terminal(self) -> bool {
        self is Completed || self is Failed || self is RolledBack
    }

    #[verifier::when_used_as_spec(spec_is_terminal)]
    pub fn is_terminal(self) -> (r: bool)
        ensures
            r == self.spec_is_terminal(),
    {
        match self {
            LogStatus::Completed | LogStatus::Failed | LogStatus::RolledBack => true,
            _ => false,
        }
    }
}

/// The record of one update directive sent to a client. Times are Unix seconds.
#[derive(Clone, Debug)]
pub struct UpdateLog {
    pub id: String,
    pub client_id: String,
    pub from_version: Option<String>,
    pub to_version: String,
    pub status: LogStatus,
    pub error_message: Option<String>,
    pub started_at: i64,
    pub completed_at: Option<i64>,
}

impl UpdateLog {
    /// A terminal log has a completion time.
    pub open spec fn wf(&self) -> bool {
        self.status.spec_is_terminal() ==> self.completed_at.is_some()
    }
}

/// What an agent sends when it checks in.
#[derive(Clone, Debug)]
pub struct CheckinRequest {
    pub current_version: Option<String>,
    pub status: String,
}

/// The server's decision for one check-in.
#[derive(Clone, Copy, Debug, PartialEq, Eq, Structural)]
pub enum CheckinAction {
    Nothing,
    Update,
}

/// The directive returned to an agent.
#[derive(Clone, Debug)]
pub struct CheckinResponse {
    pub action: CheckinAction,
    pub target_version: Option<String>,
    pub artifact_url: Option<String>,
    pub checksum: Option<String>,
    pub config: Option<ClientConfig>,
}

/// What an agent reports after an update attempt.
#[derive(Clone, Debug)]
pub struct UpdateResultRequest {
    pub version: String,
    pub success: bool,
    pub error_message: Option<String>,
    pub rolled_back: bool,
}

/// Request to register a new client.
#[derive(Clone, Debug)]
pub struct RegisterClientRequest {
    pub name: String,
    pub config: Option<ClientConfig>,
}

/// Request to replace a client's settings.
#[derive(Clone, Debug)]
pub struct UpdateClientConfigRequest {
    pub config: ClientConfig,
}

/// Answer to a registration: the only time the token is shown.
#[derive(Clone, Debug)]
pub struct RegisterClientResponse {
    pub id: String,
    pub name: String,
    pub api_key: String,
}

/// Request to assign a version to a client.
#[derive(Clone, Debug)]
pub struct DeployRequest {
    pub version: String,
}

/// Error kinds of the server's endpoints.
#[derive(Clone, Copy, Debug, PartialEq, Eq, Structural)]
pub enum ApiError {
    /// Missing or unknown token.
    Unauthorized,
    /// Unknown client, version or artifact.
    NotFound,
    /// Duplicate version upload.
    Conflict,
    /// Malformed input or a missing required field.
    Validation,
    /// Unexpected server failure.
    Internal,
}

impl ApiError {
    /// The HTTP status code of the error.
    pub fn status_code(self) -> (r: u16)
        ensures
            self is Unauthorized ==> r == 401,
            self is NotFound ==> r == 404,
            self is Conflict ==> r == 409,
            self is Validation ==> r == 400,
            self is Internal ==> r == 500,
    {
        match self {
            ApiError::Unauthorized => 401,
            ApiError::NotFound => 404,
            ApiError::Conflict => 409,
            ApiError::Validation => 400,
            ApiError::Internal => 500,
        }
    }
}

/// The text view of an optional string.
pub open spec fn opt_view(o: Option<String>) -> Option<Seq<char>> {
    match o {
        Some(s) => Some(s@),
        None => None,
    }
}

/// A copy of an optional string.
pub fn copy_opt(o: &Option<String>) -> (r: Option<String>)
    ensures
        opt_view(r) == opt_view(*o),
{
    match o {
        Some(s) => Some(crate::text::copy_text(s.as_str())),
        None => None,
    }
}

} // verus!
