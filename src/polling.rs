//! The agent's side of the polling loop: which requests it sends, what it does
//! with a directive, and what it reports afterwards. The caller performs the I/O.
use vstd::prelude::*;
use crate::agent::{absolute_url, is_absolute_url, Config, Updater};
use crate::models::{copy_opt, opt_view, CheckinAction, CheckinRequest, CheckinResponse, UpdateResultRequest};
use crate::text::{copy_text, join2, strip_trailing, trim_blanks, trimmed, trim_end_char};
use crate::transaction::{Outcome, Stage, Transaction};

verus! {

/// The agent's view of the server: its base URL without trailing slashes, and the
/// token sent in the `X-API-Key` header.
pub struct DmApiClient {
    pub server_url: String,
    pub api_key: String,
}

impl DmApiClient {
    pub fn new(server_url: &str, api_key: &str) -> (r: DmApiClient)
        ensures
            r.server_url@ == strip_trailing(server_url@, '/'),
            r.api_key@ == api_key@,
    {
        DmApiClient { server_url: trim_end_char(server_url, '/'), api_key: copy_text(api_key) }
    }

    /// The URL of a server path.
    pub fn endpoint(&self, path: &str) -> (r: String)
        ensures
            r@ == self.server_url@ + path@,
    {
        join2(self.server_url.as_str(), path)
    }

    /// The URL of the check-in endpoint.
    pub fn checkin_url(&self) -> (r: String)
        ensures
            r@ == self.server_url@ + "/api/checkin"@,
    {
        self.endpoint("/api/checkin")
    }

    /// The URL of the result endpoint.
    pub fn result_url(&self) -> (r: String)
        ensures
            r@ == self.server_url@ + "/api/update-result"@,
    {
        self.endpoint("/api/update-result")
    }

    /// Where to download an artifact: an absolute URL as it is, a path on this
    /// server otherwise.
    pub fn download_url(&self, artifact_url: &str) -> (r: String)
        ensures
            is_absolute_url(artifact_url@) ==> r@ == artifact_url@,
            !is_absolute_url(artifact_url@) ==> r@ == self.server_url@ + artifact_url@,
    {
        if absolute_url(artifact_url) {
            copy_text(artifact_url)
        } else {
            join2(self.server_url.as_str(), artifact_url)
        }
    }

    /// The body of a check-in.
    pub fn checkin_request(current_version: &Option<String>) -> (r: CheckinRequest)
        ensures
            opt_view(r.current_version) == opt_view(*current_version),
            r.status@ == "online"@,
    {
        CheckinRequest { current_version: copy_opt(current_version), status: String::from_str("online") }
    }
}

/// An update that a directive asks for.
pub struct UpdatePlan {
    pub target_version: String,
    pub artifact_url: String,
    pub checksum: String,
}

/// A text, or a default where it is absent.
pub open spec fn text_or_default(o: Option<Seq<char>>, d: Seq<char>) -> Seq<char> {
    match o {
        Some(s) => s,
        None => d,
    }
}

fn opt_text_or(o: &Option<String>, d: &str) -> (r: String)
    ensures
        r@ == text_or_default(opt_view(*o), d@),
{
    match o {
        Some(s) => copy_text(s.as_str()),
        None => String::from_str(d),
    }
}

/// The version that a version marker's contents name: the text without its
/// surrounding blanks; none where the marker is missing or blank.
pub open spec fn marker_version(contents: Option<Seq<char>>) -> Option<Seq<char>> {
    match contents {
        Some(c) => if trimmed(c).len() > 0 { Some(trimmed(c)) } else { None },
        None => None,
    }
}

/// A polling agent: its settings and its updater.
pub struct PollingDaemon {
    pub config: Config,
    pub updater: Updater,
}

impl PollingDaemon {
    pub fn new(config: Config) -> (r: PollingDaemon)
        ensures
            r.config == config,
            r.updater.config.same_as(&config),
    {
        let updater = Updater::new(config.duplicate());
        PollingDaemon { config, updater }
    }

    /// The version named by the contents of the version marker, if any.
    pub fn read_current_version(contents: Option<&str>) -> (r: Option<String>)
        ensures
            opt_view(r) == marker_version(match contents {
                Some(c) => Some(c@),
                None => None,
            }),
    {
        match contents {
            None => None,
            Some(c) => {
                let t = trim_blanks(c);
                if t.as_str().unicode_len() > 0 {
                    Some(t)
                } else {
                    None
                }
            },
        }
    }

    /// The update that a directive asks for, if any. Missing fields of an update
    /// directive become `unknown` (the target) or empty, and then fail the
    /// transaction at the download or the checksum check.
    pub fn plan_update(resp: &CheckinResponse) -> (r: Option<UpdatePlan>)
        ensures
            resp.action == CheckinAction::Nothing ==> r is None,
            resp.action == CheckinAction::Update ==> r is Some && ({
                let p = r.unwrap();
                &&& p.target_version@ == text_or_default(opt_view(resp.target_version), "unknown"@)
                &&& p.artifact_url@ == text_or_default(opt_view(resp.artifact_url), ""@)
                &&& p.checksum@ == text_or_default(opt_view(resp.checksum), ""@)
            }),
    {
        match resp.action {
            CheckinAction::Nothing => None,
            CheckinAction::Update => Some(UpdatePlan {
                target_version: opt_text_or(&resp.target_version, "unknown"),
                artifact_url: opt_text_or(&resp.artifact_url, ""),
                checksum: opt_text_or(&resp.checksum, ""),
            }),
        }
    }

    /// The transaction for a planned update: it starts at the download, and the
    /// bytes are always checked against the directive's checksum. `marker` is the
    /// version marker's exact contents, restored as they were on a rollback.
    pub fn start_update(plan: &UpdatePlan, current_version: &Option<String>, marker: &Option<String>) -> (r: Transaction)
        ensures
            r.target@ == plan.target_version@,
            opt_view(r.previous) == opt_view(*current_version),
            opt_view(r.previous_marker) == opt_view(*marker),
            r.verify,
            r.stage == Stage::Download,
            !r.backup_taken,
    {
        Transaction::begin(
            copy_text(plan.target_version.as_str()),
            copy_opt(current_version),
            copy_opt(marker),
            false,
            true,
        )
    }

    /// The report of a finished transaction: success only when it completed, and
    /// whether a failed one was rolled back.
    pub fn result_report(target: &str, outcome: Outcome, error_message: Option<String>) -> (r: UpdateResultRequest)
        ensures
            r.version@ == target@,
            r.success == (outcome is Completed),
            r.rolled_back == (outcome is RolledBack),
            outcome is Completed ==> r.error_message is None,
            !(outcome is Completed) ==> r.error_message == error_message,
    {
        let success = crate::transaction::outcome_succeeded(outcome);
        UpdateResultRequest {
            version: copy_text(target),
            success,
            error_message: if success { None } else { error_message },
            rolled_back: crate::transaction::outcome_rolled_back(outcome),
        }
    }
}

} // verus!
