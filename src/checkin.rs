//! The server's side of the polling loop: deciding a directive for each check-in,
//! reconciling reported results, and keeping the update log.
use vstd::prelude::*;
use crate::models::{
    copy_opt, opt_view, ApiError, CheckinAction, CheckinRequest, CheckinResponse, Client,
    ClientConfig, ClientStatus, LogStatus, UpdateLog, UpdateResultRequest, Version,
};
use crate::registry::{
    checkin_state, deploy_state, failure_state, mark_error, mark_success, success_state,
    update_client_checkin, ClientState,
};
use crate::text::{copy_text, join2, same_text};

verus! {

/// Whether a client must move: a version is wanted and the client did not report
/// running it.
pub open spec fn needs_update(desired: Option<Seq<char>>, reported: Option<Seq<char>>) -> bool {
    match desired {
        None => false,
        Some(d) => match reported {
            None => true,
            Some(c) => d != c,
        },
    }
}

/// The version that a check-in dispatches, if any.
pub open spec fn dispatch_target(s: ClientState, reported: Option<Seq<char>>) -> Option<Seq<char>> {
    if needs_update(s.desired, reported) {
        s.desired
    } else {
        None
    }
}

/// The path from which the server serves an artifact.
pub open spec fn artifact_url_of(version: Seq<char>) -> Seq<char> {
    "/api/artifacts/"@ + version
}

/// Whether the settings sent along with a directive are right: present exactly
/// when one is given, and then equal to the client's.
pub open spec fn config_sent(sent: Option<ClientConfig>, c: ClientConfig) -> bool {
    match sent {
        Some(x) => c.spec_has_settings() && x.same_as(&c),
        None => !c.spec_has_settings(),
    }
}

/// Whether two optional strings hold the same text.
pub fn same_opt_text(a: &Option<String>, b: &Option<String>) -> (r: bool)
    ensures
        r == (opt_view(*a) == opt_view(*b)),
{
    match (a, b) {
        (Some(x), Some(y)) => same_text(x.as_str(), y.as_str()),
        (None, None) => true,
        _ => false,
    }
}

/// Decides whether a client must move.
pub fn check_needs_update(desired: &Option<String>, reported: &Option<String>) -> (r: bool)
    ensures
        r == needs_update(opt_view(*desired), opt_view(*reported)),
{
    match (desired, reported) {
        (Some(d), Some(c)) => !same_text(d.as_str(), c.as_str()),
        (Some(_), None) => true,
        _ => false,
    }
}

/// The path from which the server serves an artifact.
pub fn artifact_url(version: &str) -> (r: String)
    ensures
        r@ == artifact_url_of(version@),
{
    join2("/api/artifacts/", version)
}

/// What an accepted check-in does: it records the check-in on the client and
/// answers with an update directive exactly where the client must move and the
/// wanted version's catalog row is `target_row`.
pub open spec fn checkin_done(
    before: Client,
    after: Client,
    req: CheckinRequest,
    target_row: Option<&Version>,
    now: i64,
    resp: CheckinResponse,
) -> bool {
    let reported = opt_view(req.current_version);
    let target = dispatch_target(before.state(), reported);
    &&& after.state() == checkin_state(
        before.state(),
        reported,
        ClientStatus::parse_spec(req.status@).unwrap(),
    )
    &&& after.same_identity(&before)
    &&& after.last_seen == Some(now)
    &&& (resp.action == CheckinAction::Update) == (target is Some && target_row is Some
        && target_row.unwrap().version@ == target.unwrap())
    &&& resp.action == CheckinAction::Update ==> {
        &&& opt_view(resp.target_version) == target
        &&& opt_view(resp.artifact_url) == Some(artifact_url_of(target.unwrap()))
        &&& opt_view(resp.checksum) == Some(target_row.unwrap().checksum@)
    }
    &&& resp.action == CheckinAction::Nothing ==> resp.target_version is None
        && resp.artifact_url is None && resp.checksum is None
    &&& config_sent(resp.config, before.config)
}

/// One check-in of an authenticated client. The reported status must be one of
/// `online`, `offline`, `updating`, `error` (else `Validation`, and nothing is
/// recorded). The check-in is recorded; then, where the client must move and the
/// catalog row of the wanted version was found (`target_row`), the answer is an
/// update directive to that version; otherwise it is no action.
pub fn checkin(
    client: &mut Client,
    req: &CheckinRequest,
    target_row: Option<&Version>,
    now: i64,
) -> (r: Result<CheckinResponse, ApiError>)
    ensures
        ClientStatus::parse_spec(req.status@) is None ==> r == Err::<CheckinResponse, ApiError>(
            ApiError::Validation,
        ) && *final(client) == *old(client),
        ClientStatus::parse_spec(req.status@) is Some ==> r is Ok && checkin_done(
            *old(client),
            *final(client),
            *req,
            target_row,
            now,
            r.unwrap(),
        ),
{
    let status = match ClientStatus::parse(req.status.as_str()) {
        Some(s) => s,
        None => return Err(ApiError::Validation),
    };
    let needs = check_needs_update(&client.target_version, &req.current_version);
    let desired = copy_opt(&client.target_version);
    let config = if client.config.has_settings() {
        Some(client.config.duplicate())
    } else {
        None
    };
    update_client_checkin(client, &req.current_version, status, now);
    if needs {
        if let Some(row) = target_row {
            if same_opt_text(&desired, &Some(copy_text(row.version.as_str()))) {
                return Ok(CheckinResponse {
                    action: CheckinAction::Update,
                    target_version: Some(copy_text(row.version.as_str())),
                    artifact_url: Some(artifact_url(row.version.as_str())),
                    checksum: Some(copy_text(row.checksum.as_str())),
                    config,
                });
            }
        }
    }
    Ok(CheckinResponse {
        action: CheckinAction::Nothing,
        target_version: None,
        artifact_url: None,
        checksum: None,
        config,
    })
}

/// The answer to a result report.
pub struct UpdateResultResponse {
    pub message: String,
    pub version: String,
    pub error: Option<String>,
}

/// What a result report does to the client, and its answer.
pub open spec fn result_done(before: Client, after: Client, req: UpdateResultRequest, r: UpdateResultResponse) -> bool {
    &&& req.success ==> after.state() == success_state(before.state(), req.version@)
    &&& !req.success ==> after.state() == failure_state(before.state())
    &&& after.same_identity(&before)
    &&& r.version@ == req.version@
    &&& req.success ==> r.message@ == "Update success recorded"@ && r.error is None
    &&& !req.success ==> r.message@ == "Update failure recorded"@ && opt_view(r.error) == opt_view(
        req.error_message,
    )
}

/// Reconciles an authenticated client's report: success at `v` sets the observed
/// version to `v`, clears the wanted one and marks the client online; failure
/// marks it in error and keeps the wanted version.
pub fn report_update_result(client: &mut Client, req: &UpdateResultRequest, now: i64) -> (r: UpdateResultResponse)
    ensures
        result_done(*old(client), *final(client), *req, r),
{
    if req.success {
        mark_success(client, req.version.as_str(), now);
        UpdateResultResponse {
            message: String::from_str("Update success recorded"),
            version: copy_text(req.version.as_str()),
            error: None,
        }
    } else {
        mark_error(client, now);
        UpdateResultResponse {
            message: String::from_str("Update failure recorded"),
            version: copy_text(req.version.as_str()),
            error: copy_opt(&req.error_message),
        }
    }
}

/// The terminal log status of a report: completed on success; on failure,
/// rolled back when the agent restored the previous state, else failed.
pub open spec fn outcome_status(success: bool, rolled_back: bool) -> LogStatus {
    if success {
        LogStatus::Completed
    } else if rolled_back {
        LogStatus::RolledBack
    } else {
        LogStatus::Failed
    }
}

/// The terminal log status of a report.
pub fn result_log_status(req: &UpdateResultRequest) -> (r: LogStatus)
    ensures
        r == outcome_status(req.success, req.rolled_back),
        r.spec_is_terminal(),
{
    if req.success {
        LogStatus::Completed
    } else if req.rolled_back {
        LogStatus::RolledBack
    } else {
        LogStatus::Failed
    }
}

/// The log row opened when an update directive is dispatched.
pub fn create_update_log(
    id: String,
    client_id: &str,
    from_version: &Option<String>,
    to_version: &str,
    now: i64,
) -> (r: UpdateLog)
    ensures
        r.id@ == id@,
        r.client_id@ == client_id@,
        opt_view(r.from_version) == opt_view(*from_version),
        r.to_version@ == to_version@,
        r.status == LogStatus::Pending,
        r.error_message is None,
        r.started_at == now,
        r.completed_at is None,
        r.wf(),
{
    UpdateLog {
        id,
        client_id: copy_text(client_id),
        from_version: copy_opt(from_version),
        to_version: copy_text(to_version),
        status: LogStatus::Pending,
        error_message: None,
        started_at: now,
        completed_at: None,
    }
}

/// Moves a log to a new status. A terminal log is never rewritten; a log that
/// becomes terminal gets its completion time.
pub fn update_log_status(log: &mut UpdateLog, status: LogStatus, error_message: Option<String>, now: i64)
    requires
        old(log).wf(),
    ensures
        final(log).wf(),
        old(log).status.spec_is_terminal() ==> *final(log) == *old(log),
        !old(log).status.spec_is_terminal() ==> {
            &&& final(log).status == status
            &&& final(log).error_message == error_message
            &&& final(log).completed_at == (if status.spec_is_terminal() { Some(now) } else { None })
            &&& final(log).id == old(log).id && final(log).client_id == old(log).client_id
            &&& final(log).to_version == old(log).to_version
            &&& final(log).from_version == old(log).from_version
            &&& final(log).started_at == old(log).started_at
        },
{
    if log.status.is_terminal() {
        return;
    }
    log.status = status;
    log.error_message = error_message;
    log.completed_at = if status.is_terminal() { Some(now) } else { None };
}

/// Whether a log is an open one for the client and target version.
pub open spec fn is_open_log_for(l: UpdateLog, client_id: Seq<char>, to_version: Seq<char>) -> bool {
    !l.status.spec_is_terminal() && l.client_id@ == client_id && l.to_version@ == to_version
}

/// Whether `k` is the most recent open log of a client for a target version:
/// among the open ones, the latest start, and the last such in the list on a tie.
pub open spec fn is_latest_open(logs: Seq<UpdateLog>, k: int, client_id: Seq<char>, to_version: Seq<char>) -> bool {
    &&& 0 <= k < logs.len()
    &&& is_open_log_for(logs[k], client_id, to_version)
    &&& forall|i: int| 0 <= i < logs.len() && is_open_log_for(logs[i], client_id, to_version)
        ==> logs[i].started_at <= logs[k].started_at
    &&& forall|i: int| k < i < logs.len() && is_open_log_for(logs[i], client_id, to_version)
        ==> logs[i].started_at < logs[k].started_at
}

/// Whether a list holds no open log of a client for a target version.
pub open spec fn no_open_log(logs: Seq<UpdateLog>, client_id: Seq<char>, to_version: Seq<char>) -> bool {
    forall|i: int| 0 <= i < logs.len() ==> !is_open_log_for(logs[i], client_id, to_version)
}

/// The most recent open log of a client for a target version.
pub fn find_open_log(logs: &Vec<UpdateLog>, client_id: &str, to_version: &str) -> (r: Option<usize>)
    ensures
        r is None ==> no_open_log(logs@, client_id@, to_version@),
        r is Some ==> is_latest_open(logs@, r.unwrap() as int, client_id@, to_version@),
{
    let mut best: Option<usize> = None;
    let mut i: usize = 0;
    while i < logs.len()
        invariant
            i <= logs@.len(),
            best is None ==> forall|j: int| 0 <= j < i ==> !is_open_log_for(logs@[j], client_id@, to_version@),
            best is Some ==> {
                let k = best.unwrap() as int;
                &&& k < i
                &&& is_open_log_for(logs@[k], client_id@, to_version@)
                &&& forall|j: int| 0 <= j < i && is_open_log_for(logs@[j], client_id@, to_version@)
                    ==> logs@[j].started_at <= logs@[k].started_at
                &&& forall|j: int| k < j < i && is_open_log_for(logs@[j], client_id@, to_version@)
                    ==> logs@[j].started_at < logs@[k].started_at
            },
        decreases logs@.len() - i,
    {
        let l = &logs[i];
        if !l.status.is_terminal() && same_text(l.client_id.as_str(), client_id) && same_text(
            l.to_version.as_str(),
            to_version,
        ) {
            match best {
                None => {
                    best = Some(i);
                },
                Some(b) => {
                    if logs[b].started_at <= l.started_at {
                        best = Some(i);
                    }
                },
            }
        }
        i = i + 1;
    }
    best
}

impl UpdateLog {
    /// A copy of the log.
    pub fn duplicate(&self) -> (r: UpdateLog)
        ensures
            r.same_as(self),
            r.status == self.status,
            r.error_message is Some == self.error_message is Some,
            r.completed_at == self.completed_at,
    {
        UpdateLog {
            id: copy_text(self.id.as_str()),
            client_id: copy_text(self.client_id.as_str()),
            from_version: copy_opt(&self.from_version),
            to_version: copy_text(self.to_version.as_str()),
            status: self.status,
            error_message: copy_opt(&self.error_message),
            started_at: self.started_at,
            completed_at: self.completed_at,
        }
    }

    /// Whether two logs are the same record of the same directive.
    pub open spec fn same_as(&self, o: &UpdateLog) -> bool {
        &&& self.id@ == o.id@
        &&& self.client_id@ == o.client_id@
        &&& opt_view(self.from_version) == opt_view(o.from_version)
        &&& self.to_version@ == o.to_version@
        &&& self.started_at == o.started_at
    }
}

/// The pending log of a dispatched directive.
pub open spec fn opened_log(l: UpdateLog, id: Seq<char>, client: Client, req: CheckinRequest, resp: CheckinResponse, now: i64) -> bool {
    &&& l.id@ == id
    &&& l.client_id@ == client.id@
    &&& opt_view(l.from_version) == opt_view(req.current_version)
    &&& Some(l.to_version@) == opt_view(resp.target_version)
    &&& l.status == LogStatus::Pending
    &&& l.error_message is None
    &&& l.started_at == now
    &&& l.completed_at is None
}

/// The terminal form of an open log after a report.
pub open spec fn closed_log(before: UpdateLog, after: UpdateLog, req: UpdateResultRequest, now: i64) -> bool {
    &&& after.same_as(&before)
    &&& after.status == outcome_status(req.success, req.rolled_back)
    &&& opt_view(after.error_message) == opt_view(req.error_message)
    &&& after.completed_at == Some(now)
}

/// Whether a request fails the agent endpoints' token gate: the token is missing,
/// or no client was found whose token it is.
pub open spec fn refused_token(header: Option<&str>, found: Option<Client>) -> bool {
    header is None || found is None || found.unwrap().api_key@ != header.unwrap()@
}

/// What a check-in request leads to: the client as recorded, the answer, and the
/// pending log to store where an update is dispatched.
pub struct CheckinOutcome {
    pub client: Client,
    pub response: CheckinResponse,
    pub new_log: Option<UpdateLog>,
}

/// The check-in endpoint: `header` is the `X-API-Key` value, and `found` the
/// client that the registry holds for it. A missing or unknown token is refused
/// with `Unauthorized`, and a bad status with `Validation`, before anything is
/// recorded. Otherwise the check-in is recorded and answered as `checkin` says,
/// and exactly an update directive opens a pending log (named `log_id`) from the
/// reported version to the target.
pub fn handle_checkin(
    header: Option<&str>,
    found: Option<Client>,
    req: &CheckinRequest,
    target_row: Option<&Version>,
    log_id: &str,
    now: i64,
) -> (r: Result<CheckinOutcome, ApiError>)
    ensures
        refused_token(header, found) ==> r == Err::<CheckinOutcome, ApiError>(ApiError::Unauthorized),
        !refused_token(header, found) && ClientStatus::parse_spec(req.status@) is None ==> r == Err::<
            CheckinOutcome,
            ApiError,
        >(ApiError::Validation),
        !refused_token(header, found) && ClientStatus::parse_spec(req.status@) is Some ==> r is Ok && ({
            let o = r.unwrap();
            &&& checkin_done(found.unwrap(), o.client, *req, target_row, now, o.response)
            &&& o.new_log is Some == (o.response.action == CheckinAction::Update)
            &&& o.new_log is Some ==> opened_log(o.new_log.unwrap(), log_id@, found.unwrap(), *req, o.response, now)
        }),
{
    let mut client = crate::registry::authenticate(header, found)?;
    let response = checkin(&mut client, req, target_row, now)?;
    let new_log = match &response.target_version {
        Some(t) => {
            if matches!(response.action, CheckinAction::Update) {
                Some(create_update_log(copy_text(log_id), client.id.as_str(), &req.current_version, t.as_str(), now))
            } else {
                None
            }
        },
        None => None,
    };
    Ok(CheckinOutcome { client, response, new_log })
}

/// What a result report leads to: the client as recorded, the answer, and the
/// log to store in its terminal form, if an open one was found.
pub struct ResultOutcome {
    pub client: Client,
    pub response: UpdateResultResponse,
    pub closed_log: Option<UpdateLog>,
}

/// The result endpoint: `header` is the `X-API-Key` value, `found` the client held
/// for it, and `logs` the stored logs. A missing or unknown token is refused with
/// `Unauthorized`. Otherwise the client is reconciled as `report_update_result`
/// says, and the most recent open log of this client for the reported version is
/// closed as completed, rolled back or failed, with the report's message and the
/// time `now`; no other log changes.
pub fn handle_update_result(
    header: Option<&str>,
    found: Option<Client>,
    req: &UpdateResultRequest,
    logs: &Vec<UpdateLog>,
    now: i64,
) -> (r: Result<ResultOutcome, ApiError>)
    ensures
        refused_token(header, found) ==> r == Err::<ResultOutcome, ApiError>(ApiError::Unauthorized),
        !refused_token(header, found) ==> r is Ok && ({
            let o = r.unwrap();
            let c = found.unwrap();
            &&& result_done(c, o.client, *req, o.response)
            &&& o.closed_log is None == no_open_log(logs@, c.id@, req.version@)
            &&& o.closed_log is Some ==> exists|k: int|
                is_latest_open(logs@, k, c.id@, req.version@) && closed_log(logs@[k], o.closed_log.unwrap(), *req, now)
        }),
{
    let mut client = crate::registry::authenticate(header, found)?;
    let response = report_update_result(&mut client, req, now);
    let closed_log = match find_open_log(logs, client.id.as_str(), req.version.as_str()) {
        None => None,
        Some(k) => {
            let mut log = logs[k].duplicate();
            update_log_status(&mut log, result_log_status(req), copy_opt(&req.error_message), now);
            Some(log)
        },
    };
    Ok(ResultOutcome { client, response, closed_log })
}

/// A deploy followed by a check-in from an older version dispatches the deployed
/// version; after the success report, a check-in at that version gets no
/// directive, the client is recorded at it, and nothing is wanted any more.
pub proof fn deploy_update_success_cycle(s: ClientState, v: Seq<char>, previous: Option<Seq<char>>)
    requires
        previous != Some(v),
    ensures
        dispatch_target(deploy_state(s, v), previous) == Some(v),
        ({
            let after = success_state(checkin_state(deploy_state(s, v), previous, ClientStatus::Online), v);
            &&& dispatch_target(after, Some(v)) is None
            &&& after.observed == Some(v)
            &&& after.desired is None
            &&& after.status == ClientStatus::Online
            &&& dispatch_target(checkin_state(after, Some(v), ClientStatus::Online), Some(v)) is None
        }),
{
}

/// A failure report leaves the client in error with the same wanted version, so
/// the next check-in from the old version dispatches it again.
pub proof fn failure_keeps_desired(s: ClientState, v: Seq<char>, previous: Option<Seq<char>>)
    requires
        previous != Some(v),
    ensures
        ({
            let after = failure_state(checkin_state(deploy_state(s, v), previous, ClientStatus::Online));
            &&& after.status == ClientStatus::Error
            &&& after.desired == Some(v)
            &&& dispatch_target(after, previous) == Some(v)
        }),
{
}

/// Delivering the same directive twice is harmless: a repeated check-in with the
/// same report dispatches the same version, a repeated success report changes
/// nothing more, and afterwards a check-in at that version gets no directive.
pub proof fn redelivery_is_idempotent(s: ClientState, v: Seq<char>, previous: Option<Seq<char>>, st: ClientStatus)
    requires
        previous != Some(v),
    ensures
        ({
            let once = checkin_state(deploy_state(s, v), previous, st);
            let twice = checkin_state(once, previous, st);
            &&& dispatch_target(once, previous) == Some(v)
            &&& dispatch_target(twice, previous) == Some(v)
            &&& success_state(success_state(twice, v), v) == success_state(twice, v)
            &&& dispatch_target(success_state(success_state(twice, v), v), Some(v)) is None
        }),
{
}

} // verus!
