//! The client registry: tokens, and the per-client deployment state that
//! check-ins, deploy commands and result reports move.
use vstd::prelude::*;
use crate::models::{
    copy_opt, opt_view, ApiError, Client, ClientConfig, ClientStatus, RegisterClientRequest,
    RegisterClientResponse, Version,
};
use crate::text::copy_text;

verus! {

/// The deployment state of a client: what it runs, what the operator wants on it,
/// and its status.
pub struct ClientState {
    pub observed: Option<Seq<char>>,
    pub desired: Option<Seq<char>>,
    pub status: ClientStatus,
}

impl Client {
    /// The deployment state of this client.
    pub open spec fn state(&self) -> ClientState {
        ClientState {
            observed: opt_view(self.current_version),
            desired: opt_view(self.target_version),
            status: self.status,
        }
    }

    /// The fields that no state transition touches.
    pub open spec fn same_identity(&self, other: &Client) -> bool {
        self.id@ == other.id@ && self.name@ == other.name@ && self.api_key@ == other.api_key@
            && self.created_at == other.created_at && self.config == other.config
    }
}

/// A check-in: a reported version is merged in (an absent one keeps the previous
/// value), and the reported status is recorded.
pub open spec fn checkin_state(s: ClientState, reported: Option<Seq<char>>, status: ClientStatus) -> ClientState {
    ClientState {
        observed: if reported.is_some() { reported } else { s.observed },
        desired: s.desired,
        status,
    }
}

/// A deploy command: the operator's wanted version is replaced.
pub open spec fn deploy_state(s: ClientState, v: Seq<char>) -> ClientState {
    ClientState { desired: Some(v), ..s }
}

/// A success report at version `v`: observed becomes `v`, the wanted version is
/// cleared, and the client is online.
pub open spec fn success_state(s: ClientState, v: Seq<char>) -> ClientState {
    ClientState { observed: Some(v), desired: None, status: ClientStatus::Online }
}

/// A failure report: the client is in error and keeps its wanted version.
pub open spec fn failure_state(s: ClientState) -> ClientState {
    ClientState { status: ClientStatus::Error, ..s }
}

/// Records a check-in at time `now`.
pub fn update_client_checkin(
    client: &mut Client,
    current_version: &Option<String>,
    status: ClientStatus,
    now: i64,
)
    ensures
        final(client).state() == checkin_state(old(client).state(), opt_view(*current_version), status),
        final(client).same_identity(old(client)),
        final(client).last_seen == Some(now),
        final(client).updated_at == now,
{
    if current_version.is_some() {
        client.current_version = copy_opt(current_version);
    }
    client.status = status;
    client.last_seen = Some(now);
    client.updated_at = now;
}

/// Assigns the version that the client should run.
pub fn set_client_target_version(client: &mut Client, version: &str, now: i64)
    ensures
        final(client).state() == deploy_state(old(client).state(), version@),
        final(client).same_identity(old(client)),
        final(client).last_seen == old(client).last_seen,
        final(client).updated_at == now,
{
    client.target_version = Some(copy_text(version));
    client.updated_at = now;
}

/// Records a successful update to `version`.
pub fn mark_success(client: &mut Client, version: &str, now: i64)
    ensures
        final(client).state() == success_state(old(client).state(), version@),
        final(client).same_identity(old(client)),
        final(client).last_seen == old(client).last_seen,
        final(client).updated_at == now,
{
    client.current_version = Some(copy_text(version));
    client.target_version = None;
    client.status = ClientStatus::Online;
    client.updated_at = now;
}

/// Records a failed update; the wanted version stays for the operator to decide.
pub fn mark_error(client: &mut Client, now: i64)
    ensures
        final(client).state() == failure_state(old(client).state()),
        final(client).same_identity(old(client)),
        final(client).last_seen == old(client).last_seen,
        final(client).updated_at == now,
{
    client.status = ClientStatus::Error;
    client.updated_at = now;
}

/// Assigns a version to a client; the version must exist in the catalog.
pub fn deploy_to_client(client: &mut Client, version: Option<&Version>, now: i64) -> (r: Result<(), ApiError>)
    ensures
        version is None ==> r == Err::<(), ApiError>(ApiError::NotFound) && *final(client) == *old(client),
        version is Some ==> r is Ok && final(client).state() == deploy_state(
            old(client).state(),
            version.unwrap().version@,
        ) && final(client).same_identity(old(client)),
{
    match version {
        None => Err(ApiError::NotFound),
        Some(v) => {
            set_client_target_version(client, v.version.as_str(), now);
            Ok(())
        },
    }
}

/// Replaces a client's settings.
pub fn update_client_config(client: &mut Client, config: ClientConfig, now: i64)
    ensures
        final(client).config == config,
        final(client).state() == old(client).state(),
        final(client).id@ == old(client).id@,
        final(client).api_key@ == old(client).api_key@,
        final(client).updated_at == now,
{
    client.config = config;
    client.updated_at = now;
}

/// Builds the record of a newly registered client: no version yet, offline, and
/// the settings given (none means all defaults).
pub fn register_client(req: RegisterClientRequest, id: String, api_key: String, now: i64) -> (r: Client)
    ensures
        r.id@ == id@,
        r.name@ == req.name@,
        r.api_key@ == api_key@,
        r.current_version is None,
        r.target_version is None,
        r.last_seen is None,
        r.status == ClientStatus::Offline,
        r.created_at == now,
        r.updated_at == now,
        r.config == (match req.config { Some(c) => c, None => ClientConfig::default_spec() }),
{
    let config = match req.config {
        Some(c) => c,
        None => ClientConfig::empty(),
    };
    Client {
        id,
        name: req.name,
        api_key,
        current_version: None,
        target_version: None,
        last_seen: None,
        status: ClientStatus::Offline,
        created_at: now,
        updated_at: now,
        config,
    }
}

impl ClientConfig {
    /// The settings with every field absent.
    pub open spec fn default_spec() -> ClientConfig {
        ClientConfig {
            service_dir: None,
            restart_command: None,
            pre_update_script: None,
            post_update_script: None,
            health_check_url: None,
            health_check_timeout: None,
            rollback_on_failure: None,
        }
    }

    /// The settings with every field absent.
    pub fn empty() -> (r: ClientConfig)
        ensures
            r == ClientConfig::default_spec(),
    {
        ClientConfig {
            service_dir: None,
            restart_command: None,
            pre_update_script: None,
            post_update_script: None,
            health_check_url: None,
            health_check_timeout: None,
            rollback_on_failure: None,
        }
    }
}

/// Reads the agent's token from the request: a request without one is refused.
pub fn extract_api_key(header: Option<&str>) -> (r: Result<String, ApiError>)
    ensures
        header is None ==> r == Err::<String, ApiError>(ApiError::Unauthorized),
        header is Some ==> r is Ok && r.unwrap()@ == header.unwrap()@,
{
    match header {
        None => Err(ApiError::Unauthorized),
        Some(k) => Ok(copy_text(k)),
    }
}

/// The auth gate of the agent endpoints: the token must be given, and must belong
/// to the client that the registry found for it.
pub fn authenticate(header: Option<&str>, found: Option<Client>) -> (r: Result<Client, ApiError>)
    ensures
        header is None ==> r == Err::<Client, ApiError>(ApiError::Unauthorized),
        header is Some && (found is None || found.unwrap().api_key@ != header.unwrap()@)
            ==> r == Err::<Client, ApiError>(ApiError::Unauthorized),
        header is Some && found is Some && found.unwrap().api_key@ == header.unwrap()@
            ==> r == Ok::<Client, ApiError>(found.unwrap()),
{
    let key = extract_api_key(header)?;
    match found {
        None => Err(ApiError::Unauthorized),
        Some(c) => {
            if crate::text::same_text(c.api_key.as_str(), key.as_str()) {
                Ok(c)
            } else {
                Err(ApiError::Unauthorized)
            }
        },
    }
}

/// URL-safe base64 without padding of a byte sequence.
pub uninterp spec fn base64_url_of(b: Seq<u8>) -> Seq<char>;

/// The length of URL-safe base64 without padding: four characters per three
/// bytes, and two or three for a partial group.
pub open spec fn base64_url_len(n: nat) -> nat {
    4 * (n / 3) + if n % 3 == 0 { 0nat } else { (n % 3 + 1) as nat }
}

/// Whether a character belongs to the URL-safe base64 alphabet.
pub open spec fn url_safe_char(c: char) -> bool {
    ('A' <= c && c <= 'Z') || ('a' <= c && c <= 'z') || ('0' <= c && c <= '9') || c == '-' || c == '_'
}

/// Whether every character of a text belongs to the URL-safe base64 alphabet.
pub open spec fn url_safe_text(s: Seq<char>) -> bool {
    forall|i: int| 0 <= i < s.len() ==> url_safe_char(#[trigger] s[i])
}

/// Relies on base64's `URL_SAFE_NO_PAD` engine `encode`: the unpadded URL-safe
/// encoding, which depends on the bytes alone, has `encoded_len` characters, and
/// uses the alphabet A-Z a-z 0-9 `-` `_` with no `=` padding.
#[verifier::external_body]
fn encode_url_safe(b: &[u8]) -> (r: String)
    requires
        b@.len() <= 4096,
    ensures
        r@ == base64_url_of(b@),
        r@.len() == base64_url_len(b@.len()),
        url_safe_text(r@),
{
    base64::Engine::encode(&base64::engine::general_purpose::URL_SAFE_NO_PAD, b)
}

/// Relies on rand's `thread_rng` and `Rng::gen` for `[u8; 32]`: 32 random bytes.
#[verifier::external_body]
fn random_token_bytes() -> (r: Vec<u8>)
    ensures
        r@.len() == 32,
{
    rand::Rng::gen::<[u8; 32]>(&mut rand::thread_rng()).to_vec()
}

/// Encodes the random bytes of a client token.
pub fn token_from_bytes(bytes: &[u8]) -> (r: String)
    requires
        bytes@.len() == 32,
    ensures
        r@ == base64_url_of(bytes@),
        r@.len() == 43,
        url_safe_text(r@),
{
    encode_url_safe(bytes)
}

/// A new client token: 32 random bytes in URL-safe base64 without padding.
pub fn generate_api_key() -> (r: String)
    ensures
        r@.len() == 43,
        url_safe_text(r@),
        exists|b: Seq<u8>| b.len() == 32 && r@ == base64_url_of(b),
{
    let bytes = random_token_bytes();
    token_from_bytes(bytes.as_slice())
}

/// The answer to a registration.
pub fn registration_response(client: &Client) -> (r: RegisterClientResponse)
    ensures
        r.id@ == client.id@,
        r.name@ == client.name@,
        r.api_key@ == client.api_key@,
{
    RegisterClientResponse {
        id: copy_text(client.id.as_str()),
        name: copy_text(client.name.as_str()),
        api_key: copy_text(client.api_key.as_str()),
    }
}

} // verus!
