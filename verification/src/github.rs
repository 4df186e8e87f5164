//! The release client: which request to make, and what a response means.
//!
//! The client holds no connection. The caller sends each request and hands
//! back what came; the client consults and updates the rate limiter, builds
//! the URLs, picks the asset and classifies failures.

use crate::DEFAULT_REPO;
use crate::rate_limiter::{pause_decision, signalled_retry, GitHubRateLimiter, PauseDecision};
use crate::response::{header_number, ResponseHead};
use crate::text::{
    decimal, decimal_text, field, line, opt_text, push_field, push_line, same_text, texts,
};
use vstd::prelude::*;
use vstd::utf8::encode_utf8;

verus! {

/// Why a request to the release host failed.
#[derive(Debug, PartialEq, Eq)]
pub enum GitHubError {
    /// The release lookup answered 404.
    ReleaseNotFound { repo: String, has_token: bool, url: String, is_latest: bool },
    /// The release lookup answered 401 or 403.
    AuthFailed { status_code: u16, repo: String, url: String },
    /// The release holds no asset of the name asked for.
    AssetNotFound { repo: String, asset_name: String, version: String, available_assets: Vec<String> },
    /// The asset download answered with a status other than success.
    DownloadFailed { repo: String, asset_name: String, status_code: u16, url: String },
    /// The release lookup answered with any other status than success.
    HttpError { repo: String, status_code: u16, url: String, body: String },
    /// The pause that the rate limit asks for is too long to sit out, or a
    /// retried request was rate limited again.
    RateLimited { retry_after_secs: u64, has_token: bool },
}

/// The mathematical value of a release client error.
pub enum GitHubErrorView {
    ReleaseNotFound { repo: Seq<char>, has_token: bool, url: Seq<char>, is_latest: bool },
    AuthFailed { status_code: u16, repo: Seq<char>, url: Seq<char> },
    AssetNotFound {
        repo: Seq<char>,
        asset_name: Seq<char>,
        version: Seq<char>,
        available_assets: Seq<Seq<char>>,
    },
    DownloadFailed { repo: Seq<char>, asset_name: Seq<char>, status_code: u16, url: Seq<char> },
    HttpError { repo: Seq<char>, status_code: u16, url: Seq<char>, body: Seq<char> },
    RateLimited { retry_after_secs: u64, has_token: bool },
}

impl View for GitHubError {
    type V = GitHubErrorView;

    open spec fn view(&self) -> GitHubErrorView {
        match self {
            GitHubError::ReleaseNotFound { repo, has_token, url, is_latest } => {
                GitHubErrorView::ReleaseNotFound {
                    repo: repo@,
                    has_token: *has_token,
                    url: url@,
                    is_latest: *is_latest,
                }
            },
            GitHubError::AuthFailed { status_code, repo, url } => GitHubErrorView::AuthFailed {
                status_code: *status_code,
                repo: repo@,
                url: url@,
            },
            GitHubError::AssetNotFound { repo, asset_name, version, available_assets } => {
                GitHubErrorView::AssetNotFound {
                    repo: repo@,
                    asset_name: asset_name@,
                    version: version@,
                    available_assets: texts(available_assets@),
                }
            },
            GitHubError::DownloadFailed { repo, asset_name, status_code, url } => {
                GitHubErrorView::DownloadFailed {
                    repo: repo@,
                    asset_name: asset_name@,
                    status_code: *status_code,
                    url: url@,
                }
            },
            GitHubError::HttpError { repo, status_code, url, body } => GitHubErrorView::HttpError {
                repo: repo@,
                status_code: *status_code,
                url: url@,
                body: body@,
            },
            GitHubError::RateLimited { retry_after_secs, has_token } => {
                GitHubErrorView::RateLimited {
                    retry_after_secs: *retry_after_secs,
                    has_token: *has_token,
                }
            },
        }
    }
}

/// One downloadable file of a release.
#[derive(Debug, PartialEq, Eq)]
pub struct Asset {
    /// Identifier for downloads through the API.
    pub id: u64,
    /// File name, unique within the release.
    pub name: String,
    /// Public download address.
    pub url: String,
}

/// A published release.
#[derive(Debug, PartialEq, Eq)]
pub struct Release {
    /// The version tag.
    pub tag: String,
    /// The files of the release, in the order of the release document.
    pub assets: Vec<Asset>,
}

/// Whether a status code means success.
pub open spec fn is_success(status: u16) -> bool {
    200 <= status < 300
}

/// Whether a byte may stand in a header value: no control character but the
/// tab.
pub open spec fn valid_header_byte(b: u8) -> bool {
    (b >= 32 && b != 127) || b == 9
}

/// Whether a text may be sent as a header value.
pub open spec fn valid_header_value(bytes: Seq<u8>) -> bool {
    forall|i: int| 0 <= i < bytes.len() ==> valid_header_byte(#[trigger] bytes[i])
}

/// `reqwest::header::HeaderValue::from_str`, asked only whether it accepts
/// the text. It scans the bytes of the text and refuses it exactly when one
/// of them is a control character other than the tab.
#[verifier::external_body]
fn header_value_accepts(value: &str) -> (accepted: bool)
    ensures
        accepted == valid_header_value(encode_utf8(value@)),
{
    reqwest::header::HeaderValue::from_str(value).is_ok()
}

/// Why no client could be made.
#[derive(Debug, PartialEq, Eq)]
pub enum ClientError {
    /// The access token cannot be sent in a header.
    InvalidAccessToken,
}

/// The value of the `Authorization` header for a token.
pub open spec fn bearer(token: Seq<char>) -> Seq<char> {
    "Bearer "@ + token
}

/// The value of the `Authorization` header for a token.
pub fn authorization_value(token: &str) -> (r: String)
    ensures
        r@ == bearer(token@),
{
    let mut r = String::from_str("Bearer ");
    r.append(token);
    r
}

/// The base address of release lookups: the project's own endpoint for the
/// default repository without a token, the GitHub API otherwise.
pub open spec fn api_base(repo: Seq<char>, has_token: bool) -> Seq<char> {
    if repo == DEFAULT_REPO@ && !has_token {
        "https://ampup.sh/api"@
    } else {
        "https://api.github.com"@ + "/repos/"@ + repo + "/releases"@
    }
}

/// The address of an asset download through the API.
pub open spec fn asset_api_url(repo: Seq<char>, id: u64) -> Seq<char> {
    "https://api.github.com/repos/"@ + repo + "/releases/assets/"@ + decimal_text(id as nat)
}

/// A download to make.
#[derive(Debug, PartialEq, Eq)]
pub struct DownloadRequest {
    /// Address to fetch.
    pub url: String,
    /// Whether to ask for the raw bytes with `Accept: application/octet-stream`.
    pub octet_stream: bool,
}

/// Whether the asset at index `i` is the first of the given name.
pub open spec fn is_first_match(assets: Seq<Asset>, name: Seq<char>, i: int) -> bool {
    &&& 0 <= i < assets.len()
    &&& assets[i].name@ == name
    &&& forall|j: int| 0 <= j < i ==> (#[trigger] assets[j]).name@ != name
}

/// Whether some asset has the given name.
pub open spec fn has_asset(assets: Seq<Asset>, name: Seq<char>) -> bool {
    exists|i: int| 0 <= i < assets.len() && (#[trigger] assets[i]).name@ == name
}

/// The names of the assets, in order.
pub open spec fn asset_names(assets: Seq<Asset>) -> Seq<Seq<char>> {
    assets.map_values(|a: Asset| a.name@)
}

/// Which send of a request a response answers.
#[derive(Clone, Copy, Debug, PartialEq, Eq)]
pub enum Attempt {
    /// The first send of a release lookup.
    First,
    /// The second send of a release lookup, after a rate-limit response.
    Retry,
    /// The one send of an asset download, which is never repeated.
    Only,
}

/// One request on its way: which send it is at.
#[derive(Debug)]
pub struct Exchange {
    attempt: Attempt,
}

impl Exchange {
    /// The send that the exchange is at.
    pub closed spec fn attempt(&self) -> Attempt {
        self.attempt
    }

    /// A release lookup before its first send.
    pub fn lookup() -> (exchange: Exchange)
        ensures
            exchange.attempt() is First,
    {
        Exchange { attempt: Attempt::First }
    }

    /// An asset download before its one send.
    pub fn download() -> (exchange: Exchange)
        ensures
            exchange.attempt() is Only,
    {
        Exchange { attempt: Attempt::Only }
    }

    /// Whether the exchange is at the second send of a release lookup.
    pub fn is_retry(&self) -> (r: bool)
        ensures
            r == (self.attempt() is Retry),
    {
        match self.attempt {
            Attempt::Retry => true,
            _ => false,
        }
    }
}

/// What to do with a response.
#[derive(Debug, PartialEq, Eq)]
pub enum Verdict {
    /// Hand the response on. With `quota_exhausted`, warn that later requests
    /// will be paused until the quota resets.
    Accept { quota_exhausted: bool },
    /// Announce the delay, consult the pause gate again, and send the same
    /// request once more.
    RetryAfter { secs: u64 },
    /// Give up with this error.
    Fail { error: GitHubError },
}

/// The mathematical value of a verdict.
pub enum VerdictView {
    Accept { quota_exhausted: bool },
    RetryAfter { secs: u64 },
    Fail { error: GitHubErrorView },
}

impl View for Verdict {
    type V = VerdictView;

    open spec fn view(&self) -> VerdictView {
        match self {
            Verdict::Accept { quota_exhausted } => VerdictView::Accept {
                quota_exhausted: *quota_exhausted,
            },
            Verdict::RetryAfter { secs } => VerdictView::RetryAfter { secs: *secs },
            Verdict::Fail { error } => VerdictView::Fail { error: error@ },
        }
    }
}

/// What to do before a request is sent.
#[derive(Debug, PartialEq, Eq)]
pub enum Gate {
    /// Send now.
    Open,
    /// Sleep this long, then send.
    Wait { millis: u64 },
    /// Do not send: fail with this error.
    Closed { error: GitHubError },
}

/// The mathematical value of a gate.
pub enum GateView {
    Open,
    Wait { millis: u64 },
    Closed { error: GitHubErrorView },
}

impl View for Gate {
    type V = GateView;

    open spec fn view(&self) -> GateView {
        match self {
            Gate::Open => GateView::Open,
            Gate::Wait { millis } => GateView::Wait { millis: *millis },
            Gate::Closed { error } => GateView::Closed { error: error@ },
        }
    }
}

/// The whole seconds of a span given in milliseconds, as far as they fit.
pub open spec fn whole_secs(millis: u128) -> u64 {
    if millis / 1000 > u64::MAX {
        u64::MAX
    } else {
        (millis / 1000) as u64
    }
}

/// What a pause decision means for the request that is about to be sent.
pub open spec fn gate_for(decision: PauseDecision, has_token: bool) -> GateView {
    match decision {
        PauseDecision::Proceed => GateView::Open,
        PauseDecision::Sleep { millis } => GateView::Wait { millis },
        PauseDecision::TooLong { remaining_millis } => GateView::Closed {
            error: GitHubErrorView::RateLimited {
                retry_after_secs: whole_secs(remaining_millis),
                has_token,
            },
        },
    }
}

/// The verdict on a response. A rate-limit response to a release lookup is
/// retried once and fails the second time. Every other response is handed
/// on, a download's whatever it says: a download is never sent twice.
/// `remaining` is the quota known after the response was taken in.
pub open spec fn verdict_for(
    attempt: Attempt,
    retry: Option<u64>,
    remaining: Option<u64>,
    has_token: bool,
) -> VerdictView {
    match attempt {
        Attempt::First => match retry {
            Some(secs) => VerdictView::RetryAfter { secs },
            None => VerdictView::Accept { quota_exhausted: remaining == Some(0u64) },
        },
        Attempt::Retry => match retry {
            Some(secs) => VerdictView::Fail {
                error: GitHubErrorView::RateLimited { retry_after_secs: secs, has_token },
            },
            None => VerdictView::Accept { quota_exhausted: false },
        },
        Attempt::Only => VerdictView::Accept { quota_exhausted: remaining == Some(0u64) },
    }
}

/// Which send comes next in an exchange: the retry where the response is
/// to be retried, the same send otherwise.
pub open spec fn next_attempt(attempt: Attempt, verdict: VerdictView) -> Attempt {
    match verdict {
        VerdictView::RetryAfter { secs } => Attempt::Retry,
        _ => attempt,
    }
}

/// A request is sent twice at most: only the first send of a release lookup
/// can be answered with a verdict to retry, and the send after it is the
/// retry, which cannot.
pub proof fn lemma_at_most_one_retry(
    attempt: Attempt,
    retry: Option<u64>,
    remaining: Option<u64>,
    has_token: bool,
)
    ensures
        verdict_for(attempt, retry, remaining, has_token) is RetryAfter <==> attempt is First
            && retry is Some,
        verdict_for(attempt, retry, remaining, has_token) is RetryAfter ==> next_attempt(
            attempt,
            verdict_for(attempt, retry, remaining, has_token),
        ) is Retry,
        verdict_for(attempt, retry, remaining, has_token) is Fail <==> attempt is Retry
            && retry is Some,
        verdict_for(attempt, retry, remaining, has_token) matches VerdictView::Fail { error }
            ==> error == (GitHubErrorView::RateLimited {
            retry_after_secs: retry->0,
            has_token,
        }),
{
}

/// The error that the status of a release lookup stands for, if it is one.
pub open spec fn release_failure(
    repo: Seq<char>,
    has_token: bool,
    url: Seq<char>,
    path: Seq<char>,
    status: u16,
    body: Seq<char>,
) -> Option<GitHubErrorView> {
    if is_success(status) {
        None
    } else if status == 404 {
        Some(
            GitHubErrorView::ReleaseNotFound { repo, has_token, url, is_latest: path == "latest"@ },
        )
    } else if status == 401 || status == 403 {
        Some(GitHubErrorView::AuthFailed { status_code: status, repo, url })
    } else {
        Some(GitHubErrorView::HttpError { repo, status_code: status, url, body })
    }
}

/// Whether the error for a status carries the body of the response.
pub open spec fn failure_reads_body(status: u16) -> bool {
    !is_success(status) && status != 404 && status != 401 && status != 403
}

/// Client for the releases of one repository.
pub struct GitHubClient {
    repo: String,
    token: Option<String>,
    api: String,
    rate_limiter: GitHubRateLimiter,
}

impl GitHubClient {
    /// The repository, as `owner/name`.
    pub closed spec fn spec_repo(&self) -> Seq<char> {
        self.repo@
    }

    /// The access token, if one is configured.
    pub closed spec fn spec_token(&self) -> Option<Seq<char>> {
        opt_text(self.token)
    }

    /// The base address of release lookups.
    pub closed spec fn spec_api(&self) -> Seq<char> {
        self.api@
    }

    /// The rate limiter that all requests of this client go through.
    pub closed spec fn limiter(&self) -> GitHubRateLimiter {
        self.rate_limiter
    }

    /// Whether a token is configured.
    pub open spec fn has_token(&self) -> bool {
        self.spec_token() is Some
    }

    /// A client for a repository, with or without an access token. A token
    /// that cannot be sent in a header is refused.
    pub fn new(repo: String, github_token: Option<String>) -> (r: Result<Self, ClientError>)
        ensures
            match r {
                Ok(client) => {
                    &&& client.spec_repo() == repo@
                    &&& client.spec_token() == opt_text(github_token)
                    &&& client.spec_api() == api_base(repo@, github_token is Some)
                    &&& client.limiter().state().paused_until is None
                    &&& client.limiter().state().remaining is None
                    &&& client.limiter().token_configured() == (github_token is Some)
                    &&& github_token is Some ==> valid_header_value(
                        encode_utf8(bearer(github_token->0@)),
                    )
                },
                Err(e) => {
                    &&& e is InvalidAccessToken
                    &&& github_token is Some
                    &&& !valid_header_value(encode_utf8(bearer(github_token->0@)))
                },
            },
    {
        if let Some(token) = &github_token {
            let value = authorization_value(token.as_str());
            if !header_value_accepts(value.as_str()) {
                return Err(ClientError::InvalidAccessToken);
            }
        }
        let has_token = github_token.is_some();
        let api = if same_text(repo.as_str(), DEFAULT_REPO) && !has_token {
            String::from_str("https://ampup.sh/api")
        } else {
            let mut api = String::from_str("https://api.github.com");
            api.append("/repos/");
            api.append(repo.as_str());
            api.append("/releases");
            api
        };
        Ok(
            GitHubClient {
                repo,
                token: github_token,
                api,
                rate_limiter: GitHubRateLimiter::new(has_token),
            },
        )
    }

    /// The repository, as `owner/name`.
    pub fn repo(&self) -> (r: &str)
        ensures
            r@ == self.spec_repo(),
    {
        self.repo.as_str()
    }

    /// The base address of release lookups.
    pub fn api(&self) -> (r: &str)
        ensures
            r@ == self.spec_api(),
    {
        self.api.as_str()
    }

    /// The rate limiter that all requests of this client go through.
    pub fn rate_limiter(&self) -> (r: &GitHubRateLimiter)
        ensures
            *r == self.limiter(),
    {
        &self.rate_limiter
    }

    /// The value of the `Authorization` header that every request carries,
    /// if a token is configured.
    pub fn authorization(&self) -> (r: Option<String>)
        ensures
            opt_text(r) == (match self.spec_token() {
                Some(token) => Some(bearer(token)),
                None => None,
            }),
    {
        match &self.token {
            Some(token) => Some(authorization_value(token.as_str())),
            None => None,
        }
    }

    /// The address of a release lookup: the base address, a slash, and the
    /// path of the release.
    pub fn release_url(&self, path: &str) -> (url: String)
        ensures
            url@ == self.spec_api() + "/"@ + path@,
    {
        let mut url = self.api.clone();
        url.append("/");
        url.append(path);
        url
    }

    /// The address of an asset download through the API.
    pub fn asset_url(&self, asset_id: u64) -> (url: String)
        ensures
            url@ == asset_api_url(self.spec_repo(), asset_id),
    {
        let mut url = String::from_str("https://api.github.com/repos/");
        url.append(self.repo.as_str());
        url.append("/releases/assets/");
        url.append(decimal(asset_id).as_str());
        url
    }

    /// Consult the rate limiter before a request is sent: send, sleep first,
    /// or fail because the pause is too long to sit out.
    pub fn check_rate_limit_pause(&self, now: u64) -> (gate: Gate)
        ensures
            gate@ == gate_for(
                pause_decision(self.limiter().state().paused_until, now),
                self.has_token(),
            ),
    {
        match self.rate_limiter.wait_if_paused(now) {
            PauseDecision::Proceed => Gate::Open,
            PauseDecision::Sleep { millis } => Gate::Wait { millis },
            PauseDecision::TooLong { remaining_millis } => {
                let secs: u128 = remaining_millis / 1000;
                let retry_after_secs: u64 = if secs > u64::MAX as u128 {
                    u64::MAX
                } else {
                    secs as u64
                };
                Gate::Closed {
                    error: GitHubError::RateLimited {
                        retry_after_secs,
                        has_token: self.token.is_some(),
                    },
                }
            },
        }
    }

    /// Take in the response to the send that the exchange is at, say what to
    /// do with it, and move the exchange on: after a first send that was
    /// rate limited the exchange is at its retry.
    pub fn after_response(
        &mut self,
        exchange: &mut Exchange,
        now: u64,
        now_unix: u64,
        response: &ResponseHead,
    ) -> (verdict: Verdict)
        ensures
            final(self).spec_repo() == old(self).spec_repo(),
            final(self).spec_token() == old(self).spec_token(),
            final(self).spec_api() == old(self).spec_api(),
            final(self).limiter().token_configured() == old(self).limiter().token_configured(),
            final(self).limiter().state() == old(self).limiter().state().after_response(
                now,
                now_unix,
                response.status,
                header_number(response.headers@, "x-ratelimit-remaining"@),
                header_number(response.headers@, "x-ratelimit-reset"@),
                header_number(response.headers@, "retry-after"@),
            ),
            verdict@ == verdict_for(
                old(exchange).attempt(),
                signalled_retry(response),
                final(self).limiter().state().remaining,
                old(self).has_token(),
            ),
            final(exchange).attempt() == next_attempt(old(exchange).attempt(), verdict@),
    {
        let retry = self.rate_limiter.update_from_response(now, now_unix, response);
        let has_token = self.token.is_some();
        let exhausted = match self.rate_limiter.remaining() {
            Some(left) => left == 0,
            None => false,
        };
        match exchange.attempt {
            Attempt::First => match retry {
                Some(secs) => {
                    exchange.attempt = Attempt::Retry;
                    Verdict::RetryAfter { secs }
                },
                None => Verdict::Accept { quota_exhausted: exhausted },
            },
            Attempt::Retry => match retry {
                Some(secs) => Verdict::Fail {
                    error: GitHubError::RateLimited { retry_after_secs: secs, has_token },
                },
                None => Verdict::Accept { quota_exhausted: false },
            },
            Attempt::Only => Verdict::Accept { quota_exhausted: exhausted },
        }
    }

    /// Whether the error for the status of a release lookup carries the body
    /// of the response, so that the body has to be read.
    pub fn wants_body(status: u16) -> (r: bool)
        ensures
            r == failure_reads_body(status),
    {
        !(200 <= status && status < 300) && status != 404 && status != 401 && status != 403
    }

    /// Judge the status of a release lookup. `url` is the address that was
    /// asked and `path` the path of the release in it; `body` is the body of
    /// the response where the error carries it, and is not looked at
    /// otherwise.
    pub fn check_release_status(&self, url: &str, path: &str, status: u16, body: String) -> (r: Result<
        (),
        GitHubError,
    >)
        ensures
            match r {
                Ok(()) => release_failure(
                    self.spec_repo(),
                    self.has_token(),
                    url@,
                    path@,
                    status,
                    body@,
                ) is None,
                Err(e) => release_failure(
                    self.spec_repo(),
                    self.has_token(),
                    url@,
                    path@,
                    status,
                    body@,
                ) == Some(e@),
            },
    {
        if 200 <= status && status < 300 {
            Ok(())
        } else if status == 404 {
            Err(
                GitHubError::ReleaseNotFound {
                    repo: self.repo.clone(),
                    has_token: self.token.is_some(),
                    url: String::from_str(url),
                    is_latest: same_text(path, "latest"),
                },
            )
        } else if status == 401 || status == 403 {
            Err(
                GitHubError::AuthFailed {
                    status_code: status,
                    repo: self.repo.clone(),
                    url: String::from_str(url),
                },
            )
        } else {
            Err(
                GitHubError::HttpError {
                    repo: self.repo.clone(),
                    status_code: status,
                    url: String::from_str(url),
                    body,
                },
            )
        }
    }
}

/// The path of the newest release.
pub fn latest_path() -> (path: String)
    ensures
        path@ == "latest"@,
{
    String::from_str("latest")
}

/// The path of the release with a given tag.
pub fn tagged_path(version: &str) -> (path: String)
    ensures
        path@ == "tags/"@ + version@,
{
    let mut path = String::from_str("tags/");
    path.append(version);
    path
}

/// The download that an asset calls for: with a token, through the API by
/// the asset's identifier, asking for the raw bytes; without one, from the
/// asset's public address.
pub open spec fn download_for(repo: Seq<char>, has_token: bool, asset: Asset) -> (Seq<char>, bool) {
    if has_token {
        (asset_api_url(repo, asset.id), true)
    } else {
        (asset.url@, false)
    }
}

impl GitHubClient {
    /// The version that a release carries.
    pub fn get_latest_version(&self, release: &Release) -> (version: String)
        ensures
            version@ == release.tag@,
    {
        release.tag.clone()
    }

    /// Pick the asset of a release by its exact name and say how to download
    /// it. The first asset of that name is taken. Where there is none, the
    /// error lists the names of all assets of the release.
    pub fn download_release_asset(&self, release: &Release, version: &str, asset_name: &str) -> (r:
        Result<DownloadRequest, GitHubError>)
        ensures
            match r {
                Ok(request) => exists|i: int|
                    is_first_match(release.assets@, asset_name@, i) && (
                        request.url@,
                        request.octet_stream,
                    ) == download_for(
                        self.spec_repo(),
                        self.has_token(),
                        #[trigger] release.assets@[i],
                    ),
                Err(e) => !has_asset(release.assets@, asset_name@) && e@
                    == (GitHubErrorView::AssetNotFound {
                    repo: self.spec_repo(),
                    asset_name: asset_name@,
                    version: version@,
                    available_assets: asset_names(release.assets@),
                }),
            },
    {
        let mut i: usize = 0;
        while i < release.assets.len()
            invariant
                i <= release.assets@.len(),
                forall|j: int| 0 <= j < i ==> (#[trigger] release.assets@[j]).name@ != asset_name@,
            decreases release.assets.len() - i,
        {
            let asset = &release.assets[i];
            if same_text(asset.name.as_str(), asset_name) {
                assert(is_first_match(release.assets@, asset_name@, i as int));
                let request = if self.token.is_some() {
                    DownloadRequest { url: self.asset_url(asset.id), octet_stream: true }
                } else {
                    DownloadRequest { url: asset.url.clone(), octet_stream: false }
                };
                return Ok(request);
            }
            i += 1;
        }
        let mut names: Vec<String> = Vec::new();
        let mut k: usize = 0;
        while k < release.assets.len()
            invariant
                k <= release.assets@.len(),
                texts(names@) == asset_names(release.assets@.take(k as int)),
            decreases release.assets.len() - k,
        {
            let ghost before = names@;
            let name = release.assets[k].name.clone();
            names.push(name);
            proof {
                let taken = release.assets@.take(k + 1);
                assert(texts(before).len() == k);
                assert(texts(names@).len() == asset_names(taken).len());
                assert forall|j: int| 0 <= j < k + 1 implies texts(names@)[j] == asset_names(
                    taken,
                )[j] by {
                    if j < k {
                        assert(texts(before)[j] == asset_names(release.assets@.take(k as int))[j]);
                        assert(names@[j] == before[j]);
                    }
                }
                assert(texts(names@) =~= asset_names(taken));
            }
            k += 1;
        }
        assert(release.assets@.take(k as int) =~= release.assets@);
        Err(
            GitHubError::AssetNotFound {
                repo: self.repo.clone(),
                asset_name: String::from_str(asset_name),
                version: String::from_str(version),
                available_assets: names,
            },
        )
    }

    /// Judge the status of an asset download: any status but success fails
    /// the download, with the status and the address.
    pub fn check_download_status(&self, url: &str, asset_name: &str, status: u16) -> (r: Result<
        (),
        GitHubError,
    >)
        ensures
            match r {
                Ok(()) => is_success(status),
                Err(e) => !is_success(status) && e@ == (GitHubErrorView::DownloadFailed {
                    repo: self.spec_repo(),
                    asset_name: asset_name@,
                    status_code: status,
                    url: url@,
                }),
            },
    {
        if 200 <= status && status < 300 {
            Ok(())
        } else {
            Err(
                GitHubError::DownloadFailed {
                    repo: self.repo.clone(),
                    asset_name: String::from_str(asset_name),
                    status_code: status,
                    url: String::from_str(url),
                },
            )
        }
    }
}

/// The bytes of a download, as far as they have come.
pub struct Download {
    buffer: Vec<u8>,
}

impl View for Download {
    type V = Seq<u8>;

    closed spec fn view(&self) -> Seq<u8> {
        self.buffer@
    }
}

impl Download {
    /// A download of which nothing has come yet.
    pub fn new() -> (download: Download)
        ensures
            download@ == Seq::<u8>::empty(),
    {
        Download { buffer: Vec::new() }
    }

    /// Take in the next chunk of the body. Returns the number of bytes that
    /// have come so far, for the progress display.
    pub fn push_chunk(&mut self, chunk: &[u8]) -> (downloaded: u64)
        ensures
            final(self)@ == old(self)@ + chunk@,
            downloaded == final(self)@.len(),
    {
        self.buffer.extend_from_slice(chunk);
        self.buffer.len() as u64
    }

    /// The number of bytes that have come so far.
    pub fn downloaded(&self) -> (n: u64)
        ensures
            n == self@.len(),
    {
        self.buffer.len() as u64
    }

    /// The bytes of the finished download. An empty download is handed out
    /// like any other.
    pub fn finish(self) -> (bytes: Vec<u8>)
        ensures
            bytes@ == self@,
    {
        self.buffer
    }
}

/// The bytes of a body that came in chunks: the chunks one after another.
pub open spec fn body_of(chunks: Seq<Seq<u8>>) -> Seq<u8>
    decreases chunks.len(),
{
    if chunks.len() == 0 {
        Seq::empty()
    } else {
        body_of(chunks.drop_last()) + chunks.last()
    }
}

/// The number of bytes in a sequence of chunks.
pub open spec fn total_len(chunks: Seq<Seq<u8>>) -> nat
    decreases chunks.len(),
{
    if chunks.len() == 0 {
        0
    } else {
        total_len(chunks.drop_last()) + chunks.last().len()
    }
}

/// The chunks of a body as byte sequences.
pub open spec fn chunk_views(chunks: Seq<Vec<u8>>) -> Seq<Seq<u8>> {
    chunks.map_values(|c: Vec<u8>| c@)
}

/// A body has as many bytes as its chunks have together.
pub proof fn lemma_body_len(chunks: Seq<Seq<u8>>)
    ensures
        body_of(chunks).len() == total_len(chunks),
    decreases chunks.len(),
{
    if chunks.len() > 0 {
        lemma_body_len(chunks.drop_last());
    }
}

/// Run a whole body through a download, chunk by chunk. Whatever the
/// chunks are, what comes out is the chunks one after another: every byte
/// that came in, in order, and no other.
pub fn collect(chunks: &Vec<Vec<u8>>) -> (body: Vec<u8>)
    ensures
        body@ == body_of(chunk_views(chunks@)),
        body@.len() == total_len(chunk_views(chunks@)),
{
    let mut download = Download::new();
    let mut i: usize = 0;
    assert(chunk_views(chunks@).take(0) =~= Seq::<Seq<u8>>::empty());
    while i < chunks.len()
        invariant
            i <= chunks@.len(),
            download@ == body_of(chunk_views(chunks@).take(i as int)),
        decreases chunks.len() - i,
    {
        proof {
            let next = chunk_views(chunks@).take(i + 1);
            assert(next.drop_last() =~= chunk_views(chunks@).take(i as int));
            assert(next.last() == chunks@[i as int]@);
        }
        download.push_chunk(chunks[i].as_slice());
        i += 1;
    }
    proof {
        assert(chunk_views(chunks@).take(chunks@.len() as int) =~= chunk_views(chunks@));
        lemma_body_len(chunk_views(chunks@));
    }
    download.finish()
}

/// A text with one more line for each name of a list.
pub open spec fn bullet_lines(acc: Seq<char>, names: Seq<Seq<char>>) -> Seq<char>
    decreases names.len(),
{
    if names.len() == 0 {
        acc
    } else {
        field(bullet_lines(acc, names.drop_last()), "    - "@, names.last())
    }
}

/// Add one line for each name of a list.
pub fn push_bullets(acc: &mut String, names: &Vec<String>)
    ensures
        final(acc)@ == bullet_lines(old(acc)@, texts(names@)),
{
    let mut i: usize = 0;
    while i < names.len()
        invariant
            i <= names@.len(),
            acc@ == bullet_lines(old(acc)@, texts(names@).take(i as int)),
        decreases names.len() - i,
    {
        proof {
            let next = texts(names@).take(i + 1);
            assert(next.drop_last() =~= texts(names@).take(i as int));
            assert(next.last() == names@[i as int]@);
        }
        push_field(acc, "    - ", names[i].as_str());
        i += 1;
    }
    assert(texts(names@).take(names@.len() as int) =~= texts(names@));
}

impl GitHubErrorView {
    /// The message that tells the user what went wrong and what to try.
    pub open spec fn message(self) -> Seq<char> {
        let m = Seq::<char>::empty();
        match self {
            GitHubErrorView::ReleaseNotFound { repo, has_token, url, is_latest } => {
                let m = if is_latest {
                    line(m, "Failed to fetch latest release"@)
                } else {
                    line(m, "Failed to fetch release"@)
                };
                let m = field(m, "  Repository: "@, repo);
                let m = field(m, "  URL: "@, url);
                let m = line(m, "  Status: 404 Not Found"@);
                let m = line(m, ""@);
                if has_token {
                    let m = line(m, "  The repository may not exist, or no releases have been published yet."@);
                    if !is_latest {
                        line(m, "  The specified version/tag may not exist."@)
                    } else {
                        m
                    }
                } else {
                    let m = line(m, "  The repository is private or requires authentication."@);
                    line(m, "  Try: export GITHUB_TOKEN=$(gh auth token)"@)
                }
            },
            GitHubErrorView::AuthFailed { status_code, repo, url } => {
                let m = line(m, "Authentication failed"@);
                let m = field(m, "  Repository: "@, repo);
                let m = field(m, "  URL: "@, url);
                let m = field(m, "  Status: HTTP "@, decimal_text(status_code as nat));
                let m = line(m, ""@);
                let m = line(m, "  Your GITHUB_TOKEN may be invalid or expired."@);
                let m = if status_code == 403 {
                    line(m, "  For private repositories, ensure your token has 'repo' scope."@)
                } else {
                    m
                };
                line(m, "  Try: export GITHUB_TOKEN=$(gh auth token)"@)
            },
            GitHubErrorView::AssetNotFound { repo, asset_name, version, available_assets } => {
                let m = line(m, "Release asset not found"@);
                let m = field(m, "  Repository: "@, repo);
                let m = field(m, "  Asset: "@, asset_name);
                let m = field(m, "  Version: "@, version);
                let m = line(m, ""@);
                if available_assets.len() == 0 {
                    line(m, "  No assets available in this release."@)
                } else {
                    let m = line(m, "  Available assets:"@);
                    bullet_lines(m, available_assets)
                }
            },
            GitHubErrorView::DownloadFailed { repo, asset_name, status_code, url } => {
                let m = line(m, "Failed to download release asset"@);
                let m = field(m, "  Repository: "@, repo);
                let m = field(m, "  Asset: "@, asset_name);
                let m = field(m, "  URL: "@, url);
                let m = field(m, "  Status: HTTP "@, decimal_text(status_code as nat));
                let m = line(m, ""@);
                if status_code == 401 || status_code == 403 {
                    let m = line(m, "  Authentication or permission issue."@);
                    line(m, "  Try: export GITHUB_TOKEN=$(gh auth token)"@)
                } else {
                    if status_code == 404 {
                        line(m, "  The asset may have been removed or is not accessible."@)
                    } else {
                        line(m, "  Network or server error. Please try again."@)
                    }
                }
            },
            GitHubErrorView::HttpError { repo, status_code, url, body } => {
                let m = line(m, "Request failed"@);
                let m = field(m, "  Repository: "@, repo);
                let m = field(m, "  URL: "@, url);
                let m = field(m, "  Status: HTTP "@, decimal_text(status_code as nat));
                if body.len() != 0 {
                    field(m, "  Response: "@, body)
                } else {
                    m
                }
            },
            GitHubErrorView::RateLimited { retry_after_secs, has_token } => {
                let m = line(m, "GitHub API rate limit exceeded"@);
                let m = field(m, "  Retry after: "@, decimal_text(retry_after_secs as nat) + " seconds"@);
                let m = line(m, ""@);
                if !has_token {
                    let m = line(m, "  Unauthenticated requests have lower rate limits."@);
                    line(m, "  Try: export GITHUB_TOKEN=$(gh auth token)"@)
                } else {
                    m
                }
            },
        }
    }
}

impl GitHubError {
    /// The message that tells the user what went wrong and what to try.
    pub fn message(&self) -> (text: String)
        ensures
            text@ == self@.message(),
    {
        let mut m = String::new();
        match self {
            GitHubError::ReleaseNotFound { repo, has_token, url, is_latest } => {
                if *is_latest {
                    push_line(&mut m, "Failed to fetch latest release");
                } else {
                    push_line(&mut m, "Failed to fetch release");
                }
                push_field(&mut m, "  Repository: ", repo.as_str());
                push_field(&mut m, "  URL: ", url.as_str());
                push_line(&mut m, "  Status: 404 Not Found");
                push_line(&mut m, "");
                if *has_token {
                    push_line(&mut m, "  The repository may not exist, or no releases have been published yet.");
                    if !*is_latest {
                        push_line(&mut m, "  The specified version/tag may not exist.");
                    }
                } else {
                    push_line(&mut m, "  The repository is private or requires authentication.");
                    push_line(&mut m, "  Try: export GITHUB_TOKEN=$(gh auth token)");
                }
            },
            GitHubError::AuthFailed { status_code, repo, url } => {
                push_line(&mut m, "Authentication failed");
                push_field(&mut m, "  Repository: ", repo.as_str());
                push_field(&mut m, "  URL: ", url.as_str());
                push_field(&mut m, "  Status: HTTP ", decimal(*status_code as u64).as_str());
                push_line(&mut m, "");
                push_line(&mut m, "  Your GITHUB_TOKEN may be invalid or expired.");
                if *status_code == 403 {
                    push_line(&mut m, "  For private repositories, ensure your token has 'repo' scope.");
                }
                push_line(&mut m, "  Try: export GITHUB_TOKEN=$(gh auth token)");
            },
            GitHubError::AssetNotFound { repo, asset_name, version, available_assets } => {
                push_line(&mut m, "Release asset not found");
                push_field(&mut m, "  Repository: ", repo.as_str());
                push_field(&mut m, "  Asset: ", asset_name.as_str());
                push_field(&mut m, "  Version: ", version.as_str());
                push_line(&mut m, "");
                if available_assets.len() == 0 {
                    push_line(&mut m, "  No assets available in this release.");
                } else {
                    push_line(&mut m, "  Available assets:");
                    push_bullets(&mut m, available_assets);
                }
            },
            GitHubError::DownloadFailed { repo, asset_name, status_code, url } => {
                push_line(&mut m, "Failed to download release asset");
                push_field(&mut m, "  Repository: ", repo.as_str());
                push_field(&mut m, "  Asset: ", asset_name.as_str());
                push_field(&mut m, "  URL: ", url.as_str());
                push_field(&mut m, "  Status: HTTP ", decimal(*status_code as u64).as_str());
                push_line(&mut m, "");
                if *status_code == 401 || *status_code == 403 {
                    push_line(&mut m, "  Authentication or permission issue.");
                    push_line(&mut m, "  Try: export GITHUB_TOKEN=$(gh auth token)");
                } else {
                    if *status_code == 404 {
                        push_line(&mut m, "  The asset may have been removed or is not accessible.");
                    } else {
                        push_line(&mut m, "  Network or server error. Please try again.");
                    }
                }
            },
            GitHubError::HttpError { repo, status_code, url, body } => {
                push_line(&mut m, "Request failed");
                push_field(&mut m, "  Repository: ", repo.as_str());
                push_field(&mut m, "  URL: ", url.as_str());
                push_field(&mut m, "  Status: HTTP ", decimal(*status_code as u64).as_str());
                if body.as_str().unicode_len() != 0 {
                    push_field(&mut m, "  Response: ", body.as_str());
                }
            },
            GitHubError::RateLimited { retry_after_secs, has_token } => {
                push_line(&mut m, "GitHub API rate limit exceeded");
                let mut value = String::from_str(decimal(*retry_after_secs).as_str());
                value.append(" seconds");
                push_field(&mut m, "  Retry after: ", value.as_str());
                push_line(&mut m, "");
                if !*has_token {
                    push_line(&mut m, "  Unauthenticated requests have lower rate limits.");
                    push_line(&mut m, "  Try: export GITHUB_TOKEN=$(gh auth token)");
                }
            },
        }
        m
    }
}

impl ClientError {
    /// The message that tells the user what went wrong.
    pub fn message(&self) -> (text: String)
        ensures
            text@ == "Invalid access token"@,
    {
        String::from_str("Invalid access token")
    }
}

} // verus!
