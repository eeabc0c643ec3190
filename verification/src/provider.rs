//! The dispatcher: the state one endpoint's calls share, and the decisions of a
//! call in flight.
//!
//! A call alternates network round-trips with decisions. The round-trips belong
//! to the caller; the decisions are here. `HttpProvider::send` assigns the id and
//! serializes the envelope, `Pending::on_status` says what follows each answer's
//! status line, and `classify_body` of the `response` module reads the body of
//! the answer that ends the call.

use crate::error::{ClientError, ClientErrorView};
use crate::request::{envelope, envelope_text};
use crate::retry::{
    backoff, backoff_millis, is_success, status_is_success, RETRY_BUDGET, TOO_MANY_REQUESTS,
};
use std::time::Duration;
use vstd::prelude::*;
use vstd::string::StringExecFns;

verus! {

/// The name of the header that identifies this client to the node.
pub open spec fn client_header_name() -> Seq<char> {
    "solana-client"@
}

/// The value of the identifying header for a client of version `version`.
pub open spec fn client_header_value(version: Seq<char>) -> Seq<char> {
    "rust/"@ + version
}

/// The span of `secs` whole seconds.
pub uninterp spec fn seconds(secs: u64) -> Duration;

/// `Duration::from_secs`.
///
/// Trusted: the span is a function of the count of seconds.
#[verifier::external_body]
pub(crate) fn duration_from_secs(secs: u64) -> (r: Duration)
    ensures
        r == seconds(secs),
{
    Duration::from_secs(secs)
}

/// The version that `solana_version` reports for itself, as it displays it.
///
/// Trusted: nothing is claimed about the text, which is fixed when the crate is built.
#[verifier::external_body]
pub(crate) fn client_version() -> (r: String) {
    solana_version::Version::default().to_string()
}

/// The identifying header, as name and value, for a client of version `version`.
pub fn client_header(version: &str) -> (header: (String, String))
    ensures
        header.0@ == client_header_name(),
        header.1@ == client_header_value(version@),
{
    let name = String::from_str("solana-client");
    let mut value = String::from_str("rust/");
    value.append(version);
    (name, value)
}

/// What the caller does after an answer's status line.
#[derive(Debug, PartialEq, Eq)]
pub enum Action {
    /// Wait this long, then send the same request again.
    Retry { wait_millis: u64 },
    /// The call has failed.
    Fail(ClientError),
    /// Read the body and classify it: that ends the call.
    ReadBody,
}

/// An `Action` with its failure as a view.
pub enum ActionView {
    Retry { wait_millis: u64 },
    Fail(ClientErrorView),
    ReadBody,
}

impl View for Action {
    type V = ActionView;

    open spec fn view(&self) -> ActionView {
        match *self {
            Action::Retry { wait_millis } => ActionView::Retry { wait_millis },
            Action::Fail(e) => ActionView::Fail(e@),
            Action::ReadBody => ActionView::ReadBody,
        }
    }
}

/// Whether an answer with this status is retried by a call that has
/// `retries_left` retries left.
pub open spec fn is_retried(retries_left: u8, status: u16) -> bool {
    !status_is_success(status) && status == TOO_MANY_REQUESTS && retries_left > 0
}

/// What follows an answer with status `status` and `Retry-After` header
/// `retry_after`, for a call that has `retries_left` retries left.
pub open spec fn next_action(
    retries_left: u8,
    status: u16,
    retry_after: Option<Seq<u8>>,
) -> ActionView {
    if status_is_success(status) {
        ActionView::ReadBody
    } else if is_retried(retries_left, status) {
        ActionView::Retry { wait_millis: backoff_millis(retry_after) }
    } else {
        ActionView::Fail(ClientErrorView::Status(status))
    }
}

/// The retries left after an answer with status `status`.
pub open spec fn retries_after(retries_left: u8, status: u16) -> u8 {
    if is_retried(retries_left, status) {
        (retries_left - 1) as u8
    } else {
        retries_left
    }
}

/// A header value as a sequence of bytes.
pub open spec fn header_view(value: Option<&[u8]>) -> Option<Seq<u8>> {
    match value {
        Some(bytes) => Some(bytes@),
        None => None,
    }
}

/// A call in flight: the request body, sent again on every attempt, and the
/// retries the call may still spend on rate-limit answers.
#[derive(Debug, PartialEq, Eq)]
pub struct Pending {
    body: String,
    retries_left: u8,
}

impl Pending {
    /// The request body.
    pub closed spec fn spec_body(&self) -> Seq<char> {
        self.body@
    }

    /// The retries left.
    pub closed spec fn spec_retries_left(&self) -> u8 {
        self.retries_left
    }

    /// The request body: the serialized envelope, the same for every attempt.
    pub fn body(&self) -> (r: &str)
        ensures
            r@ == self.spec_body(),
    {
        self.body.as_str()
    }

    /// The retries that the call may still spend on rate-limit answers.
    pub fn retries_left(&self) -> (r: u8)
        ensures
            r == self.spec_retries_left(),
    {
        self.retries_left
    }

    /// Decides what follows an answer, from its status and its `Retry-After`
    /// header (`None` where it has none).
    ///
    /// A 2xx status asks for the body. A 429 is retried while retries are left,
    /// after the wait the header asks for or the default one, and costs one
    /// retry. Every other status, and a 429 with no retry left, fails the call
    /// with that status.
    pub fn on_status(&mut self, status: u16, retry_after: Option<&[u8]>) -> (action: Action)
        ensures
            action@ == next_action(old(self).spec_retries_left(), status, header_view(retry_after)),
            final(self).spec_retries_left() == retries_after(
                old(self).spec_retries_left(),
                status,
            ),
            final(self).spec_body() == old(self).spec_body(),
    {
        if is_success(status) {
            Action::ReadBody
        } else if status == TOO_MANY_REQUESTS && self.retries_left > 0 {
            let wait_millis = backoff(retry_after);
            self.retries_left = self.retries_left - 1;
            Action::Retry { wait_millis }
        } else {
            Action::Fail(ClientError::status(status))
        }
    }
}

/// The state that the calls to one endpoint share: the endpoint, the timeout of
/// each attempt, and the id of the next request.
#[derive(Debug)]
pub struct HttpProvider {
    url: String,
    timeout: Duration,
    request_id: u64,
}

impl HttpProvider {
    /// The endpoint.
    pub closed spec fn spec_url(&self) -> Seq<char> {
        self.url@
    }

    /// The timeout of each attempt.
    pub closed spec fn spec_timeout(&self) -> Duration {
        self.timeout
    }

    /// The id that the next call gets.
    pub closed spec fn next_id(&self) -> u64 {
        self.request_id
    }

    /// This provider after one more call.
    pub closed spec fn advanced(self) -> HttpProvider {
        HttpProvider {
            url: self.url,
            timeout: self.timeout,
            request_id: if self.request_id == u64::MAX {
                0
            } else {
                (self.request_id + 1) as u64
            },
        }
    }

    /// This provider after `calls` more calls.
    pub open spec fn advanced_by(self, calls: nat) -> HttpProvider
        decreases calls,
    {
        if calls == 0 {
            self
        } else {
            self.advanced_by((calls - 1) as nat).advanced()
        }
    }

    /// A provider for the endpoint `url`, with a timeout of 30 seconds.
    pub fn new(url: &str) -> (provider: HttpProvider)
        ensures
            provider.spec_url() == url@,
            provider.spec_timeout() == seconds(30),
            provider.next_id() == 0,
    {
        HttpProvider::new_with_timeout(url, duration_from_secs(30))
    }

    /// A provider for the endpoint `url`, whose attempts time out after `timeout`.
    /// Its first call gets the id 0.
    pub fn new_with_timeout(url: &str, timeout: Duration) -> (provider: HttpProvider)
        ensures
            provider.spec_url() == url@,
            provider.spec_timeout() == timeout,
            provider.next_id() == 0,
    {
        HttpProvider { url: String::from_str(url), timeout, request_id: 0 }
    }

    /// The endpoint.
    pub fn url(&self) -> (r: &str)
        ensures
            r@ == self.spec_url(),
    {
        self.url.as_str()
    }

    /// The timeout of each attempt, which also bounds how long a connection may idle.
    pub fn timeout(&self) -> (r: Duration)
        ensures
            r == self.spec_timeout(),
    {
        self.timeout
    }

    /// The headers that go with every request: one, which names this client and
    /// its version.
    pub fn default_headers() -> (headers: Vec<(String, String)>)
        ensures
            headers@.len() == 1,
            headers@[0].0@ == client_header_name(),
            exists|version: Seq<char>| headers@[0].1@ == client_header_value(version),
    {
        let version = client_version();
        let header = client_header(version.as_str());
        let mut headers: Vec<(String, String)> = Vec::new();
        headers.push(header);
        headers
    }

    /// Starts a call: takes the next id, which advances by one whatever becomes
    /// of the call, and serializes the envelope. The call starts with the full
    /// retry budget.
    pub fn send(
        &mut self,
        request: solana_rpc_client_api::request::RpcRequest,
        params: serde_json::Value,
    ) -> (pending: Pending)
        ensures
            pending.spec_body() == envelope_text(request, old(self).next_id(), params),
            pending.spec_retries_left() == RETRY_BUDGET,
            *final(self) == old(self).advanced(),
            final(self).spec_url() == old(self).spec_url(),
            final(self).spec_timeout() == old(self).spec_timeout(),
            old(self).next_id() < u64::MAX ==> final(self).next_id() == old(self).next_id() + 1,
            old(self).next_id() == u64::MAX ==> final(self).next_id() == 0,
    {
        let id = self.request_id;
        self.request_id = id.wrapping_add(1);
        Pending { body: envelope(request, id, params), retries_left: RETRY_BUDGET }
    }
}

/// The ids of a provider's calls count up by one from the id of its first call,
/// whatever becomes of the calls, as long as the counter does not pass the
/// largest id.
pub proof fn law_ids_count_calls(provider: HttpProvider, calls: nat)
    requires
        provider.next_id() + calls <= u64::MAX,
    ensures
        provider.advanced_by(calls).next_id() == provider.next_id() + calls,
        provider.advanced_by(calls).spec_url() == provider.spec_url(),
        provider.advanced_by(calls).spec_timeout() == provider.spec_timeout(),
    decreases calls,
{
    if calls > 0 {
        law_ids_count_calls(provider, (calls - 1) as nat);
    }
}

/// The transports a client can use. There is one.
#[derive(Debug)]
pub enum Provider {
    Http(HttpProvider),
}

impl Provider {
    /// The endpoint.
    pub open spec fn spec_url(&self) -> Seq<char> {
        match *self {
            Provider::Http(http) => http.spec_url(),
        }
    }

    /// The id that the next call gets.
    pub open spec fn next_id(&self) -> u64 {
        match *self {
            Provider::Http(http) => http.next_id(),
        }
    }

    /// This provider after one more call.
    pub open spec fn advanced(self) -> Provider {
        match self {
            Provider::Http(http) => Provider::Http(http.advanced()),
        }
    }

    /// The endpoint.
    pub fn url(&self) -> (r: &str)
        ensures
            r@ == self.spec_url(),
    {
        match self {
            Provider::Http(http_provider) => http_provider.url(),
        }
    }

    /// Starts a call on the transport: see `HttpProvider::send`.
    pub fn send(
        &mut self,
        request: solana_rpc_client_api::request::RpcRequest,
        params: serde_json::Value,
    ) -> (pending: Pending)
        ensures
            pending.spec_body() == envelope_text(request, old(self).next_id(), params),
            pending.spec_retries_left() == RETRY_BUDGET,
            *final(self) == old(self).advanced(),
    {
        match self {
            Provider::Http(http_provider) => http_provider.send(request, params),
        }
    }
}

} // verus!
