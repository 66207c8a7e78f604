//! The API client: connection configuration, authenticated request
//! descriptions, and the interpretation of every response outcome into
//! the domain model or a uniform error.
//!
//! The client itself performs no I/O.  For each endpoint it describes
//! the request to issue, and a separate function turns the outcome the
//! transport observed — a send failure, or a status code with an
//! optionally decoded body — into the value or error the caller sees.

use vstd::prelude::*;
use crate::container::Container;
use crate::container::ContainerModel;
use crate::container::NetworkInterface;
use crate::container::RawContainer;
use crate::container::apply_enrichment;
use crate::container::entries;
use crate::container::entry_model;
use crate::container::lookup_ip;
use crate::container::lookup_models;
use crate::container::models;
use crate::container::normalize;
use crate::container::raw_models;
use crate::digits::dec_seq;
use crate::digits::u64_to_string;
use crate::error::ApiError;
use crate::error::CredentialVar;
use crate::error::http_success;
use crate::error::status_is_success;
use crate::ip::first_ip;
use crate::ip::net_models;
use crate::ip::pick_ip;
use crate::listing::lemma_multiset_pointwise;
use crate::listing::sort_by_vmid;
use crate::listing::sorted_by_vmid;

verus! {

/// Connection configuration: where the node lives and the long-lived
/// token that signs every request.  Immutable after construction.
pub struct ProxmoxClient {
    pub host: String,
    pub node: String,
    pub token_id: String,
    pub token_secret: String,
}

/// Mathematical model of a client's configuration.
pub ghost struct ClientModel {
    pub host: Seq<char>,
    pub node: Seq<char>,
    pub token_id: Seq<char>,
    pub token_secret: Seq<char>,
}

impl View for ProxmoxClient {
    type V = ClientModel;

    open spec fn view(&self) -> ClientModel {
        ClientModel {
            host: self.host@,
            node: self.node@,
            token_id: self.token_id@,
            token_secret: self.token_secret@,
        }
    }
}

/// The HTTP method of a request this client describes.
#[derive(Debug, Clone, Copy, PartialEq, Eq, Structural)]
pub enum HttpMethod {
    Get,
    Post,
    Delete,
}

/// A fully described request: everything the transport needs to issue
/// it.  The `authorization` string goes out as the Authorization
/// header.
pub struct HttpRequest {
    pub method: HttpMethod,
    pub url: String,
    pub authorization: String,
}

/// What the transport observed for a request whose body matters:
/// either the send itself failed (carrying the transport's rendered
/// message), or a response arrived with a status code and, if the body
/// decoded as the expected `{data: ...}` envelope, its payload.
pub enum FetchOutcome<T> {
    SendFailed(String),
    Received(u16, Option<T>),
}

/// What the transport observed for a request whose body is never
/// inspected: a send failure or a status code.
pub enum SendOutcome {
    SendFailed(String),
    Received(u16),
}

/// The value of the Authorization header: the token pair in the
/// PVEAPIToken form.
pub open spec fn auth_header_spec(c: ClientModel) -> Seq<char> {
    "PVEAPIToken="@ + c.token_id + "="@ + c.token_secret
}

/// The node-scoped container collection URL.
pub open spec fn list_url(c: ClientModel) -> Seq<char> {
    "https://"@ + c.host + "/api2/json/nodes/"@ + c.node + "/lxc"@
}

/// The URL addressing one container.
pub open spec fn container_url(c: ClientModel, vmid: u32) -> Seq<char> {
    list_url(c) + "/"@ + dec_seq(vmid as nat)
}

/// The URL of one container's interface listing.
pub open spec fn interfaces_url(c: ClientModel, vmid: u32) -> Seq<char> {
    container_url(c, vmid) + "/interfaces"@
}

/// The URL of one container's start command.
pub open spec fn start_url(c: ClientModel, vmid: u32) -> Seq<char> {
    container_url(c, vmid) + "/status/start"@
}

/// The URL of one container's stop command.
pub open spec fn stop_url(c: ClientModel, vmid: u32) -> Seq<char> {
    container_url(c, vmid) + "/status/stop"@
}

/// The confirmation string a lifecycle command returns on success.
pub open spec fn confirmation(vmid: u32, verb: Seq<char>) -> Seq<char> {
    "Container "@ + dec_seq(vmid as nat) + " "@ + verb + " successfully"@
}

/// What a lifecycle command returns for each outcome: the transport's
/// message on a send failure, the status code on a non-success status,
/// and the confirmation string otherwise.
pub open spec fn lifecycle_result(
    vmid: u32,
    verb: Seq<char>,
    outcome: SendOutcome,
    r: Result<String, ApiError>,
) -> bool {
    match outcome {
        SendOutcome::SendFailed(m) => r == Err::<String, ApiError>(ApiError::TransportError(m)),
        SendOutcome::Received(code) => if http_success(code) {
            r matches Ok(s) && s@ == confirmation(vmid, verb)
        } else {
            r == Err::<String, ApiError>(ApiError::HttpStatusError(code))
        },
    }
}

impl ProxmoxClient {
    /// Builds a client from the four configuration values.  Fails, and
    /// names the first absent value, if any of them is missing; with
    /// all four present construction always succeeds.
    pub fn new(
        host: Option<String>,
        node: Option<String>,
        token_id: Option<String>,
        token_secret: Option<String>,
    ) -> (r: Result<ProxmoxClient, ApiError>)
        ensures
            match r {
                Ok(c) => {
                    &&& host matches Some(h) && c.host@ == h@
                    &&& node matches Some(n) && c.node@ == n@
                    &&& token_id matches Some(t) && c.token_id@ == t@
                    &&& token_secret matches Some(s) && c.token_secret@ == s@
                },
                Err(e) => {
                    if host is None {
                        e == ApiError::MissingCredential(CredentialVar::Host)
                    } else if node is None {
                        e == ApiError::MissingCredential(CredentialVar::Node)
                    } else if token_id is None {
                        e == ApiError::MissingCredential(CredentialVar::TokenId)
                    } else {
                        token_secret is None && e == ApiError::MissingCredential(
                            CredentialVar::TokenSecret,
                        )
                    }
                },
            },
    {
        let host = match host {
            Some(h) => h,
            None => {
                return Err(ApiError::MissingCredential(CredentialVar::Host));
            },
        };
        let node = match node {
            Some(n) => n,
            None => {
                return Err(ApiError::MissingCredential(CredentialVar::Node));
            },
        };
        let token_id = match token_id {
            Some(t) => t,
            None => {
                return Err(ApiError::MissingCredential(CredentialVar::TokenId));
            },
        };
        let token_secret = match token_secret {
            Some(s) => s,
            None => {
                return Err(ApiError::MissingCredential(CredentialVar::TokenSecret));
            },
        };
        Ok(ProxmoxClient { host, node, token_id, token_secret })
    }

    /// An identical copy of the client handle.  The command layer takes
    /// one while holding its lock and releases the lock before any I/O.
    pub fn duplicate(&self) -> (r: ProxmoxClient)
        ensures
            r@ == self@,
    {
        ProxmoxClient {
            host: self.host.clone(),
            node: self.node.clone(),
            token_id: self.token_id.clone(),
            token_secret: self.token_secret.clone(),
        }
    }

    /// The Authorization header carried by every request.
    pub fn auth_header(&self) -> (r: String)
        ensures
            r@ == auth_header_spec(self@),
    {
        let mut out = String::from_str("PVEAPIToken=");
        out.append(self.token_id.as_str());
        out.append("=");
        out.append(self.token_secret.as_str());
        out
    }

    fn base_url(&self) -> (r: String)
        ensures
            r@ == list_url(self@),
    {
        let mut out = String::from_str("https://");
        out.append(self.host.as_str());
        out.append("/api2/json/nodes/");
        out.append(self.node.as_str());
        out.append("/lxc");
        out
    }

    fn container_base_url(&self, vmid: u32) -> (r: String)
        ensures
            r@ == container_url(self@, vmid),
    {
        let mut out = self.base_url();
        out.append("/");
        let digits = u64_to_string(vmid as u64);
        out.append(digits.as_str());
        out
    }

    /// The request that fetches the raw container listing.
    pub fn list_containers_request(&self) -> (r: HttpRequest)
        ensures
            r.method == HttpMethod::Get,
            r.url@ == list_url(self@),
            r.authorization@ == auth_header_spec(self@),
    {
        HttpRequest { method: HttpMethod::Get, url: self.base_url(), authorization: self.auth_header() }
    }

    /// The request that fetches one container's interface listing.
    pub fn interfaces_request(&self, vmid: u32) -> (r: HttpRequest)
        ensures
            r.method == HttpMethod::Get,
            r.url@ == interfaces_url(self@, vmid),
            r.authorization@ == auth_header_spec(self@),
    {
        let mut url = self.container_base_url(vmid);
        url.append("/interfaces");
        HttpRequest { method: HttpMethod::Get, url, authorization: self.auth_header() }
    }

    /// The request that starts a container.
    pub fn start_container_request(&self, vmid: u32) -> (r: HttpRequest)
        ensures
            r.method == HttpMethod::Post,
            r.url@ == start_url(self@, vmid),
            r.authorization@ == auth_header_spec(self@),
    {
        let mut url = self.container_base_url(vmid);
        url.append("/status/start");
        HttpRequest { method: HttpMethod::Post, url, authorization: self.auth_header() }
    }

    /// The request that stops a container.
    pub fn stop_container_request(&self, vmid: u32) -> (r: HttpRequest)
        ensures
            r.method == HttpMethod::Post,
            r.url@ == stop_url(self@, vmid),
            r.authorization@ == auth_header_spec(self@),
    {
        let mut url = self.container_base_url(vmid);
        url.append("/status/stop");
        HttpRequest { method: HttpMethod::Post, url, authorization: self.auth_header() }
    }

    /// The request that deletes a container.
    pub fn delete_container_request(&self, vmid: u32) -> (r: HttpRequest)
        ensures
            r.method == HttpMethod::Delete,
            r.url@ == container_url(self@, vmid),
            r.authorization@ == auth_header_spec(self@),
    {
        HttpRequest {
            method: HttpMethod::Delete,
            url: self.container_base_url(vmid),
            authorization: self.auth_header(),
        }
    }

    /// Interprets the outcome of an interface fetch: the address of
    /// the first usable interface, or the failure that prevented one.
    /// Every failure here is absorbed by the listing; it never reaches
    /// the listing's caller.
    pub fn get_container_ip(&self, outcome: FetchOutcome<Vec<NetworkInterface>>) -> (r: Result<
        String,
        ApiError,
    >)
        ensures
            match outcome {
                FetchOutcome::SendFailed(m) => r == Err::<String, ApiError>(
                    ApiError::TransportError(m),
                ),
                FetchOutcome::Received(code, body) => if !http_success(code) {
                    r == Err::<String, ApiError>(ApiError::HttpStatusError(code))
                } else {
                    match body {
                        None => r == Err::<String, ApiError>(ApiError::DecodeError),
                        Some(ifaces) => match first_ip(net_models(ifaces@)) {
                            Some(ip) => r matches Ok(s) && s@ == ip,
                            None => r == Err::<String, ApiError>(ApiError::NoIpFound),
                        },
                    }
                },
            },
    {
        let (code, body) = match outcome {
            FetchOutcome::SendFailed(m) => {
                return Err(ApiError::TransportError(m));
            },
            FetchOutcome::Received(code, body) => (code, body),
        };
        if !status_is_success(code) {
            return Err(ApiError::HttpStatusError(code));
        }
        let ifaces = match body {
            None => {
                return Err(ApiError::DecodeError);
            },
            Some(ifaces) => ifaces,
        };
        match pick_ip(&ifaces) {
            Some(ip) => Ok(ip),
            None => Err(ApiError::NoIpFound),
        }
    }

    /// Interprets a listing outcome together with the enrichment
    /// lookups performed for its records.  On success the result holds
    /// one entry per raw record — a failed lookup only leaves that one
    /// entry's address absent — sorted ascending by vmid.
    pub fn get_containers(
        &self,
        listing: FetchOutcome<Vec<RawContainer>>,
        lookups: Vec<Result<String, ApiError>>,
    ) -> (r: Result<Vec<Container>, ApiError>)
        requires
            match listing {
                FetchOutcome::Received(code, Some(raws)) => http_success(code)
                    ==> lookups@.len() == raws@.len(),
                _ => true,
            },
        ensures
            match listing {
                FetchOutcome::SendFailed(m) => r == Err::<Vec<Container>, ApiError>(
                    ApiError::TransportError(m),
                ),
                FetchOutcome::Received(code, body) => if !http_success(code) {
                    r == Err::<Vec<Container>, ApiError>(ApiError::HttpStatusError(code))
                } else {
                    match body {
                        None => r == Err::<Vec<Container>, ApiError>(ApiError::DecodeError),
                        Some(raws) => r matches Ok(cs) && {
                            let pre = entries(raw_models(raws@), lookup_models(lookups@));
                            &&& cs@.len() == raws@.len()
                            &&& models(cs@).to_multiset() == pre.to_multiset()
                            &&& sorted_by_vmid(models(cs@))
                            &&& forall|j: int|
                                0 <= j < cs@.len() ==> ((#[trigger] cs@[j]@).status != "running"@
                                    ==> cs@[j]@.ip_address is None)
                        },
                    }
                },
            },
    {
        let (code, body) = match listing {
            FetchOutcome::SendFailed(m) => {
                return Err(ApiError::TransportError(m));
            },
            FetchOutcome::Received(code, body) => (code, body),
        };
        if !status_is_success(code) {
            return Err(ApiError::HttpStatusError(code));
        }
        let mut raws = match body {
            None => {
                return Err(ApiError::DecodeError);
            },
            Some(raws) => raws,
        };
        let mut lookups = lookups;
        let ghost raw_ms = raw_models(raws@);
        let ghost lk_ms = lookup_models(lookups@);
        let mut out: Vec<Container> = Vec::new();
        while raws.len() > 0
            invariant
                raws@.len() == lookups@.len(),
                out@.len() + raws@.len() == raw_ms.len(),
                raw_ms.len() == lk_ms.len(),
                raw_models(raws@) == raw_ms.skip(out@.len() as int),
                lookup_models(lookups@) == lk_ms.skip(out@.len() as int),
                forall|j: int|
                    0 <= j < out@.len() ==> models(out@)[j] == entry_model(raw_ms[j], lk_ms[j]),
            decreases raws@.len(),
        {
            let ghost k = out@.len() as int;
            let ghost raws_before = raws@;
            let ghost lookups_before = lookups@;
            let raw = raws.remove(0);
            let lk = lookups.remove(0);
            proof {
                assert(raw@ == raw_models(raws_before)[0]);
                assert(raw@ == raw_ms[k]);
                assert(lookup_ip(lk) == lookup_models(lookups_before)[0]);
                assert(lookup_ip(lk) == lk_ms[k]);
                assert(raw_models(raws_before.remove(0)) =~= raw_models(raws_before).drop_first());
                assert(raw_models(raws@) =~= raw_ms.skip(k + 1));
                assert(lookup_models(lookups_before.remove(0)) =~= lookup_models(
                    lookups_before,
                ).drop_first());
                assert(lookup_models(lookups@) =~= lk_ms.skip(k + 1));
            }
            let mut c = normalize(raw);
            apply_enrichment(&mut c, lk);
            let ghost cm = c@;
            let ghost out_before = out@;
            out.push(c);
            proof {
                assert(cm == entry_model(raw_ms[k], lk_ms[k]));
                assert(models(out@) =~= models(out_before).push(cm));
                assert(forall|j: int|
                    0 <= j < out_before.len() ==> models(out@)[j] == models(out_before)[j]);
                assert(models(out@)[k] == cm);
            }
        }
        proof {
            assert(models(out@) =~= entries(raw_ms, lk_ms));
        }
        let ghost pre = models(out@);
        sort_by_vmid(&mut out);
        proof {
            let p = |m: ContainerModel| m.status != "running"@ ==> m.ip_address is None;
            assert forall|i: int| 0 <= i < pre.len() implies #[trigger] p(pre[i]) by {
                assert(pre[i] == entry_model(raw_ms[i], lk_ms[i]));
            }
            lemma_multiset_pointwise(p, pre, models(out@));
            assert forall|j: int|
                0 <= j < out@.len() implies ((#[trigger] out@[j]@).status != "running"@
                ==> out@[j]@.ip_address is None) by {
                assert(models(out@)[j] == out@[j]@);
                assert(p(models(out@)[j]));
            }
        }
        Ok(out)
    }

    /// Interprets a start command's outcome.  Success means the remote
    /// accepted the request, not that the container reached the target
    /// state: the remote performs the operation asynchronously and this
    /// client does not poll for completion.
    pub fn start_container(&self, vmid: u32, outcome: SendOutcome) -> (r: Result<String, ApiError>)
        ensures
            lifecycle_result(vmid, "started"@, outcome, r),
    {
        lifecycle_outcome(vmid, "started", outcome)
    }

    /// Interprets a stop command's outcome; success means acceptance,
    /// as for starting.
    pub fn stop_container(&self, vmid: u32, outcome: SendOutcome) -> (r: Result<String, ApiError>)
        ensures
            lifecycle_result(vmid, "stopped"@, outcome, r),
    {
        lifecycle_outcome(vmid, "stopped", outcome)
    }

    /// Interprets a delete command's outcome; success means acceptance,
    /// as for starting.
    pub fn delete_container(&self, vmid: u32, outcome: SendOutcome) -> (r: Result<String, ApiError>)
        ensures
            lifecycle_result(vmid, "deleted"@, outcome, r),
    {
        lifecycle_outcome(vmid, "deleted", outcome)
    }
}

fn lifecycle_outcome(vmid: u32, verb: &str, outcome: SendOutcome) -> (r: Result<String, ApiError>)
    ensures
        lifecycle_result(vmid, verb@, outcome, r),
{
    match outcome {
        SendOutcome::SendFailed(m) => Err(ApiError::TransportError(m)),
        SendOutcome::Received(code) => {
            if status_is_success(code) {
                let mut out = String::from_str("Container ");
                let digits = u64_to_string(vmid as u64);
                out.append(digits.as_str());
                out.append(" ");
                out.append(verb);
                out.append(" successfully");
                Ok(out)
            } else {
                Err(ApiError::HttpStatusError(code))
            }
        },
    }
}

} // verus!
