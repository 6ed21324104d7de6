//! The CAS single-sign-on client's logic: the login, logout and ticket
//! validation URLs, what a validation response means, and the rules that
//! turn a validated profile into a local account.

use vstd::prelude::*;
use crate::text::{ends_with, has_suffix, opt_text};

verus! {

/// The attributes the CAS server releases about a user.
pub struct CasAttributes {
    pub ldap_cn: Option<String>,
    pub kd_org: Option<String>,
    pub peran_user: Option<String>,
    pub nama: Option<String>,
    pub npm: Option<String>,
}

/// A successful authentication: the user name and any attributes.
pub struct CasAuthenticationSuccess {
    pub username: String,
    pub attributes: Option<CasAttributes>,
}

/// A ticket validation response.
pub struct CasServiceResponse {
    pub success: Option<CasAuthenticationSuccess>,
}

/// Why a ticket could not be verified.
pub enum CasError {
    /// The request to the CAS server failed.
    Http(String),
    /// The response was not a well-formed service response.
    Xml(String),
    /// The server did not confirm the ticket.
    InvalidTicket,
    UnexpectedResponse,
}

/// A CAS (version 2) client for one service.
pub struct CasClient {
    pub service_url: String,
    pub server_url: String,
    pub proxy_callback: Option<String>,
}

/// What `url::Url::join` gives for the URL `base` and the relative
/// reference `segment`, as text; none when either does not parse.
pub uninterp spec fn joined_url(base: Seq<char>, segment: Seq<char>) -> Option<Seq<char>>;

/// The URL `url` with the query pair `name=value` appended by
/// `url::form_urlencoded`, as text; none when `url` does not parse.
pub uninterp spec fn with_query_pair(url: Seq<char>, name: Seq<char>, value: Seq<char>) -> Option<
    Seq<char>,
>;

/// Relies on `url::Url::parse` and `url::Url::join`: the text of `base`
/// joined with `segment`.
#[verifier::external_body]
fn join_url(base: &str, segment: &str) -> (r: Option<String>)
    ensures
        opt_text(r) == joined_url(base@, segment@),
{
    match url::Url::parse(base).and_then(|u| u.join(segment)) {
        Ok(u) => Some(u.to_string()),
        Err(_) => None,
    }
}

/// Relies on `url::Url::query_pairs_mut` and `append_pair`: the text of
/// `url` with one more query pair.
#[verifier::external_body]
fn append_query_pair(url: &str, name: &str, value: &str) -> (r: Option<String>)
    ensures
        opt_text(r) == with_query_pair(url@, name@, value@),
{
    match url::Url::parse(url) {
        Ok(mut u) => {
            u.query_pairs_mut().append_pair(name, value);
            Some(u.to_string())
        },
        Err(_) => None,
    }
}

/// `url` with the pair appended, when both are there.
pub open spec fn then_pair(url: Option<Seq<char>>, name: Seq<char>, value: Seq<char>) -> Option<
    Seq<char>,
> {
    match url {
        Some(u) => with_query_pair(u, name, value),
        None => None,
    }
}

fn then_append(url: Option<String>, name: &str, value: &str) -> (r: Option<String>)
    ensures
        opt_text(r) == then_pair(opt_text(url), name@, value@),
{
    match url {
        Some(u) => append_query_pair(u.as_str(), name, value),
        None => None,
    }
}

/// The login URL: `login` under the server, naming the service, and asking
/// for fresh credentials when `renew`.
pub open spec fn login_url_text(server: Seq<char>, service: Seq<char>, renew: bool) -> Option<
    Seq<char>,
> {
    let u = then_pair(joined_url(server, "login"@), "service"@, service);
    if renew {
        then_pair(u, "renew"@, "true"@)
    } else {
        u
    }
}

/// The logout URL: `logout` under the server, naming where to go next when
/// given.
pub open spec fn logout_url_text(server: Seq<char>, redirect: Option<Seq<char>>) -> Option<
    Seq<char>,
> {
    let u = joined_url(server, "logout"@);
    match redirect {
        Some(r) => then_pair(u, "service"@, r),
        None => u,
    }
}

/// The ticket validation URL: `serviceValidate` under the server, naming
/// the service and the ticket, and the proxy callback when there is one.
pub open spec fn validate_url_text(
    server: Seq<char>,
    service: Seq<char>,
    ticket: Seq<char>,
    callback: Option<Seq<char>>,
) -> Option<Seq<char>> {
    let u = then_pair(
        then_pair(joined_url(server, "serviceValidate"@), "service"@, service),
        "ticket"@,
        ticket,
    );
    match callback {
        Some(c) => then_pair(u, "pgtUrl"@, c),
        None => u,
    }
}

impl CasClient {
    /// A client for `service_url` against the CAS server at `server_url`.
    pub fn new(service_url: String, server_url: String, proxy_callback: Option<String>) -> (r: Self)
        ensures
            r.service_url@ == service_url@,
            r.server_url@ == server_url@,
            opt_text(r.proxy_callback) == opt_text(proxy_callback),
    {
        CasClient { service_url, server_url, proxy_callback }
    }

    /// The login URL; none when the server URL is not a valid URL.
    pub fn login_url(&self, renew: bool) -> (r: Option<String>)
        ensures
            opt_text(r) == login_url_text(self.server_url@, self.service_url@, renew),
    {
        let u = join_url(self.server_url.as_str(), "login");
        let u = then_append(u, "service", self.service_url.as_str());
        if renew {
            then_append(u, "renew", "true")
        } else {
            u
        }
    }

    /// The logout URL; none when the server URL is not a valid URL.
    pub fn logout_url(&self, redirect: Option<&str>) -> (r: Option<String>)
        ensures
            opt_text(r) == logout_url_text(
                self.server_url@,
                match redirect {
                    Some(s) => Some(s@),
                    None => None,
                },
            ),
    {
        let u = join_url(self.server_url.as_str(), "logout");
        match redirect {
            Some(s) => then_append(u, "service", s),
            None => u,
        }
    }

    /// The URL that validates `ticket`; none when the server URL is not a
    /// valid URL.
    pub fn validate_url(&self, ticket: &str) -> (r: Option<String>)
        ensures
            opt_text(r) == validate_url_text(
                self.server_url@,
                self.service_url@,
                ticket@,
                opt_text(self.proxy_callback),
            ),
    {
        let u = join_url(self.server_url.as_str(), "serviceValidate");
        let u = then_append(u, "service", self.service_url.as_str());
        let u = then_append(u, "ticket", ticket);
        match &self.proxy_callback {
            Some(c) => then_append(u, "pgtUrl", c.as_str()),
            None => u,
        }
    }
}

/// What a validation response means: the authenticated profile, or an
/// invalid ticket when the response holds none.
pub fn ticket_outcome(response: CasServiceResponse) -> (r: Result<
    CasAuthenticationSuccess,
    CasError,
>)
    ensures
        response.success is Some <==> r is Ok,
        r is Err ==> r->Err_0 is InvalidTicket,
        r is Ok ==> r->Ok_0 == response.success->0,
{
    match response.success {
        Some(success) => Ok(success),
        None => Err(CasError::InvalidTicket),
    }
}

/// The display name of a profile: its `nama` attribute, else the user name.
pub open spec fn full_name_of(p: CasAuthenticationSuccess) -> Seq<char> {
    match p.attributes {
        Some(a) => match a.nama {
            Some(n) => n@,
            None => p.username@,
        },
        None => p.username@,
    }
}

/// The display name for a new local account.
pub fn full_name(profile: &CasAuthenticationSuccess) -> (r: String)
    ensures
        r@ == full_name_of(*profile),
{
    match &profile.attributes {
        Some(a) => match &a.nama {
            Some(n) => n.clone(),
            None => profile.username.clone(),
        },
        None => profile.username.clone(),
    }
}

/// The organisation code suffix of the one faculty whose members may get a
/// local account on first sign-in.
pub const FACULTY_ORG_SUFFIX: &'static str = "12.01";

/// Whether a profile belongs to the faculty: its `kd_org` attribute ends
/// with the faculty's code.
pub open spec fn in_faculty(p: CasAuthenticationSuccess) -> bool {
    match p.attributes {
        Some(a) => match a.kd_org {
            Some(k) => has_suffix(k@, FACULTY_ORG_SUFFIX@),
            None => false,
        },
        None => false,
    }
}

/// Whether a first-time user may get a local account.
pub fn is_faculty_member(profile: &CasAuthenticationSuccess) -> (r: bool)
    ensures
        r == in_faculty(*profile),
{
    match &profile.attributes {
        Some(a) => match &a.kd_org {
            Some(k) => ends_with(k.as_str(), FACULTY_ORG_SUFFIX),
            None => false,
        },
        None => false,
    }
}

} // verus!
