//! Reaching a signature creation unit: its address, what is sent where, and
//! what a failure means to the caller.

use vstd::prelude::*;
use vstd::string::StringExecFns;
use crate::atrustapi::return_codes::ReturnCode;
use crate::config::ConfigStore;
use crate::config::GeneralConfig;
use crate::config::get_tss;
use crate::idesscd::Method;
use crate::idesscd::Operation;
use crate::text::begins_with;
use crate::text::starts_with;
use crate::text::text_view;

verus! {

/// The version of the unit's interface, a segment of every address.
pub const URL_VERSION: &'static str = "v1";

/// Why an operation on a unit did not give a result.
#[derive(Debug)]
pub enum Error {
    /// The request did not get to the unit, or no answer came back.
    RequestFailed { source: String },
    /// The unit answered with a status that does not report success.
    Unsuccessful(u16),
    /// The answer was not the record that the operation is answered with.
    MalformedResponse { source: String },
    /// The address of the unit is no address.
    CouldNotConstructUri { source: String },
    /// No unit is configured under this name.
    NoScuUrl(String),
}

impl Error {
    /// What went wrong with the request, where the request itself failed.
    pub fn reqwest_eror(&self) -> (source: Option<&String>)
        ensures
            match *self {
                Error::RequestFailed { source: s } => source == Some(&s),
                _ => source is None,
            },
    {
        if let Error::RequestFailed { source } = self {
            Some(source)
        } else {
            None
        }
    }

    /// The return code that stands for this failure where the operation has
    /// no code of its own for it.
    pub open spec fn code(self) -> ReturnCode {
        match self {
            Error::RequestFailed { .. } => ReturnCode::SeCommunicationFailed,
            Error::MalformedResponse { .. } => ReturnCode::Unknown,
            Error::Unsuccessful(_) => ReturnCode::InvalidConfig,
            Error::CouldNotConstructUri { .. } => ReturnCode::InvalidConfig,
            Error::NoScuUrl(_) => ReturnCode::InvalidConfig,
        }
    }
}

impl From<Error> for ReturnCode {
    fn from(err: Error) -> (code: ReturnCode) {
        match err {
            Error::RequestFailed { .. } => ReturnCode::SeCommunicationFailed,
            Error::MalformedResponse { .. } => ReturnCode::Unknown,
            _ => ReturnCode::InvalidConfig,
        }
    }
}

impl vstd::std_specs::convert::FromSpecImpl<Error> for ReturnCode {
    open spec fn obeys_from_spec() -> bool {
        true
    }

    open spec fn from_spec(err: Error) -> ReturnCode {
        err.code()
    }
}

/// Whether the `http` crate reads a text as a URI.
pub uninterp spec fn uri_accepted(text: Seq<char>) -> bool;

/// `<http::Uri as FromStr>::from_str`. The contract names whether the text is
/// read as a URI; the reason for a refusal is handed on as text, with nothing
/// claimed of it.
#[verifier::external_body]
fn check_uri(text: &str) -> (checked: Result<(), String>)
    ensures
        checked is Ok == uri_accepted(text@),
{
    match text.parse::<http::Uri>() {
        Ok(_) => Ok(()),
        Err(err) => Err(err.to_string()),
    }
}

/// The address of a unit with the version of its interface.
pub open spec fn versioned(base_url: Seq<char>) -> Seq<char> {
    base_url + "/"@ + URL_VERSION@
}

/// The address of an operation of a unit.
pub open spec fn address(base_url: Seq<char>, operation: Operation) -> Seq<char> {
    versioned(base_url) + "/"@ + operation.path()
}

/// Two operations of one unit never share an address.
pub proof fn lemma_addresses_are_distinct(base_url: Seq<char>, a: Operation, b: Operation)
    requires
        a != b,
    ensures
        address(base_url, a) != address(base_url, b),
{
    crate::idesscd::lemma_paths_are_distinct(a, b);
    let prefix = versioned(base_url) + "/"@;
    assert(address(base_url, a).subrange(prefix.len() as int, address(base_url, a).len() as int)
        == a.path());
    assert(address(base_url, b).subrange(prefix.len() as int, address(base_url, b).len() as int)
        == b.path());
}

/// One request, ready to be sent.
#[derive(Debug)]
pub struct Request {
    pub method: Method,
    pub url: String,
}

/// The way to one unit.
#[derive(Debug)]
pub struct IDeSscdClient {
    pub base_url: String,
}

impl IDeSscdClient {
    /// The way to the unit at `base_url`, given what reading its address with
    /// the version behind it as a URI came to: there is a way where the
    /// address was read, and none where it was refused.
    pub fn checked(base_url: String, uri: Result<(), String>) -> (client: Result<IDeSscdClient, Error>)
        ensures
            match uri {
                Ok(_) => client matches Ok(c) && c.base_url == base_url,
                Err(reason) => client matches Err(Error::CouldNotConstructUri { source }) && source
                    == reason,
            },
    {
        match uri {
            Ok(()) => Ok(IDeSscdClient { base_url }),
            Err(source) => Err(Error::CouldNotConstructUri { source }),
        }
    }

    /// The address of an operation of this unit.
    pub fn url(&self, operation: Operation) -> (url: String)
        ensures
            url@ == address(self.base_url@, operation),
    {
        let mut url = self.base_url.clone();
        url.append("/");
        url.append(URL_VERSION);
        url.append("/");
        url.append(operation.path_segment());
        url
    }

    /// The one request that an operation on this unit is made of.
    pub fn request(&self, operation: Operation) -> (request: Request)
        ensures
            request.url@ == address(self.base_url@, operation),
            request.method == if operation.reads_only() {
                Method::Get
            } else {
                Method::Post
            },
    {
        Request { method: operation.method(), url: self.url(operation) }
    }
}

/// The entry to the units of a configuration.
#[derive(Debug)]
pub struct Client();

impl Client {
    /// The way to the unit that is configured under `tse_id`.
    ///
    /// There is none where the name is unknown, and none where the address
    /// of the unit with the version behind it is no address.
    pub fn get(store: &ConfigStore, tse_id: String) -> (client: Result<IDeSscdClient, Error>)
        ensures
            match client {
                Ok(c) => {
                    &&& store.configs@.contains_key(tse_id@)
                    &&& c.base_url@ == store.configs@[tse_id@].scu_url
                    &&& uri_accepted(versioned(c.base_url@))
                },
                Err(Error::NoScuUrl(name)) => !store.configs@.contains_key(tse_id@) && name@ == tse_id@,
                Err(Error::CouldNotConstructUri { .. }) => {
                    &&& store.configs@.contains_key(tse_id@)
                    &&& !uri_accepted(versioned(store.configs@[tse_id@].scu_url))
                },
                Err(_) => false,
            },
    {
        let config = match get_tss(store, tse_id.as_str()) {
            Some(config) => config,
            None => {
                return Err(Error::NoScuUrl(tse_id));
            },
        };
        let mut versioned_url = config.scu_url.clone();
        versioned_url.append("/");
        versioned_url.append(URL_VERSION);
        IDeSscdClient::checked(config.scu_url, check_uri(versioned_url.as_str()))
    }
}

/// Whether a status reports success: the statuses from 200 to 299 do.
pub open spec fn is_success(status: u16) -> bool {
    200 <= status <= 299
}

/// Reads the status of an answer: one that does not report success is the
/// failure `Unsuccessful` with that status.
pub fn check_status(status: u16) -> (checked: Result<(), Error>)
    ensures
        match checked {
            Ok(()) => is_success(status),
            Err(Error::Unsuccessful(s)) => !is_success(status) && s == status,
            Err(_) => false,
        },
{
    if 200 <= status && status <= 299 {
        Ok(())
    } else {
        Err(Error::Unsuccessful(status))
    }
}

/// Whether a proxy at `url` can be used: its address has to begin with the
/// scheme `http` or `https`, written just so.
pub open spec fn proxy_scheme_allowed(url: Seq<char>) -> bool {
    begins_with(url, "http://"@) || begins_with(url, "https://"@)
}

/// How the HTTP client of the process is to be built.
#[derive(Debug)]
pub enum ProxyPlan {
    /// Without a proxy: none is configured.
    Direct,
    /// Through the proxy at `url`.
    Through { url: String, username: Option<String>, password: Option<String> },
    /// Without a proxy, and with a warning: the one that is configured, at
    /// `url`, cannot be used.
    Refused { url: String },
}

impl ProxyPlan {
    /// The plan that the general settings lead to.
    pub open spec fn of(general: crate::config::GeneralView) -> ProxyPlanView {
        match general.http_proxy {
            None => ProxyPlanView::Direct,
            Some(url) => if proxy_scheme_allowed(url) {
                ProxyPlanView::Through {
                    url,
                    username: general.http_proxy_username,
                    password: general.http_proxy_password,
                }
            } else {
                ProxyPlanView::Refused { url }
            },
        }
    }
}

/// What a `ProxyPlan` holds, as plain text.
pub enum ProxyPlanView {
    Direct,
    Through { url: Seq<char>, username: Option<Seq<char>>, password: Option<Seq<char>> },
    Refused { url: Seq<char> },
}

impl View for ProxyPlan {
    type V = ProxyPlanView;

    open spec fn view(&self) -> ProxyPlanView {
        match *self {
            ProxyPlan::Direct => ProxyPlanView::Direct,
            ProxyPlan::Through { url, username, password } => ProxyPlanView::Through {
                url: url@,
                username: text_view(username),
                password: text_view(password),
            },
            ProxyPlan::Refused { url } => ProxyPlanView::Refused { url: url@ },
        }
    }
}

/// Decides how the HTTP client is built from the general settings. A proxy
/// that cannot be used never fails the caller: the client is then built
/// without one.
pub fn proxy_plan(general: &GeneralConfig) -> (plan: ProxyPlan)
    ensures
        plan@ == ProxyPlan::of(general@),
{
    match &general.http_proxy {
        None => ProxyPlan::Direct,
        Some(url) => {
            if starts_with(url.as_str(), "http://") || starts_with(url.as_str(), "https://") {
                ProxyPlan::Through {
                    url: url.clone(),
                    username: general.http_proxy_username.clone(),
                    password: general.http_proxy_password.clone(),
                }
            } else {
                ProxyPlan::Refused { url: url.clone() }
            }
        },
    }
}

} // verus!
