//! Client configuration: environment selection, endpoint routing and the
//! settings a client is built from.

use vstd::prelude::*;

use crate::error::AfricasTalkingError;
use crate::strutil::contains_seq;
use crate::strutil::str_contains;

verus! {

/// Environment configuration.
#[derive(Debug, Clone, Copy, PartialEq, Eq)]
pub enum Environment {
    /// Sandbox environment for testing.
    Sandbox,
    /// Production environment.
    Production,
}

/// The bare domain of each environment.
pub open spec fn spec_base_domain(e: Environment) -> Seq<char> {
    match e {
        Environment::Sandbox => "sandbox.africastalking.com"@,
        Environment::Production => "africastalking.com"@,
    }
}

impl Environment {
    /// The base URL of the environment's standard API.
    pub fn base_url(&self) -> (r: &str)
        ensures
            r@ == "https://api."@ + spec_base_domain(*self),
    {
        let r = match self {
            Environment::Sandbox => "https://api.sandbox.africastalking.com",
            Environment::Production => "https://api.africastalking.com",
        };
        proof {
            reveal_strlit("https://api.");
            reveal_strlit("https://api.sandbox.africastalking.com");
            reveal_strlit("https://api.africastalking.com");
            reveal_strlit("sandbox.africastalking.com");
            reveal_strlit("africastalking.com");
            assert(r@ =~= "https://api."@ + spec_base_domain(*self));
        }
        r
    }

    fn base_domain(&self) -> (r: &str)
        ensures
            r@ == spec_base_domain(*self),
    {
        match self {
            Environment::Sandbox => "sandbox.africastalking.com",
            Environment::Production => "africastalking.com",
        }
    }
}

/// API endpoints that may use different domains.
#[derive(Debug, Clone, Copy, PartialEq, Eq)]
pub enum Endpoint {
    /// Standard API endpoints (api domain).
    Standard,
    /// Mobile data endpoints (bundles domain).
    MobileData,
    /// Voice endpoints (voice domain).
    Voice,
    /// Insights endpoints (insights domain).
    Insights,
    /// Content endpoints (content domain).
    Content,
}

/// The full URL an endpoint and environment give to a path.
pub open spec fn spec_endpoint_url(e: Endpoint, env: Environment, path: Seq<char>) -> Seq<char> {
    let domain = spec_base_domain(env);
    match e {
        Endpoint::Standard => "https://api."@ + domain + path,
        Endpoint::MobileData => "https://bundles."@ + domain + path,
        Endpoint::Voice => "https://voice."@ + domain + path,
        Endpoint::Insights => "https://insights."@ + domain + path,
        Endpoint::Content => match env {
            Environment::Sandbox => "https://api."@ + domain + "/version1"@ + path,
            Environment::Production => "https://content."@ + domain + "/version1"@ + path,
        },
    }
}

impl Endpoint {
    /// The full URL for this endpoint in the given environment.
    pub fn build_url(&self, environment: &Environment, path: &str) -> (r: String)
        ensures
            r@ == spec_endpoint_url(*self, *environment, path@),
    {
        let domain = environment.base_domain();
        let mut url: String = match self {
            Endpoint::Standard => "https://api.".to_owned(),
            Endpoint::MobileData => "https://bundles.".to_owned(),
            Endpoint::Voice => "https://voice.".to_owned(),
            Endpoint::Insights => "https://insights.".to_owned(),
            Endpoint::Content => match environment {
                Environment::Sandbox => "https://api.".to_owned(),
                Environment::Production => "https://content.".to_owned(),
            },
        };
        url.append(domain);
        match self {
            Endpoint::Content => {
                url.append("/version1");
            },
            _ => {},
        }
        url.append(path);
        url
    }
}

/// The endpoint class a path routes to, decided by the fragments the
/// path contains, in fixed precedence order.
pub open spec fn spec_endpoint_for(path: Seq<char>) -> Endpoint {
    if contains_seq(path, "mobile/data"@) {
        Endpoint::MobileData
    } else if contains_seq(path, "voice"@) {
        Endpoint::Voice
    } else if contains_seq(path, "insights"@) {
        Endpoint::Insights
    } else if contains_seq(path, "content"@) {
        Endpoint::Content
    } else {
        Endpoint::Standard
    }
}

#[derive(Debug, Clone, PartialEq, Eq)]
struct EndpointMap;

impl EndpointMap {
    fn get(&self, path: &str) -> (r: Endpoint)
        ensures
            r == spec_endpoint_for(path@),
    {
        if str_contains(path, "mobile/data") {
            Endpoint::MobileData
        } else if str_contains(path, "voice") {
            Endpoint::Voice
        } else if str_contains(path, "insights") {
            Endpoint::Insights
        } else if str_contains(path, "content") {
            Endpoint::Content
        } else {
            Endpoint::Standard
        }
    }
}

/// Configuration for the client.
#[derive(Debug, Clone, PartialEq, Eq)]
pub struct Config {
    /// API key for authentication.
    pub api_key: String,
    /// Username for the application.
    pub username: String,
    /// Environment (sandbox or production).
    pub environment: Environment,
    /// Request timeout, in whole seconds.
    pub timeout: u64,
    /// Maximum number of retry attempts.
    pub max_retries: u32,
    /// Custom user agent string.
    pub user_agent: Option<String>,
}

impl Config {
    /// A configuration with the given credentials and the defaults:
    /// sandbox, a thirty-second timeout, three retries.
    pub fn new(api_key: &str, username: &str) -> (r: Self)
        ensures
            r.api_key@ == api_key@,
            r.username@ == username@,
            r.environment is Sandbox,
            r.timeout == 30,
            r.max_retries == 3,
            r.user_agent is None,
    {
        Config {
            api_key: api_key.to_owned(),
            username: username.to_owned(),
            environment: Environment::Sandbox,
            timeout: 30,
            max_retries: 3,
            user_agent: None,
        }
    }

    /// The full URL for a path, routed to its endpoint class.
    pub fn build_url(&self, path: &str) -> (r: String)
        ensures
            r@ == spec_endpoint_url(spec_endpoint_for(path@), self.environment, path@),
    {
        let endpoint = EndpointMap.get(path);
        endpoint.build_url(&self.environment, path)
    }

    /// Replaces the environment.
    pub fn environment(self, env: Environment) -> (r: Self)
        ensures
            r == (Config { environment: env, ..self }),
    {
        Config { environment: env, ..self }
    }

    /// Replaces the timeout, in whole seconds.
    pub fn timeout(self, timeout: u64) -> (r: Self)
        ensures
            r == (Config { timeout, ..self }),
    {
        Config { timeout, ..self }
    }

    /// Replaces the retry ceiling.
    pub fn max_retries(self, max_retries: u32) -> (r: Self)
        ensures
            r == (Config { max_retries, ..self }),
    {
        Config { max_retries, ..self }
    }

    /// Sets a custom user agent.
    pub fn user_agent(self, user_agent: &str) -> (r: Self)
        ensures
            r.user_agent matches Some(u) && u@ == user_agent@,
            r.api_key == self.api_key,
            r.username == self.username,
            r.environment == self.environment,
            r.timeout == self.timeout,
            r.max_retries == self.max_retries,
    {
        Config { user_agent: Some(user_agent.to_owned()), ..self }
    }

    /// Checks the configuration: the key and username must be non-empty
    /// and the timeout positive; the first failed check names its error.
    pub fn validate(&self) -> (r: Result<(), AfricasTalkingError>)
        ensures
            (r is Ok) == (self.api_key@.len() > 0 && self.username@.len() > 0 && self.timeout
                > 0),
            self.api_key@.len() == 0 ==> (r matches Err(AfricasTalkingError::Config(m)) && m@
                == "API key cannot be empty"@),
            self.api_key@.len() > 0 && self.username@.len() == 0 ==> (r matches Err(
                AfricasTalkingError::Config(m),
            ) && m@ == "Username cannot be empty"@),
            self.api_key@.len() > 0 && self.username@.len() > 0 && self.timeout == 0 ==> (r
                matches Err(AfricasTalkingError::Config(m)) && m@
                == "Timeout must be greater than 0"@),
    {
        if self.api_key.as_str().is_empty() {
            return Err(AfricasTalkingError::config("API key cannot be empty"));
        }
        if self.username.as_str().is_empty() {
            return Err(AfricasTalkingError::config("Username cannot be empty"));
        }
        if self.timeout == 0 {
            return Err(AfricasTalkingError::config("Timeout must be greater than 0"));
        }
        Ok(())
    }
}

} // verus!
