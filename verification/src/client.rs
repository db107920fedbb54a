//! The client side: ask the gateway first, and go to the vendor directly where
//! the gateway does not help.

use crate::text;
use vstd::prelude::*;

verus! {

pub const DEFAULT_GATEWAY_URL: &'static str = "http://127.0.0.1:8787";

/// How long connecting may take, in seconds.
pub const CONNECT_TIMEOUT_SECS: u64 = 2;

/// How long a whole call may take, in seconds. Completions can stream for a while.
pub const TOTAL_TIMEOUT_SECS: u64 = 300;

/// The base address of each vendor that can be called directly.
pub open spec fn base_url_of(provider: Seq<char>) -> Option<Seq<char>> {
    if provider == "zai"@ {
        Some("https://api.z.ai/api/paas/v4"@)
    } else if provider == "deepseek"@ {
        Some("https://api.deepseek.com/v1"@)
    } else if provider == "deepinfra"@ {
        Some("https://api.deepinfra.com/v1/openai"@)
    } else {
        None
    }
}

/// The variable that holds the key of each vendor that can be called directly.
pub open spec fn env_key_of(provider: Seq<char>) -> Option<Seq<char>> {
    if provider == "zai"@ {
        Some("ZAI_API_KEY"@)
    } else if provider == "deepseek"@ {
        Some("DEEPSEEK_API_KEY"@)
    } else if provider == "deepinfra"@ {
        Some("DEEPINFRA_API_KEY"@)
    } else {
        None
    }
}

/// The base address of a vendor, if it can be called directly.
pub fn provider_base_url(provider: &str) -> (r: Option<&'static str>)
    ensures
        r is Some <==> base_url_of(provider@) is Some,
        r matches Some(url) ==> base_url_of(provider@) == Some(url@),
{
    if text::same_text(provider, "zai") {
        Some("https://api.z.ai/api/paas/v4")
    } else if text::same_text(provider, "deepseek") {
        Some("https://api.deepseek.com/v1")
    } else if text::same_text(provider, "deepinfra") {
        Some("https://api.deepinfra.com/v1/openai")
    } else {
        None
    }
}

/// The variable that holds the key of a vendor, if it can be called directly.
pub fn provider_env_key(provider: &str) -> (r: Option<&'static str>)
    ensures
        r is Some <==> env_key_of(provider@) is Some,
        r matches Some(name) ==> env_key_of(provider@) == Some(name@),
{
    if text::same_text(provider, "zai") {
        Some("ZAI_API_KEY")
    } else if text::same_text(provider, "deepseek") {
        Some("DEEPSEEK_API_KEY")
    } else if text::same_text(provider, "deepinfra") {
        Some("DEEPINFRA_API_KEY")
    } else {
        None
    }
}

#[derive(Debug)]
pub enum ClientError {
    /// Both the gateway and the vendor were tried; this is the last error.
    AllFailed(String),
    /// The gateway did not help, and the vendor cannot be called directly.
    NoDirectRoute { provider: String, reason: String },
}

/// What an error is, as a mathematical value.
pub enum ClientErrorModel {
    AllFailed(Seq<char>),
    NoDirectRoute { provider: Seq<char>, reason: Seq<char> },
}

impl View for ClientError {
    type V = ClientErrorModel;

    open spec fn view(&self) -> ClientErrorModel {
        match *self {
            ClientError::AllFailed(msg) => ClientErrorModel::AllFailed(msg@),
            ClientError::NoDirectRoute { provider, reason } => ClientErrorModel::NoDirectRoute {
                provider: provider@,
                reason: reason@,
            },
        }
    }
}

impl ClientErrorModel {
    /// What the error says of itself.
    pub open spec fn message(self) -> Seq<char> {
        match self {
            ClientErrorModel::AllFailed(msg) => "gateway and direct call failed: "@ + msg,
            ClientErrorModel::NoDirectRoute { provider, reason } => "gateway unreachable ("@
                + reason + ") and no direct route for provider '"@ + provider + "'"@,
        }
    }
}

impl ClientError {
    /// What the error says of itself.
    pub fn to_string(&self) -> (r: String)
        ensures
            r@ == self@.message(),
    {
        let mut out = String::new();
        match self {
            ClientError::AllFailed(msg) => {
                out.append("gateway and direct call failed: ");
                out.append(msg.as_str());
            },
            ClientError::NoDirectRoute { provider, reason } => {
                out.append("gateway unreachable (");
                out.append(reason.as_str());
                out.append(") and no direct route for provider '");
                out.append(provider.as_str());
                out.append("'");
            },
        }
        out
    }

    /// The vendor could not be called.
    pub fn direct_call_failed(provider: &str, reason: &str) -> (r: ClientError)
        ensures
            r@ == ClientErrorModel::AllFailed("direct "@ + provider@ + " call failed: "@ + reason@),
    {
        let mut out = "direct ".to_string();
        out.append(provider);
        out.append(" call failed: ");
        out.append(reason);
        ClientError::AllFailed(out)
    }

    /// The vendor answered with something that could not be read.
    pub fn direct_answer_unreadable(provider: &str, status: &str, reason: &str) -> (r: ClientError)
        ensures
            r@ == ClientErrorModel::AllFailed(
                "direct "@ + provider@ + " returned "@ + status@ + " with unparseable body: "@
                    + reason@,
            ),
    {
        let mut out = "direct ".to_string();
        out.append(provider);
        out.append(" returned ");
        out.append(status);
        out.append(" with unparseable body: ");
        out.append(reason);
        ClientError::AllFailed(out)
    }
}

/// What came of asking the gateway.
#[derive(Debug)]
pub enum GatewayOutcome {
    /// It answered with the given status; `readable` tells whether the body was JSON.
    Answered { status: u16, readable: bool },
    /// It could not be reached, or did not answer in time.
    Unreachable,
    /// The call failed for another reason.
    Failed,
}

impl GatewayOutcome {
    /// Whether the gateway's answer is the one to return. Everything else
    /// leads to a direct call.
    pub open spec fn settled(self) -> bool {
        self matches GatewayOutcome::Answered { status, readable } && 200 <= status <= 299
            && readable
    }

    /// Whether the gateway's answer is the one to return.
    pub fn settles(&self) -> (r: bool)
        ensures
            r == self.settled(),
    {
        match self {
            GatewayOutcome::Answered { status, readable } => 200 <= *status && *status <= 299
                && *readable,
            GatewayOutcome::Unreachable => false,
            GatewayOutcome::Failed => false,
        }
    }
}

/// A direct call to a vendor.
#[derive(Debug)]
pub struct DirectCall {
    pub url: String,
    /// The key to authenticate with, if there is one.
    pub bearer: Option<String>,
}

/// Where to find the gateway.
#[derive(Debug)]
pub struct FleetGwClient {
    gateway_url: String,
}

impl View for FleetGwClient {
    type V = Seq<char>;

    closed spec fn view(&self) -> Seq<char> {
        self.gateway_url@
    }
}

/// A key that is set but empty counts as none.
pub open spec fn usable_key(key: Option<Seq<char>>) -> Option<Seq<char>> {
    match key {
        Some(k) => if k.len() > 0 {
            Some(k)
        } else {
            None
        },
        None => None,
    }
}

impl FleetGwClient {
    /// A client of the gateway at the given address. Slashes at its end do not count.
    pub fn new(gateway_url: &str) -> (r: FleetGwClient)
        ensures
            r@ == text::without_trailing(gateway_url@, '/'),
    {
        FleetGwClient { gateway_url: text::trim_trailing(gateway_url, '/') }
    }

    /// The address at the gateway for the given path.
    pub fn gateway_address(&self, path: &str) -> (r: String)
        ensures
            r@ == self@ + path@,
    {
        let mut out = self.gateway_url.clone();
        out.append(path);
        out
    }

    /// The direct call to a vendor for the given path, with the key that the
    /// environment holds for it, if there is one.
    pub fn direct_call(&self, provider: &str, path: &str, key: Option<String>) -> (r: Result<
        DirectCall,
        ClientError,
    >)
        ensures
            r is Ok <==> base_url_of(provider@) is Some,
            r matches Ok(call) ==> base_url_of(provider@) matches Some(base) && call.url@ == base
                + path@ && text::text_of(call.bearer) == usable_key(text::text_of(key)),
            r matches Err(e) ==> e@ == (ClientErrorModel::NoDirectRoute {
                provider: provider@,
                reason: "gateway unreachable"@,
            }),
    {
        match provider_base_url(provider) {
            Some(base) => {
                let mut url = base.to_string();
                url.append(path);
                let bearer = match key {
                    Some(k) => if k.as_str().is_empty() {
                        None
                    } else {
                        Some(k)
                    },
                    None => None,
                };
                Ok(DirectCall { url, bearer })
            },
            None => Err(
                ClientError::NoDirectRoute {
                    provider: provider.to_string(),
                    reason: "gateway unreachable".to_string(),
                },
            ),
        }
    }
}

impl Default for FleetGwClient {
    /// A client of the gateway at its default address.
    fn default() -> (r: FleetGwClient)
        ensures
            r@ == text::without_trailing(DEFAULT_GATEWAY_URL@, '/'),
    {
        FleetGwClient::new(DEFAULT_GATEWAY_URL)
    }
}

// ---------------------------------------------------------------------------
// Laws
// ---------------------------------------------------------------------------

/// A vendor that can be called directly has a variable for its key, and no other has.
pub proof fn direct_vendors_have_a_key_variable(provider: Seq<char>)
    ensures
        base_url_of(provider) is Some <==> env_key_of(provider) is Some,
{
}

/// The client fails open: whatever is wrong with the gateway leads to a direct call.
pub proof fn fails_open(status: u16, readable: bool)
    ensures
        !GatewayOutcome::Unreachable.settled(),
        !GatewayOutcome::Failed.settled(),
        !readable || status < 200 || status > 299 ==> !(GatewayOutcome::Answered {
            status,
            readable,
        }).settled(),
{
}

/// The address of the gateway never ends in a slash.
pub proof fn no_trailing_slash(s: Seq<char>)
    ensures
        ({
            let t = text::without_trailing(s, '/');
            t.len() == 0 || t.last() != '/'
        }),
    decreases s.len(),
{
    if s.len() > 0 && s.last() == '/' {
        no_trailing_slash(s.drop_last());
    }
}

/// The vendors that can be called directly, where they are found and which
/// variable holds their key; no other can be.
pub proof fn direct_vendors(provider: Seq<char>)
    ensures
        provider == "zai"@ ==> base_url_of(provider) == Some("https://api.z.ai/api/paas/v4"@)
            && env_key_of(provider) == Some("ZAI_API_KEY"@),
        provider == "deepseek"@ ==> base_url_of(provider) == Some("https://api.deepseek.com/v1"@)
            && env_key_of(provider) == Some("DEEPSEEK_API_KEY"@),
        provider == "deepinfra"@ ==> base_url_of(provider) == Some(
            "https://api.deepinfra.com/v1/openai"@,
        ) && env_key_of(provider) == Some("DEEPINFRA_API_KEY"@),
        provider != "zai"@ && provider != "deepseek"@ && provider != "deepinfra"@ ==> base_url_of(
            provider,
        ) is None && env_key_of(provider) is None,
{
    reveal_strlit("zai");
    reveal_strlit("deepseek");
    reveal_strlit("deepinfra");
    assert("zai"@.len() == 3 && "deepseek"@.len() == 8 && "deepinfra"@.len() == 9);
}

/// The answer of the gateway is returned exactly where it is a success, status
/// 200 to 299, that can be read.
pub proof fn readable_successes_settle(outcome: GatewayOutcome)
    ensures
        outcome.settled() <==> (outcome matches GatewayOutcome::Answered { status, readable }
            && readable && status >= 200 && status < 300),
{
}

/// A key is sent where it is set and not empty, and as it is.
pub proof fn keys_are_sent_as_they_are(key: Seq<char>)
    ensures
        key.len() > 0 ==> usable_key(Some(key)) == Some(key),
        key.len() == 0 ==> usable_key(Some(key)) is None,
        usable_key(None) is None,
{
}

/// What each error says of itself.
pub proof fn client_errors_say_what_failed(provider: Seq<char>, reason: Seq<char>)
    ensures
        ClientErrorModel::AllFailed(reason).message() == "gateway and direct call failed: "@
            + reason,
        (ClientErrorModel::NoDirectRoute { provider, reason }).message() == "gateway unreachable ("@
            + reason + ") and no direct route for provider '"@ + provider + "'"@,
{
}

/// An error and its model are of the same kind and hold the same.
pub proof fn models_of_client_errors(e: ClientError)
    ensures
        e matches ClientError::AllFailed(msg) ==> e@ == ClientErrorModel::AllFailed(msg@),
        e matches ClientError::NoDirectRoute { provider, reason } ==> e@
            == (ClientErrorModel::NoDirectRoute { provider: provider@, reason: reason@ }),
{
}

/// A call has 2 seconds to connect and 300 in all, which is as long as the
/// gateway gives one request to a provider.
pub proof fn clients_are_as_patient_as_the_gateway()
    ensures
        CONNECT_TIMEOUT_SECS == 2,
        TOTAL_TIMEOUT_SECS == 300,
        TOTAL_TIMEOUT_SECS >= crate::provider::REQUEST_TIMEOUT_SECS,
{
}

} // verus!
