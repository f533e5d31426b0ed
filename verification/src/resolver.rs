//! The start-checkpoint resolver: decides, once at startup, the first
//! checkpoint sequence number to request. Three signals compete, in a fixed
//! order with no fallthrough: an explicit override wins, then the
//! from-genesis flag, and otherwise the latest sequence number must be
//! fetched from a configured endpoint.
//!
//! The fetch itself is a network call and happens outside this crate. The
//! resolver is split around it: [`plan_start_checkpoint`] decides whether a
//! fetch is needed at all and, when it is, with which endpoint and
//! credentials — exactly one request, or none. When the fetch has answered,
//! [`apply_latest_checkpoint`] writes the fetched number back into the
//! configuration the orchestrator reads, so ingestion starts there.

use vstd::prelude::*;
use vstd::string::StringExecFns;

verus! {

/// The configuration surface the resolver reads, and writes back into.
#[derive(Debug)]
pub struct StartArgs {
    /// Explicit first-checkpoint override.
    pub first_checkpoint: Option<u64>,
    /// Ingestion endpoint, also usable for the latest-checkpoint query.
    pub rpc_api_url: Option<String>,
    /// Basic-auth username for the endpoint.
    pub rpc_username: Option<String>,
    /// Basic-auth password; only meaningful together with a username.
    pub rpc_password: Option<String>,
}

/// Which of the three signals decided the start checkpoint.
#[derive(Debug, PartialEq, Eq, Structural)]
pub enum StartMode {
    /// The explicit override was present and is used verbatim.
    Provided,
    /// The from-genesis flag was set: start at sequence 0.
    Genesis,
    /// The latest sequence number was fetched and carries the value.
    Latest(u64),
}

/// The one latest-checkpoint request the resolver may ask for: which
/// endpoint to query and which credentials to present.
#[derive(Debug, PartialEq, Eq)]
pub struct FetchRequest {
    pub url: String,
    pub username: Option<String>,
    pub password: Option<String>,
}

/// What startup should do next, per the fixed decision order.
#[derive(Debug, PartialEq, Eq)]
pub enum StartPlan {
    /// Use the explicit override verbatim; consult nothing else.
    UseProvided,
    /// Start at checkpoint 0; consult nothing else.
    UseGenesis,
    /// Issue exactly this latest-checkpoint request, then apply its answer.
    Fetch(FetchRequest),
}

/// Why resolution failed before any request was made.
#[derive(Debug, PartialEq, Eq)]
pub enum ResolveError {
    /// No override, not from genesis, and no endpoint configured: there is
    /// no source for a start checkpoint.
    NoLatestSource,
}

impl ResolveError {
    /// A descriptive message naming both ways to supply a start source.
    pub fn message(&self) -> (r: String)
        ensures
            r@ == "default start requires --latest-rpc-url or --rpc-api-url to fetch latest"@,
    {
        "default start requires --latest-rpc-url or --rpc-api-url to fetch latest".to_owned()
    }
}

/// An owned reading of an optional borrowed endpoint.
pub open spec fn deref_endpoint(url: Option<&String>) -> Option<String> {
    match url {
        Some(u) => Some(*u),
        None => None,
    }
}

/// The resolver's whole decision, as a mathematical function of its three
/// signals. First match wins: override, then genesis, then a fetch from the
/// dedicated latest endpoint or, failing that, the ingestion endpoint; with
/// neither endpoint configured, resolution fails.
pub open spec fn spec_plan(
    args: StartArgs,
    from_genesis: bool,
    latest_rpc_url: Option<String>,
) -> Result<StartPlan, ResolveError> {
    if args.first_checkpoint is Some {
        Ok(StartPlan::UseProvided)
    } else if from_genesis {
        Ok(StartPlan::UseGenesis)
    } else {
        match (latest_rpc_url, args.rpc_api_url) {
            (Some(u), _) => Ok(
                StartPlan::Fetch(
                    FetchRequest {
                        url: u,
                        username: args.rpc_username,
                        password: args.rpc_password,
                    },
                ),
            ),
            (None, Some(u)) => Ok(
                StartPlan::Fetch(
                    FetchRequest {
                        url: u,
                        username: args.rpc_username,
                        password: args.rpc_password,
                    },
                ),
            ),
            (None, None) => Err(ResolveError::NoLatestSource),
        }
    }
}

/// Decides how to start, without performing any request. The plan is
/// exactly [`spec_plan`]: with the override present the fetch is never
/// requested whatever the other signals say; with from-genesis set and no
/// override, the fetch is never requested; and a fetch, when one is due,
/// names the dedicated latest endpoint if configured, the ingestion
/// endpoint otherwise, together with the configured credentials.
pub fn plan_start_checkpoint(
    args: &StartArgs,
    from_genesis: bool,
    latest_rpc_url: Option<&String>,
) -> (r: Result<StartPlan, ResolveError>)
    ensures
        r == spec_plan(*args, from_genesis, deref_endpoint(latest_rpc_url)),
        args.first_checkpoint is Some ==> r == Ok::<StartPlan, ResolveError>(StartPlan::UseProvided),
        args.first_checkpoint is None && from_genesis ==> r == Ok::<StartPlan, ResolveError>(StartPlan::UseGenesis),
{
    if args.first_checkpoint.is_some() {
        return Ok(StartPlan::UseProvided);
    }
    if from_genesis {
        return Ok(StartPlan::UseGenesis);
    }
    let url = match latest_rpc_url {
        Some(u) => u,
        None => {
            match &args.rpc_api_url {
                Some(u) => u,
                None => {
                    return Err(ResolveError::NoLatestSource);
                },
            }
        },
    };
    Ok(
        StartPlan::Fetch(
            FetchRequest {
                url: url.clone(),
                username: clone_opt(&args.rpc_username),
                password: clone_opt(&args.rpc_password),
            },
        ),
    )
}

/// Why the whole resolution failed.
#[derive(Debug, PartialEq, Eq)]
pub enum StartError {
    /// No source for a start checkpoint is configured.
    Config(ResolveError),
    /// The latest-checkpoint fetch was issued and failed; carries the
    /// transport's message.
    Fetch(String),
}

impl StartError {
    /// The failure's descriptive text.
    pub fn message(&self) -> (r: String)
        ensures
            match self {
                StartError::Config(_) => r@
                    == "default start requires --latest-rpc-url or --rpc-api-url to fetch latest"@,
                StartError::Fetch(m) => r == *m,
            },
    {
        match self {
            StartError::Config(e) => e.message(),
            StartError::Fetch(m) => m.clone(),
        }
    }
}

/// Whether `out` is an answer the fetch capability `f` could have given to
/// the request `req`.
pub open spec fn fetch_answered<F: FnOnce(&FetchRequest) -> Result<u64, String>>(
    f: F,
    req: FetchRequest,
    out: Result<u64, String>,
) -> bool {
    exists|p: &FetchRequest| *p == req && call_ensures(f, (p,), out)
}

/// The whole resolution, with the latest-checkpoint fetch injected as a
/// capability: decides per [`spec_plan`], issues at most one fetch — none
/// when the override or the from-genesis flag decides — and on a fetched
/// answer records it through [`apply_latest_checkpoint`]. Every outcome is
/// pinned to the plan, and a `Latest` outcome to an answer of the
/// capability for exactly the planned request.
pub fn resolve_start_checkpoint_with<F: FnOnce(&FetchRequest) -> Result<u64, String>>(
    args: &mut StartArgs,
    from_genesis: bool,
    latest_rpc_url: Option<&String>,
    fetch_latest: F,
) -> (r: Result<StartMode, StartError>)
    requires
        forall|p: &FetchRequest| #[trigger] call_requires(fetch_latest, (p,)),
    ensures
        ({
            let plan = spec_plan(*old(args), from_genesis, deref_endpoint(latest_rpc_url));
            match plan {
                Ok(StartPlan::UseProvided) => r == Ok::<StartMode, StartError>(StartMode::Provided)
                    && *final(args) == *old(args),
                Ok(StartPlan::UseGenesis) => r == Ok::<StartMode, StartError>(StartMode::Genesis)
                    && *final(args) == *old(args),
                Ok(StartPlan::Fetch(req)) => match r {
                    Ok(mode) => {
                        &&& mode matches StartMode::Latest(n)
                        &&& fetch_answered(fetch_latest, req, Ok(n))
                        &&& final(args).first_checkpoint == Some(n)
                        &&& final(args).rpc_api_url == old(args).rpc_api_url
                        &&& final(args).rpc_username == old(args).rpc_username
                        &&& final(args).rpc_password == old(args).rpc_password
                    },
                    Err(e) => {
                        &&& e matches StartError::Fetch(m)
                        &&& fetch_answered(fetch_latest, req, Err(m))
                        &&& *final(args) == *old(args)
                    },
                },
                Err(e) => r == Err::<StartMode, StartError>(StartError::Config(e))
                    && *final(args) == *old(args),
            }
        }),
{
    let plan = match plan_start_checkpoint(args, from_genesis, latest_rpc_url) {
        Ok(plan) => plan,
        Err(e) => {
            return Err(StartError::Config(e));
        },
    };
    match plan {
        StartPlan::UseProvided => Ok(StartMode::Provided),
        StartPlan::UseGenesis => Ok(StartMode::Genesis),
        StartPlan::Fetch(request) => {
            match fetch_latest(&request) {
                Ok(latest) => Ok(apply_latest_checkpoint(args, latest)),
                Err(message) => Err(StartError::Fetch(message)),
            }
        },
    }
}

/// Records a successfully fetched latest sequence number: writes it back as
/// the first checkpoint the orchestrator will request, touching nothing
/// else, and reports the mode.
pub fn apply_latest_checkpoint(args: &mut StartArgs, latest: u64) -> (mode: StartMode)
    ensures
        final(args).first_checkpoint == Some(latest),
        final(args).rpc_api_url == old(args).rpc_api_url,
        final(args).rpc_username == old(args).rpc_username,
        final(args).rpc_password == old(args).rpc_password,
        mode == StartMode::Latest(latest),
{
    args.first_checkpoint = Some(latest);
    StartMode::Latest(latest)
}

/// The error text when the RPC client for a fetch cannot be constructed:
/// it preserves the attempted endpoint.
pub fn client_failure_message(url: &String) -> (r: String)
    ensures
        r@ == "Failed to create RPC client for "@ + url@,
{
    let prefix = "Failed to create RPC client for ".to_owned();
    prefix.concat(url.as_str())
}

/// The error text when the latest-checkpoint fetch itself fails: it
/// preserves the attempted endpoint.
pub fn fetch_failure_message(url: &String) -> (r: String)
    ensures
        r@ == "Failed to fetch latest checkpoint from "@ + url@,
{
    let prefix = "Failed to fetch latest checkpoint from ".to_owned();
    prefix.concat(url.as_str())
}

/// A fresh copy of an optional credential.
fn clone_opt(src: &Option<String>) -> (r: Option<String>)
    ensures
        r == *src,
{
    match src {
        Some(s) => Some(s.clone()),
        None => None,
    }
}

} // verus!

