//! The self-test: what is checked, and what the checks come to.

use vstd::prelude::*;
use vstd::string::*;

use crate::outside::{host_of_url, port_of_url, url_host, url_port};
use crate::text::{copy_option, decimal_text, join, option_view, to_decimal};

verus! {

/// One check.
#[derive(Debug)]
pub struct Check {
    pub name: &'static str,
    pub ok: bool,
    pub detail: Option<String>,
    pub latency_ms: Option<u128>,
}

/// What a check says.
pub struct CheckView {
    pub name: Seq<char>,
    pub ok: bool,
    pub detail: Option<Seq<char>>,
    pub latency_ms: Option<u128>,
}

impl View for Check {
    type V = CheckView;

    open spec fn view(&self) -> CheckView {
        CheckView {
            name: self.name@,
            ok: self.ok,
            detail: option_view(self.detail),
            latency_ms: self.latency_ms,
        }
    }
}

/// What checks say.
pub open spec fn check_views(checks: Seq<Check>) -> Seq<CheckView> {
    checks.map_values(|check: Check| check@)
}

/// How an authentication went.
#[derive(Debug)]
pub enum AuthFacts {
    /// It succeeded, for this agent; whether the protocol works, and in what words.
    Active { agent_id: String, protocol_ok: bool, protocol: String },
    /// It failed; how far the claim has come, if there is one.
    Refused { error: String, binding: Option<String> },
}

/// What was found out about the server.
#[derive(Debug)]
pub struct ServerFacts {
    pub api_url: String,
    /// The first address of the server, if it has one, or why none could be found.
    pub dns: Result<Option<String>, String>,
    /// Whether the server is well, and in what words, or why it could not be asked.
    pub http: Result<(bool, String), String>,
    pub latency_ms: u128,
    pub history_dir: Option<String>,
    /// Whether the directory of the history could be made.
    pub history_ok: bool,
    /// How an authentication went, where there is an identity to authenticate.
    pub auth: Option<AuthFacts>,
}

/// What was found out.
#[derive(Debug)]
pub struct DoctorFacts {
    /// The agent's name, or why there is no identity.
    pub identity: Result<String, String>,
    /// What was found out about the server, or why there is no configuration.
    pub config: Result<ServerFacts, String>,
}

/// A check without a time.
pub open spec fn plain_check(name: Seq<char>, ok: bool, detail: Seq<char>) -> CheckView {
    CheckView { name, ok, detail: Some(detail), latency_ms: None }
}

/// The text of an outcome, good or bad.
pub open spec fn outcome_text(outcome: Result<String, String>) -> Seq<char> {
    match outcome {
        Ok(text) => text@,
        Err(cause) => cause@,
    }
}

/// The checks of an authentication.
pub open spec fn auth_checks(facts: AuthFacts) -> Seq<CheckView> {
    match facts {
        AuthFacts::Active { agent_id, protocol_ok, protocol } => seq![
            plain_check("auth"@, true, agent_id@),
            plain_check("operator_binding"@, true, "active"@),
            plain_check("websocket_protocol"@, protocol_ok, protocol@),
        ],
        AuthFacts::Refused { error, binding } => seq![
            plain_check("auth"@, false, error@),
            plain_check(
                "operator_binding"@,
                false,
                match binding {
                    Some(status) => status@,
                    None => "operator approval required; run `aingle init`"@,
                },
            ),
        ],
    }
}

/// The checks of the server.
pub open spec fn server_checks(facts: ServerFacts) -> Seq<CheckView> {
    seq![
        plain_check(
            "dns"@,
            facts.dns is Ok,
            match facts.dns {
                Ok(Some(address)) => address@,
                Ok(None) => "no address"@,
                Err(cause) => cause@,
            },
        ),
        CheckView {
            latency_ms: Some(facts.latency_ms),
            ..plain_check(
                "tls_http"@,
                facts.http matches Ok((true, _)),
                match facts.http {
                    Ok((_, status)) => status@,
                    Err(cause) => cause@,
                },
            )
        },
        CheckView {
            name: "history_path"@,
            ok: facts.history_dir is Some && facts.history_ok,
            detail: option_view(facts.history_dir),
            latency_ms: None,
        },
    ]
}

/// All the checks: identity and configuration always, the server where there is a configuration,
/// the authentication where there is an identity too.
pub open spec fn all_checks(facts: DoctorFacts) -> Seq<CheckView> {
    let first = seq![
        plain_check("identity"@, facts.identity is Ok, outcome_text(facts.identity)),
        plain_check(
            "config"@,
            facts.config is Ok,
            match facts.config {
                Ok(server) => server.api_url@,
                Err(cause) => cause@,
            },
        ),
    ];
    match facts.config {
        Err(_) => first,
        Ok(server) => match (facts.identity, server.auth) {
            (Ok(_), Some(auth)) => first + server_checks(server) + auth_checks(auth),
            _ => first + server_checks(server),
        },
    }
}

fn put_check(checks: &mut Vec<Check>, name: &'static str, ok: bool, detail: &str)
    ensures
        check_views(final(checks)@) == check_views(old(checks)@).push(
            plain_check(name@, ok, detail@),
        ),
{
    let ghost before = checks@;
    checks.push(Check { name, ok, detail: Some(detail.to_owned()), latency_ms: None });
    assert(check_views(checks@) =~= check_views(before).push(plain_check(name@, ok, detail@)));
}

fn put_server_checks(checks: &mut Vec<Check>, server: &ServerFacts)
    ensures
        check_views(final(checks)@) == check_views(old(checks)@) + server_checks(*server),
{
    match &server.dns {
        Ok(Some(address)) => put_check(checks, "dns", true, address.as_str()),
        Ok(None) => put_check(checks, "dns", true, "no address"),
        Err(cause) => put_check(checks, "dns", false, cause.as_str()),
    }
    let (well, words) = match &server.http {
        Ok((well, status)) => (*well, status.as_str()),
        Err(cause) => (false, cause.as_str()),
    };
    let ghost dns = checks@;
    checks.push(
        Check {
            name: "tls_http",
            ok: well,
            detail: Some(words.to_owned()),
            latency_ms: Some(server.latency_ms),
        },
    );
    checks.push(
        Check {
            name: "history_path",
            ok: server.history_dir.is_some() && server.history_ok,
            detail: copy_option(&server.history_dir),
            latency_ms: None,
        },
    );
    assert(check_views(checks@) =~= check_views(dns).push(server_checks(*server)[1]).push(
        server_checks(*server)[2],
    ));
    assert(check_views(checks@) =~= check_views(old(checks)@) + server_checks(*server));
}

fn put_auth_checks(checks: &mut Vec<Check>, auth: &AuthFacts)
    ensures
        check_views(final(checks)@) == check_views(old(checks)@) + auth_checks(*auth),
{
    match auth {
        AuthFacts::Active { agent_id, protocol_ok, protocol } => {
            put_check(checks, "auth", true, agent_id.as_str());
            put_check(checks, "operator_binding", true, "active");
            put_check(checks, "websocket_protocol", *protocol_ok, protocol.as_str());
        },
        AuthFacts::Refused { error, binding } => {
            put_check(checks, "auth", false, error.as_str());
            let detail = match binding {
                Some(status) => status.as_str(),
                None => "operator approval required; run `aingle init`",
            };
            put_check(checks, "operator_binding", false, detail);
        },
    }
    assert(check_views(checks@) =~= check_views(old(checks)@) + auth_checks(*auth));
}

/// The checks that the facts come to.
pub fn doctor(facts: &DoctorFacts) -> (checks: Vec<Check>)
    ensures
        check_views(checks@) == all_checks(*facts),
{
    let mut checks: Vec<Check> = Vec::new();
    match &facts.identity {
        Ok(agent_id) => put_check(&mut checks, "identity", true, agent_id.as_str()),
        Err(cause) => put_check(&mut checks, "identity", false, cause.as_str()),
    }
    match &facts.config {
        Err(cause) => {
            put_check(&mut checks, "config", false, cause.as_str());
        },
        Ok(server) => {
            put_check(&mut checks, "config", true, server.api_url.as_str());
            put_server_checks(&mut checks, server);
            if let (Ok(_), Some(auth)) = (&facts.identity, &server.auth) {
                put_auth_checks(&mut checks, auth);
            }
        },
    }
    assert(check_views(checks@) =~= all_checks(*facts));
    checks
}

/// Whether every check passed.
pub fn all_ok(checks: &Vec<Check>) -> (ok: bool)
    ensures
        ok <==> forall|i: int| 0 <= i < checks@.len() ==> (#[trigger] checks@[i]).ok,
{
    let mut index: usize = 0;
    while index < checks.len()
        invariant
            index <= checks@.len(),
            forall|i: int| 0 <= i < index ==> (#[trigger] checks@[i]).ok,
        decreases checks@.len() - index,
    {
        if !checks[index].ok {
            return false;
        }
        index = index + 1;
    }
    true
}

/// The line that tells the user of a check, whose detail is given in JSON notation.
pub fn check_line(check: &Check, detail: &str) -> (line: String)
    ensures
        line@ == (if check.ok {
            "ok"@
        } else {
            "fail"@
        }) + " "@ + check.name@ + ": "@ + detail@,
{
    let mut line = (if check.ok {
        "ok"
    } else {
        "fail"
    }).to_owned();
    line.append(" ");
    line.append(check.name);
    line.append(": ");
    line.append(detail);
    line
}

/// How many times the protocol is tried.
pub const PROBE_ATTEMPTS: u8 = 2;

/// How an attempt to use the protocol went.
#[derive(Debug)]
pub enum ProbeOutcome {
    /// The server said that it is ready.
    Ready,
    /// A connection was made, but the server did not say that it is ready.
    NotReady,
    /// No connection was made, for this reason.
    Failed(String),
    /// No connection was made in time.
    TimedOut,
}

/// What to do after an attempt.
#[derive(Debug)]
pub enum ProbeStep {
    /// Report whether the protocol works, in these words.
    Done(bool, String),
    /// Try once more in a moment.
    Retry,
}

/// How an attempt went, in words.
pub open spec fn probe_text(outcome: ProbeOutcome, attempt: u8) -> Seq<char> {
    (match outcome {
        ProbeOutcome::Ready => "protocol v1 ready"@,
        ProbeOutcome::NotReady => "READY not received"@,
        ProbeOutcome::Failed(cause) => cause@,
        ProbeOutcome::TimedOut => "connection timed out"@,
    }) + " (attempt "@ + decimal_text(attempt as nat) + ")"@
}

/// What to do after an attempt: success is reported at once, failure only after the last attempt.
pub fn probe_step(attempt: u8, outcome: ProbeOutcome) -> (step: ProbeStep)
    ensures
        match step {
            ProbeStep::Done(ok, detail) => {
                &&& ok == (outcome is Ready)
                &&& ok || attempt >= PROBE_ATTEMPTS
                &&& detail@ == probe_text(outcome, attempt)
            },
            ProbeStep::Retry => !(outcome is Ready) && attempt < PROBE_ATTEMPTS,
        },
        step is Retry <==> !(outcome is Ready) && attempt < 2,
        step matches ProbeStep::Done(ok, detail) ==> ok == (outcome is Ready) && detail@ == (
        match outcome {
            ProbeOutcome::Ready => "protocol v1 ready"@,
            ProbeOutcome::NotReady => "READY not received"@,
            ProbeOutcome::Failed(cause) => cause@,
            ProbeOutcome::TimedOut => "connection timed out"@,
        }) + " (attempt "@ + decimal_text(attempt as nat) + ")"@,
{
    let ready = match &outcome {
        ProbeOutcome::Ready => true,
        _ => false,
    };
    if !ready && attempt < PROBE_ATTEMPTS {
        return ProbeStep::Retry;
    }
    let words = match &outcome {
        ProbeOutcome::Ready => "protocol v1 ready",
        ProbeOutcome::NotReady => "READY not received",
        ProbeOutcome::Failed(cause) => cause.as_str(),
        ProbeOutcome::TimedOut => "connection timed out",
    };
    let mut detail = join(words, " (attempt ");
    detail.append(to_decimal(attempt as u64).as_str());
    detail.append(")");
    ProbeStep::Done(ready, detail)
}

/// The host and the port to look up for a URL that has these: an empty name and that of HTTPS stand
/// for what is not known.
pub fn address_of(host: Option<String>, port: Option<u16>) -> (address: (String, u16))
    ensures
        address.0@ == match option_view(host) {
            Some(name) => name,
            None => ""@,
        },
        address.1 == match port {
            Some(number) => number,
            None => 443,
        },
{
    let name = match host {
        Some(name) => name,
        None => "".to_owned(),
    };
    let number: u16 = match port {
        Some(number) => number,
        None => 443,
    };
    (name, number)
}

/// The host and the port to look up for the server at a URL.
pub fn probe_address(api_url: &str) -> (address: (String, u16))
    ensures
        address.0@ == match host_of_url(api_url@) {
            Some(name) => name,
            None => ""@,
        },
        address.1 == match port_of_url(api_url@) {
            Some(number) => number,
            None => 443,
        },
{
    address_of(url_host(api_url), url_port(api_url))
}

/// Law: the self-test reports, in this order, the identity, the configuration, and with one of those
/// the server's address, how it answers and after what time, and the directory of the history; with
/// an identity too, whether the agent is known, whether it has an operator, and where it is known
/// whether the protocol works. Each check passes exactly where what it is about is well.
pub proof fn law_checks_in_order(facts: DoctorFacts)
    ensures
        ({
            let checks = all_checks(facts);
            &&& checks.len() >= 2
            &&& checks[0] == (CheckView {
                name: "identity"@,
                ok: facts.identity is Ok,
                detail: Some(
                    match facts.identity {
                        Ok(agent_id) => agent_id@,
                        Err(cause) => cause@,
                    },
                ),
                latency_ms: None,
            })
            &&& checks[1] == (CheckView {
                name: "config"@,
                ok: facts.config is Ok,
                detail: Some(
                    match facts.config {
                        Ok(server) => server.api_url@,
                        Err(cause) => cause@,
                    },
                ),
                latency_ms: None,
            })
            &&& facts.config is Err ==> checks.len() == 2
            &&& facts.config matches Ok(server) ==> {
                &&& checks.len() == match (facts.identity, server.auth) {
                    (Ok(_), Some(AuthFacts::Active { .. })) => 8nat,
                    (Ok(_), Some(AuthFacts::Refused { .. })) => 7nat,
                    _ => 5nat,
                }
                &&& checks[2] == (CheckView {
                    name: "dns"@,
                    ok: server.dns is Ok,
                    detail: Some(
                        match server.dns {
                            Ok(Some(address)) => address@,
                            Ok(None) => "no address"@,
                            Err(cause) => cause@,
                        },
                    ),
                    latency_ms: None,
                })
                &&& checks[3] == (CheckView {
                    name: "tls_http"@,
                    ok: match server.http {
                        Ok((well, _)) => well,
                        Err(_) => false,
                    },
                    detail: Some(
                        match server.http {
                            Ok((_, status)) => status@,
                            Err(cause) => cause@,
                        },
                    ),
                    latency_ms: Some(server.latency_ms),
                })
                &&& checks[4] == (CheckView {
                    name: "history_path"@,
                    ok: server.history_dir is Some && server.history_ok,
                    detail: match server.history_dir {
                        Some(path) => Some(path@),
                        None => None,
                    },
                    latency_ms: None,
                })
                &&& facts.identity is Ok ==> match server.auth {
                    Some(AuthFacts::Active { agent_id, protocol_ok, protocol }) => {
                        &&& checks[5] == (CheckView {
                            name: "auth"@,
                            ok: true,
                            detail: Some(agent_id@),
                            latency_ms: None,
                        })
                        &&& checks[6] == (CheckView {
                            name: "operator_binding"@,
                            ok: true,
                            detail: Some("active"@),
                            latency_ms: None,
                        })
                        &&& checks[7] == (CheckView {
                            name: "websocket_protocol"@,
                            ok: protocol_ok,
                            detail: Some(protocol@),
                            latency_ms: None,
                        })
                    },
                    Some(AuthFacts::Refused { error, binding }) => {
                        &&& checks[5] == (CheckView {
                            name: "auth"@,
                            ok: false,
                            detail: Some(error@),
                            latency_ms: None,
                        })
                        &&& checks[6] == (CheckView {
                            name: "operator_binding"@,
                            ok: false,
                            detail: Some(
                                match binding {
                                    Some(status) => status@,
                                    None => "operator approval required; run `aingle init`"@,
                                },
                            ),
                            latency_ms: None,
                        })
                    },
                    None => true,
                }
            }
        }),
{
}

/// Law: checks say what they hold.
pub proof fn law_checks_say_what_they_hold(checks: Seq<Check>, i: int)
    requires
        0 <= i < checks.len(),
    ensures
        ({
            let shown = check_views(checks)[i];
            &&& check_views(checks).len() == checks.len()
            &&& shown.name == checks[i].name@
            &&& shown.ok == checks[i].ok
            &&& shown.latency_ms == checks[i].latency_ms
            &&& match checks[i].detail {
                Some(text) => shown.detail == Some(text@),
                None => shown.detail is None,
            }
        }),
{
}

} // verus!
