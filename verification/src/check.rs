//! The two availability checks, as far as they can be decided without
//! touching the network: which address a TCP probe tries next and how it
//! ends, and what an HTTP reply means.

use crate::output::{lines_view, unless_quiet, Line, LineView, MessageKind};
use crate::target::{Target, TargetView};
use crate::text::{join2, join3, texts};
use vstd::prelude::*;
use vstd::string::StringExecFns;

verus! {

/// Seconds allowed for one TCP connection attempt.
pub const TCP_CONNECT_TIMEOUT_SECS: u64 = 1;

/// Seconds allowed for one HTTP request.
pub const HTTP_TIMEOUT_SECS: u64 = 2;

/// How a target is checked.
#[derive(Debug, Clone, PartialEq, Eq)]
pub enum CheckPlan {
    /// Resolve the host and try to connect to its addresses in turn, each
    /// attempt limited to so many seconds.
    Tcp { host: String, port: u16, connect_timeout_secs: u64 },
    /// Send one GET request, limited to so many seconds.
    Http { url: String, timeout_secs: u64 },
}

/// The mathematical content of a [`CheckPlan`].
pub enum CheckPlanView {
    Tcp { host: Seq<char>, port: u16, connect_timeout_secs: u64 },
    Http { url: Seq<char>, timeout_secs: u64 },
}

impl View for CheckPlan {
    type V = CheckPlanView;

    open spec fn view(&self) -> CheckPlanView {
        match self {
            CheckPlan::Tcp { host, port, connect_timeout_secs } => CheckPlanView::Tcp {
                host: host@,
                port: *port,
                connect_timeout_secs: *connect_timeout_secs,
            },
            CheckPlan::Http { url, timeout_secs } => CheckPlanView::Http {
                url: url@,
                timeout_secs: *timeout_secs,
            },
        }
    }
}

/// The check that a target calls for: TCP connections for a host and port,
/// an HTTP request for a URL, each with its own fixed time limit.
pub open spec fn plan_of(target: TargetView) -> CheckPlanView {
    match target {
        TargetView::HostPort(host, port) => CheckPlanView::Tcp {
            host,
            port,
            connect_timeout_secs: TCP_CONNECT_TIMEOUT_SECS,
        },
        TargetView::Url(url) => CheckPlanView::Http { url, timeout_secs: HTTP_TIMEOUT_SECS },
    }
}

/// The check that a target calls for.
pub fn check_plan(target: &Target) -> (plan: CheckPlan)
    ensures
        plan@ == plan_of(target@),
{
    match target {
        Target::HostPort(host, port) => CheckPlan::Tcp {
            host: String::from_str(host.as_str()),
            port: *port,
            connect_timeout_secs: TCP_CONNECT_TIMEOUT_SECS,
        },
        Target::Url(url) => CheckPlan::Http {
            url: String::from_str(url.as_str()),
            timeout_secs: HTTP_TIMEOUT_SECS,
        },
    }
}

/// Why one availability check failed.
#[derive(Debug, Clone, PartialEq, Eq)]
pub enum CheckError {
    /// The host name could not be resolved.
    ResolutionFailed,
    /// Resolution gave no address at all.
    NoAddresses,
    /// No address accepted a connection; holds the reason given for each
    /// address, in the order tried.
    ConnectFailed(Vec<String>),
    /// The HTTP request got no reply.
    RequestFailed,
    /// The reply's status is outside 200 to 299; holds the status code and the
    /// status as the client prints it.
    HttpStatusFailed(u16, String),
}

/// The mathematical content of a [`CheckError`].
pub enum CheckErrorView {
    ResolutionFailed,
    NoAddresses,
    ConnectFailed(Seq<Seq<char>>),
    RequestFailed,
    HttpStatusFailed(u16, Seq<char>),
}

impl View for CheckError {
    type V = CheckErrorView;

    open spec fn view(&self) -> CheckErrorView {
        match self {
            CheckError::ResolutionFailed => CheckErrorView::ResolutionFailed,
            CheckError::NoAddresses => CheckErrorView::NoAddresses,
            CheckError::ConnectFailed(reasons) => CheckErrorView::ConnectFailed(texts(reasons@)),
            CheckError::RequestFailed => CheckErrorView::RequestFailed,
            CheckError::HttpStatusFailed(code, status) => CheckErrorView::HttpStatusFailed(
                *code,
                status@,
            ),
        }
    }
}

/// The content of a check's result, on either side.
pub open spec fn check_view(r: Result<(), CheckError>) -> Result<(), CheckErrorView> {
    match r {
        Ok(()) => Ok(()),
        Err(error) => Err(error@),
    }
}

impl CheckErrorView {
    /// Whether waiting goes on after this failure. A refused connection, a
    /// request without reply and an unwelcome status may all pass with time;
    /// a name that does not resolve ends the wait.
    pub open spec fn recoverable(self) -> bool {
        match self {
            CheckErrorView::ConnectFailed(_) => true,
            CheckErrorView::RequestFailed => true,
            CheckErrorView::HttpStatusFailed(_, _) => true,
            CheckErrorView::ResolutionFailed => false,
            CheckErrorView::NoAddresses => false,
        }
    }

    /// The failure in words, for a target named `label`.
    pub open spec fn message(self, label: Seq<char>) -> Seq<char> {
        match self {
            CheckErrorView::ResolutionFailed => "Failed to resolve address: "@ + label,
            CheckErrorView::NoAddresses => "No addresses found for "@ + label,
            CheckErrorView::ConnectFailed(_) => "Failed to connect to "@ + label,
            CheckErrorView::RequestFailed => "Failed to send HTTP request to "@ + label,
            CheckErrorView::HttpStatusFailed(_, status) => "HTTP request to "@ + label
                + " failed with status: "@ + status,
        }
    }
}

impl CheckError {
    /// Whether waiting goes on after this failure.
    pub fn is_recoverable(&self) -> (yes: bool)
        ensures
            yes == self@.recoverable(),
    {
        match self {
            CheckError::ConnectFailed(_) => true,
            CheckError::RequestFailed => true,
            CheckError::HttpStatusFailed(_, _) => true,
            CheckError::ResolutionFailed => false,
            CheckError::NoAddresses => false,
        }
    }

    /// The failure in words.
    pub fn message(&self, target: &Target) -> (text: String)
        ensures
            text@ == self@.message(target@.label()),
    {
        let label = target.label();
        match self {
            CheckError::ResolutionFailed => join2("Failed to resolve address: ", label.as_str()),
            CheckError::NoAddresses => join2("No addresses found for ", label.as_str()),
            CheckError::ConnectFailed(_) => join2("Failed to connect to ", label.as_str()),
            CheckError::RequestFailed => join2("Failed to send HTTP request to ", label.as_str()),
            CheckError::HttpStatusFailed(_, status) => {
                let mut text = join3("HTTP request to ", label.as_str(), " failed with status: ");
                text.append(status.as_str());
                text
            },
        }
    }
}

/// One connection attempt that failed: the address tried and the reason, both
/// as they are to be printed.
#[derive(Debug, Clone, PartialEq, Eq)]
pub struct AttemptFailure {
    pub address: String,
    pub reason: String,
}

/// The mathematical content of an [`AttemptFailure`].
pub struct AttemptFailureView {
    pub address: Seq<char>,
    pub reason: Seq<char>,
}

impl View for AttemptFailure {
    type V = AttemptFailureView;

    open spec fn view(&self) -> AttemptFailureView {
        AttemptFailureView { address: self.address@, reason: self.reason@ }
    }
}

/// The content of an attempt's outcome, on either side.
pub open spec fn attempt_view(outcome: Result<(), AttemptFailure>) -> Result<
    (),
    AttemptFailureView,
> {
    match outcome {
        Ok(()) => Ok(()),
        Err(failure) => Err(failure@),
    }
}

/// Where a TCP probe stands.
#[derive(Debug, Clone, PartialEq, Eq)]
pub enum TcpState {
    /// Address number `failures.len()` of `total` is to be tried next; the
    /// addresses before it have failed for the reasons held.
    Connecting { total: usize, failures: Vec<String> },
    /// An address accepted the connection.
    Connected,
    /// The probe is over without a connection.
    Failed(CheckError),
}

/// The mathematical content of a [`TcpState`].
pub enum TcpStateView {
    Connecting { total: nat, failures: Seq<Seq<char>> },
    Connected,
    Failed(CheckErrorView),
}

impl View for TcpState {
    type V = TcpStateView;

    open spec fn view(&self) -> TcpStateView {
        match self {
            TcpState::Connecting { total, failures } => TcpStateView::Connecting {
                total: *total as nat,
                failures: texts(failures@),
            },
            TcpState::Connected => TcpStateView::Connected,
            TcpState::Failed(error) => TcpStateView::Failed(error@),
        }
    }
}

/// The line that reports a connection.
pub open spec fn connected_line(label: Seq<char>) -> LineView {
    LineView { kind: MessageKind::Success, text: "Connection to "@ + label + " succeeded"@ }
}

/// The line that reports one failed attempt.
pub open spec fn attempt_failed_line(failure: AttemptFailureView) -> LineView {
    LineView {
        kind: MessageKind::Error,
        text: "Connection to "@ + failure.address + " failed: "@ + failure.reason,
    }
}

impl TcpStateView {
    /// The state after resolution: failed when the name did not resolve or
    /// resolved to nothing, else about to try the first of `count` addresses.
    pub open spec fn start(resolved: Option<usize>) -> TcpStateView {
        match resolved {
            None => TcpStateView::Failed(CheckErrorView::ResolutionFailed),
            Some(count) => if count == 0 {
                TcpStateView::Failed(CheckErrorView::NoAddresses)
            } else {
                TcpStateView::Connecting { total: count as nat, failures: Seq::empty() }
            },
        }
    }

    /// The state of a probe of `total` addresses before its first attempt.
    pub open spec fn fresh(total: nat) -> TcpStateView {
        TcpStateView::Connecting { total, failures: Seq::empty() }
    }

    /// The state of a probe of `total` addresses whose attempts so far have
    /// failed for the given reasons.
    pub open spec fn connecting(total: nat, failures: Seq<Seq<char>>) -> TcpStateView {
        TcpStateView::Connecting { total, failures }
    }

    /// Whether the state is one that a probe can be in: while it is
    /// connecting, at least one address is still untried.
    pub open spec fn well_formed(self) -> bool {
        match self {
            TcpStateView::Connecting { total, failures } => failures.len() < total,
            _ => true,
        }
    }

    /// The address to try next, counted from zero in resolution order.
    pub open spec fn pending(self) -> Option<nat> {
        match self {
            TcpStateView::Connecting { total, failures } => Some(failures.len()),
            _ => None,
        }
    }

    /// How the probe ended, once it has.
    pub open spec fn result(self) -> Option<Result<(), CheckErrorView>> {
        match self {
            TcpStateView::Connecting { .. } => None,
            TcpStateView::Connected => Some(Ok(())),
            TcpStateView::Failed(error) => Some(Err(error)),
        }
    }

    /// The state after one attempt. The first connection ends the probe with
    /// success; a failure is noted and, once every address has failed, ends
    /// it without. A probe that has ended stays as it is.
    pub open spec fn step(self, outcome: Result<(), AttemptFailureView>) -> TcpStateView {
        match self {
            TcpStateView::Connecting { total, failures } => match outcome {
                Ok(()) => TcpStateView::Connected,
                Err(failure) => {
                    let failures = failures.push(failure.reason);
                    if failures.len() >= total {
                        TcpStateView::Failed(CheckErrorView::ConnectFailed(failures))
                    } else {
                        TcpStateView::Connecting { total, failures }
                    }
                },
            },
            _ => self,
        }
    }

    /// What one attempt gives to print, before quiet mode is considered.
    pub open spec fn step_lines(
        self,
        outcome: Result<(), AttemptFailureView>,
        label: Seq<char>,
    ) -> Seq<LineView> {
        match self {
            TcpStateView::Connecting { .. } => match outcome {
                Ok(()) => seq![connected_line(label)],
                Err(failure) => seq![attempt_failed_line(failure)],
            },
            _ => Seq::empty(),
        }
    }

    /// The state after several attempts in a row.
    pub open spec fn run(self, outcomes: Seq<Result<(), AttemptFailureView>>) -> TcpStateView
        decreases outcomes.len(),
    {
        if outcomes.len() == 0 {
            self
        } else {
            self.run(outcomes.drop_last()).step(outcomes.last())
        }
    }
}

/// Begins a TCP probe from what resolution gave: `None` when it failed, else
/// the number of addresses.
pub fn tcp_start(resolved: Option<usize>) -> (state: TcpState)
    ensures
        state@ == TcpStateView::start(resolved),
        state@.well_formed(),
{
    match resolved {
        None => TcpState::Failed(CheckError::ResolutionFailed),
        Some(count) => if count == 0 {
            TcpState::Failed(CheckError::NoAddresses)
        } else {
            let state = TcpState::Connecting { total: count, failures: Vec::new() };
            assert(state@ == TcpStateView::start(resolved)) by {
                assert(texts(Seq::<String>::empty()) =~= Seq::<Seq<char>>::empty());
            }
            state
        },
    }
}

impl TcpState {
    /// The address to try next, counted from zero in resolution order; `None`
    /// once the probe has ended.
    pub fn pending(&self) -> (index: Option<usize>)
        ensures
            match index {
                Some(i) => self@.pending() == Some(i as nat),
                None => self@.pending() is None,
            },
            self@.well_formed() && self@ is Connecting ==> index->Some_0 < self@->total,
    {
        match self {
            TcpState::Connecting { total, failures } => Some(failures.len()),
            _ => None,
        }
    }

    /// How the probe ended; `None` while an attempt is still due.
    pub fn result(self) -> (result: Option<Result<(), CheckError>>)
        ensures
            match result {
                Some(r) => self@.result() == Some(check_view(r)),
                None => self@.result() is None,
            },
    {
        match self {
            TcpState::Connecting { .. } => None,
            TcpState::Connected => Some(Ok(())),
            TcpState::Failed(error) => Some(Err(error)),
        }
    }
}

/// Takes in the outcome of the attempt that was due and says where the probe
/// stands now and what to print.
pub fn tcp_step(
    state: TcpState,
    outcome: Result<(), AttemptFailure>,
    target: &Target,
    quiet: bool,
) -> (next: (TcpState, Vec<Line>))
    ensures
        next.0@ == state@.step(attempt_view(outcome)),
        state@.well_formed() ==> next.0@.well_formed(),
        lines_view(next.1@) == unless_quiet(
            quiet,
            state@.step_lines(attempt_view(outcome), target@.label()),
        ),
        quiet ==> next.1@.len() == 0,
{
    let mut lines: Vec<Line> = Vec::new();
    match state {
        TcpState::Connecting { total, failures } => match outcome {
            Ok(()) => {
                if !quiet {
                    let label = target.label();
                    let text = join3("Connection to ", label.as_str(), " succeeded");
                    lines.push(Line { kind: MessageKind::Success, text });
                }
                (TcpState::Connected, lines)
            },
            Err(failure) => {
                if !quiet {
                    let mut text = join3("Connection to ", failure.address.as_str(), " failed: ");
                    text.append(failure.reason.as_str());
                    lines.push(Line { kind: MessageKind::Error, text });
                }
                let mut failures = failures;
                let ghost before = failures@;
                failures.push(failure.reason);
                assert(texts(failures@) =~= texts(before).push(failure@.reason));
                if failures.len() >= total {
                    (TcpState::Failed(CheckError::ConnectFailed(failures)), lines)
                } else {
                    (TcpState::Connecting { total, failures }, lines)
                }
            },
        },
        TcpState::Connected => (TcpState::Connected, lines),
        TcpState::Failed(error) => (TcpState::Failed(error), lines),
    }
}

/// Whether every one of the attempts failed.
pub open spec fn all_failed(outcomes: Seq<Result<(), AttemptFailureView>>) -> bool {
    forall|i: int| 0 <= i < outcomes.len() ==> (#[trigger] outcomes[i]) is Err
}

/// The reasons of failed attempts, in the order of the attempts.
pub open spec fn reasons_of(outcomes: Seq<Result<(), AttemptFailureView>>) -> Seq<Seq<char>> {
    outcomes.map_values(|outcome: Result<(), AttemptFailureView>| outcome->Err_0.reason)
}

/// A probe that has ended takes no further outcome into account and prints
/// nothing more.
pub proof fn lemma_tcp_ended_stays(
    state: TcpStateView,
    outcome: Result<(), AttemptFailureView>,
    label: Seq<char>,
)
    requires
        state.result() is Some,
    ensures
        state.step(outcome) == state,
        state.step_lines(outcome, label) == Seq::<LineView>::empty(),
{
}

/// While attempts fail and addresses are left, the probe goes through the
/// addresses in resolution order: after `k` failures it is address `k` that
/// is tried next.
pub proof fn lemma_tcp_tries_in_order(total: nat, outcomes: Seq<Result<(), AttemptFailureView>>)
    requires
        outcomes.len() < total,
        all_failed(outcomes),
    ensures
        TcpStateView::fresh(total).run(outcomes) == TcpStateView::connecting(
            total,
            reasons_of(outcomes),
        ),
        TcpStateView::fresh(total).run(outcomes).pending() == Some(outcomes.len()),
    decreases outcomes.len(),
{
    if outcomes.len() == 0 {
        assert(reasons_of(outcomes) =~= Seq::<Seq<char>>::empty());
    } else {
        let before = outcomes.drop_last();
        lemma_tcp_tries_in_order(total, before);
        assert(reasons_of(before).push(outcomes.last()->Err_0.reason) =~= reasons_of(outcomes));
    }
}

/// The first address that accepts a connection ends the probe with success.
pub proof fn lemma_tcp_first_success_wins(
    total: nat,
    outcomes: Seq<Result<(), AttemptFailureView>>,
)
    requires
        0 < outcomes.len() <= total,
        all_failed(outcomes.drop_last()),
        outcomes.last() is Ok,
    ensures
        TcpStateView::fresh(total).run(outcomes) == TcpStateView::Connected,
{
    lemma_tcp_tries_in_order(total, outcomes.drop_last());
}

/// When every address has failed, the probe ends with `ConnectFailed`, which
/// holds the reasons of all attempts in their order.
pub proof fn lemma_tcp_all_fail(total: nat, outcomes: Seq<Result<(), AttemptFailureView>>)
    requires
        0 < total == outcomes.len(),
        all_failed(outcomes),
    ensures
        TcpStateView::fresh(total).run(outcomes) == TcpStateView::Failed(
            CheckErrorView::ConnectFailed(reasons_of(outcomes)),
        ),
{
    let before = outcomes.drop_last();
    lemma_tcp_tries_in_order(total, before);
    assert(reasons_of(before).push(outcomes.last()->Err_0.reason) =~= reasons_of(outcomes));
}

/// The status line of an HTTP reply.
#[derive(Debug, Clone, PartialEq, Eq)]
pub struct HttpReply {
    /// The status code.
    pub code: u16,
    /// The status as the client prints it, such as `200 OK`.
    pub status: String,
}

/// The mathematical content of an [`HttpReply`].
pub struct HttpReplyView {
    pub code: u16,
    pub status: Seq<char>,
}

impl View for HttpReply {
    type V = HttpReplyView;

    open spec fn view(&self) -> HttpReplyView {
        HttpReplyView { code: self.code, status: self.status@ }
    }
}

/// The content of what a request came back with: a reply, or none.
pub open spec fn reply_view(reply: Option<HttpReply>) -> Option<HttpReplyView> {
    match reply {
        Some(reply) => Some(reply@),
        None => None,
    }
}

/// Whether a status code stands for success: 200 to 299.
pub open spec fn is_success_code(code: u16) -> bool {
    200 <= code < 300
}

/// What an HTTP request means for availability: no reply is a failed
/// request, a reply counts by its status code alone.
pub open spec fn http_result_of(reply: Option<HttpReplyView>) -> Result<(), CheckErrorView> {
    match reply {
        None => Err(CheckErrorView::RequestFailed),
        Some(reply) => if is_success_code(reply.code) {
            Ok(())
        } else {
            Err(CheckErrorView::HttpStatusFailed(reply.code, reply.status))
        },
    }
}

/// The line that reports a successful request.
pub open spec fn request_succeeded_line(label: Seq<char>, status: Seq<char>) -> LineView {
    LineView {
        kind: MessageKind::Success,
        text: "HTTP request to "@ + label + " succeeded (status: "@ + status + ")"@,
    }
}

/// What an HTTP request gives to print, before quiet mode is considered: one
/// line on success, nothing on failure.
pub open spec fn http_lines_of(reply: Option<HttpReplyView>, label: Seq<char>) -> Seq<LineView> {
    match reply {
        Some(reply) if is_success_code(reply.code) => seq![
            request_succeeded_line(label, reply.status),
        ],
        _ => Seq::empty(),
    }
}

/// Whether a status code stands for success.
pub fn is_success_status(code: u16) -> (yes: bool)
    ensures
        yes == is_success_code(code),
{
    200 <= code && code < 300
}

/// Judges one HTTP request by what came back, `None` standing for a request
/// that got no reply, and says what to print.
pub fn http_verdict(reply: Option<HttpReply>, target: &Target, quiet: bool) -> (verdict: (
    Result<(), CheckError>,
    Vec<Line>,
))
    ensures
        check_view(verdict.0) == http_result_of(reply_view(reply)),
        lines_view(verdict.1@) == unless_quiet(
            quiet,
            http_lines_of(reply_view(reply), target@.label()),
        ),
        quiet ==> verdict.1@.len() == 0,
{
    let mut lines: Vec<Line> = Vec::new();
    match reply {
        None => (Err(CheckError::RequestFailed), lines),
        Some(reply) => if is_success_status(reply.code) {
            if !quiet {
                let label = target.label();
                let mut text = join3("HTTP request to ", label.as_str(), " succeeded (status: ");
                text.append(reply.status.as_str());
                text.append(")");
                lines.push(Line { kind: MessageKind::Success, text });
                assert(lines_view(lines@) =~= seq![
                    request_succeeded_line(target@.label(), reply@.status),
                ]);
            }
            (Ok(()), lines)
        } else {
            (Err(CheckError::HttpStatusFailed(reply.code, reply.status)), lines)
        },
    }
}

} // verus!
