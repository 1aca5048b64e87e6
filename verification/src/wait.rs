//! The retry loop as a state machine. The caller reads the clock, runs the
//! checks and sleeps; what happens next is decided here.

use crate::check::{check_view, CheckError, CheckErrorView};
use crate::config::Config;
use crate::output::{lines_view, unless_quiet, Line, LineView, MessageKind};
use crate::target::Target;
use crate::text::{decimal_text, join2, join3, to_decimal};
use vstd::prelude::*;
use vstd::string::StringExecFns;

verus! {

/// Seconds to sleep between two checks. The pause never grows.
pub const RETRY_INTERVAL_SECS: u64 = 1;

/// Where the loop stands.
#[derive(Debug, Clone, PartialEq, Eq)]
pub enum WaitState {
    /// Nothing has happened yet. Awaits the clock.
    Waiting,
    /// A check is due. Awaits its result.
    Checking,
    /// A pause of [`RETRY_INTERVAL_SECS`] is due. Awaits the clock after it.
    Retrying,
    /// The service is there.
    Success,
    /// The overall time limit, of so many seconds, ran out.
    TimedOut(u64),
    /// A check failed in a way that waiting does not mend.
    Failed(CheckError),
}

/// The mathematical content of a [`WaitState`].
pub enum WaitStateView {
    Waiting,
    Checking,
    Retrying,
    Success,
    TimedOut(u64),
    Failed(CheckErrorView),
}

impl View for WaitState {
    type V = WaitStateView;

    open spec fn view(&self) -> WaitStateView {
        match self {
            WaitState::Waiting => WaitStateView::Waiting,
            WaitState::Checking => WaitStateView::Checking,
            WaitState::Retrying => WaitStateView::Retrying,
            WaitState::Success => WaitStateView::Success,
            WaitState::TimedOut(seconds) => WaitStateView::TimedOut(*seconds),
            WaitState::Failed(error) => WaitStateView::Failed(error@),
        }
    }
}

/// What the caller is to do next.
#[derive(Clone, Copy, Debug, PartialEq, Eq, Structural)]
pub enum WaitAction {
    /// Read the clock and report it.
    ReadClock,
    /// Run one check and report how it ended.
    Check,
    /// Sleep for so many seconds, then read the clock and report it.
    Sleep(u64),
    /// Go on to the follow-up command.
    Proceed,
    /// End the run with the failure that the state holds.
    GiveUp,
}

/// What the caller reports back.
#[derive(Debug, PartialEq, Eq)]
pub enum WaitEvent {
    /// The clock was read: so many whole seconds have passed since the start.
    Clock(u64),
    /// A check was run and ended like this.
    Checked(Result<(), CheckError>),
}

/// The mathematical content of a [`WaitEvent`].
pub enum WaitEventView {
    Clock(u64),
    Checked(Result<(), CheckErrorView>),
}

impl View for WaitEvent {
    type V = WaitEventView;

    open spec fn view(&self) -> WaitEventView {
        match self {
            WaitEvent::Clock(elapsed) => WaitEventView::Clock(*elapsed),
            WaitEvent::Checked(result) => WaitEventView::Checked(check_view(*result)),
        }
    }
}

/// Whether the overall time limit has run out after `elapsed` seconds. Without
/// a limit it never has. A limit of whole seconds is reached exactly when the
/// whole seconds that have passed reach it, so fractions of a second need
/// not be reported.
pub open spec fn timed_out(timeout: Option<u64>, elapsed: u64) -> bool {
    match timeout {
        Some(limit) => elapsed >= limit,
        None => false,
    }
}

/// The line that opens the wait.
pub open spec fn waiting_line(label: Seq<char>) -> LineView {
    LineView {
        kind: MessageKind::Info,
        text: "Waiting for "@ + label + " to become available..."@,
    }
}

/// The line that closes a successful wait.
pub open spec fn available_line() -> LineView {
    LineView { kind: MessageKind::Success, text: "Service is available!"@ }
}

/// The line that reports a failed check.
pub open spec fn check_failed_line(error: CheckErrorView, label: Seq<char>) -> LineView {
    LineView { kind: MessageKind::Error, text: "Check failed: "@ + error.message(label) }
}

/// The line that announces the next try.
pub open spec fn retrying_line() -> LineView {
    LineView { kind: MessageKind::Warning, text: "Retrying in 1 second..."@ }
}

/// The words for a time limit of `seconds` that ran out.
pub open spec fn timeout_message(seconds: u64) -> Seq<char> {
    "Timeout waiting for service after "@ + decimal_text(seconds as nat) + " seconds"@
}

impl WaitStateView {
    /// Whether the loop is over.
    pub open spec fn is_final(self) -> bool {
        match self {
            WaitStateView::Success => true,
            WaitStateView::TimedOut(_) => true,
            WaitStateView::Failed(_) => true,
            _ => false,
        }
    }

    /// What the caller is to do in this state. The pause between two checks
    /// is the same every time.
    pub open spec fn action(self) -> WaitAction {
        match self {
            WaitStateView::Waiting => WaitAction::ReadClock,
            WaitStateView::Checking => WaitAction::Check,
            WaitStateView::Retrying => WaitAction::Sleep(RETRY_INTERVAL_SECS),
            WaitStateView::Success => WaitAction::Proceed,
            WaitStateView::TimedOut(_) => WaitAction::GiveUp,
            WaitStateView::Failed(_) => WaitAction::GiveUp,
        }
    }

    /// Whether the state awaits the event: a clock reading after
    /// [`WaitAction::ReadClock`] and [`WaitAction::Sleep`], the end of a check
    /// after [`WaitAction::Check`], and nothing once the loop is over.
    pub open spec fn awaits(self, event: WaitEventView) -> bool {
        match self.action() {
            WaitAction::ReadClock => event is Clock,
            WaitAction::Sleep(_) => event is Clock,
            WaitAction::Check => event is Checked,
            WaitAction::Proceed => false,
            WaitAction::GiveUp => false,
        }
    }

    /// The state that a reading of the clock leads to, at the start and after
    /// each pause: out of time, or on to the next check.
    pub open spec fn after_clock(timeout: Option<u64>, elapsed: u64) -> WaitStateView {
        if timed_out(timeout, elapsed) {
            WaitStateView::TimedOut(timeout->Some_0)
        } else {
            WaitStateView::Checking
        }
    }

    /// The next state. An event that the state does not await changes nothing.
    pub open spec fn step(self, event: WaitEventView, timeout: Option<u64>) -> WaitStateView {
        match (self, event) {
            (WaitStateView::Waiting, WaitEventView::Clock(elapsed)) => Self::after_clock(
                timeout,
                elapsed,
            ),
            (WaitStateView::Retrying, WaitEventView::Clock(elapsed)) => Self::after_clock(
                timeout,
                elapsed,
            ),
            (WaitStateView::Checking, WaitEventView::Checked(Ok(()))) => WaitStateView::Success,
            (WaitStateView::Checking, WaitEventView::Checked(Err(error))) => if error.recoverable() {
                WaitStateView::Retrying
            } else {
                WaitStateView::Failed(error)
            },
            _ => self,
        }
    }

    /// What a step gives to print, before quiet mode is considered.
    pub open spec fn step_lines(self, event: WaitEventView, label: Seq<char>) -> Seq<LineView> {
        match (self, event) {
            (WaitStateView::Waiting, WaitEventView::Clock(_)) => seq![waiting_line(label)],
            (WaitStateView::Checking, WaitEventView::Checked(Ok(()))) => seq![available_line()],
            (WaitStateView::Checking, WaitEventView::Checked(Err(error))) => if error.recoverable() {
                seq![check_failed_line(error, label), retrying_line()]
            } else {
                Seq::empty()
            },
            _ => Seq::empty(),
        }
    }

    /// The state after several events in a row.
    pub open spec fn run(self, events: Seq<WaitEventView>, timeout: Option<u64>) -> WaitStateView
        decreases events.len(),
    {
        if events.len() == 0 {
            self
        } else {
            self.run(events.drop_last(), timeout).step(events.last(), timeout)
        }
    }

    /// The words of the failure that ended the loop, if one did.
    pub open spec fn failure(self, label: Seq<char>) -> Option<Seq<char>> {
        match self {
            WaitStateView::TimedOut(seconds) => Some(timeout_message(seconds)),
            WaitStateView::Failed(error) => Some(error.message(label)),
            _ => None,
        }
    }
}

/// Takes in what the caller reports and says where the loop stands now and
/// what to print. In quiet mode nothing is printed.
pub fn step(state: WaitState, event: WaitEvent, config: &Config) -> (next: (WaitState, Vec<Line>))
    ensures
        next.0@ == state@.step(event@, config.timeout),
        lines_view(next.1@) == unless_quiet(
            config.quiet,
            state@.step_lines(event@, config.target@.label()),
        ),
        config.quiet ==> next.1@.len() == 0,
{
    let mut lines: Vec<Line> = Vec::new();
    match (state, event) {
        (WaitState::Waiting, WaitEvent::Clock(elapsed)) => {
            if !config.quiet {
                let label = config.target.label();
                let text = join3("Waiting for ", label.as_str(), " to become available...");
                lines.push(Line { kind: MessageKind::Info, text });
            }
            (clock_read(config.timeout, elapsed), lines)
        },
        (WaitState::Retrying, WaitEvent::Clock(elapsed)) => (
            clock_read(config.timeout, elapsed),
            lines,
        ),
        (WaitState::Checking, WaitEvent::Checked(Ok(()))) => {
            if !config.quiet {
                let text = String::from_str("Service is available!");
                lines.push(Line { kind: MessageKind::Success, text });
            }
            (WaitState::Success, lines)
        },
        (WaitState::Checking, WaitEvent::Checked(Err(error))) => {
            if error.is_recoverable() {
                if !config.quiet {
                    let message = error.message(&config.target);
                    let text = join2("Check failed: ", message.as_str());
                    lines.push(Line { kind: MessageKind::Error, text });
                    let text = String::from_str("Retrying in 1 second...");
                    lines.push(Line { kind: MessageKind::Warning, text });
                    assert(lines_view(lines@) =~= seq![
                        check_failed_line(error@, config.target@.label()),
                        retrying_line(),
                    ]);
                }
                (WaitState::Retrying, lines)
            } else {
                (WaitState::Failed(error), lines)
            }
        },
        (state, _) => (state, lines),
    }
}

/// The state that a reading of the clock leads to.
fn clock_read(timeout: Option<u64>, elapsed: u64) -> (state: WaitState)
    ensures
        state@ == WaitStateView::after_clock(timeout, elapsed),
{
    match timeout {
        Some(limit) => if elapsed >= limit {
            WaitState::TimedOut(limit)
        } else {
            WaitState::Checking
        },
        None => WaitState::Checking,
    }
}

impl WaitState {
    /// What the caller is to do in this state.
    pub fn action(&self) -> (action: WaitAction)
        ensures
            action == self@.action(),
    {
        match self {
            WaitState::Waiting => WaitAction::ReadClock,
            WaitState::Checking => WaitAction::Check,
            WaitState::Retrying => WaitAction::Sleep(RETRY_INTERVAL_SECS),
            WaitState::Success => WaitAction::Proceed,
            WaitState::TimedOut(_) => WaitAction::GiveUp,
            WaitState::Failed(_) => WaitAction::GiveUp,
        }
    }

    /// Whether the loop is over.
    pub fn is_final(&self) -> (yes: bool)
        ensures
            yes == self@.is_final(),
    {
        match self {
            WaitState::Success => true,
            WaitState::TimedOut(_) => true,
            WaitState::Failed(_) => true,
            _ => false,
        }
    }

    /// The words of the failure that ended the loop; `None` when it has not
    /// ended or ended well.
    pub fn failure_message(&self, target: &Target) -> (message: Option<String>)
        ensures
            match message {
                Some(text) => self@.failure(target@.label()) == Some(text@),
                None => self@.failure(target@.label()) is None,
            },
    {
        match self {
            WaitState::TimedOut(seconds) => {
                let numeral = to_decimal(*seconds);
                Some(join3("Timeout waiting for service after ", numeral.as_str(), " seconds"))
            },
            WaitState::Failed(error) => Some(error.message(target)),
            _ => None,
        }
    }
}

/// An event that the state does not await changes nothing and prints
/// nothing; one that it awaits leads to another state.
pub proof fn lemma_only_the_awaited_event_counts(
    state: WaitStateView,
    event: WaitEventView,
    timeout: Option<u64>,
    label: Seq<char>,
)
    ensures
        !state.awaits(event) ==> state.step(event, timeout) == state,
        !state.awaits(event) ==> state.step_lines(event, label) == Seq::<LineView>::empty(),
        state.awaits(event) ==> state.step(event, timeout) != state,
{
}

/// A loop that is over takes no further event into account and prints
/// nothing more.
pub proof fn lemma_final_state_stays(
    state: WaitStateView,
    event: WaitEventView,
    timeout: Option<u64>,
    label: Seq<char>,
)
    requires
        state.is_final(),
    ensures
        state.step(event, timeout) == state,
        state.step_lines(event, label) == Seq::<LineView>::empty(),
{
}

/// Without a time limit no sequence of events ends in a timeout.
pub proof fn lemma_unbounded_never_times_out(events: Seq<WaitEventView>)
    ensures
        !(WaitStateView::Waiting.run(events, None) is TimedOut),
    decreases events.len(),
{
    if events.len() > 0 {
        lemma_unbounded_never_times_out(events.drop_last());
    }
}

/// The loop times out only at the start or after a pause, on a clock that
/// shows the limit or more, and the state then holds the limit.
pub proof fn lemma_timeout_is_by_the_clock(
    state: WaitStateView,
    event: WaitEventView,
    timeout: Option<u64>,
)
    requires
        !(state is TimedOut),
        state.step(event, timeout) is TimedOut,
    ensures
        state is Waiting || state is Retrying,
        event is Clock,
        timeout is Some,
        event->Clock_0 >= timeout->Some_0,
        state.step(event, timeout) == WaitStateView::TimedOut(timeout->Some_0),
{
}

/// A check becomes due only at the start or after a pause, on a clock that
/// shows less than the limit.
pub proof fn lemma_check_follows_the_clock(
    state: WaitStateView,
    event: WaitEventView,
    timeout: Option<u64>,
)
    requires
        !(state is Checking),
        state.step(event, timeout) is Checking,
    ensures
        state is Waiting || state is Retrying,
        event is Clock,
        !timed_out(timeout, event->Clock_0),
{
}

/// The loop ends well only through a check that succeeded.
pub proof fn lemma_success_is_by_a_check(
    state: WaitStateView,
    event: WaitEventView,
    timeout: Option<u64>,
)
    requires
        !(state is Success),
        state.step(event, timeout) is Success,
    ensures
        state is Checking,
        event is Checked,
        event->Checked_0 is Ok,
{
}

/// The events of rounds that all fail: in each, the clock is read and the
/// check that follows ends with an error.
pub open spec fn failing_rounds(rounds: Seq<(u64, CheckErrorView)>) -> Seq<WaitEventView>
    decreases rounds.len(),
{
    if rounds.len() == 0 {
        Seq::empty()
    } else {
        failing_rounds(rounds.drop_last()).push(WaitEventView::Clock(rounds.last().0)).push(
            WaitEventView::Checked(Err(rounds.last().1)),
        )
    }
}

/// Whether every round reads a clock under the limit and fails in a way that
/// waiting may mend.
pub open spec fn all_retried(rounds: Seq<(u64, CheckErrorView)>, timeout: Option<u64>) -> bool {
    forall|i: int|
        0 <= i < rounds.len() ==> !timed_out(timeout, (#[trigger] rounds[i]).0)
            && rounds[i].1.recoverable()
}

/// Running over one more event is one more step.
pub proof fn lemma_run_push(
    state: WaitStateView,
    events: Seq<WaitEventView>,
    event: WaitEventView,
    timeout: Option<u64>,
)
    ensures
        state.run(events.push(event), timeout) == state.run(events, timeout).step(event, timeout),
{
    assert(events.push(event).drop_last() =~= events);
}

/// The loop goes on for as many rounds as fail within the time limit: after
/// any number of them, one or more, it is pausing before the next.
pub proof fn lemma_failing_rounds_are_retried(
    rounds: Seq<(u64, CheckErrorView)>,
    timeout: Option<u64>,
)
    requires
        all_retried(rounds, timeout),
    ensures
        WaitStateView::Waiting.run(failing_rounds(rounds), timeout) == if rounds.len() == 0 {
            WaitStateView::Waiting
        } else {
            WaitStateView::Retrying
        },
    decreases rounds.len(),
{
    if rounds.len() > 0 {
        let before = rounds.drop_last();
        let clock = WaitEventView::Clock(rounds.last().0);
        let checked = WaitEventView::Checked(Err(rounds.last().1));
        assert(all_retried(before, timeout)) by {
            assert forall|i: int| 0 <= i < before.len() implies !timed_out(
                timeout,
                (#[trigger] before[i]).0,
            ) && before[i].1.recoverable() by {
                assert(before[i] == rounds[i]);
            }
        }
        lemma_failing_rounds_are_retried(before, timeout);
        lemma_run_push(WaitStateView::Waiting, failing_rounds(before), clock, timeout);
        lemma_run_push(
            WaitStateView::Waiting,
            failing_rounds(before).push(clock),
            checked,
            timeout,
        );
    }
}

/// However many rounds have failed, the first check that succeeds within the
/// time limit ends the loop well.
pub proof fn lemma_wait_ends_with_first_success(
    rounds: Seq<(u64, CheckErrorView)>,
    elapsed: u64,
    timeout: Option<u64>,
)
    requires
        all_retried(rounds, timeout),
        !timed_out(timeout, elapsed),
    ensures
        WaitStateView::Waiting.run(
            failing_rounds(rounds).push(WaitEventView::Clock(elapsed)).push(
                WaitEventView::Checked(Ok(())),
            ),
            timeout,
        ) == WaitStateView::Success,
{
    let clock = WaitEventView::Clock(elapsed);
    lemma_failing_rounds_are_retried(rounds, timeout);
    lemma_run_push(WaitStateView::Waiting, failing_rounds(rounds), clock, timeout);
    lemma_run_push(
        WaitStateView::Waiting,
        failing_rounds(rounds).push(clock),
        WaitEventView::Checked(Ok(())),
        timeout,
    );
}

/// However many rounds have failed, the first clock reading at or past the
/// limit ends the loop with a timeout that holds the limit.
pub proof fn lemma_wait_ends_with_timeout(
    rounds: Seq<(u64, CheckErrorView)>,
    elapsed: u64,
    timeout: Option<u64>,
)
    requires
        all_retried(rounds, timeout),
        timed_out(timeout, elapsed),
    ensures
        WaitStateView::Waiting.run(
            failing_rounds(rounds).push(WaitEventView::Clock(elapsed)),
            timeout,
        ) == WaitStateView::TimedOut(timeout->Some_0),
{
    lemma_failing_rounds_are_retried(rounds, timeout);
    lemma_run_push(
        WaitStateView::Waiting,
        failing_rounds(rounds),
        WaitEventView::Clock(elapsed),
        timeout,
    );
}

} // verus!
