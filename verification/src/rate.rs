//! Rolling throughput: the windowed rates of one reporter tick and the
//! summary line that shows them.

use crate::history::after_record;
use crate::history::snapshot_ago;
use crate::history::unrecorded;
use crate::history::RateHistory;
use crate::history::HISTORY_SLOTS;
use crate::text::decimal;
use crate::text::push_decimal;
use ansi_term::Colour;
use vstd::prelude::*;
use vstd::string::StringExecFns;

verus! {

/// Seconds between two reporter ticks.
pub const REPORT_PERIOD_SECS: u64 = 60;

/// The throughput over one window.
#[derive(Clone, Copy, Debug, PartialEq, Eq, Structural)]
pub enum ProofRate {
    /// No rate can be shown: the window has not been observed in full, or
    /// the counter did not grow over it.
    Unavailable,
    /// `attempts` proving attempts were completed in `seconds` seconds; the
    /// rate is their quotient, in attempts per second.
    PerSecond { attempts: u32, seconds: u64 },
}

/// The rate over a window of `interval` minutes, from the counter value
/// `now` and the snapshot `past` taken that long ago, which is `None`
/// where no snapshot was taken then. There is a rate exactly when the
/// window has a length, was observed from its beginning, and the counter
/// has grown over it.
pub open spec fn rate_of(now: u32, past: Option<u32>, interval: u32) -> ProofRate {
    match past {
        Some(before) => if interval < 1 || now <= before {
            ProofRate::Unavailable
        } else {
            ProofRate::PerSecond {
                attempts: (now - before) as u32,
                seconds: (interval * 60) as u64,
            }
        },
        None => ProofRate::Unavailable,
    }
}

/// Computes the rate over a window of `interval` minutes.
pub fn calculate_proof_rate(now: u32, past: Option<u32>, interval: u32) -> (rate: ProofRate)
    ensures
        rate == rate_of(now, past, interval),
{
    if interval < 1 {
        return ProofRate::Unavailable;
    }
    match past {
        Some(before) => {
            if now <= before {
                return ProofRate::Unavailable;
            }
            let minutes: u64 = interval.into();
            ProofRate::PerSecond { attempts: now - before, seconds: minutes * 60 }
        },
        None => ProofRate::Unavailable,
    }
}

/// What one reporter tick shows: the counter's value and the rates over the
/// last 1, 5, 15, 30 and 60 minutes.
#[derive(Clone, Copy, Debug, PartialEq, Eq, Structural)]
pub struct RateReport {
    pub total: u32,
    pub m1: ProofRate,
    pub m5: ProofRate,
    pub m15: ProofRate,
    pub m30: ProofRate,
    pub m60: ProofRate,
}

/// The report of a tick that reads `current` from the counter while the
/// history holds `entries`.
pub open spec fn report_of(entries: Seq<Option<u32>>, current: u32) -> RateReport {
    RateReport {
        total: current,
        m1: rate_of(current, snapshot_ago(entries, 1), 1),
        m5: rate_of(current, snapshot_ago(entries, 5), 5),
        m15: rate_of(current, snapshot_ago(entries, 15), 15),
        m30: rate_of(current, snapshot_ago(entries, 30), 30),
        m60: rate_of(current, snapshot_ago(entries, 60), 60),
    }
}

/// The marker shown in place of a rate that is not available.
pub open spec fn placeholder() -> Seq<char> {
    "---"@
}

/// The text of one window: the marker where no rate is available, else the
/// numeral that stands for the rate.
pub open spec fn rate_text_of(rate: ProofRate, numeral: Seq<char>) -> Seq<char> {
    match rate {
        ProofRate::Unavailable => placeholder(),
        ProofRate::PerSecond { .. } => numeral,
    }
}

/// The summary line of `report`, with `n1` to `n60` as the numerals of the
/// windows that have a rate.
pub open spec fn line_of(
    report: RateReport,
    n1: Seq<char>,
    n5: Seq<char>,
    n15: Seq<char>,
    n30: Seq<char>,
    n60: Seq<char>,
) -> Seq<char> {
    "Total proofs: "@ + decimal(report.total as nat) + " (1m: "@ + rate_text_of(report.m1, n1)
        + " p/s, 5m: "@ + rate_text_of(report.m5, n5) + " p/s, 15m: "@ + rate_text_of(
        report.m15,
        n15,
    ) + " p/s, 30m: "@ + rate_text_of(report.m30, n30) + " p/s, 60m: "@ + rate_text_of(
        report.m60,
        n60,
    ) + " p/s)"@
}

/// `text` as a terminal shows it in cyan: after the escape sequence that
/// sets the foreground colour to cyan and before the one that resets all
/// styles.
pub open spec fn cyan_of(text: Seq<char>) -> Seq<char> {
    "\x1B[36m"@ + text + "\x1B[0m"@
}

/// `Colour::normal` of cyan, `Style::paint` with it, and `to_string` of the
/// painted text: the style's prefix, which for a plain foreground colour is
/// the escape sequence of that colour, then the text unchanged, then the
/// reset sequence.
#[verifier::external_body]
fn paint_cyan(text: &str) -> (painted: String)
    ensures
        painted@ == cyan_of(text@),
{
    Colour::Cyan.normal().paint(text).to_string()
}

/// The text of one window, borrowed from the marker or from `numeral`.
pub fn rate_text<'a>(rate: ProofRate, numeral: &'a str) -> (text: &'a str)
    ensures
        text@ == rate_text_of(rate, numeral@),
{
    match rate {
        ProofRate::Unavailable => "---",
        ProofRate::PerSecond { .. } => numeral,
    }
}

impl RateReport {
    /// The summary line of this report. A rate is a quotient and its
    /// numeral is rendered by the caller; `n1` to `n60` are those numerals
    /// and are read only for the windows that have a rate.
    pub fn line(&self, n1: &str, n5: &str, n15: &str, n30: &str, n60: &str) -> (line: String)
        ensures
            line@ == line_of(*self, n1@, n5@, n15@, n30@, n60@),
    {
        let mut line = String::from_str("Total proofs: ");
        push_decimal(&mut line, self.total.into());
        line.append(" (1m: ");
        line.append(rate_text(self.m1, n1));
        line.append(" p/s, 5m: ");
        line.append(rate_text(self.m5, n5));
        line.append(" p/s, 15m: ");
        line.append(rate_text(self.m15, n15));
        line.append(" p/s, 30m: ");
        line.append(rate_text(self.m30, n30));
        line.append(" p/s, 60m: ");
        line.append(rate_text(self.m60, n60));
        line.append(" p/s)");
        line
    }

    /// The summary line as it is printed: in cyan.
    pub fn painted_line(&self, n1: &str, n5: &str, n15: &str, n30: &str, n60: &str) -> (line: String)
        ensures
            line@ == cyan_of(line_of(*self, n1@, n5@, n15@, n30@, n60@)),
    {
        let line = self.line(n1, n5, n15, n30, n60);
        paint_cyan(line.as_str())
    }
}

/// The periodic task's state: the history of the snapshots it has taken.
pub struct RateReporter {
    history: RateHistory,
}

impl RateReporter {
    /// The snapshots of the last sixty ticks, oldest first.
    pub closed spec fn snapshots(&self) -> Seq<Option<u32>> {
        self.history@
    }

    /// The reporter always holds a full history.
    pub closed spec fn wf(&self) -> bool {
        self.history.wf()
    }

    /// A reporter that has not ticked yet.
    pub fn new() -> (reporter: Self)
        ensures
            reporter.wf(),
            reporter.snapshots() == history_after(Seq::empty()),
    {
        RateReporter { history: RateHistory::new() }
    }

    /// One tick: compares `current`, the counter's value now, with the
    /// snapshots of 1, 5, 15, 30 and 60 ticks ago, then records it.
    pub fn tick(&mut self, current: u32) -> (report: RateReport)
        requires
            old(self).wf(),
        ensures
            final(self).wf(),
            report == report_of(old(self).snapshots(), current),
            final(self).snapshots() == after_record(old(self).snapshots(), current),
    {
        let report = RateReport {
            total: current,
            m1: calculate_proof_rate(current, self.history.ago(1), 1),
            m5: calculate_proof_rate(current, self.history.ago(5), 5),
            m15: calculate_proof_rate(current, self.history.ago(15), 15),
            m30: calculate_proof_rate(current, self.history.ago(30), 30),
            m60: calculate_proof_rate(current, self.history.ago(60), 60),
        };
        self.history.record(current);
        report
    }
}

/// The history of a reporter that has recorded `values`, one per tick and
/// in that order, since it was made.
pub open spec fn history_after(values: Seq<u32>) -> Seq<Option<u32>>
    decreases values.len(),
{
    if values.len() == 0 {
        unrecorded()
    } else {
        after_record(history_after(values.drop_last()), values.last())
    }
}

/// The rate that the tick after the ticks `values` shows for the window of
/// `minutes` minutes, when it reads `current` from the counter.
pub open spec fn window_rate(values: Seq<u32>, current: u32, minutes: int) -> ProofRate {
    rate_of(current, snapshot_ago(history_after(values), minutes), minutes as u32)
}

/// The marker is three hyphens.
pub proof fn lemma_placeholder()
    ensures
        placeholder() == seq!['-', '-', '-'],
{
    reveal_strlit("---");
    assert(placeholder() =~= seq!['-', '-', '-']);
}

/// A history holds sixty entries: the values of the last sixty ticks at
/// its end, in their order, and before them the empty places of the ticks
/// that have not happened.
proof fn lemma_history_after_entries(values: Seq<u32>)
    ensures
        history_after(values).len() == HISTORY_SLOTS,
        forall|i: int|
            0 <= i < HISTORY_SLOTS ==> #[trigger] history_after(values)[i] == if values.len() + i
                >= HISTORY_SLOTS {
                Some(values[values.len() + i - HISTORY_SLOTS])
            } else {
                None
            },
    decreases values.len(),
{
    if values.len() > 0 {
        lemma_history_after_entries(values.drop_last());
    }
}

/// What a history holds for `minutes` ticks ago: the value recorded then,
/// whatever it is, once that many ticks have been recorded, and nothing
/// before.
pub proof fn lemma_snapshot_is_the_value_recorded(values: Seq<u32>, minutes: int)
    requires
        1 <= minutes <= HISTORY_SLOTS,
    ensures
        history_after(values).len() == HISTORY_SLOTS,
        snapshot_ago(history_after(values), minutes) == if minutes <= values.len() {
            Some(values[values.len() - minutes])
        } else {
            None
        },
{
    lemma_history_after_entries(values);
}

/// A window shows the marker exactly when it has not been observed in
/// full, that is when fewer ticks than it has minutes came before this
/// one, or when the counter has not grown over it. In every other case it
/// shows the rate of the counter's growth over the window's seconds, also
/// where the counter stood at zero when the window began.
pub proof fn lemma_marker_exactly_when_unobserved_or_stalled(
    values: Seq<u32>,
    current: u32,
    minutes: int,
    numeral: Seq<char>,
)
    requires
        1 <= minutes <= HISTORY_SLOTS,
    ensures
        window_rate(values, current, minutes) == ProofRate::Unavailable <==> values.len() < minutes
            || current <= values[values.len() - minutes],
        values.len() >= minutes && current > values[values.len() - minutes] ==> window_rate(
            values,
            current,
            minutes,
        ) == (ProofRate::PerSecond {
            attempts: (current - values[values.len() - minutes]) as u32,
            seconds: (minutes * 60) as u64,
        }),
        window_rate(values, current, minutes) == ProofRate::Unavailable ==> rate_text_of(
            window_rate(values, current, minutes),
            numeral,
        ) == placeholder(),
{
    lemma_snapshot_is_the_value_recorded(values, minutes);
}

} // verus!
