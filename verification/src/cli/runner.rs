//! Frame-by-frame execution of the emulator with explicit stop conditions
//! and the formatting of serial output for the terminal.
//!
//! The runner decides; the binary acts.  Each call of
//! [`Runner::step_one_frame`] runs one frame and hands back the serial
//! lines to print; [`Runner::evaluate_exit_conditions`] says whether and
//! why to stop.
use vstd::prelude::*;
use crate::cli::config::{FrameLimit, RunConfig, SerialMode};
use crate::gameboy::{frame, DMG};
use crate::text::{decimal_string, decimal_text, is_part_of, lossy_utf8, text_contains, utf8_lossy};

verus! {

/// What a run reports when it stops through an explicit condition.
#[derive(Debug, Clone)]
pub struct RunReport {
    pub frames_executed: u64,
    pub stop_reason: StopReason,
    pub serial_output: String,
}

/// Why a bounded run stopped.
#[derive(Debug, Clone, Copy, PartialEq, Eq, Structural)]
pub enum StopReason {
    FrameLimitReached { frame_limit: FrameLimit },
    SerialVerdictReached { condition: SerialVerdictCondition, verdict: SerialVerdict },
}

/// Text verdict extracted from serial output.
#[derive(Debug, Clone, Copy, PartialEq, Eq, Structural)]
pub enum SerialVerdict {
    Passed,
    Failed,
}

/// Optional serial-output predicate that can end a run.
#[derive(Debug, Clone, Copy, PartialEq, Eq, Structural)]
pub enum SerialVerdictCondition {
    /// Stops when serial output contains Blargg-style `Passed` or `Failed`.
    BlarggPassFail,
}

/// The verdict a condition reads from serial text: `Failed` anywhere wins
/// over `Passed`.
pub open spec fn verdict_of(condition: SerialVerdictCondition, text: Seq<char>) -> Option<
    SerialVerdict,
> {
    match condition {
        SerialVerdictCondition::BlarggPassFail => if is_part_of("Failed"@, text) {
            Some(SerialVerdict::Failed)
        } else if is_part_of("Passed"@, text) {
            Some(SerialVerdict::Passed)
        } else {
            None
        },
    }
}

impl SerialVerdictCondition {
    pub fn evaluate(self, serial_output: &str) -> (verdict: Option<SerialVerdict>)
        ensures
            verdict == verdict_of(self, serial_output@),
    {
        match self {
            SerialVerdictCondition::BlarggPassFail => {
                if text_contains(serial_output, "Failed") {
                    Some(SerialVerdict::Failed)
                } else if text_contains(serial_output, "Passed") {
                    Some(SerialVerdict::Passed)
                } else {
                    None
                }
            },
        }
    }
}

/// The conditions that end a run.
#[derive(Debug, Clone, Copy, PartialEq, Eq, Structural)]
pub struct ExitConditions {
    pub frame_limit: Option<FrameLimit>,
    pub serial_verdict: Option<SerialVerdictCondition>,
}

impl Default for ExitConditions {
    fn default() -> (c: ExitConditions)
        ensures
            c.frame_limit is None,
            c.serial_verdict is None,
    {
        ExitConditions { frame_limit: None, serial_verdict: None }
    }
}

impl ExitConditions {
    /// The configured frame limit, and no serial verdict condition.
    pub fn from_config(config: &RunConfig) -> (c: ExitConditions)
        ensures
            c.frame_limit == config.frame_limit,
            c.serial_verdict is None,
    {
        ExitConditions { frame_limit: config.frame_limit, serial_verdict: None }
    }
}

/// Why a run stops after `frames` frames, if it does: the frame limit is
/// checked first, then the serial verdict.
pub open spec fn stop_reason_for(
    conditions: ExitConditions,
    frames: u64,
    serial_text: Seq<char>,
) -> Option<StopReason> {
    if conditions.frame_limit is Some && frames >= conditions.frame_limit->0.count() {
        Some(StopReason::FrameLimitReached { frame_limit: conditions.frame_limit->0 })
    } else {
        match conditions.serial_verdict {
            None => None,
            Some(condition) => match verdict_of(condition, serial_text) {
                Some(verdict) => Some(StopReason::SerialVerdictReached { condition, verdict }),
                None => None,
            },
        }
    }
}

/// Frames without output after which a partial line is flushed anyway.
pub const LIVE_SERIAL_PARTIAL_FLUSH_INTERVAL_FRAMES: u64 = 30;

/// Pending bytes from which a partial line is flushed anyway.
pub const LIVE_SERIAL_PARTIAL_FLUSH_BYTE_THRESHOLD: usize = 120;

/// The newline byte.
pub open spec fn newline() -> u8 {
    10
}

/// Splits bytes into the complete lines they hold (each ending with its
/// newline) and what follows the last newline.
pub open spec fn split_lines(bytes: Seq<u8>) -> (Seq<Seq<u8>>, Seq<u8>)
    decreases bytes.len(),
{
    if bytes.len() == 0 {
        (Seq::empty(), Seq::empty())
    } else {
        let (lines, rest) = split_lines(bytes.drop_last());
        if bytes.last() == newline() {
            (lines.push(rest.push(newline())), Seq::empty())
        } else {
            (lines, rest.push(bytes.last()))
        }
    }
}

/// The lines joined back together.
pub open spec fn joined(lines: Seq<Seq<u8>>) -> Seq<u8>
    decreases lines.len(),
{
    if lines.len() == 0 {
        Seq::empty()
    } else {
        joined(lines.drop_last()) + lines.last()
    }
}

/// A line: one newline, at its end.
pub open spec fn is_complete_line(line: Seq<u8>) -> bool {
    &&& line.len() > 0
    &&& line.last() == newline()
    &&& forall|i: int| 0 <= i < line.len() - 1 ==> line[i] != newline()
}

/// Cursor and pending bytes after the serial buffer is taken in: bytes past
/// the cursor are added; a buffer shorter than the cursor starts over.
pub open spec fn taken_in(cursor: nat, pending: Seq<u8>, buffer: Seq<u8>) -> (nat, Seq<u8>) {
    if buffer.len() < cursor {
        (buffer.len(), buffer)
    } else {
        (buffer.len(), pending + buffer.subrange(cursor as int, buffer.len() as int))
    }
}

/// Whether a partial line is due: it is non-empty and either long enough or
/// old enough.
pub open spec fn partial_due(pending: Seq<u8>, idle_frames: u64) -> bool {
    pending.len() > 0 && (pending.len() >= LIVE_SERIAL_PARTIAL_FLUSH_BYTE_THRESHOLD
        || idle_frames >= LIVE_SERIAL_PARTIAL_FLUSH_INTERVAL_FRAMES)
}

/// The idle-frame count plus one, stopping at the largest value.
pub open spec fn one_more(n: u64) -> u64 {
    if n == u64::MAX {
        n
    } else {
        (n + 1) as u64
    }
}

/// One frame of live output from state (`cursor`, `pending`, `idle`) and
/// the serial buffer: the lines emitted, then the new state.  Complete lines
/// are emitted as they arrive; with none, a due partial line is emitted
/// with a newline added.
pub open spec fn collected(cursor: nat, pending: Seq<u8>, idle: u64, buffer: Seq<u8>) -> (
    Seq<Seq<u8>>,
    nat,
    Seq<u8>,
    u64,
) {
    let (c, p) = taken_in(cursor, pending, buffer);
    let (lines, rest) = split_lines(p);
    if lines.len() > 0 {
        (lines, c, rest, 0)
    } else if partial_due(rest, one_more(idle)) {
        (seq![rest.push(newline())], c, Seq::empty(), 0)
    } else {
        (Seq::empty(), c, rest, one_more(idle))
    }
}

/// Incremental serial-output formatter used by `--serial live`.
///
/// Incoming bytes are buffered until a complete line (`\n`) is available.
/// If no newline arrives, a partial line is flushed after a small frame delay
/// (or once enough bytes accumulate) so output remains readable but responsive.
#[derive(Debug)]
pub struct LiveSerialPassthrough {
    cursor: usize,
    pending_line: Vec<u8>,
    frames_since_emit: u64,
}

impl Default for LiveSerialPassthrough {
    fn default() -> (p: LiveSerialPassthrough)
        ensures
            p.cursor() == 0,
            p.pending() == Seq::<u8>::empty(),
            p.idle_frames() == 0,
    {
        LiveSerialPassthrough { cursor: 0, pending_line: Vec::new(), frames_since_emit: 0 }
    }
}

impl LiveSerialPassthrough {
    /// How much of the serial buffer has been taken in.
    pub closed spec fn cursor(&self) -> nat {
        self.cursor as nat
    }

    /// Bytes taken in but not yet emitted.
    pub closed spec fn pending(&self) -> Seq<u8> {
        self.pending_line@
    }

    /// Frames since output was last emitted.
    pub closed spec fn idle_frames(&self) -> u64 {
        self.frames_since_emit
    }

    /// Takes in the serial buffer and returns the lines due this frame.
    pub fn collect_lines(&mut self, serial_buffer: &[u8]) -> (emitted: Vec<Vec<u8>>)
        ensures
            (emitted.deep_view(), final(self).cursor(), final(self).pending(), final(self).idle_frames()) == collected(
                old(self).cursor(),
                old(self).pending(),
                old(self).idle_frames(),
                serial_buffer@,
            ),
    {
        self.collect_new_bytes(serial_buffer);
        let mut emitted = self.drain_complete_lines();
        if emitted.len() == 0 {
            self.frames_since_emit = self.frames_since_emit.saturating_add(1);
            if self.should_flush_partial_line() {
                let line = self.flush_partial_line();
                let ghost line_bytes = line@;
                proof {
                    lemma_bytes_deep_view(line);
                }
                emitted.push(line);
                self.frames_since_emit = 0;
                proof {
                    assert(emitted.deep_view() =~= seq![line_bytes]);
                }
            }
        } else {
            self.frames_since_emit = 0;
        }
        emitted
    }

    /// The pending partial line with a newline added, if there is one.
    pub fn finalize(&mut self) -> (tail: Option<Vec<u8>>)
        ensures
            old(self).pending().len() == 0 ==> tail is None && final(self).cursor() == old(self).cursor() && final(self).pending() == old(self).pending() && final(self).idle_frames()
                == old(self).idle_frames(),
            old(self).pending().len() > 0 ==> (tail matches Some(t) && t@ == old(self).pending().push(newline()) && final(self).cursor() == old(self).cursor() && final(self).pending() == Seq::<u8>::empty() && final(self).idle_frames() == 0),
    {
        if self.pending_line.len() == 0 {
            return None;
        }
        self.frames_since_emit = 0;
        Some(self.flush_partial_line())
    }

    /// Adds the serial bytes past the cursor to the pending bytes.
    pub fn collect_new_bytes(&mut self, serial_buffer: &[u8])
        ensures
            (final(self).cursor(), final(self).pending()) == taken_in(
                old(self).cursor(),
                old(self).pending(),
                serial_buffer@,
            ),
            final(self).idle_frames() == old(self).idle_frames(),
    {
        if serial_buffer.len() < self.cursor {
            self.cursor = 0;
            self.pending_line = Vec::new();
        }
        let ghost base = self.pending_line@;
        let start = self.cursor;
        let mut i = start;
        while i < serial_buffer.len()
            invariant
                start <= i <= serial_buffer.len() || (start > serial_buffer.len() && i == start),
                self.cursor == start,
                self.pending_line@ == base + serial_buffer@.subrange(start as int, i as int),
                self.frames_since_emit == old(self).frames_since_emit,
            decreases serial_buffer.len() - i,
        {
            self.pending_line.push(serial_buffer[i]);
            proof {
                assert(base + serial_buffer@.subrange(start as int, i + 1) =~= (base
                    + serial_buffer@.subrange(start as int, i as int)).push(serial_buffer@[i as int]));
            }
            i = i + 1;
        }
        if serial_buffer.len() > self.cursor {
            self.cursor = serial_buffer.len();
        }
        proof {
            if old(self).cursor > serial_buffer@.len() {
                assert(base == Seq::<u8>::empty());
                assert(self.pending_line@ =~= serial_buffer@);
            } else {
                assert(self.pending_line@ =~= old(self).pending_line@ + serial_buffer@.subrange(
                    old(self).cursor as int,
                    serial_buffer@.len() as int,
                ));
            }
        }
    }

    /// Removes every complete line from the pending bytes, in order.
    pub fn drain_complete_lines(&mut self) -> (lines: Vec<Vec<u8>>)
        ensures
            (lines.deep_view(), final(self).pending()) == split_lines(old(self).pending()),
            final(self).cursor() == old(self).cursor(),
            final(self).idle_frames() == old(self).idle_frames(),
    {
        let mut lines: Vec<Vec<u8>> = Vec::new();
        let mut current: Vec<u8> = Vec::new();
        let mut i: usize = 0;
        let n = self.pending_line.len();
        while i < n
            invariant
                n == self.pending_line.len(),
                i <= n,
                self.pending_line@ == old(self).pending_line@,
                self.cursor == old(self).cursor,
                self.frames_since_emit == old(self).frames_since_emit,
                (lines.deep_view(), current@) == split_lines(self.pending_line@.take(i as int)),
            decreases n - i,
        {
            let byte = self.pending_line[i];
            let ghost before = lines.deep_view();
            proof {
                assert(self.pending_line@.take(i + 1).drop_last() =~= self.pending_line@.take(
                    i as int,
                ));
            }
            if byte == 10 {
                current.push(10);
                let line = current;
                let ghost line_bytes = line@;
                proof {
                    lemma_bytes_deep_view(line);
                }
                lines.push(line);
                current = Vec::new();
                proof {
                    assert(lines.deep_view() =~= before.push(line_bytes));
                }
            } else {
                current.push(byte);
                proof {
                    assert(lines.deep_view() =~= before);
                }
            }
            i = i + 1;
        }
        proof {
            assert(self.pending_line@.take(n as int) =~= self.pending_line@);
        }
        self.pending_line = current;
        lines
    }

    /// Whether the pending partial line is due.
    pub fn should_flush_partial_line(&self) -> (due: bool)
        ensures
            due == partial_due(self.pending(), self.idle_frames()),
    {
        self.pending_line.len() != 0 && (self.pending_line.len()
            >= LIVE_SERIAL_PARTIAL_FLUSH_BYTE_THRESHOLD || self.frames_since_emit
            >= LIVE_SERIAL_PARTIAL_FLUSH_INTERVAL_FRAMES)
    }

    /// Takes the pending bytes as a line, adding its newline.
    pub fn flush_partial_line(&mut self) -> (line: Vec<u8>)
        ensures
            line@ == old(self).pending().push(newline()),
            final(self).pending() == Seq::<u8>::empty(),
            final(self).cursor() == old(self).cursor(),
            final(self).idle_frames() == old(self).idle_frames(),
    {
        let mut line = Vec::new();
        std::mem::swap(&mut line, &mut self.pending_line);
        line.push(10);
        line
    }
}

proof fn lemma_bytes_deep_view(v: Vec<u8>)
    ensures
        v.deep_view() == v@,
{
    assert(v.deep_view() =~= v@);
}

/// Every line `split_lines` yields is a complete line, what remains has no
/// newline, and joining the lines and the remainder gives the bytes back.
pub proof fn lemma_split_lines(bytes: Seq<u8>)
    ensures
        joined(split_lines(bytes).0) + split_lines(bytes).1 == bytes,
        forall|k: int|
            0 <= k < split_lines(bytes).0.len() ==> is_complete_line(
                #[trigger] split_lines(bytes).0[k],
            ),
        forall|k: int| 0 <= k < split_lines(bytes).1.len() ==> split_lines(bytes).1[k] != newline(),
    decreases bytes.len(),
{
    if bytes.len() > 0 {
        lemma_split_lines(bytes.drop_last());
        let (lines, rest) = split_lines(bytes.drop_last());
        if bytes.last() == newline() {
            let line = rest.push(newline());
            assert(lines.push(line).drop_last() =~= lines);
            assert(joined(lines.push(line)) == joined(lines) + line);
            assert(bytes =~= bytes.drop_last().push(bytes.last()));
            assert(joined(lines.push(line)) + Seq::<u8>::empty() =~= bytes);
            assert forall|k: int| 0 <= k < lines.push(line).len() implies is_complete_line(
                #[trigger] lines.push(line)[k],
            ) by {
                if k < lines.len() {
                    assert(lines.push(line)[k] == lines[k]);
                }
            }
        } else {
            assert(bytes =~= bytes.drop_last().push(bytes.last()));
            assert(joined(lines) + rest.push(bytes.last()) =~= bytes);
        }
    }
}

/// Live output neither drops nor repeats serial bytes.  With `incoming`
/// the pending bytes plus the new serial bytes: when `incoming` holds
/// complete lines, exactly those are emitted, each complete, and the rest
/// stays pending; otherwise either nothing is emitted and everything stays
/// pending, or all of it is emitted as one line with a newline added.
pub proof fn lemma_live_output_keeps_bytes(cursor: nat, pending: Seq<u8>, idle: u64, buffer: Seq<u8>)
    requires
        cursor <= buffer.len(),
    ensures
        ({
            let (lines, c, rest, _) = collected(cursor, pending, idle, buffer);
            let incoming = pending + buffer.subrange(cursor as int, buffer.len() as int);
            &&& c == buffer.len()
            &&& if split_lines(incoming).0.len() > 0 {
                &&& joined(lines) + rest == incoming
                &&& forall|k: int| 0 <= k < lines.len() ==> is_complete_line(#[trigger] lines[k])
            } else if lines.len() == 0 {
                rest == incoming
            } else {
                lines == seq![incoming.push(newline())] && rest.len() == 0
            }
        }),
{
    let incoming = pending + buffer.subrange(cursor as int, buffer.len() as int);
    lemma_split_lines(incoming);
    let (lines, rest) = split_lines(incoming);
    if lines.len() == 0 {
        assert(joined(lines) =~= Seq::<u8>::empty());
        assert(Seq::<u8>::empty() + rest =~= rest);
    }
}

/// A reached frame limit is the stop reason even when a serial verdict is
/// also due; below the limit and with no verdict condition, a run goes on.
pub proof fn lemma_frame_limit_stops_first(conditions: ExitConditions, frames: u64, serial_text: Seq<char>)
    ensures
        conditions.frame_limit is Some && frames >= conditions.frame_limit->0.count()
            ==> stop_reason_for(conditions, frames, serial_text) == Some(
            StopReason::FrameLimitReached { frame_limit: conditions.frame_limit->0 },
        ),
        conditions.serial_verdict is None && (conditions.frame_limit is None || frames
            < conditions.frame_limit->0.count()) ==> stop_reason_for(conditions, frames, serial_text)
            is None,
{
}

/// How a stop reason reads in the shutdown block.
pub open spec fn stop_reason_text(reason: StopReason) -> Seq<char> {
    match reason {
        StopReason::FrameLimitReached { frame_limit } => "frame limit of "@ + decimal_text(
            frame_limit.count() as nat,
        ) + " reached"@,
        StopReason::SerialVerdictReached { verdict, .. } => match verdict {
            SerialVerdict::Passed => "serial output reported success"@,
            SerialVerdict::Failed => "serial output reported failure"@,
        },
    }
}

/// The stop reason as the shutdown block shows it.
pub fn stop_reason_label(reason: StopReason) -> (label: String)
    ensures
        label@ == stop_reason_text(reason),
{
    match reason {
        StopReason::FrameLimitReached { frame_limit } => {
            let mut s = String::from_str("frame limit of ");
            let count = decimal_string(frame_limit.get());
            s.append(count.as_str());
            s.append(" reached");
            s
        },
        StopReason::SerialVerdictReached { verdict, .. } => match verdict {
            SerialVerdict::Passed => String::from_str("serial output reported success"),
            SerialVerdict::Failed => String::from_str("serial output reported failure"),
        },
    }
}

/// The shutdown block: a `Run Complete` heading, then the frames executed,
/// the stop reason and the number of bytes the serial port sent, one per
/// line.
pub open spec fn shutdown_text(frames: u64, reason: StopReason, serial_bytes: nat) -> Seq<char> {
    "Run Complete\nframes executed: "@ + decimal_text(frames as nat) + "\nstop reason: "@
        + stop_reason_text(reason) + "\nserial bytes: "@ + decimal_text(serial_bytes)
}

/// Deterministic frame-by-frame execution driver for `DMG`.
///
/// The runner owns both host config and emulator state. Exit behavior is
/// explicit: first an optional frame cap, then an optional serial verdict;
/// with neither, the run goes on until the host process ends it.
pub struct Runner {
    config: RunConfig,
    gameboy: DMG,
    exit_conditions: ExitConditions,
    frames_executed: u64,
    live_serial_passthrough: LiveSerialPassthrough,
}

impl Runner {
    pub closed spec fn wf(&self) -> bool {
        self.gameboy.wf()
    }

    pub closed spec fn settings(&self) -> RunConfig {
        self.config
    }

    pub closed spec fn machine(&self) -> DMG {
        self.gameboy
    }

    pub closed spec fn conditions(&self) -> ExitConditions {
        self.exit_conditions
    }

    pub closed spec fn frames(&self) -> u64 {
        self.frames_executed
    }

    pub closed spec fn passthrough(&self) -> LiveSerialPassthrough {
        self.live_serial_passthrough
    }

    /// The serial text the emulator has produced so far.
    pub open spec fn serial_text(&self) -> Seq<char> {
        lossy_utf8(self.machine().board().serial_port().sent())
    }

    pub fn new(config: RunConfig, gameboy: DMG) -> (r: Runner)
        requires
            gameboy.wf(),
        ensures
            r.wf(),
            r.settings() == config,
            r.machine() == gameboy,
            r.conditions() == (ExitConditions { frame_limit: config.frame_limit, serial_verdict: None }),
            r.frames() == 0,
            r.passthrough().cursor() == 0,
            r.passthrough().pending() == Seq::<u8>::empty(),
            r.passthrough().idle_frames() == 0,
    {
        let exit_conditions = ExitConditions::from_config(&config);
        Runner {
            config,
            gameboy,
            exit_conditions,
            frames_executed: 0,
            live_serial_passthrough: LiveSerialPassthrough::default(),
        }
    }

    /// Frames run so far.
    pub fn frames_executed(&self) -> (n: u64)
        ensures
            n == self.frames(),
    {
        self.frames_executed
    }

    /// Enables stopping on a serial verdict.
    pub fn with_serial_verdict_condition(self, condition: SerialVerdictCondition) -> (r: Runner)
        ensures
            r.wf() == self.wf(),
            r.settings() == self.settings(),
            r.machine() == self.machine(),
            r.conditions() == (ExitConditions {
                frame_limit: self.conditions().frame_limit,
                serial_verdict: Some(condition),
            }),
            r.frames() == self.frames(),
            r.passthrough() == self.passthrough(),
    {
        let mut r = self;
        r.exit_conditions.serial_verdict = Some(condition);
        r
    }

    /// Runs one frame and returns the serial lines to print: the live
    /// passthrough's output with `--serial live`, nothing otherwise.
    pub fn step_one_frame(&mut self) -> (lines: Vec<Vec<u8>>)
        requires
            old(self).wf(),
            old(self).frames() < u64::MAX,
        ensures
            final(self).wf(),
            (final(self).machine().processor(), final(self).machine().board()) == frame(
                old(self).machine().processor(),
                old(self).machine().board(),
            ),
            final(self).frames() == old(self).frames() + 1,
            final(self).settings() == old(self).settings(),
            final(self).conditions() == old(self).conditions(),
            old(self).settings().serial_mode == SerialMode::Live ==> (lines.deep_view(), final(self).passthrough().cursor(), final(self).passthrough().pending(), final(self).passthrough().idle_frames()) == collected(
                old(self).passthrough().cursor(),
                old(self).passthrough().pending(),
                old(self).passthrough().idle_frames(),
                final(self).machine().board().serial_port().sent(),
            ),
            old(self).settings().serial_mode != SerialMode::Live ==> lines@.len() == 0 && final(self).passthrough() == old(self).passthrough(),
    {
        self.gameboy.step_frame();
        self.frames_executed = self.frames_executed + 1;
        if self.config.serial_mode == SerialMode::Live {
            let bytes = self.gameboy.serial().output_bytes();
            self.live_serial_passthrough.collect_lines(bytes.as_slice())
        } else {
            Vec::new()
        }
    }

    /// Whether to stop now, and why.
    pub fn evaluate_exit_conditions(&self) -> (reason: Option<StopReason>)
        ensures
            reason == stop_reason_for(self.conditions(), self.frames(), self.serial_text()),
    {
        if let Some(frame_limit) = self.exit_conditions.frame_limit {
            if self.frames_executed >= frame_limit.get() {
                return Some(StopReason::FrameLimitReached { frame_limit });
            }
        }
        let condition = match self.exit_conditions.serial_verdict {
            Some(c) => c,
            None => {
                return None;
            },
        };
        let bytes = self.gameboy.serial().output_bytes();
        let serial_text = utf8_lossy(bytes.as_slice());
        match condition.evaluate(serial_text.as_str()) {
            Some(verdict) => Some(StopReason::SerialVerdictReached { condition, verdict }),
            None => None,
        }
    }

    /// The report for a run that stopped for `stop_reason`.
    pub fn build_report(&self, stop_reason: StopReason) -> (report: RunReport)
        ensures
            report.frames_executed == self.frames(),
            report.stop_reason == stop_reason,
            report.serial_output@ == self.serial_text(),
    {
        RunReport {
            frames_executed: self.frames_executed,
            stop_reason,
            serial_output: self.gameboy.serial_output(),
        }
    }

    /// The shutdown block for a run that ended with `report`, or `None` in
    /// quiet mode.
    pub fn shutdown_summary(&self, report: &RunReport) -> (summary: Option<String>)
        ensures
            self.settings().quiet ==> summary is None,
            !self.settings().quiet ==> (summary matches Some(s) && s@ == shutdown_text(
                report.frames_executed,
                report.stop_reason,
                self.machine().board().serial_port().sent().len(),
            )),
    {
        if self.config.quiet {
            return None;
        }
        let frames = decimal_string(report.frames_executed);
        let reason = stop_reason_label(report.stop_reason);
        let sent = decimal_string(self.gameboy.serial().len() as u64);
        let mut s = String::from_str("Run Complete\nframes executed: ");
        s.append(frames.as_str());
        s.append("\nstop reason: ");
        s.append(reason.as_str());
        s.append("\nserial bytes: ");
        s.append(sent.as_str());
        Some(s)
    }

    /// With `--serial live`, the partial line still pending when the run
    /// stops, with a newline added.
    pub fn live_serial_tail(&mut self) -> (tail: Option<Vec<u8>>)
        ensures
            final(self).wf() == old(self).wf(),
            final(self).settings() == old(self).settings(),
            final(self).machine() == old(self).machine(),
            final(self).conditions() == old(self).conditions(),
            final(self).frames() == old(self).frames(),
            old(self).settings().serial_mode != SerialMode::Live ==> tail is None
                && final(self).passthrough() == old(self).passthrough(),
            old(self).settings().serial_mode == SerialMode::Live ==> (old(self).passthrough().pending().len() == 0 <==> tail is None),
            old(self).settings().serial_mode == SerialMode::Live && old(self).passthrough().pending().len() > 0 ==> (tail matches Some(t) && t@ == old(self).passthrough().pending().push(newline()) && final(self).passthrough().pending()
                == Seq::<u8>::empty()),
    {
        if self.config.serial_mode != SerialMode::Live {
            return None;
        }
        self.live_serial_passthrough.finalize()
    }

    /// With `--serial final`, everything the serial port sent, if anything.
    pub fn final_serial_output(&self) -> (bytes: Option<Vec<u8>>)
        ensures
            self.settings().serial_mode == SerialMode::Final && self.machine().board().serial_port().sent().len() > 0
                ==> (bytes matches Some(b) && b@ == self.machine().board().serial_port().sent()),
            !(self.settings().serial_mode == SerialMode::Final && self.machine().board().serial_port().sent().len() > 0)
                ==> bytes is None,
    {
        if self.config.serial_mode != SerialMode::Final {
            return None;
        }
        let bytes = self.gameboy.serial().output_bytes();
        if bytes.len() == 0 {
            return None;
        }
        Some(bytes)
    }
}

} // verus!
