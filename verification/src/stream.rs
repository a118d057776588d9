//! What a session's reader and waiter hand to the terminal, and how an open session is used.

use crate::client::{pty_grid, PtyGrid, TerminalSize};
use crate::error;
use crate::error::{backend_failure, TerminalError, TerminalErrorView};
use crate::text;
use vstd::prelude::*;
use vstd::string::*;

verus! {

/// How many bytes the reader asks for at a time.
pub const OUTPUT_CHUNK: usize = 16 * 1024;

/// What a session tells the terminal.
#[derive(Debug, PartialEq, Eq)]
pub enum TerminalBackendEvent {
    /// Output to be shown.
    Bytes(Vec<u8>),
    /// The client has ended with this code.
    Exit(i32),
}

/// An event with its bytes as a sequence.
pub enum EventView {
    Bytes(Seq<u8>),
    Exit(int),
}

impl View for TerminalBackendEvent {
    type V = EventView;

    open spec fn view(&self) -> EventView {
        match *self {
            TerminalBackendEvent::Bytes(bytes) => EventView::Bytes(bytes@),
            TerminalBackendEvent::Exit(code) => EventView::Exit(code as int),
        }
    }
}

/// How an attempt to read the client's output ended.
#[derive(Debug, PartialEq, Eq)]
pub enum ReadOutcome {
    /// So many bytes are in the buffer; none at the end of the output.
    Read(usize),
    /// Nothing was read, and reading may be tried again.
    Interrupted,
    /// Reading failed for this reason.
    Failed(String),
}

/// What the reader does after an attempt to read.
#[derive(Debug, PartialEq, Eq)]
pub enum ReaderAction {
    Stop,
    ReadAgain,
    /// Hand the event over, then read again, unless nobody takes events any more.
    Send(TerminalBackendEvent),
    /// Hand the event over and stop.
    SendLast(TerminalBackendEvent),
}

/// An attempt to read, with what it brought.
pub enum ReadView {
    Data(Seq<u8>),
    Interrupted,
    Failed(Seq<char>),
}

/// What the reader does, with the bytes of an event as a sequence.
pub enum ReaderActionView {
    Stop,
    ReadAgain,
    Send(EventView),
    SendLast(EventView),
}

impl View for ReaderAction {
    type V = ReaderActionView;

    open spec fn view(&self) -> ReaderActionView {
        match *self {
            ReaderAction::Stop => ReaderActionView::Stop,
            ReaderAction::ReadAgain => ReaderActionView::ReadAgain,
            ReaderAction::Send(event) => ReaderActionView::Send(event@),
            ReaderAction::SendLast(event) => ReaderActionView::SendLast(event@),
        }
    }
}

/// What an attempt to read brought, given the buffer that it filled.
pub open spec fn read_of(outcome: ReadOutcome, buffer: Seq<u8>) -> ReadView {
    match outcome {
        ReadOutcome::Read(n) => ReadView::Data(buffer.take(n as int)),
        ReadOutcome::Interrupted => ReadView::Interrupted,
        ReadOutcome::Failed(reason) => ReadView::Failed(reason@),
    }
}

/// The bytes of a message that stands on a line of its own in the output.
pub open spec fn notice(kind: Seq<char>, reason: Seq<char>) -> Seq<u8> {
    vstd::utf8::encode_utf8("\r\n[et] "@ + kind + " error: "@ + reason + "\r\n"@)
}

/// What the reader does after an attempt to read: the end of the output stops it, output is
/// handed on, an interruption is tried again, and a failure is reported in the output.
pub open spec fn reader_next(read: ReadView) -> ReaderActionView {
    match read {
        ReadView::Data(data) => if data.len() == 0 {
            ReaderActionView::Stop
        } else {
            ReaderActionView::Send(EventView::Bytes(data))
        },
        ReadView::Interrupted => ReaderActionView::ReadAgain,
        ReadView::Failed(reason) => ReaderActionView::SendLast(
            EventView::Bytes(notice("read"@, reason)),
        ),
    }
}

/// Writes a message that stands on a line of its own in the output.
fn notice_bytes(kind: &str, reason: &str) -> (res: Vec<u8>)
    ensures
        res@ == notice(kind@, reason@),
{
    let mut message = String::new();
    message.append("\r\n[et] ");
    message.append(kind);
    message.append(" error: ");
    message.append(reason);
    message.append("\r\n");
    assert(message@ =~= "\r\n[et] "@ + kind@ + " error: "@ + reason@ + "\r\n"@);
    message.as_str().as_bytes_vec()
}

/// Decides what the reader does after an attempt to read into `buffer`.
pub fn after_read(outcome: ReadOutcome, buffer: &Vec<u8>) -> (res: ReaderAction)
    requires
        outcome matches ReadOutcome::Read(n) ==> n <= buffer.len(),
    ensures
        res@ == reader_next(read_of(outcome, buffer@)),
{
    match outcome {
        ReadOutcome::Read(n) => {
            if n == 0 {
                return ReaderAction::Stop;
            }
            let mut bytes: Vec<u8> = Vec::new();
            let mut i: usize = 0;
            while i < n
                invariant
                    i <= n <= buffer.len(),
                    bytes@ == buffer@.take(i as int),
                decreases n - i,
            {
                bytes.push(buffer[i]);
                i = i + 1;
                assert(bytes@ =~= buffer@.take(i as int));
            }
            ReaderAction::Send(TerminalBackendEvent::Bytes(bytes))
        },
        ReadOutcome::Interrupted => ReaderAction::ReadAgain,
        ReadOutcome::Failed(reason) => ReaderAction::SendLast(
            TerminalBackendEvent::Bytes(notice_bytes("read", reason.as_str())),
        ),
    }
}

/// The reader reads again after an interruption, and after an event that was taken and not the
/// last.
pub open spec fn reads_on(action: ReaderActionView, taken: bool) -> bool {
    match action {
        ReaderActionView::Stop => false,
        ReaderActionView::ReadAgain => true,
        ReaderActionView::Send(_) => taken,
        ReaderActionView::SendLast(_) => false,
    }
}

/// Tells whether the reader tries to read again after what it did, given whether the event was
/// taken, where there was one.
pub fn keeps_reading(action: &ReaderAction, taken: bool) -> (res: bool)
    ensures
        res == reads_on(action@, taken),
{
    match action {
        ReaderAction::Stop => false,
        ReaderAction::ReadAgain => true,
        ReaderAction::Send(_) => taken,
        ReaderAction::SendLast(_) => false,
    }
}

/// An exit code as the client's process reports it, in the signed form that the terminal is
/// told: the same 32 bits.
pub open spec fn signed_code(code: u32) -> int {
    if code <= i32::MAX {
        code as int
    } else {
        code - 0x1_0000_0000
    }
}

/// What the waiter tells the terminal once the client has ended, with an exit code, or once
/// waiting for it has failed.
pub open spec fn waiter_events(end: Result<u32, Seq<char>>) -> Seq<EventView> {
    match end {
        Ok(code) => seq![EventView::Exit(signed_code(code))],
        Err(reason) => seq![EventView::Bytes(notice("wait"@, reason)), EventView::Exit(-1)],
    }
}

/// How the client ended, with the reason of a failure as a sequence of characters.
pub open spec fn end_of(end: Result<u32, String>) -> Result<u32, Seq<char>> {
    match end {
        Ok(code) => Ok(code),
        Err(reason) => Err(reason@),
    }
}

/// Events with their bytes as sequences.
pub open spec fn events_of(events: Seq<TerminalBackendEvent>) -> Seq<EventView> {
    events.map_values(|event: TerminalBackendEvent| event@)
}

/// The events that the waiter hands over, in order.
pub fn after_wait(end: Result<u32, String>) -> (res: Vec<TerminalBackendEvent>)
    ensures
        events_of(res@) == waiter_events(end_of(end)),
{
    let mut events: Vec<TerminalBackendEvent> = Vec::new();
    match end {
        Ok(code) => {
            let signed: i32 = if code <= 0x7fff_ffff {
                code as i32
            } else {
                (code as i64 - 0x1_0000_0000) as i32
            };
            events.push(TerminalBackendEvent::Exit(signed));
        },
        Err(reason) => {
            events.push(TerminalBackendEvent::Bytes(notice_bytes("wait", reason.as_str())));
            events.push(TerminalBackendEvent::Exit(-1));
        },
    }
    assert(events_of(events@) =~= waiter_events(end_of(end)));
    events
}

/// The pseudo terminal of a session, until the session is closed.
pub struct PtySlot<P> {
    pty: Option<P>,
}

impl<P> View for PtySlot<P> {
    type V = Option<P>;

    closed spec fn view(&self) -> Option<P> {
        self.pty
    }
}

/// A use of an open session.
pub enum SessionCall {
    Write,
    Resize(TerminalSize),
    Close,
}

/// The pseudo terminal that a session has after a call: closing gives it up, and nothing else
/// touches it.
pub open spec fn pty_after<P>(pty: Option<P>, call: SessionCall) -> Option<P> {
    if call is Close {
        None
    } else {
        pty
    }
}

/// The pseudo terminal that a session has after some calls.
pub open spec fn pty_after_all<P>(pty: Option<P>, calls: Seq<SessionCall>) -> Option<P>
    decreases calls.len(),
{
    if calls.len() == 0 {
        pty
    } else {
        pty_after(pty_after_all(pty, calls.drop_last()), calls.last())
    }
}

/// Which pseudo terminal gets which size when the terminal changes its size: none once the
/// session is closed.
pub open spec fn resize_of<P>(pty: Option<P>, size: TerminalSize) -> Option<(P, PtyGrid)> {
    match pty {
        Some(pty) => Some(
            (
                pty,
                PtyGrid { rows: size.rows, cols: size.cols, pixel_width: 0, pixel_height: 0 },
            ),
        ),
        None => None,
    }
}

/// What a change of size amounts to, where a pseudo terminal that got the new size took it with
/// the given outcome: a success where there was none.
pub open spec fn resize_end<P>(
    pty: Option<P>,
    size: TerminalSize,
    outcome: Result<(), Seq<char>>,
) -> Result<(), TerminalErrorView> {
    match (resize_of(pty, size), outcome) {
        (Some(_), Err(reason)) => Err(error::backend_error("ET resize: "@, reason)),
        _ => Ok(()),
    }
}

/// A result with the text of its error as a sequence of characters.
pub open spec fn result_of(res: Result<(), TerminalError>) -> Result<(), TerminalErrorView> {
    match res {
        Ok(_) => Ok(()),
        Err(error) => Err(error@),
    }
}

impl<P> PtySlot<P> {
    /// The slot of a session that was just opened.
    pub fn new(pty: P) -> (res: PtySlot<P>)
        ensures
            res@ == Some(pty),
    {
        PtySlot { pty: Some(pty) }
    }

    /// Closes the session, and hands out the pseudo terminal, if it was still there.
    pub fn close(&mut self) -> (res: Option<P>)
        ensures
            final(self)@ == pty_after(old(self)@, SessionCall::Close),
            final(self)@ is None,
            res == old(self)@,
    {
        self.pty.take()
    }

    /// The pseudo terminal that gets a new size when the terminal changes its own, and that
    /// size; nothing once the session is closed.
    pub fn resize_target(&self, size: TerminalSize) -> (res: Option<(&P, PtyGrid)>)
        ensures
            match res {
                Some((pty, grid)) => resize_of(self@, size) == Some((*pty, grid)),
                None => resize_of(self@, size) is None,
            },
    {
        match &self.pty {
            Some(pty) => Some((pty, pty_grid(size))),
            None => None,
        }
    }

    /// The result of a change of size, given how the pseudo terminal took it. Once the session
    /// is closed there is none to take it, and the outcome plays no part.
    pub fn after_resize(&self, size: TerminalSize, outcome: Result<(), String>) -> (res: Result<
        (),
        TerminalError,
    >)
        ensures
            result_of(res) == resize_end(self@, size, text::outcome_text(outcome)),
    {
        match (&self.pty, outcome) {
            (Some(_), Err(reason)) => Err(backend_failure("ET resize: ", reason.as_str())),
            _ => Ok(()),
        }
    }
}

/// What a write amounts to, given its outcome.
pub open spec fn write_end(outcome: Result<(), Seq<char>>) -> Result<(), TerminalErrorView> {
    match outcome {
        Ok(_) => Ok(()),
        Err(reason) => Err(error::backend_error("ET write: "@, reason)),
    }
}

/// The result of a write, given its outcome.
pub fn after_write(outcome: Result<(), String>) -> (res: Result<(), TerminalError>)
    ensures
        result_of(res) == write_end(text::outcome_text(outcome)),
{
    match outcome {
        Ok(_) => Ok(()),
        Err(reason) => Err(backend_failure("ET write: ", reason.as_str())),
    }
}

/// An attempt of the reader: what the read brought, and whether the event that it led to, if
/// any, was taken.
pub struct ReaderTry {
    pub read: ReadView,
    pub taken: bool,
}

impl ReaderTry {
    /// Whether the reader reads again after this attempt.
    pub open spec fn goes_on(self) -> bool {
        reads_on(reader_next(self.read), self.taken)
    }

    /// The event that the reader hands over after this attempt, if any.
    pub open spec fn events(self) -> Seq<EventView> {
        match reader_next(self.read) {
            ReaderActionView::Send(event) => seq![event],
            ReaderActionView::SendLast(event) => seq![event],
            _ => seq![],
        }
    }
}

/// The events that the reader hands over in the course of these attempts.
pub open spec fn reader_events(tries: Seq<ReaderTry>) -> Seq<EventView>
    decreases tries.len(),
{
    if tries.len() == 0 {
        seq![]
    } else if tries[0].goes_on() {
        tries[0].events() + reader_events(tries.drop_first())
    } else {
        tries[0].events()
    }
}

/// One event for each read that brought bytes, in order.
pub open spec fn data_events(tries: Seq<ReaderTry>) -> Seq<EventView>
    decreases tries.len(),
{
    if tries.len() == 0 {
        seq![]
    } else {
        match tries[0].read {
            ReadView::Data(data) if data.len() > 0 => seq![EventView::Bytes(data)] + data_events(
                tries.drop_first(),
            ),
            _ => data_events(tries.drop_first()),
        }
    }
}

/// The bytes that these reads brought.
pub open spec fn data_of(tries: Seq<ReaderTry>) -> Seq<u8>
    decreases tries.len(),
{
    if tries.len() == 0 {
        seq![]
    } else {
        match tries[0].read {
            ReadView::Data(data) => data + data_of(tries.drop_first()),
            _ => data_of(tries.drop_first()),
        }
    }
}

/// The bytes of these events.
pub open spec fn bytes_of(events: Seq<EventView>) -> Seq<u8>
    decreases events.len(),
{
    if events.len() == 0 {
        seq![]
    } else {
        match events[0] {
            EventView::Bytes(bytes) => bytes + bytes_of(events.drop_first()),
            EventView::Exit(_) => bytes_of(events.drop_first()),
        }
    }
}

/// What the reader hands over in the attempt after which it stops: the output that nobody takes
/// any more, the message of a failure, or, at the end of the output, nothing.
pub open spec fn last_events(last: ReadView) -> Seq<EventView> {
    match last {
        ReadView::Data(data) if data.len() > 0 => seq![EventView::Bytes(data)],
        ReadView::Failed(reason) => seq![EventView::Bytes(notice("read"@, reason))],
        _ => seq![],
    }
}

/// The reader hands over one event for each read that brought bytes, in order, however often it
/// was interrupted; the attempt after which it stops adds at most one event more; none of them
/// is an exit; and nothing that could be read afterwards matters.
pub proof fn law_reader_events(tries: Seq<ReaderTry>, last: ReaderTry, later: Seq<ReaderTry>)
    requires
        forall|i: int| 0 <= i < tries.len() ==> (#[trigger] tries[i]).goes_on(),
        !last.goes_on(),
    ensures
        reader_events(tries.push(last) + later) == data_events(tries) + last_events(last.read),
        forall|i: int|
            0 <= i < reader_events(tries.push(last) + later).len() ==> (
            #[trigger] reader_events(tries.push(last) + later)[i]) is Bytes,
    decreases tries.len(),
{
    let all = tries.push(last) + later;
    if tries.len() == 0 {
        assert(all[0] == last);
        assert(reader_events(all) =~= data_events(tries) + last_events(last.read));
    } else {
        let rest = tries.drop_first();
        assert forall|i: int| 0 <= i < rest.len() implies (#[trigger] rest[i]).goes_on() by {
            assert(rest[i] == tries[i + 1]);
        }
        law_reader_events(rest, last, later);
        assert(all[0] == tries[0]);
        assert(tries[0].goes_on());
        assert(all.drop_first() =~= rest.push(last) + later);
        assert(reader_events(all) =~= data_events(tries) + last_events(last.read));
        let behind = reader_events(all.drop_first());
        assert forall|i: int| 0 <= i < reader_events(all).len() implies (
        #[trigger] reader_events(all)[i]) is Bytes by {
            let n = tries[0].events().len() as int;
            if i >= n {
                assert(reader_events(all)[i] == behind[i - n]);
            }
        }
    }
}

/// The events of the reads hold every byte that was read, once and in order, whatever the
/// pieces.
pub proof fn law_reader_hands_over_all(tries: Seq<ReaderTry>)
    ensures
        bytes_of(data_events(tries)) == data_of(tries),
    decreases tries.len(),
{
    if tries.len() > 0 {
        let rest = tries.drop_first();
        law_reader_hands_over_all(rest);
        if let ReadView::Data(data) = tries[0].read {
            if data.len() > 0 {
                assert(data_events(tries).drop_first() =~= data_events(rest));
                assert(data_events(tries)[0] == EventView::Bytes(data));
            } else {
                assert(data + data_of(rest) =~= data_of(rest));
            }
        }
    }
}

/// The waiter's last word, and only that, is the exit of the client.
pub proof fn law_exit_comes_last(end: Result<u32, Seq<char>>)
    ensures
        waiter_events(end).len() > 0,
        forall|i: int|
            0 <= i < waiter_events(end).len() ==> ((#[trigger] waiter_events(end)[i]) is Exit <==> i
                == waiter_events(end).len() - 1),
{
}

/// Once a session has been closed, whatever else was and is asked of it, a change of size
/// reaches no pseudo terminal and is a success.
pub proof fn law_resize_after_close<P>(
    pty: Option<P>,
    calls: Seq<SessionCall>,
    size: TerminalSize,
    outcome: Result<(), Seq<char>>,
)
    requires
        exists|i: int| 0 <= i < calls.len() && (#[trigger] calls[i]) is Close,
    ensures
        pty_after_all(pty, calls) is None,
        resize_of(pty_after_all(pty, calls), size) is None,
        resize_end(pty_after_all(pty, calls), size, outcome) == Ok::<(), TerminalErrorView>(()),
    decreases calls.len(),
{
    let i = choose|i: int| 0 <= i < calls.len() && (#[trigger] calls[i]) is Close;
    if i < calls.len() - 1 {
        assert(calls.drop_last()[i] is Close);
        law_resize_after_close(pty, calls.drop_last(), size, outcome);
    }
}

/// As long as a session has not been closed, it keeps its pseudo terminal, and a change of size
/// reaches it.
pub proof fn law_resize_before_close<P>(pty: P, calls: Seq<SessionCall>, size: TerminalSize)
    requires
        forall|i: int| 0 <= i < calls.len() ==> !((#[trigger] calls[i]) is Close),
    ensures
        pty_after_all(Some(pty), calls) == Some(pty),
        resize_of(pty_after_all(Some(pty), calls), size) is Some,
    decreases calls.len(),
{
    if calls.len() > 0 {
        let init = calls.drop_last();
        assert forall|i: int| 0 <= i < init.len() implies !((#[trigger] init[i]) is Close) by {
            assert(init[i] == calls[i]);
        }
        law_resize_before_close(pty, init, size);
        assert(calls[calls.len() - 1] == calls.last());
    }
}

/// Closing a session a second time changes nothing.
pub proof fn law_close_twice<P>(pty: Option<P>)
    ensures
        pty_after(pty_after(pty, SessionCall::Close), SessionCall::Close) == pty_after(
            pty,
            SessionCall::Close,
        ),
{
}

/// Where a read brought bytes, the event that is handed over holds exactly those: as many as were
/// read, and each of them the one at its place in the buffer. The end of the output stops the
/// reader, an interruption changes nothing, and a failure is told in the output with its reason.
pub proof fn law_after_read(outcome: ReadOutcome, buffer: &Vec<u8>, res: ReaderAction)
    requires
        call_ensures(after_read, (outcome, buffer), res),
        outcome matches ReadOutcome::Read(n) ==> n <= buffer@.len(),
    ensures
        match outcome {
            ReadOutcome::Read(n) => if n == 0 {
                res is Stop
            } else {
                res matches ReaderAction::Send(TerminalBackendEvent::Bytes(bytes)) && bytes@.len()
                    == n && forall|i: int| 0 <= i < n ==> #[trigger] bytes@[i] == buffer@[i]
            },
            ReadOutcome::Interrupted => res is ReadAgain,
            ReadOutcome::Failed(reason) => res matches ReaderAction::SendLast(
                TerminalBackendEvent::Bytes(bytes),
            ) && bytes@ == vstd::utf8::encode_utf8(
                "\r\n[et] read error: "@ + reason@ + "\r\n"@,
            ),
        },
{
    lemma_notice_text();
    if let ReadOutcome::Failed(reason) = outcome {
        assert("\r\n[et] "@ + "read"@ + " error: "@ + reason@ + "\r\n"@ =~= "\r\n[et] read error: "@
            + reason@ + "\r\n"@);
    }
}

/// What messages start with.
proof fn lemma_notice_text()
    ensures
        "\r\n[et] "@ + "read"@ + " error: "@ == "\r\n[et] read error: "@,
        "\r\n[et] "@ + "wait"@ + " error: "@ == "\r\n[et] wait error: "@,
{
    reveal_strlit("\r\n[et] ");
    reveal_strlit("read");
    reveal_strlit("wait");
    reveal_strlit(" error: ");
    reveal_strlit("\r\n[et] read error: ");
    reveal_strlit("\r\n[et] wait error: ");
    assert("\r\n[et] "@ + "read"@ + " error: "@ =~= "\r\n[et] read error: "@);
    assert("\r\n[et] "@ + "wait"@ + " error: "@ =~= "\r\n[et] wait error: "@);
}

/// The reader goes on after an interruption and after an event that was taken, and stops at the
/// end, after its last event, and where nobody takes an event.
pub proof fn law_keeps_reading(action: &ReaderAction, taken: bool, res: bool)
    requires
        call_ensures(keeps_reading, (action, taken), res),
    ensures
        res <==> action is ReadAgain || (action is Send && taken),
{
}

/// The client's exit code reaches the terminal with its 32 bits as they are; where waiting
/// failed, the reason is told first, and the code is -1.
pub proof fn law_after_wait(end: Result<u32, String>, res: Vec<TerminalBackendEvent>)
    requires
        call_ensures(after_wait, (end,), res),
    ensures
        match end {
            Ok(code) => res@.len() == 1 && (res@[0] matches TerminalBackendEvent::Exit(told) && (
            told == code || told == code - 0x1_0000_0000)),
            Err(reason) => res@.len() == 2 && (res@[0] matches TerminalBackendEvent::Bytes(bytes)
                && bytes@ == vstd::utf8::encode_utf8(
                "\r\n[et] wait error: "@ + reason@ + "\r\n"@,
            )) && (res@[1] matches TerminalBackendEvent::Exit(told) && told == -1),
        },
{
    lemma_notice_text();
    let events = events_of(res@);
    match end {
        Ok(code) => {
            assert(events.len() == 1);
            assert(events[0] == res@[0]@);
        },
        Err(reason) => {
            assert(events.len() == 2);
            assert(events[0] == res@[0]@);
            assert(events[1] == res@[1]@);
            assert("\r\n[et] "@ + "wait"@ + " error: "@ + reason@ + "\r\n"@
                =~= "\r\n[et] wait error: "@ + reason@ + "\r\n"@);
        },
    }
}

/// A change of size reaches the pseudo terminal of the session, if it still has one, with as many
/// columns as the terminal has columns and as many rows as it has rows.
pub proof fn law_resize_target<'a, P>(
    slot: &'a PtySlot<P>,
    size: TerminalSize,
    res: Option<(&'a P, PtyGrid)>,
)
    requires
        call_ensures(PtySlot::<P>::resize_target, (slot, size), res),
    ensures
        match slot@ {
            Some(pty) => res matches Some((target, grid)) && *target == pty && grid.cols
                == size.cols && grid.rows == size.rows && grid.pixel_width == 0
                && grid.pixel_height == 0,
            None => res is None,
        },
{
}

/// A change of size fails exactly where there is a pseudo terminal and it refused the size; the
/// reason is reported.
pub proof fn law_after_resize<P>(
    slot: &PtySlot<P>,
    size: TerminalSize,
    outcome: Result<(), String>,
    res: Result<(), TerminalError>,
)
    requires
        call_ensures(PtySlot::<P>::after_resize, (slot, size, outcome), res),
    ensures
        res is Err <==> slot@ is Some && outcome is Err,
        res matches Err(error) ==> (error matches TerminalError::Backend { detail } && detail@
            == "ET resize: "@ + outcome->Err_0@),
{
}

/// A write succeeds exactly where the writer took the data; otherwise the reason is reported.
pub proof fn law_after_write(outcome: Result<(), String>, res: Result<(), TerminalError>)
    requires
        call_ensures(after_write, (outcome,), res),
    ensures
        res is Err <==> outcome is Err,
        res matches Err(error) ==> (error matches TerminalError::Backend { detail } && detail@
            == "ET write: "@ + outcome->Err_0@),
{
}

} // verus!
