//! The connection status that the user interface polls, and the events
//! that move it.

use vstd::prelude::*;
use vstd::std_specs::cmp::PartialEqSpecImpl;

verus! {

/// Bytes moved so far, against the size that the manifest declared.
#[derive(Clone, Copy, Debug, PartialEq, Eq, Structural)]
pub struct Progress {
    pub transferred: u64,
    pub total: u64,
}

impl Progress {
    /// The share moved so far in whole percent, rounded down; zero while
    /// nothing is declared.
    pub open spec fn percent(self) -> int {
        if self.total == 0 {
            0
        } else {
            (self.transferred * 100) / (self.total as int)
        }
    }

    /// Progress after `bytes` more bytes; the counter stops at the
    /// largest value it can hold.
    pub open spec fn advanced(self, bytes: u64) -> Progress {
        Progress {
            transferred: if self.transferred + bytes > u64::MAX {
                u64::MAX
            } else {
                (self.transferred + bytes) as u64
            },
            total: self.total,
        }
    }

    pub fn start(total: u64) -> (p: Progress)
        ensures
            p == (Progress { transferred: 0, total }),
            p.percent() == 0,
    {
        Progress { transferred: 0, total }
    }

    pub fn advance(self, bytes: u64) -> (p: Progress)
        ensures
            p == self.advanced(bytes),
            p.percent() >= self.percent(),
    {
        proof {
            lemma_percent_monotone(self, self.advanced(bytes));
        }
        Progress { transferred: self.transferred.saturating_add(bytes), total: self.total }
    }

    pub fn percent_floor(self) -> (pct: u128)
        ensures
            pct == self.percent(),
    {
        if self.total == 0 {
            0
        } else {
            let scaled: u128 = (self.transferred as u128) * 100;
            scaled / (self.total as u128)
        }
    }
}

/// More bytes of the same total never lower the percentage.
pub proof fn lemma_percent_monotone(before: Progress, after: Progress)
    requires
        before.total == after.total,
        before.transferred <= after.transferred,
    ensures
        before.percent() <= after.percent(),
{
    if before.total != 0 {
        let t = before.total as int;
        let a = before.transferred * 100;
        let b = after.transferred * 100;
        assert(a / t <= b / t) by (nonlinear_arith)
            requires
                a <= b,
                t > 0,
        ;
    }
}

/// When all declared bytes are moved the percentage is 100; with more
/// than were declared it is at least 100.
pub proof fn lemma_percent_complete(p: Progress)
    requires
        p.total > 0,
        p.transferred >= p.total,
    ensures
        p.percent() >= 100,
        p.transferred == p.total ==> p.percent() == 100,
{
    let t = p.total as int;
    let a = p.transferred * 100;
    assert(a / t >= 100) by (nonlinear_arith)
        requires
            a >= 100 * t,
            t > 0,
    ;
    if p.transferred == p.total {
        assert((100 * t) / t == 100) by (nonlinear_arith)
            requires
                t > 0,
        ;
    }
}

/// The status of the AirDrop endpoint.
#[derive(Debug)]
pub enum AirDropStatus {
    Idle,
    Connecting,
    Connected,
    Failed(String),
    Transferring(Progress),
}

/// A status as a plain value.
pub enum StatusView {
    Idle,
    Connecting,
    Connected,
    Failed(Seq<char>),
    Transferring(Progress),
}

impl View for AirDropStatus {
    type V = StatusView;

    open spec fn view(&self) -> StatusView {
        match self {
            AirDropStatus::Idle => StatusView::Idle,
            AirDropStatus::Connecting => StatusView::Connecting,
            AirDropStatus::Connected => StatusView::Connected,
            AirDropStatus::Failed(reason) => StatusView::Failed(reason@),
            AirDropStatus::Transferring(p) => StatusView::Transferring(*p),
        }
    }
}

/// What can happen to the endpoint.
#[derive(Debug)]
pub enum TransferEvent {
    /// The server was asked to start.
    StartServer,
    /// A listener was bound.
    ListenerBound,
    /// A file was handed over for sending.
    SendRequested,
    /// A transfer of `total` bytes began: outbound once the handshake
    /// went through, inbound once a peer's transfer was accepted.
    TransferStarted { total: u64 },
    /// One more chunk of `bytes` bytes went over the wire.
    ChunkMoved { bytes: u64 },
    /// The file's end was reached.
    EndOfFile,
    /// An I/O operation failed.
    Fault(String),
    /// Connection setup exceeded its deadline.
    Timeout,
}

/// An event as a plain value.
pub enum EventView {
    StartServer,
    ListenerBound,
    SendRequested,
    TransferStarted { total: u64 },
    ChunkMoved { bytes: u64 },
    EndOfFile,
    Fault(Seq<char>),
    Timeout,
}

impl View for TransferEvent {
    type V = EventView;

    open spec fn view(&self) -> EventView {
        match self {
            TransferEvent::StartServer => EventView::StartServer,
            TransferEvent::ListenerBound => EventView::ListenerBound,
            TransferEvent::SendRequested => EventView::SendRequested,
            TransferEvent::TransferStarted { total } => EventView::TransferStarted {
                total: *total,
            },
            TransferEvent::ChunkMoved { bytes } => EventView::ChunkMoved { bytes: *bytes },
            TransferEvent::EndOfFile => EventView::EndOfFile,
            TransferEvent::Fault(reason) => EventView::Fault(reason@),
            TransferEvent::Timeout => EventView::Timeout,
        }
    }
}

/// The status that follows `status` on `event`. Starting and sending
/// re-attempt from `Connecting` in any state; a fault or a timeout leads
/// to `Failed` in any state; a transfer begins from `Connecting` or
/// `Connected`; every other event acts only in the state it belongs to.
/// An event that does not act leaves the status as it is.
pub open spec fn status_after(status: StatusView, event: EventView) -> StatusView {
    match event {
        EventView::StartServer => StatusView::Connecting,
        EventView::SendRequested => StatusView::Connecting,
        EventView::Fault(reason) => StatusView::Failed(reason),
        EventView::Timeout => StatusView::Failed("timeout"@),
        EventView::ListenerBound => match status {
            StatusView::Connecting => StatusView::Connected,
            _ => status,
        },
        EventView::TransferStarted { total } => match status {
            StatusView::Connecting => StatusView::Transferring(Progress { transferred: 0, total }),
            StatusView::Connected => StatusView::Transferring(Progress { transferred: 0, total }),
            _ => status,
        },
        EventView::ChunkMoved { bytes } => match status {
            StatusView::Transferring(p) => StatusView::Transferring(p.advanced(bytes)),
            _ => status,
        },
        EventView::EndOfFile => match status {
            StatusView::Transferring(_) => StatusView::Connected,
            _ => status,
        },
    }
}

/// The status after a run of events, taken in order.
pub open spec fn status_after_all(status: StatusView, events: Seq<EventView>) -> StatusView
    decreases events.len(),
{
    if events.len() == 0 {
        status
    } else {
        status_after(status_after_all(status, events.drop_last()), events.last())
    }
}

/// The events of sending `chunks` one after another.
pub open spec fn chunk_events(chunks: Seq<u64>) -> Seq<EventView> {
    Seq::new(chunks.len(), |i: int| EventView::ChunkMoved { bytes: chunks[i] })
}

/// The sum of the first `n` chunk sizes.
pub open spec fn sent_after(chunks: Seq<u64>, n: int) -> int
    decreases n,
{
    if n <= 0 {
        0
    } else {
        sent_after(chunks, n - 1) + chunks[n - 1]
    }
}

impl Clone for AirDropStatus {
    fn clone(&self) -> (copy: Self)
        ensures
            copy@ == self@,
    {
        match self {
            AirDropStatus::Idle => AirDropStatus::Idle,
            AirDropStatus::Connecting => AirDropStatus::Connecting,
            AirDropStatus::Connected => AirDropStatus::Connected,
            AirDropStatus::Failed(reason) => AirDropStatus::Failed(reason.clone()),
            AirDropStatus::Transferring(p) => AirDropStatus::Transferring(*p),
        }
    }
}

impl PartialEq for AirDropStatus {
    fn eq(&self, other: &Self) -> (equal: bool) {
        match self {
            AirDropStatus::Idle => match other {
                AirDropStatus::Idle => true,
                _ => false,
            },
            AirDropStatus::Connecting => match other {
                AirDropStatus::Connecting => true,
                _ => false,
            },
            AirDropStatus::Connected => match other {
                AirDropStatus::Connected => true,
                _ => false,
            },
            AirDropStatus::Failed(a) => match other {
                AirDropStatus::Failed(b) => *a == *b,
                _ => false,
            },
            AirDropStatus::Transferring(p) => match other {
                AirDropStatus::Transferring(q) => p.transferred == q.transferred && p.total
                    == q.total,
                _ => false,
            },
        }
    }
}

impl PartialEqSpecImpl for AirDropStatus {
    open spec fn obeys_eq_spec() -> bool {
        true
    }

    open spec fn eq_spec(&self, other: &Self) -> bool {
        self@ == other@
    }
}

impl AirDropStatus {
    /// The status that follows this one on `event`.
    pub fn apply(self, event: TransferEvent) -> (next: AirDropStatus)
        ensures
            next@ == status_after(self@, event@),
    {
        match event {
            TransferEvent::StartServer => AirDropStatus::Connecting,
            TransferEvent::SendRequested => AirDropStatus::Connecting,
            TransferEvent::Fault(reason) => AirDropStatus::Failed(reason),
            TransferEvent::Timeout => AirDropStatus::Failed("timeout".to_string()),
            TransferEvent::ListenerBound => match self {
                AirDropStatus::Connecting => AirDropStatus::Connected,
                other => other,
            },
            TransferEvent::TransferStarted { total } => match self {
                AirDropStatus::Connecting => AirDropStatus::Transferring(Progress::start(total)),
                AirDropStatus::Connected => AirDropStatus::Transferring(Progress::start(total)),
                other => other,
            },
            TransferEvent::ChunkMoved { bytes } => match self {
                AirDropStatus::Transferring(p) => AirDropStatus::Transferring(p.advance(bytes)),
                other => other,
            },
            TransferEvent::EndOfFile => match self {
                AirDropStatus::Transferring(_) => AirDropStatus::Connected,
                other => other,
            },
        }
    }

    /// The progress in whole percent while a transfer runs.
    pub fn progress_percent(&self) -> (pct: Option<u128>)
        ensures
            match self@ {
                StatusView::Transferring(p) => pct == Some(p.percent() as u128),
                _ => pct is None,
            },
    {
        match self {
            AirDropStatus::Transferring(p) => Some(p.percent_floor()),
            _ => None,
        }
    }
}

/// A fault or a timeout leads to `Failed` from every status, with the
/// fault's reason.
pub proof fn lemma_fault_always_fails(status: StatusView, reason: Seq<char>)
    ensures
        status_after(status, EventView::Fault(reason)) == StatusView::Failed(reason),
        status_after(status, EventView::Timeout) is Failed,
{
}

/// No event leads back to `Idle`: a status that is `Idle` after an event
/// was `Idle` before it.
pub proof fn lemma_never_reverts_to_idle(status: StatusView, event: EventView)
    ensures
        status_after(status, event) is Idle ==> status is Idle,
{
}

/// While chunks go out the status stays `Transferring`, with the sum of
/// the chunks sent so far, and its percentage never falls.
pub proof fn lemma_chunks_advance(total: u64, chunks: Seq<u64>, n: int)
    requires
        0 <= n <= chunks.len(),
        sent_after(chunks, chunks.len() as int) <= u64::MAX,
    ensures
        0 <= sent_after(chunks, n) <= sent_after(chunks, chunks.len() as int),
        status_after_all(
            StatusView::Transferring(Progress { transferred: 0, total }),
            chunk_events(chunks).take(n),
        ) == StatusView::Transferring(
            Progress { transferred: sent_after(chunks, n) as u64, total },
        ),
        n > 0 ==> (Progress { transferred: sent_after(chunks, n - 1) as u64, total }).percent() <= (
        Progress { transferred: sent_after(chunks, n) as u64, total }).percent(),
{
    lemma_sent_nonnegative(chunks, n);
    lemma_sent_bounded(chunks, n, chunks.len() as int);
    if n > 0 {
        lemma_chunks_advance_inner(total, chunks, n);
    } else {
        assert(chunk_events(chunks).take(0) =~= Seq::<EventView>::empty());
    }
}

/// The sum of the chunks sent never falls below zero and never falls
/// with one chunk more.
proof fn lemma_sent_nonnegative(chunks: Seq<u64>, n: int)
    ensures
        sent_after(chunks, n) >= 0,
        n > 0 ==> sent_after(chunks, n) >= sent_after(chunks, n - 1),
    decreases n,
{
    if n > 0 {
        lemma_sent_nonnegative(chunks, n - 1);
    }
}

/// The sum of fewer chunks is no more than the sum of more chunks.
proof fn lemma_sent_bounded(chunks: Seq<u64>, n: int, m: int)
    requires
        n <= m,
    ensures
        sent_after(chunks, n) <= sent_after(chunks, m),
    decreases m - n,
{
    lemma_sent_nonnegative(chunks, n);
    if n < m {
        lemma_sent_nonnegative(chunks, m);
        lemma_sent_bounded(chunks, n, m - 1);
    }
}

/// The step of `lemma_chunks_advance` for at least one chunk.
proof fn lemma_chunks_advance_inner(total: u64, chunks: Seq<u64>, n: int)
    requires
        0 < n <= chunks.len(),
        sent_after(chunks, chunks.len() as int) <= u64::MAX,
    ensures
        status_after_all(
            StatusView::Transferring(Progress { transferred: 0, total }),
            chunk_events(chunks).take(n),
        ) == StatusView::Transferring(
            Progress { transferred: sent_after(chunks, n) as u64, total },
        ),
        (Progress { transferred: sent_after(chunks, n - 1) as u64, total }).percent() <= (Progress {
            transferred: sent_after(chunks, n) as u64,
            total,
        }).percent(),
    decreases n,
{
    let start = StatusView::Transferring(Progress { transferred: 0, total });
    let events = chunk_events(chunks);
    lemma_sent_bounded(chunks, n, chunks.len() as int);
    lemma_sent_bounded(chunks, n - 1, n);
    lemma_sent_nonnegative(chunks, n - 1);
    if n == 1 {
        assert(events.take(0) =~= Seq::<EventView>::empty());
        assert(status_after_all(start, events.take(0)) == start);
    } else {
        lemma_chunks_advance_inner(total, chunks, n - 1);
    }
    assert(events.take(n).drop_last() =~= events.take(n - 1));
    assert(events.take(n).last() == EventView::ChunkMoved { bytes: chunks[n - 1] });
    let before = Progress { transferred: sent_after(chunks, n - 1) as u64, total };
    let after = Progress { transferred: sent_after(chunks, n) as u64, total };
    assert(before.advanced(chunks[n - 1]) == after);
    lemma_percent_monotone(before, after);
}

/// A successful send walks `Idle`, `Connecting`, `Connected`,
/// `Connecting`, `Transferring` and ends `Connected`; when the chunks sum
/// to the declared total, the last percentage before the end is 100.
pub proof fn lemma_successful_send(total: u64, chunks: Seq<u64>)
    requires
        total > 0,
        sent_after(chunks, chunks.len() as int) == total,
    ensures
        status_after(StatusView::Idle, EventView::StartServer) == StatusView::Connecting,
        status_after(StatusView::Connecting, EventView::ListenerBound) == StatusView::Connected,
        status_after(StatusView::Connected, EventView::SendRequested) == StatusView::Connecting,
        status_after(StatusView::Connecting, EventView::TransferStarted { total })
            == StatusView::Transferring(Progress { transferred: 0, total }),
        status_after_all(
            StatusView::Transferring(Progress { transferred: 0, total }),
            chunk_events(chunks),
        ) == StatusView::Transferring(Progress { transferred: total, total }),
        (Progress { transferred: total, total }).percent() == 100,
        status_after(
            StatusView::Transferring(Progress { transferred: total, total }),
            EventView::EndOfFile,
        ) == StatusView::Connected,
{
    let n = chunks.len() as int;
    lemma_chunks_advance(total, chunks, n);
    assert(chunk_events(chunks).take(n) =~= chunk_events(chunks));
    lemma_percent_complete(Progress { transferred: total, total });
}

} // verus!
