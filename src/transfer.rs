use vstd::prelude::*;
use crate::error::DownloadError;

verus! {

/// Where a transfer stands.
#[derive(Clone, Copy, Debug, PartialEq, Eq, Structural)]
pub enum Phase {
    /// The request has been sent; its response head is awaited.
    Requesting,
    /// The destination file is being opened.
    Opening,
    /// The next chunk of the body is awaited.
    Receiving,
    /// A chunk is being appended to the destination.
    Writing,
    /// The whole body has been written.
    Complete,
    /// The transfer failed; the destination keeps what was written.
    Aborted,
}

/// What the transport and the file system report back to a transfer.
#[derive(Debug)]
pub enum Event {
    /// The response head arrived, with its declared length if any.
    Responded { content_length: Option<u64> },
    /// The request could not be made.
    RequestFailed,
    /// The destination was opened, truncated, for writing.
    Opened,
    /// The destination could not be opened.
    OpenFailed,
    /// The next chunk of the body arrived.
    Received(Vec<u8>),
    /// The transport failed while the body was being read.
    ReceiveFailed,
    /// The pending chunk was appended to the destination.
    Written,
    /// The pending chunk could not be appended.
    WriteFailed,
    /// The body has no more chunks.
    Ended,
}

/// What a transfer asks of the transport, the file system and the progress
/// display next.
#[derive(Debug)]
pub enum Action {
    /// Open the destination for writing, truncating it, and show progress
    /// against this total.
    Open { total: u64 },
    /// Append these bytes to the destination.
    Write(Vec<u8>),
    /// Show this many bytes as done, then wait for the next chunk.
    Receive { position: u64 },
    /// Show this many bytes as done and close the progress display.
    Finish { position: u64 },
    /// Stop; the transfer failed.
    Abort(DownloadError),
}

/// The state of a transfer as numbers and byte sequences.
pub struct TransferModel {
    pub url: Seq<char>,
    pub path: Seq<char>,
    pub phase: Phase,
    /// The declared length of the body.
    pub total: nat,
    /// The progress shown: bytes written, capped at `total`.
    pub position: nat,
    /// The chunk being written.
    pub pending: Seq<u8>,
    /// Everything appended to the destination, in order.
    pub written: Seq<u8>,
}

/// The state of a transfer that has sent its request.
pub open spec fn initial(url: Seq<char>, path: Seq<char>) -> TransferModel {
    TransferModel {
        url,
        path,
        phase: Phase::Requesting,
        total: 0,
        position: 0,
        pending: Seq::empty(),
        written: Seq::empty(),
    }
}

/// Whether an event can occur in a phase.
pub open spec fn accepts(phase: Phase, e: Event) -> bool {
    match phase {
        Phase::Requesting => e is Responded || e is RequestFailed,
        Phase::Opening => e is Opened || e is OpenFailed,
        Phase::Receiving => e is Received || e is ReceiveFailed || e is Ended,
        Phase::Writing => e is Written || e is WriteFailed,
        Phase::Complete | Phase::Aborted => false,
    }
}

/// The smaller of two numbers.
pub open spec fn min_nat(a: nat, b: nat) -> nat {
    if a <= b {
        a
    } else {
        b
    }
}

/// The state after an event; an event that the phase does not accept
/// changes nothing.
pub open spec fn next(m: TransferModel, e: Event) -> TransferModel {
    if !accepts(m.phase, e) {
        m
    } else {
        match e {
            Event::Responded { content_length: Some(total) } => TransferModel {
                phase: Phase::Opening,
                total: total as nat,
                ..m
            },
            Event::Opened => TransferModel { phase: Phase::Receiving, ..m },
            Event::Received(bytes) => TransferModel { phase: Phase::Writing, pending: bytes@, ..m },
            Event::Written => TransferModel {
                phase: Phase::Receiving,
                position: min_nat(m.position + m.pending.len(), m.total),
                pending: Seq::empty(),
                written: m.written + m.pending,
                ..m
            },
            Event::Ended => TransferModel { phase: Phase::Complete, ..m },
            _ => TransferModel { phase: Phase::Aborted, ..m },
        }
    }
}

/// Whether `a` is the action a transfer in state `m` takes on event `e`.
pub open spec fn fits(m: TransferModel, e: Event, a: Action) -> bool {
    match e {
        Event::Responded { content_length: Some(total) } => a == Action::Open { total },
        Event::Responded { content_length: None } => a matches Action::Abort(
            DownloadError::UnknownContentLength { url },
        ) && url@ == m.url,
        Event::RequestFailed => a matches Action::Abort(DownloadError::TransferStartFailed { url })
            && url@ == m.url,
        Event::Opened => a == Action::Receive { position: m.position as u64 },
        Event::OpenFailed => a matches Action::Abort(DownloadError::DestinationUnwritable { path })
            && path@ == m.path,
        Event::Received(bytes) => a matches Action::Write(w) && w@ == bytes@,
        Event::ReceiveFailed | Event::WriteFailed => a matches Action::Abort(
            DownloadError::WriteFailed { path },
        ) && path@ == m.path,
        Event::Written => a == Action::Receive { position: next(m, e).position as u64 },
        Event::Ended => a == Action::Finish { position: m.position as u64 },
    }
}

/// The state after a sequence of events, taken in order.
pub open spec fn run(m: TransferModel, events: Seq<Event>) -> TransferModel
    decreases events.len(),
{
    if events.len() == 0 {
        m
    } else {
        next(run(m, events.drop_last()), events.last())
    }
}

/// The bytes of a body delivered in chunks, in order.
pub open spec fn body(chunks: Seq<Vec<u8>>) -> Seq<u8>
    decreases chunks.len(),
{
    if chunks.len() == 0 {
        Seq::empty()
    } else {
        body(chunks.drop_last()) + chunks.last()@
    }
}

/// The events of a successful exchange up to the end of the body: a response
/// that declares `total` bytes, the destination opened, then each chunk
/// received and written.
pub open spec fn delivery(total: u64, chunks: Seq<Vec<u8>>) -> Seq<Event>
    decreases chunks.len(),
{
    if chunks.len() == 0 {
        seq![Event::Responded { content_length: Some(total) }, Event::Opened]
    } else {
        delivery(total, chunks.drop_last()).push(Event::Received(chunks.last())).push(
            Event::Written,
        )
    }
}

proof fn lemma_run_push(m: TransferModel, events: Seq<Event>, e: Event)
    ensures
        run(m, events.push(e)) == next(run(m, events), e),
{
    assert(events.push(e).drop_last() =~= events);
}

proof fn lemma_delivery_state(url: Seq<char>, path: Seq<char>, total: u64, chunks: Seq<Vec<u8>>)
    requires
        body(chunks).len() <= total,
    ensures
        run(initial(url, path), delivery(total, chunks)) == (TransferModel {
            url,
            path,
            phase: Phase::Receiving,
            total: total as nat,
            position: body(chunks).len(),
            pending: Seq::empty(),
            written: body(chunks),
        }),
    decreases chunks.len(),
{
    let m0 = initial(url, path);
    if chunks.len() == 0 {
        let responded = Event::Responded { content_length: Some(total) };
        let none = Seq::<Event>::empty();
        lemma_run_push(m0, none, responded);
        lemma_run_push(m0, none.push(responded), Event::Opened);
        assert(none.push(responded).push(Event::Opened) =~= delivery(total, chunks));
    } else {
        let rest = chunks.drop_last();
        lemma_delivery_state(url, path, total, rest);
        let s = delivery(total, rest);
        let received = s.push(Event::Received(chunks.last()));
        lemma_run_push(m0, s, Event::Received(chunks.last()));
        lemma_run_push(m0, received, Event::Written);
    }
}

/// A body whose chunks add up to the declared length ends up in the
/// destination byte for byte, in order, whatever the chunk boundaries; the
/// transfer completes, and the progress it reports at the end is the whole
/// length.
pub proof fn lemma_full_body_written(
    url: Seq<char>,
    path: Seq<char>,
    total: u64,
    chunks: Seq<Vec<u8>>,
)
    requires
        body(chunks).len() == total,
    ensures
        run(initial(url, path), delivery(total, chunks).push(Event::Ended)).phase
            == Phase::Complete,
        run(initial(url, path), delivery(total, chunks).push(Event::Ended)).written == body(
            chunks,
        ),
        run(initial(url, path), delivery(total, chunks).push(Event::Ended)).position == total,
        forall|a: Action|
            #[trigger] fits(run(initial(url, path), delivery(total, chunks)), Event::Ended, a)
                ==> a == (Action::Finish { position: total }),
{
    lemma_delivery_state(url, path, total, chunks);
    lemma_run_push(initial(url, path), delivery(total, chunks), Event::Ended);
}

/// A transport failure while the body is read, or a failed write, aborts the
/// transfer with a write failure on the destination, and leaves what was
/// already written in place.
pub proof fn lemma_failure_keeps_partial_file(m: TransferModel, e: Event)
    requires
        (m.phase == Phase::Receiving && e is ReceiveFailed) || (m.phase == Phase::Writing
            && e is WriteFailed),
    ensures
        next(m, e).phase == Phase::Aborted,
        next(m, e).written == m.written,
        forall|a: Action| #[trigger]
            fits(m, e, a) ==> (a matches Action::Abort(DownloadError::WriteFailed { path })
                && path@ == m.path),
{
}

/// One download in progress: the decisions between the request, the
/// destination file and the progress display.
pub struct Transfer {
    url: String,
    path: String,
    phase: Phase,
    total: u64,
    position: u64,
    pending_len: u64,
    pending: Ghost<Seq<u8>>,
    written: Ghost<Seq<u8>>,
}

impl View for Transfer {
    type V = TransferModel;

    closed spec fn view(&self) -> TransferModel {
        TransferModel {
            url: self.url@,
            path: self.path@,
            phase: self.phase,
            total: self.total as nat,
            position: self.position as nat,
            pending: self.pending@,
            written: self.written@,
        }
    }
}

impl Transfer {
    /// The internal bookkeeping agrees with the model.
    pub closed spec fn wf(&self) -> bool {
        &&& self.position <= self.total
        &&& self.phase == Phase::Requesting ==> self.position == 0
        &&& self.pending_len == self.pending@.len()
    }

    /// A transfer of the body at `url` into the file at `path`, whose
    /// request has been sent.
    pub fn new(url: String, path: String) -> (r: Transfer)
        ensures
            r.wf(),
            r@ == initial(url@, path@),
    {
        Transfer {
            url,
            path,
            phase: Phase::Requesting,
            total: 0,
            position: 0,
            pending_len: 0,
            pending: Ghost(Seq::empty()),
            written: Ghost(Seq::empty()),
        }
    }

    /// Where the transfer stands.
    pub fn phase(&self) -> (r: Phase)
        ensures
            r == self@.phase,
    {
        self.phase
    }

    /// Whether the transfer can take this event now.
    pub fn accepts(&self, event: &Event) -> (r: bool)
        ensures
            r == accepts(self@.phase, *event),
    {
        match self.phase {
            Phase::Requesting => matches!(event, Event::Responded { .. } | Event::RequestFailed),
            Phase::Opening => matches!(event, Event::Opened | Event::OpenFailed),
            Phase::Receiving => matches!(
                event,
                Event::Received(_) | Event::ReceiveFailed | Event::Ended
            ),
            Phase::Writing => matches!(event, Event::Written | Event::WriteFailed),
            Phase::Complete | Phase::Aborted => false,
        }
    }

    /// Takes one event and says what to do next.
    pub fn step(&mut self, event: Event) -> (r: Action)
        requires
            old(self).wf(),
            accepts(old(self)@.phase, event),
        ensures
            final(self).wf(),
            final(self)@ == next(old(self)@, event),
            fits(old(self)@, event, r),
    {
        match event {
            Event::Responded { content_length: Some(total) } => {
                self.phase = Phase::Opening;
                self.total = total;
                Action::Open { total }
            },
            Event::Responded { content_length: None } => {
                self.phase = Phase::Aborted;
                Action::Abort(DownloadError::UnknownContentLength { url: self.url.clone() })
            },
            Event::RequestFailed => {
                self.phase = Phase::Aborted;
                Action::Abort(DownloadError::TransferStartFailed { url: self.url.clone() })
            },
            Event::Opened => {
                self.phase = Phase::Receiving;
                Action::Receive { position: self.position }
            },
            Event::OpenFailed => {
                self.phase = Phase::Aborted;
                Action::Abort(DownloadError::DestinationUnwritable { path: self.path.clone() })
            },
            Event::Received(bytes) => {
                self.phase = Phase::Writing;
                self.pending_len = bytes.len() as u64;
                self.pending = Ghost(bytes@);
                Action::Write(bytes)
            },
            Event::Written => {
                let room = self.total - self.position;
                self.position = if self.pending_len >= room {
                    self.total
                } else {
                    self.position + self.pending_len
                };
                self.phase = Phase::Receiving;
                self.written = Ghost(self.written@ + self.pending@);
                self.pending = Ghost(Seq::empty());
                self.pending_len = 0;
                Action::Receive { position: self.position }
            },
            Event::ReceiveFailed | Event::WriteFailed => {
                self.phase = Phase::Aborted;
                Action::Abort(DownloadError::WriteFailed { path: self.path.clone() })
            },
            Event::Ended => {
                self.phase = Phase::Complete;
                Action::Finish { position: self.position }
            },
        }
    }
}

} // verus!
