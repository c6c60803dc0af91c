use vstd::prelude::*;

use crate::video::Video;
use crate::wire::{
    probe_content_range, probe_content_range_header, reported_offset,
    resume_content_range, resume_content_range_header, resume_offset,
};

verus! {

/// A negotiated upload: the file, the bearer token and the session URI that
/// the server issued for them.
pub struct UploadSession {
    pub video: Video,
    pub auth_token: String,
    pub upload_uri: String,
}

/// Why an upload ended without success.
#[derive(Clone, Debug, PartialEq, Eq)]
pub enum TransferError {
    /// The server answered with a status that is neither success nor
    /// "resume incomplete"; its reply body is kept.
    Rejected { status: u16, body: String },
    /// A probe reply carried a `Range` header not of the form `bytes=0-{n}`.
    MalformedRange,
    /// A probe reply reported an offset behind the one already confirmed, or
    /// at or past the end of the file.
    RangeOutOfBounds,
    /// The local file could not be opened or positioned at the offset.
    SourceUnreadable,
}

/// Where an upload stands.
#[derive(Clone, Debug, PartialEq, Eq)]
pub enum UploadState {
    /// No request has been made; `UploadSession::upload` starts the transfer.
    NotStarted,
    /// A data request that sends the bytes from `offset` on is in flight.
    Uploading { offset: u64 },
    /// The last data request ended early; a status probe is in flight.
    /// `confirmed` is the offset the server had already acknowledged.
    Interrupted { confirmed: u64 },
    Succeeded,
    Failed { reason: TransferError },
}

/// What came back from the request that the last step asked for.
#[derive(Clone, Debug, PartialEq, Eq)]
pub enum UploadEvent {
    /// A data request was answered.
    PutReplied { status: u16, body: String },
    /// A data request broke off at the network level (reset, timeout).
    PutBroken,
    /// The bytes of a data request could not be read from the local file.
    SourceUnreadable,
    /// A status probe was answered, with its `Range` header if it had one.
    ProbeReplied { status: u16, range: Option<String>, body: String },
    /// A status probe broke off at the network level.
    ProbeBroken,
}

/// The request to make next.
#[derive(Clone, Copy, Debug, PartialEq, Eq)]
pub enum UploadRequest {
    /// Send the whole file, without `Content-Range`.
    SendAll { total: u64 },
    /// Send an empty body with `Content-Range: bytes */{total}`.
    Probe { total: u64 },
    /// Send the bytes from `offset` to the end of the file.
    SendFrom { offset: u64, total: u64 },
    /// Nothing more to send.
    Stop,
}

/// Whether a status ends the upload successfully.
pub open spec fn is_success(status: u16) -> bool {
    status == 200 || status == 201
}

/// The status by which the server says that it holds a prefix of the file.
pub const RESUME_INCOMPLETE: u16 = 308;

/// An optional string seen as an optional character sequence.
pub open spec fn opt_string_view(o: Option<String>) -> Option<Seq<char>> {
    match o {
        Some(s) => Some(s@),
        None => None,
    }
}

/// How the upload of a file of `total` bytes moves on from `s` on event `e`,
/// and what to send next. Events that do not belong to the state change
/// nothing and ask for nothing.
pub open spec fn upload_next(total: u64, s: UploadState, e: UploadEvent) -> (UploadState, UploadRequest) {
    match s {
        UploadState::Uploading { offset } => match e {
            UploadEvent::PutReplied { status, body } => {
                if is_success(status) {
                    (UploadState::Succeeded, UploadRequest::Stop)
                } else if status == RESUME_INCOMPLETE {
                    (UploadState::Interrupted { confirmed: offset }, UploadRequest::Probe { total })
                } else {
                    (
                        UploadState::Failed { reason: TransferError::Rejected { status, body } },
                        UploadRequest::Stop,
                    )
                }
            },
            UploadEvent::PutBroken => (
                UploadState::Interrupted { confirmed: offset },
                UploadRequest::Probe { total },
            ),
            UploadEvent::SourceUnreadable => (
                UploadState::Failed { reason: TransferError::SourceUnreadable },
                UploadRequest::Stop,
            ),
            _ => (s, UploadRequest::Stop),
        },
        UploadState::Interrupted { confirmed } => match e {
            UploadEvent::ProbeReplied { status, range, body } => {
                if is_success(status) {
                    (UploadState::Succeeded, UploadRequest::Stop)
                } else if status == RESUME_INCOMPLETE {
                    match reported_offset(opt_string_view(range)) {
                        Some(o) if o <= u64::MAX => {
                            if confirmed <= o && o < total {
                                (
                                    UploadState::Uploading { offset: o as u64 },
                                    UploadRequest::SendFrom { offset: o as u64, total },
                                )
                            } else {
                                (
                                    UploadState::Failed { reason: TransferError::RangeOutOfBounds },
                                    UploadRequest::Stop,
                                )
                            }
                        },
                        _ => (
                            UploadState::Failed { reason: TransferError::MalformedRange },
                            UploadRequest::Stop,
                        ),
                    }
                } else {
                    (
                        UploadState::Failed { reason: TransferError::Rejected { status, body } },
                        UploadRequest::Stop,
                    )
                }
            },
            UploadEvent::ProbeBroken => (s, UploadRequest::Probe { total }),
            _ => (s, UploadRequest::Stop),
        },
        _ => (s, UploadRequest::Stop),
    }
}

/// The state reached from `s` after the events `events`, one after another.
pub open spec fn run_upload(total: u64, s: UploadState, events: Seq<UploadEvent>) -> UploadState
    decreases events.len(),
{
    if events.len() == 0 {
        s
    } else {
        run_upload(total, upload_next(total, s, events[0]).0, events.drop_first())
    }
}

/// The data request ended early: the connection broke, or the server
/// answered "resume incomplete".
pub open spec fn is_interruption(e: UploadEvent) -> bool {
    match e {
        UploadEvent::PutBroken => true,
        UploadEvent::PutReplied { status, .. } => status == RESUME_INCOMPLETE,
        _ => false,
    }
}

/// A probe reply that reports an offset from which the transfer can go on:
/// not behind `confirmed` and short of the end of the file.
pub open spec fn reports_resumable(e: UploadEvent, confirmed: nat, total: nat) -> bool {
    match e {
        UploadEvent::ProbeReplied { status, range, .. } => status == RESUME_INCOMPLETE
            && match reported_offset(opt_string_view(range)) {
            Some(o) => confirmed <= o && o < total,
            None => false,
        },
        _ => false,
    }
}

/// The offset that a resumable probe reply reports.
pub open spec fn probe_offset(e: UploadEvent) -> nat {
    match e {
        UploadEvent::ProbeReplied { range, .. } => match reported_offset(opt_string_view(range)) {
            Some(o) => o,
            None => 0,
        },
        _ => 0,
    }
}

/// Rounds of interruption and probe, each probe reporting an offset at or
/// past the one before, starting from `offset`.
pub open spec fn interruption_rounds(
    total: u64,
    offset: nat,
    rounds: Seq<(UploadEvent, UploadEvent)>,
) -> bool
    decreases rounds.len(),
{
    if rounds.len() == 0 {
        true
    } else {
        is_interruption(rounds[0].0) && reports_resumable(rounds[0].1, offset, total as nat)
            && interruption_rounds(total, probe_offset(rounds[0].1), rounds.drop_first())
    }
}

/// The events of the rounds, in order.
pub open spec fn round_events(rounds: Seq<(UploadEvent, UploadEvent)>) -> Seq<UploadEvent>
    decreases rounds.len(),
{
    if rounds.len() == 0 {
        Seq::empty()
    } else {
        seq![rounds[0].0, rounds[0].1] + round_events(rounds.drop_first())
    }
}

proof fn lemma_run_two(total: u64, s: UploadState, a: UploadEvent, b: UploadEvent, rest: Seq<UploadEvent>)
    ensures
        run_upload(total, s, seq![a, b] + rest)
            == run_upload(total, upload_next(total, upload_next(total, s, a).0, b).0, rest),
{
    let all = seq![a, b] + rest;
    let tail = seq![b] + rest;
    assert(all[0] == a);
    assert(all.drop_first() =~= tail);
    assert(tail[0] == b);
    assert(tail.drop_first() =~= rest);
    let s1 = upload_next(total, s, a).0;
    assert(run_upload(total, s, all) == run_upload(total, s1, tail));
    assert(run_upload(total, s1, tail) == run_upload(total, upload_next(total, s1, b).0, rest));
}

/// However many times a transfer is interrupted and resumed, a data request
/// that is finally answered with 200 or 201 ends the upload in success.
pub proof fn lemma_resume_loop_succeeds(
    total: u64,
    offset: u64,
    rounds: Seq<(UploadEvent, UploadEvent)>,
    status: u16,
    body: String,
)
    requires
        interruption_rounds(total, offset as nat, rounds),
        is_success(status),
    ensures
        run_upload(
            total,
            UploadState::Uploading { offset },
            round_events(rounds).push(UploadEvent::PutReplied { status, body }),
        ) == UploadState::Succeeded,
    decreases rounds.len(),
{
    let last = UploadEvent::PutReplied { status, body };
    if rounds.len() == 0 {
        let evs = round_events(rounds).push(last);
        assert(evs =~= seq![last]);
        assert(evs.drop_first() =~= Seq::<UploadEvent>::empty());
        assert(run_upload(total, UploadState::Uploading { offset }, evs)
            == run_upload(total, UploadState::Succeeded, Seq::<UploadEvent>::empty()));
    } else {
        let (a, b) = rounds[0];
        let rest = rounds.drop_first();
        let o = probe_offset(b);
        assert(round_events(rounds).push(last) =~= seq![a, b] + round_events(rest).push(last));
        lemma_run_two(total, UploadState::Uploading { offset }, a, b, round_events(rest).push(last));
        assert(upload_next(total, UploadState::Uploading { offset }, a).0
            == UploadState::Interrupted { confirmed: offset });
        assert(upload_next(total, UploadState::Interrupted { confirmed: offset }, b).0
            == UploadState::Uploading { offset: o as u64 });
        lemma_resume_loop_succeeds(total, o as u64, rest, status, body);
    }
}

/// The offset that a state stands at: the start of the data request in
/// flight, or the offset confirmed before a probe.
pub open spec fn state_offset(s: UploadState) -> Option<u64> {
    match s {
        UploadState::Uploading { offset } => Some(offset),
        UploadState::Interrupted { confirmed } => Some(confirmed),
        _ => None,
    }
}

/// The resume offset never decreases across a session, and every resume
/// request names a range inside the file: `0 <= offset < total`.
pub proof fn lemma_offset_never_decreases(total: u64, s: UploadState, e: UploadEvent)
    ensures
        ({
            let (n, r) = upload_next(total, s, e);
            &&& (state_offset(s) is Some && state_offset(n) is Some ==> state_offset(s)->0 <= state_offset(n)->0)
            &&& match r {
                UploadRequest::SendFrom { offset, total: t } => t == total && offset < t,
                _ => true,
            }
        }),
{
}

/// Probing twice, with no data sent in between, gives the same answer: once
/// the offset that a probe reported is taken as confirmed, the same probe
/// reply resumes from that offset again, with the same request.
pub proof fn lemma_probe_idempotent(total: u64, confirmed: u64, reply: UploadEvent)
    ensures
        match upload_next(total, UploadState::Interrupted { confirmed }, reply).0 {
            UploadState::Uploading { offset } => upload_next(total, UploadState::Interrupted { confirmed: offset }, reply)
                == upload_next(total, UploadState::Interrupted { confirmed }, reply),
            _ => true,
        },
{
}

impl UploadRequest {
    /// The `Content-Length` of the request: the whole file, nothing for a
    /// probe, the rest of the file from the resume offset.
    pub fn content_length(&self) -> (r: u64)
        ensures
            r == (match *self {
                UploadRequest::SendAll { total } => total,
                UploadRequest::SendFrom { offset, total } => if offset <= total {
                    (total - offset) as u64
                } else {
                    0
                },
                _ => 0,
            }),
    {
        match *self {
            UploadRequest::SendAll { total } => total,
            UploadRequest::SendFrom { offset, total } => if offset <= total {
                total - offset
            } else {
                0
            },
            _ => 0,
        }
    }

    /// The `Content-Range` header of the request, if it has one.
    pub fn content_range(&self) -> (r: Option<String>)
        ensures
            opt_string_view(r) == (match *self {
                UploadRequest::Probe { total } => Some(probe_content_range(total as nat)),
                UploadRequest::SendFrom { offset, total } => if offset < total {
                    Some(resume_content_range(offset as nat, total as nat))
                } else {
                    None
                },
                _ => None,
            }),
    {
        match *self {
            UploadRequest::Probe { total } => Some(probe_content_range_header(total)),
            UploadRequest::SendFrom { offset, total } => if offset < total {
                Some(resume_content_range_header(offset, total))
            } else {
                None
            },
            _ => None,
        }
    }
}

impl UploadSession {
    /// The session negotiated for `video`, to be driven with `auth_token`.
    pub fn new(video: Video, auth_token: String, upload_uri: String) -> (r: UploadSession)
        ensures
            r.video == video,
            r.auth_token == auth_token,
            r.upload_uri == upload_uri,
    {
        UploadSession { video, auth_token, upload_uri }
    }

    /// Starts the upload: the whole file goes out from offset `0`.
    pub fn upload(&self) -> (r: (UploadState, UploadRequest))
        ensures
            r == (UploadState::Uploading { offset: 0 }, UploadRequest::SendAll { total: self.video.size }),
    {
        (UploadState::Uploading { offset: 0 }, UploadRequest::SendAll { total: self.video.size })
    }

    /// Takes the outcome of the last request and decides the next one.
    pub fn step(&self, state: UploadState, event: UploadEvent) -> (r: (UploadState, UploadRequest))
        ensures
            r == upload_next(self.video.size, state, event),
    {
        let total = self.video.size;
        match state {
            UploadState::Uploading { offset } => match event {
                UploadEvent::PutReplied { status, body } => {
                    if status == 200 || status == 201 {
                        (UploadState::Succeeded, UploadRequest::Stop)
                    } else if status == RESUME_INCOMPLETE {
                        (UploadState::Interrupted { confirmed: offset }, UploadRequest::Probe { total })
                    } else {
                        (
                            UploadState::Failed { reason: TransferError::Rejected { status, body } },
                            UploadRequest::Stop,
                        )
                    }
                },
                UploadEvent::PutBroken => (
                    UploadState::Interrupted { confirmed: offset },
                    UploadRequest::Probe { total },
                ),
                UploadEvent::SourceUnreadable => (
                    UploadState::Failed { reason: TransferError::SourceUnreadable },
                    UploadRequest::Stop,
                ),
                _ => (UploadState::Uploading { offset }, UploadRequest::Stop),
            },
            UploadState::Interrupted { confirmed } => match event {
                UploadEvent::ProbeReplied { status, range, body } => {
                    if status == 200 || status == 201 {
                        (UploadState::Succeeded, UploadRequest::Stop)
                    } else if status == RESUME_INCOMPLETE {
                        let reported = match &range {
                            Some(h) => resume_offset(Some(h.as_str())),
                            None => resume_offset(None),
                        };
                        match reported {
                            Some(o) => {
                                if confirmed <= o && o < total {
                                    (
                                        UploadState::Uploading { offset: o },
                                        UploadRequest::SendFrom { offset: o, total },
                                    )
                                } else {
                                    (
                                        UploadState::Failed { reason: TransferError::RangeOutOfBounds },
                                        UploadRequest::Stop,
                                    )
                                }
                            },
                            None => (
                                UploadState::Failed { reason: TransferError::MalformedRange },
                                UploadRequest::Stop,
                            ),
                        }
                    } else {
                        (
                            UploadState::Failed { reason: TransferError::Rejected { status, body } },
                            UploadRequest::Stop,
                        )
                    }
                },
                UploadEvent::ProbeBroken => (
                    UploadState::Interrupted { confirmed },
                    UploadRequest::Probe { total },
                ),
                _ => (UploadState::Interrupted { confirmed }, UploadRequest::Stop),
            },
            other => (other, UploadRequest::Stop),
        }
    }
}

} // verus!
