use vstd::prelude::*;

use crate::error::FetchError;

verus! {

/// What the progress sink of a download receives.
#[derive(Clone, Copy, Debug, PartialEq, Eq, Structural)]
pub enum DownloadEvent {
    /// One chunk of the body arrived.
    Progress { chunk_length: usize },
    /// The whole body arrived.
    Finished {},
}

/// One read of a response body: a chunk of bytes, or the failure that
/// ended the read.
pub enum Frame {
    Data(Vec<u8>),
    Failed(FetchError),
}

/// A drained response.
pub struct TransferResult {
    pub body: Vec<u8>,
    pub status: u16,
}

/// The failure that ends a sequence of reads, if any.
pub open spec fn failure_of(frames: Seq<Frame>) -> Option<FetchError>
    decreases frames.len(),
{
    if frames.len() == 0 {
        None
    } else {
        match frames[0] {
            Frame::Data(_) => failure_of(frames.drop_first()),
            Frame::Failed(e) => Some(e),
        }
    }
}

/// The bytes delivered before the first failure.
pub open spec fn body_of(frames: Seq<Frame>) -> Seq<u8>
    decreases frames.len(),
{
    if frames.len() == 0 {
        Seq::empty()
    } else {
        match frames[0] {
            Frame::Data(d) => d@ + body_of(frames.drop_first()),
            Frame::Failed(_) => Seq::empty(),
        }
    }
}

/// One progress event per chunk delivered before the first failure, in order.
pub open spec fn progress_of(frames: Seq<Frame>) -> Seq<DownloadEvent>
    decreases frames.len(),
{
    if frames.len() == 0 {
        Seq::empty()
    } else {
        match frames[0] {
            Frame::Data(d) => seq![DownloadEvent::Progress { chunk_length: d@.len() as usize }]
                + progress_of(frames.drop_first()),
            Frame::Failed(_) => Seq::empty(),
        }
    }
}

/// What the sink receives: nothing without a sink; else the progress
/// events, and the terminal event only where the body arrived whole.
pub open spec fn events_of(frames: Seq<Frame>, reporting: bool) -> Seq<DownloadEvent> {
    if !reporting {
        Seq::empty()
    } else if failure_of(frames) is None {
        progress_of(frames).push(DownloadEvent::Finished {})
    } else {
        progress_of(frames)
    }
}

pub open spec fn outcome_of(frames: Seq<Frame>) -> Result<Seq<u8>, FetchError> {
    match failure_of(frames) {
        Some(e) => Err(e),
        None => Ok(body_of(frames)),
    }
}

pub open spec fn transfer_outcome(r: Result<TransferResult, FetchError>) -> Result<Seq<u8>, FetchError> {
    match r {
        Ok(t) => Ok(t.body@),
        Err(e) => Err(e),
    }
}

/// The body of one response as it is read, chunk by chunk.
pub struct Download {
    body: Vec<u8>,
    status: u16,
    reporting: bool,
}

impl Download {
    pub closed spec fn received(&self) -> Seq<u8> {
        self.body@
    }

    pub closed spec fn status_code(&self) -> u16 {
        self.status
    }

    pub closed spec fn reports(&self) -> bool {
        self.reporting
    }

    /// Starts reading a response with the given status; with `reporting`,
    /// each chunk and the end yield an event for the progress sink.
    pub fn new(status: u16, reporting: bool) -> (r: Self)
        ensures
            r.received() == Seq::<u8>::empty(),
            r.status_code() == status,
            r.reports() == reporting,
    {
        Download { body: Vec::new(), status, reporting }
    }

    /// Takes one chunk; the event it returns is to be handed to the sink
    /// before the next read.
    pub fn on_chunk(&mut self, data: &[u8]) -> (r: Option<DownloadEvent>)
        ensures
            final(self).received() == old(self).received() + data@,
            final(self).status_code() == old(self).status_code(),
            final(self).reports() == old(self).reports(),
            r == (if old(self).reports() {
                Some(DownloadEvent::Progress { chunk_length: data@.len() as usize })
            } else {
                None
            }),
    {
        let mut i: usize = 0;
        while i < data.len()
            invariant
                i <= data@.len(),
                self.body@ == old(self).body@ + data@.subrange(0, i as int),
                self.status == old(self).status,
                self.reporting == old(self).reporting,
            decreases data@.len() - i,
        {
            self.body.push(data[i]);
            i += 1;
            assert(self.body@ =~= old(self).body@ + data@.subrange(0, i as int));
        }
        assert(data@.subrange(0, data@.len() as int) =~= data@);
        if self.reporting {
            Some(DownloadEvent::Progress { chunk_length: data.len() })
        } else {
            None
        }
    }

    /// The end of the body: the whole response, and the terminal event for
    /// the sink.
    pub fn finish(self) -> (r: (TransferResult, Option<DownloadEvent>))
        ensures
            r.0.body@ == self.received(),
            r.0.status == self.status_code(),
            r.1 == (if self.reports() { Some(DownloadEvent::Finished {}) } else { None }),
    {
        let event = if self.reporting { Some(DownloadEvent::Finished {}) } else { None };
        (TransferResult { body: self.body, status: self.status }, event)
    }
}

proof fn lemma_frames_step(frames: Seq<Frame>, i: int)
    requires
        0 <= i < frames.len(),
    ensures
        frames.skip(i)[0] == frames[i],
        frames.skip(i).drop_first() == frames.skip(i + 1),
{
    assert(frames.skip(i).drop_first() =~= frames.skip(i + 1));
}

/// Drains a response body read as `frames`, handing each event to the sink
/// (here: the returned list) in the order of the reads. A failure yields no
/// partial body and no terminal event.
pub fn drain(status: u16, frames: &Vec<Frame>, reporting: bool) -> (r: (
    Result<TransferResult, FetchError>,
    Vec<DownloadEvent>,
))
    ensures
        transfer_outcome(r.0) == outcome_of(frames@),
        r.0 is Ok ==> r.0->Ok_0.status == status,
        r.1@ == events_of(frames@, reporting),
{
    let mut download = Download::new(status, reporting);
    let mut events: Vec<DownloadEvent> = Vec::new();
    let mut i: usize = 0;
    assert(frames@.skip(0) =~= frames@);
    while i < frames.len()
        invariant
            i <= frames@.len(),
            download.status_code() == status,
            download.reports() == reporting,
            body_of(frames@) == download.received() + body_of(frames@.skip(i as int)),
            failure_of(frames@) == failure_of(frames@.skip(i as int)),
            reporting ==> progress_of(frames@) == events@ + progress_of(frames@.skip(i as int)),
            !reporting ==> events@ == Seq::<DownloadEvent>::empty(),
        decreases frames@.len() - i,
    {
        proof {
            lemma_frames_step(frames@, i as int);
        }
        match &frames[i] {
            Frame::Data(d) => {
                let ev = download.on_chunk(d.as_slice());
                if let Some(e) = ev {
                    events.push(e);
                }
                proof {
                    let rest = frames@.skip(i + 1);
                    assert(body_of(frames@) =~= download.received() + body_of(rest));
                    if reporting {
                        assert(progress_of(frames@) =~= events@ + progress_of(rest));
                    }
                }
            },
            Frame::Failed(e) => {
                proof {
                    assert(failure_of(frames@) == Some(*e));
                    if reporting {
                        assert(progress_of(frames@) =~= events@);
                    }
                }
                return (Err(*e), events);
            },
        }
        i += 1;
    }
    proof {
        assert(frames@.skip(i as int).len() == 0);
        assert(body_of(frames@) =~= download.received());
        if reporting {
            assert(progress_of(frames@) =~= events@);
        }
    }
    let (result, end) = download.finish();
    if let Some(e) = end {
        events.push(e);
    }
    (Ok(result), events)
}

/// Whether a response status is a success (200 to 299). A number outside
/// 100 to 999 is no HTTP status: a protocol error.
pub fn status_is_success(status: u16) -> (r: Result<bool, FetchError>)
    ensures
        r == (if status < 100 || status > 999 {
            Err(FetchError::ProtocolError)
        } else {
            Ok(200 <= status && status < 300)
        }),
{
    if status < 100 || status > 999 {
        Err(FetchError::ProtocolError)
    } else {
        Ok(200 <= status && status < 300)
    }
}

} // verus!
