use vstd::prelude::*;

verus! {

/// What a progress event reports.
#[derive(Debug)]
pub enum DownloadStatus {
    /// More of the body has arrived.
    Downloading,
    /// The body is complete; it is handed over whole.
    Finished(Vec<u8>),
}

/// One progress observation of a transfer. A `total_size` of zero means
/// that the server did not declare the size of the body.
#[derive(Debug)]
pub struct DownloadInfo {
    pub status: DownloadStatus,
    pub downloaded_size: u64,
    pub total_size: u64,
}

/// Why a transfer was abandoned.
#[derive(Debug, Clone, Copy, PartialEq, Eq, Structural)]
pub enum TransferError {
    /// The connection or the request failed before the body was complete.
    Network,
    /// The server answered with a status outside the success range.
    HttpStatus { code: u16 },
    /// More bytes arrived than the server declared, or than a `u64` counts.
    LongerThanDeclared,
    /// The body ended before the declared size was reached.
    ShorterThanDeclared,
}

/// Whether an HTTP status code reports success.
pub open spec fn is_success(code: u16) -> bool {
    200 <= code <= 299
}

/// Accepts a response status, or rejects the transfer.
pub fn check_status(code: u16) -> (r: Result<(), TransferError>)
    ensures
        is_success(code) <==> r is Ok,
        !is_success(code) ==> r == Err::<(), TransferError>(TransferError::HttpStatus { code }),
{
    if 200 <= code && code <= 299 {
        Ok(())
    } else {
        Err(TransferError::HttpStatus { code })
    }
}

/// The receiving side of one download: the declared size and the bytes so far.
pub struct Transfer {
    total: u64,
    data: Vec<u8>,
}

impl Transfer {
    /// The declared size of the body, zero when unknown.
    pub closed spec fn total(&self) -> u64 {
        self.total
    }

    /// The bytes received so far, in order.
    pub closed spec fn received(&self) -> Seq<u8> {
        self.data@
    }

    /// The count of received bytes fits a `u64`, and stays within the
    /// declared size when there is one.
    pub open spec fn wf(&self) -> bool {
        &&& self.received().len() <= u64::MAX
        &&& self.total() > 0 ==> self.received().len() <= self.total()
    }

    /// Whether a chunk can be taken after what was received: the count stays
    /// within the declared size, or within what a `u64` and memory hold.
    pub open spec fn accepts(&self, chunk: Seq<u8>) -> bool {
        let n = self.received().len() + chunk.len();
        &&& n <= usize::MAX
        &&& if self.total() > 0 {
            n <= self.total()
        } else {
            n <= u64::MAX
        }
    }

    /// `next` and `info` are what taking `chunk` from `self` gives.
    pub open spec fn chunk_step(&self, chunk: Seq<u8>, next: Transfer, info: DownloadInfo) -> bool {
        &&& next.total() == self.total()
        &&& next.received() == self.received() + chunk
        &&& info.status is Downloading
        &&& info.downloaded_size == next.received().len()
        &&& info.total_size == self.total()
    }

    /// Whether the body can end after what was received.
    pub open spec fn complete(&self) -> bool {
        self.total() == 0 || self.received().len() == self.total()
    }

    /// A transfer before any byte, with the declared length if any.
    pub fn start(content_length: Option<u64>) -> (r: Transfer)
        ensures
            r.wf(),
            r.received().len() == 0,
            r.total() == match content_length {
                Some(n) => n,
                None => 0,
            },
    {
        let total = match content_length {
            Some(n) => n,
            None => 0,
        };
        Transfer { total, data: Vec::new() }
    }

    /// Appends a chunk of the body and reports the running count.
    pub fn on_chunk(&mut self, chunk: &[u8]) -> (r: Result<DownloadInfo, TransferError>)
        requires
            old(self).wf(),
        ensures
            final(self).wf(),
            r is Ok <==> old(self).accepts(chunk@),
            r matches Ok(info) ==> old(self).chunk_step(chunk@, *final(self), info),
            r is Err ==> r == Err::<DownloadInfo, TransferError>(TransferError::LongerThanDeclared),
            r is Err ==> *final(self) == *old(self),
    {
        let have = self.data.len() as u64;
        let limit = if self.total > 0 {
            self.total
        } else {
            u64::MAX
        };
        if chunk.len() as u64 > limit - have || chunk.len() > usize::MAX - self.data.len() {
            return Err(TransferError::LongerThanDeclared);
        }
        let ghost before = self.data@;
        let mut i: usize = 0;
        while i < chunk.len()
            invariant
                i <= chunk.len(),
                before.len() + chunk@.len() <= usize::MAX,
                self.total == old(self).total,
                self.data@ == before + chunk@.subrange(0, i as int),
            decreases chunk.len() - i,
        {
            self.data.push(chunk[i]);
            i = i + 1;
            assert(self.data@ =~= before + chunk@.subrange(0, i as int));
        }
        assert(chunk@.subrange(0, chunk.len() as int) =~= chunk@);
        Ok(DownloadInfo {
            status: DownloadStatus::Downloading,
            downloaded_size: self.data.len() as u64,
            total_size: self.total,
        })
    }

    /// Ends the transfer and hands over the whole body.
    pub fn finish(self) -> (r: Result<DownloadInfo, TransferError>)
        requires
            self.wf(),
        ensures
            r is Ok <==> self.complete(),
            r is Err ==> r == Err::<DownloadInfo, TransferError>(TransferError::ShorterThanDeclared),
            r matches Ok(info) ==> {
                &&& info.status matches DownloadStatus::Finished(payload)
                &&& payload@ == self.received()
                &&& info.downloaded_size == self.received().len()
                &&& info.total_size == self.total()
            },
    {
        if self.total > 0 && self.data.len() as u64 != self.total {
            return Err(TransferError::ShorterThanDeclared);
        }
        let n = self.data.len() as u64;
        Ok(DownloadInfo { status: DownloadStatus::Finished(self.data), downloaded_size: n, total_size: self.total })
    }
}

/// A progress event for a body of declared size never reports more bytes
/// than that size.
pub proof fn law_progress_within_total(
    before: Transfer,
    chunk: Seq<u8>,
    after: Transfer,
    info: DownloadInfo,
)
    requires
        before.wf(),
        before.accepts(chunk),
        before.chunk_step(chunk, after, info),
        info.total_size > 0,
    ensures
        info.downloaded_size <= info.total_size,
        after.wf(),
{
}

/// When the body ends right after a progress event, the payload handed over
/// is exactly as long as that event's count, and, for a declared size, that
/// count is the size.
pub proof fn law_payload_matches_last_progress(
    before: Transfer,
    chunk: Seq<u8>,
    after: Transfer,
    info: DownloadInfo,
)
    requires
        before.wf(),
        before.accepts(chunk),
        before.chunk_step(chunk, after, info),
        after.complete(),
    ensures
        after.received().len() == info.downloaded_size,
        info.total_size > 0 ==> info.downloaded_size == info.total_size,
{
}

} // verus!
