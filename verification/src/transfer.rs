use vstd::prelude::*;

verus! {

/// Size of the chunks in which file bytes are read and written (64KB).
pub const FILE_CHUNK_SIZE: u64 = 65536;

/// Maximum time to wait for the completion signal, in seconds.
pub const MAX_DONE_WAIT_SECS: u64 = 10;

/// The completion line the receiver sends after full receipt: the 5 bytes of
/// `DONE\n`.
pub open spec fn done_signal_bytes() -> Seq<u8> {
    seq![68u8, 79u8, 78u8, 69u8, 10u8]
}

/// The `DONE\n` line as bytes.
pub fn done_signal() -> (r: Vec<u8>)
    ensures
        r@ == done_signal_bytes(),
{
    let mut v: Vec<u8> = Vec::new();
    v.push(68);
    v.push(79);
    v.push(78);
    v.push(69);
    v.push(10);
    proof {
        assert(v@ =~= done_signal_bytes());
    }
    v
}

/// Whether a buffer holds exactly the `DONE\n` line.
pub fn is_done_signal(buf: &[u8]) -> (r: bool)
    ensures
        r == (buf@ == done_signal_bytes()),
{
    if buf.len() != 5 {
        return false;
    }
    let r = buf[0] == 68 && buf[1] == 79 && buf[2] == 78 && buf[3] == 69 && buf[4] == 10;
    proof {
        if r {
            assert(buf@ =~= done_signal_bytes());
        }
    }
    r
}

/// What one read of the socket did to the receive loop.
#[derive(Debug, Clone, Copy, PartialEq, Eq, Structural)]
pub enum ReceiveStep {
    Continuing,
    Complete,
    PeerClosed,
}

/// The receiver's side of the streaming loop: how many bytes are expected,
/// how many arrived, and whether the peer closed early.
///
/// The byte counter only ever grows; it is observational and decides nothing
/// but when the loop stops.
pub struct ReceiveProgress {
    pub expected: u64,
    pub received: u64,
    pub closed: bool,
}

impl ReceiveProgress {
    /// A fresh loop expecting the declared file size.
    pub fn new(expected: u64) -> (r: ReceiveProgress)
        ensures
            r.expected == expected,
            r.received == 0,
            !r.closed,
    {
        ReceiveProgress { expected, received: 0, closed: false }
    }

    /// All expected bytes have arrived.
    pub open spec fn spec_complete(&self) -> bool {
        self.received >= self.expected
    }

    /// The loop should issue another read: the peer has not closed and bytes
    /// are still owed.
    pub open spec fn spec_wants_more(&self) -> bool {
        !self.closed && self.received < self.expected
    }

    pub fn is_complete(&self) -> (r: bool)
        ensures
            r == self.spec_complete(),
    {
        self.received >= self.expected
    }

    pub fn wants_more(&self) -> (r: bool)
        ensures
            r == self.spec_wants_more(),
    {
        !self.closed && self.received < self.expected
    }

    /// The monotonically increasing byte counter, for progress display.
    pub fn received(&self) -> (r: u64)
        ensures
            r == self.received,
    {
        self.received
    }

    /// The declared file size.
    pub fn expected(&self) -> (r: u64)
        ensures
            r == self.expected,
    {
        self.expected
    }

    /// Record one read of `n` bytes.
    ///
    /// Zero bytes means the peer closed: the loop stops with the counter
    /// unchanged. Otherwise the counter grows by `n` and the loop is complete
    /// exactly when it has reached the expected size.
    pub fn on_read(&mut self, n: u64) -> (r: ReceiveStep)
        requires
            old(self).spec_wants_more(),
            n <= u64::MAX - old(self).received,
        ensures
            final(self).expected == old(self).expected,
            n == 0 ==> final(self).closed && final(self).received == old(self).received && r
                == ReceiveStep::PeerClosed,
            n > 0 ==> !final(self).closed && final(self).received == old(self).received + n && (r
                == ReceiveStep::Complete <==> final(self).spec_complete()) && (r
                == ReceiveStep::Continuing <==> !final(self).spec_complete()),
    {
        if n == 0 {
            self.closed = true;
            ReceiveStep::PeerClosed
        } else {
            self.received = self.received + n;
            if self.received >= self.expected {
                ReceiveStep::Complete
            } else {
                ReceiveStep::Continuing
            }
        }
    }

    /// The partial-transfer report: actually received versus expected bytes.
    pub fn report(&self) -> (r: (u64, u64))
        ensures
            r.0 == self.received,
            r.1 == self.expected,
    {
        (self.received, self.expected)
    }
}

/// The sum of the first `k` chunk sizes.
pub open spec fn sum_to(chunks: Seq<u64>, k: int) -> int
    decreases k,
{
    if k <= 0 {
        0
    } else {
        sum_to(chunks, k - 1) + chunks[k - 1]
    }
}

/// Prefix sums never decrease, and grow strictly over positive chunks.
pub proof fn lemma_sum_to_mono(chunks: Seq<u64>, j: int, k: int)
    requires
        0 <= j <= k,
    ensures
        sum_to(chunks, j) <= sum_to(chunks, k),
        j < k && (forall|t: int| j <= t < k ==> chunks[t] > 0) ==> sum_to(chunks, j) < sum_to(
            chunks,
            k,
        ),
    decreases k - j,
{
    if j < k {
        lemma_sum_to_mono(chunks, j, k - 1);
    }
}

/// Run the receiver's loop over a given split of the peer's bytes into
/// chunks, a zero-sized chunk standing for the peer closing the connection.
/// Returns the final progress and how many reads were issued.
///
/// If the peer sends exactly `expected` bytes in positive chunks, the counter
/// ends at `expected` and every chunk, but no further read, is consumed. If
/// the peer closes after `k` positive chunks that fall short, the loop stops
/// right there and reports the partial count against `expected`.
pub fn receive_from_chunks(expected: u64, chunks: &Vec<u64>) -> (r: (ReceiveProgress, usize))
    requires
        forall|k: int| 0 <= k <= chunks@.len() ==> sum_to(chunks@, k) <= u64::MAX,
    ensures
        r.0.expected == expected,
        r.1 <= chunks@.len(),
        (sum_to(chunks@, chunks@.len() as int) == expected && (forall|j: int|
            0 <= j < chunks@.len() ==> chunks@[j] > 0)) ==> r.0.received == expected
            && r.0.spec_complete() && !r.0.closed && r.1 == chunks@.len(),
        forall|k: int|
            (0 <= k < chunks@.len() && chunks@[k] == 0 && (forall|j: int|
                0 <= j < k ==> chunks@[j] > 0) && sum_to(chunks@, k) < expected) ==> !r.0.spec_complete()
                && r.0.closed && r.0.received == sum_to(chunks@, k) && r.1 == k + 1,
{
    let n = chunks.len();
    let mut st = ReceiveProgress::new(expected);
    let mut reads: usize = 0;
    while reads < n && !st.closed && st.received < st.expected
        invariant
            st.expected == expected,
            reads <= n,
            n == chunks@.len(),
            forall|k: int| 0 <= k <= chunks@.len() ==> sum_to(chunks@, k) <= u64::MAX,
            st.received == sum_to(chunks@, reads as int),
            !st.closed ==> forall|j: int| 0 <= j < reads ==> chunks@[j] > 0,
            st.closed ==> reads >= 1 && chunks@[reads - 1] == 0 && (forall|j: int|
                0 <= j < reads - 1 ==> chunks@[j] > 0) && st.received < st.expected,
        decreases n - reads,
    {
        let c = chunks[reads];
        proof {
            assert(sum_to(chunks@, reads + 1) == sum_to(chunks@, reads as int) + chunks@[
                reads as int]);
            lemma_sum_to_mono(chunks@, 0, reads as int);
        }
        let _ = st.on_read(c);
        reads += 1;
    }
    proof {
        let cs = chunks@;
        let len = cs.len() as int;
        // The full-receipt case: positive chunks summing to `expected`.
        if sum_to(cs, len) == expected && (forall|j: int| 0 <= j < len ==> cs[j] > 0) {
            assert(!st.closed);
            if reads < n {
                assert(st.received >= st.expected);
                lemma_sum_to_mono(cs, reads as int, len);
                assert(sum_to(cs, reads as int) == sum_to(cs, len));
                assert(false);
            }
            assert(st.received == expected);
        }
        // The early-close case: a zero chunk after a short positive prefix.
        assert forall|k: int|
            (0 <= k < len && cs[k] == 0 && (forall|j: int| 0 <= j < k ==> cs[j] > 0) && sum_to(
                cs,
                k,
            ) < expected) implies !st.spec_complete() && st.closed && st.received == sum_to(cs, k)
            && reads == k + 1 by {
            if st.closed {
                // Both `k` and `reads - 1` are the first zero chunk.
                if reads - 1 < k {
                    assert(cs[reads - 1] > 0);
                    assert(false);
                } else if k < reads - 1 {
                    assert(cs[k] > 0);
                    assert(false);
                }
                assert(reads == k + 1);
                assert(sum_to(cs, k + 1) == sum_to(cs, k) + cs[k]);
            } else {
                // Not closed: every consumed chunk is positive, so the loop
                // cannot have passed the zero chunk at `k`.
                if reads > k {
                    assert(cs[k] > 0);
                    assert(false);
                }
                lemma_sum_to_mono(cs, reads as int, k);
                assert(st.received < expected);
                assert(reads == n);
                assert(k < n);
                assert(false);
            }
        }
    }
    (st, reads)
}

/// The sender's side of the streaming loop: total bytes to send and bytes
/// sent so far.
pub struct SendProgress {
    pub total: u64,
    pub sent: u64,
}

impl SendProgress {
    /// Never more is sent than the file holds.
    pub open spec fn wf(&self) -> bool {
        self.sent <= self.total
    }

    /// A fresh loop for a file of `total` bytes.
    pub fn new(total: u64) -> (r: SendProgress)
        ensures
            r.wf(),
            r.total == total,
            r.sent == 0,
    {
        SendProgress { total, sent: 0 }
    }

    /// How many bytes the next chunk holds: a full chunk while one remains,
    /// the remainder at the end.
    pub fn next_chunk_len(&self) -> (r: u64)
        requires
            self.wf(),
        ensures
            r == if self.total - self.sent < FILE_CHUNK_SIZE {
                (self.total - self.sent) as int
            } else {
                FILE_CHUNK_SIZE as int
            },
    {
        let remaining = self.total - self.sent;
        if remaining < FILE_CHUNK_SIZE {
            remaining
        } else {
            FILE_CHUNK_SIZE
        }
    }

    /// Record that `n` more bytes went out.
    pub fn chunk_sent(&mut self, n: u64)
        requires
            old(self).wf(),
            n <= old(self).total - old(self).sent,
        ensures
            final(self).wf(),
            final(self).total == old(self).total,
            final(self).sent == old(self).sent + n,
    {
        self.sent = self.sent + n;
    }

    /// Every byte of the file went out.
    pub fn is_finished(&self) -> (r: bool)
        ensures
            r == (self.sent == self.total),
    {
        self.sent == self.total
    }
}

/// Whether the sender saw its transfer confirmed.
#[derive(Debug, Clone, Copy, PartialEq, Eq, Structural)]
pub enum CompletionStatus {
    Confirmed,
    Unconfirmed,
}

/// Judge the receiver's completion signal as the sender saw it: `None` for a
/// timeout or read failure, `Some` for the bytes that arrived.
///
/// The transfer is confirmed exactly when the exact `DONE\n` line arrived;
/// anything else leaves it unconfirmed, which the caller treats as a warning,
/// not a failure.
pub fn completion_status(reply: &Option<Vec<u8>>) -> (r: CompletionStatus)
    ensures
        r == CompletionStatus::Confirmed <==> match reply {
            Some(b) => b@ == done_signal_bytes(),
            None => false,
        },
{
    match reply {
        Some(b) => {
            if is_done_signal(b.as_slice()) {
                CompletionStatus::Confirmed
            } else {
                CompletionStatus::Unconfirmed
            }
        },
        None => CompletionStatus::Unconfirmed,
    }
}

} // verus!
