//! The engine that consumes a response body chunk by chunk: it counts the
//! bytes against the size ceiling, feeds them to both digests, and at the
//! end compares the digests with the expected ones.
//!
//! The engine does no I/O. Its caller creates the staging file, pulls the
//! chunks and writes them, and tells the engine what happened; the engine
//! says how the transfer stands.

use crate::hashing::{
    hex_encode, hex_lower, md5_absorbed, md5_digest, md5_finalize, md5_new, md5_update,
    sha256_absorbed, sha256_digest, sha256_finalize, sha256_new, sha256_update, Md5Hasher,
    Sha256Hasher,
};
use crate::text::{
    chars_of, decimal, decimal_of, lower_seq, lowered, opt_text, range_is, string_of,
};
use vstd::string::StringExecFns;
use vstd::prelude::*;

verus! {

/// The digest algorithms that a download can be checked with.
#[derive(Clone, Copy, Debug, PartialEq, Eq, Structural)]
pub enum Algorithm {
    Md5,
    Sha256,
}

/// Why a download was given up.
#[derive(Clone, Debug, PartialEq, Eq)]
pub enum AbortReason {
    /// The server announced more bytes than the ceiling allows; nothing was
    /// transferred.
    AnnouncedSizeExceeded { limit: u64, announced: u64 },
    /// The staging file could not be created.
    CreateFailed,
    /// The response body could not be read to its end.
    ReadFailed,
    /// More bytes arrived than the ceiling allows.
    SizeExceeded { limit: u64, received: u64 },
    /// A chunk could not be written to the staging file.
    WriteFailed,
    /// A digest of the downloaded bytes is not the expected one.
    ChecksumMismatch { algorithm: Algorithm, expected: String, actual: String },
}

/// An `AbortReason` with its texts as sequences of characters.
pub enum AbortView {
    AnnouncedSizeExceeded { limit: u64, announced: u64 },
    CreateFailed,
    ReadFailed,
    SizeExceeded { limit: u64, received: u64 },
    WriteFailed,
    ChecksumMismatch { algorithm: Algorithm, expected: Seq<char>, actual: Seq<char> },
}

impl View for AbortReason {
    type V = AbortView;

    open spec fn view(&self) -> AbortView {
        match *self {
            AbortReason::AnnouncedSizeExceeded { limit, announced } => {
                AbortView::AnnouncedSizeExceeded { limit, announced }
            },
            AbortReason::CreateFailed => AbortView::CreateFailed,
            AbortReason::ReadFailed => AbortView::ReadFailed,
            AbortReason::SizeExceeded { limit, received } => AbortView::SizeExceeded {
                limit,
                received,
            },
            AbortReason::WriteFailed => AbortView::WriteFailed,
            AbortReason::ChecksumMismatch { algorithm, expected, actual } => {
                AbortView::ChecksumMismatch { algorithm, expected: expected@, actual: actual@ }
            },
        }
    }
}

/// The name of an algorithm as diagnostics show it.
pub open spec fn algorithm_name(algorithm: Algorithm) -> Seq<char> {
    match algorithm {
        Algorithm::Md5 => "MD5"@,
        Algorithm::Sha256 => "SHA256"@,
    }
}

/// The one diagnostic line that tells why a download was given up.
pub open spec fn message_of(reason: AbortView) -> Seq<char> {
    match reason {
        AbortView::AnnouncedSizeExceeded { limit, announced } => {
            "content length too large: "@ + decimal_of(limit as nat)
                + " bytes max. expected, but "@ + decimal_of(announced as nat)
                + " bytes content length"@
        },
        AbortView::CreateFailed => "failed to create file"@,
        AbortView::ReadFailed => "failed to read response data"@,
        AbortView::SizeExceeded { limit, received } => {
            "content length too large: expected max. "@ + decimal_of(limit as nat) + " bytes, but "@
                + decimal_of(received as nat) + " bytes received"@
        },
        AbortView::WriteFailed => "failed to write file"@,
        AbortView::ChecksumMismatch { algorithm, expected, actual } => {
            algorithm_name(algorithm) + " checksum mismatch: expected "@ + expected + " but was "@
                + actual
        },
    }
}

impl AbortReason {
    /// The one diagnostic line that tells why the download was given up.
    pub fn message(&self) -> (text: String)
        ensures
            text@ == message_of(self@),
    {
        match self {
            AbortReason::AnnouncedSizeExceeded { limit, announced } => {
                let mut text = String::from_str("content length too large: ");
                text.append(decimal(*limit).as_str());
                text.append(" bytes max. expected, but ");
                text.append(decimal(*announced).as_str());
                text.append(" bytes content length");
                text
            },
            AbortReason::CreateFailed => String::from_str("failed to create file"),
            AbortReason::ReadFailed => String::from_str("failed to read response data"),
            AbortReason::SizeExceeded { limit, received } => {
                let mut text = String::from_str("content length too large: expected max. ");
                text.append(decimal(*limit).as_str());
                text.append(" bytes, but ");
                text.append(decimal(*received).as_str());
                text.append(" bytes received");
                text
            },
            AbortReason::WriteFailed => String::from_str("failed to write file"),
            AbortReason::ChecksumMismatch { algorithm, expected, actual } => {
                let mut text = match algorithm {
                    Algorithm::Md5 => String::from_str("MD5"),
                    Algorithm::Sha256 => String::from_str("SHA256"),
                };
                text.append(" checksum mismatch: expected ");
                text.append(expected.as_str());
                text.append(" but was ");
                text.append(actual.as_str());
                text
            },
        }
    }
}

/// The view of an optional reason.
pub open spec fn opt_abort(o: Option<AbortReason>) -> Option<AbortView> {
    match o {
        Some(reason) => Some(reason@),
        None => None,
    }
}

/// Where a transfer stands.
#[derive(Clone, Copy, Debug, PartialEq, Eq, Structural)]
pub enum Phase {
    /// Nothing has happened yet.
    Idle,
    /// The staging file is being created.
    Creating,
    /// Chunks are being received.
    Streaming,
    /// The body has ended; the digests are due.
    Finalizing,
    /// The download is complete and passed every check that was asked for.
    Verified,
    /// The download was given up.
    Aborted,
}

/// How a download ended.
#[derive(Clone, Debug, PartialEq, Eq)]
pub struct DownloadOutcome {
    /// How many bytes were received and handed on for writing.
    pub bytes_written: u64,
    /// The MD5 digest of those bytes, in lower-case hexadecimal.
    pub md5_hex: String,
    /// The SHA-256 digest of those bytes, in lower-case hexadecimal.
    pub sha256_hex: String,
    /// Why the download was given up, if it was.
    pub aborted: Option<AbortReason>,
}

/// A `DownloadOutcome` with its texts as sequences of characters.
pub struct OutcomeView {
    pub bytes_written: nat,
    pub md5_hex: Seq<char>,
    pub sha256_hex: Seq<char>,
    pub aborted: Option<AbortView>,
}

impl View for DownloadOutcome {
    type V = OutcomeView;

    open spec fn view(&self) -> OutcomeView {
        OutcomeView {
            bytes_written: self.bytes_written as nat,
            md5_hex: self.md5_hex@,
            sha256_hex: self.sha256_hex@,
            aborted: opt_abort(self.aborted),
        }
    }
}

impl OutcomeView {
    /// The terminal phase that the outcome stands for.
    pub open spec fn phase(self) -> Phase {
        if self.aborted is None {
            Phase::Verified
        } else {
            Phase::Aborted
        }
    }
}

impl DownloadOutcome {
    /// The terminal phase that the outcome stands for: `Verified` where
    /// nothing was given up, else `Aborted`.
    pub fn phase(&self) -> (p: Phase)
        ensures
            p == self@.phase(),
    {
        if self.aborted.is_none() {
            Phase::Verified
        } else {
            Phase::Aborted
        }
    }
}

/// What the comparison of one digest yields. An expected digest is compared
/// in lower case with the actual one; none expected means no check.
pub open spec fn mismatch(algorithm: Algorithm, expected: Option<Seq<char>>, actual: Seq<char>)
    -> Option<AbortView> {
    match expected {
        Some(e) => if lower_seq(e) == actual {
            None
        } else {
            Some(AbortView::ChecksumMismatch { algorithm, expected: lower_seq(e), actual })
        },
        None => None,
    }
}

/// What the comparison of both digests yields: the MD5 digest is checked
/// first, the SHA-256 digest after it.
pub open spec fn verdict(
    expected_md5: Option<Seq<char>>,
    expected_sha256: Option<Seq<char>>,
    md5_hex: Seq<char>,
    sha256_hex: Seq<char>,
) -> Option<AbortView> {
    match mismatch(Algorithm::Md5, expected_md5, md5_hex) {
        Some(reason) => Some(reason),
        None => mismatch(Algorithm::Sha256, expected_sha256, sha256_hex),
    }
}

/// Compares one digest, given in lower-case hexadecimal, with the expected
/// one, whatever its case.
pub fn check_digest(algorithm: Algorithm, expected: &Option<String>, actual: &String) -> (r:
    Option<AbortReason>)
    ensures
        opt_abort(r) == mismatch(algorithm, opt_text(*expected), actual@),
{
    match expected {
        Some(e) => {
            let want = lowered(&chars_of(e.as_str()));
            let have = chars_of(actual.as_str());
            let n = want.len();
            proof {
                assert(want@.subrange(0, n as int) =~= want@);
            }
            if range_is(&want, 0, n, have.as_slice()) {
                None
            } else {
                Some(
                    AbortReason::ChecksumMismatch {
                        algorithm,
                        expected: string_of(&want, 0, n),
                        actual: actual.clone(),
                    },
                )
            }
        },
        None => None,
    }
}

/// Compares both digests with the expected ones, MD5 first.
pub fn check_digests(
    expected_md5: &Option<String>,
    expected_sha256: &Option<String>,
    md5_hex: &String,
    sha256_hex: &String,
) -> (r: Option<AbortReason>)
    ensures
        opt_abort(r) == verdict(
            opt_text(*expected_md5),
            opt_text(*expected_sha256),
            md5_hex@,
            sha256_hex@,
        ),
{
    match check_digest(Algorithm::Md5, expected_md5, md5_hex) {
        Some(reason) => Some(reason),
        None => check_digest(Algorithm::Sha256, expected_sha256, sha256_hex),
    }
}

/// The state of a download as contracts see it.
pub struct DownloadView {
    pub phase: Phase,
    /// The largest number of bytes that may arrive, if there is a ceiling.
    pub ceiling: Option<u64>,
    pub expected_md5: Option<Seq<char>>,
    pub expected_sha256: Option<Seq<char>>,
    /// The bytes accepted so far, in the order of their arrival.
    pub consumed: Seq<u8>,
}

impl DownloadView {
    /// The same download in another phase.
    pub open spec fn at(self, phase: Phase) -> DownloadView {
        DownloadView { phase, ..self }
    }

    /// Whether an announced length is beyond the ceiling.
    pub open spec fn refuses(self, announced: Option<u64>) -> bool {
        self.ceiling is Some && announced is Some && announced->0 > self.ceiling->0
    }

    /// The download after the response headers came.
    pub open spec fn begun(self, announced: Option<u64>) -> DownloadView {
        if self.refuses(announced) {
            self.at(Phase::Aborted)
        } else {
            self.at(Phase::Creating)
        }
    }

    /// The download after the attempt to create the staging file.
    pub open spec fn created(self, ok: bool) -> DownloadView {
        if ok {
            self.at(Phase::Streaming)
        } else {
            self.at(Phase::Aborted)
        }
    }

    /// Whether the download can take a chunk at all: it is streaming, and the
    /// byte count stays within what can be counted.
    pub open spec fn takes(self, data: Seq<u8>) -> bool {
        self.phase == Phase::Streaming && self.consumed.len() + data.len() <= u64::MAX
    }

    /// Whether a chunk would take the download beyond its ceiling.
    pub open spec fn overflows(self, data: Seq<u8>) -> bool {
        self.ceiling is Some && self.consumed.len() + data.len() > self.ceiling->0
    }

    /// The download after a chunk arrived: beyond the ceiling it is given up
    /// and the chunk is left out, else the chunk is accepted.
    pub open spec fn fed(self, data: Seq<u8>) -> DownloadView {
        if self.overflows(data) {
            self.at(Phase::Aborted)
        } else {
            DownloadView { consumed: self.consumed + data, ..self }
        }
    }

    /// The download after a sequence of chunks, as far as it accepts them.
    pub open spec fn streamed(self, chunks: Seq<Seq<u8>>) -> DownloadView
        decreases chunks.len(),
    {
        if chunks.len() == 0 || self.phase != Phase::Streaming {
            self
        } else {
            self.fed(chunks.first()).streamed(chunks.drop_first())
        }
    }

    /// How the download ends once its body has ended.
    pub open spec fn outcome(self) -> OutcomeView {
        let md5_hex = hex_lower(md5_digest(self.consumed));
        let sha256_hex = hex_lower(sha256_digest(self.consumed));
        OutcomeView {
            bytes_written: self.consumed.len(),
            md5_hex,
            sha256_hex,
            aborted: verdict(self.expected_md5, self.expected_sha256, md5_hex, sha256_hex),
        }
    }
}

/// The bytes of all the chunks, in order.
pub open spec fn joined(chunks: Seq<Seq<u8>>) -> Seq<u8>
    decreases chunks.len(),
{
    if chunks.len() == 0 {
        Seq::empty()
    } else {
        chunks.first() + joined(chunks.drop_first())
    }
}

/// A sequence of chunks that stays within the ceiling is accepted whole, in
/// order, and the download goes on.
pub proof fn lemma_all_accepted(m: DownloadView, chunks: Seq<Seq<u8>>)
    requires
        m.phase == Phase::Streaming,
        m.ceiling is Some ==> m.consumed.len() + joined(chunks).len() <= m.ceiling->0,
    ensures
        m.streamed(chunks) == (DownloadView { consumed: m.consumed + joined(chunks), ..m }),
    decreases chunks.len(),
{
    if chunks.len() == 0 {
        assert(m.consumed + joined(chunks) =~= m.consumed);
    } else {
        let next = m.fed(chunks.first());
        lemma_all_accepted(next, chunks.drop_first());
        assert(next.consumed + joined(chunks.drop_first()) =~= m.consumed + joined(chunks));
    }
}

/// Streaming any number of bytes, in chunks of any sizes, through a fresh
/// download that stays within its ceiling and expects no digest ends in
/// `Verified`: the byte count is the number of bytes streamed, and each
/// digest is the digest of those bytes hashed in one piece.
pub proof fn lemma_round_trip(m: DownloadView, chunks: Seq<Seq<u8>>)
    requires
        m.phase == Phase::Streaming,
        m.consumed.len() == 0,
        m.ceiling is Some ==> joined(chunks).len() <= m.ceiling->0,
        m.expected_md5 is None,
        m.expected_sha256 is None,
    ensures
        m.streamed(chunks).phase == Phase::Streaming,
        m.streamed(chunks).at(Phase::Finalizing).outcome() == (OutcomeView {
            bytes_written: joined(chunks).len(),
            md5_hex: hex_lower(md5_digest(joined(chunks))),
            sha256_hex: hex_lower(sha256_digest(joined(chunks))),
            aborted: None,
        }),
        m.streamed(chunks).at(Phase::Finalizing).outcome().phase() == Phase::Verified,
{
    lemma_all_accepted(m, chunks);
    assert(m.consumed + joined(chunks) =~= joined(chunks));
}

/// A body with more bytes than the ceiling allows is given up while it
/// streams: the download ends in `Aborted`, and what it accepted until then
/// is within the ceiling, so less than the whole body.
pub proof fn lemma_ceiling_stops(m: DownloadView, chunks: Seq<Seq<u8>>)
    requires
        m.phase == Phase::Streaming,
        m.ceiling is Some,
        m.consumed.len() <= m.ceiling->0,
        m.consumed.len() + joined(chunks).len() > m.ceiling->0,
    ensures
        m.streamed(chunks).phase == Phase::Aborted,
        m.streamed(chunks).consumed.len() <= m.ceiling->0,
        m.streamed(chunks).consumed.len() < m.consumed.len() + joined(chunks).len(),
        m.streamed(chunks).consumed.is_prefix_of(m.consumed + joined(chunks)),
    decreases chunks.len(),
{
    if chunks.len() > 0 {
        let next = m.fed(chunks.first());
        if !m.overflows(chunks.first()) {
            lemma_ceiling_stops(next, chunks.drop_first());
            assert(next.consumed + joined(chunks.drop_first()) =~= m.consumed + joined(chunks));
        } else {
            assert(next.streamed(chunks.drop_first()) == next);
        }
        assert(m.streamed(chunks) == next.streamed(chunks.drop_first()));
    }
}

/// An expected digest that differs from the digest of the downloaded bytes
/// is never accepted: the outcome is `Aborted` with a checksum mismatch.
pub proof fn lemma_wrong_digest_aborts(m: DownloadView)
    requires
        (m.expected_md5 is Some && lower_seq(m.expected_md5->0) != hex_lower(
            md5_digest(m.consumed),
        )) || (m.expected_sha256 is Some && lower_seq(m.expected_sha256->0) != hex_lower(
            sha256_digest(m.consumed),
        )),
    ensures
        m.outcome().aborted is Some,
        m.outcome().aborted->0 is ChecksumMismatch,
        m.outcome().phase() == Phase::Aborted,
{
}

/// A download passes exactly when each expected digest is, but for its
/// case, the digest of the downloaded bytes.
pub proof fn lemma_verified_iff_digests_match(m: DownloadView)
    ensures
        m.outcome().phase() == Phase::Verified <==> {
            &&& m.expected_md5 is Some ==> lower_seq(m.expected_md5->0) == hex_lower(
                md5_digest(m.consumed),
            )
            &&& m.expected_sha256 is Some ==> lower_seq(m.expected_sha256->0) == hex_lower(
                sha256_digest(m.consumed),
            )
        },
{
}

/// What became of a chunk that was offered to a download.
#[derive(Clone, Debug, PartialEq, Eq)]
pub enum Offer {
    /// The chunk was counted and hashed; it is to be written.
    Accepted,
    /// The chunk took the download beyond its ceiling, and the download was
    /// given up.
    Stopped(AbortReason),
    /// The download takes no chunk: it is not streaming, or the chunk would
    /// take the byte count beyond what can be counted. Nothing has changed.
    Refused,
}

/// A download in progress.
pub struct Download {
    phase: Phase,
    ceiling: Option<u64>,
    expected_md5: Option<String>,
    expected_sha256: Option<String>,
    received: u64,
    md5: Md5Hasher,
    sha256: Sha256Hasher,
}

impl View for Download {
    type V = DownloadView;

    closed spec fn view(&self) -> DownloadView {
        DownloadView {
            phase: self.phase,
            ceiling: self.ceiling,
            expected_md5: opt_text(self.expected_md5),
            expected_sha256: opt_text(self.expected_sha256),
            consumed: sha256_absorbed(self.sha256),
        }
    }
}

impl Download {
    /// Both digests have been fed exactly the bytes that were counted.
    pub closed spec fn wf(&self) -> bool {
        &&& md5_absorbed(self.md5) == sha256_absorbed(self.sha256)
        &&& self.received == sha256_absorbed(self.sha256).len()
    }

    /// A download that has not begun. `ceiling` is the largest number of
    /// bytes that may arrive, if there is one; the expected digests are
    /// hexadecimal, in any case.
    pub fn new(
        ceiling: Option<u64>,
        expected_md5: Option<String>,
        expected_sha256: Option<String>,
    ) -> (d: Download)
        ensures
            d.wf(),
            d@ == (DownloadView {
                phase: Phase::Idle,
                ceiling,
                expected_md5: opt_text(expected_md5),
                expected_sha256: opt_text(expected_sha256),
                consumed: Seq::empty(),
            }),
    {
        Download {
            phase: Phase::Idle,
            ceiling,
            expected_md5,
            expected_sha256,
            received: 0,
            md5: md5_new(),
            sha256: sha256_new(),
        }
    }

    /// Where the download stands.
    pub fn phase(&self) -> (p: Phase)
        ensures
            p == self@.phase,
    {
        self.phase
    }

    /// How many bytes were accepted so far.
    pub fn received(&self) -> (n: u64)
        requires
            self.wf(),
        ensures
            n == self@.consumed.len(),
    {
        self.received
    }

    /// The response headers came, with the body length that the server
    /// announced, if it announced one. A length beyond the ceiling ends the
    /// download before a byte is transferred; else the staging file is to be
    /// created next.
    pub fn begin(&mut self, announced: Option<u64>) -> (stop: Option<AbortReason>)
        requires
            old(self).wf(),
            old(self)@.phase == Phase::Idle,
        ensures
            final(self).wf(),
            final(self)@ == old(self)@.begun(announced),
            old(self)@.refuses(announced) ==> stop == Some(
                AbortReason::AnnouncedSizeExceeded {
                    limit: old(self)@.ceiling->0,
                    announced: announced->0,
                },
            ),
            !old(self)@.refuses(announced) ==> stop is None,
    {
        match (self.ceiling, announced) {
            (Some(limit), Some(n)) => {
                if n > limit {
                    self.phase = Phase::Aborted;
                    return Some(AbortReason::AnnouncedSizeExceeded { limit, announced: n });
                }
            },
            _ => {},
        }
        self.phase = Phase::Creating;
        None
    }

    /// The staging file was created, or could not be. Without it the
    /// download is given up; with it the chunks are awaited.
    pub fn file_created(&mut self, ok: bool) -> (stop: Option<AbortReason>)
        requires
            old(self).wf(),
            old(self)@.phase == Phase::Creating,
        ensures
            final(self).wf(),
            final(self)@ == old(self)@.created(ok),
            ok ==> stop is None,
            !ok ==> stop == Some(AbortReason::CreateFailed),
    {
        if ok {
            self.phase = Phase::Streaming;
            None
        } else {
            self.phase = Phase::Aborted;
            Some(AbortReason::CreateFailed)
        }
    }

    /// A chunk arrived. It is counted first: beyond the ceiling the download
    /// is given up and the chunk is neither hashed nor to be written. Else
    /// both digests are fed the chunk, and the caller writes it.
    pub fn chunk(&mut self, data: &[u8]) -> (stop: Option<AbortReason>)
        requires
            old(self).wf(),
            old(self)@.phase == Phase::Streaming,
            old(self)@.consumed.len() + data@.len() <= u64::MAX,
        ensures
            final(self).wf(),
            final(self)@ == old(self)@.fed(data@),
            old(self)@.overflows(data@) ==> stop == Some(
                AbortReason::SizeExceeded {
                    limit: old(self)@.ceiling->0,
                    received: (old(self)@.consumed.len() + data@.len()) as u64,
                },
            ),
            !old(self)@.overflows(data@) ==> stop is None,
    {
        let count: u64 = self.received + data.len() as u64;
        match self.ceiling {
            Some(limit) => {
                if count > limit {
                    self.phase = Phase::Aborted;
                    return Some(AbortReason::SizeExceeded { limit, received: count });
                }
            },
            None => {},
        }
        self.received = count;
        sha256_update(&mut self.sha256, data);
        md5_update(&mut self.md5, data);
        None
    }

    /// Offers a chunk to the download, in whatever state it is. A download
    /// that is streaming, and whose byte count the chunk does not take beyond
    /// what can be counted, treats it as `chunk` does. Any other download is
    /// left as it is, and the chunk is refused.
    pub fn offer(&mut self, data: &[u8]) -> (r: Offer)
        requires
            old(self).wf(),
        ensures
            final(self).wf(),
            old(self)@.takes(data@) ==> final(self)@ == old(self)@.fed(data@),
            old(self)@.takes(data@) && old(self)@.overflows(data@) ==> r == Offer::Stopped(
                AbortReason::SizeExceeded {
                    limit: old(self)@.ceiling->0,
                    received: (old(self)@.consumed.len() + data@.len()) as u64,
                },
            ),
            old(self)@.takes(data@) && !old(self)@.overflows(data@) ==> r == Offer::Accepted,
            !old(self)@.takes(data@) ==> final(self)@ == old(self)@ && r == Offer::Refused,
    {
        match self.phase {
            Phase::Streaming => {},
            _ => {
                return Offer::Refused;
            },
        }
        if data.len() as u64 > u64::MAX - self.received {
            return Offer::Refused;
        }
        match self.chunk(data) {
            Some(reason) => Offer::Stopped(reason),
            None => Offer::Accepted,
        }
    }

    /// The body could not be read further: the download is given up.
    pub fn read_failed(&mut self) -> (stop: AbortReason)
        requires
            old(self).wf(),
            old(self)@.phase == Phase::Streaming,
        ensures
            final(self).wf(),
            final(self)@ == old(self)@.at(Phase::Aborted),
            stop == AbortReason::ReadFailed,
    {
        self.phase = Phase::Aborted;
        AbortReason::ReadFailed
    }

    /// The last chunk could not be written: the download is given up.
    pub fn write_failed(&mut self) -> (stop: AbortReason)
        requires
            old(self).wf(),
            old(self)@.phase == Phase::Streaming,
        ensures
            final(self).wf(),
            final(self)@ == old(self)@.at(Phase::Aborted),
            stop == AbortReason::WriteFailed,
    {
        self.phase = Phase::Aborted;
        AbortReason::WriteFailed
    }

    /// The body ended cleanly: no chunk is accepted any more, and the
    /// digests are due.
    pub fn end_of_stream(&mut self)
        requires
            old(self).wf(),
            old(self)@.phase == Phase::Streaming,
        ensures
            final(self).wf(),
            final(self)@ == old(self)@.at(Phase::Finalizing),
    {
        self.phase = Phase::Finalizing;
    }

    /// Completes both digests and compares them with the expected ones. The
    /// outcome carries the byte count and both digests whether or not they
    /// were checked.
    pub fn finalize(self) -> (outcome: DownloadOutcome)
        requires
            self.wf(),
            self@.phase == Phase::Finalizing,
        ensures
            outcome@ == self@.outcome(),
    {
        let md5_raw = md5_finalize(self.md5);
        let sha256_raw = sha256_finalize(self.sha256);
        let md5_hex = hex_encode(md5_raw.as_slice());
        let sha256_hex = hex_encode(sha256_raw.as_slice());
        let aborted = check_digests(
            &self.expected_md5,
            &self.expected_sha256,
            &md5_hex,
            &sha256_hex,
        );
        DownloadOutcome { bytes_written: self.received, md5_hex, sha256_hex, aborted }
    }
}

} // verus!
