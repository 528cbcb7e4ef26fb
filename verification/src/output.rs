//! Where the downloaded bytes end up, what is cleaned away, and how the
//! response is reported: the decisions around the transfer itself.

use crate::download::{AbortReason, AbortView};
use crate::text::{decimal, decimal_of, pairs};
use vstd::prelude::*;
use vstd::string::StringExecFns;

verus! {

/// The file that receives the bytes while they stream in.
#[derive(Clone, Debug, PartialEq, Eq)]
pub enum StagingTarget {
    /// The output file that the user named. It is the final place of the
    /// artifact.
    Persistent(String),
    /// A uniquely named temporary file. Its content is relayed to standard
    /// output afterwards, and it never outlives the invocation.
    Transient(String),
}

/// A `StagingTarget` with its path as a sequence of characters.
pub enum StagingView {
    Persistent(Seq<char>),
    Transient(Seq<char>),
}

impl View for StagingTarget {
    type V = StagingView;

    open spec fn view(&self) -> StagingView {
        match *self {
            StagingTarget::Persistent(path) => StagingView::Persistent(path@),
            StagingTarget::Transient(path) => StagingView::Transient(path@),
        }
    }
}

impl StagingView {
    /// The path of the staging file.
    pub open spec fn path(self) -> Seq<char> {
        match self {
            StagingView::Persistent(path) => path,
            StagingView::Transient(path) => path,
        }
    }
}

/// The staging target of an invocation: the output file where the user named
/// one, else the temporary file `temporary`.
pub open spec fn staging_for(filename: Option<Seq<char>>, temporary: Seq<char>) -> StagingView {
    match filename {
        Some(name) => StagingView::Persistent(name),
        None => StagingView::Transient(temporary),
    }
}

/// How a temporary staging file's name begins.
pub fn temporary_prefix() -> (s: &'static str)
    ensures
        s@ == "fetch-"@,
{
    "fetch-"
}

/// How a temporary staging file's name ends.
pub fn temporary_suffix() -> (s: &'static str)
    ensures
        s@ == ".download"@,
{
    ".download"
}

/// Whether a temporary staging file is needed: the user named no output
/// file.
pub fn needs_temporary(filename: &Option<String>) -> (r: bool)
    ensures
        r == (*filename is None),
{
    filename.is_none()
}

/// The staging target of an invocation: the output file where the user named
/// one, else the fresh temporary file `temporary`, which is not looked at
/// otherwise.
pub fn get_filename(filename: &Option<String>, temporary: String) -> (target: StagingTarget)
    ensures
        target@ == staging_for(crate::text::opt_text(*filename), temporary@),
{
    match filename {
        Some(name) => StagingTarget::Persistent(name.clone()),
        None => StagingTarget::Transient(temporary),
    }
}

impl StagingTarget {
    /// The path of the staging file.
    pub fn path(&self) -> (p: &String)
        ensures
            p@ == self@.path(),
    {
        match self {
            StagingTarget::Persistent(path) => path,
            StagingTarget::Transient(path) => path,
        }
    }

    /// Whether the staging file is a temporary one.
    pub fn is_transient(&self) -> (r: bool)
        ensures
            r == (self@ is Transient),
    {
        match self {
            StagingTarget::Persistent(_) => false,
            StagingTarget::Transient(_) => true,
        }
    }
}

/// What becomes of the staging file at the end of an invocation.
#[derive(Clone, Copy, Debug, PartialEq, Eq, Structural)]
pub enum Placement {
    /// The file stays where it is: it is the artifact.
    Keep,
    /// The file is copied to standard output and deleted.
    RelayThenDelete,
    /// The file is deleted and nothing is emitted.
    Delete,
    /// There is no staging file of this invocation to care for.
    Nothing,
}

/// Whether a download that was given up for `reason` left a staging file
/// behind: it did unless it ended before the file was created.
pub open spec fn leaves_file(reason: AbortView) -> bool {
    !(reason is AnnouncedSizeExceeded || reason is CreateFailed)
}

/// What becomes of the staging file. After a verified download a file that
/// the user named is kept, and a temporary one is relayed and deleted. After
/// a download that was given up its file is deleted, whoever named it.
pub open spec fn placement_of(target: StagingView, aborted: Option<AbortView>) -> Placement {
    match aborted {
        None => if target is Persistent {
            Placement::Keep
        } else {
            Placement::RelayThenDelete
        },
        Some(reason) => if leaves_file(reason) {
            Placement::Delete
        } else {
            Placement::Nothing
        },
    }
}

/// Whether the staging file is deleted by the end of the invocation.
pub open spec fn deleted(p: Placement) -> bool {
    p == Placement::RelayThenDelete || p == Placement::Delete
}

/// Decides what becomes of the staging file once the download has ended.
pub fn placement(target: &StagingTarget, aborted: &Option<AbortReason>) -> (p: Placement)
    ensures
        p == placement_of(target@, crate::download::opt_abort(*aborted)),
{
    match aborted {
        None => if target.is_transient() {
            Placement::RelayThenDelete
        } else {
            Placement::Keep
        },
        Some(reason) => match reason {
            AbortReason::AnnouncedSizeExceeded { .. } => Placement::Nothing,
            AbortReason::CreateFailed => Placement::Nothing,
            _ => Placement::Delete,
        },
    }
}

/// A file that the user named is never deleted after a verified download,
/// and a temporary file never survives: once it was created it is deleted,
/// however the download ended.
pub proof fn lemma_output_naming(target: StagingView, aborted: Option<AbortView>)
    ensures
        target is Persistent && aborted is None ==> !deleted(placement_of(target, aborted)),
        target is Transient && !(aborted is Some && !leaves_file(aborted->0)) ==> deleted(
            placement_of(target, aborted),
        ),
{
}

/// After a checksum mismatch, a breach of the size ceiling or a failed read
/// or write no staging file remains, whether the user named it or not.
pub proof fn lemma_abort_deletes(target: StagingView, reason: AbortView)
    requires
        reason is ChecksumMismatch || reason is SizeExceeded || reason is ReadFailed
            || reason is WriteFailed,
    ensures
        placement_of(target, Some(reason)) == Placement::Delete,
{
}

/// How many bytes of the staging file are relayed at a time.
pub const RELAY_CHUNK: usize = 10240;

/// What to do after one read of the staging file while it is relayed.
#[derive(Clone, Copy, Debug, PartialEq, Eq, Structural)]
pub enum RelayStep {
    /// Write this many bytes of the buffer to standard output, as they are,
    /// and read on.
    Emit(usize),
    /// The file is exhausted: delete it.
    Finish,
    /// Reading failed: delete the file and fail.
    Fail,
}

/// What follows from the result of one read: `None` for a failed read, else
/// the number of bytes that were read.
pub open spec fn relay_after(read: Option<usize>) -> RelayStep {
    match read {
        None => RelayStep::Fail,
        Some(n) => if n > 0 {
            RelayStep::Emit(n)
        } else {
            RelayStep::Finish
        },
    }
}

/// Decides how the relay goes on after one read of the staging file.
pub fn relay_step(read: Option<usize>) -> (step: RelayStep)
    ensures
        step == relay_after(read),
{
    match read {
        None => RelayStep::Fail,
        Some(n) => if n > 0 {
            RelayStep::Emit(n)
        } else {
            RelayStep::Finish
        },
    }
}

/// What a response status means for the invocation.
#[derive(Clone, Copy, Debug, PartialEq, Eq, Structural)]
pub enum Disposition {
    /// Go on with the download; the status does not count as a failure.
    Proceed,
    /// Give up at once and discard the body.
    Abort,
    /// Go on with the download and keep the body, but end in failure.
    KeepBodyMarkFailure,
}

/// Whether a status is one of success.
pub open spec fn is_success(status: u16) -> bool {
    200 <= status < 300
}

/// What a status means under the two failure switches. A status of success
/// always proceeds. Another one aborts at once under `fail`, else keeps the
/// body and marks the failure under `fail_with_body`, else is tolerated.
pub open spec fn disposition_of(status: u16, fail: bool, fail_with_body: bool) -> Disposition {
    if is_success(status) {
        Disposition::Proceed
    } else if fail {
        Disposition::Abort
    } else if fail_with_body {
        Disposition::KeepBodyMarkFailure
    } else {
        Disposition::Proceed
    }
}

/// Decides what a response status means for the invocation.
pub fn on_status(status: u16, fail: bool, fail_with_body: bool) -> (d: Disposition)
    ensures
        d == disposition_of(status, fail, fail_with_body),
{
    if 200 <= status && status < 300 {
        Disposition::Proceed
    } else if fail {
        Disposition::Abort
    } else if fail_with_body {
        Disposition::KeepBodyMarkFailure
    } else {
        Disposition::Proceed
    }
}

/// The diagnostic line for a status that is not one of success.
pub open spec fn status_message_of(status: u16) -> Seq<char> {
    "bad http status: "@ + decimal_of(status as nat)
}

/// The diagnostic line for a status that is not one of success.
pub fn status_message(status: u16) -> (text: String)
    ensures
        text@ == status_message_of(status),
{
    let mut text = String::from_str("bad http status: ");
    text.append(decimal(status as u64).as_str());
    text
}

/// The exit code of the invocation: 0 after a download that was not given up
/// under a status that proceeds, 1 otherwise.
pub open spec fn exit_code_of(d: Disposition, aborted: bool) -> u8 {
    if d == Disposition::Proceed && !aborted {
        0
    } else {
        1
    }
}

/// The exit code of the invocation.
pub fn exit_code(d: Disposition, aborted: bool) -> (code: u8)
    ensures
        code == exit_code_of(d, aborted),
{
    match d {
        Disposition::Proceed => if aborted {
            1
        } else {
            0
        },
        _ => 1,
    }
}

/// The header lines of a response, each a name, a colon, a space, the value
/// and a line feed.
pub open spec fn header_block(headers: Seq<(Seq<char>, Seq<char>)>) -> Seq<char>
    decreases headers.len(),
{
    if headers.len() == 0 {
        Seq::empty()
    } else {
        header_block(headers.drop_last()) + headers.last().0 + ": "@ + headers.last().1 + "\n"@
    }
}

/// The echo of a response's metadata: the status line, made of the protocol
/// version and the status as received, then one line for each header, then
/// an empty line.
pub open spec fn metadata_of(
    version: Seq<char>,
    status: Seq<char>,
    headers: Seq<(Seq<char>, Seq<char>)>,
) -> Seq<char> {
    version + " "@ + status + "\n"@ + header_block(headers) + "\n"@
}

/// Renders the echo of a response's metadata, which precedes the body where
/// it is asked for.
pub fn metadata_echo(version: &str, status: &str, headers: &Vec<(String, String)>) -> (text:
    String)
    ensures
        text@ == metadata_of(version@, status@, pairs(headers@)),
{
    let mut text = String::from_str(version);
    text.append(" ");
    text.append(status);
    text.append("\n");
    let ghost head = text@;
    let ghost all = pairs(headers@);
    let mut i: usize = 0;
    proof {
        assert(head + header_block(all.take(0)) =~= head);
    }
    while i < headers.len()
        invariant
            i <= headers@.len(),
            all == pairs(headers@),
            text@ == head + header_block(all.take(i as int)),
        decreases headers@.len() - i,
    {
        let ghost before = text@;
        text.append(headers[i].0.as_str());
        text.append(": ");
        text.append(headers[i].1.as_str());
        text.append("\n");
        proof {
            let next = all.take(i + 1);
            assert(next.drop_last() =~= all.take(i as int));
            assert(next.last() == (headers@[i as int].0@, headers@[i as int].1@));
            assert(text@ =~= head + header_block(next));
        }
        i += 1;
    }
    proof {
        assert(all.take(i as int) =~= all);
    }
    text.append("\n");
    text
}

} // verus!
