//! Downloading the acoustic model.
//!
//! The network and the file system belong to the program. A `ModelDownload`
//! tells it, step by step, what to do next; the program does it and reports
//! how it went. The download succeeds only when the file that was written has
//! been verified by loading the model from it. A failure after the file was
//! created has the file removed before it is reported, so that a failed
//! download leaves no model file behind.

use crate::model::{probe_fits, verdict_on, ModelFile, ModelProbe};
use vstd::prelude::*;

verus! {

/// What the program is to do next.
#[derive(Clone, Copy, Debug, PartialEq, Eq, Structural)]
pub enum DownloadStep {
    /// Create the directories above the model file.
    CreateDirectory,
    /// Look whether a model file is already there.
    CheckStale,
    /// Remove the model file that is already there.
    RemoveStale,
    /// Send the request for the model.
    SendRequest,
    /// Create the model file.
    CreateFile,
    /// Wait for the next chunk of the response.
    ReadChunk,
    /// Write the chunk that was read to the file.
    WriteChunk,
    /// Tell the progress sink how far the download has come.
    ReportProgress,
    /// Flush the file.
    Flush,
    /// Try to load the model from the file.
    Verify,
    /// Remove the file, because the download has failed.
    RemoveFile,
    /// Nothing: the download is over.
    Finished,
}

/// How the step that was asked for went.
#[derive(Clone, Debug, PartialEq, Eq)]
pub enum DownloadEvent {
    /// The step succeeded.
    Done,
    /// The step failed; the text says why.
    Failed(String),
    /// The answer to `CheckStale`: whether a model file is there.
    Exists(bool),
    /// The answer to `SendRequest`: the response has begun, with this content
    /// length if the server told one.
    Response(Option<u64>),
    /// An answer to `ReadChunk`: a chunk of this many bytes.
    Chunk(u64),
    /// An answer to `ReadChunk`: the response is complete.
    EndOfStream,
}

/// Why a download failed.
#[derive(Clone, Debug, PartialEq, Eq)]
pub enum DownloadError {
    CreateDirectory(String),
    RemoveStale(String),
    StartRequest(String),
    CreateFile(String),
    Stream(String),
    Write(String),
    Flush(String),
    Verification(String),
}

/// A download error as a value.
pub enum DownloadFault {
    CreateDirectory(Seq<char>),
    RemoveStale(Seq<char>),
    StartRequest(Seq<char>),
    CreateFile(Seq<char>),
    Stream(Seq<char>),
    Write(Seq<char>),
    Flush(Seq<char>),
    Verification(Seq<char>),
}

/// An event as a value.
pub enum EventView {
    Done,
    Failed(Seq<char>),
    Exists(bool),
    Response(Option<u64>),
    Chunk(u64),
    EndOfStream,
}

impl View for DownloadError {
    type V = DownloadFault;

    open spec fn view(&self) -> DownloadFault {
        match self {
            DownloadError::CreateDirectory(text) => DownloadFault::CreateDirectory(text@),
            DownloadError::RemoveStale(text) => DownloadFault::RemoveStale(text@),
            DownloadError::StartRequest(text) => DownloadFault::StartRequest(text@),
            DownloadError::CreateFile(text) => DownloadFault::CreateFile(text@),
            DownloadError::Stream(text) => DownloadFault::Stream(text@),
            DownloadError::Write(text) => DownloadFault::Write(text@),
            DownloadError::Flush(text) => DownloadFault::Flush(text@),
            DownloadError::Verification(text) => DownloadFault::Verification(text@),
        }
    }
}

impl View for DownloadEvent {
    type V = EventView;

    open spec fn view(&self) -> EventView {
        match self {
            DownloadEvent::Done => EventView::Done,
            DownloadEvent::Failed(text) => EventView::Failed(text@),
            DownloadEvent::Exists(exists) => EventView::Exists(*exists),
            DownloadEvent::Response(length) => EventView::Response(*length),
            DownloadEvent::Chunk(len) => EventView::Chunk(*len),
            DownloadEvent::EndOfStream => EventView::EndOfStream,
        }
    }
}

impl DownloadError {
    /// The text of this error.
    pub open spec fn spec_message(&self) -> Seq<char> {
        match self {
            DownloadError::CreateDirectory(text) => "Failed to create model directory: "@ + text@,
            DownloadError::RemoveStale(text) => "Failed to remove existing model: "@ + text@,
            DownloadError::StartRequest(text) => "Failed to start download: "@ + text@,
            DownloadError::CreateFile(text) => "Failed to create model file: "@ + text@,
            DownloadError::Stream(text) => "Download error: "@ + text@,
            DownloadError::Write(text) => "Failed to write chunk: "@ + text@,
            DownloadError::Flush(text) => "Failed to flush file: "@ + text@,
            DownloadError::Verification(text) => "Failed to load downloaded model: "@ + text@,
        }
    }

    /// The text of this error, as it is reported to the caller.
    pub fn message(&self) -> (text: String)
        ensures
            text@ == self.spec_message(),
    {
        let (prefix, detail): (&str, &String) = match self {
            DownloadError::CreateDirectory(text) => ("Failed to create model directory: ", text),
            DownloadError::RemoveStale(text) => ("Failed to remove existing model: ", text),
            DownloadError::StartRequest(text) => ("Failed to start download: ", text),
            DownloadError::CreateFile(text) => ("Failed to create model file: ", text),
            DownloadError::Stream(text) => ("Download error: ", text),
            DownloadError::Write(text) => ("Failed to write chunk: ", text),
            DownloadError::Flush(text) => ("Failed to flush file: ", text),
            DownloadError::Verification(text) => ("Failed to load downloaded model: ", text),
        };
        let mut message: String = prefix.to_owned();
        message.append(detail.as_str());
        message
    }

    /// A copy of this error.
    pub fn duplicate(&self) -> (copy: Self)
        ensures
            copy == *self,
    {
        match self {
            DownloadError::CreateDirectory(text) => DownloadError::CreateDirectory(text.clone()),
            DownloadError::RemoveStale(text) => DownloadError::RemoveStale(text.clone()),
            DownloadError::StartRequest(text) => DownloadError::StartRequest(text.clone()),
            DownloadError::CreateFile(text) => DownloadError::CreateFile(text.clone()),
            DownloadError::Stream(text) => DownloadError::Stream(text.clone()),
            DownloadError::Write(text) => DownloadError::Write(text.clone()),
            DownloadError::Flush(text) => DownloadError::Flush(text.clone()),
            DownloadError::Verification(text) => DownloadError::Verification(text.clone()),
        }
    }
}

/// How far a download has come: the bytes received so far and the length the
/// server announced, zero where it announced none.
#[derive(Clone, Copy, Debug, PartialEq, Eq, Structural)]
pub struct DownloadProgress {
    pub downloaded: u64,
    pub total: u64,
}

/// A share of a whole: `part` of `whole`, where the whole is not nothing and
/// the part is no more than the whole.
#[derive(Clone, Copy, Debug, PartialEq, Eq, Structural)]
pub struct Share {
    pub part: u64,
    pub whole: u64,
}

/// The share of a download that is done. Where the server announced no
/// length, nothing can be said and the share is none of one; where more was
/// received than announced, it is the whole.
pub open spec fn share_done(progress: DownloadProgress) -> Share {
    if progress.total == 0 {
        Share { part: 0, whole: 1 }
    } else if progress.downloaded >= progress.total {
        Share { part: progress.total, whole: progress.total }
    } else {
        Share { part: progress.downloaded, whole: progress.total }
    }
}

/// The share that is done is a share: between nothing and the whole, so that
/// in percent it lies between 0 and 100. It grows as more is received.
pub proof fn lemma_share_is_bounded(progress: DownloadProgress, later: DownloadProgress)
    requires
        later.total == progress.total,
        later.downloaded >= progress.downloaded,
    ensures
        share_done(progress).whole > 0,
        share_done(progress).part <= share_done(progress).whole,
        share_done(later).whole == share_done(progress).whole,
        share_done(later).part >= share_done(progress).part,
{
}

impl DownloadProgress {
    /// The share of the download that is done, from which the percentage for
    /// the progress sink is taken.
    pub fn share(&self) -> (share: Share)
        ensures
            share == share_done(*self),
    {
        if self.total == 0 {
            Share { part: 0, whole: 1 }
        } else if self.downloaded >= self.total {
            Share { part: self.total, whole: self.total }
        } else {
            Share { part: self.downloaded, whole: self.total }
        }
    }
}

/// A download in progress.
pub struct ModelDownload {
    step: DownloadStep,
    progress: DownloadProgress,
    failure: Option<DownloadError>,
}

/// A download as a value.
pub struct DownloadView {
    /// The step that the program is asked to take.
    pub step: DownloadStep,
    /// The bytes received and announced.
    pub progress: DownloadProgress,
    /// The error that ended or will end the download, if any.
    pub failure: Option<DownloadFault>,
}

impl View for ModelDownload {
    type V = DownloadView;

    closed spec fn view(&self) -> DownloadView {
        DownloadView {
            step: self.step,
            progress: self.progress,
            failure: match self.failure {
                Some(error) => Some(error@),
                None => None,
            },
        }
    }
}

/// A download that has not begun: the first step is to create the directory,
/// nothing is received, nothing has failed.
pub open spec fn initial_download() -> DownloadView {
    DownloadView {
        step: DownloadStep::CreateDirectory,
        progress: DownloadProgress { downloaded: 0, total: 0 },
        failure: None,
    }
}

/// The count of received bytes after a chunk of `len` bytes, held at the
/// largest count where it would run over.
pub open spec fn received(downloaded: u64, len: u64) -> u64 {
    if downloaded + len <= u64::MAX {
        (downloaded + len) as u64
    } else {
        u64::MAX
    }
}

/// A download that goes on with `step`.
pub open spec fn proceed(download: DownloadView, step: DownloadStep) -> DownloadView {
    DownloadView { step, ..download }
}

/// A download that ends at once with `fault`: nothing is on disk that would
/// have to be removed.
pub open spec fn fail(download: DownloadView, fault: DownloadFault) -> DownloadView {
    DownloadView { step: DownloadStep::Finished, failure: Some(fault), ..download }
}

/// A download that ends with `fault` once the file has been removed.
pub open spec fn fail_and_remove(download: DownloadView, fault: DownloadFault) -> DownloadView {
    DownloadView { step: DownloadStep::RemoveFile, failure: Some(fault), ..download }
}

/// The download after the program reported `event` for the step it was asked
/// to take. An event that is no answer to that step changes nothing.
pub open spec fn advanced(download: DownloadView, event: EventView) -> DownloadView {
    match (download.step, event) {
        (DownloadStep::CreateDirectory, EventView::Done) => proceed(
            download,
            DownloadStep::CheckStale,
        ),
        (DownloadStep::CreateDirectory, EventView::Failed(text)) => fail(
            download,
            DownloadFault::CreateDirectory(text),
        ),
        (DownloadStep::CheckStale, EventView::Exists(exists)) => proceed(
            download,
            if exists {
                DownloadStep::RemoveStale
            } else {
                DownloadStep::SendRequest
            },
        ),
        (DownloadStep::RemoveStale, EventView::Done) => proceed(download, DownloadStep::SendRequest),
        (DownloadStep::RemoveStale, EventView::Failed(text)) => fail(
            download,
            DownloadFault::RemoveStale(text),
        ),
        (DownloadStep::SendRequest, EventView::Response(length)) => DownloadView {
            step: DownloadStep::CreateFile,
            progress: DownloadProgress {
                downloaded: 0,
                total: match length {
                    Some(bytes) => bytes,
                    None => 0,
                },
            },
            ..download
        },
        (DownloadStep::SendRequest, EventView::Failed(text)) => fail(
            download,
            DownloadFault::StartRequest(text),
        ),
        (DownloadStep::CreateFile, EventView::Done) => proceed(download, DownloadStep::ReadChunk),
        (DownloadStep::CreateFile, EventView::Failed(text)) => fail(
            download,
            DownloadFault::CreateFile(text),
        ),
        (DownloadStep::ReadChunk, EventView::Chunk(len)) => DownloadView {
            step: DownloadStep::WriteChunk,
            progress: DownloadProgress {
                downloaded: received(download.progress.downloaded, len),
                ..download.progress
            },
            ..download
        },
        (DownloadStep::ReadChunk, EventView::EndOfStream) => proceed(download, DownloadStep::Flush),
        (DownloadStep::ReadChunk, EventView::Failed(text)) => fail_and_remove(
            download,
            DownloadFault::Stream(text),
        ),
        (DownloadStep::WriteChunk, EventView::Done) => proceed(
            download,
            DownloadStep::ReportProgress,
        ),
        (DownloadStep::WriteChunk, EventView::Failed(text)) => fail_and_remove(
            download,
            DownloadFault::Write(text),
        ),
        (DownloadStep::ReportProgress, EventView::Done) => proceed(
            download,
            DownloadStep::ReadChunk,
        ),
        (DownloadStep::ReportProgress, EventView::Failed(_)) => proceed(
            download,
            DownloadStep::ReadChunk,
        ),
        (DownloadStep::Flush, EventView::Done) => proceed(download, DownloadStep::Verify),
        (DownloadStep::Flush, EventView::Failed(text)) => fail_and_remove(
            download,
            DownloadFault::Flush(text),
        ),
        (DownloadStep::Verify, EventView::Done) => proceed(download, DownloadStep::Finished),
        (DownloadStep::Verify, EventView::Failed(text)) => fail_and_remove(
            download,
            DownloadFault::Verification(text),
        ),
        (DownloadStep::RemoveFile, EventView::Done) => proceed(download, DownloadStep::Finished),
        (DownloadStep::RemoveFile, EventView::Failed(_)) => proceed(
            download,
            DownloadStep::Finished,
        ),
        _ => download,
    }
}

/// The result of a download that is over.
pub open spec fn result_of(download: DownloadView) -> Option<Result<(), DownloadFault>> {
    if download.step == DownloadStep::Finished {
        match download.failure {
            Some(fault) => Some(Err(fault)),
            None => Some(Ok(())),
        }
    } else {
        None
    }
}

impl ModelDownload {
    /// A download that has not begun.
    pub fn new() -> (download: Self)
        ensures
            download@ == initial_download(),
    {
        ModelDownload {
            step: DownloadStep::CreateDirectory,
            progress: DownloadProgress { downloaded: 0, total: 0 },
            failure: None,
        }
    }

    /// The step the program is asked to take.
    pub fn step(&self) -> (step: DownloadStep)
        ensures
            step == self@.step,
    {
        self.step
    }

    /// The bytes received so far and the length announced.
    pub fn progress(&self) -> (progress: DownloadProgress)
        ensures
            progress == self@.progress,
    {
        self.progress
    }

    /// The result, once the download is over.
    pub fn result(&self) -> (result: Option<Result<(), DownloadError>>)
        ensures
            match result {
                Some(Ok(())) => result_of(self@) == Some(Ok::<(), DownloadFault>(())),
                Some(Err(error)) => result_of(self@) == Some(Err::<(), _>(error@)),
                None => result_of(self@) is None,
            },
    {
        match self.step {
            DownloadStep::Finished => match &self.failure {
                Some(error) => Some(Err(error.duplicate())),
                None => Some(Ok(())),
            },
            _ => None,
        }
    }

    /// Takes in how the step that was asked for went and answers with the
    /// next step.
    pub fn advance(&mut self, event: DownloadEvent) -> (next: DownloadStep)
        ensures
            final(self)@ == advanced(old(self)@, event@),
            next == final(self)@.step,
    {
        match (self.step, event) {
            (DownloadStep::CreateDirectory, DownloadEvent::Done) => {
                self.step = DownloadStep::CheckStale;
            },
            (DownloadStep::CreateDirectory, DownloadEvent::Failed(text)) => {
                self.failure = Some(DownloadError::CreateDirectory(text));
                self.step = DownloadStep::Finished;
            },
            (DownloadStep::CheckStale, DownloadEvent::Exists(exists)) => {
                if exists {
                    self.step = DownloadStep::RemoveStale;
                } else {
                    self.step = DownloadStep::SendRequest;
                }
            },
            (DownloadStep::RemoveStale, DownloadEvent::Done) => {
                self.step = DownloadStep::SendRequest;
            },
            (DownloadStep::RemoveStale, DownloadEvent::Failed(text)) => {
                self.failure = Some(DownloadError::RemoveStale(text));
                self.step = DownloadStep::Finished;
            },
            (DownloadStep::SendRequest, DownloadEvent::Response(length)) => {
                let total: u64 = match length {
                    Some(bytes) => bytes,
                    None => 0,
                };
                self.progress = DownloadProgress { downloaded: 0, total };
                self.step = DownloadStep::CreateFile;
            },
            (DownloadStep::SendRequest, DownloadEvent::Failed(text)) => {
                self.failure = Some(DownloadError::StartRequest(text));
                self.step = DownloadStep::Finished;
            },
            (DownloadStep::CreateFile, DownloadEvent::Done) => {
                self.step = DownloadStep::ReadChunk;
            },
            (DownloadStep::CreateFile, DownloadEvent::Failed(text)) => {
                self.failure = Some(DownloadError::CreateFile(text));
                self.step = DownloadStep::Finished;
            },
            (DownloadStep::ReadChunk, DownloadEvent::Chunk(len)) => {
                let downloaded: u64 = if len <= u64::MAX - self.progress.downloaded {
                    self.progress.downloaded + len
                } else {
                    u64::MAX
                };
                self.progress = DownloadProgress { downloaded, total: self.progress.total };
                self.step = DownloadStep::WriteChunk;
            },
            (DownloadStep::ReadChunk, DownloadEvent::EndOfStream) => {
                self.step = DownloadStep::Flush;
            },
            (DownloadStep::ReadChunk, DownloadEvent::Failed(text)) => {
                self.failure = Some(DownloadError::Stream(text));
                self.step = DownloadStep::RemoveFile;
            },
            (DownloadStep::WriteChunk, DownloadEvent::Done) => {
                self.step = DownloadStep::ReportProgress;
            },
            (DownloadStep::WriteChunk, DownloadEvent::Failed(text)) => {
                self.failure = Some(DownloadError::Write(text));
                self.step = DownloadStep::RemoveFile;
            },
            (DownloadStep::ReportProgress, DownloadEvent::Done) => {
                self.step = DownloadStep::ReadChunk;
            },
            (DownloadStep::ReportProgress, DownloadEvent::Failed(_)) => {
                self.step = DownloadStep::ReadChunk;
            },
            (DownloadStep::Flush, DownloadEvent::Done) => {
                self.step = DownloadStep::Verify;
            },
            (DownloadStep::Flush, DownloadEvent::Failed(text)) => {
                self.failure = Some(DownloadError::Flush(text));
                self.step = DownloadStep::RemoveFile;
            },
            (DownloadStep::Verify, DownloadEvent::Done) => {
                self.step = DownloadStep::Finished;
            },
            (DownloadStep::Verify, DownloadEvent::Failed(text)) => {
                self.failure = Some(DownloadError::Verification(text));
                self.step = DownloadStep::RemoveFile;
            },
            (DownloadStep::RemoveFile, DownloadEvent::Done) => {
                self.step = DownloadStep::Finished;
            },
            (DownloadStep::RemoveFile, DownloadEvent::Failed(_)) => {
                self.step = DownloadStep::Finished;
            },
            _ => {},
        }
        self.step
    }
}

/// The download after the program reported `events`, one after another, from
/// the beginning.
pub open spec fn run(events: Seq<EventView>) -> DownloadView
    decreases events.len(),
{
    if events.len() == 0 {
        initial_download()
    } else {
        advanced(run(events.drop_last()), events.last())
    }
}

/// Whether, in the course of `events`, the program was asked to take `step`
/// and answered with `Done`.
pub open spec fn succeeded_at(events: Seq<EventView>, step: DownloadStep) -> bool
    decreases events.len(),
{
    events.len() > 0 && (succeeded_at(events.drop_last(), step) || (run(events.drop_last()).step
        == step && events.last() == EventView::Done))
}

/// Whether, in the course of `events` or at their end, the program was asked
/// to take `step`.
pub open spec fn asked_for(events: Seq<EventView>, step: DownloadStep) -> bool
    decreases events.len(),
{
    run(events).step == step || (events.len() > 0 && asked_for(events.drop_last(), step))
}

/// The steps at which a model file, complete or not, lies on disk.
pub open spec fn file_in_place(step: DownloadStep) -> bool {
    step == DownloadStep::ReadChunk || step == DownloadStep::WriteChunk || step
        == DownloadStep::ReportProgress || step == DownloadStep::Flush || step
        == DownloadStep::Verify
}

/// What holds of a download at every point of every run.
///
/// An error is on record exactly while the file is being removed or after the
/// download has ended in failure. A download that has ended without error
/// was verified. The file was created in this run exactly if it is in place,
/// its removal was asked for, or the download has succeeded. Once the removal
/// is asked for, the download waits for it or has failed; once it is done,
/// the download is over. A download that failed after its file was created
/// has asked for the file's removal.
pub proof fn lemma_run_is_sound(events: Seq<EventView>)
    ensures
        asked_for(events, DownloadStep::RemoveFile) ==> run(events).step
            == DownloadStep::RemoveFile || (run(events).step == DownloadStep::Finished && run(
            events,
        ).failure is Some),
        succeeded_at(events, DownloadStep::RemoveFile) ==> run(events).step
            == DownloadStep::Finished,
        run(events).failure is Some ==> run(events).step == DownloadStep::RemoveFile || run(
            events,
        ).step == DownloadStep::Finished,
        run(events).step == DownloadStep::RemoveFile ==> run(events).failure is Some,
        result_of(run(events)) == Some(Ok::<(), DownloadFault>(())) ==> succeeded_at(
            events,
            DownloadStep::Verify,
        ),
        succeeded_at(events, DownloadStep::CreateFile) <==> file_in_place(run(events).step)
            || asked_for(events, DownloadStep::RemoveFile) || result_of(run(events)) == Some(
            Ok::<(), DownloadFault>(()),
        ),
        run(events).step == DownloadStep::Finished && run(events).failure is Some && succeeded_at(
            events,
            DownloadStep::CreateFile,
        ) ==> asked_for(events, DownloadStep::RemoveFile),
    decreases events.len(),
{
    if events.len() > 0 {
        lemma_run_is_sound(events.drop_last());
    }
}

/// The bytes of all chunks that were taken in during `events`, counted as
/// `received` counts them.
pub open spec fn bytes_taken(events: Seq<EventView>) -> u64
    decreases events.len(),
{
    if events.len() == 0 {
        0
    } else {
        let before = bytes_taken(events.drop_last());
        match (run(events.drop_last()).step, events.last()) {
            (DownloadStep::ReadChunk, EventView::Chunk(len)) => received(before, len),
            _ => before,
        }
    }
}

/// The count of received bytes is the running total of the chunks taken in,
/// so each progress report tells the sum of all chunks up to the one just
/// written.
pub proof fn lemma_progress_is_running_total(events: Seq<EventView>)
    ensures
        run(events).progress.downloaded == bytes_taken(events),
        !file_in_place(run(events).step) && run(events).step != DownloadStep::RemoveFile && run(
            events,
        ).step != DownloadStep::Finished ==> bytes_taken(events) == 0,
    decreases events.len(),
{
    if events.len() > 0 {
        lemma_progress_is_running_total(events.drop_last());
    }
}

/// The model file after a run of a download, given the file before it and
/// taking each event as a true report: removing gives an absent file, creating
/// gives a file that is not verified, and a verification that succeeds shows
/// the file to be a model.
pub open spec fn file_after(file: ModelFile, events: Seq<EventView>) -> ModelFile
    decreases events.len(),
{
    if events.len() == 0 {
        file
    } else {
        let before = file_after(file, events.drop_last());
        match (run(events.drop_last()).step, events.last()) {
            (DownloadStep::RemoveStale, EventView::Done) => ModelFile::Absent,
            (DownloadStep::CreateFile, EventView::Done) => ModelFile::Unverified,
            (DownloadStep::Verify, EventView::Done) => ModelFile::Verified,
            (DownloadStep::RemoveFile, EventView::Done) => ModelFile::Absent,
            _ => before,
        }
    }
}

/// A download never leaves an unverified file behind that could pass for a
/// model. If it succeeds, the file on disk is verified. If it fails after its
/// file was created, be it because the stream broke off, a write or the
/// flush failed or the file did not load, the file on disk is not verified:
/// it is absent if its removal worked, and is a file that does not load
/// otherwise.
pub proof fn lemma_download_leaves_no_unverified_model(file: ModelFile, events: Seq<EventView>)
    ensures
        result_of(run(events)) == Some(Ok::<(), DownloadFault>(())) ==> file_after(file, events)
            == ModelFile::Verified,
        file_in_place(run(events).step) || run(events).step == DownloadStep::RemoveFile
            ==> file_after(file, events) == ModelFile::Unverified,
        run(events).step == DownloadStep::Finished && run(events).failure is Some && succeeded_at(
            events,
            DownloadStep::CreateFile,
        ) ==> file_after(file, events) != ModelFile::Verified,
        run(events).step == DownloadStep::Finished && run(events).failure is Some && succeeded_at(
            events,
            DownloadStep::RemoveFile,
        ) ==> file_after(file, events) == ModelFile::Absent,
    decreases events.len(),
{
    lemma_run_is_sound(events);
    if events.len() > 0 {
        lemma_run_is_sound(events.drop_last());
        lemma_download_leaves_no_unverified_model(file, events.drop_last());
    }
}

/// After a download that failed with its file created, for one because the
/// stream broke off half way, a validity check finds no valid model, whether
/// or not the file could be removed.
pub proof fn lemma_failed_download_fails_the_check(
    file: ModelFile,
    events: Seq<EventView>,
    probe: ModelProbe,
)
    requires
        run(events).step == DownloadStep::Finished,
        run(events).failure is Some,
        succeeded_at(events, DownloadStep::CreateFile),
        probe_fits(probe, file_after(file, events)),
    ensures
        !verdict_on(probe).valid,
{
    lemma_download_leaves_no_unverified_model(file, events);
}

} // verus!
