//! Downloading a catalogue model into the models directory.
//!
//! A download alternates outside work (the file system, the HTTP request,
//! the body stream, events to the user interface) with decisions.
//! `DownloadJob::advance` makes the decisions and names the next piece of
//! work; the caller does the work and reports its outcome.
use vstd::prelude::*;
use vstd::string::*;
use crate::model_download::{ModelEntry, ModelEntryView};
use crate::server_wait::{is_success, is_success_status};

verus! {

/// Where a download stands.
#[derive(Debug, Clone, Copy, PartialEq, Eq, Structural)]
pub enum DownloadStage {
    /// The models directory is being created.
    CreatingDir,
    /// Is the model already on disk?
    CheckingDest,
    /// The HTTP request is under way.
    Requesting,
    /// The partial file is being created.
    CreatingFile,
    /// The next chunk of the body is awaited.
    AwaitingChunk,
    /// A chunk of `len` bytes is being written to the partial file.
    WritingChunk { len: u64 },
    /// The whole percentage done is being computed.
    ComputingPercent,
    /// A progress report is being sent.
    EmittingProgress,
    /// The partial file is being flushed to disk.
    Syncing,
    /// The partial file is being renamed to the model file.
    Renaming,
    /// The partial file is being copied to the model file.
    Copying,
    /// The partial file is being removed after the copy.
    RemovingPartial,
    /// The completion is being announced.
    EmittingComplete,
    /// The download is over.
    Done,
}

/// A download of one catalogue model to the file `dest_path`, and how far
/// it has come: the expected size, the bytes written so far, and the last
/// whole percentage reported (-1 before the first report).
#[derive(Debug)]
pub struct DownloadJob {
    pub entry: ModelEntry,
    pub dest_path: String,
    pub total: u64,
    pub downloaded: u64,
    pub last_percent: i32,
    pub stage: DownloadStage,
}

/// A download with its texts as character sequences.
pub struct JobView {
    pub entry: ModelEntryView,
    pub dest_path: Seq<char>,
    pub total: u64,
    pub downloaded: u64,
    pub last_percent: i32,
    pub stage: DownloadStage,
}

impl View for DownloadJob {
    type V = JobView;

    open spec fn view(&self) -> JobView {
        JobView {
            entry: self.entry@,
            dest_path: self.dest_path@,
            total: self.total,
            downloaded: self.downloaded,
            last_percent: self.last_percent,
            stage: self.stage,
        }
    }
}

/// What the server answered: its status code, the status as text (such as
/// `404 Not Found`), and the announced body length.
#[derive(Debug)]
pub struct HttpReply {
    pub status: u16,
    pub status_text: String,
    pub content_length: Option<u64>,
}

/// A reply with its texts as character sequences.
pub struct HttpReplyView {
    pub status: u16,
    pub status_text: Seq<char>,
    pub content_length: Option<u64>,
}

impl View for HttpReply {
    type V = HttpReplyView;

    open spec fn view(&self) -> HttpReplyView {
        HttpReplyView {
            status: self.status,
            status_text: self.status_text@,
            content_length: self.content_length,
        }
    }
}

/// A progress report for the user interface.
#[derive(Debug)]
pub struct ProgressReport {
    pub model_id: String,
    pub percent: i32,
    pub downloaded_bytes: u64,
    pub total_bytes: u64,
}

/// A report with its texts as character sequences.
pub struct ProgressReportView {
    pub model_id: Seq<char>,
    pub percent: i32,
    pub downloaded_bytes: u64,
    pub total_bytes: u64,
}

impl View for ProgressReport {
    type V = ProgressReportView;

    open spec fn view(&self) -> ProgressReportView {
        ProgressReportView {
            model_id: self.model_id@,
            percent: self.percent,
            downloaded_bytes: self.downloaded_bytes,
            total_bytes: self.total_bytes,
        }
    }
}

/// The outcome of the piece of outside work that a download asked for.
#[derive(Debug)]
pub enum DownloadEvent {
    /// Whether the models directory exists now, or why not.
    DirCreated(Result<(), String>),
    /// Whether the model file already exists.
    DestChecked(bool),
    /// The server's reply, or why the request failed.
    Responded(Result<HttpReply, String>),
    /// Whether the partial file was created, or why not.
    FileCreated(Result<(), String>),
    /// The length of the next chunk, the stream's error, or `None` at the
    /// end of the body.
    ChunkReceived(Option<Result<u64, String>>),
    /// Whether the chunk was written, or why not.
    ChunkWritten(Result<(), String>),
    /// The whole percentage done.
    PercentComputed(i32),
    /// The progress report was sent.
    ProgressEmitted,
    /// Whether the partial file was flushed, or why not.
    Synced(Result<(), String>),
    /// Whether the partial file was renamed to the model file.
    Renamed(bool),
    /// Whether the partial file was copied to the model file, or why not.
    Copied(Result<(), String>),
    /// The partial file was removed, or its removal was given up.
    PartialRemoved,
    /// The completion was announced.
    CompleteEmitted,
}

/// An event with its texts as character sequences.
pub enum DownloadEventView {
    DirCreated(Result<(), Seq<char>>),
    DestChecked(bool),
    Responded(Result<HttpReplyView, Seq<char>>),
    FileCreated(Result<(), Seq<char>>),
    ChunkReceived(Option<Result<u64, Seq<char>>>),
    ChunkWritten(Result<(), Seq<char>>),
    PercentComputed(i32),
    ProgressEmitted,
    Synced(Result<(), Seq<char>>),
    Renamed(bool),
    Copied(Result<(), Seq<char>>),
    PartialRemoved,
    CompleteEmitted,
}

/// The view of an outcome that carries only an error text.
pub open spec fn unit_result(r: Result<(), String>) -> Result<(), Seq<char>> {
    match r {
        Ok(_) => Ok(()),
        Err(e) => Err(e@),
    }
}

impl View for DownloadEvent {
    type V = DownloadEventView;

    open spec fn view(&self) -> DownloadEventView {
        match self {
            DownloadEvent::DirCreated(r) => DownloadEventView::DirCreated(unit_result(*r)),
            DownloadEvent::DestChecked(b) => DownloadEventView::DestChecked(*b),
            DownloadEvent::Responded(r) => DownloadEventView::Responded(
                match r {
                    Ok(reply) => Ok(reply@),
                    Err(e) => Err(e@),
                },
            ),
            DownloadEvent::FileCreated(r) => DownloadEventView::FileCreated(unit_result(*r)),
            DownloadEvent::ChunkReceived(c) => DownloadEventView::ChunkReceived(
                match c {
                    None => None,
                    Some(Ok(len)) => Some(Ok(*len)),
                    Some(Err(e)) => Some(Err(e@)),
                },
            ),
            DownloadEvent::ChunkWritten(r) => DownloadEventView::ChunkWritten(unit_result(*r)),
            DownloadEvent::PercentComputed(p) => DownloadEventView::PercentComputed(*p),
            DownloadEvent::ProgressEmitted => DownloadEventView::ProgressEmitted,
            DownloadEvent::Synced(r) => DownloadEventView::Synced(unit_result(*r)),
            DownloadEvent::Renamed(b) => DownloadEventView::Renamed(*b),
            DownloadEvent::Copied(r) => DownloadEventView::Copied(unit_result(*r)),
            DownloadEvent::PartialRemoved => DownloadEventView::PartialRemoved,
            DownloadEvent::CompleteEmitted => DownloadEventView::CompleteEmitted,
        }
    }
}

/// The next piece of outside work of a download, or its result.
#[derive(Debug)]
pub enum DownloadAction {
    /// Create the models directory and its parents; report `DirCreated`.
    CreateModelsDir,
    /// Look whether the model file exists; report `DestChecked`.
    CheckDestExists,
    /// Send a GET request to `url`; report `Responded`.
    SendRequest { url: String },
    /// Create the partial file; report `FileCreated`.
    CreatePartialFile,
    /// Await the next chunk of the body; report `ChunkReceived`.
    NextChunk,
    /// Write the chunk to the partial file; report `ChunkWritten`.
    WriteChunk,
    /// Compute the whole percentage of `downloaded` in `total`; report
    /// `PercentComputed`.
    ComputePercent { downloaded: u64, total: u64 },
    /// Send the report as a `download-progress` event; report `ProgressEmitted`.
    EmitProgress(ProgressReport),
    /// Flush the partial file and close it; report `Synced`.
    SyncFile,
    /// Rename the partial file to the model file; report `Renamed`.
    RenamePartial,
    /// Copy the partial file to the model file; report `Copied`.
    CopyPartial,
    /// Remove the partial file, whatever comes of it; report `PartialRemoved`.
    RemovePartial,
    /// Send a `download-complete` event for `model_id`; report `CompleteEmitted`.
    EmitComplete { model_id: String },
    /// The download is over: the model file's path, or why it failed.
    Finish(Result<String, String>),
}

/// An action with its texts as character sequences.
pub enum DownloadActionView {
    CreateModelsDir,
    CheckDestExists,
    SendRequest { url: Seq<char> },
    CreatePartialFile,
    NextChunk,
    WriteChunk,
    ComputePercent { downloaded: u64, total: u64 },
    EmitProgress(ProgressReportView),
    SyncFile,
    RenamePartial,
    CopyPartial,
    RemovePartial,
    EmitComplete { model_id: Seq<char> },
    Finish(Result<Seq<char>, Seq<char>>),
}

impl View for DownloadAction {
    type V = DownloadActionView;

    open spec fn view(&self) -> DownloadActionView {
        match self {
            DownloadAction::CreateModelsDir => DownloadActionView::CreateModelsDir,
            DownloadAction::CheckDestExists => DownloadActionView::CheckDestExists,
            DownloadAction::SendRequest { url } => DownloadActionView::SendRequest { url: url@ },
            DownloadAction::CreatePartialFile => DownloadActionView::CreatePartialFile,
            DownloadAction::NextChunk => DownloadActionView::NextChunk,
            DownloadAction::WriteChunk => DownloadActionView::WriteChunk,
            DownloadAction::ComputePercent { downloaded, total } => DownloadActionView::ComputePercent {
                downloaded: *downloaded,
                total: *total,
            },
            DownloadAction::EmitProgress(r) => DownloadActionView::EmitProgress(r@),
            DownloadAction::SyncFile => DownloadActionView::SyncFile,
            DownloadAction::RenamePartial => DownloadActionView::RenamePartial,
            DownloadAction::CopyPartial => DownloadActionView::CopyPartial,
            DownloadAction::RemovePartial => DownloadActionView::RemovePartial,
            DownloadAction::EmitComplete { model_id } => DownloadActionView::EmitComplete {
                model_id: model_id@,
            },
            DownloadAction::Finish(r) => DownloadActionView::Finish(
                match r {
                    Ok(p) => Ok(p@),
                    Err(e) => Err(e@),
                },
            ),
        }
    }
}

/// The error when the models directory could not be created.
pub open spec fn dir_error_message(detail: Seq<char>) -> Seq<char> {
    "Kunde inte skapa katalog: "@ + detail
}

/// The error when the request or the body stream failed.
pub open spec fn transfer_error_message(detail: Seq<char>) -> Seq<char> {
    "Nedladdningsfel: "@ + detail
}

/// The error when the server answered with a status other than success.
pub open spec fn http_status_message(status_text: Seq<char>) -> Seq<char> {
    "Nedladdningsfel: HTTP "@ + status_text
}

/// The error when the partial file could not be created.
pub open spec fn create_file_message(detail: Seq<char>) -> Seq<char> {
    "Kunde inte skapa fil: "@ + detail
}

/// The error when a chunk could not be written.
pub open spec fn write_error_message(detail: Seq<char>) -> Seq<char> {
    "Skrivfel: "@ + detail
}

/// The error when the partial file could not be flushed.
pub open spec fn sync_error_message(detail: Seq<char>) -> Seq<char> {
    "Sync-fel: "@ + detail
}

/// The error when the partial file could be neither renamed nor copied.
pub open spec fn copy_error_message(detail: Seq<char>) -> Seq<char> {
    "Kunde inte kopiera temp-filen: "@ + detail
}

/// The download moved on to `stage`, with nothing else changed.
pub open spec fn goto(j: JobView, stage: DownloadStage, action: DownloadActionView) -> (
    JobView,
    DownloadActionView,
) {
    (JobView { stage, ..j }, action)
}

/// The download over, with `result`.
pub open spec fn finish(j: JobView, result: Result<Seq<char>, Seq<char>>) -> (
    JobView,
    DownloadActionView,
) {
    (JobView { stage: DownloadStage::Done, ..j }, DownloadActionView::Finish(result))
}

/// Whether a stage waits for this kind of event; a written chunk must also
/// fit the byte counter.
pub open spec fn download_accepts(j: JobView, event: DownloadEventView) -> bool {
    match (j.stage, event) {
        (DownloadStage::CreatingDir, DownloadEventView::DirCreated(_)) => true,
        (DownloadStage::CheckingDest, DownloadEventView::DestChecked(_)) => true,
        (DownloadStage::Requesting, DownloadEventView::Responded(_)) => true,
        (DownloadStage::CreatingFile, DownloadEventView::FileCreated(_)) => true,
        (DownloadStage::AwaitingChunk, DownloadEventView::ChunkReceived(_)) => true,
        (DownloadStage::WritingChunk { len }, DownloadEventView::ChunkWritten(r)) => r is Err
            || j.downloaded + len <= u64::MAX,
        (DownloadStage::ComputingPercent, DownloadEventView::PercentComputed(_)) => true,
        (DownloadStage::EmittingProgress, DownloadEventView::ProgressEmitted) => true,
        (DownloadStage::Syncing, DownloadEventView::Synced(_)) => true,
        (DownloadStage::Renaming, DownloadEventView::Renamed(_)) => true,
        (DownloadStage::Copying, DownloadEventView::Copied(_)) => true,
        (DownloadStage::RemovingPartial, DownloadEventView::PartialRemoved) => true,
        (DownloadStage::EmittingComplete, DownloadEventView::CompleteEmitted) => true,
        _ => false,
    }
}

/// The step of a download that follows the outcome `event`.
pub open spec fn download_step(j: JobView, event: DownloadEventView) -> (JobView, DownloadActionView) {
    match (j.stage, event) {
        (DownloadStage::CreatingDir, DownloadEventView::DirCreated(r)) => match r {
            Ok(_) => goto(j, DownloadStage::CheckingDest, DownloadActionView::CheckDestExists),
            Err(e) => finish(j, Err(dir_error_message(e))),
        },
        (DownloadStage::CheckingDest, DownloadEventView::DestChecked(exists)) => if exists {
            finish(j, Ok(j.dest_path))
        } else {
            goto(j, DownloadStage::Requesting, DownloadActionView::SendRequest { url: j.entry.url })
        },
        (DownloadStage::Requesting, DownloadEventView::Responded(r)) => match r {
            Err(e) => finish(j, Err(transfer_error_message(e))),
            Ok(reply) => if !is_success_status(reply.status) {
                finish(j, Err(http_status_message(reply.status_text)))
            } else {
                (
                    JobView {
                        total: match reply.content_length {
                            Some(n) => n,
                            None => j.entry.size_bytes,
                        },
                        downloaded: 0,
                        last_percent: -1i32,
                        stage: DownloadStage::CreatingFile,
                        ..j
                    },
                    DownloadActionView::CreatePartialFile,
                )
            },
        },
        (DownloadStage::CreatingFile, DownloadEventView::FileCreated(r)) => match r {
            Ok(_) => goto(j, DownloadStage::AwaitingChunk, DownloadActionView::NextChunk),
            Err(e) => finish(j, Err(create_file_message(e))),
        },
        (DownloadStage::AwaitingChunk, DownloadEventView::ChunkReceived(c)) => match c {
            None => goto(j, DownloadStage::Syncing, DownloadActionView::SyncFile),
            Some(Err(e)) => finish(j, Err(transfer_error_message(e))),
            Some(Ok(len)) => goto(j, DownloadStage::WritingChunk { len }, DownloadActionView::WriteChunk),
        },
        (DownloadStage::WritingChunk { len }, DownloadEventView::ChunkWritten(r)) => match r {
            Err(e) => finish(j, Err(write_error_message(e))),
            Ok(_) => {
                let downloaded = (j.downloaded + len) as u64;
                (
                    JobView { downloaded, stage: DownloadStage::ComputingPercent, ..j },
                    DownloadActionView::ComputePercent { downloaded, total: j.total },
                )
            },
        },
        (DownloadStage::ComputingPercent, DownloadEventView::PercentComputed(p)) => if p
            != j.last_percent {
            (
                JobView { last_percent: p, stage: DownloadStage::EmittingProgress, ..j },
                DownloadActionView::EmitProgress(
                    ProgressReportView {
                        model_id: j.entry.id,
                        percent: p,
                        downloaded_bytes: j.downloaded,
                        total_bytes: j.total,
                    },
                ),
            )
        } else {
            goto(j, DownloadStage::AwaitingChunk, DownloadActionView::NextChunk)
        },
        (DownloadStage::EmittingProgress, DownloadEventView::ProgressEmitted) => goto(
            j,
            DownloadStage::AwaitingChunk,
            DownloadActionView::NextChunk,
        ),
        (DownloadStage::Syncing, DownloadEventView::Synced(r)) => match r {
            Ok(_) => goto(j, DownloadStage::Renaming, DownloadActionView::RenamePartial),
            Err(e) => finish(j, Err(sync_error_message(e))),
        },
        (DownloadStage::Renaming, DownloadEventView::Renamed(ok)) => if ok {
            goto(
                j,
                DownloadStage::EmittingComplete,
                DownloadActionView::EmitComplete { model_id: j.entry.id },
            )
        } else {
            goto(j, DownloadStage::Copying, DownloadActionView::CopyPartial)
        },
        (DownloadStage::Copying, DownloadEventView::Copied(r)) => match r {
            Ok(_) => goto(j, DownloadStage::RemovingPartial, DownloadActionView::RemovePartial),
            Err(e) => finish(j, Err(copy_error_message(e))),
        },
        (DownloadStage::RemovingPartial, DownloadEventView::PartialRemoved) => goto(
            j,
            DownloadStage::EmittingComplete,
            DownloadActionView::EmitComplete { model_id: j.entry.id },
        ),
        (DownloadStage::EmittingComplete, DownloadEventView::CompleteEmitted) => finish(
            j,
            Ok(j.dest_path),
        ),
        _ => (j, DownloadActionView::NextChunk),
    }
}

fn error_text(prefix: &str, detail: String) -> (r: String)
    ensures
        r@ == prefix@ + detail@,
{
    let mut r = prefix.to_owned();
    r.append(detail.as_str());
    r
}

impl DownloadJob {
    /// A download of `entry` to the model file at `dest_path`. Its first
    /// piece of work is `CreateModelsDir`.
    pub fn new(entry: ModelEntry, dest_path: String) -> (r: Self)
        ensures
            r@ == (JobView {
                entry: entry@,
                dest_path: dest_path@,
                total: entry@.size_bytes,
                downloaded: 0,
                last_percent: -1i32,
                stage: DownloadStage::CreatingDir,
            }),
    {
        let total = entry.size_bytes;
        DownloadJob {
            entry,
            dest_path,
            total,
            downloaded: 0,
            last_percent: -1,
            stage: DownloadStage::CreatingDir,
        }
    }

    /// Whether the download waits for this kind of event, and a written
    /// chunk fits the byte counter.
    pub fn accepts(&self, event: &DownloadEvent) -> (r: bool)
        ensures
            r == download_accepts(self@, event@),
    {
        match (self.stage, event) {
            (DownloadStage::CreatingDir, DownloadEvent::DirCreated(_)) => true,
            (DownloadStage::CheckingDest, DownloadEvent::DestChecked(_)) => true,
            (DownloadStage::Requesting, DownloadEvent::Responded(_)) => true,
            (DownloadStage::CreatingFile, DownloadEvent::FileCreated(_)) => true,
            (DownloadStage::AwaitingChunk, DownloadEvent::ChunkReceived(_)) => true,
            (DownloadStage::WritingChunk { len }, DownloadEvent::ChunkWritten(r)) => r.is_err()
                || len <= u64::MAX - self.downloaded,
            (DownloadStage::ComputingPercent, DownloadEvent::PercentComputed(_)) => true,
            (DownloadStage::EmittingProgress, DownloadEvent::ProgressEmitted) => true,
            (DownloadStage::Syncing, DownloadEvent::Synced(_)) => true,
            (DownloadStage::Renaming, DownloadEvent::Renamed(_)) => true,
            (DownloadStage::Copying, DownloadEvent::Copied(_)) => true,
            (DownloadStage::RemovingPartial, DownloadEvent::PartialRemoved) => true,
            (DownloadStage::EmittingComplete, DownloadEvent::CompleteEmitted) => true,
            _ => false,
        }
    }

    fn finish_with(&mut self, result: Result<String, String>) -> (a: DownloadAction)
        ensures
            final(self)@ == (JobView { stage: DownloadStage::Done, ..old(self)@ }),
            a@ == DownloadActionView::Finish(
                match result {
                    Ok(p) => Ok(p@),
                    Err(e) => Err(e@),
                },
            ),
    {
        self.stage = DownloadStage::Done;
        DownloadAction::Finish(result)
    }

    /// Takes the outcome of the last piece of work and returns the next one,
    /// or the result of the download.
    pub fn advance(&mut self, event: DownloadEvent) -> (a: DownloadAction)
        requires
            download_accepts(old(self)@, event@),
        ensures
            (final(self)@, a@) == download_step(old(self)@, event@),
    {
        match (self.stage, event) {
            (DownloadStage::CreatingDir, DownloadEvent::DirCreated(r)) => match r {
                Ok(_) => {
                    self.stage = DownloadStage::CheckingDest;
                    DownloadAction::CheckDestExists
                },
                Err(e) => self.finish_with(Err(error_text("Kunde inte skapa katalog: ", e))),
            },
            (DownloadStage::CheckingDest, DownloadEvent::DestChecked(exists)) => {
                if exists {
                    let dest = self.dest_path.clone();
                    self.finish_with(Ok(dest))
                } else {
                    self.stage = DownloadStage::Requesting;
                    DownloadAction::SendRequest { url: self.entry.url.clone() }
                }
            },
            (DownloadStage::Requesting, DownloadEvent::Responded(r)) => match r {
                Err(e) => self.finish_with(Err(error_text("Nedladdningsfel: ", e))),
                Ok(reply) => {
                    if !is_success(reply.status) {
                        self.finish_with(
                            Err(error_text("Nedladdningsfel: HTTP ", reply.status_text)),
                        )
                    } else {
                        self.total = match reply.content_length {
                            Some(n) => n,
                            None => self.entry.size_bytes,
                        };
                        self.downloaded = 0;
                        self.last_percent = -1;
                        self.stage = DownloadStage::CreatingFile;
                        DownloadAction::CreatePartialFile
                    }
                },
            },
            (DownloadStage::CreatingFile, DownloadEvent::FileCreated(r)) => match r {
                Ok(_) => {
                    self.stage = DownloadStage::AwaitingChunk;
                    DownloadAction::NextChunk
                },
                Err(e) => self.finish_with(Err(error_text("Kunde inte skapa fil: ", e))),
            },
            (DownloadStage::AwaitingChunk, DownloadEvent::ChunkReceived(c)) => match c {
                None => {
                    self.stage = DownloadStage::Syncing;
                    DownloadAction::SyncFile
                },
                Some(Err(e)) => self.finish_with(Err(error_text("Nedladdningsfel: ", e))),
                Some(Ok(len)) => {
                    self.stage = DownloadStage::WritingChunk { len };
                    DownloadAction::WriteChunk
                },
            },
            (DownloadStage::WritingChunk { len }, DownloadEvent::ChunkWritten(r)) => match r {
                Err(e) => self.finish_with(Err(error_text("Skrivfel: ", e))),
                Ok(_) => {
                    self.downloaded = self.downloaded + len;
                    self.stage = DownloadStage::ComputingPercent;
                    DownloadAction::ComputePercent { downloaded: self.downloaded, total: self.total }
                },
            },
            (DownloadStage::ComputingPercent, DownloadEvent::PercentComputed(p)) => {
                if p != self.last_percent {
                    self.last_percent = p;
                    self.stage = DownloadStage::EmittingProgress;
                    DownloadAction::EmitProgress(
                        ProgressReport {
                            model_id: self.entry.id.clone(),
                            percent: p,
                            downloaded_bytes: self.downloaded,
                            total_bytes: self.total,
                        },
                    )
                } else {
                    self.stage = DownloadStage::AwaitingChunk;
                    DownloadAction::NextChunk
                }
            },
            (DownloadStage::EmittingProgress, DownloadEvent::ProgressEmitted) => {
                self.stage = DownloadStage::AwaitingChunk;
                DownloadAction::NextChunk
            },
            (DownloadStage::Syncing, DownloadEvent::Synced(r)) => match r {
                Ok(_) => {
                    self.stage = DownloadStage::Renaming;
                    DownloadAction::RenamePartial
                },
                Err(e) => self.finish_with(Err(error_text("Sync-fel: ", e))),
            },
            (DownloadStage::Renaming, DownloadEvent::Renamed(ok)) => {
                if ok {
                    self.stage = DownloadStage::EmittingComplete;
                    DownloadAction::EmitComplete { model_id: self.entry.id.clone() }
                } else {
                    self.stage = DownloadStage::Copying;
                    DownloadAction::CopyPartial
                }
            },
            (DownloadStage::Copying, DownloadEvent::Copied(r)) => match r {
                Ok(_) => {
                    self.stage = DownloadStage::RemovingPartial;
                    DownloadAction::RemovePartial
                },
                Err(e) => self.finish_with(Err(error_text("Kunde inte kopiera temp-filen: ", e))),
            },
            (DownloadStage::RemovingPartial, DownloadEvent::PartialRemoved) => {
                self.stage = DownloadStage::EmittingComplete;
                DownloadAction::EmitComplete { model_id: self.entry.id.clone() }
            },
            (DownloadStage::EmittingComplete, DownloadEvent::CompleteEmitted) => {
                let dest = self.dest_path.clone();
                self.finish_with(Ok(dest))
            },
            _ => vstd::pervasive::unreached(),
        }
    }
}


/// A download that succeeds returns the path of the model file: at once if
/// the file was already there, else only after the completion was announced.
pub proof fn lemma_success_returns_dest(j: JobView, event: DownloadEventView, path: Seq<char>)
    requires
        download_accepts(j, event),
        download_step(j, event).1 == DownloadActionView::Finish(Ok(path)),
    ensures
        path == j.dest_path,
        j.stage == DownloadStage::CheckingDest || j.stage == DownloadStage::EmittingComplete,
{
}

/// The model file is put in place only from a partial file that was flushed
/// without error: the rename follows a successful flush, the copy a failed
/// rename, and the completion one of the two.
pub proof fn lemma_file_placed_after_flush(j: JobView, event: DownloadEventView)
    requires
        download_accepts(j, event),
    ensures
        download_step(j, event).0.stage == DownloadStage::Renaming ==> j.stage
            == DownloadStage::Syncing && event matches DownloadEventView::Synced(Ok(_)),
        download_step(j, event).0.stage == DownloadStage::Copying ==> j.stage
            == DownloadStage::Renaming && event == DownloadEventView::Renamed(false),
        download_step(j, event).0.stage == DownloadStage::EmittingComplete ==> (j.stage
            == DownloadStage::Renaming && event == DownloadEventView::Renamed(true)) || j.stage
            == DownloadStage::RemovingPartial,
{
}

/// A progress report carries a percentage other than the last one reported,
/// and becomes the last one reported.
pub proof fn lemma_progress_reports_change(j: JobView, event: DownloadEventView, r: ProgressReportView)
    requires
        download_accepts(j, event),
        download_step(j, event).1 == DownloadActionView::EmitProgress(r),
    ensures
        r.percent != j.last_percent,
        download_step(j, event).0.last_percent == r.percent,
        r.model_id == j.entry.id,
        r.downloaded_bytes == j.downloaded,
        r.total_bytes == j.total,
{
}

/// The byte counter grows by exactly the length of each chunk written, is
/// reset only when the server answers, and is otherwise left alone; the
/// entry and the destination never change.
pub proof fn lemma_byte_counter(j: JobView, event: DownloadEventView)
    requires
        download_accepts(j, event),
    ensures
        download_step(j, event).0.entry == j.entry,
        download_step(j, event).0.dest_path == j.dest_path,
        match (j.stage, event) {
            (DownloadStage::WritingChunk { len }, DownloadEventView::ChunkWritten(Ok(_))) => download_step(
                j,
                event,
            ).0.downloaded == j.downloaded + len,
            (DownloadStage::Requesting, DownloadEventView::Responded(Ok(reply))) => is_success_status(
                reply.status,
            ) ==> download_step(j, event).0.downloaded == 0,
            _ => download_step(j, event).0.downloaded == j.downloaded,
        },
{
}

/// A download is over exactly when its last action was its result, and
/// then it takes no further event.
pub proof fn lemma_download_done_is_final(j: JobView, event: DownloadEventView, next: DownloadEventView)
    requires
        download_accepts(j, event),
    ensures
        download_step(j, event).1 is Finish <==> download_step(j, event).0.stage
            == DownloadStage::Done,
        download_step(j, event).0.stage == DownloadStage::Done ==> !download_accepts(
            download_step(j, event).0,
            next,
        ),
{
}


/// The job and the actions of a download that began as `j`, once the
/// outcomes `events` have been reported in turn; the first action is
/// `CreateModelsDir`.
pub open spec fn run_download(j: JobView, events: Seq<DownloadEventView>) -> (
    JobView,
    Seq<DownloadActionView>,
)
    decreases events.len(),
{
    if events.len() == 0 {
        (j, seq![DownloadActionView::CreateModelsDir])
    } else {
        let prev = run_download(j, events.drop_last());
        let step = download_step(prev.0, events.last());
        (step.0, prev.1.push(step.1))
    }
}

/// Each outcome in `events` was one that the download waited for.
pub open spec fn valid_download_run(j: JobView, events: Seq<DownloadEventView>) -> bool
    decreases events.len(),
{
    events.len() == 0 || (valid_download_run(j, events.drop_last()) && download_accepts(
        run_download(j, events.drop_last()).0,
        events.last(),
    ))
}

/// Some action is a request to the server.
pub open spec fn has_request(acts: Seq<DownloadActionView>) -> bool {
    exists|i: int| 0 <= i < acts.len() && (#[trigger] acts[i]) is SendRequest
}

/// Some action announces the completion.
pub open spec fn has_complete(acts: Seq<DownloadActionView>) -> bool {
    exists|i: int| 0 <= i < acts.len() && (#[trigger] acts[i]) is EmitComplete
}

/// Some action is the result.
pub open spec fn has_finish(acts: Seq<DownloadActionView>) -> bool {
    exists|i: int| 0 <= i < acts.len() && (#[trigger] acts[i]) is Finish
}

/// What the whole run of a download promises of its actions: the
/// completion is announced at most once, after every progress report, and
/// only when the download then succeeds; a success without it is a file that
/// was already there, fetched with no request.
pub open spec fn download_run_promises(acts: Seq<DownloadActionView>) -> bool {
    &&& forall|c: int, d: int|
        0 <= c < acts.len() && 0 <= d < acts.len() && (#[trigger] acts[c]) is EmitComplete && (
        #[trigger] acts[d]) is EmitComplete ==> c == d
    &&& forall|p: int, c: int|
        0 <= p < acts.len() && 0 <= c < acts.len() && (#[trigger] acts[p]) is EmitProgress && (
        #[trigger] acts[c]) is EmitComplete ==> p < c
    &&& forall|c: int, f: int|
        0 <= c < acts.len() && 0 <= f < acts.len() && (#[trigger] acts[c]) is EmitComplete && (
        #[trigger] acts[f]) is Finish ==> c < f && acts[f]->Finish_0 is Ok
    &&& forall|f: int|
        0 <= f < acts.len() && (#[trigger] acts[f]) is Finish && acts[f]->Finish_0 is Ok
            && !has_complete(acts) ==> !has_request(acts)
}

/// What holds of every prefix of a download.
pub open spec fn download_run_inv(st: JobView, acts: Seq<DownloadActionView>) -> bool {
    &&& acts.len() >= 1
    &&& (st.stage == DownloadStage::CreatingDir || st.stage == DownloadStage::CheckingDest)
        ==> !has_request(acts)
    &&& (st.stage != DownloadStage::EmittingComplete && st.stage != DownloadStage::Done)
        ==> !has_complete(acts)
    &&& st.stage == DownloadStage::EmittingComplete ==> acts.last() is EmitComplete && forall|c: int|
        0 <= c < acts.len() && (#[trigger] acts[c]) is EmitComplete ==> c == acts.len() - 1
    &&& st.stage != DownloadStage::Done ==> !has_finish(acts)
    &&& download_run_promises(acts)
}

proof fn lemma_download_run_inv(j: JobView, events: Seq<DownloadEventView>)
    requires
        j.stage == DownloadStage::CreatingDir,
        valid_download_run(j, events),
    ensures
        download_run_inv(run_download(j, events).0, run_download(j, events).1),
    decreases events.len(),
{
    if events.len() > 0 {
        lemma_download_run_inv(j, events.drop_last());
        let (st, acts) = run_download(j, events.drop_last());
        let ev = events.last();
        let (st2, a) = download_step(st, ev);
        let acts2 = acts.push(a);
        let n = acts.len() as int;
        assert(run_download(j, events) == (st2, acts2));
        assert forall|i: int| 0 <= i < n implies acts2[i] == acts[i] by {}
        assert(acts2[n] == a);
        // facts about the old actions carried over to the new sequence
        assert(has_request(acts2) ==> has_request(acts) || a is SendRequest) by {
            if has_request(acts2) {
                let i = choose|i: int| 0 <= i < acts2.len() && (#[trigger] acts2[i]) is SendRequest;
                if i < n {
                    assert(acts[i] is SendRequest);
                }
            }
        }
        assert(has_complete(acts2) ==> has_complete(acts) || a is EmitComplete) by {
            if has_complete(acts2) {
                let i = choose|i: int| 0 <= i < acts2.len() && (#[trigger] acts2[i]) is EmitComplete;
                if i < n {
                    assert(acts[i] is EmitComplete);
                }
            }
        }
        assert(has_finish(acts2) ==> has_finish(acts) || a is Finish) by {
            if has_finish(acts2) {
                let i = choose|i: int| 0 <= i < acts2.len() && (#[trigger] acts2[i]) is Finish;
                if i < n {
                    assert(acts[i] is Finish);
                }
            }
        }
        if a is EmitComplete {
            assert(!has_complete(acts));
            assert(!has_finish(acts));
        }
        if a is Finish {
            assert(!has_finish(acts));
            if st.stage == DownloadStage::EmittingComplete {
                assert(acts[n - 1] is EmitComplete);
            } else {
                assert(!has_complete(acts));
            }
            if a->Finish_0 is Ok && st.stage != DownloadStage::EmittingComplete {
                assert(st.stage == DownloadStage::CheckingDest);
                assert(!has_request(acts));
            }
        }
        if a is EmitProgress {
            assert(!has_complete(acts));
        }
        // the completion stays unique once the stage moves on
        if st2.stage == DownloadStage::EmittingComplete {
            assert(a is EmitComplete);
        }
        assert forall|c: int, d: int|
            0 <= c < acts2.len() && 0 <= d < acts2.len() && (#[trigger] acts2[c]) is EmitComplete
                && (#[trigger] acts2[d]) is EmitComplete implies c == d by {
            if c < n && d < n {
                assert(acts[c] is EmitComplete && acts[d] is EmitComplete);
            } else if c < n {
                assert(acts[c] is EmitComplete);
            } else if d < n {
                assert(acts[d] is EmitComplete);
            }
        }
        assert forall|p: int, c: int|
            0 <= p < acts2.len() && 0 <= c < acts2.len() && (#[trigger] acts2[p]) is EmitProgress
                && (#[trigger] acts2[c]) is EmitComplete implies p < c by {
            if p < n && c < n {
                assert(acts[p] is EmitProgress && acts[c] is EmitComplete);
            } else if c < n {
                assert(acts[c] is EmitComplete);
            }
        }
        assert forall|c: int, f: int|
            0 <= c < acts2.len() && 0 <= f < acts2.len() && (#[trigger] acts2[c]) is EmitComplete
                && (#[trigger] acts2[f]) is Finish implies c < f && acts2[f]->Finish_0 is Ok by {
            if c < n && f < n {
                assert(acts[c] is EmitComplete && acts[f] is Finish);
            } else if f < n {
                assert(acts[f] is Finish);
            } else if c < n {
                assert(acts[c] is EmitComplete);
                assert(st.stage == DownloadStage::EmittingComplete);
            }
        }
        assert forall|f: int|
            0 <= f < acts2.len() && (#[trigger] acts2[f]) is Finish && acts2[f]->Finish_0 is Ok
                && !has_complete(acts2) implies !has_request(acts2) by {
            if f < n {
                assert(acts[f] is Finish);
            }
        }
        if st2.stage == DownloadStage::EmittingComplete {
            assert forall|c: int| 0 <= c < acts2.len() && (#[trigger] acts2[c]) is EmitComplete implies c
                == acts2.len() - 1 by {
                if c < n {
                    assert(acts[c] is EmitComplete);
                }
            }
        }
    }
}

/// Over a whole download, the completion is announced at most once, after
/// every progress report and only when the download then succeeds; a failed
/// download announces no completion, and a success that announced none made
/// no request, the file being there already.
pub proof fn lemma_complete_announced_once(j: JobView, events: Seq<DownloadEventView>)
    requires
        j.stage == DownloadStage::CreatingDir,
        valid_download_run(j, events),
    ensures
        download_run_promises(run_download(j, events).1),
{
    lemma_download_run_inv(j, events);
}


/// When the server answers with success, the expected size is the length
/// the server announced, whatever it is; the catalogue's approximate size
/// stands in only when no length was announced. The byte counter starts
/// from zero and no percentage has been reported yet.
pub proof fn lemma_total_is_announced_length(j: JobView, reply: HttpReplyView)
    requires
        j.stage == DownloadStage::Requesting,
        200 <= reply.status <= 299,
    ensures
        download_step(j, DownloadEventView::Responded(Ok(reply))).0.total == match reply.content_length {
            Some(n) => n,
            None => j.entry.size_bytes,
        },
        download_step(j, DownloadEventView::Responded(Ok(reply))).0.downloaded == 0,
        download_step(j, DownloadEventView::Responded(Ok(reply))).0.last_percent == -1,
        download_step(j, DownloadEventView::Responded(Ok(reply))).1
            == DownloadActionView::CreatePartialFile,
{
}

/// A reply whose status is not a success ends the download with the HTTP
/// error, whatever length it announces.
pub proof fn lemma_failed_status_ends_download(j: JobView, reply: HttpReplyView)
    requires
        j.stage == DownloadStage::Requesting,
        !(200 <= reply.status <= 299),
    ensures
        download_step(j, DownloadEventView::Responded(Ok(reply))).1 == DownloadActionView::Finish(
            Err("Nedladdningsfel: HTTP "@ + reply.status_text),
        ),
{
}

/// Whether `ev` reports the outcome of the work `a` asked for.
pub open spec fn answers_download(a: DownloadActionView, ev: DownloadEventView) -> bool {
    match (a, ev) {
        (DownloadActionView::CreateModelsDir, DownloadEventView::DirCreated(_)) => true,
        (DownloadActionView::CheckDestExists, DownloadEventView::DestChecked(_)) => true,
        (DownloadActionView::SendRequest { .. }, DownloadEventView::Responded(_)) => true,
        (DownloadActionView::CreatePartialFile, DownloadEventView::FileCreated(_)) => true,
        (DownloadActionView::NextChunk, DownloadEventView::ChunkReceived(_)) => true,
        (DownloadActionView::WriteChunk, DownloadEventView::ChunkWritten(_)) => true,
        (DownloadActionView::ComputePercent { .. }, DownloadEventView::PercentComputed(_)) => true,
        (DownloadActionView::EmitProgress(_), DownloadEventView::ProgressEmitted) => true,
        (DownloadActionView::SyncFile, DownloadEventView::Synced(_)) => true,
        (DownloadActionView::RenamePartial, DownloadEventView::Renamed(_)) => true,
        (DownloadActionView::CopyPartial, DownloadEventView::Copied(_)) => true,
        (DownloadActionView::RemovePartial, DownloadEventView::PartialRemoved) => true,
        (DownloadActionView::EmitComplete { .. }, DownloadEventView::CompleteEmitted) => true,
        _ => false,
    }
}

/// A new download takes every outcome of creating the models directory,
/// and after each step it takes every outcome of the work it asked for
/// (a written chunk as long as the byte counter can hold it).
pub proof fn lemma_download_takes_every_outcome(
    j: JobView,
    ev: DownloadEventView,
    next: DownloadEventView,
    len: u64,
)
    ensures
        j.stage == DownloadStage::CreatingDir && answers_download(
            DownloadActionView::CreateModelsDir,
            next,
        ) ==> download_accepts(j, next),
        download_accepts(j, ev) && answers_download(download_step(j, ev).1, next) && !(
        next matches DownloadEventView::ChunkWritten(Ok(_))) ==> download_accepts(
            download_step(j, ev).0,
            next,
        ),
        download_accepts(j, DownloadEventView::ChunkReceived(Some(Ok(len)))) ==> (download_accepts(
            download_step(j, DownloadEventView::ChunkReceived(Some(Ok(len)))).0,
            DownloadEventView::ChunkWritten(Ok(())),
        ) <==> j.downloaded + len <= u64::MAX),
{
}


/// Each whole percentage computed is reported, with the job's model, byte
/// count and expected size, exactly when it differs from the last one
/// reported; otherwise the next chunk is awaited. A written chunk asks for
/// the percentage of the new byte count in the expected size.
pub proof fn lemma_percent_reporting(j: JobView, p: i32, len: u64)
    ensures
        j.stage == DownloadStage::ComputingPercent && p != j.last_percent ==> download_step(
            j,
            DownloadEventView::PercentComputed(p),
        ) == ((JobView { last_percent: p, stage: DownloadStage::EmittingProgress, ..j }),
        DownloadActionView::EmitProgress(
            (ProgressReportView {
                model_id: j.entry.id,
                percent: p,
                downloaded_bytes: j.downloaded,
                total_bytes: j.total,
            }),
        )),
        j.stage == DownloadStage::ComputingPercent && p == j.last_percent ==> download_step(
            j,
            DownloadEventView::PercentComputed(p),
        ) == ((JobView { stage: DownloadStage::AwaitingChunk, ..j }), DownloadActionView::NextChunk),
        j.stage == (DownloadStage::WritingChunk { len }) && j.downloaded + len <= u64::MAX
            ==> download_step(j, DownloadEventView::ChunkWritten(Ok(()))).1
            == (DownloadActionView::ComputePercent {
            downloaded: (j.downloaded + len) as u64,
            total: j.total,
        }),
{
}

/// Each failure ends the download with a message that names its cause and
/// carries the detail reported.
pub proof fn lemma_download_failure_messages(j: JobView, detail: Seq<char>)
    ensures
        j.stage == DownloadStage::CreatingDir ==> download_step(
            j,
            DownloadEventView::DirCreated(Err(detail)),
        ).1 == DownloadActionView::Finish(Err("Kunde inte skapa katalog: "@ + detail)),
        j.stage == DownloadStage::Requesting ==> download_step(
            j,
            DownloadEventView::Responded(Err(detail)),
        ).1 == DownloadActionView::Finish(Err("Nedladdningsfel: "@ + detail)),
        j.stage == DownloadStage::CreatingFile ==> download_step(
            j,
            DownloadEventView::FileCreated(Err(detail)),
        ).1 == DownloadActionView::Finish(Err("Kunde inte skapa fil: "@ + detail)),
        j.stage == DownloadStage::AwaitingChunk ==> download_step(
            j,
            DownloadEventView::ChunkReceived(Some(Err(detail))),
        ).1 == DownloadActionView::Finish(Err("Nedladdningsfel: "@ + detail)),
        (j.stage is WritingChunk) ==> download_step(
            j,
            DownloadEventView::ChunkWritten(Err(detail)),
        ).1 == DownloadActionView::Finish(Err("Skrivfel: "@ + detail)),
        j.stage == DownloadStage::Syncing ==> download_step(
            j,
            DownloadEventView::Synced(Err(detail)),
        ).1 == DownloadActionView::Finish(Err("Sync-fel: "@ + detail)),
        j.stage == DownloadStage::Copying ==> download_step(
            j,
            DownloadEventView::Copied(Err(detail)),
        ).1 == DownloadActionView::Finish(Err("Kunde inte kopiera temp-filen: "@ + detail)),
{
}

/// A download asks, in turn, for the directory, the check of the model
/// file, the request to the entry's own URL, the partial file and the
/// chunks; once the body ends it flushes, then renames (or, failing that,
/// copies and removes the partial file), and announces the model's id.
pub proof fn lemma_download_order(j: JobView)
    ensures
        j.stage == DownloadStage::CreatingDir ==> download_step(
            j,
            DownloadEventView::DirCreated(Ok(())),
        ).1 == DownloadActionView::CheckDestExists,
        j.stage == DownloadStage::CheckingDest ==> download_step(
            j,
            DownloadEventView::DestChecked(false),
        ).1 == (DownloadActionView::SendRequest { url: j.entry.url }),
        j.stage == DownloadStage::CreatingFile ==> download_step(
            j,
            DownloadEventView::FileCreated(Ok(())),
        ).1 == DownloadActionView::NextChunk,
        j.stage == DownloadStage::AwaitingChunk ==> download_step(
            j,
            DownloadEventView::ChunkReceived(None),
        ).1 == DownloadActionView::SyncFile,
        j.stage == DownloadStage::Syncing ==> download_step(
            j,
            DownloadEventView::Synced(Ok(())),
        ).1 == DownloadActionView::RenamePartial,
        j.stage == DownloadStage::Renaming ==> download_step(
            j,
            DownloadEventView::Renamed(true),
        ).1 == (DownloadActionView::EmitComplete { model_id: j.entry.id }),
        j.stage == DownloadStage::Copying ==> download_step(
            j,
            DownloadEventView::Copied(Ok(())),
        ).1 == DownloadActionView::RemovePartial,
        j.stage == DownloadStage::RemovingPartial ==> download_step(
            j,
            DownloadEventView::PartialRemoved,
        ).1 == (DownloadActionView::EmitComplete { model_id: j.entry.id }),
        j.stage == DownloadStage::EmittingComplete ==> download_step(
            j,
            DownloadEventView::CompleteEmitted,
        ).1 == DownloadActionView::Finish(Ok(j.dest_path)),
{
}


/// A model file already on disk is returned at once, with no request; a
/// failed rename falls back to copying the partial file.
pub proof fn lemma_download_branches(j: JobView)
    ensures
        j.stage == DownloadStage::CheckingDest ==> download_step(
            j,
            DownloadEventView::DestChecked(true),
        ) == ((JobView { stage: DownloadStage::Done, ..j }), DownloadActionView::Finish(
            Ok(j.dest_path),
        )),
        j.stage == DownloadStage::Renaming ==> download_step(
            j,
            DownloadEventView::Renamed(false),
        ).1 == DownloadActionView::CopyPartial,
{
}

} // verus!
