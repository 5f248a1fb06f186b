//! Batch status, error taxonomy, and per-file reports.
//!
//! A batch succeeds exactly when the run log showed at least one recognized
//! marker: the external process's exit code does not decide, since the
//! downloader can exit cleanly while skipping every file. Enrichment
//! failures are recovered per file and never turn the batch status.

use vstd::prelude::*;

verus! {

#[derive(Clone, Copy, Debug, PartialEq, Eq, Structural)]
pub enum EnrichError {
    UnreadableContainer,
    WriteFailed,
    NoMarkersFound,
    FileMissingOnDisk,
    NoConfidentMatch,
    LyricNotFound,
    TranslationFailed,
    NetworkError,
}

#[derive(Clone, Copy, Debug, PartialEq, Eq, Structural)]
pub enum BatchStatus {
    Idle,
    Pending,
    Done,
    Fail,
}

impl BatchStatus {
    /// The status cell's numeric code: nothing, pending, done, fail in turn.
    pub fn as_code(&self) -> (c: i8)
        ensures
            c == match self {
                BatchStatus::Idle => 0i8,
                BatchStatus::Pending => 1i8,
                BatchStatus::Done => 2i8,
                BatchStatus::Fail => 3i8,
            },
    {
        match self {
            BatchStatus::Idle => 0,
            BatchStatus::Pending => 1,
            BatchStatus::Done => 2,
            BatchStatus::Fail => 3,
        }
    }
}

/// The status a finished batch reports: `Fail` exactly when no marker was
/// recognized, whatever the external process's exit code said.
pub open spec fn spec_batch_status(marker_count: int, process_exit_ok: bool) -> BatchStatus {
    if marker_count == 0 {
        BatchStatus::Fail
    } else {
        BatchStatus::Done
    }
}

/// A run log with no recognized marker fails the batch, whichever exit code
/// the external process reported; one with any marker succeeds, also on a
/// reported failure.
pub proof fn lemma_batch_status_ignores_exit_code(
    log: Seq<char>,
    ext: Seq<char>,
    dir: Seq<char>,
    exit_a: bool,
    exit_b: bool,
)
    ensures
        spec_batch_status(crate::correlate::spec_correlate(log, ext, dir).len() as int, exit_a)
            == spec_batch_status(
            crate::correlate::spec_correlate(log, ext, dir).len() as int,
            exit_b,
        ),
        crate::correlate::spec_correlate(log, ext, dir).len() == 0
            <==> spec_batch_status(
            crate::correlate::spec_correlate(log, ext, dir).len() as int,
            exit_a,
        ) is Fail,
{
}

/// The status a finished batch reports: `Fail` exactly when no marker was
/// recognized in the run log, whatever the external process's exit code
/// said.
pub fn batch_status(marker_count: usize, process_exit_ok: bool) -> (s: BatchStatus)
    ensures
        s == spec_batch_status(marker_count as int, process_exit_ok),
{
    let _ = process_exit_ok;
    if marker_count == 0 {
        BatchStatus::Fail
    } else {
        BatchStatus::Done
    }
}

/// What happened to one correlated file.
pub struct FileReport {
    pub base_name: String,
    pub outcome: Result<(), EnrichError>,
}

/// The outcome of a whole batch.
pub struct BatchReport {
    pub status: BatchStatus,
    pub reports: Vec<FileReport>,
}

/// Aggregate the per-file outcomes: the batch status comes from the marker
/// count alone, so one bad file never fails the batch, and a batch with no
/// markers fails even when every per-file report is clean.
pub fn aggregate_batch(marker_count: usize, process_exit_ok: bool, reports: Vec<FileReport>) -> (r:
    BatchReport)
    ensures
        r.status == spec_batch_status(marker_count as int, process_exit_ok),
        r.reports == reports,
{
    BatchReport { status: batch_status(marker_count, process_exit_ok), reports }
}

/// The per-file enrichment stages, in the order they run.
#[derive(Clone, Copy, Debug, PartialEq, Eq, Structural)]
pub enum StageKind {
    EmbedLocalLyrics,
    CatalogMatch,
    FetchLyrics,
}

/// Which enrichment stages a batch asked for.
pub struct EnrichOptions {
    pub local_lyrics: bool,
    pub musicbrainz: bool,
    pub lrclib: bool,
    pub threshold: i8,
}

pub open spec fn spec_stages(o: &EnrichOptions) -> Seq<StageKind> {
    (if o.local_lyrics {
        seq![StageKind::EmbedLocalLyrics]
    } else {
        Seq::empty()
    }) + (if o.musicbrainz {
        seq![StageKind::CatalogMatch]
    } else {
        Seq::empty()
    }) + (if o.lrclib {
        seq![StageKind::FetchLyrics]
    } else {
        Seq::empty()
    })
}

/// The stages to run for each file: local lyric embedding, then the catalog
/// match, then the lyric fetch, each only when asked for.
pub fn plan_stages(o: &EnrichOptions) -> (v: Vec<StageKind>)
    ensures
        v@ == spec_stages(o),
{
    let mut v: Vec<StageKind> = Vec::new();
    if o.local_lyrics {
        v.push(StageKind::EmbedLocalLyrics);
    }
    if o.musicbrainz {
        v.push(StageKind::CatalogMatch);
    }
    if o.lrclib {
        v.push(StageKind::FetchLyrics);
    }
    assert(v@ =~= spec_stages(o));
    v
}

} // verus!
