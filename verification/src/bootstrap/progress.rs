//! The course of a bootstrap: download, extraction, updater, as a step
//! function from the current phase and what just happened to the next phase
//! and what to do.
use vstd::prelude::*;

verus! {

/// Where the bootstrap stands.
#[derive(Debug, Clone)]
pub enum BootstrapPhase {
    /// The download has been asked for and its progress stream is awaited.
    OpeningDownload,
    /// The download is running; `archive` is the last archive it reported.
    Downloading { archive: Option<String> },
    /// The extraction of the archive has been asked for.
    OpeningExtraction,
    /// The extraction is running.
    Extracting,
    /// The updater is being started.
    StartingUpdater,
    /// The bootstrap is over: it failed, or a restart is required.
    Finished,
}

/// What just happened: the outcome of an outside step, or an item of a
/// progress stream. Error texts describe the failure.
#[derive(Debug)]
pub enum BootstrapEvent {
    /// The download stream was opened, or could not be.
    DownloadOpened(Result<(), String>),
    /// The download reported progress.
    DownloadProgress,
    /// The download failed.
    DownloadError(String),
    /// The download finished and stored the archive at this path.
    DownloadDone(String),
    /// The extraction stream was opened, or could not be.
    ExtractionOpened(Result<(), String>),
    /// The extraction reported progress.
    ExtractionProgress,
    /// The extraction failed.
    ExtractionError(String),
    /// The current progress stream has no more items.
    StreamEnded,
    /// The updater was started, or could not be.
    UpdaterStarted(Result<(), String>),
}

/// What to do next.
#[derive(Debug, Clone)]
pub enum BootstrapAction {
    /// Read the next item of the current progress stream.
    ReadNext,
    /// Report the download progress that was just received, then read on.
    ReportDownloading,
    /// Report the extraction progress that was just received, then read on.
    ReportExtracting,
    /// Extract the archive at this path.
    StartExtraction(String),
    /// Start the updater that replaces OBS once the application exits.
    StartUpdater,
    /// Report this error; the bootstrap ends.
    ReportError(String),
    /// Report that the application must restart; the bootstrap ends.
    ReportRestartRequired,
    /// The event does not belong to the current phase; nothing to do.
    Ignore,
}

/// The phase as the contracts see it: texts as character sequences.
pub enum PhaseView {
    OpeningDownload,
    Downloading { archive: Option<Seq<char>> },
    OpeningExtraction,
    Extracting,
    StartingUpdater,
    Finished,
}

/// The event as the contracts see it.
pub enum EventView {
    DownloadOpened(Result<(), Seq<char>>),
    DownloadProgress,
    DownloadError(Seq<char>),
    DownloadDone(Seq<char>),
    ExtractionOpened(Result<(), Seq<char>>),
    ExtractionProgress,
    ExtractionError(Seq<char>),
    StreamEnded,
    UpdaterStarted(Result<(), Seq<char>>),
}

/// The action as the contracts see it.
pub enum ActionView {
    ReadNext,
    ReportDownloading,
    ReportExtracting,
    StartExtraction(Seq<char>),
    StartUpdater,
    ReportError(Seq<char>),
    ReportRestartRequired,
    Ignore,
}

/// The text of an outcome that may carry an error text.
pub open spec fn spec_outcome_view(r: Result<(), String>) -> Result<(), Seq<char>> {
    match r {
        Ok(()) => Ok(()),
        Err(e) => Err(e@),
    }
}

impl View for BootstrapPhase {
    type V = PhaseView;

    open spec fn view(&self) -> PhaseView {
        match self {
            BootstrapPhase::OpeningDownload => PhaseView::OpeningDownload,
            BootstrapPhase::Downloading { archive } => PhaseView::Downloading {
                archive: match archive {
                    Some(a) => Some(a@),
                    None => None,
                },
            },
            BootstrapPhase::OpeningExtraction => PhaseView::OpeningExtraction,
            BootstrapPhase::Extracting => PhaseView::Extracting,
            BootstrapPhase::StartingUpdater => PhaseView::StartingUpdater,
            BootstrapPhase::Finished => PhaseView::Finished,
        }
    }
}

impl View for BootstrapEvent {
    type V = EventView;

    open spec fn view(&self) -> EventView {
        match self {
            BootstrapEvent::DownloadOpened(r) => EventView::DownloadOpened(spec_outcome_view(*r)),
            BootstrapEvent::DownloadProgress => EventView::DownloadProgress,
            BootstrapEvent::DownloadError(e) => EventView::DownloadError(e@),
            BootstrapEvent::DownloadDone(p) => EventView::DownloadDone(p@),
            BootstrapEvent::ExtractionOpened(r) => EventView::ExtractionOpened(spec_outcome_view(*r)),
            BootstrapEvent::ExtractionProgress => EventView::ExtractionProgress,
            BootstrapEvent::ExtractionError(e) => EventView::ExtractionError(e@),
            BootstrapEvent::StreamEnded => EventView::StreamEnded,
            BootstrapEvent::UpdaterStarted(r) => EventView::UpdaterStarted(spec_outcome_view(*r)),
        }
    }
}

impl View for BootstrapAction {
    type V = ActionView;

    open spec fn view(&self) -> ActionView {
        match self {
            BootstrapAction::ReadNext => ActionView::ReadNext,
            BootstrapAction::ReportDownloading => ActionView::ReportDownloading,
            BootstrapAction::ReportExtracting => ActionView::ReportExtracting,
            BootstrapAction::StartExtraction(p) => ActionView::StartExtraction(p@),
            BootstrapAction::StartUpdater => ActionView::StartUpdater,
            BootstrapAction::ReportError(e) => ActionView::ReportError(e@),
            BootstrapAction::ReportRestartRequired => ActionView::ReportRestartRequired,
            BootstrapAction::Ignore => ActionView::Ignore,
        }
    }
}

/// The error reported when the download ends without an archive.
pub open spec fn spec_missing_archive_message() -> Seq<char> {
    "OBS Archive could not be downloaded."@
}

/// Whether an action ends the bootstrap.
pub open spec fn spec_is_final_action(a: ActionView) -> bool {
    a is ReportError || a is ReportRestartRequired
}

/// One step of the bootstrap: any failure is reported and ends it; a
/// download that ends without an archive is a failure; the last archive that
/// the download reported is extracted; after the extraction the updater is
/// started, and once it runs a restart is required. Events that do not belong
/// to the current phase change nothing.
pub open spec fn spec_bootstrap_step(phase: PhaseView, event: EventView) -> (PhaseView, ActionView) {
    match (phase, event) {
        (PhaseView::OpeningDownload, EventView::DownloadOpened(Ok(()))) => (
            PhaseView::Downloading { archive: None },
            ActionView::ReadNext,
        ),
        (PhaseView::OpeningDownload, EventView::DownloadOpened(Err(e))) => (
            PhaseView::Finished,
            ActionView::ReportError(e),
        ),
        (PhaseView::Downloading { archive }, EventView::DownloadProgress) => (
            PhaseView::Downloading { archive },
            ActionView::ReportDownloading,
        ),
        (PhaseView::Downloading { archive: _ }, EventView::DownloadError(e)) => (
            PhaseView::Finished,
            ActionView::ReportError(e),
        ),
        (PhaseView::Downloading { archive: _ }, EventView::DownloadDone(path)) => (
            PhaseView::Downloading { archive: Some(path) },
            ActionView::ReadNext,
        ),
        (PhaseView::Downloading { archive: Some(path) }, EventView::StreamEnded) => (
            PhaseView::OpeningExtraction,
            ActionView::StartExtraction(path),
        ),
        (PhaseView::Downloading { archive: None }, EventView::StreamEnded) => (
            PhaseView::Finished,
            ActionView::ReportError(spec_missing_archive_message()),
        ),
        (PhaseView::OpeningExtraction, EventView::ExtractionOpened(Ok(()))) => (
            PhaseView::Extracting,
            ActionView::ReadNext,
        ),
        (PhaseView::OpeningExtraction, EventView::ExtractionOpened(Err(e))) => (
            PhaseView::Finished,
            ActionView::ReportError(e),
        ),
        (PhaseView::Extracting, EventView::ExtractionProgress) => (
            PhaseView::Extracting,
            ActionView::ReportExtracting,
        ),
        (PhaseView::Extracting, EventView::ExtractionError(e)) => (
            PhaseView::Finished,
            ActionView::ReportError(e),
        ),
        (PhaseView::Extracting, EventView::StreamEnded) => (
            PhaseView::StartingUpdater,
            ActionView::StartUpdater,
        ),
        (PhaseView::StartingUpdater, EventView::UpdaterStarted(Ok(()))) => (
            PhaseView::Finished,
            ActionView::ReportRestartRequired,
        ),
        (PhaseView::StartingUpdater, EventView::UpdaterStarted(Err(e))) => (
            PhaseView::Finished,
            ActionView::ReportError(e),
        ),
        (p, _) => (p, ActionView::Ignore),
    }
}

/// The phase in which a bootstrap starts: the download has been asked for.
pub fn bootstrap_start() -> (r: BootstrapPhase)
    ensures
        r@ == PhaseView::OpeningDownload,
{
    BootstrapPhase::OpeningDownload
}

/// Takes one step of the bootstrap.
pub fn bootstrap_step(phase: BootstrapPhase, event: BootstrapEvent) -> (r: (
    BootstrapPhase,
    BootstrapAction,
))
    ensures
        (r.0@, r.1@) == spec_bootstrap_step(phase@, event@),
{
    match (phase, event) {
        (BootstrapPhase::OpeningDownload, BootstrapEvent::DownloadOpened(Ok(()))) => (
            BootstrapPhase::Downloading { archive: None },
            BootstrapAction::ReadNext,
        ),
        (BootstrapPhase::OpeningDownload, BootstrapEvent::DownloadOpened(Err(e))) => (
            BootstrapPhase::Finished,
            BootstrapAction::ReportError(e),
        ),
        (BootstrapPhase::Downloading { archive }, BootstrapEvent::DownloadProgress) => (
            BootstrapPhase::Downloading { archive },
            BootstrapAction::ReportDownloading,
        ),
        (BootstrapPhase::Downloading { archive: _ }, BootstrapEvent::DownloadError(e)) => (
            BootstrapPhase::Finished,
            BootstrapAction::ReportError(e),
        ),
        (BootstrapPhase::Downloading { archive: _ }, BootstrapEvent::DownloadDone(path)) => (
            BootstrapPhase::Downloading { archive: Some(path) },
            BootstrapAction::ReadNext,
        ),
        (BootstrapPhase::Downloading { archive: Some(path) }, BootstrapEvent::StreamEnded) => (
            BootstrapPhase::OpeningExtraction,
            BootstrapAction::StartExtraction(path),
        ),
        (BootstrapPhase::Downloading { archive: None }, BootstrapEvent::StreamEnded) => (
            BootstrapPhase::Finished,
            BootstrapAction::ReportError("OBS Archive could not be downloaded.".to_owned()),
        ),
        (BootstrapPhase::OpeningExtraction, BootstrapEvent::ExtractionOpened(Ok(()))) => (
            BootstrapPhase::Extracting,
            BootstrapAction::ReadNext,
        ),
        (BootstrapPhase::OpeningExtraction, BootstrapEvent::ExtractionOpened(Err(e))) => (
            BootstrapPhase::Finished,
            BootstrapAction::ReportError(e),
        ),
        (BootstrapPhase::Extracting, BootstrapEvent::ExtractionProgress) => (
            BootstrapPhase::Extracting,
            BootstrapAction::ReportExtracting,
        ),
        (BootstrapPhase::Extracting, BootstrapEvent::ExtractionError(e)) => (
            BootstrapPhase::Finished,
            BootstrapAction::ReportError(e),
        ),
        (BootstrapPhase::Extracting, BootstrapEvent::StreamEnded) => (
            BootstrapPhase::StartingUpdater,
            BootstrapAction::StartUpdater,
        ),
        (BootstrapPhase::StartingUpdater, BootstrapEvent::UpdaterStarted(Ok(()))) => (
            BootstrapPhase::Finished,
            BootstrapAction::ReportRestartRequired,
        ),
        (BootstrapPhase::StartingUpdater, BootstrapEvent::UpdaterStarted(Err(e))) => (
            BootstrapPhase::Finished,
            BootstrapAction::ReportError(e),
        ),
        (p, _) => (p, BootstrapAction::Ignore),
    }
}

/// A finished bootstrap stays finished and does nothing more.
pub proof fn lemma_finished_is_final(event: EventView)
    ensures
        spec_bootstrap_step(PhaseView::Finished, event) == (PhaseView::Finished, ActionView::Ignore),
{
}

/// The bootstrap ends exactly when an error or the need to restart is reported.
pub proof fn lemma_final_actions_finish(phase: PhaseView, event: EventView)
    requires
        !(phase is Finished),
    ensures
        spec_is_final_action(spec_bootstrap_step(phase, event).1) <==> (spec_bootstrap_step(
            phase,
            event,
        ).0 is Finished),
{
}

/// A restart is only ever required once the updater has started.
pub proof fn lemma_restart_needs_updater(phase: PhaseView, event: EventView)
    ensures
        (spec_bootstrap_step(phase, event).1 is ReportRestartRequired) ==> ((phase is StartingUpdater)
            && (event matches EventView::UpdaterStarted(Ok(_)))),
{
}

/// Extraction starts only from a finished download, with the last archive it reported.
pub proof fn lemma_extraction_uses_archive(phase: PhaseView, event: EventView)
    ensures
        spec_bootstrap_step(phase, event).1 matches ActionView::StartExtraction(path) ==> (phase
            == (PhaseView::Downloading { archive: Some(path) }) && event == EventView::StreamEnded),
{
}

/// The phase after a sequence of events and the actions taken on the way,
/// one per event.
pub open spec fn spec_bootstrap_run(phase: PhaseView, events: Seq<EventView>) -> (
    PhaseView,
    Seq<ActionView>,
)
    decreases events.len(),
{
    if events.len() == 0 {
        (phase, Seq::<ActionView>::empty())
    } else {
        let (next, action) = spec_bootstrap_step(phase, events[0]);
        let (last, rest) = spec_bootstrap_run(next, events.drop_first());
        (last, seq![action] + rest)
    }
}

/// Whether the download is over: the phase is one of extraction, updater or end.
pub open spec fn spec_past_download(phase: PhaseView) -> bool {
    !(phase is OpeningDownload || phase is Downloading)
}

/// A run has one action per event, and from a finished bootstrap it stays
/// finished and does nothing.
proof fn lemma_run_from_finished(events: Seq<EventView>)
    ensures
        spec_bootstrap_run(PhaseView::Finished, events).0 == PhaseView::Finished,
        spec_bootstrap_run(PhaseView::Finished, events).1.len() == events.len(),
        forall|j: int|
            0 <= j < events.len() ==> #[trigger] spec_bootstrap_run(
                PhaseView::Finished,
                events,
            ).1[j] == ActionView::Ignore,
    decreases events.len(),
{
    if events.len() > 0 {
        lemma_run_from_finished(events.drop_first());
        let rest = spec_bootstrap_run(PhaseView::Finished, events.drop_first()).1;
        assert forall|j: int| 0 <= j < events.len() implies #[trigger] spec_bootstrap_run(
            PhaseView::Finished,
            events,
        ).1[j] == ActionView::Ignore by {
            if j > 0 {
                assert(spec_bootstrap_run(PhaseView::Finished, events).1[j] == rest[j - 1]);
            }
        }
    }
}

/// A run takes one action per event.
pub proof fn lemma_run_length(phase: PhaseView, events: Seq<EventView>)
    ensures
        spec_bootstrap_run(phase, events).1.len() == events.len(),
    decreases events.len(),
{
    if events.len() > 0 {
        lemma_run_length(spec_bootstrap_step(phase, events[0]).0, events.drop_first());
    }
}

/// Once the download is over, a run neither reports download progress nor
/// starts another extraction, and the download stays over.
proof fn lemma_run_past_download(phase: PhaseView, events: Seq<EventView>)
    requires
        spec_past_download(phase),
    ensures
        spec_past_download(spec_bootstrap_run(phase, events).0),
        forall|j: int|
            0 <= j < spec_bootstrap_run(phase, events).1.len() ==> !(#[trigger] spec_bootstrap_run(
                phase,
                events,
            ).1[j] is ReportDownloading) && !(spec_bootstrap_run(phase, events).1[j] is StartExtraction),
    decreases events.len(),
{
    if events.len() > 0 {
        let (next, action) = spec_bootstrap_step(phase, events[0]);
        lemma_run_past_download(next, events.drop_first());
        let rest = spec_bootstrap_run(next, events.drop_first()).1;
        let acts = spec_bootstrap_run(phase, events).1;
        assert forall|j: int| 0 <= j < acts.len() implies !(#[trigger] acts[j] is ReportDownloading)
            && !(acts[j] is StartExtraction) by {
            if j > 0 {
                assert(acts[j] == rest[j - 1]);
            }
        }
    }
}

/// In a run, at most one action ends the bootstrap: every action after an
/// error report or a restart request does nothing.
pub proof fn lemma_run_single_final(phase: PhaseView, events: Seq<EventView>, i: int, j: int)
    requires
        0 <= i < j < spec_bootstrap_run(phase, events).1.len(),
        spec_is_final_action(spec_bootstrap_run(phase, events).1[i]),
    ensures
        spec_bootstrap_run(phase, events).1[j] == ActionView::Ignore,
    decreases events.len(),
{
    lemma_run_length(phase, events);
    let (next, action) = spec_bootstrap_step(phase, events[0]);
    let rest = spec_bootstrap_run(next, events.drop_first()).1;
    let acts = spec_bootstrap_run(phase, events).1;
    assert(acts[j] == rest[j - 1]);
    if i == 0 {
        if phase is Finished {
            assert(false);
        } else {
            lemma_final_actions_finish(phase, events[0]);
            assert(next == PhaseView::Finished);
            lemma_run_from_finished(events.drop_first());
        }
    } else {
        assert(acts[i] == rest[i - 1]);
        lemma_run_single_final(next, events.drop_first(), i - 1, j - 1);
    }
}

/// A run that ends a bootstrap reports exactly one error or restart request.
pub proof fn lemma_run_reports_end(phase: PhaseView, events: Seq<EventView>)
    requires
        !(phase is Finished),
        spec_bootstrap_run(phase, events).0 is Finished,
    ensures
        exists|i: int|
            0 <= i < spec_bootstrap_run(phase, events).1.len() && spec_is_final_action(
                #[trigger] spec_bootstrap_run(phase, events).1[i],
            ),
    decreases events.len(),
{
    lemma_run_length(phase, events);
    let (next, action) = spec_bootstrap_step(phase, events[0]);
    let rest = spec_bootstrap_run(next, events.drop_first()).1;
    let acts = spec_bootstrap_run(phase, events).1;
    lemma_final_actions_finish(phase, events[0]);
    if next is Finished {
        assert(spec_is_final_action(acts[0]));
    } else {
        lemma_run_reports_end(next, events.drop_first());
        let k = choose|k: int| 0 <= k < rest.len() && spec_is_final_action(#[trigger] rest[k]);
        assert(acts[k + 1] == rest[k]);
    }
}

/// The download comes first: after the extraction is started, a run reports
/// no more download progress and starts no second extraction.
pub proof fn lemma_run_download_then_extraction(
    phase: PhaseView,
    events: Seq<EventView>,
    i: int,
    j: int,
)
    requires
        0 <= i < j < spec_bootstrap_run(phase, events).1.len(),
        spec_bootstrap_run(phase, events).1[i] is StartExtraction,
    ensures
        !(spec_bootstrap_run(phase, events).1[j] is ReportDownloading),
        !(spec_bootstrap_run(phase, events).1[j] is StartExtraction),
    decreases events.len(),
{
    lemma_run_length(phase, events);
    let (next, action) = spec_bootstrap_step(phase, events[0]);
    let rest = spec_bootstrap_run(next, events.drop_first()).1;
    let acts = spec_bootstrap_run(phase, events).1;
    assert(acts[j] == rest[j - 1]);
    if i == 0 {
        lemma_extraction_uses_archive(phase, events[0]);
        assert(next == PhaseView::OpeningExtraction);
        lemma_run_past_download(next, events.drop_first());
        assert(!(rest[j - 1] is ReportDownloading));
    } else {
        assert(acts[i] == rest[i - 1]);
        lemma_run_download_then_extraction(next, events.drop_first(), i - 1, j - 1);
    }
}

/// What must have happened in a run, from the given phase, before a restart
/// is requested at position `j`.
pub open spec fn spec_done_before_restart(phase: PhaseView, acts: Seq<ActionView>, j: int) -> bool {
    match phase {
        PhaseView::StartingUpdater => true,
        PhaseView::Finished => true,
        PhaseView::OpeningExtraction => exists|k: int| 0 <= k < j && #[trigger] acts[k] is StartUpdater,
        PhaseView::Extracting => exists|k: int| 0 <= k < j && #[trigger] acts[k] is StartUpdater,
        _ => exists|i: int, k: int|
            0 <= i < k < j && #[trigger] acts[i] is StartExtraction && #[trigger] acts[k] is StartUpdater,
    }
}

proof fn lemma_run_restart_history(phase: PhaseView, events: Seq<EventView>, j: int)
    requires
        0 <= j < spec_bootstrap_run(phase, events).1.len(),
        spec_bootstrap_run(phase, events).1[j] is ReportRestartRequired,
    ensures
        spec_done_before_restart(phase, spec_bootstrap_run(phase, events).1, j),
    decreases events.len(),
{
    lemma_run_length(phase, events);
    let (next, action) = spec_bootstrap_step(phase, events[0]);
    let rest = spec_bootstrap_run(next, events.drop_first()).1;
    let acts = spec_bootstrap_run(phase, events).1;
    assert(acts[0] == action);
    if j == 0 {
        lemma_restart_needs_updater(phase, events[0]);
    } else {
        assert(acts[j] == rest[j - 1]);
        if next is Finished {
            lemma_run_from_finished(events.drop_first());
            assert(rest[j - 1] == ActionView::Ignore);
        } else {
            lemma_run_restart_history(next, events.drop_first(), j - 1);
            match phase {
                PhaseView::StartingUpdater => {},
                PhaseView::Finished => {},
                PhaseView::OpeningExtraction => {
                    if next is StartingUpdater {
                        assert(acts[0] is StartUpdater);
                    } else {
                        let k = choose|k: int| 0 <= k < j - 1 && #[trigger] rest[k] is StartUpdater;
                        assert(acts[k + 1] == rest[k]);
                    }
                },
                PhaseView::Extracting => {
                    if next is StartingUpdater {
                        assert(acts[0] is StartUpdater);
                    } else {
                        let k = choose|k: int| 0 <= k < j - 1 && #[trigger] rest[k] is StartUpdater;
                        assert(acts[k + 1] == rest[k]);
                    }
                },
                _ => {
                    if next is OpeningExtraction {
                        assert(acts[0] is StartExtraction);
                        let k = choose|k: int| 0 <= k < j - 1 && #[trigger] rest[k] is StartUpdater;
                        assert(acts[k + 1] == rest[k]);
                    } else {
                        let (i, k) = choose|i: int, k: int|
                            0 <= i < k < j - 1 && #[trigger] rest[i] is StartExtraction
                                && #[trigger] rest[k] is StartUpdater;
                        assert(acts[i + 1] == rest[i]);
                        assert(acts[k + 1] == rest[k]);
                    }
                },
            }
        }
    }
}

/// In a bootstrap from its start, a restart is only requested after the
/// extraction was started and then the updater.
pub proof fn lemma_run_restart_after_extraction_and_updater(events: Seq<EventView>, j: int)
    requires
        0 <= j < spec_bootstrap_run(PhaseView::OpeningDownload, events).1.len(),
        spec_bootstrap_run(PhaseView::OpeningDownload, events).1[j] is ReportRestartRequired,
    ensures
        exists|i: int, k: int|
            0 <= i < k < j && #[trigger] spec_bootstrap_run(PhaseView::OpeningDownload, events).1[i] is StartExtraction
                && #[trigger] spec_bootstrap_run(PhaseView::OpeningDownload, events).1[k] is StartUpdater,
{
    lemma_run_restart_history(PhaseView::OpeningDownload, events, j);
}

} // verus!
