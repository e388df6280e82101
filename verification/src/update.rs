//! The update orchestrator: one check, download, install cycle per process
//! lifetime, run in the background. The host performs the network steps
//! through the external updater client and hands each result back; the
//! decisions — which phase follows which event, when a download may start,
//! when an installation outcome is accepted — are made and proved here.

use vstd::prelude::*;

verus! {

/// Describes an available release, as the updater client reported it.
/// Read-only to the orchestrator.
#[derive(Clone, PartialEq, Eq, Debug)]
pub struct UpdateManifest {
    /// Version identifier of the release.
    pub version: String,
    /// Release date, if the service reported one, already rendered as text.
    pub date: Option<String>,
    /// Human-readable release notes, if any.
    pub body: Option<String>,
}

/// The mathematical value of a manifest.
pub struct ManifestView {
    pub version: Seq<char>,
    pub date: Option<Seq<char>>,
    pub body: Option<Seq<char>>,
}

impl View for UpdateManifest {
    type V = ManifestView;

    open spec fn view(&self) -> ManifestView {
        ManifestView {
            version: self.version@,
            date: match self.date {
                Some(d) => Some(d@),
                None => None,
            },
            body: match self.body {
                Some(b) => Some(b@),
                None => None,
            },
        }
    }
}

/// The phases of one orchestration cycle.
#[derive(Clone, Copy, PartialEq, Eq, Structural, Debug)]
pub enum UpdatePhase {
    /// Not yet started.
    Idle,
    /// The release service is being queried.
    Checking,
    /// A release is being downloaded and installed.
    Downloading,
    /// Terminal: the service reported no newer release.
    NoUpdate,
    /// Terminal: the client could not be built or the check failed.
    CheckFailed,
    /// Terminal: the download or the installation failed.
    InstallFailed,
    /// Terminal: the new version is staged; a restart applies it.
    InstalledPendingRestart,
}

/// Whether a phase ends the cycle.
pub open spec fn is_terminal(p: UpdatePhase) -> bool {
    match p {
        UpdatePhase::NoUpdate => true,
        UpdatePhase::CheckFailed => true,
        UpdatePhase::InstallFailed => true,
        UpdatePhase::InstalledPendingRestart => true,
        _ => false,
    }
}

/// The events one cycle can observe.
#[derive(Clone, Copy, PartialEq, Eq, Structural, Debug)]
pub enum UpdateEvent {
    /// The single query of the release service begins.
    CheckStarted,
    /// The query reported a manifest: an update is available.
    ManifestReported,
    /// The query reported no manifest: already current.
    NoManifestReported,
    /// The client could not be built, or the query errored.
    CheckErrored,
    /// Download and installation finished successfully.
    InstallSucceeded,
    /// Download or installation failed.
    InstallErrored,
}

/// The transition relation of the cycle: the phase that follows `e` in `p`,
/// or `None` when the event is not allowed there. Terminal phases allow no
/// event: the cycle runs at most once per process lifetime.
pub open spec fn spec_next_phase(p: UpdatePhase, e: UpdateEvent) -> Option<UpdatePhase> {
    match (p, e) {
        (UpdatePhase::Idle, UpdateEvent::CheckStarted) => Some(UpdatePhase::Checking),
        (UpdatePhase::Checking, UpdateEvent::ManifestReported) => Some(UpdatePhase::Downloading),
        (UpdatePhase::Checking, UpdateEvent::NoManifestReported) => Some(UpdatePhase::NoUpdate),
        (UpdatePhase::Checking, UpdateEvent::CheckErrored) => Some(UpdatePhase::CheckFailed),
        (UpdatePhase::Downloading, UpdateEvent::InstallSucceeded) => Some(
            UpdatePhase::InstalledPendingRestart,
        ),
        (UpdatePhase::Downloading, UpdateEvent::InstallErrored) => Some(UpdatePhase::InstallFailed),
        _ => None,
    }
}

/// Computes the transition relation.
pub fn step_phase(p: UpdatePhase, e: UpdateEvent) -> (r: Option<UpdatePhase>)
    ensures
        r == spec_next_phase(p, e),
{
    match (p, e) {
        (UpdatePhase::Idle, UpdateEvent::CheckStarted) => Some(UpdatePhase::Checking),
        (UpdatePhase::Checking, UpdateEvent::ManifestReported) => Some(UpdatePhase::Downloading),
        (UpdatePhase::Checking, UpdateEvent::NoManifestReported) => Some(UpdatePhase::NoUpdate),
        (UpdatePhase::Checking, UpdateEvent::CheckErrored) => Some(UpdatePhase::CheckFailed),
        (UpdatePhase::Downloading, UpdateEvent::InstallSucceeded) => Some(
            UpdatePhase::InstalledPendingRestart,
        ),
        (UpdatePhase::Downloading, UpdateEvent::InstallErrored) => Some(UpdatePhase::InstallFailed),
        _ => None,
    }
}

/// Law: a terminal phase admits no further event — once a cycle has ended,
/// no check, download or install event applies to it.
pub proof fn lemma_terminal_is_stuck(p: UpdatePhase, e: UpdateEvent)
    requires
        is_terminal(p),
    ensures
        spec_next_phase(p, e) is None,
{
}

/// Law: a download phase is reached only from the checking phase, and only
/// by the event that reports a manifest — no manifest, no download.
pub proof fn lemma_download_needs_manifest(p: UpdatePhase, e: UpdateEvent)
    requires
        spec_next_phase(p, e) == Some(UpdatePhase::Downloading),
    ensures
        p == UpdatePhase::Checking && e == UpdateEvent::ManifestReported,
{
}

/// What the single query of the release service came back with. Building the
/// client is part of performing the check: its failure is a check failure.
#[derive(Clone, PartialEq, Eq, Debug)]
pub enum CheckResult {
    /// The updater client could not be built (missing configuration).
    ClientBuildFailed(String),
    /// Transport or parse error from the release service.
    Errored(String),
    /// No manifest: the application is already current.
    UpToDate,
    /// A newer release is available.
    Available(UpdateManifest),
}

/// What the download-and-install step came back with.
#[derive(Clone, PartialEq, Eq, Debug)]
pub enum InstallResult {
    /// The new version is staged; a restart applies it.
    Installed,
    /// Download or installation fault.
    Failed(String),
}

/// Terminal value of one orchestration run; only logged, never persisted.
#[derive(Clone, PartialEq, Eq, Debug)]
pub enum UpdateOutcome {
    NoUpdateAvailable,
    UpdateInstalled,
    CheckFailed(String),
    InstallFailed(String),
}

/// The mathematical value of an outcome.
pub enum OutcomeView {
    NoUpdateAvailable,
    UpdateInstalled,
    CheckFailed(Seq<char>),
    InstallFailed(Seq<char>),
}

impl View for UpdateOutcome {
    type V = OutcomeView;

    open spec fn view(&self) -> OutcomeView {
        match self {
            UpdateOutcome::NoUpdateAvailable => OutcomeView::NoUpdateAvailable,
            UpdateOutcome::UpdateInstalled => OutcomeView::UpdateInstalled,
            UpdateOutcome::CheckFailed(m) => OutcomeView::CheckFailed(m@),
            UpdateOutcome::InstallFailed(m) => OutcomeView::InstallFailed(m@),
        }
    }
}

/// One orchestration cycle. At most one runs per process lifetime; the host
/// drives it with the results of the outside steps, in order.
pub struct UpdateCycle {
    /// The current phase.
    pub phase: UpdatePhase,
    /// Whether the download-complete notification has been received.
    pub download_completed: bool,
    /// The terminal outcome, present exactly when the phase is terminal.
    pub outcome: Option<UpdateOutcome>,
}

impl UpdateCycle {
    /// The outcome field agrees with the phase: present, and of the matching
    /// variant, exactly in a terminal phase.
    pub open spec fn wf(self) -> bool {
        match self.phase {
            UpdatePhase::NoUpdate => self.outcome matches Some(o) && o@
                == OutcomeView::NoUpdateAvailable,
            UpdatePhase::InstalledPendingRestart => self.outcome matches Some(o) && o@
                == OutcomeView::UpdateInstalled,
            UpdatePhase::CheckFailed => self.outcome matches Some(o) && o@ matches
                OutcomeView::CheckFailed(_),
            UpdatePhase::InstallFailed => self.outcome matches Some(o) && o@ matches
                OutcomeView::InstallFailed(_),
            _ => self.outcome is None,
        }
    }

    /// A fresh cycle, not yet started.
    pub fn new() -> (c: Self)
        ensures
            c.phase == UpdatePhase::Idle,
            !c.download_completed,
            c.outcome is None,
            c.wf(),
    {
        UpdateCycle { phase: UpdatePhase::Idle, download_completed: false, outcome: None }
    }

    /// The single query begins: the cycle leaves `Idle` for `Checking`.
    pub fn start_check(&mut self)
        requires
            old(self).phase == UpdatePhase::Idle,
            old(self).wf(),
        ensures
            Some(final(self).phase) == spec_next_phase(
                old(self).phase,
                UpdateEvent::CheckStarted,
            ),
            final(self).phase == UpdatePhase::Checking,
            !final(self).download_completed,
            final(self).outcome is None,
            final(self).wf(),
    {
        self.phase = UpdatePhase::Checking;
        self.download_completed = false;
        self.outcome = None;
    }

    /// Consumes the result of the single check. Exactly when a manifest was
    /// reported, the cycle enters `Downloading` and the manifest is returned
    /// as the download to perform; every other result ends the cycle with
    /// the matching terminal outcome, and no download is requested.
    pub fn on_check_result(&mut self, r: CheckResult) -> (download: Option<UpdateManifest>)
        requires
            old(self).phase == UpdatePhase::Checking,
            old(self).wf(),
        ensures
            final(self).wf(),
            final(self).download_completed == old(self).download_completed,
            match r {
                CheckResult::ClientBuildFailed(m) => final(self).phase == UpdatePhase::CheckFailed
                    && (final(self).outcome matches Some(o) && o@ == OutcomeView::CheckFailed(m@))
                    && download is None,
                CheckResult::Errored(m) => final(self).phase == UpdatePhase::CheckFailed
                    && (final(self).outcome matches Some(o) && o@ == OutcomeView::CheckFailed(m@))
                    && download is None,
                CheckResult::UpToDate => final(self).phase == UpdatePhase::NoUpdate
                    && (final(self).outcome matches Some(o) && o@ == OutcomeView::NoUpdateAvailable)
                    && download is None,
                CheckResult::Available(man) => final(self).phase == UpdatePhase::Downloading
                    && final(self).outcome is None && (download matches Some(d) && d@ == man@),
            },
    {
        match r {
            CheckResult::ClientBuildFailed(m) => {
                self.phase = UpdatePhase::CheckFailed;
                self.outcome = Some(UpdateOutcome::CheckFailed(m));
                None
            },
            CheckResult::Errored(m) => {
                self.phase = UpdatePhase::CheckFailed;
                self.outcome = Some(UpdateOutcome::CheckFailed(m));
                None
            },
            CheckResult::UpToDate => {
                self.phase = UpdatePhase::NoUpdate;
                self.outcome = Some(UpdateOutcome::NoUpdateAvailable);
                None
            },
            CheckResult::Available(man) => {
                self.phase = UpdatePhase::Downloading;
                self.outcome = None;
                Some(man)
            },
        }
    }

    /// The transfer finished: recorded once, after the last chunk and before
    /// any installation outcome is accepted.
    pub fn on_download_complete(&mut self)
        requires
            old(self).phase == UpdatePhase::Downloading,
            !old(self).download_completed,
            old(self).wf(),
        ensures
            final(self).phase == UpdatePhase::Downloading,
            final(self).download_completed,
            final(self).outcome is None,
            final(self).wf(),
    {
        self.download_completed = true;
    }

    /// Consumes the result of the download-and-install step and ends the
    /// cycle. A successful installation is accepted only after the
    /// download-complete notification: nothing is installed before the
    /// transfer has finished.
    pub fn on_install_result(&mut self, r: InstallResult)
        requires
            old(self).phase == UpdatePhase::Downloading,
            old(self).wf(),
            r is Installed ==> old(self).download_completed,
        ensures
            final(self).wf(),
            is_terminal(final(self).phase),
            final(self).download_completed == old(self).download_completed,
            match r {
                InstallResult::Installed => final(self).phase
                    == UpdatePhase::InstalledPendingRestart && (final(self).outcome matches Some(o)
                    && o@ == OutcomeView::UpdateInstalled),
                InstallResult::Failed(m) => final(self).phase == UpdatePhase::InstallFailed
                    && (final(self).outcome matches Some(o) && o@ == OutcomeView::InstallFailed(m@)),
            },
    {
        match r {
            InstallResult::Installed => {
                self.phase = UpdatePhase::InstalledPendingRestart;
                self.outcome = Some(UpdateOutcome::UpdateInstalled);
            },
            InstallResult::Failed(m) => {
                self.phase = UpdatePhase::InstallFailed;
                self.outcome = Some(UpdateOutcome::InstallFailed(m));
            },
        }
    }
}

/// The sum of the chunk sizes recorded so far.
pub open spec fn sum_chunks(s: Seq<u64>) -> int
    decreases s.len(),
{
    if s.len() == 0 {
        0
    } else {
        sum_chunks(s.drop_last()) + s.last()
    }
}

/// `n` held to the largest representable byte count.
pub open spec fn sat64(n: int) -> int {
    if n > u64::MAX {
        u64::MAX as int
    } else {
        n
    }
}

/// Progress of one artifact transfer: cumulative bytes received and the
/// total if the service announced one. Ephemeral — emitted for progress
/// logging, never persisted.
pub struct ProgressTracker {
    /// Bytes received so far, saturating at the representable maximum.
    pub received: u64,
    /// Total size of the artifact, if known.
    pub total: Option<u64>,
    /// Whether the download-complete notification has been recorded.
    pub completed: bool,
    /// The history of recorded chunk sizes.
    pub chunks: Ghost<Seq<u64>>,
}

impl ProgressTracker {
    /// The cumulative count agrees with the recorded history.
    pub open spec fn wf(self) -> bool {
        self.received == sat64(sum_chunks(self.chunks@))
    }

    /// A fresh tracker for a transfer of `total` bytes, if known.
    pub fn new(total: Option<u64>) -> (t: Self)
        ensures
            t.wf(),
            t.received == 0,
            t.total == total,
            !t.completed,
            t.chunks@ == Seq::<u64>::empty(),
    {
        ProgressTracker { received: 0, total, completed: false, chunks: Ghost(Seq::empty()) }
    }

    /// Records one received chunk: the history grows by the chunk and the
    /// cumulative count by its size, saturating. A chunk reported after the
    /// transfer completed is refused and changes nothing: the completion
    /// notification comes after the last counted chunk.
    pub fn on_chunk(&mut self, bytes: u64) -> (accepted: bool)
        requires
            old(self).wf(),
        ensures
            final(self).wf(),
            accepted == !old(self).completed,
            old(self).completed ==> *final(self) == *old(self),
            !old(self).completed ==> final(self).chunks@ == old(self).chunks@.push(bytes)
                && final(self).received == sat64(sum_chunks(old(self).chunks@.push(bytes)))
                && final(self).total == old(self).total && !final(self).completed,
    {
        if self.completed {
            return false;
        }
        proof {
            assert(self.chunks@.push(bytes).drop_last() =~= self.chunks@);
        }
        if bytes > u64::MAX - self.received {
            self.received = u64::MAX;
        } else {
            self.received = self.received + bytes;
        }
        self.chunks = Ghost(self.chunks@.push(bytes));
        true
    }

    /// Records the download-complete notification: exactly once — a second
    /// notification is refused and changes nothing — and after it no chunk
    /// is ever counted again.
    pub fn on_complete(&mut self) -> (fresh: bool)
        requires
            old(self).wf(),
        ensures
            final(self).wf(),
            fresh == !old(self).completed,
            final(self).completed,
            final(self).chunks@ == old(self).chunks@,
            final(self).received == old(self).received,
            final(self).total == old(self).total,
    {
        let fresh = !self.completed;
        self.completed = true;
        fresh
    }
}

} // verus!
