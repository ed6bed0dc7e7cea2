//! The course of an installation.
//!
//! Unpacking an archive, looking at the host and touching the unpacked files
//! is work on the disk, which the library does not do. It decides instead: an
//! [`Installation`] says which piece of work is due, takes the report of how
//! that work ended, and says what is due next. The embedding program does the
//! work in between.
//!
//! Nothing here locks a profile's directory. Two installations of one profile
//! that run at once overwrite each other's files; whoever embeds the library
//! has to run them one after the other.

use vstd::prelude::*;

use crate::error::Error;
use crate::path::StoragePath;
use crate::platform::Platform;
use crate::profiles::{Profile, ProfileView};

verus! {

/// What is done to the unpacked executables.
#[derive(Debug, Clone, Copy, PartialEq, Eq, Structural)]
pub enum PostInstallStep {
    /// Rewrite where the executables look for their loader and libraries.
    BinaryPatchStep,
    /// Mark the executables as executable.
    PermissionStep,
    /// Leave them as they are.
    NoOpStep,
}

impl PostInstallStep {
    /// The step for a host: nothing off POSIX; on POSIX a patch where the
    /// host's file layout is foreign to prebuilt binaries, and permissions
    /// otherwise.
    pub open spec fn spec_select(platform: Platform, foreign_layout: bool) -> PostInstallStep {
        match platform {
            Platform::Windows => PostInstallStep::NoOpStep,
            Platform::Posix => if foreign_layout {
                PostInstallStep::BinaryPatchStep
            } else {
                PostInstallStep::PermissionStep
            },
        }
    }

    /// Picks the step for a host.
    pub fn select(platform: Platform, foreign_layout: bool) -> (step: PostInstallStep)
        ensures
            step == Self::spec_select(platform, foreign_layout),
    {
        match platform {
            Platform::Windows => PostInstallStep::NoOpStep,
            Platform::Posix => if foreign_layout {
                PostInstallStep::BinaryPatchStep
            } else {
                PostInstallStep::PermissionStep
            },
        }
    }

    /// The phase in which this step begins.
    pub open spec fn spec_first_phase(self) -> InstallPhase {
        match self {
            PostInstallStep::BinaryPatchStep => InstallPhase::Patching,
            PostInstallStep::PermissionStep => InstallPhase::MarkingClient,
            PostInstallStep::NoOpStep => InstallPhase::Installed,
        }
    }

    /// The phase in which this step begins; a step that does nothing is over
    /// at once.
    pub fn first_phase(self) -> (phase: InstallPhase)
        ensures
            phase == self.spec_first_phase(),
    {
        match self {
            PostInstallStep::BinaryPatchStep => InstallPhase::Patching,
            PostInstallStep::PermissionStep => InstallPhase::MarkingClient,
            PostInstallStep::NoOpStep => InstallPhase::Installed,
        }
    }
}

/// How far an installation has come.
#[derive(Debug, Clone, Copy, PartialEq, Eq, Structural)]
pub enum InstallPhase {
    /// The archive is being unpacked.
    Extracting,
    /// The host is being looked at.
    DetectingHost,
    /// The executables are being patched.
    Patching,
    /// The client is being marked as executable.
    MarkingClient,
    /// The command line server is being marked as executable.
    MarkingServerCli,
    /// All work is done.
    Installed,
    /// A piece of work failed.
    Failed(Error),
}

impl InstallPhase {
    /// No work is due any more.
    pub open spec fn is_final(self) -> bool {
        self is Installed || self is Failed
    }

    /// How far along the phase lies: unpacking comes before looking at the
    /// host, that before the work on the executables, and that before the end.
    pub open spec fn rank(self) -> nat {
        match self {
            InstallPhase::Extracting => 0,
            InstallPhase::DetectingHost => 1,
            InstallPhase::Patching => 2,
            InstallPhase::MarkingClient => 2,
            InstallPhase::MarkingServerCli => 3,
            InstallPhase::Installed => 4,
            InstallPhase::Failed(_) => 4,
        }
    }
}

/// How a piece of work ended.
#[derive(Debug, Clone, Copy, PartialEq, Eq, Structural)]
pub enum InstallEvent {
    /// The work that was due is done.
    Completed,
    /// The host was looked at.
    HostDetected {
        /// Its file layout is foreign to prebuilt binaries.
        foreign_layout: bool,
    },
    /// The work that was due failed.
    Failed(Error),
}

/// The piece of work that is due.
#[derive(Debug, Clone, PartialEq, Eq)]
pub enum InstallAction {
    /// Unpack `archive` into `target`, overwriting what is there.
    Extract { archive: StoragePath, target: StoragePath },
    /// Find out whether the host's file layout is foreign to prebuilt
    /// binaries, and report it as [`InstallEvent::HostDetected`].
    DetectHost,
    /// Rewrite, in both executables, where they look for their loader and
    /// libraries.
    PatchBinaries { client: StoragePath, server_cli: StoragePath },
    /// Mark `file` as executable.
    MarkExecutable { file: StoragePath },
    /// Nothing: the installation is over, and [`Installation::outcome`]
    /// tells how it ended.
    Finished,
}

/// What an [`InstallAction`] holds, as mathematical values.
pub enum InstallActionView {
    Extract { archive: Seq<Seq<char>>, target: Seq<Seq<char>> },
    DetectHost,
    PatchBinaries { client: Seq<Seq<char>>, server_cli: Seq<Seq<char>> },
    MarkExecutable { file: Seq<Seq<char>> },
    Finished,
}

impl View for InstallAction {
    type V = InstallActionView;

    open spec fn view(&self) -> InstallActionView {
        match self {
            InstallAction::Extract { archive, target } => InstallActionView::Extract {
                archive: archive@,
                target: target@,
            },
            InstallAction::DetectHost => InstallActionView::DetectHost,
            InstallAction::PatchBinaries { client, server_cli } => InstallActionView::PatchBinaries {
                client: client@,
                server_cli: server_cli@,
            },
            InstallAction::MarkExecutable { file } => InstallActionView::MarkExecutable {
                file: file@,
            },
            InstallAction::Finished => InstallActionView::Finished,
        }
    }
}

/// An installation under way on a platform.
#[derive(Debug, Clone, Copy, PartialEq, Eq, Structural)]
pub struct Installation {
    pub platform: Platform,
    pub phase: InstallPhase,
}

impl Installation {
    /// An installation that has yet to unpack the archive.
    pub fn begin(platform: Platform) -> (installation: Installation)
        ensures
            installation == (Installation { platform, phase: InstallPhase::Extracting }),
    {
        Installation { platform, phase: InstallPhase::Extracting }
    }

    /// The phase that follows `self.phase` on `event`.
    ///
    /// A failure ends the installation, whatever was due. A report that does
    /// not answer the work that was due changes nothing, and neither does any
    /// report once the installation is over.
    pub open spec fn spec_next(self, event: InstallEvent) -> InstallPhase {
        match (self.phase, event) {
            (InstallPhase::Installed, _) => self.phase,
            (InstallPhase::Failed(_), _) => self.phase,
            (_, InstallEvent::Failed(e)) => InstallPhase::Failed(e),
            (InstallPhase::Extracting, InstallEvent::Completed) => match self.platform {
                Platform::Posix => InstallPhase::DetectingHost,
                Platform::Windows => PostInstallStep::spec_select(
                    self.platform,
                    false,
                ).spec_first_phase(),
            },
            (
                InstallPhase::DetectingHost,
                InstallEvent::HostDetected { foreign_layout },
            ) => PostInstallStep::spec_select(self.platform, foreign_layout).spec_first_phase(),
            (InstallPhase::Patching, InstallEvent::Completed) => InstallPhase::Installed,
            (InstallPhase::MarkingClient, InstallEvent::Completed) => InstallPhase::MarkingServerCli,
            (InstallPhase::MarkingServerCli, InstallEvent::Completed) => InstallPhase::Installed,
            _ => self.phase,
        }
    }

    /// The installation after `event`.
    pub open spec fn spec_step(self, event: InstallEvent) -> Installation {
        Installation { platform: self.platform, phase: self.spec_next(event) }
    }

    /// Takes the report of how the work that was due ended.
    pub fn step(self, event: InstallEvent) -> (after: Installation)
        ensures
            after == self.spec_step(event),
    {
        let phase = match self.phase {
            InstallPhase::Installed => self.phase,
            InstallPhase::Failed(_) => self.phase,
            _ => match event {
                InstallEvent::Failed(e) => InstallPhase::Failed(e),
                InstallEvent::Completed => match self.phase {
                    InstallPhase::Extracting => match self.platform {
                        Platform::Posix => InstallPhase::DetectingHost,
                        Platform::Windows => PostInstallStep::select(
                            self.platform,
                            false,
                        ).first_phase(),
                    },
                    InstallPhase::Patching => InstallPhase::Installed,
                    InstallPhase::MarkingClient => InstallPhase::MarkingServerCli,
                    InstallPhase::MarkingServerCli => InstallPhase::Installed,
                    _ => self.phase,
                },
                InstallEvent::HostDetected { foreign_layout } => match self.phase {
                    InstallPhase::DetectingHost => PostInstallStep::select(
                        self.platform,
                        foreign_layout,
                    ).first_phase(),
                    _ => self.phase,
                },
            },
        };
        Installation { platform: self.platform, phase }
    }

    /// The installation after each of `events` in turn.
    pub open spec fn spec_run(self, events: Seq<InstallEvent>) -> Installation
        decreases events.len(),
    {
        if events.len() == 0 {
            self
        } else {
            self.spec_step(events.first()).spec_run(events.drop_first())
        }
    }

    /// The work that is due for `profile`.
    pub open spec fn spec_action(self, profile: ProfileView) -> InstallActionView {
        match self.phase {
            InstallPhase::Extracting => InstallActionView::Extract {
                archive: profile.download_path(),
                target: profile.directory(),
            },
            InstallPhase::DetectingHost => InstallActionView::DetectHost,
            InstallPhase::Patching => InstallActionView::PatchBinaries {
                client: profile.voxygen_path(self.platform),
                server_cli: profile.server_cli_path(self.platform),
            },
            InstallPhase::MarkingClient => InstallActionView::MarkExecutable {
                file: profile.voxygen_path(self.platform),
            },
            InstallPhase::MarkingServerCli => InstallActionView::MarkExecutable {
                file: profile.server_cli_path(self.platform),
            },
            InstallPhase::Installed => InstallActionView::Finished,
            InstallPhase::Failed(_) => InstallActionView::Finished,
        }
    }

    /// Says which work is due for `profile`.
    pub fn action(&self, profile: &Profile) -> (action: InstallAction)
        ensures
            action@ == self.spec_action(profile@),
    {
        match self.phase {
            InstallPhase::Extracting => InstallAction::Extract {
                archive: profile.download_path(),
                target: profile.directory(),
            },
            InstallPhase::DetectingHost => InstallAction::DetectHost,
            InstallPhase::Patching => InstallAction::PatchBinaries {
                client: profile.voxygen_path(self.platform),
                server_cli: profile.server_cli_path(self.platform),
            },
            InstallPhase::MarkingClient => InstallAction::MarkExecutable {
                file: profile.voxygen_path(self.platform),
            },
            InstallPhase::MarkingServerCli => InstallAction::MarkExecutable {
                file: profile.server_cli_path(self.platform),
            },
            InstallPhase::Installed => InstallAction::Finished,
            InstallPhase::Failed(_) => InstallAction::Finished,
        }
    }

    /// How the installation ended, if it is over.
    pub open spec fn spec_outcome(self) -> Option<Result<(), Error>> {
        match self.phase {
            InstallPhase::Installed => Some(Ok(())),
            InstallPhase::Failed(e) => Some(Err(e)),
            _ => None,
        }
    }

    /// How the installation ended, or nothing while work is due. The outcome
    /// is what [`Profile::install`] takes.
    pub fn outcome(&self) -> (outcome: Option<Result<(), Error>>)
        ensures
            outcome == self.spec_outcome(),
    {
        match self.phase {
            InstallPhase::Installed => Some(Ok(())),
            InstallPhase::Failed(e) => Some(Err(e)),
            _ => None,
        }
    }
}

/// A report never takes an installation back: unpacking comes before the
/// look at the host, that before the work on the executables, and that
/// before the end. A report that changes the phase takes it forward.
pub proof fn lemma_step_advances(installation: Installation, event: InstallEvent)
    ensures
        installation.spec_step(event).platform == installation.platform,
        installation.spec_step(event).phase.rank() >= installation.phase.rank(),
        installation.spec_step(event).phase != installation.phase ==> installation.spec_step(
            event,
        ).phase.rank() > installation.phase.rank(),
{
}

/// An installation that is over stays as it ended, whatever is reported.
pub proof fn lemma_final_stays(installation: Installation, events: Seq<InstallEvent>)
    requires
        installation.phase.is_final(),
    ensures
        installation.spec_run(events) == installation,
    decreases events.len(),
{
    if events.len() > 0 {
        lemma_final_stays(installation.spec_step(events.first()), events.drop_first());
    }
}

/// A failure that is reported while work is due ends the installation with
/// that failure, and no later report mends it.
pub proof fn lemma_failure_is_kept(
    installation: Installation,
    error: Error,
    later: Seq<InstallEvent>,
)
    requires
        !installation.phase.is_final(),
    ensures
        installation.spec_step(InstallEvent::Failed(error)).spec_run(later).spec_outcome() == Some(
            Err::<(), Error>(error),
        ),
{
    lemma_final_stays(installation.spec_step(InstallEvent::Failed(error)), later);
}

/// No run of reports takes an installation back.
pub proof fn lemma_run_advances(installation: Installation, events: Seq<InstallEvent>)
    ensures
        installation.spec_run(events).platform == installation.platform,
        installation.spec_run(events).phase.rank() >= installation.phase.rank(),
    decreases events.len(),
{
    if events.len() > 0 {
        lemma_step_advances(installation, events.first());
        lemma_run_advances(installation.spec_step(events.first()), events.drop_first());
    }
}

} // verus!
