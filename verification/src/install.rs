//! The order of an update: what is downloaded, checked, staged and run before the executable is
//! replaced.

use vstd::prelude::*;
use vstd::string::*;
use vstd::utf8::*;

use crate::outside::{parsed_version, sha256_digest, version_exceeds};
use crate::text::trimmed;
use crate::update::{
    archive_text, check_announced, check_length, checksum_fault, extract_binary, extraction,
    first_named, install_plan, status, tag_version, target_text, verify_binary, verify_checksum,
    Asset, InstallPlan, Platform, Release, UpdateError, UpdateFault, UpdateStatus,
    MAX_ARCHIVE_BYTES, MAX_CHECKSUM_BYTES,
};

verus! {

/// What the status of an update says.
pub struct UpdateView {
    pub current_version: Seq<char>,
    pub latest_version: Seq<char>,
    pub update_available: bool,
    pub target: Seq<char>,
}

impl View for UpdateStatus {
    type V = UpdateView;

    open spec fn view(&self) -> UpdateView {
        UpdateView {
            current_version: self.current_version@,
            latest_version: self.latest_version@,
            update_available: self.update_available,
            target: self.target@,
        }
    }
}

/// What is to be downloaded.
pub struct PlanView {
    pub archive_name: Seq<char>,
    pub archive_url: Seq<char>,
    pub checksum_url: Seq<char>,
}

impl View for InstallPlan {
    type V = PlanView;

    open spec fn view(&self) -> PlanView {
        PlanView {
            archive_name: self.archive_name@,
            archive_url: self.archive_url@,
            checksum_url: self.checksum_url@,
        }
    }
}

/// An update that can be taken.
#[derive(Debug)]
pub struct Offer {
    pub status: UpdateStatus,
    pub plan: InstallPlan,
}

/// An update that can be taken.
pub struct OfferView {
    pub status: UpdateView,
    pub plan: PlanView,
}

impl View for Offer {
    type V = OfferView;

    open spec fn view(&self) -> OfferView {
        OfferView { status: self.status@, plan: self.plan@ }
    }
}

/// How far an update has come.
#[derive(Debug, Clone, Copy, PartialEq, Eq, Structural)]
pub enum InstallPhase {
    /// Asks for the latest release.
    Checking,
    /// Asks for the archive.
    AwaitingArchive,
    /// Reads the archive.
    ReadingArchive,
    /// Asks for the checksum file.
    AwaitingChecksum,
    /// Reads the checksum file.
    ReadingChecksum,
    /// Writes the new executable to a place of its own.
    Staging,
    /// Runs the new executable there.
    Running,
    /// Replaces the executable.
    Replacing,
    /// Done.
    Stopped,
}

/// The state of an update.
#[derive(Debug)]
pub struct InstallState {
    pub phase: InstallPhase,
    pub current: String,
    pub platform: Platform,
    pub offer: Option<Offer>,
    pub archive: Option<Vec<u8>>,
    pub checksum: Option<Vec<u8>>,
}

/// The state of an update.
pub struct InstallView {
    pub phase: InstallPhase,
    pub current: Seq<char>,
    pub platform: Platform,
    pub offer: Option<OfferView>,
    pub archive: Option<Seq<u8>>,
    pub checksum: Option<Seq<u8>>,
}

impl View for InstallState {
    type V = InstallView;

    open spec fn view(&self) -> InstallView {
        InstallView {
            phase: self.phase,
            current: self.current@,
            platform: self.platform,
            offer: match self.offer {
                Some(offer) => Some(offer@),
                None => None,
            },
            archive: match self.archive {
                Some(archive) => Some(archive@),
                None => None,
            },
            checksum: match self.checksum {
                Some(checksum) => Some(checksum@),
                None => None,
            },
        }
    }
}

/// What happened.
#[derive(Debug)]
pub enum InstallInput {
    /// The latest release.
    Released(Release),
    /// A download begins; how long it is announced to be.
    Announced(Option<u64>),
    /// A download is complete.
    Received(Vec<u8>),
    /// The new executable was written.
    Staged,
    /// The new executable was asked for its version: whether it succeeded, and what it printed.
    Ran(bool, Vec<u8>),
    /// The executable was replaced.
    Replaced,
}

/// What is to be done.
#[derive(Debug)]
pub enum InstallAction {
    /// Begin a download.
    Download(String),
    /// Read the download to its end.
    Read,
    /// Write the new executable to a place of its own.
    Stage(Vec<u8>),
    /// Ask the new executable for its version.
    Run,
    /// Replace the executable.
    Replace,
    /// End, and report the status.
    Finish(UpdateStatus),
    /// End with an error.
    Fail(UpdateError),
}

/// What is to be done.
pub enum InstallNext {
    Download(Seq<char>),
    Read,
    Stage(Seq<u8>),
    Run,
    Replace,
    Finish(UpdateView),
    Fail(UpdateFault),
}

impl View for InstallAction {
    type V = InstallNext;

    open spec fn view(&self) -> InstallNext {
        match self {
            InstallAction::Download(url) => InstallNext::Download(url@),
            InstallAction::Read => InstallNext::Read,
            InstallAction::Stage(contents) => InstallNext::Stage(contents@),
            InstallAction::Run => InstallNext::Run,
            InstallAction::Replace => InstallNext::Replace,
            InstallAction::Finish(status) => InstallNext::Finish(status@),
            InstallAction::Fail(error) => InstallNext::Fail(error@),
        }
    }
}

/// How the running version compares with a release, or why it cannot be said.
pub open spec fn release_status(tag: Seq<char>, current: Seq<char>, platform: Platform) -> Result<
    UpdateView,
    UpdateFault,
> {
    let latest = tag_version(tag);
    match (parsed_version(current), parsed_version(latest)) {
        (Err(cause), _) => Err(UpdateFault::CurrentVersion(cause)),
        (Ok(_), Err(cause)) => Err(UpdateFault::ReleaseVersion(tag, cause)),
        (Ok(_), Ok(_)) => match target_text(
            platform.os@,
            platform.arch@,
            platform.environment@,
        ) {
            None => Err(UpdateFault::Platform(platform.os@, platform.arch@)),
            Some(target) => Ok(
                UpdateView {
                    current_version: current,
                    latest_version: latest,
                    update_available: version_exceeds(latest, current),
                    target,
                },
            ),
        },
    }
}

/// What is to be downloaded out of a release, or which file it lacks.
pub open spec fn release_plan(assets: Seq<Asset>, archive: Seq<char>) -> Result<
    PlanView,
    UpdateFault,
> {
    let checksum = archive + ".sha256"@;
    match (first_named(assets, archive), first_named(assets, checksum)) {
        (Some(package), Some(digest)) => Ok(
            PlanView {
                archive_name: archive,
                archive_url: package.browser_download_url@,
                checksum_url: digest.browser_download_url@,
            },
        ),
        (Some(_), None) => Err(UpdateFault::MissingAsset(checksum)),
        (None, _) => Err(UpdateFault::MissingAsset(archive)),
    }
}

/// Whether a new executable runs and reports the version that it should have.
pub open spec fn is_fit(success: bool, stdout: Seq<u8>, version: Seq<char>) -> bool {
    success && valid_utf8(stdout) && trimmed(decode_utf8(stdout)) == "aingle "@ + version
}

/// What is wrong with a new executable that is not fit.
pub open spec fn unfit(success: bool, stdout: Seq<u8>) -> UpdateFault {
    if !success {
        UpdateFault::StagedFailure
    } else if !valid_utf8(stdout) {
        UpdateFault::StagedOutput
    } else {
        UpdateFault::StagedVersion
    }
}

/// The most that is read of a download.
pub open spec fn limit_in(phase: InstallPhase) -> usize {
    match phase {
        InstallPhase::AwaitingArchive | InstallPhase::ReadingArchive => MAX_ARCHIVE_BYTES,
        _ => MAX_CHECKSUM_BYTES,
    }
}

impl InstallView {
    /// The same update in another phase.
    pub open spec fn at(self, phase: InstallPhase) -> InstallView {
        InstallView { phase, ..self }
    }

    /// An update that ends in an error.
    pub open spec fn fails(self, fault: UpdateFault) -> (InstallView, InstallNext) {
        (self.at(InstallPhase::Stopped), InstallNext::Fail(fault))
    }

    /// Whether there is an update that exceeds the running version, with the archive for it.
    pub open spec fn is_offered(self) -> bool {
        match self.offer {
            Some(offer) => {
                &&& offer.status.update_available
                &&& version_exceeds(offer.status.latest_version, self.current)
                &&& offer.plan.archive_name == archive_text(
                    offer.status.latest_version,
                    offer.status.target,
                    self.platform.windows,
                )
            },
            None => false,
        }
    }

    /// Whether the archive that was received is the one that the checksum file describes.
    pub open spec fn is_checked(self) -> bool {
        match (self.offer, self.archive, self.checksum) {
            (Some(offer), Some(archive), Some(checksum)) => checksum_fault(
                offer.plan.archive_name,
                sha256_digest(archive),
                checksum,
            ) is None,
            _ => false,
        }
    }

    /// What was found out before a phase holds in it.
    pub open spec fn wf(self) -> bool {
        match self.phase {
            InstallPhase::Checking | InstallPhase::Stopped => true,
            InstallPhase::AwaitingArchive | InstallPhase::ReadingArchive => self.is_offered(),
            InstallPhase::AwaitingChecksum
            | InstallPhase::ReadingChecksum => self.is_offered() && self.archive is Some,
            InstallPhase::Staging
            | InstallPhase::Running
            | InstallPhase::Replacing => self.is_offered() && self.is_checked(),
        }
    }

    /// Whether an input answers what the update is doing.
    pub open spec fn expects(self, input: InstallInput) -> bool {
        match self.phase {
            InstallPhase::Checking => input is Released,
            InstallPhase::AwaitingArchive | InstallPhase::AwaitingChecksum => input is Announced,
            InstallPhase::ReadingArchive | InstallPhase::ReadingChecksum => input is Received,
            InstallPhase::Staging => input is Staged,
            InstallPhase::Running => input is Ran,
            InstallPhase::Replacing => input is Replaced,
            InstallPhase::Stopped => false,
        }
    }

    /// The latest release is known: it is taken if it exceeds the running version.
    pub open spec fn released(self, release: Release) -> (InstallView, InstallNext) {
        match release_status(release.tag_name@, self.current, self.platform) {
            Err(fault) => self.fails(fault),
            Ok(status) => if !status.update_available {
                (self.at(InstallPhase::Stopped), InstallNext::Finish(status))
            } else {
                match release_plan(
                    release.assets@,
                    archive_text(status.latest_version, status.target, self.platform.windows),
                ) {
                    Err(fault) => self.fails(fault),
                    Ok(plan) => (
                        InstallView {
                            phase: InstallPhase::AwaitingArchive,
                            offer: Some(OfferView { status, plan }),
                            ..self
                        },
                        InstallNext::Download(plan.archive_url),
                    ),
                }
            },
        }
    }

    /// The checksum file is there: the archive is checked against it and opened.
    pub open spec fn checked(self, checksum: Seq<u8>) -> (InstallView, InstallNext) {
        let name = self.offer->0.plan.archive_name;
        match checksum_fault(name, sha256_digest(self.archive->0), checksum) {
            Some(fault) => self.fails(UpdateFault::Checksum(fault, name)),
            None => match extraction(self.archive->0, self.platform.windows) {
                Err(fault) => self.fails(fault),
                Ok(contents) => (
                    InstallView {
                        phase: InstallPhase::Staging,
                        checksum: Some(checksum),
                        ..self
                    },
                    InstallNext::Stage(contents),
                ),
            },
        }
    }
}

/// What is done, and the state then, after an input that is expected.
pub open spec fn install_next(state: InstallView, input: InstallInput) -> (
    InstallView,
    InstallNext,
) {
    let limit = limit_in(state.phase);
    match (state.phase, input) {
        (InstallPhase::Checking, InstallInput::Released(release)) => state.released(release),
        (_, InstallInput::Announced(length)) => if length is Some && length->0 > limit {
            state.fails(UpdateFault::TooLarge(limit))
        } else if state.phase == InstallPhase::AwaitingArchive {
            (state.at(InstallPhase::ReadingArchive), InstallNext::Read)
        } else {
            (state.at(InstallPhase::ReadingChecksum), InstallNext::Read)
        },
        (_, InstallInput::Received(bytes)) => if bytes@.len() > limit {
            state.fails(UpdateFault::TooLarge(limit))
        } else if state.phase == InstallPhase::ReadingArchive {
            (
                InstallView {
                    phase: InstallPhase::AwaitingChecksum,
                    archive: Some(bytes@),
                    ..state
                },
                InstallNext::Download(state.offer->0.plan.checksum_url),
            )
        } else {
            state.checked(bytes@)
        },
        (InstallPhase::Staging, InstallInput::Staged) => (
            state.at(InstallPhase::Running),
            InstallNext::Run,
        ),
        (InstallPhase::Running, InstallInput::Ran(success, stdout)) => if is_fit(
            success,
            stdout@,
            state.offer->0.status.latest_version,
        ) {
            (state.at(InstallPhase::Replacing), InstallNext::Replace)
        } else {
            state.fails(unfit(success, stdout@))
        },
        _ => (
            state.at(InstallPhase::Stopped),
            InstallNext::Finish(state.offer->0.status),
        ),
    }
}

fn copy_status(status: &UpdateStatus) -> (copy: UpdateStatus)
    ensures
        copy@ == status@,
{
    UpdateStatus {
        current_version: status.current_version.clone(),
        latest_version: status.latest_version.clone(),
        update_available: status.update_available,
        target: status.target.clone(),
    }
}

impl InstallState {
    /// The state before the latest release is known.
    pub fn new(current: String, platform: Platform) -> (state: InstallState)
        ensures
            state@.wf(),
            state@ == (InstallView {
                phase: InstallPhase::Checking,
                current: current@,
                platform,
                offer: None,
                archive: None,
                checksum: None,
            }),
    {
        InstallState {
            phase: InstallPhase::Checking,
            current,
            platform,
            offer: None,
            archive: None,
            checksum: None,
        }
    }

    fn fail(&mut self, error: UpdateError) -> (action: InstallAction)
        ensures
            (final(self)@, action@) == old(self)@.fails(error@),
    {
        self.phase = InstallPhase::Stopped;
        InstallAction::Fail(error)
    }

    fn take_release(&mut self, release: Release) -> (action: InstallAction)
        requires
            old(self).phase == InstallPhase::Checking,
        ensures
            (final(self)@, action@) == old(self)@.released(release),
            final(self)@.wf(),
    {
        let found = match status(&release, self.current.as_str(), &self.platform) {
            Ok(found) => found,
            Err(error) => return self.fail(error),
        };
        if !found.update_available {
            self.phase = InstallPhase::Stopped;
            return InstallAction::Finish(found);
        }
        match install_plan(&release, &found, self.platform.windows) {
            Ok(plan) => {
                let url = plan.archive_url.clone();
                self.phase = InstallPhase::AwaitingArchive;
                self.offer = Some(Offer { status: found, plan });
                InstallAction::Download(url)
            },
            Err(error) => self.fail(error),
        }
    }

    fn take_checksum(&mut self, checksum: Vec<u8>) -> (action: InstallAction)
        requires
            old(self)@.wf(),
            old(self).phase == InstallPhase::ReadingChecksum,
        ensures
            (final(self)@, action@) == old(self)@.checked(checksum@),
            final(self)@.wf(),
    {
        let outcome = match (&self.offer, &self.archive) {
            (Some(offer), Some(archive)) => match verify_checksum(
                offer.plan.archive_name.as_str(),
                archive.as_slice(),
                checksum.as_slice(),
            ) {
                Ok(_) => extract_binary(archive.as_slice(), self.platform.windows),
                Err(error) => Err(error),
            },
            _ => Err(UpdateError::StagedFailure),
        };
        match outcome {
            Ok(contents) => {
                self.phase = InstallPhase::Staging;
                self.checksum = Some(checksum);
                InstallAction::Stage(contents)
            },
            Err(error) => self.fail(error),
        }
    }

    fn take_run(&mut self, success: bool, stdout: Vec<u8>) -> (action: InstallAction)
        requires
            old(self)@.wf(),
            old(self).phase == InstallPhase::Running,
        ensures
            (final(self)@, action@) == install_next(
                old(self)@,
                InstallInput::Ran(success, stdout),
            ),
            final(self)@.wf(),
    {
        let outcome = match &self.offer {
            Some(offer) => verify_binary(
                success,
                stdout.as_slice(),
                offer.status.latest_version.as_str(),
            ),
            None => Err(UpdateError::StagedFailure),
        };
        match outcome {
            Ok(_) => {
                self.phase = InstallPhase::Replacing;
                InstallAction::Replace
            },
            Err(error) => self.fail(error),
        }
    }
}

/// Takes an input and says what to do next.
pub fn install_step(state: &mut InstallState, input: InstallInput) -> (action: InstallAction)
    requires
        old(state)@.wf(),
        old(state)@.expects(input),
    ensures
        final(state)@.wf(),
        (final(state)@, action@) == install_next(old(state)@, input),
        input matches InstallInput::Announced(length) ==> {
            let limit: usize = if old(state).phase == InstallPhase::AwaitingArchive {
                104_857_600
            } else {
                4096
            };
            if length is Some && length->0 > limit {
                action == InstallAction::Fail(UpdateError::TooLarge(limit))
            } else {
                action is Read
            }
        },
        action is Replace ==> (input matches InstallInput::Ran(success, stdout) && success
            && valid_utf8(stdout@) && trimmed(decode_utf8(stdout@)) == "aingle "@
            + old(state)@.offer->0.status.latest_version),
{
    let limit: usize = match state.phase {
        InstallPhase::AwaitingArchive | InstallPhase::ReadingArchive => MAX_ARCHIVE_BYTES,
        _ => MAX_CHECKSUM_BYTES,
    };
    match input {
        InstallInput::Released(release) => state.take_release(release),
        InstallInput::Announced(length) => match check_announced(length, limit) {
            Ok(_) => {
                state.phase = if state.phase == InstallPhase::AwaitingArchive {
                    InstallPhase::ReadingArchive
                } else {
                    InstallPhase::ReadingChecksum
                };
                InstallAction::Read
            },
            Err(error) => state.fail(error),
        },
        InstallInput::Received(bytes) => match check_length(bytes.len(), limit) {
            Ok(_) => if state.phase == InstallPhase::ReadingArchive {
                let url = match &state.offer {
                    Some(offer) => offer.plan.checksum_url.clone(),
                    None => String::new(),
                };
                state.phase = InstallPhase::AwaitingChecksum;
                state.archive = Some(bytes);
                InstallAction::Download(url)
            } else {
                state.take_checksum(bytes)
            },
            Err(error) => state.fail(error),
        },
        InstallInput::Staged => {
            state.phase = InstallPhase::Running;
            InstallAction::Run
        },
        InstallInput::Ran(success, stdout) => state.take_run(success, stdout),
        InstallInput::Replaced => {
            state.phase = InstallPhase::Stopped;
            match &state.offer {
                Some(offer) => InstallAction::Finish(copy_status(&offer.status)),
                None => InstallAction::Fail(UpdateError::StagedFailure),
            }
        },
    }
}

/// Law: the executable is replaced only by what a release holds that exceeds the running version,
/// out of an archive that its checksum file describes, once it ran and reported that version.
pub proof fn law_replacement_is_earned(state: InstallView, input: InstallInput)
    requires
        state.wf(),
        state.expects(input),
        install_next(state, input).1 is Replace,
    ensures
        state.phase == InstallPhase::Running,
        version_exceeds(state.offer->0.status.latest_version, state.current),
        checksum_fault(
            state.offer->0.plan.archive_name,
            sha256_digest(state.archive->0),
            state.checksum->0,
        ) is None,
        input matches InstallInput::Ran(success, stdout) && is_fit(
            success,
            stdout@,
            state.offer->0.status.latest_version,
        ),
{
}

/// Law: what an update has found out stays true until it ends, and it is about the same running
/// version and platform throughout.
pub proof fn law_install_keeps_what_it_found(state: InstallView, input: InstallInput)
    requires
        state.wf(),
        state.expects(input),
    ensures
        ({
            let after = install_next(state, input).0;
            &&& after.wf()
            &&& after.current == state.current
            &&& after.platform == state.platform
        }),
{
}

/// Law: an update is over exactly once it has reported a status or an error; no input is expected
/// after that.
pub proof fn law_install_ends_with_a_report(state: InstallView, input: InstallInput)
    requires
        state.wf(),
        state.expects(input),
    ensures
        ({
            let (after, next) = install_next(state, input);
            &&& after.phase == InstallPhase::Stopped <==> next is Finish || next is Fail
            &&& after.phase == InstallPhase::Stopped ==> forall|later: InstallInput|
                !after.expects(later)
        }),
{
}

/// Law: what is staged comes out of the archive that was checked, and nothing is staged, run or
/// replaced before the check.
pub proof fn law_staging_follows_the_check(state: InstallView, input: InstallInput)
    requires
        state.wf(),
        state.expects(input),
    ensures
        ({
            let (after, next) = install_next(state, input);
            &&& next is Stage || next is Run || next is Replace ==> after.is_offered()
                && after.is_checked()
            &&& next matches InstallNext::Stage(contents) ==> extraction(
                after.archive->0,
                after.platform.windows,
            ) == Ok::<_, UpdateFault>(contents)
        }),
{
}

/// Law: nothing is downloaded unless the release exceeds the running version; where it does not,
/// the update ends with that status.
pub proof fn law_no_download_without_a_newer_release(state: InstallView, release: Release)
    requires
        state.phase == InstallPhase::Checking,
    ensures
        ({
            let next = install_next(state, InstallInput::Released(release)).1;
            let latest = tag_version(release.tag_name@);
            let found = release_status(release.tag_name@, state.current, state.platform);
            &&& next is Download ==> version_exceeds(latest, state.current)
            &&& found is Ok && !version_exceeds(latest, state.current) ==> next
                == InstallNext::Finish(found->Ok_0)
        }),
{
}

/// Whether an input tells how an action went.
pub open spec fn install_answers(next: InstallNext, input: InstallInput) -> bool {
    match next {
        InstallNext::Download(_) => input is Announced,
        InstallNext::Read => input is Received,
        InstallNext::Stage(_) => input is Staged,
        InstallNext::Run => input is Ran,
        InstallNext::Replace => input is Replaced,
        InstallNext::Finish(_) | InstallNext::Fail(_) => false,
    }
}

/// Law: whoever does what the update says, and tells it how it went, tells it something that it
/// expects.
pub proof fn law_install_is_never_at_a_loss(
    state: InstallView,
    input: InstallInput,
    reply: InstallInput,
)
    requires
        state.wf(),
        state.expects(input),
        install_answers(install_next(state, input).1, reply),
    ensures
        install_next(state, input).0.expects(reply),
{
}

/// Law: a download is refused for its announced length exactly where that exceeds the limit of what
/// is downloaded, a hundred mebibytes for the archive and four kibibytes for the checksum file; one
/// that is not refused is read.
pub proof fn law_downloads_have_their_own_limits(state: InstallView, length: Option<u64>)
    requires
        state.phase == InstallPhase::AwaitingArchive || state.phase
            == InstallPhase::AwaitingChecksum,
    ensures
        ({
            let (after, next) = install_next(state, InstallInput::Announced(length));
            let archive = state.phase == InstallPhase::AwaitingArchive;
            let limit: usize = if archive {
                104_857_600
            } else {
                4096
            };
            if length is Some && length->0 > limit {
                next == InstallNext::Fail(UpdateFault::TooLarge(limit)) && after == (InstallView {
                    phase: InstallPhase::Stopped,
                    ..state
                })
            } else {
                next is Read && after == (InstallView {
                    phase: if archive {
                        InstallPhase::ReadingArchive
                    } else {
                        InstallPhase::ReadingChecksum
                    },
                    ..state
                })
            }
        }),
{
}

/// Law: an archive is kept as it came, and its checksum file is asked for next, exactly where it has
/// no more than a hundred mebibytes.
pub proof fn law_archive_is_kept_as_it_came(state: InstallView, bytes: Vec<u8>)
    requires
        state.phase == InstallPhase::ReadingArchive,
    ensures
        ({
            let (after, next) = install_next(state, InstallInput::Received(bytes));
            if bytes@.len() > 104_857_600 {
                next == InstallNext::Fail(UpdateFault::TooLarge(104_857_600))
            } else {
                next == InstallNext::Download(state.offer->0.plan.checksum_url) && after == (
                InstallView {
                    phase: InstallPhase::AwaitingChecksum,
                    archive: Some(bytes@),
                    ..state
                })
            }
        }),
{
}

/// Law: a checksum file of more than four kibibytes, or one with a fault, ends the update with that;
/// otherwise what the archive holds is staged, or the fault of the archive is reported.
pub proof fn law_checksum_decides(state: InstallView, bytes: Vec<u8>)
    requires
        state.phase == InstallPhase::ReadingChecksum,
    ensures
        ({
            let (after, next) = install_next(state, InstallInput::Received(bytes));
            let name = state.offer->0.plan.archive_name;
            let fault = checksum_fault(name, sha256_digest(state.archive->0), bytes@);
            let taken = extraction(state.archive->0, state.platform.windows);
            &&& bytes@.len() > 4096 ==> next == InstallNext::Fail(UpdateFault::TooLarge(4096))
            &&& bytes@.len() <= 4096 && fault is Some ==> next == InstallNext::Fail(
                UpdateFault::Checksum(fault->0, name),
            )
            &&& bytes@.len() <= 4096 && fault is None ==> match taken {
                Err(cause) => next == InstallNext::Fail(cause),
                Ok(contents) => next == InstallNext::Stage(contents) && after == (InstallView {
                    phase: InstallPhase::Staging,
                    checksum: Some(bytes@),
                    ..state
                }),
            }
        }),
{
}

/// Law: what is staged is run, and it replaces the executable exactly where it succeeds and prints
/// `aingle` and the version of the release, apart from white space around that; then the status is
/// reported. Otherwise the update ends with what went wrong.
pub proof fn law_staged_executable_must_name_its_version(
    state: InstallView,
    success: bool,
    stdout: Vec<u8>,
)
    ensures
        state.phase == InstallPhase::Staging ==> install_next(state, InstallInput::Staged) == (
            InstallView { phase: InstallPhase::Running, ..state },
            InstallNext::Run,
        ),
        state.phase == InstallPhase::Replacing ==> install_next(state, InstallInput::Replaced) == (
            InstallView { phase: InstallPhase::Stopped, ..state },
            InstallNext::Finish(state.offer->0.status),
        ),
        state.phase == InstallPhase::Running ==> ({
            let (after, next) = install_next(state, InstallInput::Ran(success, stdout));
            if !success {
                next == InstallNext::Fail(UpdateFault::StagedFailure)
            } else if !valid_utf8(stdout@) {
                next == InstallNext::Fail(UpdateFault::StagedOutput)
            } else if trimmed(decode_utf8(stdout@)) != "aingle "@
                + state.offer->0.status.latest_version {
                next == InstallNext::Fail(UpdateFault::StagedVersion)
            } else {
                next is Replace && after == (InstallView {
                    phase: InstallPhase::Replacing,
                    ..state
                })
            }
        }),
{
}

/// Law: of a release that exceeds the running version, the archive for this target is downloaded:
/// the file named after the version, the target and the kind of archive, where the release has it
/// and the checksum file named after it. A release without them, a version that cannot be read or a
/// machine without a target ends the update with that.
pub proof fn law_release_is_taken_by_its_names(state: InstallView, release: Release)
    requires
        state.phase == InstallPhase::Checking,
    ensures
        ({
            let (after, next) = install_next(state, InstallInput::Released(release));
            let tag = release.tag_name@;
            let latest = if tag.len() > 0 && tag[0] == 'v' {
                tag.skip(1)
            } else {
                tag
            };
            let target = target_text(
                state.platform.os@,
                state.platform.arch@,
                state.platform.environment@,
            );
            let status = UpdateView {
                current_version: state.current,
                latest_version: latest,
                update_available: version_exceeds(latest, state.current),
                target: target->0,
            };
            let name = "aingle-"@ + latest + "-"@ + target->0 + "."@ + (if state.platform.windows {
                "zip"@
            } else {
                "tar.gz"@
            });
            let package = first_named(release.assets@, name);
            let digest = first_named(release.assets@, name + ".sha256"@);
            match (parsed_version(state.current), parsed_version(latest)) {
                (Err(cause), _) => next == InstallNext::Fail(UpdateFault::CurrentVersion(cause)),
                (Ok(_), Err(cause)) => next == InstallNext::Fail(
                    UpdateFault::ReleaseVersion(tag, cause),
                ),
                (Ok(_), Ok(_)) => {
                    &&& target is None ==> next == InstallNext::Fail(
                        UpdateFault::Platform(state.platform.os@, state.platform.arch@),
                    )
                    &&& target is Some && !status.update_available ==> next == InstallNext::Finish(
                        status,
                    )
                    &&& target is Some && status.update_available && package is None ==> next
                        == InstallNext::Fail(UpdateFault::MissingAsset(name))
                    &&& target is Some && status.update_available && package is Some
                        && digest is None ==> next == InstallNext::Fail(
                        UpdateFault::MissingAsset(name + ".sha256"@),
                    )
                    &&& target is Some && status.update_available && package is Some
                        && digest is Some ==> next == InstallNext::Download(
                        package->0.browser_download_url@,
                    ) && after.phase == InstallPhase::AwaitingArchive && (after.offer matches Some(
                        offer,
                    ) && offer.status == status && offer.plan.archive_name == name
                        && offer.plan.archive_url == package->0.browser_download_url@
                        && offer.plan.checksum_url == digest->0.browser_download_url@)
                },
            }
        }),
{
}

/// Law: what an update holds and does says what it is.
pub proof fn law_install_values_say_what_they_hold(state: InstallState, action: InstallAction)
    ensures
        state@.phase == state.phase,
        state@.current == state.current@,
        state@.platform == state.platform,
        match state.archive {
            Some(bytes) => state@.archive == Some(bytes@),
            None => state@.archive is None,
        },
        match state.checksum {
            Some(bytes) => state@.checksum == Some(bytes@),
            None => state@.checksum is None,
        },
        match state.offer {
            Some(offer) => state@.offer matches Some(shown) && {
                &&& shown.status.current_version == offer.status.current_version@
                &&& shown.status.latest_version == offer.status.latest_version@
                &&& shown.status.update_available == offer.status.update_available
                &&& shown.status.target == offer.status.target@
                &&& shown.plan.archive_name == offer.plan.archive_name@
                &&& shown.plan.archive_url == offer.plan.archive_url@
                &&& shown.plan.checksum_url == offer.plan.checksum_url@
            },
            None => state@.offer is None,
        },
        match action {
            InstallAction::Download(url) => action@ == InstallNext::Download(url@),
            InstallAction::Read => action@ == InstallNext::Read,
            InstallAction::Stage(contents) => action@ == InstallNext::Stage(contents@),
            InstallAction::Run => action@ == InstallNext::Run,
            InstallAction::Replace => action@ == InstallNext::Replace,
            InstallAction::Finish(status) => action@ matches InstallNext::Finish(shown)
                && shown.current_version == status.current_version@ && shown.latest_version
                == status.latest_version@ && shown.update_available == status.update_available
                && shown.target == status.target@,
            InstallAction::Fail(error) => action@ == InstallNext::Fail(error@),
        },
{
}

} // verus!
