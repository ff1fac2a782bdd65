//! The update run as a state machine. The caller performs the action that the
//! current phase names (fetch the release, download the asset, ask the user,
//! operate on the filesystem, query the installed binary) and hands the
//! outcome back; the machine decides what comes next.
use vstd::prelude::*;
use crate::error::UpdateError;
use crate::policy::{
    asks_confirmation, accepts, confirmation_outcome, plan_update, skips, verify_installed,
    Decision, Installation, Product, UpdatePlan, Verification,
};
use crate::release::{asset_name_of, first_named, has_named, names_of, Asset, Release};
use crate::replace::{action_of, first_stage, next_stage, FsAction, Stage};
use crate::text::{last_word, view_opt_string, without_leading_v};

verus! {

/// Where a run stands.
pub enum Phase {
    ResolvingVersion,
    Downloading,
    ConfirmingReplace,
    Replacing(Stage),
    Verifying,
    /// Stopped early: the installed binary already has the target version.
    UpToDate,
    /// Stopped early: the user declined; nothing was written.
    Cancelled,
    /// The new binary is in place, executable, with no backup or temporary
    /// file left, and its version was queried.
    Completed,
    Failed,
}

/// What the caller is to do next.
#[derive(Clone, Copy, Debug, PartialEq, Eq)]
pub enum Action {
    FetchRelease,
    Download,
    AskConfirmation,
    Fs(FsAction),
    QueryVersion,
    Stop,
}

/// The action that a phase asks for.
pub open spec fn action_for(phase: Phase) -> Action {
    match phase {
        Phase::ResolvingVersion => Action::FetchRelease,
        Phase::Downloading => Action::Download,
        Phase::ConfirmingReplace => Action::AskConfirmation,
        Phase::Replacing(s) => Action::Fs(action_of(s)),
        Phase::Verifying => Action::QueryVersion,
        _ => Action::Stop,
    }
}

/// `plan` installs version `target` from the first of `assets` named `name`.
pub open spec fn plans(
    plan: Option<UpdatePlan>,
    target: Seq<char>,
    is_new_install: bool,
    force: bool,
    assets: Seq<Asset>,
    name: Seq<char>,
) -> bool {
    match plan {
        Some(p) => {
            &&& p.target_version@ == target
            &&& p.is_new_install == is_new_install
            &&& p.force == force
            &&& exists|i: int| first_named(assets, name, i) && p.asset == assets[i]
        },
        None => false,
    }
}

/// `error` is the want of an asset named `name` among `assets`, and lists
/// their names.
pub open spec fn reports_missing(error: Option<UpdateError>, name: Seq<char>, assets: Seq<Asset>) -> bool {
    match error {
        Some(UpdateError::AssetNotFound { expected, available }) => {
            &&& expected@ == name
            &&& available@.map_values(|s: String| s@) == names_of(assets)
        },
        _ => false,
    }
}

/// A run: its phase, what it was started with, and what it has learnt.
pub struct Pipeline {
    pub phase: Phase,
    pub product: Product,
    pub install: Installation,
    pub triple: String,
    pub force: bool,
    pub plan: Option<UpdatePlan>,
    pub error: Option<UpdateError>,
    pub verification: Option<Verification>,
}

impl Pipeline {
    /// Phases past the version check carry a plan; a replacement in progress
    /// has a step left; a failed run carries its error.
    pub open spec fn wf(&self) -> bool {
        &&& self.install.wf()
        &&& (self.phase is Downloading || self.phase is ConfirmingReplace
            || self.phase is Replacing || self.phase is Verifying || self.phase is Completed)
            ==> self.plan is Some
        &&& self.phase matches Phase::Replacing(s) ==> action_of(s) != FsAction::Stop
        &&& self.phase is Failed ==> self.error is Some
    }

    /// Whether a phase writes to the filesystem.
    pub open spec fn writes(phase: Phase) -> bool {
        phase matches Phase::Replacing(s) && action_of(s) != FsAction::Stop
    }

    /// A run of `product` for a host with platform `triple`.
    pub fn new(product: Product, install: Installation, triple: String, force: bool) -> (r:
        Pipeline)
        requires
            install.wf(),
        ensures
            r.wf(),
            r.phase is ResolvingVersion,
            r.product == product,
            r.install == install,
            r.triple == triple,
            r.force == force,
            r.plan is None,
            r.error is None,
            r.verification is None,
    {
        Pipeline {
            phase: Phase::ResolvingVersion,
            product,
            install,
            triple,
            force,
            plan: None,
            error: None,
            verification: None,
        }
    }

    /// The action to perform next.
    pub fn action(&self) -> (r: Action)
        ensures
            r == action_for(self.phase),
    {
        match &self.phase {
            Phase::ResolvingVersion => Action::FetchRelease,
            Phase::Downloading => Action::Download,
            Phase::ConfirmingReplace => Action::AskConfirmation,
            Phase::Replacing(s) => Action::Fs(s.action()),
            Phase::Verifying => Action::QueryVersion,
            _ => Action::Stop,
        }
    }

    /// Stops the run with `e`.
    fn fail(&mut self, e: UpdateError)
        ensures
            final(self).phase is Failed,
            final(self).error == Some(e),
            final(self).install == old(self).install,
            final(self).plan == old(self).plan,
    {
        self.phase = Phase::Failed;
        self.error = Some(e);
    }

    /// The registry answered: either the release, or why there is none. The
    /// run stops as up to date, fails, or goes on to download the first asset
    /// named for the product and the platform.
    pub fn on_release(&mut self, fetched: Result<Release, UpdateError>)
        requires
            old(self).wf(),
            old(self).phase is ResolvingVersion,
        ensures
            final(self).wf(),
            final(self).install == old(self).install,
            fetched matches Err(e) ==> final(self).phase is Failed && final(self).error == Some(e),
            fetched matches Ok(rel) ==> {
                let current = view_opt_string(old(self).install.current_version);
                let target = without_leading_v(rel.tag@);
                let name = asset_name_of(old(self).product.binary@, old(self).triple@);
                &&& skips(current, target, old(self).force, old(self).install.is_new_install)
                    <==> final(self).phase is UpToDate
                &&& !skips(current, target, old(self).force, old(self).install.is_new_install)
                    ==> (final(self).phase is Downloading <==> has_named(rel.assets@, name))
                &&& final(self).phase is Failed ==> reports_missing(final(self).error, name, rel.assets@)
                &&& final(self).phase is Downloading ==> plans(
                    final(self).plan,
                    target,
                    old(self).install.is_new_install,
                    old(self).force,
                    rel.assets@,
                    name,
                )
            },
    {
        match fetched {
            Err(e) => self.fail(e),
            Ok(rel) => {
                let d = plan_update(
                    &self.install,
                    &rel,
                    self.product.binary.as_str(),
                    self.triple.as_str(),
                    self.force,
                );
                match d {
                    Ok(Decision::UpToDate { .. }) => {
                        self.phase = Phase::UpToDate;
                    },
                    Ok(Decision::Proceed(p)) => {
                        self.phase = Phase::Downloading;
                        self.plan = Some(p);
                    },
                    Err(e) => self.fail(e),
                }
            },
        }
    }

    /// Where the asset is downloaded from.
    pub fn download_url(&self) -> (r: &str)
        requires
            self.wf(),
            self.phase is Downloading,
        ensures
            self.plan matches Some(p) && r@ == p.asset.download_url@,
    {
        match &self.plan {
            Some(p) => p.asset.download_url.as_str(),
            None => "",
        }
    }

    /// The download ended, well or not; `target_exists` tells whether a file
    /// is at the installed path. The user is asked first unless the run is
    /// forced or a new install.
    pub fn on_downloaded(&mut self, result: Result<(), UpdateError>, target_exists: bool)
        requires
            old(self).wf(),
            old(self).phase is Downloading,
        ensures
            final(self).wf(),
            final(self).plan == old(self).plan,
            result matches Err(e) ==> final(self).phase is Failed && final(self).error == Some(e),
            result is Ok ==> (old(self).plan matches Some(p) && if asks_confirmation(
                p.is_new_install,
                p.force,
            ) {
                final(self).phase is ConfirmingReplace
            } else {
                final(self).phase == Phase::Replacing(first_stage(target_exists))
            }),
    {
        match result {
            Err(e) => self.fail(e),
            Ok(()) => {
                let ask = match &self.plan {
                    Some(p) => p.needs_confirmation(),
                    None => false,
                };
                if ask {
                    self.phase = Phase::ConfirmingReplace;
                } else {
                    self.phase = Phase::Replacing(Stage::begin(target_exists));
                }
            },
        }
    }

    /// The user answered the prompt; `target_exists` as for a download.
    pub fn on_answer(&mut self, answer: &str, target_exists: bool)
        requires
            old(self).wf(),
            old(self).phase is ConfirmingReplace,
        ensures
            final(self).wf(),
            final(self).plan == old(self).plan,
            accepts(answer@) ==> final(self).phase == Phase::Replacing(first_stage(target_exists)),
            !accepts(answer@) ==> final(self).phase is Cancelled && final(self).error == Some(
                UpdateError::Cancelled,
            ),
    {
        match confirmation_outcome(answer) {
            Ok(()) => {
                self.phase = Phase::Replacing(Stage::begin(target_exists));
            },
            Err(e) => {
                self.phase = Phase::Cancelled;
                self.error = Some(e);
            },
        }
    }

    /// The filesystem operation that was asked for succeeded (`ok`) or failed.
    pub fn on_fs_result(&mut self, ok: bool)
        requires
            old(self).wf(),
            old(self).phase is Replacing,
        ensures
            final(self).wf(),
            final(self).plan == old(self).plan,
            old(self).phase matches Phase::Replacing(s) && match next_stage(s, ok) {
                Stage::Done => final(self).phase is Verifying,
                Stage::Failed(f) => final(self).phase is Failed && final(self).error == Some(
                    UpdateError::Io(f),
                ),
                t => final(self).phase == Phase::Replacing(t),
            },
    {
        let current = match &self.phase {
            Phase::Replacing(s) => Some(*s),
            _ => None,
        };
        match current {
            Some(s) => {
                let t = s.advance(ok);
                match t {
                    Stage::Done => {
                        self.phase = Phase::Verifying;
                    },
                    Stage::Failed(f) => self.fail(UpdateError::Io(f)),
                    t => {
                        self.phase = Phase::Replacing(t);
                    },
                }
            },
            None => {},
        }
    }

    /// What the installed binary printed for its version query, if the query
    /// ran. A mismatch is recorded; the run still completes.
    pub fn on_version_output(&mut self, stdout: Option<&str>)
        requires
            old(self).wf(),
            old(self).phase is Verifying,
        ensures
            final(self).wf(),
            final(self).phase is Completed,
            final(self).plan == old(self).plan,
            old(self).plan matches Some(p) && match stdout {
                Some(out) => final(self).verification matches Some(v) && (v is Confirmed
                    <==> last_word(out@) == Some(p.target_version@)) && (v is Unreadable
                    <==> last_word(out@) is None),
                None => final(self).verification matches Some(Verification::Unreadable),
            },
    {
        let v = match (&self.plan, stdout) {
            (Some(p), Some(out)) => verify_installed(out, p.target_version.as_str()),
            _ => Verification::Unreadable,
        };
        self.verification = Some(v);
        self.phase = Phase::Completed;
    }
}

/// A run that is neither forced nor a new install, whose binary reports the
/// version that the release's tag names, stops as up to date at the version
/// check: the phase it stops in asks for no action, so nothing is written.
pub proof fn lemma_up_to_date_writes_nothing(current: Seq<char>, tag: Seq<char>)
    requires
        current == without_leading_v(tag),
    ensures
        skips(Some(current), without_leading_v(tag), false, false),
        action_for(Phase::UpToDate) == Action::Stop,
        !Pipeline::writes(Phase::UpToDate),
{
}

} // verus!
