//! What to install and whether to: the product's names, the up-to-date
//! decision, the update plan, the confirmation answer and the check of the
//! installed version.
use vstd::prelude::*;
use crate::error::UpdateError;
use crate::release::{
    asset_name_of, first_named, has_named, names_of, select_asset, Asset, Release,
};
use crate::text::{
    joined, last_token, last_word, same_text, trim, trimmed, view_opt, view_opt_string,
    without_leading_v,
};

verus! {

/// The binary that a run installs and the repository that publishes it.
pub struct Product {
    pub binary: String,
    pub repository: String,
}

/// The binary's name: `mq`, or `mq-<subcommand>` for a member of the family.
pub open spec fn binary_name_for(subcommand: Option<Seq<char>>) -> Seq<char> {
    match subcommand {
        Some(s) => "mq-"@ + s,
        None => "mq"@,
    }
}

/// The repository that publishes a binary of the family.
pub open spec fn repository_for(subcommand: Option<Seq<char>>) -> Seq<char> {
    "harehare/"@ + binary_name_for(subcommand)
}

impl Product {
    /// The product named by an optional subcommand.
    pub fn for_subcommand(subcommand: Option<&str>) -> (r: Product)
        ensures
            r.binary@ == binary_name_for(view_opt(subcommand)),
            r.repository@ == repository_for(view_opt(subcommand)),
    {
        let binary = match subcommand {
            Some(s) => joined("mq-", s),
            None => String::from_str("mq"),
        };
        let repository = joined("harehare/", binary.as_str());
        Product { binary, repository }
    }
}

/// What is known of the binary before the run: whether it was found, and the
/// version it reported.
pub struct Installation {
    pub current_version: Option<String>,
    pub is_new_install: bool,
}

impl Installation {
    /// A new install has no current version.
    pub open spec fn wf(&self) -> bool {
        self.is_new_install ==> self.current_version is None
    }

    /// The binary was not found: a new install.
    pub fn new_install() -> (r: Installation)
        ensures
            r.wf(),
            r.is_new_install,
    {
        Installation { current_version: None, is_new_install: true }
    }

    /// The binary was found and reported `version`, if it reported one.
    pub fn existing(version: Option<String>) -> (r: Installation)
        ensures
            r.wf(),
            !r.is_new_install,
            r.current_version == version,
    {
        Installation { current_version: version, is_new_install: false }
    }
}

/// Whether the run stops as already up to date: not forced, not a new
/// install, and the current version is textually the target version.
pub open spec fn skips(
    current: Option<Seq<char>>,
    target: Seq<char>,
    force: bool,
    is_new_install: bool,
) -> bool {
    !force && !is_new_install && current == Some(target)
}

/// Whether the run goes on past the version check.
pub fn should_update(current: Option<&str>, target: &str, force: bool, is_new_install: bool) -> (r:
    bool)
    ensures
        r == !skips(view_opt(current), target@, force, is_new_install),
{
    if force || is_new_install {
        return true;
    }
    match current {
        Some(c) => !same_text(c, target),
        None => true,
    }
}

/// An update that has found its asset.
pub struct UpdatePlan {
    pub target_version: String,
    pub asset: Asset,
    pub is_new_install: bool,
    pub force: bool,
}

/// Where the version check leads.
pub enum Decision {
    /// The installed binary already has the target version.
    UpToDate { version: String },
    /// The binary is to be installed or replaced.
    Proceed(UpdatePlan),
}

/// How a finished run is reported.
#[derive(Clone, Copy, Debug, PartialEq, Eq)]
pub enum Report {
    Installed,
    Updated,
}

/// The user is asked before an existing binary is replaced without force.
pub open spec fn asks_confirmation(is_new_install: bool, force: bool) -> bool {
    !force && !is_new_install
}

/// A new install is reported as installed, any other run as updated.
pub open spec fn report_for(is_new_install: bool) -> Report {
    if is_new_install {
        Report::Installed
    } else {
        Report::Updated
    }
}

impl UpdatePlan {
    /// Whether the user must confirm before the binary is replaced.
    pub fn needs_confirmation(&self) -> (r: bool)
        ensures
            r == asks_confirmation(self.is_new_install, self.force),
    {
        !self.force && !self.is_new_install
    }

    /// How the run is reported once the binary is in place.
    pub fn report(&self) -> (r: Report)
        ensures
            r == report_for(self.is_new_install),
    {
        if self.is_new_install {
            Report::Installed
        } else {
            Report::Updated
        }
    }
}

/// Decides, from what is installed and the resolved release, whether the run
/// stops as up to date, fails for want of an asset for `triple`, or proceeds
/// with the first asset named `"<binary>-<triple>"`.
pub fn plan_update(
    install: &Installation,
    release: &Release,
    binary: &str,
    triple: &str,
    force: bool,
) -> (r: Result<Decision, UpdateError>)
    ensures
        skips(
            view_opt_string(install.current_version),
            without_leading_v(release.tag@),
            force,
            install.is_new_install,
        ) ==> (r matches Ok(Decision::UpToDate { version }) && version@ == without_leading_v(
            release.tag@,
        )),
        !skips(
            view_opt_string(install.current_version),
            without_leading_v(release.tag@),
            force,
            install.is_new_install,
        ) ==> (r is Ok <==> has_named(release.assets@, asset_name_of(binary@, triple@))),
        r matches Ok(Decision::UpToDate { .. }) ==> skips(
            view_opt_string(install.current_version),
            without_leading_v(release.tag@),
            force,
            install.is_new_install,
        ),
        r matches Ok(Decision::Proceed(p)) ==> {
            &&& !skips(
                view_opt_string(install.current_version),
                without_leading_v(release.tag@),
                force,
                install.is_new_install,
            )
            &&& p.target_version@ == without_leading_v(release.tag@)
            &&& p.is_new_install == install.is_new_install
            &&& p.force == force
            &&& exists|i: int|
                first_named(release.assets@, asset_name_of(binary@, triple@), i) && p.asset
                    == release.assets@[i]
        },
        r matches Err(e) ==> (e matches UpdateError::AssetNotFound { expected, available }
            && expected@ == asset_name_of(binary@, triple@)
            && available@.map_values(|s: String| s@) == names_of(release.assets@)),
{
    let version = release.version();
    let current = match &install.current_version {
        Some(c) => Some(c.as_str()),
        None => None,
    };
    if !should_update(current, version.as_str(), force, install.is_new_install) {
        return Ok(Decision::UpToDate { version });
    }
    match select_asset(&release.assets, binary, triple) {
        Ok(asset) => Ok(
            Decision::Proceed(
                UpdatePlan {
                    target_version: version,
                    asset,
                    is_new_install: install.is_new_install,
                    force,
                },
            ),
        ),
        Err(e) => Err(e),
    }
}

/// Whether an answer to the confirmation prompt accepts the replacement: an
/// empty answer or `y` in either case, around any whitespace.
pub open spec fn accepts(answer: Seq<char>) -> bool {
    let t = trimmed(answer);
    t.len() == 0 || t == "y"@ || t == "Y"@
}

/// What an answer to the confirmation prompt means for the run.
pub fn confirmation_outcome(answer: &str) -> (r: Result<(), UpdateError>)
    ensures
        accepts(answer@) <==> r is Ok,
        r matches Err(e) ==> e is Cancelled,
{
    let t = trim(answer);
    if t.as_str().unicode_len() == 0 || same_text(t.as_str(), "y") || same_text(t.as_str(), "Y") {
        Ok(())
    } else {
        Err(UpdateError::Cancelled)
    }
}

/// The version that a binary's version output names: its last
/// whitespace-delimited word.
pub fn parse_version_output(stdout: &str) -> (r: Result<String, UpdateError>)
    ensures
        last_word(stdout@) matches Some(w) ==> (r matches Ok(v) && v@ == w),
        last_word(stdout@) is None ==> (r matches Err(UpdateError::Parse)),
{
    match last_token(stdout) {
        Some(v) => Ok(v),
        None => Err(UpdateError::Parse),
    }
}

/// What the installed binary's version output says of the update.
pub enum Verification {
    /// It reports the target version.
    Confirmed,
    /// It reports another version.
    Mismatch { found: String },
    /// Its output names no version.
    Unreadable,
}

/// Compares the version that the installed binary reports with the target.
pub fn verify_installed(stdout: &str, target: &str) -> (r: Verification)
    ensures
        last_word(stdout@) == Some(target@) <==> r is Confirmed,
        last_word(stdout@) is None <==> r is Unreadable,
        r matches Verification::Mismatch { found } ==> last_word(stdout@) == Some(found@)
            && found@ != target@,
{
    match last_token(stdout) {
        Some(v) => if same_text(v.as_str(), target) {
            Verification::Confirmed
        } else {
            Verification::Mismatch { found: v }
        },
        None => Verification::Unreadable,
    }
}

/// The up-to-date decision compares versions as text, never by order: a run
/// that is neither forced nor a new install stops exactly when the current
/// version is the target version.
pub proof fn lemma_equality_decides(current: Seq<char>, target: Seq<char>)
    ensures
        skips(Some(current), target, false, false) <==> current == target,
{
}

/// A new install always goes on past the version check, is never asked to
/// confirm, and is reported as installed.
pub proof fn lemma_new_install(current: Option<Seq<char>>, target: Seq<char>, force: bool)
    ensures
        !skips(current, target, force, true),
        !asks_confirmation(true, force),
        report_for(true) == Report::Installed,
{
}

} // verus!
