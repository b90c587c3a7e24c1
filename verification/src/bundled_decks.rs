//! Provisioning of the Decks that ship inside the application: exact
//! bundled versions are installed once, never overwritten, and enabled only
//! where no other version of the same Deck was installed.

use vstd::prelude::*;

use crate::deck_ui::same_text;
use crate::extension_views::{
    ExtensionErrorCode,
    InstalledPackageSummary,
    PackageHealth,
    PackageKind,
    PackageReference,
};

verus! {

/// The identity of one Deck archive embedded in the application.
#[derive(Clone, Copy, Debug)]
pub struct BundledDeckIdentity {
    pub package_id: &'static str,
    pub package_version: &'static str,
}

/// The Decks embedded in the application, in provisioning order.
pub fn embedded_bundled_decks() -> (decks: Vec<BundledDeckIdentity>)
    ensures
        decks.len() == 2,
        decks@[0].package_id@ == "org.latentdeck.deck.d2"@,
        decks@[0].package_version@ == "0.2.0"@,
        decks@[1].package_id@ == "org.latentdeck.deck.q4"@,
        decks@[1].package_version@ == "0.2.0"@,
{
    let mut decks = Vec::new();
    decks.push(
        BundledDeckIdentity { package_id: "org.latentdeck.deck.d2", package_version: "0.2.0" },
    );
    decks.push(
        BundledDeckIdentity { package_id: "org.latentdeck.deck.q4", package_version: "0.2.0" },
    );
    decks
}

/// The exact package reference of a bundled Deck.
pub fn deck_reference(deck: BundledDeckIdentity) -> (p: PackageReference)
    ensures
        p.kind == PackageKind::DeckPack,
        p.package_id@ == deck.package_id@,
        p.package_version@ == deck.package_version@,
{
    PackageReference {
        kind: PackageKind::DeckPack,
        package_id: deck.package_id.to_owned(),
        package_version: deck.package_version.to_owned(),
    }
}

/// An installed package is exactly a bundled Deck.
pub open spec fn is_exact(p: PackageReference, deck: BundledDeckIdentity) -> bool {
    p.kind == PackageKind::DeckPack && p.package_id@ == deck.package_id@ && p.package_version@
        == deck.package_version@
}

/// An installed package is some version of a bundled Deck.
pub open spec fn same_deck_id(p: PackageReference, deck: BundledDeckIdentity) -> bool {
    p.kind == PackageKind::DeckPack && p.package_id@ == deck.package_id@
}

/// The first installed package that is exactly a bundled Deck.
pub open spec fn first_exact(ps: Seq<InstalledPackageSummary>, deck: BundledDeckIdentity) -> Option<
    int,
>
    decreases ps.len(),
{
    if ps.len() == 0 {
        None
    } else if is_exact(ps[0].package, deck) {
        Some(0)
    } else {
        match first_exact(ps.drop_first(), deck) {
            Some(i) => Some(i + 1),
            None => None,
        }
    }
}

/// The first exact position lies within the sequence and names the Deck.
pub proof fn lemma_first_exact_in_bounds(ps: Seq<InstalledPackageSummary>, deck: BundledDeckIdentity)
    ensures
        first_exact(ps, deck) matches Some(i) ==> 0 <= i < ps.len() && is_exact(ps[i].package, deck),
    decreases ps.len(),
{
    if ps.len() > 0 && !is_exact(ps[0].package, deck) {
        lemma_first_exact_in_bounds(ps.drop_first(), deck);
    }
}

fn exact_check(p: &PackageReference, deck: BundledDeckIdentity) -> (r: bool)
    ensures
        r == is_exact(*p, deck),
{
    p.kind == PackageKind::DeckPack && same_text(&p.package_id, &deck.package_id.to_owned())
        && same_text(&p.package_version, &deck.package_version.to_owned())
}

fn same_id_check(p: &PackageReference, deck: BundledDeckIdentity) -> (r: bool)
    ensures
        r == same_deck_id(*p, deck),
{
    p.kind == PackageKind::DeckPack && same_text(&p.package_id, &deck.package_id.to_owned())
}

/// The position of the first installed package that is exactly the Deck.
pub fn find_exact(packages: &Vec<InstalledPackageSummary>, deck: BundledDeckIdentity) -> (r: Option<
    usize,
>)
    ensures
        match first_exact(packages@, deck) {
            Some(i) => r == Some(i as usize),
            None => r is None,
        },
        r matches Some(j) ==> first_exact(packages@, deck) == Some(j as int),
{
    let mut i: usize = 0;
    proof {
        assert(packages@.skip(0) =~= packages@);
    }
    while i < packages.len()
        invariant
            i <= packages.len(),
            first_exact(packages@, deck) == (match first_exact(packages@.skip(i as int), deck) {
                Some(k) => Some(k + i),
                None => None,
            }),
        decreases packages.len() - i,
    {
        proof {
            assert(packages@.skip(i as int)[0] == packages@[i as int]);
            assert(packages@.skip(i as int).drop_first() =~= packages@.skip(i + 1));
        }
        if exact_check(&packages[i].package, deck) {
            return Some(i);
        }
        i += 1;
    }
    None
}

/// How many installed packages are versions of the Deck.
pub open spec fn same_id_count_spec(ps: Seq<InstalledPackageSummary>, deck: BundledDeckIdentity) -> nat
    decreases ps.len(),
{
    if ps.len() == 0 {
        0
    } else {
        same_id_count_spec(ps.drop_last(), deck) + if same_deck_id(ps.last().package, deck) {
            1nat
        } else {
            0nat
        }
    }
}

/// Counts the installed versions of a Deck.
pub fn same_id_count(packages: &Vec<InstalledPackageSummary>, deck: BundledDeckIdentity) -> (n: usize)
    ensures
        n == same_id_count_spec(packages@, deck),
{
    let mut n: usize = 0;
    let mut i: usize = 0;
    proof {
        assert(packages@.take(0) =~= Seq::<InstalledPackageSummary>::empty());
    }
    while i < packages.len()
        invariant
            i <= packages.len(),
            n == same_id_count_spec(packages@.take(i as int), deck),
            n <= i,
        decreases packages.len() - i,
    {
        proof {
            assert(packages@.take(i + 1).drop_last() =~= packages@.take(i as int));
            assert(packages@.take(i + 1).last() == packages@[i as int]);
        }
        if same_id_check(&packages[i].package, deck) {
            n = n + 1;
        }
        i += 1;
    }
    proof {
        assert(packages@.take(packages.len() as int) =~= packages@);
    }
    n
}

/// What provisioning does with a bundled Deck, given the packages installed
/// before provisioning.
#[derive(Clone, Copy, Debug, PartialEq, Eq, Structural)]
pub enum ProvisionPlan {
    /// The exact version is installed at this position: check and keep it.
    KeepExisting(usize),
    /// The exact version is absent: install it, remembering whether another
    /// version of the Deck was installed.
    Install { another_version_exists: bool },
}

pub fn plan_bundled_deck(initial: &Vec<InstalledPackageSummary>, deck: BundledDeckIdentity) -> (p:
    ProvisionPlan)
    ensures
        match first_exact(initial@, deck) {
            Some(i) => p == ProvisionPlan::KeepExisting(i as usize),
            None => p == ProvisionPlan::Install {
                another_version_exists: same_id_count_spec(initial@, deck) > 0,
            },
        },
        p matches ProvisionPlan::KeepExisting(j) ==> first_exact(initial@, deck) == Some(j as int),
{
    match find_exact(initial, deck) {
        Some(i) => ProvisionPlan::KeepExisting(i),
        None => ProvisionPlan::Install { another_version_exists: same_id_count(initial, deck) > 0 },
    }
}

/// An installed exact version is kept only when it is healthy and its trust
/// receipt names the bundled archive; a corrupt, untrusted or unverified
/// version is reported and never overwritten.
pub open spec fn existing_verdict(
    health: PackageHealth,
    trusted_archive_sha256: Result<Seq<char>, ExtensionErrorCode>,
    bundled_archive_sha256: Seq<char>,
) -> Result<(), ExtensionErrorCode> {
    match health {
        PackageHealth::Corrupt => Err(ExtensionErrorCode::IntegrityFailed),
        PackageHealth::Untrusted => Err(ExtensionErrorCode::PackageUntrusted),
        PackageHealth::VerificationRequired => Err(ExtensionErrorCode::IntegrityFailed),
        PackageHealth::Healthy => match trusted_archive_sha256 {
            Err(code) => Err(code),
            Ok(sha) => if sha == bundled_archive_sha256 {
                Ok(())
            } else {
                Err(ExtensionErrorCode::PackageUntrusted)
            },
        },
    }
}

pub open spec fn sha_view(r: Result<String, ExtensionErrorCode>) -> Result<Seq<char>, ExtensionErrorCode> {
    match r {
        Ok(s) => Ok(s@),
        Err(c) => Err(c),
    }
}

/// Checks an installed exact version against the bundled archive, given the
/// trusted archive hash that resolving the installed version produced.
pub fn validate_existing_exact(
    health: PackageHealth,
    trusted_archive_sha256: Result<String, ExtensionErrorCode>,
    bundled_archive_sha256: &String,
) -> (r: Result<(), ExtensionErrorCode>)
    ensures
        r == existing_verdict(health, sha_view(trusted_archive_sha256), bundled_archive_sha256@),
{
    match health {
        PackageHealth::Corrupt => Err(ExtensionErrorCode::IntegrityFailed),
        PackageHealth::Untrusted => Err(ExtensionErrorCode::PackageUntrusted),
        PackageHealth::VerificationRequired => Err(ExtensionErrorCode::IntegrityFailed),
        PackageHealth::Healthy => match trusted_archive_sha256 {
            Err(code) => Err(code),
            Ok(sha) => if same_text(&sha, bundled_archive_sha256) {
                Ok(())
            } else {
                Err(ExtensionErrorCode::PackageUntrusted)
            },
        },
    }
}

/// An installation keeps the bundled Deck's exact identity and archive hash.
pub fn validate_install_receipt(
    installed: &PackageReference,
    installed_archive_sha256: &String,
    deck: BundledDeckIdentity,
    bundled_archive_sha256: &String,
) -> (r: Result<(), ExtensionErrorCode>)
    ensures
        r is Ok <==> is_exact(*installed, deck) && installed_archive_sha256@
            == bundled_archive_sha256@,
        r is Err ==> r == Err::<(), ExtensionErrorCode>(ExtensionErrorCode::PackageUntrusted),
{
    if !exact_check(installed, deck) || !same_text(installed_archive_sha256, bundled_archive_sha256) {
        return Err(ExtensionErrorCode::PackageUntrusted);
    }
    Ok(())
}

/// A freshly installed bundled Deck is enabled only when no other version of
/// it was installed before and it is now the only installed version.
pub fn enable_after_install(another_version_existed: bool, same_id_count_after: usize) -> (r: bool)
    ensures
        r == (!another_version_existed && same_id_count_after == 1),
{
    !another_version_existed && same_id_count_after == 1
}

/// An issue met while provisioning one bundled Deck.
#[derive(Clone, Debug)]
pub struct BundledDeckProvisionIssue {
    pub package: PackageReference,
    pub code: ExtensionErrorCode,
}

/// What provisioning did with each bundled Deck.
#[derive(Clone, Debug)]
pub struct BundledDeckProvisionReport {
    pub installed: Vec<PackageReference>,
    pub enabled: Vec<PackageReference>,
    pub preserved: Vec<PackageReference>,
    pub issues: Vec<BundledDeckProvisionIssue>,
}

impl BundledDeckProvisionReport {
    pub fn new() -> (r: Self)
        ensures
            r.installed.len() == 0 && r.enabled.len() == 0 && r.preserved.len() == 0
                && r.issues.len() == 0,
    {
        BundledDeckProvisionReport {
            installed: Vec::new(),
            enabled: Vec::new(),
            preserved: Vec::new(),
            issues: Vec::new(),
        }
    }

    /// Records an issue of one Deck by its code.
    pub fn push_issue(&mut self, package: PackageReference, code: ExtensionErrorCode)
        ensures
            final(self).issues@ == old(self).issues@.push(
                (BundledDeckProvisionIssue { package, code }),
            ),
            final(self).installed@ == old(self).installed@,
            final(self).enabled@ == old(self).enabled@,
            final(self).preserved@ == old(self).preserved@,
    {
        self.issues.push(BundledDeckProvisionIssue { package, code });
    }
}


/// Where the provisioning of one bundled Deck stands.
#[derive(Clone, Copy, Debug, PartialEq, Eq, Structural)]
pub enum ProvisionState {
    /// The exact version was installed before: its trust receipt is being
    /// resolved.
    CheckingExisting,
    /// The archive is being written to a private staging directory.
    Staging { another_version_existed: bool },
    /// The staged archive is being installed through the bundled index.
    Installing { another_version_existed: bool },
    /// The installed packages are being listed again.
    Relisting { another_version_existed: bool },
    /// The fresh installation's trust receipt is being resolved; it is then
    /// enabled or not.
    CheckingInstalled { enable: bool },
    /// The fresh installation is being enabled.
    Enabling,
    /// Provisioning of this Deck ended.
    Done,
    /// A listing failed: the whole provisioning fails.
    Aborted,
}

/// What the host reports back after performing an action.
#[derive(Debug)]
pub enum ProvisionEvent {
    /// The installed packages, or why listing failed.
    Listed(Result<Vec<InstalledPackageSummary>, ExtensionErrorCode>),
    /// The archive hash in the exact version's trust receipt.
    TrustedArchive(Result<String, ExtensionErrorCode>),
    /// Whether staging the archive succeeded.
    Staged(Result<(), ExtensionErrorCode>),
    /// The installed package and archive hash, or why installing failed.
    Installed(Result<(PackageReference, String), ExtensionErrorCode>),
    /// Whether enabling succeeded.
    Enabled(Result<(), ExtensionErrorCode>),
}

/// What the host does next.
#[derive(Clone, Copy, Debug, PartialEq, Eq, Structural)]
pub enum ProvisionAction {
    ResolveTrustReceipt,
    StageArchive,
    InstallFromBundledIndex,
    ListInstalled,
    EnableOnlyVersion,
    Finish,
    Fail(ExtensionErrorCode),
}

/// What one step records in the provisioning report.
#[derive(Clone, Copy, Debug, PartialEq, Eq, Structural)]
pub enum ProvisionOutcome {
    Installed,
    Enabled,
    Preserved,
    Issue(ExtensionErrorCode),
}

/// The event that each waiting state expects.
pub open spec fn event_expected(state: ProvisionState, event: ProvisionEvent) -> bool {
    match state {
        ProvisionState::CheckingExisting => event is TrustedArchive,
        ProvisionState::Staging { .. } => event is Staged,
        ProvisionState::Installing { .. } => event is Installed,
        ProvisionState::Relisting { .. } => event is Listed,
        ProvisionState::CheckingInstalled { .. } => event is TrustedArchive,
        ProvisionState::Enabling => event is Enabled,
        _ => false,
    }
}

/// The first step of one bundled Deck, from the packages installed before
/// provisioning: a healthy exact version has its trust receipt resolved, an
/// unhealthy one is reported and left untouched, and a missing one is staged
/// for installation.
pub open spec fn provision_start_spec(
    initial: Seq<InstalledPackageSummary>,
    deck: BundledDeckIdentity,
) -> (ProvisionState, ProvisionAction, Option<ProvisionOutcome>) {
    match first_exact(initial, deck) {
        Some(i) => match existing_verdict(initial[i].health, Ok(Seq::empty()), Seq::empty()) {
            Err(code) => (ProvisionState::Done, ProvisionAction::Finish, Some(ProvisionOutcome::Issue(code))),
            Ok(()) => (ProvisionState::CheckingExisting, ProvisionAction::ResolveTrustReceipt, None),
        },
        None => (
            ProvisionState::Staging {
                another_version_existed: same_id_count_spec(initial, deck) > 0,
            },
            ProvisionAction::StageArchive,
            None,
        ),
    }
}

/// Starts provisioning one bundled Deck.
pub fn provision_start(initial: &Vec<InstalledPackageSummary>, deck: BundledDeckIdentity) -> (r: (
    ProvisionState,
    ProvisionAction,
    Option<ProvisionOutcome>,
))
    ensures
        r == provision_start_spec(initial@, deck),
{
    match plan_bundled_deck(initial, deck) {
        ProvisionPlan::KeepExisting(i) => {
            proof {
                lemma_first_exact_in_bounds(initial@, deck);
            }
            let health = initial[i].health;
            match health {
                PackageHealth::Healthy => (
                    ProvisionState::CheckingExisting,
                    ProvisionAction::ResolveTrustReceipt,
                    None,
                ),
                PackageHealth::Untrusted => (
                    ProvisionState::Done,
                    ProvisionAction::Finish,
                    Some(ProvisionOutcome::Issue(ExtensionErrorCode::PackageUntrusted)),
                ),
                _ => (
                    ProvisionState::Done,
                    ProvisionAction::Finish,
                    Some(ProvisionOutcome::Issue(ExtensionErrorCode::IntegrityFailed)),
                ),
            }
        },
        ProvisionPlan::Install { another_version_exists } => (
            ProvisionState::Staging { another_version_existed: another_version_exists },
            ProvisionAction::StageArchive,
            None,
        ),
    }
}

pub open spec fn done_with(code: ExtensionErrorCode) -> (ProvisionState, ProvisionAction, Option<ProvisionOutcome>) {
    (ProvisionState::Done, ProvisionAction::Finish, Some(ProvisionOutcome::Issue(code)))
}

/// One step of provisioning a bundled Deck: each host result either ends the
/// Deck with an issue or moves it on; a fresh installation must keep the
/// bundled identity and hash, must be listed again as the exact healthy
/// version with the bundled hash, and is enabled only when no other version
/// existed before and it is the only version after; a failed listing fails
/// the whole provisioning.
pub open spec fn provision_step_spec(
    state: ProvisionState,
    deck: BundledDeckIdentity,
    bundled_archive_sha256: Seq<char>,
    event: ProvisionEvent,
) -> (ProvisionState, ProvisionAction, Option<ProvisionOutcome>) {
    match (state, event) {
        (ProvisionState::CheckingExisting, ProvisionEvent::TrustedArchive(trusted)) => match existing_verdict(
            PackageHealth::Healthy,
            sha_view(trusted),
            bundled_archive_sha256,
        ) {
            Ok(()) => (ProvisionState::Done, ProvisionAction::Finish, Some(ProvisionOutcome::Preserved)),
            Err(code) => done_with(code),
        },
        (ProvisionState::Staging { another_version_existed }, ProvisionEvent::Staged(staged)) => match staged {
            Ok(()) => (
                ProvisionState::Installing { another_version_existed },
                ProvisionAction::InstallFromBundledIndex,
                None,
            ),
            Err(code) => done_with(code),
        },
        (ProvisionState::Installing { another_version_existed }, ProvisionEvent::Installed(installed)) => match installed {
            Err(code) => done_with(code),
            Ok((package, sha)) => if is_exact(package, deck) && sha@ == bundled_archive_sha256 {
                (
                    ProvisionState::Relisting { another_version_existed },
                    ProvisionAction::ListInstalled,
                    Some(ProvisionOutcome::Installed),
                )
            } else {
                done_with(ExtensionErrorCode::PackageUntrusted)
            },
        },
        (ProvisionState::Relisting { another_version_existed }, ProvisionEvent::Listed(listed)) => match listed {
            Err(code) => (ProvisionState::Aborted, ProvisionAction::Fail(code), None),
            Ok(after) => match first_exact(after@, deck) {
                None => done_with(ExtensionErrorCode::PackageMissing),
                Some(i) => match existing_verdict(after@[i].health, Ok(Seq::empty()), Seq::empty()) {
                    Err(code) => done_with(code),
                    Ok(()) => (
                        ProvisionState::CheckingInstalled {
                            enable: !another_version_existed && same_id_count_spec(after@, deck) == 1,
                        },
                        ProvisionAction::ResolveTrustReceipt,
                        None,
                    ),
                },
            },
        },
        (ProvisionState::CheckingInstalled { enable }, ProvisionEvent::TrustedArchive(trusted)) => match existing_verdict(
            PackageHealth::Healthy,
            sha_view(trusted),
            bundled_archive_sha256,
        ) {
            Err(code) => done_with(code),
            Ok(()) => if enable {
                (ProvisionState::Enabling, ProvisionAction::EnableOnlyVersion, None)
            } else {
                (ProvisionState::Done, ProvisionAction::Finish, None)
            },
        },
        (ProvisionState::Enabling, ProvisionEvent::Enabled(enabled)) => match enabled {
            Ok(()) => (ProvisionState::Done, ProvisionAction::Finish, Some(ProvisionOutcome::Enabled)),
            Err(code) => done_with(code),
        },
        _ => (state, ProvisionAction::Finish, None),
    }
}

fn healthy_verdict(health: PackageHealth) -> (r: Result<(), ExtensionErrorCode>)
    ensures
        r == existing_verdict(health, Ok(Seq::empty()), Seq::empty()),
{
    match health {
        PackageHealth::Healthy => Ok(()),
        PackageHealth::Untrusted => Err(ExtensionErrorCode::PackageUntrusted),
        _ => Err(ExtensionErrorCode::IntegrityFailed),
    }
}

fn finish_with(code: ExtensionErrorCode) -> (r: (ProvisionState, ProvisionAction, Option<ProvisionOutcome>))
    ensures
        r == done_with(code),
{
    (ProvisionState::Done, ProvisionAction::Finish, Some(ProvisionOutcome::Issue(code)))
}

/// Takes one provisioning step for a bundled Deck.
pub fn provision_step(
    state: ProvisionState,
    deck: BundledDeckIdentity,
    bundled_archive_sha256: &String,
    event: ProvisionEvent,
) -> (r: (ProvisionState, ProvisionAction, Option<ProvisionOutcome>))
    requires
        event_expected(state, event),
    ensures
        r == provision_step_spec(state, deck, bundled_archive_sha256@, event),
{
    match (state, event) {
        (ProvisionState::CheckingExisting, ProvisionEvent::TrustedArchive(trusted)) => {
            match validate_existing_exact(PackageHealth::Healthy, trusted, bundled_archive_sha256) {
                Ok(()) => (ProvisionState::Done, ProvisionAction::Finish, Some(ProvisionOutcome::Preserved)),
                Err(code) => finish_with(code),
            }
        },
        (ProvisionState::Staging { another_version_existed }, ProvisionEvent::Staged(staged)) => {
            match staged {
                Ok(()) => (
                    ProvisionState::Installing { another_version_existed },
                    ProvisionAction::InstallFromBundledIndex,
                    None,
                ),
                Err(code) => finish_with(code),
            }
        },
        (ProvisionState::Installing { another_version_existed }, ProvisionEvent::Installed(installed)) => {
            match installed {
                Err(code) => finish_with(code),
                Ok((package, sha)) => {
                    match validate_install_receipt(&package, &sha, deck, bundled_archive_sha256) {
                        Ok(()) => (
                            ProvisionState::Relisting { another_version_existed },
                            ProvisionAction::ListInstalled,
                            Some(ProvisionOutcome::Installed),
                        ),
                        Err(_) => finish_with(ExtensionErrorCode::PackageUntrusted),
                    }
                },
            }
        },
        (ProvisionState::Relisting { another_version_existed }, ProvisionEvent::Listed(listed)) => {
            match listed {
                Err(code) => (ProvisionState::Aborted, ProvisionAction::Fail(code), None),
                Ok(after) => match find_exact(&after, deck) {
                    None => finish_with(ExtensionErrorCode::PackageMissing),
                    Some(i) => match {
                        proof {
                            lemma_first_exact_in_bounds(after@, deck);
                        }
                        healthy_verdict(after[i].health)
                    } {
                        Err(code) => finish_with(code),
                        Ok(()) => (
                            ProvisionState::CheckingInstalled {
                                enable: enable_after_install(
                                    another_version_existed,
                                    same_id_count(&after, deck),
                                ),
                            },
                            ProvisionAction::ResolveTrustReceipt,
                            None,
                        ),
                    },
                },
            }
        },
        (ProvisionState::CheckingInstalled { enable }, ProvisionEvent::TrustedArchive(trusted)) => {
            match validate_existing_exact(PackageHealth::Healthy, trusted, bundled_archive_sha256) {
                Err(code) => finish_with(code),
                Ok(()) => if enable {
                    (ProvisionState::Enabling, ProvisionAction::EnableOnlyVersion, None)
                } else {
                    (ProvisionState::Done, ProvisionAction::Finish, None)
                },
            }
        },
        (ProvisionState::Enabling, ProvisionEvent::Enabled(enabled)) => {
            match enabled {
                Ok(()) => (ProvisionState::Done, ProvisionAction::Finish, Some(ProvisionOutcome::Enabled)),
                Err(code) => finish_with(code),
            }
        },
        (s, _) => (s, ProvisionAction::Finish, None),
    }
}

/// A ranking of the provisioning states along the one path a Deck can take.
pub open spec fn provision_rank(s: ProvisionState) -> int {
    match s {
        ProvisionState::CheckingExisting => 1,
        ProvisionState::Staging { .. } => 1,
        ProvisionState::Installing { .. } => 2,
        ProvisionState::Relisting { .. } => 3,
        ProvisionState::CheckingInstalled { .. } => 4,
        ProvisionState::Enabling => 5,
        ProvisionState::Done => 6,
        ProvisionState::Aborted => 6,
    }
}

/// An exact version that was installed before provisioning is never
/// installed or enabled again: it is only preserved or reported.
pub proof fn law_exact_version_is_never_reinstalled(
    initial: Seq<InstalledPackageSummary>,
    deck: BundledDeckIdentity,
    bundled_archive_sha256: Seq<char>,
    trusted: Result<String, ExtensionErrorCode>,
)
    requires
        first_exact(initial, deck) is Some,
    ensures
        provision_start_spec(initial, deck).0 == ProvisionState::CheckingExisting
            || provision_start_spec(initial, deck).0 == ProvisionState::Done,
        provision_start_spec(initial, deck).1 != ProvisionAction::StageArchive,
        provision_step_spec(
            ProvisionState::CheckingExisting,
            deck,
            bundled_archive_sha256,
            ProvisionEvent::TrustedArchive(trusted),
        ).0 == ProvisionState::Done,
        provision_step_spec(
            ProvisionState::CheckingExisting,
            deck,
            bundled_archive_sha256,
            ProvisionEvent::TrustedArchive(trusted),
        ).2 != Some(ProvisionOutcome::Installed),
        provision_step_spec(
            ProvisionState::CheckingExisting,
            deck,
            bundled_archive_sha256,
            ProvisionEvent::TrustedArchive(trusted),
        ).2 != Some(ProvisionOutcome::Enabled),
{
}

/// A freshly installed version is enabled only when no other version of the
/// Deck existed before provisioning.
pub proof fn law_enable_only_without_another_version(
    after: Vec<InstalledPackageSummary>,
    deck: BundledDeckIdentity,
    bundled_archive_sha256: Seq<char>,
)
    ensures
        provision_step_spec(
            ProvisionState::Relisting { another_version_existed: true },
            deck,
            bundled_archive_sha256,
            ProvisionEvent::Listed(Ok(after)),
        ).0 != (ProvisionState::CheckingInstalled { enable: true }),
{
}

/// Every step moves a Deck forward along its path, so provisioning of one
/// Deck ends after at most six steps.
pub proof fn law_provisioning_moves_forward(
    state: ProvisionState,
    deck: BundledDeckIdentity,
    bundled_archive_sha256: Seq<char>,
    event: ProvisionEvent,
)
    requires
        event_expected(state, event),
    ensures
        provision_rank(provision_step_spec(state, deck, bundled_archive_sha256, event).0)
            > provision_rank(state),
{
}

} // verus!
