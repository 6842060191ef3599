//! Auditing the dependencies that a component records of itself.
//!
//! A component built with `cargo auditable` carries the list of the packages
//! it was built from. `rustsec` recovers that list and looks each package up
//! in an advisory database. Around that lookup stand two rules of this
//! library: a component may have to be vetted before it is audited at all,
//! and a package that came from no registry may fail the audit.

use vstd::prelude::*;
use crate::config::AuditConfiguration;
use crate::decompose::decomposition;
use crate::pipeline::{checked_bytes, is_target, reported_name, targets};
use crate::vet::{vet_component, vet_outcome, VetError};

verus! {

/// One package of a dependency list.
pub struct Package {
    pub name: String,
    pub version: String,
    /// Where the package came from; `None` for one that came from no registry.
    pub source: Option<String>,
}

/// What a [`Package`] holds, as mathematical values.
pub struct PackageModel {
    pub name: Seq<char>,
    pub version: Seq<char>,
    pub source: Option<Seq<char>>,
}

impl View for Package {
    type V = PackageModel;

    open spec fn view(&self) -> PackageModel {
        PackageModel {
            name: self.name@,
            version: self.version@,
            source: match self.source {
                Some(source) => Some(source@),
                None => None,
            },
        }
    }
}

/// Why the audit of a component did not come to a report.
pub enum AuditError {
    /// Vetting is required and the component is not vetted.
    Vet(VetError),
    /// The bytes could not be searched for a dependency list.
    Unreadable,
    /// The bytes hold no dependency list: not built by cargo, it seems.
    NoDependencies,
    /// These packages came from no registry, and that is not tolerated.
    LocalPackages(Vec<String>),
}

/// What an [`AuditError`] holds, as mathematical values.
pub enum AuditErrorModel {
    Vet(VetError),
    Unreadable,
    NoDependencies,
    LocalPackages(Seq<Seq<char>>),
}

impl View for AuditError {
    type V = AuditErrorModel;

    open spec fn view(&self) -> AuditErrorModel {
        match *self {
            AuditError::Vet(error) => AuditErrorModel::Vet(error),
            AuditError::Unreadable => AuditErrorModel::Unreadable,
            AuditError::NoDependencies => AuditErrorModel::NoDependencies,
            AuditError::LocalPackages(names) => AuditErrorModel::LocalPackages(texts(names@)),
        }
    }
}

/// What the search of a binary for its dependency list can come to.
pub enum Dependencies {
    Unreadable,
    Absent,
    Listed(Seq<PackageModel>),
}

/// What is known of a component once the rules have let it through.
pub struct Findings {
    /// Whether the component is vetted; an error here was tolerated.
    pub vet: Result<(), VetError>,
    /// The packages that came from no registry; any here were tolerated.
    pub local_packages: Seq<Seq<char>>,
}

/// A component that the rules have let through, with its dependency list.
pub struct Examined {
    pub lockfile: rustsec::Lockfile,
    pub vet: Result<(), VetError>,
    pub local_packages: Vec<String>,
}

/// A component that has been audited, with the report on its dependencies.
pub struct Audited {
    pub report: rustsec::Report,
    /// How many vulnerabilities the report lists.
    pub vulnerabilities: usize,
    /// How many kinds of warning the report lists.
    pub warnings: usize,
    pub vet: Result<(), VetError>,
    pub local_packages: Vec<String>,
}

/// What a report comes to.
#[derive(Clone, Copy, Debug, PartialEq, Eq, Structural)]
pub enum Grade {
    /// It lists at least one vulnerability.
    Vulnerable,
    /// It lists no vulnerability, and at least one warning.
    Warned,
    /// It lists nothing.
    Clean,
}

/// `rustsec::Lockfile`: a dependency list, read through [`list_packages`].
#[verifier::external_type_specification]
#[verifier::external_body]
pub struct ExLockfile(rustsec::Lockfile);

/// `rustsec::Database`: the advisory database, handed in and passed on.
#[verifier::external_type_specification]
#[verifier::external_body]
pub struct ExDatabase(rustsec::Database);

/// `rustsec::report::Settings`: handed in and passed on.
#[verifier::external_type_specification]
#[verifier::external_body]
pub struct ExSettings(rustsec::report::Settings);

/// `rustsec::Report`: what the advisory lookup found, handed out as it is.
#[verifier::external_type_specification]
#[verifier::external_body]
pub struct ExReport(rustsec::Report);

/// `rustsec::Error`: why a binary could not be searched.
#[verifier::external_type_specification]
#[verifier::external_body]
pub struct ExAuditEngineError(rustsec::Error);

/// The packages that a lockfile lists, in its order: of each its name, its
/// version and its source, as text.
pub uninterp spec fn lockfile_packages(lockfile: rustsec::Lockfile) -> Seq<PackageModel>;

/// What `rustsec` finds when it searches `bytes` for a dependency list.
pub uninterp spec fn embedded_dependencies(bytes: Seq<u8>) -> Dependencies;

/// The number of vulnerabilities that a report counts: its field
/// `vulnerabilities.count`.
pub uninterp spec fn vulnerability_count(report: rustsec::Report) -> nat;

/// The number of warning kinds that a report lists: the number of keys of
/// its field `warnings`.
pub uninterp spec fn warning_kinds(report: rustsec::Report) -> nat;

/// Whether the two counts beside a report are those of the report.
pub open spec fn counts_recorded(audited: Audited) -> bool {
    &&& audited.vulnerabilities == vulnerability_count(audited.report)
    &&& audited.warnings == warning_kinds(audited.report)
}

/// The contents of a list of strings.
pub open spec fn texts(strings: Seq<String>) -> Seq<Seq<char>> {
    Seq::new(strings.len(), |k: int| strings[k]@)
}

/// The models of a list of packages.
pub open spec fn package_models(packages: Seq<Package>) -> Seq<PackageModel> {
    Seq::new(packages.len(), |k: int| packages[k]@)
}

/// The names of the packages that came from no registry, in their order.
pub open spec fn local_names(packages: Seq<PackageModel>) -> Seq<Seq<char>>
    decreases packages.len(),
{
    if packages.len() == 0 {
        Seq::empty()
    } else if packages.last().source is None {
        local_names(packages.drop_last()).push(packages.last().name)
    } else {
        local_names(packages.drop_last())
    }
}

/// What the vetting rule makes of a vetting outcome: an error only where
/// vetting is required and has failed.
pub open spec fn vet_rule(vet: Result<(), VetError>, require_vet: bool) -> Result<
    (),
    AuditErrorModel,
> {
    match vet {
        Err(error) if require_vet => Err(AuditErrorModel::Vet(error)),
        _ => Ok(()),
    }
}

/// What the local-package rule makes of the packages that came from no
/// registry: an error that names them, unless there are none or they are
/// tolerated.
pub open spec fn local_package_rule(local: Seq<Seq<char>>, ignore_local_packages: bool) -> Result<
    (),
    AuditErrorModel,
> {
    if local.len() > 0 && !ignore_local_packages {
        Err(AuditErrorModel::LocalPackages(local))
    } else {
        Ok(())
    }
}

/// What the examination of the component in `bytes` comes to: the vetting
/// rule first, then the search for the dependency list, then the
/// local-package rule.
pub open spec fn examination(bytes: Seq<u8>, require_vet: bool, ignore_local_packages: bool) -> Result<
    Findings,
    AuditErrorModel,
> {
    let vet = vet_outcome(bytes);
    match vet_rule(vet, require_vet) {
        Err(error) => Err(error),
        Ok(_) => match embedded_dependencies(bytes) {
            Dependencies::Unreadable => Err(AuditErrorModel::Unreadable),
            Dependencies::Absent => Err(AuditErrorModel::NoDependencies),
            Dependencies::Listed(packages) => match local_package_rule(
                local_names(packages),
                ignore_local_packages,
            ) {
                Err(error) => Err(error),
                Ok(_) => Ok(Findings { vet, local_packages: local_names(packages) }),
            },
        },
    }
}

/// What an examination came to, as mathematical values.
pub open spec fn examined_findings(outcome: Result<Examined, AuditError>) -> Result<
    Findings,
    AuditErrorModel,
> {
    match outcome {
        Ok(examined) => Ok(
            Findings { vet: examined.vet, local_packages: texts(examined.local_packages@) },
        ),
        Err(error) => Err(error@),
    }
}

/// What the examination ahead of an audit came to, as mathematical values.
pub open spec fn audited_findings(outcome: Result<Audited, AuditError>) -> Result<
    Findings,
    AuditErrorModel,
> {
    match outcome {
        Ok(audited) => Ok(
            Findings { vet: audited.vet, local_packages: texts(audited.local_packages@) },
        ),
        Err(error) => Err(error@),
    }
}

/// `local_names` lists exactly the packages without a source: every name in
/// it is that of such a package, and every such package's name is in it.
pub proof fn lemma_local_names_exact(packages: Seq<PackageModel>)
    ensures
        forall|k: int|
            0 <= k < local_names(packages).len() ==> exists|at: int|
                0 <= at < packages.len() && packages[at].source is None && packages[at].name
                    == #[trigger] local_names(packages)[k],
        forall|at: int|
            0 <= at < packages.len() && (#[trigger] packages[at]).source is None ==> local_names(
                packages,
            ).contains(packages[at].name),
        local_names(packages).len() <= packages.len(),
    decreases packages.len(),
{
    if packages.len() > 0 {
        let before = packages.drop_last();
        let names = local_names(packages);
        lemma_local_names_exact(before);
        assert forall|k: int| 0 <= k < names.len() implies exists|at: int|
            0 <= at < packages.len() && packages[at].source is None && packages[at].name
                == #[trigger] names[k] by {
            if k < local_names(before).len() {
                let at = choose|at: int|
                    0 <= at < before.len() && before[at].source is None && before[at].name
                        == local_names(before)[k];
                assert(packages[at] == before[at]);
            } else {
                assert(packages[packages.len() - 1].name == names[k]);
            }
        }
        assert forall|at: int|
            0 <= at < packages.len() && (#[trigger] packages[at]).source is None implies names.contains(
            packages[at].name,
        ) by {
            if at < before.len() {
                assert(before[at] == packages[at]);
                let k = choose|k: int|
                    0 <= k < local_names(before).len() && local_names(before)[k] == before[at].name;
                assert(names[k] == packages[at].name);
            } else {
                assert(names[names.len() - 1] == packages[at].name);
            }
        }
    }
}

/// With local packages tolerated and vetting not required, the two rules
/// stop no component: only the search for the dependency list can fail.
pub proof fn lemma_lenient_rules_stop_nothing(bytes: Seq<u8>)
    ensures
        examination(bytes, false, true) is Ok <==> embedded_dependencies(bytes) is Listed,
{
}

/// A dependency list with a package from no registry fails the examination
/// with an error that names that package, unless such packages are
/// tolerated; tolerated, they do not fail it.
pub proof fn lemma_local_package_decides(
    bytes: Seq<u8>,
    packages: Seq<PackageModel>,
    at: int,
    require_vet: bool,
)
    requires
        embedded_dependencies(bytes) == Dependencies::Listed(packages),
        0 <= at < packages.len(),
        packages[at].source is None,
        vet_rule(vet_outcome(bytes), require_vet) is Ok,
    ensures
        examination(bytes, require_vet, false) == Err::<Findings, AuditErrorModel>(
            AuditErrorModel::LocalPackages(local_names(packages)),
        ),
        local_names(packages).contains(packages[at].name),
        examination(bytes, require_vet, true) is Ok,
{
    lemma_local_names_exact(packages);
}

/// Calls `rustsec::binary_scanning::load_deps_from_binary` with the default
/// size limit and keeps the lockfile that it recovers, complete or not.
///
/// Trusted: the outcome depends on `bytes` alone.
#[verifier::external_body]
pub(crate) fn load_dependencies(bytes: &[u8]) -> (found: Result<
    Option<rustsec::Lockfile>,
    rustsec::Error,
>)
    ensures
        match found {
            Ok(Some(lockfile)) => embedded_dependencies(bytes@) == Dependencies::Listed(
                lockfile_packages(lockfile),
            ),
            Ok(None) => embedded_dependencies(bytes@) is Absent,
            Err(_) => embedded_dependencies(bytes@) is Unreadable,
        },
{
    match rustsec::binary_scanning::load_deps_from_binary(bytes, None)?.1 {
        rustsec::binary_scanning::BinaryReport::Complete(lockfile) => Ok(Some(lockfile)),
        rustsec::binary_scanning::BinaryReport::Incomplete(lockfile) => Ok(Some(lockfile)),
        rustsec::binary_scanning::BinaryReport::None => Ok(None),
    }
}

/// Copies the field `packages` of a `rustsec::Lockfile`: of each package its
/// name, its version and its source, each as text.
#[verifier::external_body]
pub(crate) fn list_packages(lockfile: &rustsec::Lockfile) -> (packages: Vec<Package>)
    ensures
        package_models(packages@) == lockfile_packages(*lockfile),
{
    lockfile.packages.iter().map(|package| Package {
        name: package.name.as_str().to_string(),
        version: package.version.to_string(),
        source: package.source.as_ref().map(|source| source.to_string()),
    }).collect()
}

/// Calls `rustsec::Report::generate`.
///
/// Trusted: nothing is claimed of the report.
#[verifier::external_body]
pub(crate) fn generate_report(
    database: &rustsec::Database,
    lockfile: &rustsec::Lockfile,
    settings: &rustsec::report::Settings,
) -> (report: rustsec::Report) {
    rustsec::Report::generate(database, lockfile, settings)
}

/// Reads the field `vulnerabilities.count` of a `rustsec::Report`.
///
/// Trusted: the number is that field, whatever the report's list holds.
#[verifier::external_body]
pub(crate) fn count_vulnerabilities(report: &rustsec::Report) -> (count: usize)
    ensures
        count == vulnerability_count(*report),
{
    report.vulnerabilities.count
}

/// Calls `len` on the field `warnings` of a `rustsec::Report`, a map from
/// warning kinds to warnings.
///
/// Trusted: the number is that of the map's keys.
#[verifier::external_body]
pub(crate) fn count_warning_kinds(report: &rustsec::Report) -> (count: usize)
    ensures
        count == warning_kinds(*report),
{
    report.warnings.len()
}

/// Grades a report by what it lists: vulnerabilities weigh more than
/// warnings.
pub fn grade(vulnerabilities: usize, warnings: usize) -> (grade: Grade)
    ensures
        grade == if vulnerabilities != 0 {
            Grade::Vulnerable
        } else if warnings != 0 {
            Grade::Warned
        } else {
            Grade::Clean
        },
{
    if vulnerabilities != 0 {
        Grade::Vulnerable
    } else if warnings != 0 {
        Grade::Warned
    } else {
        Grade::Clean
    }
}

/// Whether an audit passed: it came to a report, and the report lists no
/// vulnerability.
pub open spec fn audit_passed(outcome: Result<Audited, AuditError>) -> bool {
    match outcome {
        Ok(audited) => audited.vulnerabilities == 0,
        Err(_) => false,
    }
}

/// Whether every component passed its audit.
pub fn all_audits_passed(reports: &Vec<(String, Result<Audited, AuditError>)>) -> (all: bool)
    ensures
        all <==> forall|k: int| 0 <= k < reports@.len() ==> audit_passed((#[trigger] reports@[k]).1),
{
    let mut next: usize = 0;
    while next < reports.len()
        invariant
            next <= reports.len(),
            forall|k: int| 0 <= k < next ==> audit_passed((#[trigger] reports@[k]).1),
        decreases reports.len() - next,
    {
        match &reports[next].1 {
            Ok(audited) => {
                if audited.vulnerabilities != 0 {
                    return false;
                }
            },
            Err(_) => {
                return false;
            },
        }
        next += 1;
    }
    true
}

/// Lists the names of the packages that came from no registry.
pub fn check_for_local_packages(packages: &Vec<Package>) -> (local: Vec<String>)
    ensures
        texts(local@) == local_names(package_models(packages@)),
{
    let mut local: Vec<String> = Vec::new();
    let mut next: usize = 0;
    while next < packages.len()
        invariant
            next <= packages.len(),
            texts(local@) == local_names(package_models(packages@).take(next as int)),
        decreases packages.len() - next,
    {
        proof {
            let models = package_models(packages@);
            assert(models.take(next + 1).drop_last() =~= models.take(next as int));
        }
        if packages[next].source.is_none() {
            local.push(packages[next].name.clone());
        }
        next += 1;
    }
    proof {
        let models = package_models(packages@);
        assert(models.take(next as int) =~= models);
    }
    local
}

/// Applies the vetting rule.
pub fn apply_vet_rule(vet: Result<(), VetError>, require_vet: bool) -> (allowed: Result<
    (),
    AuditError,
>)
    ensures
        match allowed {
            Ok(_) => vet_rule(vet, require_vet) is Ok,
            Err(error) => vet_rule(vet, require_vet) == Err::<(), AuditErrorModel>(error@),
        },
{
    match vet {
        Err(error) => {
            if require_vet {
                Err(AuditError::Vet(error))
            } else {
                Ok(())
            }
        },
        Ok(_) => Ok(()),
    }
}

/// Applies the local-package rule, handing the names back where it lets
/// them through.
pub fn apply_local_package_rule(local: Vec<String>, ignore_local_packages: bool) -> (allowed:
    Result<Vec<String>, AuditError>)
    ensures
        match allowed {
            Ok(names) => names == local && local_package_rule(texts(local@), ignore_local_packages)
                is Ok,
            Err(error) => local_package_rule(texts(local@), ignore_local_packages) == Err::<
                (),
                AuditErrorModel,
            >(error@),
        },
{
    if local.len() > 0 && !ignore_local_packages {
        Err(AuditError::LocalPackages(local))
    } else {
        Ok(local)
    }
}

/// Examines one component ahead of the advisory lookup.
///
/// The vetting record is judged first: where vetting is required, a
/// component that is not vetted fails here. Then the dependency list is
/// recovered from the bytes. Then the packages that came from no registry
/// are listed: unless they are tolerated, any such package fails the
/// component. What was found and tolerated is handed back for the record.
pub fn examine_component(bytes: &[u8], config: &AuditConfiguration) -> (outcome: Result<
    Examined,
    AuditError,
>)
    ensures
        examined_findings(outcome) == examination(
            bytes@,
            config.require_vet,
            config.ignore_local_packages,
        ),
        outcome is Ok ==> embedded_dependencies(bytes@) == Dependencies::Listed(
            lockfile_packages(outcome->Ok_0.lockfile),
        ),
{
    let vet = vet_component(bytes);
    match apply_vet_rule(vet, config.require_vet) {
        Err(error) => {
            return Err(error);
        },
        Ok(_) => {},
    }
    let lockfile = match load_dependencies(bytes) {
        Err(_) => {
            return Err(AuditError::Unreadable);
        },
        Ok(None) => {
            return Err(AuditError::NoDependencies);
        },
        Ok(Some(lockfile)) => lockfile,
    };
    let packages = list_packages(&lockfile);
    let local = check_for_local_packages(&packages);
    match apply_local_package_rule(local, config.ignore_local_packages) {
        Err(error) => Err(error),
        Ok(local_packages) => Ok(Examined { lockfile, vet, local_packages }),
    }
}

/// Puts the report on a component beside what its examination found, with
/// the numbers of vulnerabilities and of warning kinds that the report lists.
pub fn record_report(examined: Examined, report: rustsec::Report) -> (audited: Audited)
    ensures
        audited.report == report,
        audited.vulnerabilities == vulnerability_count(report),
        audited.warnings == warning_kinds(report),
        audited.vet == examined.vet,
        audited.local_packages == examined.local_packages,
{
    let vulnerabilities = count_vulnerabilities(&report);
    let warnings = count_warning_kinds(&report);
    Audited {
        report,
        vulnerabilities,
        warnings,
        vet: examined.vet,
        local_packages: examined.local_packages,
    }
}

/// Audits the dependencies that the component in `bytes` records.
///
/// The component is examined as [`examine_component`] says; where the rules
/// let it through, its dependency list is looked up in `database`.
pub fn sbom_audit(
    bytes: &[u8],
    config: &AuditConfiguration,
    database: &rustsec::Database,
    settings: &rustsec::report::Settings,
) -> (outcome: Result<Audited, AuditError>)
    ensures
        audited_findings(outcome) == examination(
            bytes@,
            config.require_vet,
            config.ignore_local_packages,
        ),
        outcome is Ok ==> counts_recorded(outcome->Ok_0),
{
    match examine_component(bytes, config) {
        Err(error) => Err(error),
        Ok(examined) => {
            let report = generate_report(database, &examined.lockfile, settings);
            Ok(record_report(examined, report))
        },
    }
}

/// Whether `entry` is what the examination of entry `at` of `parts` comes
/// to: its name, what the rules made of it, and, where they let it through,
/// the dependency list that was found in the bytes that were examined.
pub open spec fn is_examined(
    entry: (String, Result<Examined, AuditError>),
    parts: Seq<Seq<u8>>,
    at: int,
    config: AuditConfiguration,
) -> bool {
    &&& entry.0@ == reported_name(parts, at)
    &&& examined_findings(entry.1) == examination(
        checked_bytes(parts, at),
        config.require_vet,
        config.ignore_local_packages,
    )
    &&& entry.1 is Ok ==> embedded_dependencies(checked_bytes(parts, at)) == Dependencies::Listed(
        lockfile_packages(entry.1->Ok_0.lockfile),
    )
}

/// Whether `entry` is what the audit of entry `at` of `parts` comes to: its
/// name, what the rules made of it, and, where they let it through, a
/// report with its two counts.
pub open spec fn is_audited(
    entry: (String, Result<Audited, AuditError>),
    parts: Seq<Seq<u8>>,
    at: int,
    config: AuditConfiguration,
) -> bool {
    &&& entry.0@ == reported_name(parts, at)
    &&& audited_findings(entry.1) == examination(
        checked_bytes(parts, at),
        config.require_vet,
        config.ignore_local_packages,
    )
    &&& entry.1 is Ok ==> counts_recorded(entry.1->Ok_0)
}

/// Examines each entry of a composition's decomposition ahead of the
/// advisory lookup.
///
/// The result has one entry for each entry of the decomposition, in its
/// order. The composition as a whole comes first, examined as it stands
/// under the name "composition"; every component below it is cleaned, then
/// named and examined. Each is examined on its own: one that fails does not
/// hide the others.
pub fn examine(file_contents: &[u8], config: &AuditConfiguration) -> (examined: Vec<
    (String, Result<Examined, AuditError>),
>)
    ensures
        examined@.len() == decomposition(file_contents@).len(),
        forall|at: int|
            0 <= at < examined@.len() ==> is_examined(
                #[trigger] examined@[at],
                decomposition(file_contents@),
                at,
                *config,
            ),
{
    let targets = targets(file_contents);
    let ghost parts = decomposition(file_contents@);
    let mut examined: Vec<(String, Result<Examined, AuditError>)> = Vec::new();
    let mut next: usize = 0;
    while next < targets.len()
        invariant
            next <= targets.len(),
            targets@.len() == parts.len(),
            forall|at: int| 0 <= at < targets@.len() ==> is_target(#[trigger] targets@[at], parts, at),
            examined@.len() == next,
            forall|at: int| 0 <= at < next ==> is_examined(#[trigger] examined@[at], parts, at, *config),
        decreases targets.len() - next,
    {
        let target = &targets[next];
        let outcome = examine_component(target.bytes.as_slice(), config);
        examined.push((target.name.clone(), outcome));
        next += 1;
    }
    examined
}

/// Audits each entry of a composition's decomposition.
///
/// The entries are those that [`examine`] names, in its order, the
/// composition as a whole first. Each one that the rules let through is
/// looked up in `database`; each one that they stop keeps its error.
pub fn audit(
    file_contents: &[u8],
    config: &AuditConfiguration,
    database: &rustsec::Database,
    settings: &rustsec::report::Settings,
) -> (reports: Vec<(String, Result<Audited, AuditError>)>)
    ensures
        reports@.len() == decomposition(file_contents@).len(),
        forall|at: int|
            0 <= at < reports@.len() ==> is_audited(
                #[trigger] reports@[at],
                decomposition(file_contents@),
                at,
                *config,
            ),
{
    let targets = targets(file_contents);
    let ghost parts = decomposition(file_contents@);
    let mut reports: Vec<(String, Result<Audited, AuditError>)> = Vec::new();
    let mut next: usize = 0;
    while next < targets.len()
        invariant
            next <= targets.len(),
            targets@.len() == parts.len(),
            forall|at: int| 0 <= at < targets@.len() ==> is_target(#[trigger] targets@[at], parts, at),
            reports@.len() == next,
            forall|at: int| 0 <= at < next ==> is_audited(#[trigger] reports@[at], parts, at, *config),
        decreases targets.len() - next,
    {
        let target = &targets[next];
        let outcome = sbom_audit(target.bytes.as_slice(), config, database, settings);
        reports.push((target.name.clone(), outcome));
        next += 1;
    }
    reports
}

} // verus!
