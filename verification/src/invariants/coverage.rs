//! The coverage tracker: which invariants were checked, which transitions
//! could not be classified, and the report of what is left uncovered.

use std::sync::Arc;
use vstd::prelude::*;
use vstd::string::StringExecFns;
use crate::collections::{duplicate_all, keep, views, SortedSet};
use crate::invariants::catalog::{in_category, InvariantCatalog, SecurityInvariant};
use crate::invariants::standard::{category_name, category_text, InvariantCategory};
use crate::invariants::validator::ids_of;
use crate::text::{decimal_string, decimal_text};

verus! {

/// Severity of coverage gaps.
#[derive(Debug, Clone, Copy, PartialEq, Eq, Structural)]
pub enum GapSeverity {
    Low,
    Medium,
    High,
    Critical,
}

/// Coverage gap information.
#[derive(Debug)]
pub struct CoverageGap {
    pub category: InvariantCategory,
    pub description: String,
    pub uncovered_transitions: Vec<String>,
    pub severity: GapSeverity,
}

/// What a `CoverageGap` stands for.
pub ghost struct GapModel {
    pub category: InvariantCategory,
    pub description: Seq<char>,
    pub uncovered_transitions: Seq<Seq<char>>,
    pub severity: GapSeverity,
}

impl View for CoverageGap {
    type V = GapModel;

    open spec fn view(&self) -> GapModel {
        GapModel {
            category: self.category,
            description: self.description@,
            uncovered_transitions: views(self.uncovered_transitions@),
            severity: self.severity,
        }
    }
}

/// Coverage information for a specific category. The percentage is held in
/// hundredths of a percent.
#[derive(Debug)]
pub struct CategoryCoverage {
    pub total: usize,
    pub covered: usize,
    pub percentage: u128,
    pub uncovered_ids: Vec<String>,
}

/// What a `CategoryCoverage` stands for.
pub ghost struct CategoryCoverageModel {
    pub total: nat,
    pub covered: nat,
    pub percentage: nat,
    pub uncovered_ids: Seq<Seq<char>>,
}

impl View for CategoryCoverage {
    type V = CategoryCoverageModel;

    open spec fn view(&self) -> CategoryCoverageModel {
        CategoryCoverageModel {
            total: self.total as nat,
            covered: self.covered as nat,
            percentage: self.percentage as nat,
            uncovered_ids: views(self.uncovered_ids@),
        }
    }
}

/// Coverage report for invariant validation. The percentage is held in
/// hundredths of a percent; the categories stand in their declared order.
#[derive(Debug)]
pub struct CoverageReport {
    pub total_invariants: usize,
    pub covered_invariants: usize,
    pub coverage_percentage: u128,
    pub gaps: Vec<CoverageGap>,
    pub by_category: Vec<(InvariantCategory, CategoryCoverage)>,
    pub uncovered_transition_types: Vec<String>,
    pub is_complete: bool,
}

/// What a `CoverageReport` stands for.
pub ghost struct ReportModel {
    pub total_invariants: nat,
    pub covered_invariants: nat,
    pub coverage_percentage: nat,
    pub gaps: Seq<GapModel>,
    pub by_category: Seq<(InvariantCategory, CategoryCoverageModel)>,
    pub uncovered_transition_types: Seq<Seq<char>>,
    pub is_complete: bool,
}

impl View for CoverageReport {
    type V = ReportModel;

    open spec fn view(&self) -> ReportModel {
        ReportModel {
            total_invariants: self.total_invariants as nat,
            covered_invariants: self.covered_invariants as nat,
            coverage_percentage: self.coverage_percentage as nat,
            gaps: views(self.gaps@),
            by_category: Seq::new(
                self.by_category@.len(),
                |i: int| (self.by_category@[i].0, self.by_category@[i].1@),
            ),
            uncovered_transition_types: views(self.uncovered_transition_types@),
            is_complete: self.is_complete,
        }
    }
}

/// Type of state transition observed.
#[derive(Debug, Clone, PartialEq, Eq, Hash)]
pub struct TransitionType {
    pub category: String,
    pub action: String,
    pub state_changes: Vec<String>,
}

/// What a `TransitionType` stands for.
pub ghost struct TransitionTypeModel {
    pub category: Seq<char>,
    pub action: Seq<char>,
    pub state_changes: Seq<Seq<char>>,
}

impl View for TransitionType {
    type V = TransitionTypeModel;

    open spec fn view(&self) -> TransitionTypeModel {
        TransitionTypeModel {
            category: self.category@,
            action: self.action@,
            state_changes: views(self.state_changes@),
        }
    }
}

/// The categories in their declared order.
pub open spec fn all_categories() -> Seq<InvariantCategory> {
    seq![
        InvariantCategory::Authorization,
        InvariantCategory::Monetary,
        InvariantCategory::Workflow,
        InvariantCategory::Trust,
        InvariantCategory::DataIntegrity,
        InvariantCategory::SessionManagement,
        InvariantCategory::InputValidation,
        InvariantCategory::RateLimiting,
        InvariantCategory::Custom,
    ]
}

/// The categories in their declared order.
pub fn categories() -> (listed: Vec<InvariantCategory>)
    ensures
        listed@ == all_categories(),
{
    let mut listed: Vec<InvariantCategory> = Vec::new();
    listed.push(InvariantCategory::Authorization);
    listed.push(InvariantCategory::Monetary);
    listed.push(InvariantCategory::Workflow);
    listed.push(InvariantCategory::Trust);
    listed.push(InvariantCategory::DataIntegrity);
    listed.push(InvariantCategory::SessionManagement);
    listed.push(InvariantCategory::InputValidation);
    listed.push(InvariantCategory::RateLimiting);
    listed.push(InvariantCategory::Custom);
    listed
}

/// The severity of a gap, by the category that it is in.
pub open spec fn gap_severity_of(category: InvariantCategory) -> GapSeverity {
    match category {
        InvariantCategory::Monetary => GapSeverity::Critical,
        InvariantCategory::Authorization => GapSeverity::High,
        InvariantCategory::Trust => GapSeverity::High,
        InvariantCategory::SessionManagement => GapSeverity::High,
        InvariantCategory::DataIntegrity => GapSeverity::Medium,
        InvariantCategory::Workflow => GapSeverity::Medium,
        InvariantCategory::RateLimiting => GapSeverity::Medium,
        InvariantCategory::InputValidation => GapSeverity::Low,
        InvariantCategory::Custom => GapSeverity::Low,
    }
}

/// The severity of a gap, by the category that it is in.
pub fn gap_severity(category: InvariantCategory) -> (severity: GapSeverity)
    ensures
        severity == gap_severity_of(category),
{
    match category {
        InvariantCategory::Monetary => GapSeverity::Critical,
        InvariantCategory::Authorization => GapSeverity::High,
        InvariantCategory::Trust => GapSeverity::High,
        InvariantCategory::SessionManagement => GapSeverity::High,
        InvariantCategory::DataIntegrity => GapSeverity::Medium,
        InvariantCategory::Workflow => GapSeverity::Medium,
        InvariantCategory::RateLimiting => GapSeverity::Medium,
        InvariantCategory::InputValidation => GapSeverity::Low,
        InvariantCategory::Custom => GapSeverity::Low,
    }
}

/// A share in hundredths of a percent, rounded down; `otherwise` where the
/// whole is zero.
pub open spec fn share(part: nat, whole: nat, otherwise: nat) -> nat {
    if whole > 0 {
        part * 10000 / whole
    } else {
        otherwise
    }
}

/// Computes a share in hundredths of a percent.
pub fn share_of(part: usize, whole: usize, otherwise: u128) -> (value: u128)
    ensures
        value == share(part as nat, whole as nat, otherwise as nat),
{
    if whole > 0 {
        let scaled: u128 = part as u128 * 10000;
        scaled / whole as u128
    } else {
        otherwise
    }
}

/// The identifiers among `ids` that are not covered, in their order.
pub open spec fn uncovered_among(ids: Seq<Seq<char>>, covered: Set<Seq<char>>) -> Seq<Seq<char>> {
    keep(ids, |id: Seq<char>| !covered.contains(id))
}

/// The coverage of one category.
pub open spec fn category_coverage(
    entries: Seq<SecurityInvariant>,
    covered: Set<Seq<char>>,
    category: InvariantCategory,
) -> CategoryCoverageModel {
    let ids = ids_of(in_category(entries, category));
    let uncovered = uncovered_among(ids, covered);
    let done = (ids.len() - uncovered.len()) as nat;
    CategoryCoverageModel {
        total: ids.len(),
        covered: done,
        percentage: share(done, ids.len(), 10000),
        uncovered_ids: uncovered,
    }
}

/// The coverage of every category, in the declared order of the categories.
pub open spec fn coverage_by_category(entries: Seq<SecurityInvariant>, covered: Set<Seq<char>>) -> Seq<
    (InvariantCategory, CategoryCoverageModel),
> {
    Seq::new(
        all_categories().len(),
        |i: int| (all_categories()[i], category_coverage(entries, covered, all_categories()[i])),
    )
}

/// The description of the gap of a category: its name, the covered and the
/// total number, and the percentage cut to a tenth.
pub open spec fn gap_description(category: InvariantCategory, coverage: CategoryCoverageModel) -> Seq<
    char,
> {
    category_text(category) + " invariants: "@ + decimal_text(coverage.covered) + "/"@
        + decimal_text(coverage.total) + " covered ("@ + decimal_text(coverage.percentage / 100)
        + "."@ + decimal_text(coverage.percentage / 10 % 10) + "%)"@
}

/// The gap of a category that is not fully covered.
pub open spec fn category_gap(category: InvariantCategory, coverage: CategoryCoverageModel) -> GapModel {
    GapModel {
        category,
        description: gap_description(category, coverage),
        uncovered_transitions: coverage.uncovered_ids,
        severity: gap_severity_of(category),
    }
}

/// The gaps of the categories that are not fully covered, in order.
pub open spec fn category_gaps(by_category: Seq<(InvariantCategory, CategoryCoverageModel)>) -> Seq<
    GapModel,
>
    decreases by_category.len(),
{
    if by_category.len() == 0 {
        Seq::empty()
    } else if by_category.last().1.percentage < 10000 {
        category_gaps(by_category.drop_last()).push(
            category_gap(by_category.last().0, by_category.last().1),
        )
    } else {
        category_gaps(by_category.drop_last())
    }
}

/// The gap that lists the transitions that could not be classified.
pub open spec fn unclassified_gap(unclassified: Seq<Seq<char>>) -> GapModel {
    GapModel {
        category: InvariantCategory::Custom,
        description: decimal_text(unclassified.len())
            + " state transitions could not be classified under any invariant"@,
        uncovered_transitions: unclassified,
        severity: GapSeverity::Medium,
    }
}

/// All gaps: those of the categories, then the one of the unclassified
/// transitions where there are any.
pub open spec fn gaps_of(
    by_category: Seq<(InvariantCategory, CategoryCoverageModel)>,
    unclassified: Seq<Seq<char>>,
) -> Seq<GapModel> {
    if unclassified.len() > 0 {
        category_gaps(by_category).push(unclassified_gap(unclassified))
    } else {
        category_gaps(by_category)
    }
}

/// The report on a catalog, the identifiers covered and the transitions
/// that could not be classified. It never claims completeness.
pub open spec fn report_of(
    entries: Seq<SecurityInvariant>,
    covered: Set<Seq<char>>,
    unclassified: Seq<Seq<char>>,
) -> ReportModel {
    ReportModel {
        total_invariants: entries.len(),
        covered_invariants: covered.len(),
        coverage_percentage: share(covered.len(), entries.len(), 0),
        gaps: gaps_of(coverage_by_category(entries, covered), unclassified),
        by_category: coverage_by_category(entries, covered),
        uncovered_transition_types: unclassified,
        is_complete: false,
    }
}

/// Copies a list of texts.
fn copy_texts(texts: &Vec<String>) -> (copy: Vec<String>)
    ensures
        views(copy@) == views(texts@),
{
    duplicate_all(texts)
}

/// Tracks invariant coverage across state transitions.
pub struct CoverageTracker {
    catalog: Arc<InvariantCatalog>,
    covered_invariants: SortedSet<String>,
    observed_transitions: Vec<TransitionType>,
    unclassified_transitions: Vec<String>,
}

impl CoverageTracker {
    /// The invariants of the catalog that the tracker reports on.
    pub closed spec fn entries(&self) -> Seq<SecurityInvariant> {
        self.catalog.entries()
    }

    /// The identifiers recorded as checked.
    pub closed spec fn covered(&self) -> Set<Seq<char>> {
        self.covered_invariants@
    }

    /// The transitions observed, in the order in which they were recorded.
    pub closed spec fn observed(&self) -> Seq<TransitionTypeModel> {
        views(self.observed_transitions@)
    }

    /// The descriptions of the transitions that could not be classified.
    pub closed spec fn unclassified(&self) -> Seq<Seq<char>> {
        views(self.unclassified_transitions@)
    }

    /// A tracker for the invariants of a catalog, with nothing recorded.
    pub fn new(catalog: Arc<InvariantCatalog>) -> (tracker: Self)
        ensures
            tracker.entries() == catalog.entries(),
            tracker.covered() == Set::<Seq<char>>::empty(),
            tracker.observed() == Seq::<TransitionTypeModel>::empty(),
            tracker.unclassified() == Seq::<Seq<char>>::empty(),
    {
        let tracker = Self {
            catalog,
            covered_invariants: SortedSet::new(),
            observed_transitions: Vec::new(),
            unclassified_transitions: Vec::new(),
        };
        tracker
    }

    /// Records that an invariant was checked.
    pub fn record_check(&mut self, invariant_id: &str)
        ensures
            final(self).covered() == old(self).covered().insert(invariant_id@),
            final(self).entries() == old(self).entries(),
            final(self).observed() == old(self).observed(),
            final(self).unclassified() == old(self).unclassified(),
    {
        self.covered_invariants.insert(invariant_id.to_owned());
    }

    /// Records that the given invariants were checked.
    pub fn record_checks(&mut self, invariant_ids: &[String])
        ensures
            final(self).covered() == old(self).covered().union(views(invariant_ids@).to_set()),
            final(self).entries() == old(self).entries(),
            final(self).observed() == old(self).observed(),
            final(self).unclassified() == old(self).unclassified(),
    {
        let ghost ids = views(invariant_ids@);
        let mut i: usize = 0;
        while i < invariant_ids.len()
            invariant
                i <= invariant_ids@.len(),
                ids == views(invariant_ids@),
                self.covered() == old(self).covered().union(ids.take(i as int).to_set()),
                self.entries() == old(self).entries(),
                self.observed() == old(self).observed(),
                self.unclassified() == old(self).unclassified(),
            decreases invariant_ids@.len() - i,
        {
            self.covered_invariants.insert(invariant_ids[i].clone());
            proof {
                let shorter = ids.take(i as int);
                let longer = ids.take(i + 1);
                let added = ids[i as int];
                assert(longer.to_set() =~= shorter.to_set().insert(added)) by {
                    assert forall|x: Seq<char>| shorter.to_set().insert(added).contains(x) implies longer.to_set().contains(
                        x,
                    ) by {
                        if x == added {
                            assert(longer[i as int] == x);
                        }
                    }
                }
            }
            i = i + 1;
        }
        assert(ids.take(invariant_ids@.len() as int) =~= ids);
    }

    /// Records an observed state transition.
    pub fn record_transition(&mut self, transition: TransitionType)
        ensures
            final(self).observed() == old(self).observed().push(transition@),
            final(self).entries() == old(self).entries(),
            final(self).covered() == old(self).covered(),
            final(self).unclassified() == old(self).unclassified(),
    {
        self.observed_transitions.push(transition);
    }

    /// Records a transition that could not be classified under any invariant.
    pub fn record_unclassified(&mut self, description: String)
        ensures
            final(self).unclassified() == old(self).unclassified().push(description@),
            final(self).entries() == old(self).entries(),
            final(self).covered() == old(self).covered(),
            final(self).observed() == old(self).observed(),
    {
        self.unclassified_transitions.push(description);
    }

    /// The coverage of one category.
    fn cover_category(&self, category: InvariantCategory) -> (coverage: CategoryCoverage)
        ensures
            coverage@ == category_coverage(self.entries(), self.covered(), category),
    {
        let listed = self.catalog.get_by_category(category);
        let ghost entries = in_category(self.entries(), category);
        let ghost ids = ids_of(entries);
        let ghost wanted = |id: Seq<char>| !self.covered().contains(id);
        let mut uncovered: Vec<String> = Vec::new();
        let mut i: usize = 0;
        while i < listed.len()
            invariant
                i <= listed@.len(),
                listed@.len() == entries.len(),
                forall|j: int| 0 <= j < listed@.len() ==> *#[trigger] listed@[j] == entries[j],
                ids == ids_of(entries),
                wanted == |id: Seq<char>| !self.covered().contains(id),
                views(uncovered@) == keep(ids.take(i as int), wanted),
                uncovered@.len() <= i,
            decreases listed@.len() - i,
        {
            let rule = listed[i];
            proof {
                assert(ids.take(i + 1).drop_last() =~= ids.take(i as int));
            }
            if !self.covered_invariants.contains_text(rule.id.as_str()) {
                uncovered.push(rule.id.clone());
            }
            i = i + 1;
        }
        assert(ids.take(listed@.len() as int) =~= ids);
        let total = listed.len();
        let covered = total - uncovered.len();
        CategoryCoverage {
            total,
            covered,
            percentage: share_of(covered, total, 10000),
            uncovered_ids: uncovered,
        }
    }

    /// The report on what was covered. It never claims completeness.
    pub fn generate_report(&self) -> (report: CoverageReport)
        ensures
            report@ == report_of(self.entries(), self.covered(), self.unclassified()),
            !report.is_complete,
    {
        let total = self.catalog.count();
        let covered_count = self.covered_invariants.len();
        let order = categories();
        let mut by_category: Vec<(InvariantCategory, CategoryCoverage)> = Vec::new();
        let mut i: usize = 0;
        while i < order.len()
            invariant
                i <= order@.len(),
                order@ == all_categories(),
                by_category@.len() == i,
                forall|j: int|
                    0 <= j < i ==> (#[trigger] by_category@[j]).0 == all_categories()[j]
                        && by_category@[j].1@ == category_coverage(
                        self.entries(),
                        self.covered(),
                        all_categories()[j],
                    ),
            decreases order@.len() - i,
        {
            let category = order[i];
            by_category.push((category, self.cover_category(category)));
            i = i + 1;
        }
        let gaps = self.identify_gaps(&by_category);
        let report = CoverageReport {
            total_invariants: total,
            covered_invariants: covered_count,
            coverage_percentage: share_of(covered_count, total, 0),
            gaps,
            by_category,
            uncovered_transition_types: copy_texts(&self.unclassified_transitions),
            is_complete: false,
        };
        assert(report@.by_category =~= coverage_by_category(self.entries(), self.covered()));
        report
    }

    /// The gaps: one for each category that is not fully covered, and one
    /// for the transitions that could not be classified, where there are any.
    fn identify_gaps(&self, by_category: &Vec<(InvariantCategory, CategoryCoverage)>) -> (gaps: Vec<
        CoverageGap,
    >)
        ensures
            views(gaps@) == gaps_of(
                Seq::new(by_category@.len(), |i: int| (by_category@[i].0, by_category@[i].1@)),
                self.unclassified(),
            ),
    {
        let ghost models = Seq::new(
            by_category@.len(),
            |i: int| (by_category@[i].0, by_category@[i].1@),
        );
        let mut gaps: Vec<CoverageGap> = Vec::new();
        let mut i: usize = 0;
        while i < by_category.len()
            invariant
                i <= by_category@.len(),
                models == Seq::new(
                    by_category@.len(),
                    |i: int| (by_category@[i].0, by_category@[i].1@),
                ),
                views(gaps@) == category_gaps(models.take(i as int)),
            decreases by_category@.len() - i,
        {
            let category = by_category[i].0;
            let coverage = &by_category[i].1;
            proof {
                assert(models.take(i + 1).drop_last() =~= models.take(i as int));
            }
            if coverage.percentage < 10000 {
                let gap = CoverageGap {
                    category,
                    description: describe_gap(category, coverage),
                    uncovered_transitions: copy_texts(&coverage.uncovered_ids),
                    severity: gap_severity(category),
                };
                gaps.push(gap);
            }
            i = i + 1;
        }
        assert(models.take(by_category@.len() as int) =~= models);
        if self.unclassified_transitions.len() > 0 {
            let mut description = decimal_string(self.unclassified_transitions.len() as u128);
            description.append(" state transitions could not be classified under any invariant");
            let gap = CoverageGap {
                category: InvariantCategory::Custom,
                description,
                uncovered_transitions: copy_texts(&self.unclassified_transitions),
                severity: GapSeverity::Medium,
            };
            gaps.push(gap);
        }
        gaps
    }

    /// Whether an invariant was recorded as checked.
    pub fn is_covered(&self, invariant_id: &str) -> (covered: bool)
        ensures
            covered == self.covered().contains(invariant_id@),
    {
        self.covered_invariants.contains_text(invariant_id)
    }

    /// The identifiers of the invariants of the catalog that were not
    /// recorded as checked, in the order of the catalog.
    pub fn get_uncovered(&self) -> (uncovered: Vec<String>)
        ensures
            views(uncovered@) == uncovered_among(ids_of(self.entries()), self.covered()),
    {
        let listed = self.catalog.all();
        let ghost ids = ids_of(self.entries());
        let ghost wanted = |id: Seq<char>| !self.covered().contains(id);
        let mut uncovered: Vec<String> = Vec::new();
        let mut i: usize = 0;
        while i < listed.len()
            invariant
                i <= listed@.len(),
                listed@.len() == self.entries().len(),
                forall|j: int| 0 <= j < listed@.len() ==> *#[trigger] listed@[j] == self.entries()[j],
                ids == ids_of(self.entries()),
                wanted == |id: Seq<char>| !self.covered().contains(id),
                views(uncovered@) == keep(ids.take(i as int), wanted),
            decreases listed@.len() - i,
        {
            let rule = listed[i];
            proof {
                assert(ids.take(i + 1).drop_last() =~= ids.take(i as int));
            }
            if !self.covered_invariants.contains_text(rule.id.as_str()) {
                uncovered.push(rule.id.clone());
            }
            i = i + 1;
        }
        assert(ids.take(listed@.len() as int) =~= ids);
        uncovered
    }

    /// Forgets everything recorded.
    pub fn reset(&mut self)
        ensures
            final(self).entries() == old(self).entries(),
            final(self).covered() == Set::<Seq<char>>::empty(),
            final(self).observed() == Seq::<TransitionTypeModel>::empty(),
            final(self).unclassified() == Seq::<Seq<char>>::empty(),
    {
        self.covered_invariants = SortedSet::new();
        self.observed_transitions = Vec::new();
        self.unclassified_transitions = Vec::new();
    }
}

/// Writes the description of the gap of a category.
pub fn describe_gap(category: InvariantCategory, coverage: &CategoryCoverage) -> (description: String)
    ensures
        description@ == gap_description(category, coverage@),
{
    let mut description = category_name(category).to_owned();
    description.append(" invariants: ");
    description.append(decimal_string(coverage.covered as u128).as_str());
    description.append("/");
    description.append(decimal_string(coverage.total as u128).as_str());
    description.append(" covered (");
    description.append(decimal_string(coverage.percentage / 100).as_str());
    description.append(".");
    description.append(decimal_string(coverage.percentage / 10 % 10).as_str());
    description.append("%)");
    description
}

/// Coverage is never complete: no report claims that everything was covered.
pub proof fn lemma_never_complete(
    entries: Seq<SecurityInvariant>,
    covered: Set<Seq<char>>,
    unclassified: Seq<Seq<char>>,
)
    ensures
        !report_of(entries, covered, unclassified).is_complete,
{
}

} // verus!
