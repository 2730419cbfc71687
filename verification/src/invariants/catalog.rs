//! The catalog of security invariants.
//!
//! The catalog keeps its invariants in the order in which they were
//! registered, and no two of them share an identifier. An index gives the
//! positions of the invariants of every category.

use std::sync::Arc;
use vstd::prelude::*;
use vstd::string::StringExecFns;
use crate::collections::{view_of, views};
use crate::invariants::standard::{
    category_name, category_text, lemma_standard_ids_distinct, standard_order,
    standard_predicates, InvariantCategory, StandardPredicate,
};
use crate::state::{ApplicationState, StateModel};
use crate::text::same_text;

verus! {

/// A predicate over a pair of states, supplied by a caller of the library.
/// It answers `true` where the invariant holds.
pub trait TransitionPredicate: Send + Sync {
    /// Whether the predicate holds of a pair of states.
    spec fn holds(&self, before: StateModel, after: StateModel) -> bool;

    /// Evaluates the predicate on a pair of states.
    fn evaluate(&self, before: &ApplicationState, after: &ApplicationState) -> (verdict: bool)
        ensures
            verdict == self.holds(before@, after@),
    ;
}

/// A predicate that gives the same verdict for every pair of states.
#[derive(Debug, Clone, Copy, PartialEq, Eq, Structural)]
pub struct ConstantPredicate {
    pub verdict: bool,
}

impl TransitionPredicate for ConstantPredicate {
    open spec fn holds(&self, before: StateModel, after: StateModel) -> bool {
        self.verdict
    }

    fn evaluate(&self, before: &ApplicationState, after: &ApplicationState) -> (verdict: bool) {
        self.verdict
    }
}

/// A caller's predicate, shared by reference.
pub struct CustomPredicate {
    pub predicate: Arc<dyn TransitionPredicate>,
}

impl CustomPredicate {
    /// Whether the predicate holds of a pair of states.
    pub open spec fn holds(&self, before: StateModel, after: StateModel) -> bool {
        self.predicate.holds(before, after)
    }

    /// Evaluates the predicate on a pair of states.
    pub fn evaluate(&self, before: &ApplicationState, after: &ApplicationState) -> (verdict: bool)
        ensures
            verdict == self.holds(before@, after@),
    {
        self.predicate.evaluate(before, after)
    }
}

/// The predicate of an invariant: one of the default ones, or a caller's.
pub enum Validator {
    Standard(StandardPredicate),
    Custom(CustomPredicate),
}

impl Validator {
    /// Whether the predicate holds of a pair of states.
    pub open spec fn holds(&self, before: StateModel, after: StateModel) -> bool {
        match self {
            Validator::Standard(predicate) => predicate.holds(before, after),
            Validator::Custom(predicate) => predicate.holds(before, after),
        }
    }

    /// Evaluates the predicate on a pair of states.
    pub fn evaluate(&self, before: &ApplicationState, after: &ApplicationState) -> (verdict: bool)
        ensures
            verdict == self.holds(before@, after@),
    {
        match self {
            Validator::Standard(predicate) => predicate.evaluate(before, after),
            Validator::Custom(predicate) => predicate.evaluate(before, after),
        }
    }
}

/// Why an invariant exists and what it cannot see.
#[derive(Debug, Clone)]
pub struct InvariantProvenance {
    /// The security principle this invariant enforces
    pub security_principle: String,
    /// Known assumptions this invariant makes about the target system
    pub assumptions: Vec<String>,
    /// Known blind spots: what this invariant cannot detect
    pub blind_spots: Vec<String>,
    /// Reference to security standards
    pub standards_reference: Option<String>,
    /// When this invariant was added or last reviewed
    pub last_reviewed: Option<String>,
}

/// What an `InvariantProvenance` stands for.
pub ghost struct ProvenanceModel {
    pub security_principle: Seq<char>,
    pub assumptions: Seq<Seq<char>>,
    pub blind_spots: Seq<Seq<char>>,
    pub standards_reference: Option<Seq<char>>,
    pub last_reviewed: Option<Seq<char>>,
}

impl ProvenanceModel {
    /// The provenance of an invariant registered without one.
    pub open spec fn unspecified() -> ProvenanceModel {
        ProvenanceModel {
            security_principle: "Unspecified"@,
            assumptions: Seq::empty(),
            blind_spots: Seq::empty(),
            standards_reference: None,
            last_reviewed: None,
        }
    }

    /// The provenance recorded for a default invariant.
    pub open spec fn standard(predicate: StandardPredicate) -> ProvenanceModel {
        ProvenanceModel {
            security_principle: predicate.principle_text(),
            assumptions: predicate.assumption_texts(),
            blind_spots: predicate.blind_spot_texts(),
            standards_reference: predicate.reference_text(),
            last_reviewed: predicate.reviewed_text(),
        }
    }
}

impl View for InvariantProvenance {
    type V = ProvenanceModel;

    open spec fn view(&self) -> ProvenanceModel {
        ProvenanceModel {
            security_principle: self.security_principle@,
            assumptions: views(self.assumptions@),
            blind_spots: views(self.blind_spots@),
            standards_reference: view_of(self.standards_reference),
            last_reviewed: view_of(self.last_reviewed),
        }
    }
}

impl Default for InvariantProvenance {
    fn default() -> (provenance: Self)
        ensures
            provenance@ == ProvenanceModel::unspecified(),
    {
        let provenance = InvariantProvenance {
            security_principle: "Unspecified".to_owned(),
            assumptions: Vec::new(),
            blind_spots: Vec::new(),
            standards_reference: None,
            last_reviewed: None,
        };
        assert(provenance@.assumptions =~= Seq::empty());
        provenance
    }
}

impl InvariantProvenance {
    /// The provenance recorded for a default invariant.
    pub fn standard(predicate: StandardPredicate) -> (provenance: Self)
        ensures
            provenance@ == ProvenanceModel::standard(predicate),
    {
        let standards_reference = match predicate.standards_reference() {
            Some(text) => Some(text.to_owned()),
            None => None,
        };
        let last_reviewed = match predicate.last_reviewed() {
            Some(text) => Some(text.to_owned()),
            None => None,
        };
        let provenance = InvariantProvenance {
            security_principle: predicate.principle().to_owned(),
            assumptions: predicate.assumptions(),
            blind_spots: predicate.blind_spots(),
            standards_reference,
            last_reviewed,
        };
        assert(provenance@.assumptions =~= predicate.assumption_texts());
        assert(provenance@.blind_spots =~= predicate.blind_spot_texts());
        provenance
    }
}

/// Security invariant definition with full provenance.
pub struct SecurityInvariant {
    pub id: String,
    pub name: String,
    pub description: String,
    pub category: InvariantCategory,
    pub validator: Validator,
    pub violation_message: String,
    /// Why this invariant exists and what security principle it enforces
    pub provenance: InvariantProvenance,
}

/// What the catalog records of an invariant, beside its predicate.
pub ghost struct InvariantModel {
    pub id: Seq<char>,
    pub name: Seq<char>,
    pub description: Seq<char>,
    pub category: InvariantCategory,
    pub violation_message: Seq<char>,
    pub provenance: ProvenanceModel,
}

impl InvariantModel {
    /// What the catalog records of a default invariant.
    pub open spec fn standard(predicate: StandardPredicate) -> InvariantModel {
        InvariantModel {
            id: predicate.id_text(),
            name: predicate.name_text(),
            description: predicate.description_text(),
            category: predicate.category_of(),
            violation_message: predicate.message_text(),
            provenance: ProvenanceModel::standard(predicate),
        }
    }
}

impl View for SecurityInvariant {
    type V = InvariantModel;

    open spec fn view(&self) -> InvariantModel {
        InvariantModel {
            id: self.id@,
            name: self.name@,
            description: self.description@,
            category: self.category,
            violation_message: self.violation_message@,
            provenance: self.provenance@,
        }
    }
}

impl SecurityInvariant {
    /// Whether the invariant holds of a pair of states.
    pub open spec fn holds(&self, before: StateModel, after: StateModel) -> bool {
        self.validator.holds(before, after)
    }

    /// Whether this is the default invariant with the given predicate.
    pub open spec fn is_standard(&self, predicate: StandardPredicate) -> bool {
        &&& self@ == InvariantModel::standard(predicate)
        &&& self.validator == Validator::Standard(predicate)
    }

    /// An invariant with the given predicate and unspecified provenance.
    pub fn new(
        id: &str,
        name: &str,
        description: &str,
        category: InvariantCategory,
        violation_message: &str,
        validator: Validator,
    ) -> (rule: Self)
        ensures
            rule@ == (InvariantModel {
                id: id@,
                name: name@,
                description: description@,
                category,
                violation_message: violation_message@,
                provenance: ProvenanceModel::unspecified(),
            }),
            rule.validator == validator,
    {
        SecurityInvariant {
            id: id.to_owned(),
            name: name.to_owned(),
            description: description.to_owned(),
            category,
            validator,
            violation_message: violation_message.to_owned(),
            provenance: InvariantProvenance::default(),
        }
    }

    /// An invariant with the given predicate and full provenance.
    pub fn with_provenance(
        id: &str,
        name: &str,
        description: &str,
        category: InvariantCategory,
        violation_message: &str,
        provenance: InvariantProvenance,
        validator: Validator,
    ) -> (rule: Self)
        ensures
            rule@ == (InvariantModel {
                id: id@,
                name: name@,
                description: description@,
                category,
                violation_message: violation_message@,
                provenance: provenance@,
            }),
            rule.validator == validator,
    {
        SecurityInvariant {
            id: id.to_owned(),
            name: name.to_owned(),
            description: description.to_owned(),
            category,
            validator,
            violation_message: violation_message.to_owned(),
            provenance,
        }
    }

    /// The default invariant with the given predicate.
    pub fn standard(predicate: StandardPredicate) -> (rule: Self)
        ensures
            rule.is_standard(predicate),
    {
        SecurityInvariant {
            id: predicate.id().to_owned(),
            name: predicate.name().to_owned(),
            description: predicate.description().to_owned(),
            category: predicate.category(),
            validator: Validator::Standard(predicate),
            violation_message: predicate.violation_message().to_owned(),
            provenance: InvariantProvenance::standard(predicate),
        }
    }

    /// A line that describes the invariant: its identifier, its name and
    /// its category.
    pub fn describe(&self) -> (line: String)
        ensures
            line@ == self.id@ + ": "@ + self.name@ + " ("@ + category_text(self.category) + ")"@,
    {
        let mut line = self.id.clone();
        line.append(": ");
        line.append(self.name.as_str());
        line.append(" (");
        line.append(category_name(self.category));
        line.append(")");
        line
    }

    /// Evaluates the invariant on a state transition.
    pub fn validate(&self, before: &ApplicationState, after: &ApplicationState) -> (verdict: bool)
        ensures
            verdict == self.holds(before@, after@),
    {
        self.validator.evaluate(before, after)
    }
}

/// No two of the invariants share an identifier.
pub open spec fn distinct_ids(entries: Seq<SecurityInvariant>) -> bool {
    forall|i: int, j: int|
        0 <= i < entries.len() && 0 <= j < entries.len() && i != j ==> #[trigger] entries[i].id@
            != #[trigger] entries[j].id@
}

/// Whether one of the invariants has the identifier `id`.
pub open spec fn has_id(entries: Seq<SecurityInvariant>, id: Seq<char>) -> bool {
    exists|i: int| 0 <= i < entries.len() && #[trigger] entries[i].id@ == id
}

/// The position of the invariant with the identifier `id`.
pub open spec fn index_of_id(entries: Seq<SecurityInvariant>, id: Seq<char>) -> int {
    choose|i: int| 0 <= i < entries.len() && #[trigger] entries[i].id@ == id
}

/// The invariants of one category, in their order.
pub open spec fn in_category(entries: Seq<SecurityInvariant>, category: InvariantCategory) -> Seq<
    SecurityInvariant,
>
    decreases entries.len(),
{
    if entries.len() == 0 {
        Seq::empty()
    } else if entries.last().category == category {
        in_category(entries.drop_last(), category).push(entries.last())
    } else {
        in_category(entries.drop_last(), category)
    }
}

/// Whether `entries` are the default invariants in their order.
pub open spec fn is_standard_catalog(entries: Seq<SecurityInvariant>) -> bool {
    &&& entries.len() == standard_order().len()
    &&& forall|i: int| 0 <= i < entries.len() ==> (#[trigger] entries[i]).is_standard(standard_order()[i])
}

/// Identifier uniqueness: two invariants of a catalog with the same
/// identifier are the same invariant.
pub proof fn lemma_id_unique(entries: Seq<SecurityInvariant>, i: int, j: int)
    requires
        distinct_ids(entries),
        0 <= i < entries.len(),
        0 <= j < entries.len(),
        entries[i].id@ == entries[j].id@,
    ensures
        i == j,
        entries[i] == entries[j],
{
}

/// Every invariant of a category's listing is in the catalog and has that
/// category.
pub proof fn lemma_in_category(entries: Seq<SecurityInvariant>, category: InvariantCategory)
    ensures
        in_category(entries, category).len() <= entries.len(),
        forall|i: int|
            0 <= i < in_category(entries, category).len() ==> {
                &&& (#[trigger] in_category(entries, category)[i]).category == category
                &&& entries.contains(in_category(entries, category)[i])
            },
        forall|i: int|
            0 <= i < entries.len() && entries[i].category == category ==> in_category(
                entries,
                category,
            ).contains(#[trigger] entries[i]),
    decreases entries.len(),
{
    if entries.len() > 0 {
        let rest = entries.drop_last();
        let listed = in_category(entries, category);
        lemma_in_category(rest, category);
        assert forall|i: int| 0 <= i < entries.len() && entries[i].category == category implies listed.contains(
            #[trigger] entries[i],
        ) by {
            if i < rest.len() {
                let k = choose|k: int|
                    0 <= k < in_category(rest, category).len() && in_category(rest, category)[k]
                        == rest[i];
                assert(listed[k] == entries[i]);
            } else {
                assert(listed[listed.len() - 1] == entries[i]);
            }
        }
    }
}

/// The number of categories.
pub const CATEGORY_COUNT: usize = 9;

/// The place of a category in the declared order of the categories.
pub open spec fn category_index(category: InvariantCategory) -> int {
    match category {
        InvariantCategory::Authorization => 0,
        InvariantCategory::Monetary => 1,
        InvariantCategory::Workflow => 2,
        InvariantCategory::Trust => 3,
        InvariantCategory::DataIntegrity => 4,
        InvariantCategory::SessionManagement => 5,
        InvariantCategory::InputValidation => 6,
        InvariantCategory::RateLimiting => 7,
        InvariantCategory::Custom => 8,
    }
}

/// The place of a category in the declared order of the categories.
fn index_of_category(category: InvariantCategory) -> (index: usize)
    ensures
        index == category_index(category),
        index < CATEGORY_COUNT,
{
    match category {
        InvariantCategory::Authorization => 0,
        InvariantCategory::Monetary => 1,
        InvariantCategory::Workflow => 2,
        InvariantCategory::Trust => 3,
        InvariantCategory::DataIntegrity => 4,
        InvariantCategory::SessionManagement => 5,
        InvariantCategory::InputValidation => 6,
        InvariantCategory::RateLimiting => 7,
        InvariantCategory::Custom => 8,
    }
}

/// The positions of the invariants of one category, ascending.
pub open spec fn positions(entries: Seq<SecurityInvariant>, category: InvariantCategory) -> Seq<usize>
    decreases entries.len(),
{
    if entries.len() == 0 {
        Seq::empty()
    } else if entries.last().category == category {
        positions(entries.drop_last(), category).push((entries.len() - 1) as usize)
    } else {
        positions(entries.drop_last(), category)
    }
}

/// The positions of a category point at the invariants of its listing, one
/// by one.
pub proof fn lemma_positions(entries: Seq<SecurityInvariant>, category: InvariantCategory)
    requires
        entries.len() <= usize::MAX,
    ensures
        positions(entries, category).len() == in_category(entries, category).len(),
        forall|k: int|
            0 <= k < positions(entries, category).len() ==> {
                &&& (#[trigger] positions(entries, category)[k]) < entries.len()
                &&& entries[positions(entries, category)[k] as int] == in_category(
                    entries,
                    category,
                )[k]
            },
    decreases entries.len(),
{
    if entries.len() > 0 {
        let rest = entries.drop_last();
        lemma_positions(rest, category);
    }
}

/// What a catalog holds: the invariants in the order of their registration,
/// and the index that gives, for every category, the positions of its
/// invariants.
struct Shelf {
    invariants: Vec<SecurityInvariant>,
    by_category: Vec<Vec<usize>>,
}

impl Shelf {
    /// Whether no two invariants share an identifier and the index agrees
    /// with the invariants.
    spec fn sound(&self) -> bool {
        &&& distinct_ids(self.invariants@)
        &&& self.by_category@.len() == CATEGORY_COUNT
        &&& forall|category: InvariantCategory| #[trigger]
            self.by_category@[category_index(category)]@ == positions(self.invariants@, category)
    }

    /// A shelf without invariants.
    fn new() -> (shelf: Self)
        ensures
            shelf.sound(),
            shelf.invariants@ == Seq::<SecurityInvariant>::empty(),
    {
        let mut by_category: Vec<Vec<usize>> = Vec::new();
        let mut i: usize = 0;
        while i < CATEGORY_COUNT
            invariant
                i <= CATEGORY_COUNT,
                by_category@.len() == i,
                forall|j: int| 0 <= j < i ==> (#[trigger] by_category@[j])@ == Seq::<usize>::empty(),
            decreases CATEGORY_COUNT - i,
        {
            by_category.push(Vec::new());
            i = i + 1;
        }
        let shelf = Shelf { invariants: Vec::new(), by_category };
        shelf
    }

    /// Appends an invariant whose identifier is new, and enters its position
    /// in the index.
    fn add(&mut self, rule: SecurityInvariant)
        requires
            old(self).sound(),
            !has_id(old(self).invariants@, rule.id@),
        ensures
            final(self).sound(),
            final(self).invariants@ == old(self).invariants@.push(rule),
    {
        let ghost before = self.invariants@;
        let category = rule.category;
        let at = index_of_category(category);
        let position = self.invariants.len();
        self.invariants.push(rule);
        let mut listed = self.by_category.remove(at);
        listed.push(position);
        self.by_category.insert(at, listed);
        proof {
            let after = self.invariants@;
            assert(after.drop_last() =~= before);
        }
    }
}

/// Catalog of all defined security invariants.
pub struct InvariantCatalog {
    shelf: Shelf,
}

impl View for InvariantCatalog {
    type V = Seq<InvariantModel>;

    open spec fn view(&self) -> Seq<InvariantModel> {
        views(self.entries())
    }
}

impl InvariantCatalog {
    #[verifier::type_invariant]
    spec fn sound(&self) -> bool {
        self.shelf.sound()
    }

    /// The invariants in the order in which they were registered.
    pub closed spec fn entries(&self) -> Seq<SecurityInvariant> {
        self.shelf.invariants@
    }

    /// A catalog without invariants.
    pub fn empty() -> (catalog: Self)
        ensures
            catalog.entries() == Seq::<SecurityInvariant>::empty(),
    {
        InvariantCatalog { shelf: Shelf::new() }
    }

    /// A catalog seeded with the default invariants.
    pub fn new() -> (catalog: Self)
        ensures
            is_standard_catalog(catalog.entries()),
            distinct_ids(catalog.entries()),
    {
        let mut catalog = InvariantCatalog::empty();
        catalog.register_default_invariants();
        proof {
            use_type_invariant(&catalog);
        }
        catalog
    }

    /// Registers the default invariants, category by category.
    fn register_default_invariants(&mut self)
        requires
            old(self).entries().len() == 0,
        ensures
            is_standard_catalog(final(self).entries()),
    {
        self.register_authorization_invariants();
        self.register_monetary_invariants();
        self.register_workflow_invariants();
        self.register_trust_invariants();
        self.register_data_integrity_invariants();
        self.register_session_invariants();
        self.register_input_validation_invariants();
    }

    /// Whether the catalog holds the first `count` default invariants.
    spec fn seeded(&self, count: int) -> bool {
        &&& self.entries().len() == count
        &&& count <= standard_order().len()
        &&& forall|i: int| 0 <= i < count ==> (#[trigger] self.entries()[i]).is_standard(standard_order()[i])
    }

    /// Registers the default invariants at positions `from` to `to` of their
    /// order.
    fn register_standard(&mut self, from: usize, to: usize)
        requires
            old(self).seeded(from as int),
            from <= to <= standard_order().len(),
        ensures
            final(self).seeded(to as int),
    {
        let order = standard_predicates();
        let mut i: usize = from;
        while i < to
            invariant
                from <= i <= to,
                to <= standard_order().len(),
                order@ == standard_order(),
                self.seeded(i as int),
            decreases to - i,
        {
            let predicate = order[i];
            let rule = SecurityInvariant::standard(predicate);
            proof {
                assert forall|j: int| 0 <= j < self.entries().len() implies (#[trigger] self.entries()[j]).id@
                    != rule.id@ by {
                    lemma_standard_ids_distinct(standard_order()[j], predicate);
                }
            }
            let added = self.register(rule);
            i = i + 1;
        }
    }

    /// Registers the authorization invariants.
    fn register_authorization_invariants(&mut self)
        requires
            old(self).seeded(0),
        ensures
            final(self).seeded(4),
    {
        self.register_standard(0, 4);
    }

    /// Registers the monetary invariants.
    fn register_monetary_invariants(&mut self)
        requires
            old(self).seeded(4),
        ensures
            final(self).seeded(8),
    {
        self.register_standard(4, 8);
    }

    /// Registers the workflow invariants.
    fn register_workflow_invariants(&mut self)
        requires
            old(self).seeded(8),
        ensures
            final(self).seeded(11),
    {
        self.register_standard(8, 11);
    }

    /// Registers the trust boundary invariants.
    fn register_trust_invariants(&mut self)
        requires
            old(self).seeded(11),
        ensures
            final(self).seeded(13),
    {
        self.register_standard(11, 13);
    }

    /// Registers the data integrity invariants.
    fn register_data_integrity_invariants(&mut self)
        requires
            old(self).seeded(13),
        ensures
            final(self).seeded(15),
    {
        self.register_standard(13, 15);
    }

    /// Registers the session management invariants.
    fn register_session_invariants(&mut self)
        requires
            old(self).seeded(15),
        ensures
            final(self).seeded(17),
    {
        self.register_standard(15, 17);
    }

    /// Registers the input validation invariants.
    fn register_input_validation_invariants(&mut self)
        requires
            old(self).seeded(17),
        ensures
            final(self).seeded(18),
    {
        self.register_standard(17, 18);
    }

    /// The position of the invariant with the identifier `id`, if there is one.
    fn find(&self, id: &str) -> (at: Option<usize>)
        ensures
            at is Some == has_id(self.entries(), id@),
            at is Some ==> at->0 < self.entries().len() && self.entries()[at->0 as int].id@ == id@
                && at->0 == index_of_id(self.entries(), id@),
            distinct_ids(self.entries()),
    {
        proof {
            use_type_invariant(self);
        }
        let mut i: usize = 0;
        while i < self.shelf.invariants.len()
            invariant
                i <= self.shelf.invariants@.len(),
                distinct_ids(self.shelf.invariants@),
                forall|j: int| 0 <= j < i ==> (#[trigger] self.shelf.invariants@[j]).id@ != id@,
            decreases self.shelf.invariants@.len() - i,
        {
            if same_text(self.shelf.invariants[i].id.as_str(), id) {
                return Some(i);
            }
            i = i + 1;
        }
        None
    }

    /// Registers an invariant, unless one with its identifier is registered
    /// already; says whether it was registered.
    pub fn register(&mut self, rule: SecurityInvariant) -> (added: bool)
        ensures
            added == !has_id(old(self).entries(), rule.id@),
            added ==> final(self).entries() == old(self).entries().push(rule),
            !added ==> final(self).entries() == old(self).entries(),
            distinct_ids(final(self).entries()),
    {
        proof {
            use_type_invariant(&*self);
        }
        match self.find(rule.id.as_str()) {
            Some(_) => false,
            None => {
                let mut shelf = Shelf::new();
                core::mem::swap(&mut self.shelf, &mut shelf);
                shelf.add(rule);
                self.shelf = shelf;
                true
            },
        }
    }

    /// The invariant with the identifier `id`, if there is one.
    pub fn get(&self, id: &str) -> (rule: Option<&SecurityInvariant>)
        ensures
            rule is Some == has_id(self.entries(), id@),
            rule is Some ==> *rule->0 == self.entries()[index_of_id(self.entries(), id@)]
                && rule->0.id@ == id@,
    {
        match self.find(id) {
            Some(at) => Some(&self.shelf.invariants[at]),
            None => None,
        }
    }

    /// The invariants of a category, in the order of their registration.
    pub fn get_by_category(&self, category: InvariantCategory) -> (listed: Vec<&SecurityInvariant>)
        ensures
            listed@.len() == in_category(self.entries(), category).len(),
            forall|i: int|
                0 <= i < listed@.len() ==> *#[trigger] listed@[i] == in_category(
                    self.entries(),
                    category,
                )[i],
    {
        proof {
            use_type_invariant(self);
        }
        proof {
            assert(self.shelf.invariants@.len() == self.shelf.invariants.len());
            lemma_positions(self.shelf.invariants@, category);
        }
        let places = &self.shelf.by_category[index_of_category(category)];
        let mut listed: Vec<&SecurityInvariant> = Vec::new();
        let mut i: usize = 0;
        while i < places.len()
            invariant
                i <= places@.len(),
                places@ == positions(self.shelf.invariants@, category),
                places@.len() == in_category(self.shelf.invariants@, category).len(),
                forall|k: int|
                    0 <= k < places@.len() ==> {
                        &&& (#[trigger] places@[k]) < self.shelf.invariants@.len()
                        &&& self.shelf.invariants@[places@[k] as int] == in_category(
                            self.shelf.invariants@,
                            category,
                        )[k]
                    },
                listed@.len() == i,
                forall|k: int|
                    0 <= k < i ==> *#[trigger] listed@[k] == in_category(
                        self.shelf.invariants@,
                        category,
                    )[k],
            decreases places@.len() - i,
        {
            let at = places[i];
            listed.push(&self.shelf.invariants[at]);
            i = i + 1;
        }
        listed
    }

    /// All invariants, in the order of their registration.
    pub fn all(&self) -> (listed: Vec<&SecurityInvariant>)
        ensures
            listed@.len() == self.entries().len(),
            forall|i: int| 0 <= i < listed@.len() ==> *#[trigger] listed@[i] == self.entries()[i],
            distinct_ids(self.entries()),
    {
        proof {
            use_type_invariant(self);
        }
        let mut listed: Vec<&SecurityInvariant> = Vec::new();
        let mut i: usize = 0;
        while i < self.shelf.invariants.len()
            invariant
                i <= self.shelf.invariants@.len(),
                listed@.len() == i,
                forall|j: int| 0 <= j < i ==> *#[trigger] listed@[j] == self.shelf.invariants@[j],
            decreases self.shelf.invariants@.len() - i,
        {
            listed.push(&self.shelf.invariants[i]);
            i = i + 1;
        }
        listed
    }

    /// The number of invariants.
    pub fn count(&self) -> (n: usize)
        ensures
            n == self.entries().len(),
            distinct_ids(self.entries()),
    {
        proof {
            use_type_invariant(self);
        }
        self.shelf.invariants.len()
    }

    /// The number of invariants of a category.
    pub fn count_by_category(&self, category: InvariantCategory) -> (n: usize)
        ensures
            n == in_category(self.entries(), category).len(),
    {
        proof {
            use_type_invariant(self);
        }
        proof {
            assert(self.shelf.invariants@.len() == self.shelf.invariants.len());
            lemma_positions(self.shelf.invariants@, category);
        }
        self.shelf.by_category[index_of_category(category)].len()
    }

    /// The invariant at position `i` of the registration order.
    pub fn entry(&self, i: usize) -> (rule: &SecurityInvariant)
        requires
            i < self.entries().len(),
        ensures
            *rule == self.entries()[i as int],
    {
        &self.shelf.invariants[i]
    }
}

impl Default for InvariantCatalog {
    fn default() -> (catalog: Self)
        ensures
            is_standard_catalog(catalog.entries()),
    {
        InvariantCatalog::new()
    }
}

} // verus!
