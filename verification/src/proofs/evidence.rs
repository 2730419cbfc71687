//! The evidence collector: artifacts bound to the hash of their content, and
//! the bundle that holds them.

use vstd::prelude::*;
use vstd::utf8::{encode_utf8, valid_utf8};
use crate::canonical::Canonical;
use crate::collections::{duplicate_all, keep, views, Duplicate, SortedMap};
use crate::state::encoding::{method_name, method_tag, request_json, response_json, state_json};
use crate::state::ApplicationState;
use crate::text::{decimal_string, decimal_text, same_text};
use crate::trusted::{hex_encode, hex_lower, random_uuid, sha256, sha256_digest, text_of_bytes};
use crate::types::{copy_bytes, HttpRequest, HttpResponse, Timestamp};

verus! {

/// Types of evidence.
#[derive(Debug, PartialEq, Eq, Hash)]
pub enum EvidenceType {
    HttpRequest,
    HttpResponse,
    Screenshot,
    DomSnapshot,
    NetworkCapture,
    StateSnapshot,
    LogEntry,
    ExploitOutput,
    Custom(String),
}

/// What an `EvidenceType` stands for.
pub ghost enum EvidenceTypeModel {
    HttpRequest,
    HttpResponse,
    Screenshot,
    DomSnapshot,
    NetworkCapture,
    StateSnapshot,
    LogEntry,
    ExploitOutput,
    Custom(Seq<char>),
}

impl View for EvidenceType {
    type V = EvidenceTypeModel;

    open spec fn view(&self) -> EvidenceTypeModel {
        match self {
            EvidenceType::HttpRequest => EvidenceTypeModel::HttpRequest,
            EvidenceType::HttpResponse => EvidenceTypeModel::HttpResponse,
            EvidenceType::Screenshot => EvidenceTypeModel::Screenshot,
            EvidenceType::DomSnapshot => EvidenceTypeModel::DomSnapshot,
            EvidenceType::NetworkCapture => EvidenceTypeModel::NetworkCapture,
            EvidenceType::StateSnapshot => EvidenceTypeModel::StateSnapshot,
            EvidenceType::LogEntry => EvidenceTypeModel::LogEntry,
            EvidenceType::ExploitOutput => EvidenceTypeModel::ExploitOutput,
            EvidenceType::Custom(name) => EvidenceTypeModel::Custom(name@),
        }
    }
}

impl Clone for EvidenceType {
    fn clone(&self) -> (copy: Self)
        ensures
            copy@ == self@,
    {
        match self {
            EvidenceType::HttpRequest => EvidenceType::HttpRequest,
            EvidenceType::HttpResponse => EvidenceType::HttpResponse,
            EvidenceType::Screenshot => EvidenceType::Screenshot,
            EvidenceType::DomSnapshot => EvidenceType::DomSnapshot,
            EvidenceType::NetworkCapture => EvidenceType::NetworkCapture,
            EvidenceType::StateSnapshot => EvidenceType::StateSnapshot,
            EvidenceType::LogEntry => EvidenceType::LogEntry,
            EvidenceType::ExploitOutput => EvidenceType::ExploitOutput,
            EvidenceType::Custom(name) => EvidenceType::Custom(name.clone()),
        }
    }
}

impl Duplicate for EvidenceType {
    fn duplicate(&self) -> (copy: Self) {
        self.clone()
    }
}

impl EvidenceType {
    /// Whether two types of evidence are the same.
    pub fn same_as(&self, other: &EvidenceType) -> (same: bool)
        ensures
            same == (self@ == other@),
    {
        match (self, other) {
            (EvidenceType::HttpRequest, EvidenceType::HttpRequest) => true,
            (EvidenceType::HttpResponse, EvidenceType::HttpResponse) => true,
            (EvidenceType::Screenshot, EvidenceType::Screenshot) => true,
            (EvidenceType::DomSnapshot, EvidenceType::DomSnapshot) => true,
            (EvidenceType::NetworkCapture, EvidenceType::NetworkCapture) => true,
            (EvidenceType::StateSnapshot, EvidenceType::StateSnapshot) => true,
            (EvidenceType::LogEntry, EvidenceType::LogEntry) => true,
            (EvidenceType::ExploitOutput, EvidenceType::ExploitOutput) => true,
            (EvidenceType::Custom(a), EvidenceType::Custom(b)) => same_text(a.as_str(), b.as_str()),
            _ => false,
        }
    }
}

/// The hash of a content: its SHA-256 digest in lower-case hexadecimal.
pub open spec fn content_digest(content: Seq<u8>) -> Seq<char> {
    hex_lower(sha256_digest(content))
}

/// Single evidence artifact.
#[derive(Debug)]
pub struct EvidenceArtifact {
    pub id: String,
    pub evidence_type: EvidenceType,
    pub content: Vec<u8>,
    pub content_hash: String,
    pub metadata: SortedMap<String, String>,
    pub captured_at: Timestamp,
}

/// What an `EvidenceArtifact` stands for.
pub ghost struct ArtifactModel {
    pub id: Seq<char>,
    pub evidence_type: EvidenceTypeModel,
    pub content: Seq<u8>,
    pub content_hash: Seq<char>,
    pub metadata: Map<Seq<char>, Seq<char>>,
    pub captured_at: Timestamp,
}

impl ArtifactModel {
    /// Whether the hash recorded is the hash of the content.
    pub open spec fn intact(self) -> bool {
        self.content_hash == content_digest(self.content)
    }

    /// Whether the artifact is one made of the given type, content and
    /// metadata: it carries them, the hash of the content, and an identifier
    /// of 36 characters.
    pub open spec fn made_of(
        self,
        evidence_type: EvidenceTypeModel,
        content: Seq<u8>,
        metadata: Map<Seq<char>, Seq<char>>,
    ) -> bool {
        &&& self.evidence_type == evidence_type
        &&& self.content == content
        &&& self.content_hash == content_digest(content)
        &&& self.metadata == metadata
        &&& self.id.len() == 36
    }
}

impl View for EvidenceArtifact {
    type V = ArtifactModel;

    open spec fn view(&self) -> ArtifactModel {
        ArtifactModel {
            id: self.id@,
            evidence_type: self.evidence_type@,
            content: self.content@,
            content_hash: self.content_hash@,
            metadata: self.metadata@,
            captured_at: self.captured_at,
        }
    }
}

impl Clone for EvidenceArtifact {
    fn clone(&self) -> (copy: Self)
        ensures
            copy@ == self@,
    {
        EvidenceArtifact {
            id: self.id.clone(),
            evidence_type: self.evidence_type.clone(),
            content: copy_bytes(&self.content),
            content_hash: self.content_hash.clone(),
            metadata: self.metadata.clone(),
            captured_at: self.captured_at,
        }
    }
}

impl Duplicate for EvidenceArtifact {
    fn duplicate(&self) -> (copy: Self) {
        self.clone()
    }
}

/// Computes the hash of a content.
pub fn content_digest_of(content: &[u8]) -> (hash: String)
    ensures
        hash@ == content_digest(content@),
{
    let digest = sha256(content);
    hex_encode(digest.as_slice())
}

impl EvidenceArtifact {
    /// An artifact of the given type and content, with a fresh identifier,
    /// the hash of the content, no metadata, and the current time.
    pub fn new(evidence_type: EvidenceType, content: Vec<u8>) -> (artifact: Self)
        ensures
            artifact@.made_of(evidence_type@, content@, Map::empty()),
            artifact@.intact(),
    {
        let content_hash = Self::compute_hash(content.as_slice());
        Self {
            id: random_uuid(),
            evidence_type,
            content,
            content_hash,
            metadata: SortedMap::new(),
            captured_at: Timestamp::now(),
        }
    }

    /// The artifact with one more entry of metadata.
    pub fn with_metadata(self, key: &str, value: &str) -> (artifact: Self)
        ensures
            artifact@ == (ArtifactModel { metadata: self@.metadata.insert(key@, value@), ..self@ }),
    {
        let mut artifact = self;
        artifact.metadata.insert(key.to_owned(), value.to_owned());
        artifact
    }

    /// The hash of a content.
    fn compute_hash(content: &[u8]) -> (hash: String)
        ensures
            hash@ == content_digest(content@),
    {
        content_digest_of(content)
    }

    /// Whether the hash recorded is the hash of the content.
    pub fn verify_integrity(&self) -> (intact: bool)
        ensures
            intact == self@.intact(),
    {
        let computed = Self::compute_hash(self.content.as_slice());
        same_text(computed.as_str(), self.content_hash.as_str())
    }

    /// The content as a text, where it is valid UTF-8.
    pub fn content_as_string(&self) -> (text: Option<String>)
        ensures
            text is Some == valid_utf8(self@.content),
            text is Some ==> encode_utf8(text->0@) == self@.content,
    {
        text_of_bytes(copy_bytes(&self.content))
    }
}

/// Complete evidence collection for a finding.
#[derive(Debug)]
pub struct Evidence {
    pub artifacts: Vec<EvidenceArtifact>,
    pub collection_id: String,
    pub collected_at: Timestamp,
    pub is_complete: bool,
}

/// What an `Evidence` stands for.
pub ghost struct EvidenceModel {
    pub artifacts: Seq<ArtifactModel>,
    pub collection_id: Seq<char>,
    pub collected_at: Timestamp,
    pub is_complete: bool,
}

impl View for Evidence {
    type V = EvidenceModel;

    open spec fn view(&self) -> EvidenceModel {
        EvidenceModel {
            artifacts: views(self.artifacts@),
            collection_id: self.collection_id@,
            collected_at: self.collected_at,
            is_complete: self.is_complete,
        }
    }
}

impl Clone for Evidence {
    fn clone(&self) -> (copy: Self)
        ensures
            copy@ == self@,
    {
        Evidence {
            artifacts: duplicate_all(&self.artifacts),
            collection_id: self.collection_id.clone(),
            collected_at: self.collected_at,
            is_complete: self.is_complete,
        }
    }
}

/// Whether some artifact has the given type.
pub open spec fn has_type(artifacts: Seq<ArtifactModel>, evidence_type: EvidenceTypeModel) -> bool {
    exists|i: int| 0 <= i < artifacts.len() && (#[trigger] artifacts[i]).evidence_type == evidence_type
}

/// Whether there is an artifact of every required type.
pub open spec fn has_all_types(artifacts: Seq<ArtifactModel>, required: Seq<EvidenceTypeModel>) -> bool {
    forall|i: int| 0 <= i < required.len() ==> has_type(artifacts, #[trigger] required[i])
}

/// Whether every artifact is intact.
pub open spec fn all_intact(artifacts: Seq<ArtifactModel>) -> bool {
    forall|i: int| 0 <= i < artifacts.len() ==> (#[trigger] artifacts[i]).intact()
}

/// The sum of the sizes of the contents.
pub open spec fn size_of(artifacts: Seq<ArtifactModel>) -> nat
    decreases artifacts.len(),
{
    if artifacts.len() == 0 {
        0
    } else {
        size_of(artifacts.drop_last()) + artifacts.last().content.len()
    }
}

impl Evidence {
    /// An empty collection with a fresh identifier, stamped with the current
    /// time.
    pub fn new() -> (evidence: Self)
        ensures
            evidence@.artifacts == Seq::<ArtifactModel>::empty(),
            !evidence@.is_complete,
            evidence@.collection_id.len() == 36,
    {
        let evidence = Self {
            artifacts: Vec::new(),
            collection_id: random_uuid(),
            collected_at: Timestamp::now(),
            is_complete: false,
        };
        evidence
    }

    /// Adds an artifact to the collection.
    pub fn add_artifact(&mut self, artifact: EvidenceArtifact)
        ensures
            final(self)@ == (EvidenceModel {
                artifacts: old(self)@.artifacts.push(artifact@),
                ..old(self)@
            }),
    {
        self.artifacts.push(artifact);
        assert(views(self.artifacts@) =~= views(old(self).artifacts@).push(artifact@));
    }

    /// The artifacts of a type, in their order.
    pub fn get_by_type(&self, evidence_type: EvidenceType) -> (found: Vec<&EvidenceArtifact>)
        ensures
            found@.len() == keep(
                self.artifacts@,
                |a: EvidenceArtifact| a@.evidence_type == evidence_type@,
            ).len(),
            forall|i: int|
                0 <= i < found@.len() ==> *#[trigger] found@[i] == keep(
                    self.artifacts@,
                    |a: EvidenceArtifact| a@.evidence_type == evidence_type@,
                )[i],
    {
        let ghost wanted = |a: EvidenceArtifact| a@.evidence_type == evidence_type@;
        let mut found: Vec<&EvidenceArtifact> = Vec::new();
        let mut i: usize = 0;
        while i < self.artifacts.len()
            invariant
                i <= self.artifacts@.len(),
                wanted == |a: EvidenceArtifact| a@.evidence_type == evidence_type@,
                found@.len() == keep(self.artifacts@.take(i as int), wanted).len(),
                forall|j: int|
                    0 <= j < found@.len() ==> *#[trigger] found@[j] == keep(
                        self.artifacts@.take(i as int),
                        wanted,
                    )[j],
            decreases self.artifacts@.len() - i,
        {
            proof {
                assert(self.artifacts@.take(i + 1).drop_last() =~= self.artifacts@.take(i as int));
            }
            if self.artifacts[i].evidence_type.same_as(&evidence_type) {
                found.push(&self.artifacts[i]);
            }
            i = i + 1;
        }
        assert(self.artifacts@.take(self.artifacts@.len() as int) =~= self.artifacts@);
        found
    }

    /// Whether some artifact has the given type.
    fn has_artifact_of(&self, evidence_type: &EvidenceType) -> (found: bool)
        ensures
            found == has_type(self@.artifacts, evidence_type@),
    {
        let mut i: usize = 0;
        while i < self.artifacts.len()
            invariant
                i <= self.artifacts@.len(),
                forall|j: int| 0 <= j < i ==> (#[trigger] self@.artifacts[j]).evidence_type != evidence_type@,
            decreases self.artifacts@.len() - i,
        {
            if self.artifacts[i].evidence_type.same_as(evidence_type) {
                assert(self@.artifacts[i as int].evidence_type == evidence_type@);
                return true;
            }
            i = i + 1;
        }
        false
    }

    /// Whether there is an artifact of every required type.
    pub fn has_required_types(&self, required: &[EvidenceType]) -> (complete: bool)
        ensures
            complete == has_all_types(self@.artifacts, views(required@)),
    {
        let mut i: usize = 0;
        while i < required.len()
            invariant
                i <= required@.len(),
                forall|j: int| 0 <= j < i ==> has_type(self@.artifacts, #[trigger] views(required@)[j]),
            decreases required@.len() - i,
        {
            if !self.has_artifact_of(&required[i]) {
                assert(!has_type(self@.artifacts, views(required@)[i as int]));
                return false;
            }
            i = i + 1;
        }
        true
    }

    /// Whether the hash of every artifact is the hash of its content.
    pub fn verify_all_integrity(&self) -> (intact: bool)
        ensures
            intact == all_intact(self@.artifacts),
    {
        let mut i: usize = 0;
        while i < self.artifacts.len()
            invariant
                i <= self.artifacts@.len(),
                forall|j: int| 0 <= j < i ==> (#[trigger] self@.artifacts[j]).intact(),
            decreases self.artifacts@.len() - i,
        {
            if !self.artifacts[i].verify_integrity() {
                assert(!self@.artifacts[i as int].intact());
                return false;
            }
            i = i + 1;
        }
        true
    }

    /// Marks the collection as complete.
    pub fn complete(&mut self)
        ensures
            final(self)@ == (EvidenceModel { is_complete: true, ..old(self)@ }),
    {
        self.is_complete = true;
    }

    /// The sum of the sizes of the contents of all artifacts.
    pub fn total_size(&self) -> (size: u128)
        ensures
            size == size_of(self@.artifacts),
    {
        let ghost artifacts = self@.artifacts;
        let mut size: u128 = 0;
        let mut i: usize = 0;
        while i < self.artifacts.len()
            invariant
                i <= self.artifacts@.len(),
                artifacts == self@.artifacts,
                size == size_of(artifacts.take(i as int)),
                size <= i * 0xffff_ffff_ffff_ffff,
            decreases self.artifacts@.len() - i,
        {
            proof {
                assert(artifacts.take(i + 1).drop_last() =~= artifacts.take(i as int));
            }
            let length: usize = self.artifacts[i].content.len();
            size = size + length as u128;
            i = i + 1;
        }
        assert(artifacts.take(self.artifacts@.len() as int) =~= artifacts);
        size
    }
}

impl Default for Evidence {
    fn default() -> (evidence: Self)
        ensures
            evidence@.artifacts == Seq::<ArtifactModel>::empty(),
            !evidence@.is_complete,
    {
        Evidence::new()
    }
}

/// Whether `later` is `earlier` with one more artifact, made of the given
/// type, content and metadata.
pub open spec fn collected(
    earlier: EvidenceModel,
    later: EvidenceModel,
    evidence_type: EvidenceTypeModel,
    content: Seq<u8>,
    metadata: Map<Seq<char>, Seq<char>>,
) -> bool {
    &&& later.artifacts.len() == earlier.artifacts.len() + 1
    &&& later.artifacts.drop_last() == earlier.artifacts
    &&& later.artifacts.last().made_of(evidence_type, content, metadata)
    &&& later.collection_id == earlier.collection_id
    &&& later.collected_at == earlier.collected_at
    &&& later.is_complete == earlier.is_complete
}

/// Collector for gathering evidence.
#[derive(Debug)]
pub struct EvidenceCollector {
    current_collection: Evidence,
    required_types: Vec<EvidenceType>,
}

impl EvidenceCollector {
    /// The collection that is being gathered.
    pub closed spec fn collection(&self) -> EvidenceModel {
        self.current_collection@
    }

    /// The types of which a complete collection holds an artifact each.
    pub closed spec fn required(&self) -> Seq<EvidenceTypeModel> {
        views(self.required_types@)
    }

    /// A collector that requires an HTTP request and an HTTP response.
    pub fn new() -> (collector: Self)
        ensures
            collector.collection().artifacts == Seq::<ArtifactModel>::empty(),
            !collector.collection().is_complete,
            collector.required() == seq![
                EvidenceTypeModel::HttpRequest,
                EvidenceTypeModel::HttpResponse,
            ],
    {
        let mut required: Vec<EvidenceType> = Vec::new();
        required.push(EvidenceType::HttpRequest);
        required.push(EvidenceType::HttpResponse);
        let collector = Self { current_collection: Evidence::new(), required_types: required };
        collector
    }

    /// A collector that requires the given types.
    pub fn with_required_types(required: Vec<EvidenceType>) -> (collector: Self)
        ensures
            collector.collection().artifacts == Seq::<ArtifactModel>::empty(),
            !collector.collection().is_complete,
            collector.required() == views(required@),
    {
        Self { current_collection: Evidence::new(), required_types: required }
    }

    /// Starts a new collection.
    pub fn start_collection(&mut self)
        ensures
            final(self).collection().artifacts == Seq::<ArtifactModel>::empty(),
            !final(self).collection().is_complete,
            final(self).required() == old(self).required(),
    {
        self.current_collection = Evidence::new();
    }

    /// Adds an artifact to the current collection.
    fn collect(&mut self, artifact: EvidenceArtifact)
        ensures
            final(self).required() == old(self).required(),
            final(self).collection() == (EvidenceModel {
                artifacts: old(self).collection().artifacts.push(artifact@),
                ..old(self).collection()
            }),
    {
        self.current_collection.add_artifact(artifact);
    }

    /// Adds an HTTP request: its encoding as content, its method and URL as
    /// metadata.
    pub fn add_http_request(&mut self, request: &HttpRequest)
        ensures
            final(self).required() == old(self).required(),
            collected(
                old(self).collection(),
                final(self).collection(),
                EvidenceTypeModel::HttpRequest,
                request_json(request@),
                Map::<Seq<char>, Seq<char>>::empty().insert("method"@, method_tag(request@.method)).insert(
                    "url"@,
                    request@.url,
                ),
            ),
    {
        let artifact = EvidenceArtifact::new(EvidenceType::HttpRequest, request.encode()).with_metadata(
            "method",
            method_name(&request.method),
        ).with_metadata("url", request.url.as_str());
        self.collect(artifact);
        assert(self.collection().artifacts.drop_last() =~= old(self).collection().artifacts);
    }

    /// Adds an HTTP response: its encoding as content, its status code and
    /// duration as metadata.
    pub fn add_http_response(&mut self, response: &HttpResponse)
        ensures
            final(self).required() == old(self).required(),
            collected(
                old(self).collection(),
                final(self).collection(),
                EvidenceTypeModel::HttpResponse,
                response_json(response@),
                Map::<Seq<char>, Seq<char>>::empty().insert(
                    "status_code"@,
                    decimal_text(response@.status_code as nat),
                ).insert("duration_ms"@, decimal_text(response@.duration_ms as nat)),
            ),
    {
        let status = decimal_string(response.status_code as u128);
        let duration = decimal_string(response.duration_ms as u128);
        let artifact = EvidenceArtifact::new(
            EvidenceType::HttpResponse,
            response.encode(),
        ).with_metadata("status_code", status.as_str()).with_metadata(
            "duration_ms",
            duration.as_str(),
        );
        self.collect(artifact);
        assert(self.collection().artifacts.drop_last() =~= old(self).collection().artifacts);
    }

    /// Adds a screenshot with its description as metadata.
    pub fn add_screenshot(&mut self, image_data: Vec<u8>, description: &str)
        ensures
            final(self).required() == old(self).required(),
            collected(
                old(self).collection(),
                final(self).collection(),
                EvidenceTypeModel::Screenshot,
                image_data@,
                Map::<Seq<char>, Seq<char>>::empty().insert("description"@, description@),
            ),
    {
        let artifact = EvidenceArtifact::new(EvidenceType::Screenshot, image_data).with_metadata(
            "description",
            description,
        );
        self.collect(artifact);
        assert(self.collection().artifacts.drop_last() =~= old(self).collection().artifacts);
    }

    /// Adds a DOM snapshot: the bytes of the text as content.
    pub fn add_dom_snapshot(&mut self, html: &str)
        ensures
            final(self).required() == old(self).required(),
            collected(
                old(self).collection(),
                final(self).collection(),
                EvidenceTypeModel::DomSnapshot,
                encode_utf8(html@),
                Map::empty(),
            ),
    {
        let artifact = EvidenceArtifact::new(EvidenceType::DomSnapshot, bytes_of(html));
        self.collect(artifact);
        assert(self.collection().artifacts.drop_last() =~= old(self).collection().artifacts);
    }

    /// Adds a state snapshot: the canonical encoding of the state as content.
    pub fn add_state_snapshot(&mut self, state: &ApplicationState)
        ensures
            final(self).required() == old(self).required(),
            collected(
                old(self).collection(),
                final(self).collection(),
                EvidenceTypeModel::StateSnapshot,
                state_json(state@),
                Map::empty(),
            ),
    {
        let artifact = EvidenceArtifact::new(EvidenceType::StateSnapshot, state.encode());
        self.collect(artifact);
        assert(self.collection().artifacts.drop_last() =~= old(self).collection().artifacts);
    }

    /// Adds the output of an exploit with the name of the exploit as
    /// metadata.
    pub fn add_exploit_output(&mut self, output: &str, exploit_name: &str)
        ensures
            final(self).required() == old(self).required(),
            collected(
                old(self).collection(),
                final(self).collection(),
                EvidenceTypeModel::ExploitOutput,
                encode_utf8(output@),
                Map::<Seq<char>, Seq<char>>::empty().insert("exploit_name"@, exploit_name@),
            ),
    {
        let artifact = EvidenceArtifact::new(
            EvidenceType::ExploitOutput,
            bytes_of(output),
        ).with_metadata("exploit_name", exploit_name);
        self.collect(artifact);
        assert(self.collection().artifacts.drop_last() =~= old(self).collection().artifacts);
    }

    /// Adds evidence of a type that the caller names.
    pub fn add_custom(&mut self, name: &str, content: Vec<u8>)
        ensures
            final(self).required() == old(self).required(),
            collected(
                old(self).collection(),
                final(self).collection(),
                EvidenceTypeModel::Custom(name@),
                content@,
                Map::empty(),
            ),
    {
        let artifact = EvidenceArtifact::new(EvidenceType::Custom(name.to_owned()), content);
        self.collect(artifact);
        assert(self.collection().artifacts.drop_last() =~= old(self).collection().artifacts);
    }

    /// Hands the collection over, marked complete where it holds an artifact
    /// of every required type, and starts a new one.
    pub fn finalize(&mut self) -> (evidence: Evidence)
        ensures
            evidence@ == (EvidenceModel {
                is_complete: old(self).collection().is_complete || has_all_types(
                    old(self).collection().artifacts,
                    old(self).required(),
                ),
                ..old(self).collection()
            }),
            final(self).required() == old(self).required(),
            final(self).collection().artifacts == Seq::<ArtifactModel>::empty(),
            !final(self).collection().is_complete,
    {
        let mut collection = Evidence::new();
        core::mem::swap(&mut self.current_collection, &mut collection);
        if collection.has_required_types(self.required_types.as_slice()) {
            collection.complete();
        }
        collection
    }

    /// Whether the current collection holds an artifact of every required
    /// type.
    pub fn is_complete(&self) -> (complete: bool)
        ensures
            complete == has_all_types(self.collection().artifacts, self.required()),
    {
        self.current_collection.has_required_types(self.required_types.as_slice())
    }

    /// The current collection.
    pub fn current(&self) -> (evidence: &Evidence)
        ensures
            evidence@ == self.collection(),
    {
        &self.current_collection
    }
}

impl Default for EvidenceCollector {
    fn default() -> (collector: Self)
        ensures
            collector.collection().artifacts == Seq::<ArtifactModel>::empty(),
            !collector.collection().is_complete,
    {
        EvidenceCollector::new()
    }
}

/// The bytes of a text.
fn bytes_of(text: &str) -> (bytes: Vec<u8>)
    ensures
        bytes@ == encode_utf8(text@),
{
    let slice = text.as_bytes();
    let mut bytes: Vec<u8> = Vec::new();
    crate::canonical::append(&mut bytes, slice);
    bytes
}

} // verus!
