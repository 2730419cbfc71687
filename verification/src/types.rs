//! Identifier and value types shared by every component.

use vstd::prelude::*;
use crate::collections::{Duplicate, SortedMap, SortedSet, TextKey, view_of};
use crate::text::same_text;
use crate::trusted::{random_uuid, utc_now};

verus! {

/// Unique identifier for findings: a random UUID in hyphenated form.
#[derive(Debug, PartialEq, Eq, Hash)]
pub struct FindingId(pub String);

impl FindingId {
    /// A fresh random identifier.
    pub fn new() -> (id: Self)
        ensures
            id.0@.len() == 36,
    {
        FindingId(random_uuid())
    }
}

impl Default for FindingId {
    fn default() -> (id: Self)
        ensures
            id.0@.len() == 36,
    {
        FindingId::new()
    }
}

impl Clone for FindingId {
    fn clone(&self) -> (copy: Self)
        ensures
            copy.0@ == self.0@,
    {
        FindingId(self.0.clone())
    }
}

/// Unique identifier for objects in the target system.
#[derive(Debug, PartialEq, Eq, Hash)]
pub struct ObjectId(pub String);

/// Unique identifier for users.
#[derive(Debug, PartialEq, Eq, Hash)]
pub struct UserId(pub String);

/// Unique identifier for financial accounts.
#[derive(Debug, PartialEq, Eq, Hash)]
pub struct AccountId(pub String);

/// Unique identifier for sessions.
#[derive(Debug, PartialEq, Eq, Hash)]
pub struct SessionId(pub String);

/// User role in the target system.
#[derive(Debug, PartialEq, Eq, Hash)]
pub struct Role(pub String);

impl View for ObjectId {
    type V = Seq<char>;

    open spec fn view(&self) -> Seq<char> {
        self.0@
    }
}

impl Clone for ObjectId {
    fn clone(&self) -> (copy: Self)
        ensures
            copy@ == self@,
    {
        ObjectId(self.0.clone())
    }
}

impl Duplicate for ObjectId {
    fn duplicate(&self) -> (copy: Self) {
        self.clone()
    }
}

impl TextKey for ObjectId {
    open spec fn text(&self) -> Seq<char> {
        self.0@
    }

    fn as_text(&self) -> (s: &str) {
        self.0.as_str()
    }

    fn copy_key(&self) -> (copy: Self) {
        self.clone()
    }
}

impl View for UserId {
    type V = Seq<char>;

    open spec fn view(&self) -> Seq<char> {
        self.0@
    }
}

impl Clone for UserId {
    fn clone(&self) -> (copy: Self)
        ensures
            copy@ == self@,
    {
        UserId(self.0.clone())
    }
}

impl Duplicate for UserId {
    fn duplicate(&self) -> (copy: Self) {
        self.clone()
    }
}

impl TextKey for UserId {
    open spec fn text(&self) -> Seq<char> {
        self.0@
    }

    fn as_text(&self) -> (s: &str) {
        self.0.as_str()
    }

    fn copy_key(&self) -> (copy: Self) {
        self.clone()
    }
}

impl View for AccountId {
    type V = Seq<char>;

    open spec fn view(&self) -> Seq<char> {
        self.0@
    }
}

impl Clone for AccountId {
    fn clone(&self) -> (copy: Self)
        ensures
            copy@ == self@,
    {
        AccountId(self.0.clone())
    }
}

impl Duplicate for AccountId {
    fn duplicate(&self) -> (copy: Self) {
        self.clone()
    }
}

impl TextKey for AccountId {
    open spec fn text(&self) -> Seq<char> {
        self.0@
    }

    fn as_text(&self) -> (s: &str) {
        self.0.as_str()
    }

    fn copy_key(&self) -> (copy: Self) {
        self.clone()
    }
}

impl View for SessionId {
    type V = Seq<char>;

    open spec fn view(&self) -> Seq<char> {
        self.0@
    }
}

impl Clone for SessionId {
    fn clone(&self) -> (copy: Self)
        ensures
            copy@ == self@,
    {
        SessionId(self.0.clone())
    }
}

impl Duplicate for SessionId {
    fn duplicate(&self) -> (copy: Self) {
        self.clone()
    }
}

impl TextKey for SessionId {
    open spec fn text(&self) -> Seq<char> {
        self.0@
    }

    fn as_text(&self) -> (s: &str) {
        self.0.as_str()
    }

    fn copy_key(&self) -> (copy: Self) {
        self.clone()
    }
}

impl View for Role {
    type V = Seq<char>;

    open spec fn view(&self) -> Seq<char> {
        self.0@
    }
}

impl Clone for Role {
    fn clone(&self) -> (copy: Self)
        ensures
            copy@ == self@,
    {
        Role(self.0.clone())
    }
}

impl Duplicate for Role {
    fn duplicate(&self) -> (copy: Self) {
        self.clone()
    }
}

impl TextKey for Role {
    open spec fn text(&self) -> Seq<char> {
        self.0@
    }

    fn as_text(&self) -> (s: &str) {
        self.0.as_str()
    }

    fn copy_key(&self) -> (copy: Self) {
        self.clone()
    }
}

/// An instant: whole seconds since the Unix epoch, and the nanoseconds
/// within that second.
#[derive(Debug, Clone, Copy, PartialEq, Eq, Hash, Structural)]
pub struct Timestamp {
    pub secs: i64,
    pub nanos: u32,
}

impl Timestamp {
    /// Whether `self` is no later than `other`.
    pub open spec fn at_or_before(self, other: Timestamp) -> bool {
        self.secs < other.secs || (self.secs == other.secs && self.nanos <= other.nanos)
    }

    /// The instant of the given seconds and nanoseconds.
    pub fn new(secs: i64, nanos: u32) -> (t: Self)
        ensures
            t.secs == secs,
            t.nanos == nanos,
    {
        Timestamp { secs, nanos }
    }

    /// The current instant, as the system clock gives it.
    pub fn now() -> Self {
        let reading = utc_now();
        Timestamp { secs: reading.0, nanos: reading.1 }
    }

    /// Whether `self` is no later than `other`.
    pub fn is_at_or_before(&self, other: &Timestamp) -> (r: bool)
        ensures
            r == self.at_or_before(*other),
    {
        self.secs < other.secs || (self.secs == other.secs && self.nanos <= other.nanos)
    }
}

impl View for Timestamp {
    type V = Timestamp;

    open spec fn view(&self) -> Timestamp {
        *self
    }
}

impl Duplicate for Timestamp {
    fn duplicate(&self) -> (copy: Self) {
        *self
    }
}

/// Supported currencies.
#[derive(Debug, Clone, Copy, PartialEq, Eq, Hash, Structural)]
pub enum Currency {
    USD,
    EUR,
    GBP,
    BTC,
    ETH,
    Points,
    Credits,
    Custom(u32),
}

impl Currency {
    /// The currency that a code names: `USD`, `EUR`, `GBP`, `BTC` and `ETH`
    /// name theirs, every other code the credits.
    pub open spec fn of_code(code: Seq<char>) -> Currency {
        if code == "USD"@ {
            Currency::USD
        } else if code == "EUR"@ {
            Currency::EUR
        } else if code == "GBP"@ {
            Currency::GBP
        } else if code == "BTC"@ {
            Currency::BTC
        } else if code == "ETH"@ {
            Currency::ETH
        } else {
            Currency::Credits
        }
    }

    /// The currency that a code names.
    pub fn from_code(code: &str) -> (currency: Currency)
        ensures
            currency == Currency::of_code(code@),
    {
        if same_text(code, "USD") {
            Currency::USD
        } else if same_text(code, "EUR") {
            Currency::EUR
        } else if same_text(code, "GBP") {
            Currency::GBP
        } else if same_text(code, "BTC") {
            Currency::BTC
        } else if same_text(code, "ETH") {
            Currency::ETH
        } else {
            Currency::Credits
        }
    }
}

/// Financial balance: a signed amount in one currency.
#[derive(Debug, Clone, Copy, PartialEq, Eq, Structural)]
pub struct Balance {
    pub amount: i64,
    pub currency: Currency,
}

impl Balance {
    /// The balance of the given amount in the given currency.
    pub fn new(amount: i64, currency: Currency) -> (b: Self)
        ensures
            b.amount == amount,
            b.currency == currency,
    {
        Self { amount, currency }
    }

    /// The balance of nothing in the given currency.
    pub fn zero(currency: Currency) -> (b: Self)
        ensures
            b.amount == 0,
            b.currency == currency,
    {
        Self { amount: 0, currency }
    }
}

impl View for Balance {
    type V = Balance;

    open spec fn view(&self) -> Balance {
        *self
    }
}

impl Duplicate for Balance {
    fn duplicate(&self) -> (copy: Self) {
        *self
    }
}

/// Position of a session in a workflow.
#[derive(Debug, PartialEq, Eq, Hash)]
pub struct WorkflowStep {
    pub workflow_id: String,
    pub step_index: u32,
    pub step_name: String,
}

/// What a `WorkflowStep` stands for.
pub ghost struct WorkflowStepModel {
    pub workflow_id: Seq<char>,
    pub step_index: u32,
    pub step_name: Seq<char>,
}

impl View for WorkflowStep {
    type V = WorkflowStepModel;

    open spec fn view(&self) -> WorkflowStepModel {
        WorkflowStepModel {
            workflow_id: self.workflow_id@,
            step_index: self.step_index,
            step_name: self.step_name@,
        }
    }
}

impl Clone for WorkflowStep {
    fn clone(&self) -> (copy: Self)
        ensures
            copy@ == self@,
    {
        WorkflowStep {
            workflow_id: self.workflow_id.clone(),
            step_index: self.step_index,
            step_name: self.step_name.clone(),
        }
    }
}

impl Duplicate for WorkflowStep {
    fn duplicate(&self) -> (copy: Self) {
        self.clone()
    }
}

/// Severity levels for findings, in ascending order.
#[derive(Debug, Clone, Copy, PartialEq, Eq, PartialOrd, Ord, Hash, Structural)]
pub enum Severity {
    Info,
    Low,
    Medium,
    High,
    Critical,
}

impl Severity {
    /// The CVSS score range of this level, in tenths of a point.
    pub open spec fn cvss_tenths(self) -> (u32, u32) {
        match self {
            Severity::Info => (0, 0),
            Severity::Low => (1, 39),
            Severity::Medium => (40, 69),
            Severity::High => (70, 89),
            Severity::Critical => (90, 100),
        }
    }

    /// The CVSS score range of this level, in tenths of a point.
    pub fn cvss_range(&self) -> (range: (u32, u32))
        ensures
            range == self.cvss_tenths(),
    {
        match self {
            Severity::Info => (0, 0),
            Severity::Low => (1, 39),
            Severity::Medium => (40, 69),
            Severity::High => (70, 89),
            Severity::Critical => (90, 100),
        }
    }
}

/// Classification of findings.
#[derive(Debug, Clone, Copy, PartialEq, Eq, Hash, Structural)]
pub enum FindingClassification {
    Bug,
    Signal,
    NoIssue,
    CoverageGap,
}

/// Parts per million in a confidence of one.
pub const CONFIDENCE_SCALE: u32 = 1_000_000;

/// A confidence between zero and one, held in millionths.
#[derive(Debug, Clone, Copy, PartialEq, Eq, PartialOrd, Ord, Hash)]
pub struct Confidence {
    millionths: u32,
}

impl View for Confidence {
    type V = nat;

    closed spec fn view(&self) -> nat {
        self.millionths as nat
    }
}

impl Duplicate for Confidence {
    fn duplicate(&self) -> (copy: Self) {
        *self
    }
}

impl Confidence {
    #[verifier::type_invariant]
    spec fn in_range(&self) -> bool {
        self.millionths <= CONFIDENCE_SCALE
    }

    /// Confidence one.
    pub fn certain() -> (c: Self)
        ensures
            c@ == CONFIDENCE_SCALE,
    {
        Confidence { millionths: CONFIDENCE_SCALE }
    }

    /// Confidence zero.
    pub fn none() -> (c: Self)
        ensures
            c@ == 0,
    {
        Confidence { millionths: 0 }
    }

    /// The confidence of `value` millionths, if that is at most one.
    pub fn from_millionths(value: u32) -> (c: Option<Self>)
        ensures
            c is Some == (value <= CONFIDENCE_SCALE),
            c is Some ==> c->0@ == value,
    {
        if value <= CONFIDENCE_SCALE {
            Some(Confidence { millionths: value })
        } else {
            None
        }
    }

    /// The confidence of `value` hundredths, if that is at most one.
    pub fn from_percent(value: u8) -> (c: Option<Self>)
        ensures
            c is Some == (value <= 100),
            c is Some ==> c->0@ == value * 10_000,
    {
        if value <= 100 {
            let scaled: u32 = value as u32 * 10_000;
            Some(Confidence { millionths: scaled })
        } else {
            None
        }
    }

    /// The confidence in millionths.
    pub fn millionths(&self) -> (value: u32)
        ensures
            value == self@,
            value <= CONFIDENCE_SCALE,
    {
        proof {
            use_type_invariant(self);
        }
        self.millionths
    }

    /// The product of two confidences, rounded down to a millionth.
    pub fn combine(&self, other: &Confidence) -> (c: Self)
        ensures
            c@ == (self@ * other@) / (CONFIDENCE_SCALE as nat),
            c@ <= self@,
            c@ <= other@,
    {
        proof {
            use_type_invariant(self);
            use_type_invariant(other);
        }
        let a: u64 = self.millionths as u64;
        let b: u64 = other.millionths as u64;
        assert(a * b <= a * 1_000_000 && a * b <= 1_000_000 * b) by (nonlinear_arith)
            requires
                a <= 1_000_000,
                b <= 1_000_000,
        ;
        let product: u64 = a * b;
        let scaled: u64 = product / 1_000_000;
        assert(scaled <= a && scaled <= b) by (nonlinear_arith)
            requires
                product <= a * 1_000_000,
                product <= 1_000_000 * b,
                scaled == product / 1_000_000,
        ;
        Confidence { millionths: scaled as u32 }
    }
}

/// HTTP methods.
#[derive(Debug, Clone, Copy, PartialEq, Eq, Hash, Structural)]
pub enum HttpMethod {
    GET,
    POST,
    PUT,
    DELETE,
    PATCH,
    HEAD,
    OPTIONS,
    TRACE,
    CONNECT,
}

/// HTTP request representation.
#[derive(Debug)]
pub struct HttpRequest {
    pub method: HttpMethod,
    pub url: String,
    pub headers: SortedMap<String, String>,
    pub body: Option<Vec<u8>>,
    pub timestamp: Timestamp,
}

/// What an `HttpRequest` stands for.
pub ghost struct HttpRequestModel {
    pub method: HttpMethod,
    pub url: Seq<char>,
    pub headers: Map<Seq<char>, Seq<char>>,
    pub body: Option<Seq<u8>>,
    pub timestamp: Timestamp,
}

impl View for HttpRequest {
    type V = HttpRequestModel;

    open spec fn view(&self) -> HttpRequestModel {
        HttpRequestModel {
            method: self.method,
            url: self.url@,
            headers: self.headers@,
            body: view_of(self.body),
            timestamp: self.timestamp,
        }
    }
}

/// Copies a byte vector.
pub fn copy_bytes(bytes: &Vec<u8>) -> (copy: Vec<u8>)
    ensures
        copy@ == bytes@,
{
    let copy = bytes.clone();
    copy
}

impl Clone for HttpRequest {
    fn clone(&self) -> (copy: Self)
        ensures
            copy@ == self@,
    {
        let body = match &self.body {
            Some(b) => Some(copy_bytes(b)),
            None => None,
        };
        HttpRequest {
            method: self.method,
            url: self.url.clone(),
            headers: self.headers.clone(),
            body,
            timestamp: self.timestamp,
        }
    }
}

impl Duplicate for HttpRequest {
    fn duplicate(&self) -> (copy: Self) {
        self.clone()
    }
}

/// HTTP response representation.
#[derive(Debug)]
pub struct HttpResponse {
    pub status_code: u16,
    pub headers: SortedMap<String, String>,
    pub body: Vec<u8>,
    pub timestamp: Timestamp,
    pub duration_ms: u64,
}

/// What an `HttpResponse` stands for.
pub ghost struct HttpResponseModel {
    pub status_code: u16,
    pub headers: Map<Seq<char>, Seq<char>>,
    pub body: Seq<u8>,
    pub timestamp: Timestamp,
    pub duration_ms: u64,
}

impl View for HttpResponse {
    type V = HttpResponseModel;

    open spec fn view(&self) -> HttpResponseModel {
        HttpResponseModel {
            status_code: self.status_code,
            headers: self.headers@,
            body: self.body@,
            timestamp: self.timestamp,
            duration_ms: self.duration_ms,
        }
    }
}

impl Clone for HttpResponse {
    fn clone(&self) -> (copy: Self)
        ensures
            copy@ == self@,
    {
        HttpResponse {
            status_code: self.status_code,
            headers: self.headers.clone(),
            body: copy_bytes(&self.body),
            timestamp: self.timestamp,
            duration_ms: self.duration_ms,
        }
    }
}

/// Action timing information.
#[derive(Debug, Clone, Copy, PartialEq, Eq, Structural)]
pub struct ActionTiming {
    pub start_time: Timestamp,
    pub end_time: Timestamp,
    pub duration_ms: u64,
}

/// Token types.
#[derive(Debug, Clone, Copy, PartialEq, Eq, Hash, Structural)]
pub enum TokenType {
    Bearer,
    Basic,
    Cookie,
    ApiKey,
    JWT,
    OAuth2,
    Custom,
}

/// Authentication token.
#[derive(Debug)]
pub struct AuthToken {
    pub token_type: TokenType,
    pub value: String,
    pub user_id: Option<UserId>,
    pub roles: SortedSet<Role>,
    pub expires_at: Option<Timestamp>,
}

/// What an `AuthToken` stands for.
pub ghost struct AuthTokenModel {
    pub token_type: TokenType,
    pub value: Seq<char>,
    pub user_id: Option<Seq<char>>,
    pub roles: Set<Seq<char>>,
    pub expires_at: Option<Timestamp>,
}

impl View for AuthToken {
    type V = AuthTokenModel;

    open spec fn view(&self) -> AuthTokenModel {
        AuthTokenModel {
            token_type: self.token_type,
            value: self.value@,
            user_id: view_of(self.user_id),
            roles: self.roles@,
            expires_at: self.expires_at,
        }
    }
}

impl Clone for AuthToken {
    fn clone(&self) -> (copy: Self)
        ensures
            copy@ == self@,
    {
        let user_id = match &self.user_id {
            Some(u) => Some(u.clone()),
            None => None,
        };
        AuthToken {
            token_type: self.token_type,
            value: self.value.clone(),
            user_id,
            roles: self.roles.clone(),
            expires_at: self.expires_at,
        }
    }
}

impl Duplicate for AuthToken {
    fn duplicate(&self) -> (copy: Self) {
        self.clone()
    }
}

/// Network protocols.
#[derive(Debug, Clone, Copy, PartialEq, Eq, Hash, Structural)]
pub enum Protocol {
    HTTP,
    HTTPS,
    TCP,
    UDP,
    SSH,
    FTP,
    SMTP,
    DNS,
    WebSocket,
    Custom,
}

/// Service types.
#[derive(Debug, Clone, PartialEq, Eq, Hash)]
pub enum ServiceType {
    WebServer(String),
    Database(String),
    Cache(String),
    MessageQueue(String),
    API,
    SSH,
    FTP,
    Mail,
    DNS,
    Custom(String),
}

/// Service running on a target.
#[derive(Debug, Clone)]
pub struct Service {
    pub host: String,
    pub port: u16,
    pub protocol: Protocol,
    pub service_type: ServiceType,
    pub version: Option<String>,
    pub banner: Option<String>,
}

/// Technology stack profile.
#[derive(Debug, Clone)]
pub struct TechnologyProfile {
    pub web_server: Option<String>,
    pub application_framework: Option<String>,
    pub programming_language: Option<String>,
    pub database: Option<String>,
    pub cache: Option<String>,
    pub cdn: Option<String>,
    pub waf: Option<String>,
    pub cms: Option<String>,
    pub javascript_frameworks: Vec<String>,
    pub css_frameworks: Vec<String>,
    pub additional_technologies: SortedMap<String, String>,
}

impl Default for TechnologyProfile {
    fn default() -> (profile: Self)
        ensures
            profile.web_server is None,
            profile.application_framework is None,
            profile.programming_language is None,
            profile.database is None,
            profile.cache is None,
            profile.cdn is None,
            profile.waf is None,
            profile.cms is None,
            profile.javascript_frameworks@.len() == 0,
            profile.css_frameworks@.len() == 0,
            profile.additional_technologies@ == Map::<Seq<char>, Seq<char>>::empty(),
    {
        TechnologyProfile {
            web_server: None,
            application_framework: None,
            programming_language: None,
            database: None,
            cache: None,
            cdn: None,
            waf: None,
            cms: None,
            javascript_frameworks: Vec::new(),
            css_frameworks: Vec::new(),
            additional_technologies: SortedMap::new(),
        }
    }
}

/// Authentication types.
#[derive(Debug, Clone, Copy, PartialEq, Eq, Hash, Structural)]
pub enum AuthenticationType {
    FormBased,
    BasicAuth,
    OAuth2,
    JWT,
    SAML,
    APIKey,
    Certificate,
    NoAuthentication,
    Custom,
}

/// Authentication profile for a target.
#[derive(Debug, Clone)]
pub struct AuthenticationProfile {
    pub auth_type: AuthenticationType,
    pub login_url: Option<String>,
    pub logout_url: Option<String>,
    pub session_cookie_name: Option<String>,
    pub csrf_token_name: Option<String>,
    pub roles_discovered: Vec<Role>,
}

/// Target domain representation.
#[derive(Debug, Clone)]
pub struct Target {
    pub domain: String,
    pub subdomains: Vec<String>,
    pub services: Vec<Service>,
    pub technology_stack: TechnologyProfile,
    pub authentication: Option<AuthenticationProfile>,
}

/// A scalar value attached to an action or recorded for a changed field.
#[derive(Debug, PartialEq, Eq)]
pub enum JsonValue {
    Null,
    Bool(bool),
    Integer(i64),
    Text(String),
}

/// What a `JsonValue` stands for.
pub ghost enum JsonValueModel {
    Null,
    Bool(bool),
    Integer(i64),
    Text(Seq<char>),
}

impl View for JsonValue {
    type V = JsonValueModel;

    open spec fn view(&self) -> JsonValueModel {
        match self {
            JsonValue::Null => JsonValueModel::Null,
            JsonValue::Bool(b) => JsonValueModel::Bool(*b),
            JsonValue::Integer(n) => JsonValueModel::Integer(*n),
            JsonValue::Text(t) => JsonValueModel::Text(t@),
        }
    }
}

impl Clone for JsonValue {
    fn clone(&self) -> (copy: Self)
        ensures
            copy@ == self@,
    {
        match self {
            JsonValue::Null => JsonValue::Null,
            JsonValue::Bool(b) => JsonValue::Bool(*b),
            JsonValue::Integer(n) => JsonValue::Integer(*n),
            JsonValue::Text(t) => JsonValue::Text(t.clone()),
        }
    }
}

impl Duplicate for JsonValue {
    fn duplicate(&self) -> (copy: Self) {
        self.clone()
    }
}

} // verus!
