//! The canonical encoding of states and of the values that they hold.

use vstd::prelude::*;
use crate::canonical::{
    array_of, encode_bool, encode_bytes, encode_int, encode_list, encode_map, encode_set,
    encode_text, json_array, json_bool, json_int, json_object, json_text, list_json, map_json,
    member, member_of, object_of, set_json, bytes_json, Canonical,
};
use crate::collections::views;
use crate::state::{
    ApplicationState, AuthorizationEvent, AuthorizationEventModel, DataObject, DataObjectModel,
    FinancialTransaction, SessionModel, SessionState, StateModel, TransactionModel,
    TrustDecision, TrustDecisionModel, WorkflowCompletion, WorkflowCompletionModel,
};
use crate::types::{
    Balance, Currency, HttpMethod, HttpRequest, HttpRequestModel, HttpResponse,
    HttpResponseModel, Timestamp, UserId, WorkflowStep,
    WorkflowStepModel,
};

verus! {

/// The member of an optional field: present where the field is.
pub open spec fn optional_member(name: Seq<char>, value: Option<Seq<u8>>) -> Seq<Seq<u8>> {
    match value {
        Some(v) => seq![member(name, v)],
        None => Seq::empty(),
    }
}

/// The encoding of an instant.
pub open spec fn timestamp_json(t: Timestamp) -> Seq<u8> {
    json_object(seq![member("nanos"@, json_int(t.nanos as int)), member("secs"@, json_int(t.secs as int))])
}

impl Canonical for Timestamp {
    open spec fn canonical(model: Timestamp) -> Seq<u8> {
        timestamp_json(model)
    }

    fn encode(&self) -> (out: Vec<u8>) {
        let mut members: Vec<Vec<u8>> = Vec::new();
        members.push(member_of("nanos", encode_int(self.nanos as i128)));
        members.push(member_of("secs", encode_int(self.secs as i128)));
        assert(views(members@) =~= seq![
            member("nanos"@, json_int(self.nanos as int)),
            member("secs"@, json_int(self.secs as int)),
        ]);
        object_of(&members)
    }
}

/// The encoding of a currency: its tag, or the number of a custom one under
/// the tag `Custom`.
pub open spec fn currency_json(c: Currency) -> Seq<u8> {
    match c {
        Currency::USD => json_text("USD"@),
        Currency::EUR => json_text("EUR"@),
        Currency::GBP => json_text("GBP"@),
        Currency::BTC => json_text("BTC"@),
        Currency::ETH => json_text("ETH"@),
        Currency::Points => json_text("Points"@),
        Currency::Credits => json_text("Credits"@),
        Currency::Custom(n) => json_object(seq![member("Custom"@, json_int(n as int))]),
    }
}

/// Encodes a currency.
pub fn encode_currency(c: &Currency) -> (out: Vec<u8>)
    ensures
        out@ == currency_json(*c),
{
    match c {
        Currency::USD => encode_text("USD"),
        Currency::EUR => encode_text("EUR"),
        Currency::GBP => encode_text("GBP"),
        Currency::BTC => encode_text("BTC"),
        Currency::ETH => encode_text("ETH"),
        Currency::Points => encode_text("Points"),
        Currency::Credits => encode_text("Credits"),
        Currency::Custom(n) => {
            let mut members: Vec<Vec<u8>> = Vec::new();
            members.push(member_of("Custom", encode_int(*n as i128)));
            object_of(&members)
        },
    }
}

/// The encoding of a balance.
pub open spec fn balance_json(b: Balance) -> Seq<u8> {
    json_object(
        seq![member("amount"@, json_int(b.amount as int)), member("currency"@, currency_json(b.currency))],
    )
}

impl Canonical for Balance {
    open spec fn canonical(model: Balance) -> Seq<u8> {
        balance_json(model)
    }

    fn encode(&self) -> (out: Vec<u8>) {
        let mut members: Vec<Vec<u8>> = Vec::new();
        members.push(member_of("amount", encode_int(self.amount as i128)));
        members.push(member_of("currency", encode_currency(&self.currency)));
        assert(views(members@) =~= seq![
            member("amount"@, json_int(self.amount as int)),
            member("currency"@, currency_json(self.currency)),
        ]);
        object_of(&members)
    }
}

impl Canonical for UserId {
    open spec fn canonical(model: Seq<char>) -> Seq<u8> {
        json_text(model)
    }

    fn encode(&self) -> (out: Vec<u8>) {
        encode_text(self.0.as_str())
    }
}

/// The encoding of a workflow step.
pub open spec fn step_json(step: WorkflowStepModel) -> Seq<u8> {
    json_object(
        seq![
            member("step_index"@, json_int(step.step_index as int)),
            member("step_name"@, json_text(step.step_name)),
            member("workflow_id"@, json_text(step.workflow_id)),
        ],
    )
}

impl Canonical for WorkflowStep {
    open spec fn canonical(model: WorkflowStepModel) -> Seq<u8> {
        step_json(model)
    }

    fn encode(&self) -> (out: Vec<u8>) {
        let mut members: Vec<Vec<u8>> = Vec::new();
        members.push(member_of("step_index", encode_int(self.step_index as i128)));
        members.push(member_of("step_name", encode_text(self.step_name.as_str())));
        members.push(member_of("workflow_id", encode_text(self.workflow_id.as_str())));
        assert(views(members@) =~= seq![
            member("step_index"@, json_int(self.step_index as int)),
            member("step_name"@, json_text(self.step_name@)),
            member("workflow_id"@, json_text(self.workflow_id@)),
        ]);
        object_of(&members)
    }
}

/// The encoding of a session.
pub open spec fn session_json(session: SessionModel) -> Seq<u8> {
    json_object(
        seq![
            member("authenticated"@, json_bool(session.authenticated)),
            member("created_at"@, timestamp_json(session.created_at)),
            member("last_activity"@, timestamp_json(session.last_activity)),
            member("roles"@, set_json(session.roles)),
            member("session_id"@, json_text(session.session_id)),
            member("user_id"@, json_text(session.user_id)),
        ],
    )
}

impl Canonical for SessionState {
    open spec fn canonical(model: SessionModel) -> Seq<u8> {
        session_json(model)
    }

    fn encode(&self) -> (out: Vec<u8>) {
        let mut members: Vec<Vec<u8>> = Vec::new();
        members.push(member_of("authenticated", encode_bool(self.authenticated)));
        members.push(member_of("created_at", self.created_at.encode()));
        members.push(member_of("last_activity", self.last_activity.encode()));
        members.push(member_of("roles", encode_set(&self.roles)));
        members.push(member_of("session_id", encode_text(self.session_id.0.as_str())));
        members.push(member_of("user_id", encode_text(self.user_id.0.as_str())));
        assert(views(members@) =~= seq![
            member("authenticated"@, json_bool(self.authenticated)),
            member("created_at"@, timestamp_json(self.created_at)),
            member("last_activity"@, timestamp_json(self.last_activity)),
            member("roles"@, set_json(self.roles@)),
            member("session_id"@, json_text(self.session_id@)),
            member("user_id"@, json_text(self.user_id@)),
        ]);
        object_of(&members)
    }
}

/// The encoding of a data object.
pub open spec fn data_object_json(data: DataObjectModel) -> Seq<u8> {
    json_object(
        seq![
            member("content_hash"@, json_text(data.content_hash)),
            member("data_type"@, json_text(data.data_type)),
            member("id"@, json_text(data.id)),
            member("last_modified"@, timestamp_json(data.last_modified)),
            member("version"@, json_int(data.version as int)),
        ],
    )
}

impl Canonical for DataObject {
    open spec fn canonical(model: DataObjectModel) -> Seq<u8> {
        data_object_json(model)
    }

    fn encode(&self) -> (out: Vec<u8>) {
        let mut members: Vec<Vec<u8>> = Vec::new();
        members.push(member_of("content_hash", encode_text(self.content_hash.as_str())));
        members.push(member_of("data_type", encode_text(self.data_type.as_str())));
        members.push(member_of("id", encode_text(self.id.0.as_str())));
        members.push(member_of("last_modified", self.last_modified.encode()));
        members.push(member_of("version", encode_int(self.version as i128)));
        assert(views(members@) =~= seq![
            member("content_hash"@, json_text(self.content_hash@)),
            member("data_type"@, json_text(self.data_type@)),
            member("id"@, json_text(self.id@)),
            member("last_modified"@, timestamp_json(self.last_modified)),
            member("version"@, json_int(self.version as int)),
        ]);
        object_of(&members)
    }
}

/// The encoding of an optional text.
pub open spec fn optional_text(text: Option<Seq<char>>) -> Option<Seq<u8>> {
    match text {
        Some(t) => Some(json_text(t)),
        None => None,
    }
}

/// The encoding of an authorization event.
pub open spec fn event_json(event: AuthorizationEventModel) -> Seq<u8> {
    json_object(
        optional_member("authorized_by"@, optional_text(event.authorized_by)) + seq![
            member("event_type"@, json_text(event.event_type)),
        ] + optional_member("target_role"@, optional_text(event.target_role)) + seq![
            member("timestamp"@, timestamp_json(event.timestamp)),
            member("user_id"@, json_text(event.user_id)),
        ],
    )
}

impl Canonical for AuthorizationEvent {
    open spec fn canonical(model: AuthorizationEventModel) -> Seq<u8> {
        event_json(model)
    }

    fn encode(&self) -> (out: Vec<u8>) {
        let mut members: Vec<Vec<u8>> = Vec::new();
        match &self.authorized_by {
            Some(user) => {
                members.push(member_of("authorized_by", encode_text(user.0.as_str())));
            },
            None => {},
        }
        members.push(member_of("event_type", encode_text(self.event_type.as_str())));
        match &self.target_role {
            Some(role) => {
                members.push(member_of("target_role", encode_text(role.0.as_str())));
            },
            None => {},
        }
        members.push(member_of("timestamp", self.timestamp.encode()));
        members.push(member_of("user_id", encode_text(self.user_id.0.as_str())));
        assert(views(members@) =~= optional_member(
            "authorized_by"@,
            optional_text(self@.authorized_by),
        ) + seq![member("event_type"@, json_text(self@.event_type))] + optional_member(
            "target_role"@,
            optional_text(self@.target_role),
        ) + seq![
            member("timestamp"@, timestamp_json(self@.timestamp)),
            member("user_id"@, json_text(self@.user_id)),
        ]);
        object_of(&members)
    }
}

/// The encoding of a financial transaction.
pub open spec fn transaction_json(t: TransactionModel) -> Seq<u8> {
    json_object(
        seq![
            member("amount"@, json_int(t.amount as int)),
            member("currency"@, currency_json(t.currency)),
        ] + optional_member("from_account"@, optional_text(t.from_account)) + seq![
            member("id"@, json_text(t.id)),
            member("is_external"@, json_bool(t.is_external)),
            member("timestamp"@, timestamp_json(t.timestamp)),
        ] + optional_member("to_account"@, optional_text(t.to_account)),
    )
}

impl Canonical for FinancialTransaction {
    open spec fn canonical(model: TransactionModel) -> Seq<u8> {
        transaction_json(model)
    }

    fn encode(&self) -> (out: Vec<u8>) {
        let mut members: Vec<Vec<u8>> = Vec::new();
        members.push(member_of("amount", encode_int(self.amount as i128)));
        members.push(member_of("currency", encode_currency(&self.currency)));
        match &self.from_account {
            Some(account) => {
                members.push(member_of("from_account", encode_text(account.0.as_str())));
            },
            None => {},
        }
        members.push(member_of("id", encode_text(self.id.as_str())));
        members.push(member_of("is_external", encode_bool(self.is_external)));
        members.push(member_of("timestamp", self.timestamp.encode()));
        match &self.to_account {
            Some(account) => {
                members.push(member_of("to_account", encode_text(account.0.as_str())));
            },
            None => {},
        }
        assert(views(members@) =~= seq![
            member("amount"@, json_int(self@.amount as int)),
            member("currency"@, currency_json(self@.currency)),
        ] + optional_member("from_account"@, optional_text(self@.from_account)) + seq![
            member("id"@, json_text(self@.id)),
            member("is_external"@, json_bool(self@.is_external)),
            member("timestamp"@, timestamp_json(self@.timestamp)),
        ] + optional_member("to_account"@, optional_text(self@.to_account)));
        object_of(&members)
    }
}

/// The encoding of a trust decision.
pub open spec fn decision_json(decision: TrustDecisionModel) -> Seq<u8> {
    json_object(
        seq![
            member("based_on_client_input"@, json_bool(decision.based_on_client_input)),
            member("decision_type"@, json_text(decision.decision_type)),
            member("input_validated"@, json_bool(decision.input_validated)),
            member("timestamp"@, timestamp_json(decision.timestamp)),
        ],
    )
}

impl Canonical for TrustDecision {
    open spec fn canonical(model: TrustDecisionModel) -> Seq<u8> {
        decision_json(model)
    }

    fn encode(&self) -> (out: Vec<u8>) {
        let mut members: Vec<Vec<u8>> = Vec::new();
        members.push(member_of("based_on_client_input", encode_bool(self.based_on_client_input)));
        members.push(member_of("decision_type", encode_text(self.decision_type.as_str())));
        members.push(member_of("input_validated", encode_bool(self.input_validated)));
        members.push(member_of("timestamp", self.timestamp.encode()));
        assert(views(members@) =~= seq![
            member("based_on_client_input"@, json_bool(self.based_on_client_input)),
            member("decision_type"@, json_text(self.decision_type@)),
            member("input_validated"@, json_bool(self.input_validated)),
            member("timestamp"@, timestamp_json(self.timestamp)),
        ]);
        object_of(&members)
    }
}

/// The encoding of a list of step numbers.
pub open spec fn steps_json(steps: Seq<u32>) -> Seq<u8> {
    json_array(Seq::new(steps.len(), |i: int| json_int(steps[i] as int)))
}

/// Encodes a list of step numbers.
pub fn encode_steps(steps: &Vec<u32>) -> (out: Vec<u8>)
    ensures
        out@ == steps_json(steps@),
{
    let mut encoded: Vec<Vec<u8>> = Vec::new();
    let mut i: usize = 0;
    while i < steps.len()
        invariant
            i <= steps@.len(),
            encoded@.len() == i,
            forall|j: int| 0 <= j < i ==> #[trigger] encoded@[j]@ == json_int(steps@[j] as int),
        decreases steps@.len() - i,
    {
        encoded.push(encode_int(steps[i] as i128));
        i = i + 1;
    }
    assert(views(encoded@) =~= Seq::new(steps@.len(), |i: int| json_int(steps@[i] as int)));
    array_of(&encoded)
}

/// The encoding of a workflow completion.
pub open spec fn completion_json(completion: WorkflowCompletionModel) -> Seq<u8> {
    json_object(
        seq![
            member("all_steps_completed"@, json_bool(completion.all_steps_completed)),
            member("completed_steps"@, steps_json(completion.completed_steps)),
            member("is_critical"@, json_bool(completion.is_critical)),
            member("timestamp"@, timestamp_json(completion.timestamp)),
            member("workflow_id"@, json_text(completion.workflow_id)),
        ],
    )
}

impl Canonical for WorkflowCompletion {
    open spec fn canonical(model: WorkflowCompletionModel) -> Seq<u8> {
        completion_json(model)
    }

    fn encode(&self) -> (out: Vec<u8>) {
        let mut members: Vec<Vec<u8>> = Vec::new();
        members.push(member_of("all_steps_completed", encode_bool(self.all_steps_completed)));
        members.push(member_of("completed_steps", encode_steps(&self.completed_steps)));
        members.push(member_of("is_critical", encode_bool(self.is_critical)));
        members.push(member_of("timestamp", self.timestamp.encode()));
        members.push(member_of("workflow_id", encode_text(self.workflow_id.as_str())));
        assert(views(members@) =~= seq![
            member("all_steps_completed"@, json_bool(self.all_steps_completed)),
            member("completed_steps"@, steps_json(self.completed_steps@)),
            member("is_critical"@, json_bool(self.is_critical)),
            member("timestamp"@, timestamp_json(self.timestamp)),
            member("workflow_id"@, json_text(self.workflow_id@)),
        ]);
        object_of(&members)
    }
}

/// The encoding of an optional session.
pub open spec fn optional_session(session: Option<SessionModel>) -> Option<Seq<u8>> {
    match session {
        Some(s) => Some(session_json(s)),
        None => None,
    }
}

/// The encoding of an optional instant.
pub open spec fn optional_timestamp(t: Option<Timestamp>) -> Option<Seq<u8>> {
    match t {
        Some(t) => Some(timestamp_json(t)),
        None => None,
    }
}

/// The members `members` followed by the member of an optional field,
/// where the field is present.
pub open spec fn with_optional(members: Seq<Seq<u8>>, name: Seq<char>, value: Option<Seq<u8>>) -> Seq<
    Seq<u8>,
> {
    match value {
        Some(v) => members.push(member(name, v)),
        None => members,
    }
}

/// Appends a member to the members of an object.
pub fn push_member(members: &mut Vec<Vec<u8>>, name: &str, value: Vec<u8>)
    ensures
        views(final(members)@) == views(old(members)@).push(member(name@, value@)),
{
    members.push(member_of(name, value));
}

/// The members of the object that encodes a state, in ascending order of
/// their names; the session and the timestamp only where present.
pub open spec fn state_members(state: StateModel) -> Seq<Seq<u8>> {
    let members = Seq::<Seq<u8>>::empty().push(
        member("authorization_events"@, list_json::<AuthorizationEvent>(state.authorization_events)),
    ).push(member("balances"@, map_json::<Balance>(state.balances)));
    let members = with_optional(
        members,
        "current_session"@,
        optional_session(state.current_session),
    );
    let members = members.push(
        member("data_objects"@, map_json::<DataObject>(state.data_objects)),
    ).push(
        member(
            "financial_transactions"@,
            list_json::<FinancialTransaction>(state.financial_transactions),
        ),
    ).push(member("overdraft_permissions"@, set_json(state.overdraft_permissions))).push(
        member("ownership"@, map_json::<UserId>(state.ownership)),
    );
    let members = with_optional(members, "timestamp"@, optional_timestamp(state.timestamp));
    members.push(member("trust_decisions"@, list_json::<TrustDecision>(state.trust_decisions))).push(
        member("workflow_completions"@, list_json::<WorkflowCompletion>(state.workflow_completions)),
    ).push(member("workflow_positions"@, map_json::<WorkflowStep>(state.workflow_positions)))
}

/// The canonical encoding of a state.
pub open spec fn state_json(state: StateModel) -> Seq<u8> {
    json_object(state_members(state))
}

impl Canonical for ApplicationState {
    open spec fn canonical(model: StateModel) -> Seq<u8> {
        state_json(model)
    }

    fn encode(&self) -> (out: Vec<u8>) {
        let mut members: Vec<Vec<u8>> = Vec::new();
        assert(views(members@) =~= Seq::<Seq<u8>>::empty());
        push_member(&mut members, "authorization_events", encode_list(&self.authorization_events));
        push_member(&mut members, "balances", encode_map(&self.balances));
        match &self.current_session {
            Some(session) => {
                push_member(&mut members, "current_session", session.encode());
            },
            None => {},
        }
        push_member(&mut members, "data_objects", encode_map(&self.data_objects));
        push_member(
            &mut members,
            "financial_transactions",
            encode_list(&self.financial_transactions),
        );
        push_member(&mut members, "overdraft_permissions", encode_set(&self.overdraft_permissions));
        push_member(&mut members, "ownership", encode_map(&self.ownership));
        match &self.timestamp {
            Some(timestamp) => {
                push_member(&mut members, "timestamp", timestamp.encode());
            },
            None => {},
        }
        push_member(&mut members, "trust_decisions", encode_list(&self.trust_decisions));
        push_member(&mut members, "workflow_completions", encode_list(&self.workflow_completions));
        push_member(&mut members, "workflow_positions", encode_map(&self.workflow_positions));
        object_of(&members)
    }
}

/// The tag of an HTTP method.
pub open spec fn method_tag(method: HttpMethod) -> Seq<char> {
    match method {
        HttpMethod::GET => "GET"@,
        HttpMethod::POST => "POST"@,
        HttpMethod::PUT => "PUT"@,
        HttpMethod::DELETE => "DELETE"@,
        HttpMethod::PATCH => "PATCH"@,
        HttpMethod::HEAD => "HEAD"@,
        HttpMethod::OPTIONS => "OPTIONS"@,
        HttpMethod::TRACE => "TRACE"@,
        HttpMethod::CONNECT => "CONNECT"@,
    }
}

/// The tag of an HTTP method.
pub fn method_name(method: &HttpMethod) -> (tag: &'static str)
    ensures
        tag@ == method_tag(*method),
{
    match method {
        HttpMethod::GET => "GET",
        HttpMethod::POST => "POST",
        HttpMethod::PUT => "PUT",
        HttpMethod::DELETE => "DELETE",
        HttpMethod::PATCH => "PATCH",
        HttpMethod::HEAD => "HEAD",
        HttpMethod::OPTIONS => "OPTIONS",
        HttpMethod::TRACE => "TRACE",
        HttpMethod::CONNECT => "CONNECT",
    }
}

/// The encoding of an optional byte string.
pub open spec fn optional_bytes(bytes: Option<Seq<u8>>) -> Option<Seq<u8>> {
    match bytes {
        Some(b) => Some(bytes_json(b)),
        None => None,
    }
}

/// The encoding of an HTTP request.
pub open spec fn request_json(request: HttpRequestModel) -> Seq<u8> {
    json_object(
        optional_member("body"@, optional_bytes(request.body)) + seq![
            member("headers"@, map_json::<String>(request.headers)),
            member("method"@, json_text(method_tag(request.method))),
            member("timestamp"@, timestamp_json(request.timestamp)),
            member("url"@, json_text(request.url)),
        ],
    )
}

impl Canonical for HttpRequest {
    open spec fn canonical(model: HttpRequestModel) -> Seq<u8> {
        request_json(model)
    }

    fn encode(&self) -> (out: Vec<u8>) {
        let mut members: Vec<Vec<u8>> = Vec::new();
        match &self.body {
            Some(body) => {
                members.push(member_of("body", encode_bytes(body)));
            },
            None => {},
        }
        members.push(member_of("headers", encode_map(&self.headers)));
        members.push(member_of("method", encode_text(method_name(&self.method))));
        members.push(member_of("timestamp", self.timestamp.encode()));
        members.push(member_of("url", encode_text(self.url.as_str())));
        assert(views(members@) =~= optional_member("body"@, optional_bytes(self@.body)) + seq![
            member("headers"@, map_json::<String>(self@.headers)),
            member("method"@, json_text(method_tag(self@.method))),
            member("timestamp"@, timestamp_json(self@.timestamp)),
            member("url"@, json_text(self@.url)),
        ]);
        object_of(&members)
    }
}

/// The encoding of an HTTP response.
pub open spec fn response_json(response: HttpResponseModel) -> Seq<u8> {
    json_object(
        seq![
            member("body"@, bytes_json(response.body)),
            member("duration_ms"@, json_int(response.duration_ms as int)),
            member("headers"@, map_json::<String>(response.headers)),
            member("status_code"@, json_int(response.status_code as int)),
            member("timestamp"@, timestamp_json(response.timestamp)),
        ],
    )
}

impl Canonical for HttpResponse {
    open spec fn canonical(model: HttpResponseModel) -> Seq<u8> {
        response_json(model)
    }

    fn encode(&self) -> (out: Vec<u8>) {
        let mut members: Vec<Vec<u8>> = Vec::new();
        members.push(member_of("body", encode_bytes(&self.body)));
        members.push(member_of("duration_ms", encode_int(self.duration_ms as i128)));
        members.push(member_of("headers", encode_map(&self.headers)));
        members.push(member_of("status_code", encode_int(self.status_code as i128)));
        members.push(member_of("timestamp", self.timestamp.encode()));
        assert(views(members@) =~= seq![
            member("body"@, bytes_json(self@.body)),
            member("duration_ms"@, json_int(self@.duration_ms as int)),
            member("headers"@, map_json::<String>(self@.headers)),
            member("status_code"@, json_int(self@.status_code as int)),
            member("timestamp"@, timestamp_json(self@.timestamp)),
        ]);
        object_of(&members)
    }
}

} // verus!
