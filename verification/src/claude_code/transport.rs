//! What is sent for a request, and what a streamed response becomes.
use crate::api::{
    header_from, header_text, item_id, item_name, ApiError, ApiErrorModel, HttpHeader, Provider, ResponseEvent,
    ResponseEventModel,
};
use crate::claude_code::names::{in_title, spell_title};
use crate::claude_code::replay::{
    carried_over, decision, encode_thinking_replay, envelope_json, ReplayDecisionModel, ReplayErrorModel,
    ThinkingReplayBlock, ThinkingReplayBlockModel, PREFIX,
};
use crate::claude_code::stream::{
    feed_step, session_closed, session_end, signed, to_signed, BlockState, BlockStateModel, DecodeError,
    DecodeErrorModel, IncrementalDecoder, PendingBlock, PendingBlockModel, ResponseStateModel, Session,
    SessionModel,
};
use crate::claude_code::types::{
    AssembledRequest, AssembledRequestModel, DecodedBlock, DecodedBlockModel, DecodedStream, DecodedStreamModel,
    PresentationDelta, PresentationDeltaModel,
};
use crate::fields::{put, StringMap};
use crate::json::{canonical, holds, json_print, nesting, print_json};
use crate::model::{no_items, outcome, push_item, Duplicate};
use crate::protocol::{
    ContentItem, ContentItemModel, InferenceDialect, ReasoningItemContent, ReasoningItemContentModel,
    ResponseItem, ResponseItemModel, TerminalOutcome,
};
use crate::text::{concat, decimal, decimal_text};
use vstd::prelude::*;
use vstd::string::*;

verus! {

/// Why a native stream failed.
#[derive(Debug, Clone, PartialEq, Eq)]
pub enum NativeStreamError {
    /// The request failed.
    Request(ApiError),
    /// The caller gave up.
    Cancelled,
    /// Nothing came for too long.
    IdleTimeout,
    /// The connection broke.
    Transport(String),
    /// The stream cannot be decoded.
    Decode(DecodeError),
    /// The request cannot be sent.
    InvalidRequest(String),
    /// The response ended in a way that commits nothing.
    UnsuccessfulTerminal(TerminalOutcome),
}

/// The model of [`NativeStreamError`].
#[verifier::ext_equal]
pub enum NativeStreamErrorModel {
    Request(ApiErrorModel),
    Cancelled,
    IdleTimeout,
    Transport(Seq<char>),
    Decode(DecodeErrorModel),
    InvalidRequest(Seq<char>),
    UnsuccessfulTerminal(TerminalOutcome),
}

impl DeepView for NativeStreamError {
    type V = NativeStreamErrorModel;

    open spec fn deep_view(&self) -> NativeStreamErrorModel {
        match self {
            NativeStreamError::Request(inner) => NativeStreamErrorModel::Request(inner.deep_view()),
            NativeStreamError::Cancelled => NativeStreamErrorModel::Cancelled,
            NativeStreamError::IdleTimeout => NativeStreamErrorModel::IdleTimeout,
            NativeStreamError::Transport(inner) => NativeStreamErrorModel::Transport(inner.deep_view()),
            NativeStreamError::Decode(inner) => NativeStreamErrorModel::Decode(inner.deep_view()),
            NativeStreamError::InvalidRequest(inner) => NativeStreamErrorModel::InvalidRequest(inner.deep_view()),
            NativeStreamError::UnsuccessfulTerminal(inner) => {
                NativeStreamErrorModel::UnsuccessfulTerminal(inner.deep_view())
            },
        }
    }
}

impl Duplicate for NativeStreamError {
    fn duplicate(&self) -> (copy: Self) {
        match self {
            NativeStreamError::Request(inner) => NativeStreamError::Request(inner.duplicate()),
            NativeStreamError::Cancelled => NativeStreamError::Cancelled,
            NativeStreamError::IdleTimeout => NativeStreamError::IdleTimeout,
            NativeStreamError::Transport(inner) => NativeStreamError::Transport(inner.duplicate()),
            NativeStreamError::Decode(inner) => NativeStreamError::Decode(inner.duplicate()),
            NativeStreamError::InvalidRequest(inner) => NativeStreamError::InvalidRequest(inner.duplicate()),
            NativeStreamError::UnsuccessfulTerminal(inner) => {
                NativeStreamError::UnsuccessfulTerminal(inner.duplicate())
            },
        }
    }
}

/// What happens on the connection.
#[derive(Debug, Clone, PartialEq, Eq)]
pub enum StreamInput {
    /// Bytes came.
    Bytes(Vec<u8>),
    /// The connection ended.
    Ended,
    /// The connection broke.
    Failed(String),
    /// Nothing came for too long.
    Idle,
    /// The caller gave up.
    Cancelled,
}

/// The model of [`StreamInput`].
#[verifier::ext_equal]
pub enum StreamInputModel {
    Bytes(Seq<u8>),
    Ended,
    Failed(Seq<char>),
    Idle,
    Cancelled,
}

impl DeepView for StreamInput {
    type V = StreamInputModel;

    open spec fn deep_view(&self) -> StreamInputModel {
        match self {
            StreamInput::Bytes(inner) => StreamInputModel::Bytes(inner.deep_view()),
            StreamInput::Ended => StreamInputModel::Ended,
            StreamInput::Failed(inner) => StreamInputModel::Failed(inner.deep_view()),
            StreamInput::Idle => StreamInputModel::Idle,
            StreamInput::Cancelled => StreamInputModel::Cancelled,
        }
    }
}

impl Duplicate for StreamInput {
    fn duplicate(&self) -> (copy: Self) {
        match self {
            StreamInput::Bytes(inner) => StreamInput::Bytes(inner.duplicate()),
            StreamInput::Ended => StreamInput::Ended,
            StreamInput::Failed(inner) => StreamInput::Failed(inner.duplicate()),
            StreamInput::Idle => StreamInput::Idle,
            StreamInput::Cancelled => StreamInput::Cancelled,
        }
    }
}

/// What the caller is told.
#[derive(Debug, Clone, PartialEq, Eq)]
pub enum StreamItem {
    /// An event of the response.
    Event(ResponseEvent),
    /// The stream failed.
    Failure(NativeStreamError),
}

/// The model of [`StreamItem`].
#[verifier::ext_equal]
pub enum StreamItemModel {
    Event(ResponseEventModel),
    Failure(NativeStreamErrorModel),
}

impl DeepView for StreamItem {
    type V = StreamItemModel;

    open spec fn deep_view(&self) -> StreamItemModel {
        match self {
            StreamItem::Event(inner) => StreamItemModel::Event(inner.deep_view()),
            StreamItem::Failure(inner) => StreamItemModel::Failure(inner.deep_view()),
        }
    }
}

impl Duplicate for StreamItem {
    fn duplicate(&self) -> (copy: Self) {
        match self {
            StreamItem::Event(inner) => StreamItem::Event(inner.duplicate()),
            StreamItem::Failure(inner) => StreamItem::Failure(inner.duplicate()),
        }
    }
}

/// A stream in progress: its decoder, and the blocks that were announced.
#[derive(Debug, Clone, PartialEq, Eq)]
pub struct StreamDriver {
    pub session: Session,
    pub started: Vec<usize>,
}

/// The model of [`StreamDriver`].
#[verifier::ext_equal]
pub struct StreamDriverModel {
    pub session: SessionModel,
    pub started: Seq<usize>,
}

impl DeepView for StreamDriver {
    type V = StreamDriverModel;

    open spec fn deep_view(&self) -> StreamDriverModel {
        StreamDriverModel {
            session: self.session.deep_view(),
            started: self.started.deep_view(),
        }
    }
}

impl Duplicate for StreamDriver {
    fn duplicate(&self) -> (copy: Self) {
        StreamDriver {
            session: self.session.duplicate(),
            started: self.started.duplicate(),
        }
    }
}

/// What is told after something happened, and the stream where it goes on.
#[derive(Debug, Clone, PartialEq, Eq)]
pub struct StreamStep {
    pub items: Vec<StreamItem>,
    pub next: Option<StreamDriver>,
}

/// The model of [`StreamStep`].
#[verifier::ext_equal]
pub struct StreamStepModel {
    pub items: Seq<StreamItemModel>,
    pub next: Option<StreamDriverModel>,
}

impl DeepView for StreamStep {
    type V = StreamStepModel;

    open spec fn deep_view(&self) -> StreamStepModel {
        StreamStepModel {
            items: self.items.deep_view(),
            next: self.next.deep_view(),
        }
    }
}

impl Duplicate for StreamStep {
    fn duplicate(&self) -> (copy: Self) {
        StreamStep {
            items: self.items.duplicate(),
            next: self.next.duplicate(),
        }
    }
}

impl NativeStreamErrorModel {
    /// The message of the error.
    pub open spec fn text(self) -> Seq<char> {
        match self {
            NativeStreamErrorModel::Request(error) => in_title("native "@, " request failed: "@) + error.text(),
            NativeStreamErrorModel::Cancelled => in_title("native "@, " stream was cancelled"@),
            NativeStreamErrorModel::IdleTimeout => in_title("native "@, " stream was idle past its deadline"@),
            NativeStreamErrorModel::Transport(message) => in_title("native "@, " transport failed: "@) + message,
            NativeStreamErrorModel::Decode(error) => error.text(),
            NativeStreamErrorModel::InvalidRequest(message) => in_title("invalid native "@, " request metadata: "@) + message,
            NativeStreamErrorModel::UnsuccessfulTerminal(end) => match end {
                TerminalOutcome::OutputExhausted => in_title("native "@, " output was exhausted"@),
                TerminalOutcome::Refusal => in_title("native "@, " response was refused"@),
                _ => in_title("native "@, " response was not successful"@),
            },
        }
    }
}

impl NativeStreamError {
    /// The message of the error.
    pub fn message(&self) -> (message: String)
        ensures
            message@ == self.deep_view().text(),
    {
        match self {
            NativeStreamError::Request(error) => concat(&spell_title("native ", " request failed: "), &error.message()),
            NativeStreamError::Cancelled => spell_title("native ", " stream was cancelled"),
            NativeStreamError::IdleTimeout => spell_title("native ", " stream was idle past its deadline"),
            NativeStreamError::Transport(message) => concat(&spell_title("native ", " transport failed: "), message),
            NativeStreamError::Decode(error) => error.message(),
            NativeStreamError::InvalidRequest(message) => {
                concat(&spell_title("invalid native ", " request metadata: "), message)
            },
            NativeStreamError::UnsuccessfulTerminal(end) => match end {
                TerminalOutcome::OutputExhausted => spell_title("native ", " output was exhausted"),
                TerminalOutcome::Refusal => spell_title("native ", " response was refused"),
                _ => spell_title("native ", " response was not successful"),
            },
        }
    }
}

// ---- adapter ----

/// A client of a provider: its transport, how the provider is reached, and who
/// asks. The telemetry hears of its requests.
pub struct ClaudeHttpAdapter<T, A, R> {
    pub transport: T,
    pub provider: Provider,
    pub auth: A,
    pub telemetry: Option<R>,
}

impl<T, A, R> ClaudeHttpAdapter<T, A, R> {
    /// A client that nothing listens to.
    pub fn new(transport: T, provider: Provider, auth: A) -> (adapter: Self)
        ensures
            adapter.transport == transport,
            adapter.provider == provider,
            adapter.auth == auth,
            adapter.telemetry is None,
    {
        ClaudeHttpAdapter { transport, provider, auth, telemetry: None }
    }

    /// The client with this telemetry in place of its own.
    pub fn with_telemetry(self, telemetry: Option<R>) -> (adapter: Self)
        ensures
            adapter.transport == self.transport,
            adapter.provider == self.provider,
            adapter.auth == self.auth,
            adapter.telemetry == telemetry,
    {
        ClaudeHttpAdapter { transport: self.transport, provider: self.provider, auth: self.auth, telemetry }
    }
}

// ---- request ----

/// A query from `at` on behind what is done.
pub open spec fn query_from(query: Seq<(Seq<char>, Seq<char>)>, at: int, done: Seq<char>) -> Seq<char>
    decreases query.len() - at,
{
    if at < 0 || at >= query.len() {
        done
    } else {
        query_from(
            query,
            at + 1,
            done + if at == 0 {
                "?"@
            } else {
                "&"@
            } + query[at].0 + "="@ + query[at].1,
        )
    }
}

/// The path of a request with its query.
pub open spec fn path_with_query(request: AssembledRequestModel) -> Seq<char> {
    query_from(request.transport.query, 0, request.transport.path)
}

/// The path of a request with its query.
pub fn request_path(request: &AssembledRequest) -> (path: String)
    ensures
        path@ == path_with_query(request.deep_view()),
{
    let query = &request.transport.query;
    let mut path: String = request.transport.path.to_owned();
    let mut i: usize = 0;
    while i < query.len()
        invariant
            i <= query.deep_view().len(),
            query.deep_view() == request.deep_view().transport.query,
            path_with_query(request.deep_view()) == query_from(query.deep_view(), i as int, path@),
        decreases query.deep_view().len() - i,
    {
        let entry = query.entry(i);
        let separator = if i == 0 {
            "?"
        } else {
            "&"
        };
        path.append(separator);
        path.append(entry.0.as_str());
        path.append("=");
        path.append(entry.1.as_str());
        i += 1;
    }
    path
}

/// The header name that `http::HeaderName` makes of a text, or why it is none.
pub uninterp spec fn header_name_of(name: Seq<char>) -> Result<Seq<char>, Seq<char>>;

/// Why `http::HeaderValue` refuses a text, or nothing where it takes it.
pub uninterp spec fn header_value_refusal(value: Seq<char>) -> Option<Seq<char>>;

/// `http::HeaderName::try_from`: the name as it stands on the wire, or the
/// message of the error; a function of the text alone.
#[verifier::external_body]
fn header_name(name: &str) -> (known: Result<String, String>)
    ensures
        outcome(known) == header_name_of(name@),
{
    match http::HeaderName::try_from(name) {
        Ok(name) => Ok(name.as_str().to_owned()),
        Err(error) => Err(error.to_string()),
    }
}

/// `http::HeaderValue::try_from`: the message of the error for a text that
/// cannot be the value of a header; a function of the text alone.
#[verifier::external_body]
fn check_header_value(value: &str) -> (refusal: Option<String>)
    ensures
        refusal.deep_view() == header_value_refusal(value@),
{
    http::HeaderValue::try_from(value).err().map(|error| error.to_string())
}

/// The headers from `at` on put beside those that are done, or the first that
/// cannot be sent.
pub open spec fn headers_from(
    headers: Seq<(Seq<char>, Seq<char>)>,
    at: int,
    done: Seq<(Seq<char>, Seq<char>)>,
) -> Result<Seq<(Seq<char>, Seq<char>)>, NativeStreamErrorModel>
    decreases headers.len() - at,
{
    if at < 0 || at >= headers.len() {
        Ok(done)
    } else {
        match header_name_of(headers[at].0) {
            Err(message) => Err(NativeStreamErrorModel::InvalidRequest(message)),
            Ok(name) => match header_value_refusal(headers[at].1) {
                Some(message) => Err(NativeStreamErrorModel::InvalidRequest(message)),
                None => headers_from(headers, at + 1, put(done, name, headers[at].1)),
            },
        }
    }
}

/// The headers of a request as they are sent, by their names in small letters.
pub fn request_headers(request: &AssembledRequest) -> (headers: Result<StringMap<String>, NativeStreamError>)
    ensures
        outcome(headers) == headers_from(request.deep_view().transport.headers, 0, Seq::empty()),
{
    let given = &request.transport.headers;
    let mut headers: StringMap<String> = StringMap::new();
    let mut i: usize = 0;
    while i < given.len()
        invariant
            i <= given.deep_view().len(),
            given.deep_view() == request.deep_view().transport.headers,
            headers_from(given.deep_view(), 0, Seq::empty()) == headers_from(
                given.deep_view(),
                i as int,
                headers.deep_view(),
            ),
        decreases given.deep_view().len() - i,
    {
        let entry = given.entry(i);
        let name = match header_name(&entry.0) {
            Err(message) => {
                return Err(NativeStreamError::InvalidRequest(message));
            },
            Ok(name) => name,
        };
        if let Some(message) = check_header_value(&entry.1) {
            return Err(NativeStreamError::InvalidRequest(message));
        }
        headers.insert(name, entry.1.duplicate());
        i += 1;
    }
    Ok(headers)
}

/// The name under which the other side knows a response.
pub fn request_id(headers: &Vec<HttpHeader>) -> (id: Option<String>)
    ensures
        id.deep_view() == header_from(headers.deep_view(), "x-request-id"@, 0),
{
    header_text(headers, "x-request-id")
}

// ---- presentation ----

/// The name of the item for a block.
pub open spec fn block_item(prefix: Seq<char>, index: usize) -> Seq<char> {
    item_name(prefix, "claude_"@ + decimal(index as nat))
}

fn block_item_id(prefix: &str, index: usize) -> (id: String)
    ensures
        id@ == block_item(prefix@, index),
{
    item_id(prefix, &concat("claude_", &decimal_text(index as u64)))
}

/// The block that a delta belongs to.
pub open spec fn delta_place(delta: PresentationDeltaModel) -> usize {
    match delta {
        PresentationDeltaModel::Text { index, .. } => index,
        PresentationDeltaModel::Thinking { index, .. } => index,
        PresentationDeltaModel::ToolInput { index, .. } => index,
    }
}

/// The block that a delta belongs to.
pub fn delta_index(delta: &PresentationDelta) -> (index: usize)
    ensures
        index == delta_place(delta.deep_view()),
{
    match delta {
        PresentationDelta::Text { index, .. } => *index,
        PresentationDelta::Thinking { index, .. } => *index,
        PresentationDelta::ToolInput { index, .. } => *index,
    }
}

/// The number and the name of the tool call that a block is; none for another.
pub open spec fn tool_identity(blocks: Seq<BlockStateModel>, index: usize) -> (Seq<char>, Seq<char>) {
    if index < blocks.len() {
        match blocks[index as int].block {
            PendingBlockModel::ToolUse { id, name, .. } => (id, name),
            _ => (Seq::empty(), Seq::empty()),
        }
    } else {
        (Seq::empty(), Seq::empty())
    }
}

fn find_identity(blocks: &Vec<BlockState>, index: usize) -> (identity: (String, String))
    ensures
        identity.deep_view() == tool_identity(blocks.deep_view(), index),
{
    if index < blocks.len() {
        assert(blocks.deep_view()[index as int] == blocks@[index as int].deep_view());
        if let PendingBlock::ToolUse { id, name, .. } = &blocks[index].block {
            return (id.duplicate(), name.duplicate());
        }
    }
    (String::new(), String::new())
}

/// The event for a delta.
pub open spec fn delta_event(delta: PresentationDeltaModel, identity: (Seq<char>, Seq<char>)) -> ResponseEventModel {
    match delta {
        PresentationDeltaModel::Text { index, delta } => ResponseEventModel::OutputTextDelta {
            item_id: Some(block_item("msg"@, index)),
            delta,
        },
        PresentationDeltaModel::Thinking { index, delta } => ResponseEventModel::ReasoningContentDelta {
            item_id: Some(block_item("rs"@, index)),
            delta,
            content_index: signed(index as u64),
        },
        PresentationDeltaModel::ToolInput { index, delta } => ResponseEventModel::ToolCallInputDelta {
            item_id: block_item("fc"@, index),
            call_id: Some(identity.0),
            delta,
        },
    }
}

/// The event that announces the item of a delta.
pub open spec fn announcement(delta: PresentationDeltaModel, identity: (Seq<char>, Seq<char>)) -> ResponseEventModel {
    ResponseEventModel::OutputItemAdded(
        match delta {
            PresentationDeltaModel::Text { index, .. } => ResponseItemModel::Message {
                id: Some(block_item("msg"@, index)),
                role: "assistant"@,
                content: Seq::empty(),
            },
            PresentationDeltaModel::Thinking { index, .. } => ResponseItemModel::Reasoning {
                id: Some(block_item("rs"@, index)),
                summary: Seq::empty(),
                content: Some(Seq::empty()),
                encrypted_content: None,
            },
            PresentationDeltaModel::ToolInput { index, .. } => ResponseItemModel::FunctionCall {
                id: Some(block_item("fc"@, index)),
                name: identity.1,
                namespace: None,
                arguments: Seq::empty(),
                call_id: identity.0,
            },
        },
    )
}

/// The event for a delta.
pub fn presentation_event(delta: PresentationDelta, identity: &(String, String)) -> (event: ResponseEvent)
    ensures
        event.deep_view() == delta_event(delta.deep_view(), identity.deep_view()),
{
    match delta {
        PresentationDelta::Text { index, delta } => ResponseEvent::OutputTextDelta {
            item_id: Some(block_item_id("msg", index)),
            delta,
        },
        PresentationDelta::Thinking { index, delta } => ResponseEvent::ReasoningContentDelta {
            item_id: Some(block_item_id("rs", index)),
            delta,
            content_index: to_signed(index as u64),
        },
        PresentationDelta::ToolInput { index, delta } => ResponseEvent::ToolCallInputDelta {
            item_id: block_item_id("fc", index),
            call_id: Some(identity.0.duplicate()),
            delta,
        },
    }
}

/// The event that announces the item of a delta.
pub fn added_event(delta: &PresentationDelta, identity: &(String, String)) -> (event: ResponseEvent)
    ensures
        event.deep_view() == announcement(delta.deep_view(), identity.deep_view()),
{
    let item = match delta {
        PresentationDelta::Text { index, .. } => ResponseItem::Message {
            id: Some(block_item_id("msg", *index)),
            role: "assistant".to_owned(),
            content: no_items(),
        },
        PresentationDelta::Thinking { index, .. } => ResponseItem::Reasoning {
            id: Some(block_item_id("rs", *index)),
            summary: no_items(),
            content: Some(no_items()),
            encrypted_content: None,
        },
        PresentationDelta::ToolInput { index, .. } => ResponseItem::FunctionCall {
            id: Some(block_item_id("fc", *index)),
            name: identity.1.duplicate(),
            namespace: None,
            arguments: String::new(),
            call_id: identity.0.duplicate(),
        },
    };
    ResponseEvent::OutputItemAdded(item)
}

/// The announced blocks, and what the caller is told.
pub type Told = (Seq<usize>, Seq<StreamItemModel>);

/// What the deltas from `at` on tell: the first of a block announces its item.
pub open spec fn told_from(
    started: Seq<usize>,
    blocks: Seq<BlockStateModel>,
    deltas: Seq<PresentationDeltaModel>,
    at: int,
    done: Seq<StreamItemModel>,
) -> Told
    decreases deltas.len() - at,
{
    if at < 0 || at >= deltas.len() {
        (started, done)
    } else {
        let index = delta_place(deltas[at]);
        let identity = tool_identity(blocks, index);
        let event = StreamItemModel::Event(delta_event(deltas[at], identity));
        if started.contains(index) {
            told_from(started, blocks, deltas, at + 1, done.push(event))
        } else {
            told_from(
                started.push(index),
                blocks,
                deltas,
                at + 1,
                done.push(StreamItemModel::Event(announcement(deltas[at], identity))).push(event),
            )
        }
    }
}

fn has_started(started: &Vec<usize>, index: usize) -> (found: bool)
    ensures
        found == started.deep_view().contains(index),
{
    let mut i: usize = 0;
    while i < started.len()
        invariant
            i <= started.len(),
            forall|j: int| 0 <= j < i ==> started.deep_view()[j] != index,
        decreases started.len() - i,
    {
        if started[i] == index {
            assert(started.deep_view()[i as int] == index);
            return true;
        }
        i += 1;
    }
    false
}

fn tell(
    started: &mut Vec<usize>,
    blocks: &Vec<BlockState>,
    deltas: &Vec<PresentationDelta>,
    items: &mut Vec<StreamItem>,
)
    ensures
        (final(started).deep_view(), final(items).deep_view()) == told_from(
            old(started).deep_view(),
            blocks.deep_view(),
            deltas.deep_view(),
            0,
            old(items).deep_view(),
        ),
{
    let mut i: usize = 0;
    while i < deltas.len()
        invariant
            i <= deltas.len(),
            told_from(
                old(started).deep_view(),
                blocks.deep_view(),
                deltas.deep_view(),
                0,
                old(items).deep_view(),
            ) == told_from(
                started.deep_view(),
                blocks.deep_view(),
                deltas.deep_view(),
                i as int,
                items.deep_view(),
            ),
        decreases deltas.len() - i,
    {
        assert(deltas.deep_view()[i as int] == deltas@[i as int].deep_view());
        let index = delta_index(&deltas[i]);
        let identity = find_identity(blocks, index);
        if !has_started(started, index) {
            push_item(started, index);
            push_item(items, StreamItem::Event(added_event(&deltas[i], &identity)));
        }
        push_item(items, StreamItem::Event(presentation_event(deltas[i].duplicate(), &identity)));
        i += 1;
    }
}

// ---- canonical items ----

/// Thinking as the conversation carries it.
pub open spec fn carried(model: Seq<char>, block: ThinkingReplayBlockModel) -> Result<Seq<char>, DecodeErrorModel> {
    if model.len() == 0 {
        Err(DecodeErrorModel::Replay(ReplayErrorModel::EmptyModel.text()))
    } else {
        Ok(PREFIX@ + json_print(envelope_json(InferenceDialect::ClaudeCode, model, seq![block])))
    }
}

/// Whether thinking that is carried for a model is given back to that model,
/// and to no other.
pub open spec fn comes_back(model: Seq<char>, block: ThinkingReplayBlockModel) -> bool {
    forall|visible: Seq<Seq<char>>, target_dialect: InferenceDialect, target_model: Seq<char>| #[trigger]
        decision(
            PREFIX@ + json_print(envelope_json(InferenceDialect::ClaudeCode, model, seq![block])),
            visible,
            target_dialect,
            target_model,
        ) == Ok::<ReplayDecisionModel, ReplayErrorModel>(
            carried_over(InferenceDialect::ClaudeCode, model, seq![block], visible, target_dialect, target_model),
        )
}

fn replay(model: &str, block: ThinkingReplayBlock) -> (text: Result<String, DecodeError>)
    ensures
        outcome(text) == carried(model@, block.deep_view()),
        text is Ok ==> comes_back(model@, block.deep_view()),
{
    let mut blocks: Vec<ThinkingReplayBlock> = no_items();
    push_item(&mut blocks, block);
    assert(blocks.deep_view() =~= seq![block.deep_view()]);
    match encode_thinking_replay(InferenceDialect::ClaudeCode, model, blocks) {
        Ok(text) => Ok(text),
        Err(error) => Err(DecodeError::Replay(error.message())),
    }
}

/// The item for a block.
pub open spec fn block_as_item(index: usize, model: Seq<char>, block: DecodedBlockModel) -> Result<
    ResponseItemModel,
    DecodeErrorModel,
> {
    match block {
        DecodedBlockModel::Text { text } => Ok(
            ResponseItemModel::Message {
                id: Some(block_item("msg"@, index)),
                role: "assistant"@,
                content: seq![ContentItemModel::OutputText { text }],
            },
        ),
        DecodedBlockModel::Thinking { thinking, signature } => match carried(
            model,
            ThinkingReplayBlockModel::Signed { thinking, signature },
        ) {
            Err(error) => Err(error),
            Ok(text) => Ok(
                ResponseItemModel::Reasoning {
                    id: Some(block_item("rs"@, index)),
                    summary: Seq::empty(),
                    content: Some(seq![ReasoningItemContentModel::ReasoningText { text: thinking }]),
                    encrypted_content: Some(text),
                },
            ),
        },
        DecodedBlockModel::RedactedThinking { data } => match carried(
            model,
            ThinkingReplayBlockModel::Redacted { data },
        ) {
            Err(error) => Err(error),
            Ok(text) => Ok(
                ResponseItemModel::Reasoning {
                    id: Some(block_item("rs"@, index)),
                    summary: Seq::empty(),
                    content: None,
                    encrypted_content: Some(text),
                },
            ),
        },
        DecodedBlockModel::ToolUse { id, name, input } => Ok(
            ResponseItemModel::FunctionCall {
                id: Some(block_item("fc"@, index)),
                name,
                namespace: None,
                arguments: json_print(input),
                call_id: id,
            },
        ),
    }
}

/// Whether the thinking of a block, where it is any, is given back to its model
/// and to no other.
pub open spec fn carried_back(model: Seq<char>, block: DecodedBlockModel) -> bool {
    match block {
        DecodedBlockModel::Thinking { thinking, signature } => comes_back(
            model,
            ThinkingReplayBlockModel::Signed { thinking, signature },
        ),
        DecodedBlockModel::RedactedThinking { data } => comes_back(
            model,
            ThinkingReplayBlockModel::Redacted { data },
        ),
        DecodedBlockModel::ToolUse { input, .. } => canonical(input) && nesting(input, 127) ==> holds(
            json_print(input),
            input,
        ),
        _ => true,
    }
}

fn canonical_item(index: usize, model: &str, block: &DecodedBlock) -> (item: Result<ResponseItem, DecodeError>)
    ensures
        outcome(item) == block_as_item(index, model@, block.deep_view()),
        item is Ok ==> carried_back(model@, block.deep_view()),
{
    match block {
        DecodedBlock::Text { text } => {
            let mut content: Vec<ContentItem> = no_items();
            push_item(&mut content, ContentItem::OutputText { text: text.duplicate() });
            assert(content.deep_view() =~= seq![ContentItemModel::OutputText { text: text@ }]);
            Ok(ResponseItem::Message { id: Some(block_item_id("msg", index)), role: "assistant".to_owned(), content })
        },
        DecodedBlock::Thinking { thinking, signature } => {
            let text = match replay(
                model,
                ThinkingReplayBlock::Signed { thinking: thinking.duplicate(), signature: signature.duplicate() },
            ) {
                Err(error) => {
                    return Err(error);
                },
                Ok(text) => text,
            };
            let mut content: Vec<ReasoningItemContent> = no_items();
            push_item(&mut content, ReasoningItemContent::ReasoningText { text: thinking.duplicate() });
            assert(content.deep_view() =~= seq![ReasoningItemContentModel::ReasoningText { text: thinking@ }]);
            Ok(
                ResponseItem::Reasoning {
                    id: Some(block_item_id("rs", index)),
                    summary: no_items(),
                    content: Some(content),
                    encrypted_content: Some(text),
                },
            )
        },
        DecodedBlock::RedactedThinking { data } => match replay(
            model,
            ThinkingReplayBlock::Redacted { data: data.duplicate() },
        ) {
            Err(error) => Err(error),
            Ok(text) => Ok(
                ResponseItem::Reasoning {
                    id: Some(block_item_id("rs", index)),
                    summary: no_items(),
                    content: None,
                    encrypted_content: Some(text),
                },
            ),
        },
        DecodedBlock::ToolUse { id, name, input } => Ok(
            ResponseItem::FunctionCall {
                id: Some(block_item_id("fc", index)),
                name: name.duplicate(),
                namespace: None,
                arguments: print_json(input),
                call_id: id.duplicate(),
            },
        ),
    }
}

/// The items of the blocks from `at` on behind what is done.
pub open spec fn items_from(
    model: Seq<char>,
    blocks: Seq<DecodedBlockModel>,
    at: int,
    done: Seq<ResponseEventModel>,
) -> Result<Seq<ResponseEventModel>, DecodeErrorModel>
    decreases blocks.len() - at,
{
    if at < 0 || at >= blocks.len() {
        Ok(done)
    } else {
        match block_as_item(at as usize, model, blocks[at]) {
            Ok(item) => items_from(model, blocks, at + 1, done.push(ResponseEventModel::OutputItemDone(item))),
            Err(error) => Err(error),
        }
    }
}

/// The events that commit a response. One that was cut off or refused commits
/// nothing.
pub open spec fn commit_events(decoded: DecodedStreamModel) -> Result<
    Seq<ResponseEventModel>,
    NativeStreamErrorModel,
> {
    match decoded.terminal_outcome {
        TerminalOutcome::OutputExhausted | TerminalOutcome::Refusal => Err(
            NativeStreamErrorModel::UnsuccessfulTerminal(decoded.terminal_outcome),
        ),
        _ => match items_from(decoded.model, decoded.blocks, 0, Seq::empty()) {
            Err(error) => Err(NativeStreamErrorModel::Decode(error)),
            Ok(items) => Ok(
                items.push(
                    ResponseEventModel::Completed {
                        response_id: decoded.message_id,
                        token_usage: Some(decoded.token_usage),
                        usage_metadata: None,
                        end_turn: Some(decoded.terminal_outcome == TerminalOutcome::Completed),
                    },
                ),
            ),
        },
    }
}

/// The events that commit a response.
pub fn canonical_events(decoded: DecodedStream) -> (events: Result<Vec<ResponseEvent>, NativeStreamError>)
    ensures
        outcome(events) == commit_events(decoded.deep_view()),
        events is Ok ==> forall|i: int|
            0 <= i < decoded.blocks.len() ==> #[trigger] carried_back(
                decoded.model@,
                decoded.deep_view().blocks[i],
            ),
{
    match decoded.terminal_outcome {
        TerminalOutcome::OutputExhausted | TerminalOutcome::Refusal => {
            return Err(NativeStreamError::UnsuccessfulTerminal(decoded.terminal_outcome));
        },
        _ => {},
    }
    let blocks = &decoded.blocks;
    let mut events: Vec<ResponseEvent> = no_items();
    let mut i: usize = 0;
    while i < blocks.len()
        invariant
            i <= blocks.len(),
            *blocks == decoded.blocks,
            !(decoded.terminal_outcome is OutputExhausted),
            !(decoded.terminal_outcome is Refusal),
            items_from(decoded.model@, blocks.deep_view(), 0, Seq::empty()) == items_from(
                decoded.model@,
                blocks.deep_view(),
                i as int,
                events.deep_view(),
            ),
            forall|j: int| 0 <= j < i ==> #[trigger] carried_back(decoded.model@, blocks.deep_view()[j]),
        decreases blocks.len() - i,
    {
        assert(blocks.deep_view()[i as int] == blocks@[i as int].deep_view());
        match canonical_item(i, &decoded.model, &blocks[i]) {
            Ok(item) => {
                push_item(&mut events, ResponseEvent::OutputItemDone(item));
            },
            Err(error) => {
                return Err(NativeStreamError::Decode(error));
            },
        }
        i += 1;
    }
    push_item(
        &mut events,
        ResponseEvent::Completed {
            response_id: decoded.message_id.duplicate(),
            token_usage: Some(decoded.token_usage),
            usage_metadata: None,
            end_turn: Some(decoded.terminal_outcome == TerminalOutcome::Completed),
        },
    );
    Ok(events)
}

// ---- the stream ----

/// Events as the caller is told them.
pub open spec fn as_items(events: Seq<ResponseEventModel>) -> Seq<StreamItemModel> {
    Seq::new(events.len(), |i: int| StreamItemModel::Event(events[i]))
}

/// What the end of a stream tells behind what was told.
pub open spec fn ended(session: SessionModel, started: Seq<usize>, told: Seq<StreamItemModel>) -> Seq<
    StreamItemModel,
> {
    let last = session_closed(session).0;
    let (_, told) = told_from(started, last.state.blocks, last.state.presented, 0, told);
    match session_end(session) {
        Err(error) => told.push(StreamItemModel::Failure(NativeStreamErrorModel::Decode(error))),
        Ok(decoded) => match commit_events(decoded) {
            Err(error) => told.push(StreamItemModel::Failure(error)),
            Ok(events) => told + as_items(events),
        },
    }
}

/// A session whose display was handed out.
pub open spec fn handed_out(session: SessionModel) -> SessionModel {
    SessionModel { state: ResponseStateModel { presented: Seq::empty(), ..session.state }, ..session }
}

/// What the caller is told after something happened, and whether the stream
/// goes on.
pub open spec fn stepped(driver: StreamDriverModel, input: StreamInputModel) -> StreamStepModel {
    match input {
        StreamInputModel::Cancelled => StreamStepModel {
            items: seq![StreamItemModel::Failure(NativeStreamErrorModel::Cancelled)],
            next: None,
        },
        StreamInputModel::Idle => StreamStepModel {
            items: seq![StreamItemModel::Failure(NativeStreamErrorModel::IdleTimeout)],
            next: None,
        },
        StreamInputModel::Failed(message) => StreamStepModel {
            items: seq![StreamItemModel::Failure(NativeStreamErrorModel::Transport(message))],
            next: None,
        },
        StreamInputModel::Ended => StreamStepModel {
            items: ended(driver.session, driver.started, Seq::empty()),
            next: None,
        },
        StreamInputModel::Bytes(bytes) => {
            let (session, fed) = feed_step(driver.session, bytes);
            let (started, told) = told_from(
                driver.started,
                session.state.blocks,
                session.state.presented,
                0,
                Seq::empty(),
            );
            let rest = handed_out(session);
            match fed {
                Err(error) => StreamStepModel {
                    items: told.push(StreamItemModel::Failure(NativeStreamErrorModel::Decode(error))),
                    next: None,
                },
                Ok(_) => if session.state.stopped {
                    StreamStepModel { items: ended(rest, started, told), next: None }
                } else {
                    StreamStepModel { items: told, next: Some(StreamDriverModel { session: rest, started }) }
                },
            }
        },
    }
}

fn failed(error: NativeStreamError) -> (step: StreamStep)
    ensures
        step.deep_view() == (StreamStepModel {
            items: seq![StreamItemModel::Failure(error.deep_view())],
            next: None,
        }),
{
    let mut items: Vec<StreamItem> = no_items();
    push_item(&mut items, StreamItem::Failure(error));
    assert(items.deep_view() =~= seq![StreamItemModel::Failure(error.deep_view())]);
    StreamStep { items, next: None }
}

fn end_stream(decoder: IncrementalDecoder, started: Vec<usize>, told: Vec<StreamItem>) -> (items: Vec<StreamItem>)
    ensures
        items.deep_view() == ended(decoder.session.deep_view(), started.deep_view(), told.deep_view()),
{
    let blocks = last_blocks(&decoder);
    let mut started = started;
    let mut items = told;
    let mut deltas: Vec<PresentationDelta> = no_items();
    let decoded = decoder.finish(&mut deltas);
    assert(Seq::<PresentationDeltaModel>::empty() + session_closed(decoder.session.deep_view()).0.state.presented
        =~= session_closed(decoder.session.deep_view()).0.state.presented);
    tell(&mut started, &blocks, &deltas, &mut items);
    match decoded {
        Err(error) => {
            push_item(&mut items, StreamItem::Failure(NativeStreamError::Decode(error)));
        },
        Ok(decoded) => match canonical_events(decoded) {
            Err(error) => {
                push_item(&mut items, StreamItem::Failure(error));
            },
            Ok(events) => {
                append_events(&mut items, &events);
            },
        },
    }
    items
}

fn append_events(items: &mut Vec<StreamItem>, events: &Vec<ResponseEvent>)
    ensures
        final(items).deep_view() == old(items).deep_view() + as_items(events.deep_view()),
{
    let ghost before = items.deep_view();
    let mut i: usize = 0;
    while i < events.len()
        invariant
            i <= events.len(),
            before == old(items).deep_view(),
            items.deep_view() == before + as_items(events.deep_view()).take(i as int),
        decreases events.len() - i,
    {
        push_item(items, StreamItem::Event(events[i].duplicate()));
        i += 1;
        assert(as_items(events.deep_view()).take(i as int) =~= as_items(events.deep_view()).take(i - 1).push(
            as_items(events.deep_view())[i - 1],
        ));
        assert(items.deep_view() =~= before + as_items(events.deep_view()).take(i as int));
    }
    assert(as_items(events.deep_view()).take(events.len() as int) =~= as_items(events.deep_view()));
}

/// The blocks that a decoder has at the end of its stream.
fn last_blocks(decoder: &IncrementalDecoder) -> (blocks: Vec<BlockState>)
    ensures
        blocks.deep_view() == session_closed(decoder.session.deep_view()).0.state.blocks,
{
    let copy = IncrementalDecoder { session: decoder.session.duplicate() };
    copy.close().0.state.blocks
}

impl StreamDriver {
    /// A stream before anything happened.
    pub fn new() -> (driver: Self)
        ensures
            driver.session.deep_view() == crate::claude_code::stream::fresh_session(),
            driver.started.deep_view() == Seq::<usize>::empty(),
    {
        StreamDriver { session: IncrementalDecoder::new().session, started: no_items() }
    }

    /// What the caller is told after something happened, and the stream where it
    /// goes on.
    pub fn step(self, input: StreamInput) -> (step: StreamStep)
        ensures
            step.deep_view() == stepped(self.deep_view(), input.deep_view()),
    {
        let mut started = self.started;
        let mut decoder = IncrementalDecoder { session: self.session };
        match input {
            StreamInput::Cancelled => failed(NativeStreamError::Cancelled),
            StreamInput::Idle => failed(NativeStreamError::IdleTimeout),
            StreamInput::Failed(message) => failed(NativeStreamError::Transport(message)),
            StreamInput::Ended => StreamStep { items: end_stream(decoder, started, no_items()), next: None },
            StreamInput::Bytes(bytes) => {
                assert(bytes@ =~= bytes.deep_view());
                let fed = decoder.feed(bytes.as_slice());
                let deltas = decoder.take_presentation();
                let mut items: Vec<StreamItem> = no_items();
                tell(&mut started, &decoder.session.state.blocks, &deltas, &mut items);
                match fed {
                    Err(error) => {
                        push_item(&mut items, StreamItem::Failure(NativeStreamError::Decode(error)));
                        StreamStep { items, next: None }
                    },
                    Ok(_) => {
                        if decoder.is_complete() {
                            StreamStep { items: end_stream(decoder, started, items), next: None }
                        } else {
                            StreamStep { items, next: Some(StreamDriver { session: decoder.session, started }) }
                        }
                    },
                }
            },
        }
    }
}

} // verus!
