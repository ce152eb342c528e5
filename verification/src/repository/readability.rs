//! The bridge to the renderer that rewrites a page into its readable part.
//!
//! The renderer lives in another execution context and is reached by named
//! events only. The bridge pairs one request with one response through a
//! single slot: it says what to emit, takes what the response handler is
//! fed, and resolves the exchange once the slot is filled.
//!
//! The slot is a value of this library and not a channel. A channel is
//! shared through handles, so what it holds is no function of a handle's
//! value and no contract could speak of it; and waiting on one blocks, which
//! is left to the driver. What the driver does, and in which order, is
//! decided here, by `convert_step`.

use crate::domain::repository::readability::{ConvertInput, ConvertOutput};
use crate::domain::article::text_of;
use crate::domain::{Article, ArticleView};
use crate::error::SessionError;
use crate::json::{json_document, json_quoted, literal_of, parse, string_member};
use vstd::prelude::*;
use vstd::string::*;

verus! {

/// The event that asks the renderer for a conversion.
pub const EVENT_REQUEST: &'static str = "readability-request";

/// The event with which the renderer answers.
pub const EVENT_RESPONSE: &'static str = "readability-response";

/// What the bridge is configured with.
#[derive(Debug, PartialEq, Eq)]
pub struct ReadabilityRepositoryConfig {
    pub consumer_key: String,
}

impl Default for ReadabilityRepositoryConfig {
    fn default() -> (config: Self)
        ensures
            config.consumer_key@ == Seq::<char>::empty(),
    {
        ReadabilityRepositoryConfig { consumer_key: String::new() }
    }
}

/// An event to emit.
#[derive(Debug, PartialEq, Eq)]
pub struct BridgeRequest {
    pub event: String,
    pub payload: String,
}

/// The readable part of a page, as the renderer reports it.
#[derive(Debug, PartialEq, Eq)]
pub struct ReadabilityOutput {
    pub title: String,
    pub content: String,
    pub excerpt: String,
}

/// A `ReadabilityOutput` as mathematical text.
pub struct ReadabilityOutputView {
    pub title: Seq<char>,
    pub content: Seq<char>,
    pub excerpt: Seq<char>,
}

impl View for ReadabilityOutput {
    type V = ReadabilityOutputView;

    open spec fn view(&self) -> ReadabilityOutputView {
        ReadabilityOutputView {
            title: self.title@,
            content: self.content@,
            excerpt: self.excerpt@,
        }
    }
}

/// What became of a payload that the response handler was fed.
#[derive(Clone, Copy, Debug, PartialEq, Eq, Structural)]
pub enum Delivery {
    /// It fills the slot.
    Stored,
    /// The slot was taken, or the bridge is closed: the payload is dropped.
    Dropped,
}

/// Where an exchange stands.
#[derive(Debug, PartialEq, Eq)]
pub enum Exchange {
    /// No response has arrived: wait, and ask again.
    Pending,
    /// The exchange is over.
    Resolved(Result<ReadabilityOutput, SessionError>),
}

/// What a bridge holds, as mathematical text.
pub struct BridgeView {
    pub slot: Option<Seq<char>>,
    pub open: bool,
}

/// The payload of the request that carries the raw page whose JSON string
/// literal is `literal`.
pub open spec fn request_frame(literal: Seq<char>) -> Seq<char> {
    "{\"rawContent\":"@ + literal + "}"@
}

/// The payload of the request that carries the raw page `content`.
pub open spec fn request_text(content: Seq<char>) -> Seq<char> {
    request_frame(json_quoted(content))
}

/// What the members found in a response payload decode to: the three
/// strings must all be there.
pub open spec fn output_of(
    title: Option<Seq<char>>,
    content: Option<Seq<char>>,
    excerpt: Option<Seq<char>>,
) -> Result<ReadabilityOutputView, SessionError> {
    if title is Some && content is Some && excerpt is Some {
        Ok(
            ReadabilityOutputView {
                title: title.unwrap(),
                content: content.unwrap(),
                excerpt: excerpt.unwrap(),
            },
        )
    } else {
        Err(SessionError::DeserializationError)
    }
}

/// What a response payload decodes to: it must be a JSON object with the
/// strings `title`, `content` and `excerpt`.
pub open spec fn decoded(payload: Seq<char>) -> Result<ReadabilityOutputView, SessionError> {
    match json_document(payload) {
        Some(members) => if members.contains_key("title"@) && members.contains_key("content"@)
            && members.contains_key("excerpt"@) {
            Ok(
                ReadabilityOutputView {
                    title: members["title"@],
                    content: members["content"@],
                    excerpt: members["excerpt"@],
                },
            )
        } else {
            Err(SessionError::DeserializationError)
        },
        None => Err(SessionError::DeserializationError),
    }
}

/// Whether a bridge takes a payload that it is fed.
pub open spec fn takes(bridge: BridgeView) -> bool {
    bridge.open && bridge.slot is None
}

/// The bridge after the response handler was fed `payload`.
pub open spec fn after_deliver(bridge: BridgeView, payload: Seq<char>) -> BridgeView {
    if takes(bridge) {
        BridgeView { slot: Some(payload), ..bridge }
    } else {
        bridge
    }
}

/// The bridge after the response handler was fed `payloads`, in order.
pub open spec fn after_deliveries(bridge: BridgeView, payloads: Seq<Seq<char>>) -> BridgeView
    decreases payloads.len(),
{
    if payloads.len() == 0 {
        bridge
    } else {
        after_deliveries(after_deliver(bridge, payloads[0]), payloads.drop_first())
    }
}

/// The view of an exchange.
pub open spec fn exchange_view(exchange: Exchange) -> Option<Result<
    ReadabilityOutputView,
    SessionError,
>> {
    match exchange {
        Exchange::Pending => None,
        Exchange::Resolved(Ok(output)) => Some(Ok(output@)),
        Exchange::Resolved(Err(e)) => Some(Err(e)),
    }
}

/// How an exchange stands on a bridge: it resolves with what the slot
/// holds, fails on a closed bridge with an empty slot, and is pending
/// otherwise.
pub open spec fn exchange_of(bridge: BridgeView) -> Option<Result<
    ReadabilityOutputView,
    SessionError,
>> {
    match bridge.slot {
        Some(payload) => Some(decoded(payload)),
        None => if bridge.open {
            None
        } else {
            Some(Err(SessionError::BridgeClosed))
        },
    }
}

/// The article of `input` with the readable contents `content`.
pub open spec fn converted(input: ArticleView, content: Seq<char>) -> ArticleView {
    ArticleView { contents: content, ..input }
}

/// One conversion under way: the article, its raw page, and whether the
/// request for it has been emitted.
#[derive(Debug)]
pub struct Conversion {
    article: Article,
    content: String,
    emitted: bool,
}

/// A `Conversion` as mathematical text.
pub struct ConversionView {
    pub article: ArticleView,
    pub content: Seq<char>,
    pub emitted: bool,
}

impl Conversion {
    /// What the conversion holds.
    pub closed spec fn view(&self) -> ConversionView {
        ConversionView { article: self.article@, content: self.content@, emitted: self.emitted }
    }

    /// Whether the request has been emitted.
    pub fn is_emitted(&self) -> (emitted: bool)
        ensures
            emitted == self@.emitted,
    {
        self.emitted
    }
}

/// What the driver of a conversion does next.
#[derive(Debug, PartialEq, Eq)]
pub enum ConvertStep {
    /// Emit this request.
    Emit(BridgeRequest),
    /// Wait until a response has been delivered, and ask again.
    Wait,
    /// Stop: the conversion is over.
    Done(Result<ConvertOutput, SessionError>),
}

/// A `ConvertStep` as mathematical text.
pub enum ConvertStepView {
    Emit { event: Seq<char>, payload: Seq<char> },
    Wait,
    Done(Result<ArticleView, SessionError>),
}

impl View for ConvertStep {
    type V = ConvertStepView;

    open spec fn view(&self) -> ConvertStepView {
        match self {
            ConvertStep::Emit(request) => ConvertStepView::Emit {
                event: request.event@,
                payload: request.payload@,
            },
            ConvertStep::Wait => ConvertStepView::Wait,
            ConvertStep::Done(Ok(output)) => ConvertStepView::Done(Ok(output.article@)),
            ConvertStep::Done(Err(e)) => ConvertStepView::Done(Err(*e)),
        }
    }
}

/// The conversion that starts where fetching the page of `article` gave
/// `page`: a page that could not be fetched starts none.
pub open spec fn conversion_for(
    article: ArticleView,
    page: Result<Seq<char>, SessionError>,
) -> Result<ConversionView, SessionError> {
    match page {
        Ok(content) => Ok(ConversionView { article, content, emitted: false }),
        Err(e) => Err(e),
    }
}

/// How a conversion whose request is out ends on what the exchange gave.
pub open spec fn conversion_result(
    article: ArticleView,
    exchanged: Result<ReadabilityOutputView, SessionError>,
) -> Result<ArticleView, SessionError> {
    match exchanged {
        Ok(output) => Ok(converted(article, output.content)),
        Err(e) => Err(e),
    }
}

/// What the driver of `conversion` does next on `bridge`: first of all the
/// request is emitted; from then on the driver waits while the exchange is
/// pending, and stops with its result once it is resolved.
pub open spec fn convert_step_for(bridge: BridgeView, conversion: ConversionView) -> ConvertStepView {
    if !conversion.emitted {
        ConvertStepView::Emit {
            event: EVENT_REQUEST@,
            payload: request_text(conversion.content),
        }
    } else {
        match exchange_of(bridge) {
            None => ConvertStepView::Wait,
            Some(exchanged) => ConvertStepView::Done(
                conversion_result(conversion.article, exchanged),
            ),
        }
    }
}

/// The bridge after a step of `conversion`: emitting leaves it as it is,
/// and every later step takes out what the slot holds.
pub open spec fn bridge_after_step(bridge: BridgeView, conversion: ConversionView) -> BridgeView {
    if !conversion.emitted {
        bridge
    } else {
        BridgeView { slot: None, ..bridge }
    }
}

/// The bridge to the renderer.
#[derive(Debug)]
pub struct ReadabilityRepositoryImpl {
    config: ReadabilityRepositoryConfig,
    slot: Option<String>,
    open: bool,
}

impl ReadabilityRepositoryImpl {
    /// What the bridge holds.
    pub closed spec fn view(&self) -> BridgeView {
        BridgeView {
            slot: match self.slot {
                Some(p) => Some(p@),
                None => None,
            },
            open: self.open,
        }
    }

    /// An open bridge with an empty slot.
    pub fn new() -> (bridge: Result<Self, SessionError>)
        ensures
            bridge matches Ok(b) && b@ == (BridgeView { slot: None, open: true }),
    {
        Ok(
            ReadabilityRepositoryImpl {
                config: ReadabilityRepositoryConfig::default(),
                slot: None,
                open: true,
            },
        )
    }

    /// The request to emit for the raw page `content`.
    pub fn request(&self, content: &str) -> (request: BridgeRequest)
        ensures
            request.event@ == EVENT_REQUEST@,
            request.payload@ == request_text(content@),
    {
        let literal = literal_of(content);
        request_with_literal(literal.as_str())
    }

    /// Takes a payload that the response handler was fed.
    ///
    /// The slot holds one payload. A payload that arrives while the slot is
    /// taken, or after the bridge was closed, is dropped and changes
    /// nothing.
    pub fn deliver(&mut self, payload: String) -> (delivery: Delivery)
        ensures
            final(self)@ == after_deliver(old(self)@, payload@),
            delivery == if takes(old(self)@) {
                Delivery::Stored
            } else {
                Delivery::Dropped
            },
    {
        if self.open && self.slot.is_none() {
            self.slot = Some(payload);
            Delivery::Stored
        } else {
            Delivery::Dropped
        }
    }

    /// Notes that no response can arrive any more.
    pub fn close(&mut self)
        ensures
            final(self)@ == (BridgeView { open: false, ..old(self)@ }),
    {
        self.open = false;
    }

    /// Resolves the exchange as far as it can be.
    ///
    /// With a payload in the slot, the slot is emptied and the exchange
    /// resolves with the decoded payload, or with `DeserializationError`
    /// where it has not the expected shape. With an empty slot the exchange
    /// is pending, unless the bridge is closed: then it fails with
    /// `BridgeClosed`.
    pub fn exchange(&mut self) -> (exchange: Exchange)
        ensures
            final(self)@ == (BridgeView { slot: None, ..old(self)@ }),
            exchange_view(exchange) == exchange_of(old(self)@),
    {
        let open = self.open;
        let taken = match &self.slot {
            Some(p) => Some(p.clone()),
            None => None,
        };
        self.slot = None;
        match taken {
            Some(payload) => Exchange::Resolved(decode_response(payload.as_str())),
            None => if open {
                Exchange::Pending
            } else {
                Exchange::Resolved(Err(SessionError::BridgeClosed))
            },
        }
    }

    /// Starts the conversion of the article of `input` from what fetching
    /// its page gave. A page that could not be fetched starts nothing, so
    /// nothing is emitted for it: the failure is handed on.
    pub fn begin_convert(
        &self,
        input: ConvertInput,
        page: Result<String, SessionError>,
    ) -> (conversion: Result<Conversion, SessionError>)
        ensures
            match conversion_for(input.article@, reply_text(page)) {
                Ok(expected) => conversion matches Ok(c) && c@ == expected,
                Err(e) => conversion matches Err(f) && f == e,
            },
    {
        match page {
            Ok(content) => Ok(Conversion { article: input.article, content, emitted: false }),
            Err(e) => Err(e),
        }
    }

    /// Says what the driver of `conversion` does next, and notes that it
    /// is done.
    ///
    /// The first step emits the request for the raw page, and touches
    /// nothing else. Every later step resolves the exchange as far as it
    /// can be: the driver waits while no response has arrived, and stops
    /// with the converted article, or with the failure of the exchange,
    /// once one has.
    pub fn convert_step(&mut self, conversion: &mut Conversion) -> (step: ConvertStep)
        ensures
            step@ == convert_step_for(old(self)@, old(conversion)@),
            final(self)@ == bridge_after_step(old(self)@, old(conversion)@),
            final(conversion)@ == (ConversionView { emitted: true, ..old(conversion)@ }),
    {
        if !conversion.emitted {
            conversion.emitted = true;
            ConvertStep::Emit(self.request(conversion.content.as_str()))
        } else {
            match self.exchange() {
                Exchange::Pending => ConvertStep::Wait,
                Exchange::Resolved(Ok(output)) => {
                    let input = ConvertInput { article: conversion.article.clone() };
                    ConvertStep::Done(Ok(self.convert(input, output)))
                },
                Exchange::Resolved(Err(e)) => ConvertStep::Done(Err(e)),
            }
        }
    }

    /// Makes the converted article: the article that was handed in, with
    /// the readable contents in place of its own.
    pub fn convert(
        &self,
        input: ConvertInput,
        output: ReadabilityOutput,
    ) -> (result: ConvertOutput)
        ensures
            result.article@ == converted(input.article@, output.content@),
    {
        ConvertOutput {
            article: Article {
                id: input.article.id,
                title: input.article.title,
                url: input.article.url,
                cover: input.article.cover,
                contents: output.content,
            },
        }
    }
}

/// Makes the request to emit, around the JSON string literal of the raw
/// page.
pub fn request_with_literal(literal: &str) -> (request: BridgeRequest)
    ensures
        request.event@ == EVENT_REQUEST@,
        request.payload@ == request_frame(literal@),
{
    let mut payload = "{\"rawContent\":".to_owned();
    payload.append(literal);
    payload.append("}");
    BridgeRequest { event: EVENT_REQUEST.to_owned(), payload }
}

/// Makes the readable part of a page out of the members that were found in
/// a response payload. A payload in which one of them was not found is a
/// `DeserializationError`.
pub fn readability_output(
    title: Option<String>,
    content: Option<String>,
    excerpt: Option<String>,
) -> (output: Result<ReadabilityOutput, SessionError>)
    ensures
        match output_of(text_of(title), text_of(content), text_of(excerpt)) {
            Ok(expected) => output matches Ok(o) && o@ == expected,
            Err(e) => output matches Err(f) && f == e,
        },
{
    match (title, content, excerpt) {
        (Some(title), Some(content), Some(excerpt)) => Ok(
            ReadabilityOutput { title, content, excerpt },
        ),
        _ => Err(SessionError::DeserializationError),
    }
}

/// Decodes a response payload.
///
/// The payload must be a JSON object with the strings `title`, `content`
/// and `excerpt`; anything else is a `DeserializationError`.
pub fn decode_response(payload: &str) -> (output: Result<ReadabilityOutput, SessionError>)
    ensures
        match decoded(payload@) {
            Ok(expected) => output matches Ok(o) && o@ == expected,
            Err(e) => output matches Err(f) && f == e,
        },
{
    let value = match parse(payload) {
        Ok(v) => v,
        Err(_) => {
            return Err(SessionError::DeserializationError);
        },
    };
    let title = string_member(&value, "title");
    let content = string_member(&value, "content");
    let excerpt = string_member(&value, "excerpt");
    readability_output(title, content, excerpt)
}

/// The text of a page that may not have been fetched.
pub open spec fn reply_text(page: Result<String, SessionError>) -> Result<Seq<char>, SessionError> {
    match page {
        Ok(content) => Ok(content@),
        Err(e) => Err(e),
    }
}

/// How often the driver of `conversion` is told to emit while it takes one
/// step for each of `bridges`, the bridge being at each step what the
/// sequence says.
pub open spec fn emits_in_run(conversion: ConversionView, bridges: Seq<BridgeView>) -> nat
    decreases bridges.len(),
{
    if bridges.len() == 0 {
        0
    } else {
        let here: nat = if convert_step_for(bridges[0], conversion) is Emit {
            1
        } else {
            0
        };
        here + emits_in_run(ConversionView { emitted: true, ..conversion }, bridges.drop_first())
    }
}

/// Whatever the bridge holds from step to step, a conversion that has just
/// begun is told to emit exactly once, at its first step, and a
/// conversion whose request is out is never told to emit.
pub proof fn lemma_one_request_in_every_run(conversion: ConversionView, bridges: Seq<BridgeView>)
    ensures
        conversion.emitted ==> emits_in_run(conversion, bridges) == 0,
        !conversion.emitted && bridges.len() > 0 ==> {
            &&& emits_in_run(conversion, bridges) == 1
            &&& convert_step_for(bridges[0], conversion) is Emit
        },
    decreases bridges.len(),
{
    if bridges.len() > 0 {
        lemma_one_request_in_every_run(
            ConversionView { emitted: true, ..conversion },
            bridges.drop_first(),
        );
    }
}

/// The request of a conversion is emitted once, and before anything is
/// waited for: a conversion that has just begun is told to emit at its
/// first step, whatever the bridge holds, the bridge is not touched by
/// that step, and no later step tells it to emit again.
pub proof fn lemma_request_emitted_once_and_first(
    article: ArticleView,
    content: Seq<char>,
    first: BridgeView,
    later: BridgeView,
)
    ensures
        ({
            let begun = ConversionView { article, content, emitted: false };
            let requested = ConversionView { emitted: true, ..begun };
            &&& conversion_for(article, Ok(content)) == Ok::<ConversionView, SessionError>(begun)
            &&& convert_step_for(first, begun) == (ConvertStepView::Emit {
                event: EVENT_REQUEST@,
                payload: request_text(content),
            })
            &&& bridge_after_step(first, begun) == first
            &&& !(convert_step_for(later, requested) is Emit)
            &&& convert_step_for(later, requested) is Wait <==> exchange_of(later) is None
        }),
{
}

/// A page that could not be fetched starts no conversion: there is nothing
/// that could be told to emit.
pub proof fn lemma_no_request_without_page(article: ArticleView, failure: SessionError)
    ensures
        conversion_for(article, Err(failure)) == Err::<ConversionView, SessionError>(failure),
{
}

/// However many payloads the response handler is fed while no exchange
/// takes one out, an open bridge with an empty slot keeps the first and
/// drops the rest.
pub proof fn lemma_first_payload_kept(payloads: Seq<Seq<char>>)
    requires
        payloads.len() > 0,
    ensures
        after_deliveries(BridgeView { slot: None, open: true }, payloads) == (BridgeView {
            slot: Some(payloads[0]),
            open: true,
        }),
        exchange_of(after_deliveries(BridgeView { slot: None, open: true }, payloads)) == Some(
            decoded(payloads[0]),
        ),
{
    let filled = BridgeView { slot: Some(payloads[0]), open: true };
    assert(after_deliver(BridgeView { slot: None, open: true }, payloads[0]) == filled);
    lemma_taken_slot_unchanged(filled, payloads.drop_first());
}

/// A bridge whose slot is taken, or which is closed, is not changed by what
/// the response handler is fed.
pub proof fn lemma_taken_slot_unchanged(bridge: BridgeView, payloads: Seq<Seq<char>>)
    requires
        !takes(bridge),
    ensures
        after_deliveries(bridge, payloads) == bridge,
    decreases payloads.len(),
{
    if payloads.len() > 0 {
        lemma_taken_slot_unchanged(bridge, payloads.drop_first());
    }
}

} // verus!
