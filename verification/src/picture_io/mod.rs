//! Getting the picture of the day and its caption from a provider.
//!
//! Asking a provider takes several requests over the network, and what is asked next
//! depends on what came back. The library does none of the requests. It decides: a
//! provider is a state machine that says which `Action` to perform, takes the `Event`
//! that reports how it went, and moves on, until it is done or has failed.

use crate::config::{Config, Provider};
use vstd::prelude::*;
use vstd::string::*;

pub mod picture_bing_provider;
pub mod picture_nasa_provider;

use picture_bing_provider::{BingPicture, BingResponse, PictureBingProvider};
use picture_nasa_provider::{NasaImageResponse, NasaMediaType, NasaPicture, PictureNasaProvider};

verus! {

/// The caption that comes with a picture.
#[derive(Debug)]
pub struct Metadata {
    pub title: Option<String>,
    pub description: Option<String>,
}

/// The mathematical model of a caption: the characters of its title and description.
pub struct Caption {
    pub title: Option<Seq<char>>,
    pub description: Option<Seq<char>>,
}

/// The characters of an optional text.
pub open spec fn text_of(part: Option<String>) -> Option<Seq<char>> {
    match part {
        Some(text) => Some(text@),
        None => None,
    }
}

impl View for Metadata {
    type V = Caption;

    open spec fn view(&self) -> Caption {
        Caption { title: text_of(self.title), description: text_of(self.description) }
    }
}

/// Why no picture could be fetched.
#[derive(Clone, Copy, Debug, PartialEq, Eq, Structural)]
pub enum FetchError {
    /// A request could not be sent, or its answer could not be read.
    RequestFailed,
    /// The provider answered with a status other than success.
    BadStatus,
    /// The kind of media in the provider's answer could not be decoded.
    UnknownMediaType,
    /// The answer to the query for a random picture is not a list of one record.
    BrokenList,
    /// The picture's record could not be decoded.
    BrokenRecord,
    /// The provider's answer lists no picture.
    NoPicture,
    /// The provider was asked to serve a configuration that selects another one.
    WrongProvider,
    /// An event arrived that does not answer the action that was asked for.
    OutOfOrder,
}

impl FetchError {
    /// The text that describes the error.
    pub open spec fn message_text(self) -> Seq<char> {
        match self {
            FetchError::RequestFailed => "Failed to send request"@,
            FetchError::BadStatus => "Failed to fetch data from the provider"@,
            FetchError::UnknownMediaType => "Failed to parse media type"@,
            FetchError::BrokenList => "Failed to read the list of random pictures"@,
            FetchError::BrokenRecord => "Failed to parse the picture's record"@,
            FetchError::NoPicture => "The provider lists no picture"@,
            FetchError::WrongProvider => "Not supported"@,
            FetchError::OutOfOrder => "Unexpected answer"@,
        }
    }

    /// The error as a line of text for the user.
    pub fn message(&self) -> (text: String)
        ensures
            text@ == self.message_text(),
    {
        match self {
            FetchError::RequestFailed => String::from_str("Failed to send request"),
            FetchError::BadStatus => String::from_str("Failed to fetch data from the provider"),
            FetchError::UnknownMediaType => String::from_str("Failed to parse media type"),
            FetchError::BrokenList => String::from_str("Failed to read the list of random pictures"),
            FetchError::BrokenRecord => String::from_str("Failed to parse the picture's record"),
            FetchError::NoPicture => String::from_str("The provider lists no picture"),
            FetchError::WrongProvider => String::from_str("Not supported"),
            FetchError::OutOfOrder => String::from_str("Unexpected answer"),
        }
    }
}

/// What a provider asks its caller to do next.
#[derive(Debug)]
pub enum Action {
    /// Request the address and report the status and the text of the answer.
    GetText(String),
    /// Decode the kind of media from the text of NASA's answer.
    DecodeMediaType(String),
    /// Decode the picture's record from the text of NASA's answer.
    DecodeNasaRecord(String),
    /// Decode the list of pictures from the text of Bing's answer.
    DecodeBingFeed(String),
    /// Request the address and report the bytes of the answer.
    GetBytes(String),
    /// Nothing more: here are the picture's bytes and its caption.
    Done(Vec<u8>, Metadata),
    /// Nothing more: the picture cannot be had.
    Fail(FetchError),
}

/// The mathematical model of an `Action`.
pub enum ActionView {
    GetText(Seq<char>),
    DecodeMediaType(Seq<char>),
    DecodeNasaRecord(Seq<char>),
    DecodeBingFeed(Seq<char>),
    GetBytes(Seq<char>),
    Done(Seq<u8>, Caption),
    Fail(FetchError),
}

impl View for Action {
    type V = ActionView;

    open spec fn view(&self) -> ActionView {
        match *self {
            Action::GetText(url) => ActionView::GetText(url@),
            Action::DecodeMediaType(text) => ActionView::DecodeMediaType(text@),
            Action::DecodeNasaRecord(text) => ActionView::DecodeNasaRecord(text@),
            Action::DecodeBingFeed(text) => ActionView::DecodeBingFeed(text@),
            Action::GetBytes(url) => ActionView::GetBytes(url@),
            Action::Done(bytes, metadata) => ActionView::Done(bytes@, metadata@),
            Action::Fail(error) => ActionView::Fail(error),
        }
    }
}

/// How the action that a provider asked for went.
#[derive(Debug)]
pub enum Event {
    /// The request could not be sent, or its answer could not be read.
    Unreachable,
    /// The answer to `GetText`: whether its status is a success, and its text.
    Text { success: bool, body: String },
    /// The answer to `DecodeMediaType`: the kind of media, or nothing where the text
    /// does not decode.
    MediaType(Option<NasaMediaType>),
    /// The answer to `DecodeNasaRecord`: the record, or nothing where the text does not
    /// decode.
    NasaRecord(Option<NasaImageResponse>),
    /// The answer to `DecodeBingFeed`: the feed, or nothing where the text does not
    /// decode.
    BingFeed(Option<BingResponse>),
    /// The answer to `GetBytes`.
    Bytes(Vec<u8>),
}

/// The mathematical model of an `Event`.
pub enum EventView {
    Unreachable,
    Text { success: bool, body: Seq<char> },
    MediaType(Option<Seq<char>>),
    NasaRecord(Option<NasaPicture>),
    BingFeed(Option<Seq<BingPicture>>),
    Bytes(Seq<u8>),
}

impl View for Event {
    type V = EventView;

    open spec fn view(&self) -> EventView {
        match *self {
            Event::Unreachable => EventView::Unreachable,
            Event::Text { success, body } => EventView::Text { success, body: body@ },
            Event::MediaType(decoded) => EventView::MediaType(
                match decoded {
                    Some(media) => Some(media@),
                    None => None,
                },
            ),
            Event::NasaRecord(decoded) => EventView::NasaRecord(
                match decoded {
                    Some(record) => Some(record@),
                    None => None,
                },
            ),
            Event::BingFeed(decoded) => EventView::BingFeed(
                match decoded {
                    Some(feed) => Some(feed@),
                    None => None,
                },
            ),
            Event::Bytes(bytes) => EventView::Bytes(bytes@),
        }
    }
}

/// Where a provider stands: which answer it is waiting for, and what it keeps for later.
#[derive(Debug)]
pub enum FetchState {
    /// NASA: waiting for the answer to the query for today's picture.
    AwaitingDaily,
    /// NASA: waiting for the kind of media in today's answer, whose text is kept.
    AwaitingMediaType { body: String },
    /// NASA: waiting for the answer to the query for a random picture.
    AwaitingRandom,
    /// NASA: waiting for the decoded record.
    AwaitingNasaRecord,
    /// Bing: waiting for the answer to the query for the feed.
    AwaitingBingFeed,
    /// Bing: waiting for the decoded feed.
    AwaitingBingRecord,
    /// Waiting for the picture's bytes; the caption is kept.
    AwaitingPicture { metadata: Metadata },
    /// Done or failed: nothing more is expected.
    Closed,
}

/// The mathematical model of a `FetchState`.
pub enum FetchStateView {
    AwaitingDaily,
    AwaitingMediaType { body: Seq<char> },
    AwaitingRandom,
    AwaitingNasaRecord,
    AwaitingBingFeed,
    AwaitingBingRecord,
    AwaitingPicture { caption: Caption },
    Closed,
}

impl View for FetchState {
    type V = FetchStateView;

    open spec fn view(&self) -> FetchStateView {
        match *self {
            FetchState::AwaitingDaily => FetchStateView::AwaitingDaily,
            FetchState::AwaitingMediaType { body } => FetchStateView::AwaitingMediaType { body: body@ },
            FetchState::AwaitingRandom => FetchStateView::AwaitingRandom,
            FetchState::AwaitingNasaRecord => FetchStateView::AwaitingNasaRecord,
            FetchState::AwaitingBingFeed => FetchStateView::AwaitingBingFeed,
            FetchState::AwaitingBingRecord => FetchStateView::AwaitingBingRecord,
            FetchState::AwaitingPicture { metadata } => FetchStateView::AwaitingPicture { caption: metadata@ },
            FetchState::Closed => FetchStateView::Closed,
        }
    }
}

/// A state with the action to perform in it.
#[derive(Debug)]
pub struct Step {
    pub state: FetchState,
    pub action: Action,
}

/// The mathematical model of a `Step`.
pub struct StepView {
    pub state: FetchStateView,
    pub action: ActionView,
}

impl View for Step {
    type V = StepView;

    open spec fn view(&self) -> StepView {
        StepView { state: self.state@, action: self.action@ }
    }
}

/// The step that ends a fetch with an error.
pub open spec fn failed(error: FetchError) -> StepView {
    StepView { state: FetchStateView::Closed, action: ActionView::Fail(error) }
}

/// Ends a fetch with an error.
pub fn fail(error: FetchError) -> (step: Step)
    ensures
        step@ == failed(error),
{
    Step { state: FetchState::Closed, action: Action::Fail(error) }
}

/// Waits for the picture's bytes from `url`, keeping the caption until they are there.
pub open spec fn picture_requested(url: Seq<char>, caption: Caption) -> StepView {
    StepView { state: FetchStateView::AwaitingPicture { caption }, action: ActionView::GetBytes(url) }
}

/// The step after the picture's bytes were asked for: with the bytes the fetch is
/// done, with anything else it has failed.
pub open spec fn picture_received(caption: Caption, event: EventView) -> StepView {
    match event {
        EventView::Bytes(bytes) => StepView {
            state: FetchStateView::Closed,
            action: ActionView::Done(bytes, caption),
        },
        EventView::Unreachable => failed(FetchError::RequestFailed),
        _ => failed(FetchError::OutOfOrder),
    }
}

/// Takes the answer to the request for the picture's bytes.
pub fn receive_picture(metadata: Metadata, event: Event) -> (step: Step)
    ensures
        step@ == picture_received(metadata@, event@),
{
    match event {
        Event::Bytes(bytes) => Step { state: FetchState::Closed, action: Action::Done(bytes, metadata) },
        Event::Unreachable => fail(FetchError::RequestFailed),
        _ => fail(FetchError::OutOfOrder),
    }
}

/// A source of pictures, as a state machine over the requests that it needs.
pub trait PictureProvider {
    /// The first step of a fetch.
    fn start(&self, config: &Config) -> Step;

    /// The step that follows `state` when `event` reports how its action went.
    fn step(&self, config: &Config, state: FetchState, event: Event) -> Step;
}

/// The provider that a configuration selects.
#[derive(Debug)]
pub enum SelectedProvider {
    Nasa(PictureNasaProvider),
    Bing(PictureBingProvider),
}

/// The provider that serves `config`.
pub fn get_provider(config: &Config) -> (selected: SelectedProvider)
    ensures
        selected is Nasa <==> config.provider is Nasa,
        selected is Bing <==> config.provider is Bing,
{
    match config.provider {
        Provider::Nasa { .. } => SelectedProvider::Nasa(PictureNasaProvider::new()),
        Provider::Bing => SelectedProvider::Bing(PictureBingProvider::new()),
    }
}

/// The first step of the fetch that `config` asks for.
pub open spec fn first_step_of(config: Config) -> StepView {
    match config.provider {
        Provider::Nasa { .. } => picture_nasa_provider::nasa_start_of(config),
        Provider::Bing => picture_bing_provider::bing_start_of(),
    }
}

/// The step that follows `state` on `event` in the fetch that `config` asks for.
pub open spec fn next_step_of(config: Config, state: FetchStateView, event: EventView) -> StepView {
    match config.provider {
        Provider::Nasa { .. } => picture_nasa_provider::nasa_step_of(config, state, event),
        Provider::Bing => picture_bing_provider::bing_step_of(state, event),
    }
}

/// The largest number of events that a fetch in `state` can still take.
pub open spec fn steps_left(state: FetchStateView) -> nat {
    match state {
        FetchStateView::AwaitingDaily => 5,
        FetchStateView::AwaitingMediaType { .. } => 4,
        FetchStateView::AwaitingRandom => 3,
        FetchStateView::AwaitingNasaRecord => 2,
        FetchStateView::AwaitingBingFeed => 3,
        FetchStateView::AwaitingBingRecord => 2,
        FetchStateView::AwaitingPicture { .. } => 1,
        FetchStateView::Closed => 0,
    }
}

/// A fetch starts with a request for a text and is then no more than five events from
/// its end.
pub proof fn lemma_fetch_starts_with_a_request(config: Config)
    ensures
        first_step_of(config).action is GetText,
        0 < steps_left(first_step_of(config).state) <= 5,
{
}

/// Every event brings a fetch nearer to its end, whatever the event is, and a fetch
/// that is at its end stays there. The fetch is at its end exactly when the action is
/// to stop, with the picture or with an error.
pub proof fn lemma_fetch_progresses(config: Config, state: FetchStateView, event: EventView)
    ensures
        steps_left(state) > 0 ==> steps_left(next_step_of(config, state, event).state) < steps_left(state),
        state is Closed ==> next_step_of(config, state, event) == failed(FetchError::OutOfOrder),
        next_step_of(config, state, event).state is Closed <==> (next_step_of(config, state, event).action is Done
            || next_step_of(config, state, event).action is Fail),
{
}

/// Starts fetching the picture of the day from the provider that `config` selects.
pub fn start_fetch(config: &Config) -> (step: Step)
    ensures
        step@ == first_step_of(*config),
{
    match get_provider(config) {
        SelectedProvider::Nasa(provider) => provider.start(config),
        SelectedProvider::Bing(provider) => provider.start(config),
    }
}

/// Continues fetching the picture of the day from the provider that `config` selects.
pub fn continue_fetch(config: &Config, state: FetchState, event: Event) -> (step: Step)
    ensures
        step@ == next_step_of(*config, state@, event@),
{
    match get_provider(config) {
        SelectedProvider::Nasa(provider) => provider.step(config, state, event),
        SelectedProvider::Bing(provider) => provider.step(config, state, event),
    }
}

} // verus!
