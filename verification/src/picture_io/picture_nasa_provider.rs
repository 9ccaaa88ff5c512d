//! NASA's astronomy picture of the day.

use crate::config::{nasa_random_url_text, Config, Provider};
use crate::picture_io::{
    fail,
    failed,
    picture_received,
    picture_requested,
    receive_picture,
    text_of,
    ActionView,
    Caption,
    Event,
    EventView,
    FetchError,
    FetchState,
    FetchStateView,
    Metadata,
    PictureProvider,
    Step,
    StepView,
};
use crate::picture_io::Action;
use vstd::prelude::*;
use vstd::string::*;

verus! {

/// NASA's record of a picture.
#[derive(Default, Debug, Clone, PartialEq)]
pub struct NasaImageResponse {
    pub copyright: String,
    pub date: String,
    pub explanation: String,
    pub hdurl: String,
    pub media_type: String,
    pub service_version: String,
    pub title: String,
    pub url: String,
}

/// NASA's record of a video.
#[derive(Default, Debug, Clone, PartialEq)]
pub struct NasaVideoResponse {
    pub copyright: String,
    pub date: String,
    pub explanation: String,
    pub media_type: String,
    pub service_version: String,
    pub title: String,
    pub url: String,
}

/// The kind of media that a record of NASA's describes.
#[derive(Default, Debug, Clone, PartialEq)]
pub struct NasaMediaType {
    pub media_type: String,
}

/// What the library reads of NASA's record of a picture.
pub struct NasaPicture {
    pub hdurl: Seq<char>,
    pub title: Seq<char>,
    pub explanation: Seq<char>,
}

impl View for NasaImageResponse {
    type V = NasaPicture;

    open spec fn view(&self) -> NasaPicture {
        NasaPicture { hdurl: self.hdurl@, title: self.title@, explanation: self.explanation@ }
    }
}

impl View for NasaMediaType {
    type V = Seq<char>;

    open spec fn view(&self) -> Seq<char> {
        self.media_type@
    }
}

/// The text `text` without the white space at its end, as `str::trim_end` gives it.
pub uninterp spec fn trimmed_end(text: Seq<char>) -> Seq<char>;

/// Removes the white space at the end of `text` by `str::trim_end`. Not proved here:
/// that the result depends on the characters of `text` alone, and that it is the
/// beginning of `text`, since only characters at the end are taken away.
#[verifier::external_body]
fn trim_end(text: &str) -> (trimmed: String)
    ensures
        trimmed@ == trimmed_end(text@),
        trimmed@.len() <= text@.len(),
        trimmed@ == text@.take(trimmed@.len() as int),
{
    text.trim_end().to_string()
}

/// The inside of a list written between two one-byte characters: `text` without its
/// first and its last character; nothing where `text` has fewer than two characters or
/// starts or ends with a character outside ASCII.
pub open spec fn inside_of(text: Seq<char>) -> Option<Seq<char>> {
    if text.len() >= 2 && (text.first() as u32) < 128 && (text.last() as u32) < 128 {
        Some(text.subrange(1, text.len() - 1))
    } else {
        None
    }
}

/// Takes the brackets off a list that holds one record, which leaves the record.
pub fn strip_brackets(text: &str) -> (inside: Option<String>)
    ensures
        text_of(inside) == inside_of(text@),
{
    let length = text.unicode_len();
    if length < 2 {
        return None;
    }
    let first = text.get_char(0);
    let last = text.get_char(length - 1);
    if first as u32 >= 128 || last as u32 >= 128 {
        return None;
    }
    Some(String::from_str(text.substring_char(1, length - 1)))
}

/// The record in the answer to the query for a random picture: the answer without the
/// white space at its end and without the brackets around it. A record, where there
/// is one, is the part of the answer that follows its first character, up to the
/// closing bracket.
pub fn unwrap_random_response(body: &str) -> (record: Option<String>)
    ensures
        text_of(record) == inside_of(trimmed_end(body@)),
        record is Some ==> {
            &&& record->0@.len() + 2 <= body@.len()
            &&& record->0@ == body@.subrange(1, record->0@.len() as int + 1)
            &&& (body@[0] as u32) < 128
            &&& (body@[record->0@.len() as int + 1] as u32) < 128
        },
{
    let trimmed = trim_end(body);
    let record = strip_brackets(trimmed.as_str());
    proof {
        if record is Some {
            let kept = trimmed@;
            assert(kept == body@.take(kept.len() as int));
            assert(record->0@ =~= body@.subrange(1, record->0@.len() as int + 1));
            assert(kept.first() == body@[0]);
            assert(kept.last() == body@[record->0@.len() as int + 1]);
        }
    }
    record
}

/// The caption of a picture of NASA's: its title, and its explanation as the
/// description.
pub open spec fn nasa_caption(picture: NasaPicture) -> Caption {
    Caption { title: Some(picture.title), description: Some(picture.explanation) }
}

/// The step that asks for a random picture.
pub open spec fn random_requested(key: Seq<char>) -> StepView {
    StepView { state: FetchStateView::AwaitingRandom, action: ActionView::GetText(nasa_random_url_text(key)) }
}

/// The first step with NASA: ask for a random picture where one is wanted, else for
/// today's.
pub open spec fn nasa_start_of(config: Config) -> StepView {
    match config.provider {
        Provider::Nasa { nasa_random, nasa_api_key } => if nasa_random {
            random_requested(nasa_api_key@)
        } else {
            StepView { state: FetchStateView::AwaitingDaily, action: ActionView::GetText(config.nasa_url_text()) }
        },
        Provider::Bing => failed(FetchError::WrongProvider),
    }
}

/// The steps with NASA. Today's answer is kept while the kind of media in it is
/// decoded: a video is replaced by a random picture, anything else is decoded as the
/// picture's record. The answer to the query for a random picture is a list of one
/// record, which is taken out of its brackets and decoded. The record names the
/// picture's address, from which the bytes are fetched.
pub open spec fn nasa_step_of(config: Config, state: FetchStateView, event: EventView) -> StepView {
    match config.provider {
        Provider::Bing => failed(FetchError::WrongProvider),
        Provider::Nasa { nasa_random, nasa_api_key } => match state {
            FetchStateView::AwaitingDaily => match event {
                EventView::Text { success, body } => if success {
                    StepView {
                        state: FetchStateView::AwaitingMediaType { body },
                        action: ActionView::DecodeMediaType(body),
                    }
                } else {
                    failed(FetchError::BadStatus)
                },
                EventView::Unreachable => failed(FetchError::RequestFailed),
                _ => failed(FetchError::OutOfOrder),
            },
            FetchStateView::AwaitingMediaType { body } => match event {
                EventView::MediaType(Some(kind)) => if kind == "video"@ {
                    random_requested(nasa_api_key@)
                } else {
                    StepView {
                        state: FetchStateView::AwaitingNasaRecord,
                        action: ActionView::DecodeNasaRecord(body),
                    }
                },
                EventView::MediaType(None) => failed(FetchError::UnknownMediaType),
                _ => failed(FetchError::OutOfOrder),
            },
            FetchStateView::AwaitingRandom => match event {
                EventView::Text { success, body } => if success {
                    match inside_of(trimmed_end(body)) {
                        Some(record) => StepView {
                            state: FetchStateView::AwaitingNasaRecord,
                            action: ActionView::DecodeNasaRecord(record),
                        },
                        None => failed(FetchError::BrokenList),
                    }
                } else {
                    failed(FetchError::BadStatus)
                },
                EventView::Unreachable => failed(FetchError::RequestFailed),
                _ => failed(FetchError::OutOfOrder),
            },
            FetchStateView::AwaitingNasaRecord => match event {
                EventView::NasaRecord(Some(picture)) => picture_requested(picture.hdurl, nasa_caption(picture)),
                EventView::NasaRecord(None) => failed(FetchError::BrokenRecord),
                _ => failed(FetchError::OutOfOrder),
            },
            FetchStateView::AwaitingPicture { caption } => picture_received(caption, event),
            _ => failed(FetchError::OutOfOrder),
        },
    }
}

/// The provider of NASA's astronomy picture of the day.
#[derive(Debug)]
pub struct PictureNasaProvider;

impl PictureNasaProvider {
    /// The provider, which holds nothing.
    pub fn new() -> (provider: Self)
        ensures
            provider == PictureNasaProvider,
    {
        PictureNasaProvider
    }
}

/// Asks for a random picture.
fn request_random(config: &Config) -> (step: Step)
    requires
        config.provider is Nasa,
    ensures
        step@ == random_requested(config.provider->nasa_api_key@),
{
    Step { state: FetchState::AwaitingRandom, action: Action::GetText(config.get_nasa_random_url()) }
}

impl PictureProvider for PictureNasaProvider {
    fn start(&self, config: &Config) -> (step: Step)
        ensures
            step@ == nasa_start_of(*config),
    {
        match &config.provider {
            Provider::Nasa { .. } => {
                if config.is_nasa_random() {
                    request_random(config)
                } else {
                    Step { state: FetchState::AwaitingDaily, action: Action::GetText(config.get_nasa_url()) }
                }
            },
            Provider::Bing => fail(FetchError::WrongProvider),
        }
    }

    fn step(&self, config: &Config, state: FetchState, event: Event) -> (step: Step)
        ensures
            step@ == nasa_step_of(*config, state@, event@),
    {
        if !matches!(config.provider, Provider::Nasa { .. }) {
            return fail(FetchError::WrongProvider);
        }
        match state {
            FetchState::AwaitingDaily => match event {
                Event::Text { success, body } => if success {
                    let kept = body.clone();
                    Step { state: FetchState::AwaitingMediaType { body: kept }, action: Action::DecodeMediaType(body) }
                } else {
                    fail(FetchError::BadStatus)
                },
                Event::Unreachable => fail(FetchError::RequestFailed),
                _ => fail(FetchError::OutOfOrder),
            },
            FetchState::AwaitingMediaType { body } => match event {
                Event::MediaType(Some(media)) => {
                    if media.media_type == String::from_str("video") {
                        request_random(config)
                    } else {
                        Step { state: FetchState::AwaitingNasaRecord, action: Action::DecodeNasaRecord(body) }
                    }
                },
                Event::MediaType(None) => fail(FetchError::UnknownMediaType),
                _ => fail(FetchError::OutOfOrder),
            },
            FetchState::AwaitingRandom => match event {
                Event::Text { success, body } => if success {
                    match unwrap_random_response(body.as_str()) {
                        Some(record) => Step {
                            state: FetchState::AwaitingNasaRecord,
                            action: Action::DecodeNasaRecord(record),
                        },
                        None => fail(FetchError::BrokenList),
                    }
                } else {
                    fail(FetchError::BadStatus)
                },
                Event::Unreachable => fail(FetchError::RequestFailed),
                _ => fail(FetchError::OutOfOrder),
            },
            FetchState::AwaitingNasaRecord => match event {
                Event::NasaRecord(Some(record)) => {
                    let metadata = Metadata { title: Some(record.title), description: Some(record.explanation) };
                    Step { state: FetchState::AwaitingPicture { metadata }, action: Action::GetBytes(record.hdurl) }
                },
                Event::NasaRecord(None) => fail(FetchError::BrokenRecord),
                _ => fail(FetchError::OutOfOrder),
            },
            FetchState::AwaitingPicture { metadata } => receive_picture(metadata, event),
            _ => fail(FetchError::OutOfOrder),
        }
    }
}

} // verus!
