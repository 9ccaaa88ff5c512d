//! Bing's picture of the day.

use crate::config::Config;
use crate::picture_io::{
    fail,
    failed,
    picture_received,
    picture_requested,
    receive_picture,
    ActionView,
    Caption,
    Event,
    EventView,
    FetchError,
    FetchState,
    FetchStateView,
    Metadata,
    PictureProvider,
    Step,
    StepView,
};
use crate::picture_io::Action;
use vstd::prelude::*;
use vstd::string::*;

verus! {

/// What Bing's feed answers.
#[derive(Default, Debug, Clone, PartialEq)]
pub struct BingResponse {
    pub images: Vec<Image>,
    pub tooltips: Tooltips,
}

/// One picture of Bing's feed.
#[derive(Default, Debug, Clone, PartialEq)]
pub struct Image {
    pub startdate: String,
    pub fullstartdate: String,
    pub enddate: String,
    pub url: String,
    pub urlbase: String,
    pub copyright: String,
    pub copyrightlink: String,
    pub title: String,
    pub quiz: String,
    pub wp: bool,
    pub hsh: String,
    pub drk: i64,
    pub top: i64,
    pub bot: i64,
}

/// The texts of the feed's controls.
#[derive(Default, Debug, Clone, PartialEq)]
pub struct Tooltips {
    pub loading: String,
    pub previous: String,
    pub next: String,
    pub walle: String,
    pub walls: String,
}

/// What the library reads of a picture of Bing's feed.
pub struct BingPicture {
    pub url: Seq<char>,
    pub title: Seq<char>,
    pub copyright: Seq<char>,
}

impl View for Image {
    type V = BingPicture;

    open spec fn view(&self) -> BingPicture {
        BingPicture { url: self.url@, title: self.title@, copyright: self.copyright@ }
    }
}

impl View for BingResponse {
    type V = Seq<BingPicture>;

    open spec fn view(&self) -> Seq<BingPicture> {
        Seq::new(self.images@.len(), |i: int| self.images@[i]@)
    }
}

/// The address of Bing's feed of one picture, today's.
pub open spec fn bing_feed_url() -> Seq<char> {
    "https://www.bing.com/HPImageArchive.aspx?format=js&idx=0&n=1&mkt=en-US"@
}

/// The address of a picture of the feed: the picture's path on Bing's site.
pub open spec fn bing_picture_url(picture: BingPicture) -> Seq<char> {
    "https://www.bing.com"@ + picture.url
}

/// The caption of a picture of the feed: its title, and its copyright line as the
/// description.
pub open spec fn bing_caption(picture: BingPicture) -> Caption {
    Caption { title: Some(picture.title), description: Some(picture.copyright) }
}

/// The first step with Bing: ask for the feed.
pub open spec fn bing_start_of() -> StepView {
    StepView { state: FetchStateView::AwaitingBingFeed, action: ActionView::GetText(bing_feed_url()) }
}

/// The steps with Bing: the feed's text is decoded, and the first picture that it lists
/// is fetched.
pub open spec fn bing_step_of(state: FetchStateView, event: EventView) -> StepView {
    match state {
        FetchStateView::AwaitingBingFeed => match event {
            EventView::Text { success, body } => if success {
                StepView { state: FetchStateView::AwaitingBingRecord, action: ActionView::DecodeBingFeed(body) }
            } else {
                failed(FetchError::BadStatus)
            },
            EventView::Unreachable => failed(FetchError::RequestFailed),
            _ => failed(FetchError::OutOfOrder),
        },
        FetchStateView::AwaitingBingRecord => match event {
            EventView::BingFeed(Some(pictures)) => if pictures.len() > 0 {
                picture_requested(bing_picture_url(pictures[0]), bing_caption(pictures[0]))
            } else {
                failed(FetchError::NoPicture)
            },
            EventView::BingFeed(None) => failed(FetchError::BrokenRecord),
            _ => failed(FetchError::OutOfOrder),
        },
        FetchStateView::AwaitingPicture { caption } => picture_received(caption, event),
        _ => failed(FetchError::OutOfOrder),
    }
}

/// The provider of Bing's picture of the day.
#[derive(Debug)]
pub struct PictureBingProvider;

impl PictureBingProvider {
    /// The provider, which holds nothing.
    pub fn new() -> (provider: Self)
        ensures
            provider == PictureBingProvider,
    {
        PictureBingProvider
    }
}

impl PictureProvider for PictureBingProvider {
    fn start(&self, config: &Config) -> (step: Step)
        ensures
            step@ == bing_start_of(),
    {
        Step {
            state: FetchState::AwaitingBingFeed,
            action: Action::GetText(
                String::from_str("https://www.bing.com/HPImageArchive.aspx?format=js&idx=0&n=1&mkt=en-US"),
            ),
        }
    }

    fn step(&self, config: &Config, state: FetchState, event: Event) -> (step: Step)
        ensures
            step@ == bing_step_of(state@, event@),
    {
        match state {
            FetchState::AwaitingBingFeed => match event {
                Event::Text { success, body } => if success {
                    Step { state: FetchState::AwaitingBingRecord, action: Action::DecodeBingFeed(body) }
                } else {
                    fail(FetchError::BadStatus)
                },
                Event::Unreachable => fail(FetchError::RequestFailed),
                _ => fail(FetchError::OutOfOrder),
            },
            FetchState::AwaitingBingRecord => match event {
                Event::BingFeed(Some(feed)) => {
                    if feed.images.len() > 0 {
                        let image = &feed.images[0];
                        let url = String::from_str("https://www.bing.com").concat(image.url.as_str());
                        let metadata = Metadata {
                            title: Some(image.title.clone()),
                            description: Some(image.copyright.clone()),
                        };
                        Step { state: FetchState::AwaitingPicture { metadata }, action: Action::GetBytes(url) }
                    } else {
                        fail(FetchError::NoPicture)
                    }
                },
                Event::BingFeed(None) => fail(FetchError::BrokenRecord),
                _ => fail(FetchError::OutOfOrder),
            },
            FetchState::AwaitingPicture { metadata } => receive_picture(metadata, event),
            _ => fail(FetchError::OutOfOrder),
        }
    }
}

} // verus!
