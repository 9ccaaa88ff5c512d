use daily_wallpaper::config::{Config, Provider};
use daily_wallpaper::picture_io::picture_bing_provider::{BingResponse, Image, PictureBingProvider, Tooltips};
use daily_wallpaper::picture_io::picture_nasa_provider::{
    strip_brackets, unwrap_random_response, NasaImageResponse, NasaMediaType, NasaVideoResponse,
    PictureNasaProvider,
};
use daily_wallpaper::picture_io::{
    continue_fetch, get_provider, start_fetch, Action, Event, FetchError, FetchState, Metadata, PictureProvider,
    SelectedProvider, Step,
};

fn config(provider: Provider) -> Config {
    Config {
        provider,
        add_metadata: None,
        metadata_width: None,
        metadata_font: None,
        metadata_font_size: None,
        fit_to_screen_size: None,
        width: None,
        height: None,
    }
}

fn nasa(random: bool) -> Config {
    config(Provider::Nasa { nasa_random: random, nasa_api_key: "KEY".to_string() })
}

fn text(success: bool, body: &str) -> Event {
    Event::Text { success, body: body.to_string() }
}

fn record() -> NasaImageResponse {
    NasaImageResponse {
        explanation: "A galaxy far away".to_string(),
        hdurl: "https://apod.nasa.gov/image/galaxy.jpg".to_string(),
        media_type: "image".to_string(),
        title: "Galaxy".to_string(),
        ..NasaImageResponse::default()
    }
}

fn failure(step: &Step) -> Option<FetchError> {
    match (&step.state, &step.action) {
        (FetchState::Closed, Action::Fail(error)) => Some(*error),
        _ => None,
    }
}

#[test]
fn provider_follows_the_configuration() {
    assert!(matches!(get_provider(&nasa(false)), SelectedProvider::Nasa(_)));
    assert!(matches!(get_provider(&nasa(true)), SelectedProvider::Nasa(_)));
    assert!(matches!(get_provider(&config(Provider::Bing)), SelectedProvider::Bing(_)));
}

#[test]
fn nasa_asks_for_todays_picture_first() {
    let step = start_fetch(&nasa(false));
    assert!(matches!(step.state, FetchState::AwaitingDaily));
    match step.action {
        Action::GetText(url) => assert_eq!(url, "https://api.nasa.gov/planetary/apod?api_key=KEY"),
        other => panic!("{:?}", other),
    }
}

#[test]
fn nasa_asks_for_a_random_picture_when_told() {
    let step = start_fetch(&nasa(true));
    assert!(matches!(step.state, FetchState::AwaitingRandom));
    match step.action {
        Action::GetText(url) => assert_eq!(url, "https://api.nasa.gov/planetary/apod?api_key=KEY&count=1"),
        other => panic!("{:?}", other),
    }
}

#[test]
fn nasa_fetch_of_a_picture_runs_to_the_end() {
    let config = nasa(false);
    let body = "{\"media_type\":\"image\"}";
    let step = start_fetch(&config);
    let step = continue_fetch(&config, step.state, text(true, body));
    match (&step.state, &step.action) {
        (FetchState::AwaitingMediaType { body: kept }, Action::DecodeMediaType(asked)) => {
            assert_eq!(kept, body);
            assert_eq!(asked, body);
        }
        other => panic!("{:?}", other),
    }
    let media = NasaMediaType { media_type: "image".to_string() };
    let step = continue_fetch(&config, step.state, Event::MediaType(Some(media)));
    match (&step.state, &step.action) {
        (FetchState::AwaitingNasaRecord, Action::DecodeNasaRecord(asked)) => assert_eq!(asked, body),
        other => panic!("{:?}", other),
    }
    let step = continue_fetch(&config, step.state, Event::NasaRecord(Some(record())));
    match (&step.state, &step.action) {
        (FetchState::AwaitingPicture { metadata }, Action::GetBytes(url)) => {
            assert_eq!(url, "https://apod.nasa.gov/image/galaxy.jpg");
            assert_eq!(metadata.title.as_deref(), Some("Galaxy"));
            assert_eq!(metadata.description.as_deref(), Some("A galaxy far away"));
        }
        other => panic!("{:?}", other),
    }
    let step = continue_fetch(&config, step.state, Event::Bytes(vec![1, 2, 3]));
    match (step.state, step.action) {
        (FetchState::Closed, Action::Done(bytes, metadata)) => {
            assert_eq!(bytes, vec![1, 2, 3]);
            assert_eq!(metadata.title.as_deref(), Some("Galaxy"));
            assert_eq!(metadata.description.as_deref(), Some("A galaxy far away"));
        }
        other => panic!("{:?}", other),
    }
}

#[test]
fn nasa_video_is_replaced_by_a_random_picture() {
    let config = nasa(false);
    let state = FetchState::AwaitingMediaType { body: "{}".to_string() };
    let media = NasaMediaType { media_type: "video".to_string() };
    let step = continue_fetch(&config, state, Event::MediaType(Some(media)));
    match (&step.state, &step.action) {
        (FetchState::AwaitingRandom, Action::GetText(url)) => {
            assert_eq!(url, "https://api.nasa.gov/planetary/apod?api_key=KEY&count=1")
        }
        other => panic!("{:?}", other),
    }
    let step = continue_fetch(&config, step.state, text(true, "[{\"title\":\"x\"}]\n"));
    match (&step.state, &step.action) {
        (FetchState::AwaitingNasaRecord, Action::DecodeNasaRecord(asked)) => assert_eq!(asked, "{\"title\":\"x\"}"),
        other => panic!("{:?}", other),
    }
}

#[test]
fn nasa_media_type_is_compared_exactly() {
    for kind in ["image", "Video", "video ", "", "other"] {
        let state = FetchState::AwaitingMediaType { body: "b".to_string() };
        let media = NasaMediaType { media_type: kind.to_string() };
        let step = continue_fetch(&nasa(false), state, Event::MediaType(Some(media)));
        assert!(matches!(step.state, FetchState::AwaitingNasaRecord));
    }
}

#[test]
fn nasa_failures_close_the_fetch() {
    let config = nasa(false);
    let step = continue_fetch(&config, FetchState::AwaitingDaily, text(false, "denied"));
    assert_eq!(failure(&step), Some(FetchError::BadStatus));
    let step = continue_fetch(&config, FetchState::AwaitingDaily, Event::Unreachable);
    assert_eq!(failure(&step), Some(FetchError::RequestFailed));
    let step = continue_fetch(&config, FetchState::AwaitingRandom, text(false, "denied"));
    assert_eq!(failure(&step), Some(FetchError::BadStatus));
    let step = continue_fetch(&config, FetchState::AwaitingRandom, Event::Unreachable);
    assert_eq!(failure(&step), Some(FetchError::RequestFailed));
    let step = continue_fetch(&config, FetchState::AwaitingRandom, text(true, "]"));
    assert_eq!(failure(&step), Some(FetchError::BrokenList));
    let state = FetchState::AwaitingMediaType { body: "b".to_string() };
    let step = continue_fetch(&config, state, Event::MediaType(None));
    assert_eq!(failure(&step), Some(FetchError::UnknownMediaType));
    let step = continue_fetch(&config, FetchState::AwaitingNasaRecord, Event::NasaRecord(None));
    assert_eq!(failure(&step), Some(FetchError::BrokenRecord));
    let state = FetchState::AwaitingPicture { metadata: Metadata { title: None, description: None } };
    let step = continue_fetch(&config, state, Event::Unreachable);
    assert_eq!(failure(&step), Some(FetchError::RequestFailed));
}

#[test]
fn events_out_of_order_close_the_fetch() {
    let config = nasa(false);
    let step = continue_fetch(&config, FetchState::AwaitingDaily, Event::Bytes(vec![]));
    assert_eq!(failure(&step), Some(FetchError::OutOfOrder));
    let step = continue_fetch(&config, FetchState::Closed, text(true, "late"));
    assert_eq!(failure(&step), Some(FetchError::OutOfOrder));
    let step = continue_fetch(&config, FetchState::AwaitingBingFeed, text(true, "{}"));
    assert_eq!(failure(&step), Some(FetchError::OutOfOrder));
    let step = continue_fetch(&config, FetchState::AwaitingNasaRecord, Event::BingFeed(None));
    assert_eq!(failure(&step), Some(FetchError::OutOfOrder));
    let bing = config_bing();
    let step = continue_fetch(&bing, FetchState::AwaitingDaily, text(true, "{}"));
    assert_eq!(failure(&step), Some(FetchError::OutOfOrder));
    let step = continue_fetch(&bing, FetchState::AwaitingBingRecord, Event::NasaRecord(Some(record())));
    assert_eq!(failure(&step), Some(FetchError::OutOfOrder));
}

fn config_bing() -> Config {
    config(Provider::Bing)
}

#[test]
fn nasa_provider_refuses_another_configuration() {
    let provider = PictureNasaProvider::new();
    assert_eq!(failure(&provider.start(&config_bing())), Some(FetchError::WrongProvider));
    let step = provider.step(&config_bing(), FetchState::AwaitingDaily, text(true, "{}"));
    assert_eq!(failure(&step), Some(FetchError::WrongProvider));
}

#[test]
fn bing_fetch_runs_to_the_end() {
    let config = config_bing();
    let step = start_fetch(&config);
    match (&step.state, &step.action) {
        (FetchState::AwaitingBingFeed, Action::GetText(url)) => {
            assert_eq!(url, "https://www.bing.com/HPImageArchive.aspx?format=js&idx=0&n=1&mkt=en-US")
        }
        other => panic!("{:?}", other),
    }
    let step = continue_fetch(&config, step.state, text(true, "{\"images\":[]}"));
    match (&step.state, &step.action) {
        (FetchState::AwaitingBingRecord, Action::DecodeBingFeed(asked)) => assert_eq!(asked, "{\"images\":[]}"),
        other => panic!("{:?}", other),
    }
    let first = Image {
        url: "/th?id=OHR.Dunes.jpg".to_string(),
        title: "Dunes".to_string(),
        copyright: "Dunes at dawn (c) Somebody".to_string(),
        ..Image::default()
    };
    let second = Image { url: "/other.jpg".to_string(), ..Image::default() };
    let feed = BingResponse { images: vec![first, second], tooltips: Tooltips::default() };
    let step = continue_fetch(&config, step.state, Event::BingFeed(Some(feed)));
    match (&step.state, &step.action) {
        (FetchState::AwaitingPicture { metadata }, Action::GetBytes(url)) => {
            assert_eq!(url, "https://www.bing.com/th?id=OHR.Dunes.jpg");
            assert_eq!(metadata.title.as_deref(), Some("Dunes"));
            assert_eq!(metadata.description.as_deref(), Some("Dunes at dawn (c) Somebody"));
        }
        other => panic!("{:?}", other),
    }
    let step = continue_fetch(&config, step.state, Event::Bytes(vec![9, 8]));
    match (step.state, step.action) {
        (FetchState::Closed, Action::Done(bytes, metadata)) => {
            assert_eq!(bytes, vec![9, 8]);
            assert_eq!(metadata.title.as_deref(), Some("Dunes"));
        }
        other => panic!("{:?}", other),
    }
}

#[test]
fn bing_failures_close_the_fetch() {
    let config = config_bing();
    let provider = PictureBingProvider::new();
    let step = provider.step(&config, FetchState::AwaitingBingFeed, text(false, ""));
    assert_eq!(failure(&step), Some(FetchError::BadStatus));
    let step = provider.step(&config, FetchState::AwaitingBingFeed, Event::Unreachable);
    assert_eq!(failure(&step), Some(FetchError::RequestFailed));
    let step = provider.step(&config, FetchState::AwaitingBingRecord, Event::BingFeed(None));
    assert_eq!(failure(&step), Some(FetchError::BrokenRecord));
    let empty = BingResponse { images: vec![], tooltips: Tooltips::default() };
    let step = provider.step(&config, FetchState::AwaitingBingRecord, Event::BingFeed(Some(empty)));
    assert_eq!(failure(&step), Some(FetchError::NoPicture));
}

#[test]
fn brackets_are_stripped() {
    assert_eq!(strip_brackets("[{}]").as_deref(), Some("{}"));
    assert_eq!(strip_brackets("[]").as_deref(), Some(""));
    assert_eq!(strip_brackets("ab").as_deref(), Some(""));
    assert_eq!(strip_brackets("(\u{e9}\u{e9})").as_deref(), Some("\u{e9}\u{e9}"));
}

#[test]
fn short_or_wide_ends_have_no_inside() {
    assert_eq!(strip_brackets(""), None);
    assert_eq!(strip_brackets("["), None);
    assert_eq!(strip_brackets("\u{e9}x]"), None);
    assert_eq!(strip_brackets("[x\u{e9}"), None);
}

#[test]
fn random_response_is_trimmed_and_unwrapped() {
    assert_eq!(unwrap_random_response("[{\"a\":1}]\n").as_deref(), Some("{\"a\":1}"));
    assert_eq!(unwrap_random_response("[{\"a\":1}] \t\r\n\n").as_deref(), Some("{\"a\":1}"));
    assert_eq!(unwrap_random_response(" [x]").as_deref(), Some("[x"));
    assert_eq!(unwrap_random_response("[\n").as_deref(), None);
    assert_eq!(unwrap_random_response("   ").as_deref(), None);
}

#[test]
fn random_record_is_the_answer_after_its_first_character() {
    for body in ["[{\"a\":1}]\n", "[x] ", "(\u{e9})\t\t", "ab"] {
        let record = unwrap_random_response(body).unwrap();
        let characters: Vec<char> = body.chars().collect();
        let inside: String = characters[1..1 + record.chars().count()].iter().collect();
        assert_eq!(record, inside);
        assert!(characters[0].is_ascii());
        assert!(characters[1 + record.chars().count()].is_ascii());
    }
}

#[test]
fn fetch_errors_describe_themselves() {
    assert_eq!(FetchError::RequestFailed.message(), "Failed to send request");
    assert_eq!(FetchError::BadStatus.message(), "Failed to fetch data from the provider");
    assert_eq!(FetchError::UnknownMediaType.message(), "Failed to parse media type");
    assert_eq!(FetchError::BrokenList.message(), "Failed to read the list of random pictures");
    assert_eq!(FetchError::BrokenRecord.message(), "Failed to parse the picture's record");
    assert_eq!(FetchError::NoPicture.message(), "The provider lists no picture");
    assert_eq!(FetchError::WrongProvider.message(), "Not supported");
    assert_eq!(FetchError::OutOfOrder.message(), "Unexpected answer");
}

#[test]
fn records_start_empty() {
    assert_eq!(NasaImageResponse::default().hdurl, "");
    assert_eq!(NasaVideoResponse::default(), NasaVideoResponse::default().clone());
    assert_eq!(NasaMediaType::default().media_type, "");
    assert_eq!(Tooltips::default().loading, "");
    assert!(BingResponse::default().images.is_empty());
}
