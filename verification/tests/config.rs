use daily_wallpaper::config::{Config, Provider};

fn config(provider: Provider) -> Config {
    Config {
        provider,
        add_metadata: None,
        metadata_width: None,
        metadata_font: None,
        metadata_font_size: None,
        fit_to_screen_size: None,
        width: None,
        height: None,
    }
}

fn nasa(random: bool, key: &str) -> Config {
    config(Provider::Nasa { nasa_random: random, nasa_api_key: key.to_string() })
}

#[test]
fn provider_names_are_lower_case() {
    assert_eq!(Provider::Bing.name(), "bing");
    assert_eq!(Provider::Nasa { nasa_random: true, nasa_api_key: String::new() }.name(), "nasa");
}

#[test]
fn nasa_url_carries_the_key() {
    assert_eq!(nasa(false, "DEMO_KEY").get_nasa_url(), "https://api.nasa.gov/planetary/apod?api_key=DEMO_KEY");
    assert_eq!(nasa(false, "").get_nasa_url(), "https://api.nasa.gov/planetary/apod?api_key=");
}

#[test]
fn nasa_url_of_a_random_picture_counts_one() {
    let expected = "https://api.nasa.gov/planetary/apod?api_key=DEMO_KEY&count=1";
    assert_eq!(nasa(true, "DEMO_KEY").get_nasa_url(), expected);
    assert_eq!(nasa(true, "DEMO_KEY").get_nasa_random_url(), expected);
    assert_eq!(nasa(false, "DEMO_KEY").get_nasa_random_url(), expected);
}

#[test]
fn nasa_url_is_empty_for_bing() {
    assert_eq!(config(Provider::Bing).get_nasa_url(), "");
}

#[test]
fn only_nasa_can_be_random() {
    assert!(nasa(true, "k").is_nasa_random());
    assert!(!nasa(false, "k").is_nasa_random());
    assert!(!config(Provider::Bing).is_nasa_random());
}

#[test]
fn picture_file_is_named_after_the_provider() {
    assert_eq!(config(Provider::Bing).get_picture_file_name(), "bing.jpg");
    assert_eq!(nasa(false, "k").get_picture_file_name(), "nasa.jpg");
}
