//! What the user asked for: the picture provider and how the picture is to be modified.

use vstd::prelude::*;
use vstd::string::*;

verus! {

/// Where the picture of the day comes from.
#[derive(Debug)]
pub enum Provider {
    /// NASA's astronomy picture of the day.
    Nasa {
        /// Ask for a random picture in place of today's.
        nasa_random: bool,
        /// The key for NASA's service.
        nasa_api_key: String,
    },
    /// Bing's picture of the day.
    Bing,
}

impl Provider {
    /// The provider's name in lower case.
    pub open spec fn name_text(self) -> Seq<char> {
        match self {
            Provider::Nasa { .. } => "nasa"@,
            Provider::Bing => "bing"@,
        }
    }

    /// The provider's name, as it appears in file names.
    pub fn name(&self) -> (name: String)
        ensures
            name@ == self.name_text(),
    {
        match self {
            Provider::Nasa { .. } => String::from_str("nasa"),
            Provider::Bing => String::from_str("bing"),
        }
    }
}

/// The settings of one run. Lengths count thousandths of a pixel.
#[derive(Debug)]
pub struct Config {
    /// The selected provider.
    pub provider: Provider,
    /// Whether the title and the description are drawn over the picture.
    pub add_metadata: Option<bool>,
    /// The width of the caption box; its height follows from the text.
    pub metadata_width: Option<i64>,
    /// The name of the caption's font.
    pub metadata_font: Option<String>,
    /// The size of the caption's font.
    pub metadata_font_size: Option<i32>,
    /// Whether the picture is resized to the screen.
    pub fit_to_screen_size: Option<bool>,
    /// The screen's width in pixels.
    pub width: Option<u32>,
    /// The screen's height in pixels.
    pub height: Option<u32>,
}

/// The address of NASA's picture service, up to the key.
pub open spec fn nasa_endpoint() -> Seq<char> {
    "https://api.nasa.gov/planetary/apod?api_key="@
}

/// The address that answers with one random picture for the key `key`.
pub open spec fn nasa_random_url_text(key: Seq<char>) -> Seq<char> {
    nasa_endpoint() + key + "&count=1"@
}

impl Config {
    /// The address to ask for NASA's picture: that of a random picture where one is
    /// asked for, else that of today's picture; empty for any other provider.
    pub open spec fn nasa_url_text(self) -> Seq<char> {
        match self.provider {
            Provider::Nasa { nasa_random, nasa_api_key } => if nasa_random {
                nasa_random_url_text(nasa_api_key@)
            } else {
                nasa_endpoint() + nasa_api_key@
            },
            Provider::Bing => Seq::empty(),
        }
    }

    /// The name of the file that holds the picture: the provider's name with the
    /// extension `.jpg`.
    pub open spec fn picture_file_name_text(self) -> Seq<char> {
        self.provider.name_text() + ".jpg"@
    }

    /// The address of NASA's picture service for this configuration.
    pub fn get_nasa_url(&self) -> (url: String)
        ensures
            url@ == self.nasa_url_text(),
    {
        match &self.provider {
            Provider::Nasa { nasa_random, nasa_api_key } => {
                if *nasa_random {
                    self.get_nasa_random_url()
                } else {
                    String::from_str("https://api.nasa.gov/planetary/apod?api_key=").concat(
                        nasa_api_key.as_str(),
                    )
                }
            },
            Provider::Bing => String::new(),
        }
    }

    /// The address that answers with one random picture. The provider must be NASA.
    pub fn get_nasa_random_url(&self) -> (url: String)
        requires
            self.provider is Nasa,
        ensures
            url@ == nasa_random_url_text(self.provider->nasa_api_key@),
    {
        match &self.provider {
            Provider::Nasa { nasa_random: _, nasa_api_key } => {
                let mut url = String::from_str("https://api.nasa.gov/planetary/apod?api_key=");
                url.append(nasa_api_key.as_str());
                url.append("&count=1");
                url
            },
            Provider::Bing => String::new(),
        }
    }

    /// Whether a random NASA picture is asked for.
    pub fn is_nasa_random(&self) -> (random: bool)
        ensures
            random == (self.provider is Nasa && self.provider->nasa_random),
    {
        match &self.provider {
            Provider::Nasa { nasa_random, nasa_api_key: _ } => *nasa_random,
            Provider::Bing => false,
        }
    }

    /// The name of the file in which the picture is saved, to be joined to the
    /// directory that holds it.
    pub fn get_picture_file_name(&self) -> (name: String)
        ensures
            name@ == self.picture_file_name_text(),
    {
        self.provider.name().concat(".jpg")
    }
}

} // verus!
