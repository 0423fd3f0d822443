//! The server's configuration.

use vstd::prelude::*;
use vstd::string::*;

verus! {

/// Seconds between two image changes, unless configured.
pub const DEFAULT_IMAGE_TIMEOUT: u64 = 10;

/// Distance in the image list between two neighbouring subscribers, unless
/// configured.
pub const DEFAULT_IMAGE_OFFSET: usize = 2;

/// Seconds a popup stays on screen, unless configured.
pub const DEFAULT_POPUP_SHOW: u64 = 5;

/// Seconds between two popups, unless configured.
pub const DEFAULT_POPUP_WAIT: u64 = 1;

/// Where the image list is read from, unless configured.
pub open spec fn default_image_path() -> Seq<char> {
    "./images.json"@
}

/// The directory whose files are served as assets, unless configured.
pub open spec fn default_assets_dir() -> Seq<char> {
    "./assets"@
}

/// The configuration, fixed when the server starts.
#[derive(Debug, PartialEq, Eq)]
pub struct Args {
    /// Timeout of images in seconds.
    pub image_timeout: u64,
    /// Offset of images.
    pub image_offset: usize,
    /// Path of the file that holds the image list.
    pub image_path: String,
    /// Time to show popups for in seconds.
    pub popup_show: u64,
    /// Time to wait between popups in seconds.
    pub popup_wait: u64,
    /// Directory whose files are served as assets.
    pub assets_dir: String,
}

impl Args {
    /// Whether the timers can be built from the configuration: every period
    /// is at least one second.
    pub open spec fn valid(&self) -> bool {
        self.image_timeout > 0 && self.popup_show > 0 && self.popup_wait > 0
    }

    /// Tests `valid`.
    pub fn is_valid(&self) -> (ok: bool)
        ensures
            ok == self.valid(),
    {
        self.image_timeout > 0 && self.popup_show > 0 && self.popup_wait > 0
    }
}

/// Builds the configuration from the options given on the command line: each
/// field is the option's value where one was given, else its default.
pub fn parse(
    image_timeout: Option<u64>,
    image_offset: Option<usize>,
    image_path: Option<String>,
    popup_show: Option<u64>,
    popup_wait: Option<u64>,
    assets_dir: Option<String>,
) -> (args: Args)
    ensures
        args.assets_dir@ == (match assets_dir {
            Some(v) => v@,
            None => default_assets_dir(),
        }),
        args.image_timeout == (match image_timeout {
            Some(v) => v,
            None => DEFAULT_IMAGE_TIMEOUT,
        }),
        args.image_offset == (match image_offset {
            Some(v) => v,
            None => DEFAULT_IMAGE_OFFSET,
        }),
        args.image_path@ == (match image_path {
            Some(v) => v@,
            None => default_image_path(),
        }),
        args.popup_show == (match popup_show {
            Some(v) => v,
            None => DEFAULT_POPUP_SHOW,
        }),
        args.popup_wait == (match popup_wait {
            Some(v) => v,
            None => DEFAULT_POPUP_WAIT,
        }),
{
    Args {
        image_timeout: match image_timeout {
            Some(v) => v,
            None => DEFAULT_IMAGE_TIMEOUT,
        },
        image_offset: match image_offset {
            Some(v) => v,
            None => DEFAULT_IMAGE_OFFSET,
        },
        image_path: match image_path {
            Some(v) => v,
            None => String::from_str("./images.json"),
        },
        popup_show: match popup_show {
            Some(v) => v,
            None => DEFAULT_POPUP_SHOW,
        },
        popup_wait: match popup_wait {
            Some(v) => v,
            None => DEFAULT_POPUP_WAIT,
        },
        assets_dir: match assets_dir {
            Some(v) => v,
            None => String::from_str("./assets"),
        },
    }
}

} // verus!
