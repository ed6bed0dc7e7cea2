//! Names that the file layout and the launched client fix.

use vstd::prelude::*;

verus! {

/// The directory below the storage root that holds one directory per profile.
pub const PROFILES_DIR: &'static str = "profiles";

/// The archive as it is downloaded into a profile's directory.
pub const DOWNLOAD_FILE: &'static str = "veloren.zip";

/// Where the client keeps what belongs to the user, below a profile's directory.
pub const USERDATA_DIR: &'static str = "userdata";

/// Where the client writes screenshots, below a profile's directory.
pub const SCREENSHOTS_DIR: &'static str = "screenshots";

/// Where the client finds its assets, below a profile's directory.
pub const ASSETS_DIR: &'static str = "assets";

/// The variable in which the client looks for its screenshot directory.
pub const SCREENSHOT_VAR: &'static str = "VOXYGEN_SCREENSHOT";

/// The variable in which the client looks for its user data directory.
pub const USERDATA_VAR: &'static str = "VELOREN_USERDATA";

/// The variable in which the client looks for its assets directory.
pub const ASSETS_VAR: &'static str = "VELOREN_ASSETS";

/// The variable in which the client looks for its log level.
pub const LOG_VAR: &'static str = "RUST_LOG";

} // verus!
