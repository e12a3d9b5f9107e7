//! Fetches the daily wallpaper's metadata, locates its image and decides where
//! it is stored and how it is applied. The network, the file system and the
//! subprocess are driven by the caller; this crate holds the decisions.

mod config;
mod error;
mod flow;
mod locate;
mod metadata;
mod paths;
mod plan;

pub use config::{BING_IMAGE_REQUEST_URL, METADATA_QUERY, USER_AGENT};
pub use error::WallpaperError;
pub use flow::{first_step, next_action, Action, Step};
pub use locate::{absolute_image_url, find_id, picture_id, BING};
pub use metadata::{get_image_url, Image, Ret};
pub use paths::{get_save_path, is_absolute_path, is_plain_file_name, join_path, SAVE_PATH};
pub use plan::{download_plan, wallpaper_script, DownloadPlan};
