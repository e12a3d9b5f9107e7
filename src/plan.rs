use vstd::prelude::*;

use crate::error::WallpaperError;
use crate::locate::{absolute_image_url, absolute_url_of, picture_id, picture_id_of};
use crate::paths::{
    file_name_stays_inside, get_save_path, is_file_name, is_plain_file_name, join_path, joined,
};

verus! {

/// The script text up to the quoted file path.
pub const SCRIPT_HEAD: &'static str = "tell application \"Finder\" to set desktop picture to POSIX file \"";

/// The script that sets the desktop picture to the file at `path`.
pub open spec fn script_for(path: Seq<char>) -> Seq<char> {
    SCRIPT_HEAD@ + path + "\""@
}

/// Builds the scripting-host command that sets the desktop picture to the
/// file at `file_path`.
pub fn wallpaper_script(file_path: &str) -> (r: String)
    ensures
        r@ == script_for(file_path@),
{
    let mut s = String::from_str(SCRIPT_HEAD);
    s.append(file_path);
    s.append("\"");
    s
}

/// Everything a run needs to fetch, store and apply one image.
#[derive(Clone, Debug, PartialEq, Eq)]
pub struct DownloadPlan {
    /// Absolute address the image bytes are fetched from.
    pub image_url: String,
    /// Directory that is created before the image is written.
    pub save_dir: String,
    /// File the image bytes are written to.
    pub file_path: String,
    /// Script handed to the scripting host to apply the image.
    pub script: String,
}

/// Works out where the image with relative address `uri` comes from, where it
/// is stored, given the save path `path` and the working directory `cwd`, and
/// how it is applied. The file is named by the picture id and always lies
/// directly inside the save directory: an id that would name anything else is
/// refused.
pub fn download_plan(uri: &str, path: &str, cwd: &str) -> (r: Result<DownloadPlan, WallpaperError>)
    ensures
        match picture_id_of(absolute_url_of(uri@)) {
            Err(e) => r == Err::<DownloadPlan, WallpaperError>(e),
            Ok(id) => if is_file_name(id) {
                r is Ok && {
                    let p = r->Ok_0;
                    &&& p.image_url@ == absolute_url_of(uri@)
                    &&& p.save_dir@ == joined(cwd@, path@)
                    &&& p.file_path@ == joined(p.save_dir@, id)
                    &&& (p.file_path@ == p.save_dir@ + id || p.file_path@ == p.save_dir@
                        + seq!['/'] + id)
                    &&& p.script@ == script_for(p.file_path@)
                }
            } else {
                r == Err::<DownloadPlan, WallpaperError>(WallpaperError::BadId)
            },
        },
{
    let image_url = absolute_image_url(uri);
    let id = match picture_id(image_url.as_str()) {
        Ok(id) => id,
        Err(e) => return Err(e),
    };
    if !is_plain_file_name(id.as_str()) {
        return Err(WallpaperError::BadId);
    }
    let save_dir = get_save_path(path, cwd);
    let file_path = join_path(save_dir.as_str(), id.as_str());
    proof {
        file_name_stays_inside(save_dir@, id@);
    }
    let script = wallpaper_script(file_path.as_str());
    Ok(DownloadPlan { image_url, save_dir, file_path, script })
}

} // verus!
