use vstd::prelude::*;

verus! {

/// The endpoint that describes the picture of the day.
pub const BING_IMAGE_REQUEST_URL: &'static str = "http://www.bing.com/HPImageArchive.aspx";

/// The browser-like User-Agent sent with the metadata request.
pub const USER_AGENT: &'static str = "Mozilla/5.0 (Macintosh; Intel Mac OS X 10_15_7) AppleWebKit/537.36 (KHTML, like Gecko) Chrome/114.0.0.0 Safari/537.36";

/// The query of the metadata request: JSON output, today's image only, in
/// ultra-HD at 3840 by 2160.
pub const METADATA_QUERY: [(&'static str, &'static str); 6] = [
    ("format", "js"),
    ("idx", "0"),
    ("n", "1"),
    ("uhd", "1"),
    ("uhdwidth", "3840"),
    ("uhdheight", "2160"),
];

} // verus!
