use bing_wallpaper::{
    is_absolute_path, is_plain_file_name, absolute_image_url, download_plan, find_id, first_step, get_image_url, get_save_path,
    join_path, next_action, picture_id, wallpaper_script, Action, Image, Ret, Step,
    WallpaperError, BING, SAVE_PATH,
};

fn image(url: &str) -> Image {
    Image {
        url: url.to_string(),
        copyright: "c".to_string(),
        title: "t".to_string(),
    }
}

#[test]
fn first_image_url_is_returned() {
    let ret = Ret {
        images: vec![image("/th?id=first"), image("/th?id=second"), image("/th?id=third")],
    };
    assert_eq!(get_image_url(&ret), Ok("/th?id=first".to_string()));
}

#[test]
fn single_image_url_is_returned() {
    let ret = Ret { images: vec![image("/th?id=OHR.Sample123&foo=1")] };
    assert_eq!(get_image_url(&ret), Ok("/th?id=OHR.Sample123&foo=1".to_string()));
}

#[test]
fn empty_images_is_an_error() {
    let ret = Ret { images: vec![] };
    assert_eq!(get_image_url(&ret), Err(WallpaperError::NoImages));
    assert_eq!(get_image_url(&Ret::default()), Err(WallpaperError::NoImages));
}

#[test]
fn absolute_url_prefixes_host() {
    assert_eq!(BING, "http://cn.bing.com");
    assert_eq!(
        absolute_image_url("/th?id=OHR.Sample123&foo=1"),
        "http://cn.bing.com/th?id=OHR.Sample123&foo=1"
    );
    assert_eq!(absolute_image_url(""), "http://cn.bing.com");
}

#[test]
fn picture_id_is_extracted() {
    assert_eq!(
        picture_id("http://cn.bing.com/th?id=OHR.Test_EN-US1234567890&foo=bar"),
        Ok("OHR.Test_EN-US1234567890".to_string())
    );
}

#[test]
fn picture_id_missing_is_an_error() {
    assert_eq!(
        picture_id("http://cn.bing.com/th?foo=bar&idx=1"),
        Err(WallpaperError::MissingId)
    );
    assert_eq!(picture_id("http://cn.bing.com/th"), Err(WallpaperError::MissingId));
}

#[test]
fn picture_id_of_malformed_url_is_an_error() {
    assert_eq!(picture_id("no scheme here"), Err(WallpaperError::MalformedUrl));
    assert_eq!(picture_id("http://[bad/th?id=x"), Err(WallpaperError::MalformedUrl));
}

#[test]
fn picture_id_is_decoded() {
    assert_eq!(picture_id("http://cn.bing.com/th?id=a%20b+c"), Ok("a b c".to_string()));
}

#[test]
fn picture_id_last_occurrence_wins() {
    assert_eq!(
        picture_id("http://cn.bing.com/th?id=one&x=2&id=two"),
        Ok("two".to_string())
    );
}

#[test]
fn find_id_scans_pairs() {
    let pairs = vec![
        ("id".to_string(), "a".to_string()),
        ("foo".to_string(), "b".to_string()),
        ("id".to_string(), "c".to_string()),
        ("ids".to_string(), "d".to_string()),
    ];
    assert_eq!(find_id(&pairs), Some("c".to_string()));
    let none = vec![("i".to_string(), "a".to_string()), ("idd".to_string(), "b".to_string())];
    assert_eq!(find_id(&none), None);
    assert_eq!(find_id(&vec![]), None);
}

#[test]
fn relative_save_path_joins_cwd() {
    assert_eq!(get_save_path("sub/dir", "/home/u"), "/home/u/sub/dir");
}

#[test]
fn absolute_save_path_is_unchanged() {
    assert_eq!(get_save_path("/abs/dir", "/home/u"), "/abs/dir");
}

#[test]
fn default_save_path_joins_cwd() {
    assert_eq!(get_save_path(SAVE_PATH, "/home/u"), "/home/u/wallpaper");
}

#[test]
fn join_path_separators() {
    assert_eq!(join_path("/home/u/", "x"), "/home/u/x");
    assert_eq!(join_path("", "x"), "x");
    assert_eq!(join_path("a", ""), "a/");
    assert_eq!(join_path("/", "etc"), "/etc");
    assert_eq!(join_path("a/b", "/c"), "/c");
}

#[test]
fn script_quotes_path() {
    assert_eq!(
        wallpaper_script("/tmp/x y"),
        "tell application \"Finder\" to set desktop picture to POSIX file \"/tmp/x y\""
    );
}

#[test]
fn sample_run_plan() {
    let plan = download_plan("/th?id=OHR.Sample123&foo=1", "test_out", "/home/u").unwrap();
    assert_eq!(plan.image_url, "http://cn.bing.com/th?id=OHR.Sample123&foo=1");
    assert_eq!(plan.save_dir, "/home/u/test_out");
    assert_eq!(plan.file_path, "/home/u/test_out/OHR.Sample123");
    assert_eq!(
        plan.script,
        "tell application \"Finder\" to set desktop picture to POSIX file \"/home/u/test_out/OHR.Sample123\""
    );
}

#[test]
fn plan_with_absolute_save_path() {
    let plan = download_plan("/th?id=OHR.X&foo=1", "/abs/dir", "/home/u").unwrap();
    assert_eq!(plan.save_dir, "/abs/dir");
    assert_eq!(plan.file_path, "/abs/dir/OHR.X");
}

#[test]
fn plan_without_id_fails() {
    assert_eq!(download_plan("/th?foo=1", "out", "/home/u"), Err(WallpaperError::MissingId));
}

#[test]
fn plan_with_bad_address_fails() {
    assert_eq!(download_plan(":99999/x?id=a", "out", "/"), Err(WallpaperError::MalformedUrl));
}

#[test]
fn step_decisions() {
    assert_eq!(first_step(), Step::CreateDir);
    assert_eq!(next_action(Step::CreateDir, true), Action::Run(Step::WriteFile));
    assert_eq!(next_action(Step::CreateDir, false), Action::WarnThenRun(Step::WriteFile));
    assert_eq!(next_action(Step::WriteFile, true), Action::Run(Step::SetWallpaper));
    assert_eq!(next_action(Step::WriteFile, false), Action::Abort);
    assert_eq!(next_action(Step::SetWallpaper, true), Action::Finish);
    assert_eq!(next_action(Step::SetWallpaper, false), Action::WarnThenFinish);
}

#[test]
fn error_messages() {
    assert_eq!(WallpaperError::MissingId.message(), "there is no picture id");
    assert!(!WallpaperError::NoImages.message().is_empty());
    assert!(!WallpaperError::MalformedUrl.message().is_empty());
    assert_eq!(WallpaperError::BadId.message(), "the picture id is not a plain file name");
}

#[test]
fn metadata_request_constants() {
    assert_eq!(bing_wallpaper::BING_IMAGE_REQUEST_URL, "http://www.bing.com/HPImageArchive.aspx");
    let query = bing_wallpaper::METADATA_QUERY;
    assert_eq!(query.len(), 6);
    assert_eq!(query[0], ("format", "js"));
    assert_eq!(query[4], ("uhdwidth", "3840"));
    assert_eq!(query[5], ("uhdheight", "2160"));
    assert!(bing_wallpaper::USER_AGENT.starts_with("Mozilla/5.0"));
}

#[test]
fn plan_with_absolute_id_fails() {
    assert_eq!(
        download_plan("/th?id=%2Fetc%2Fx&foo=1", "/abs/dir", "/home/u"),
        Err(WallpaperError::BadId)
    );
}

#[test]
fn plan_with_escaping_id_fails() {
    assert_eq!(download_plan("/th?id=..", "out", "/home/u"), Err(WallpaperError::BadId));
    assert_eq!(download_plan("/th?id=.", "out", "/home/u"), Err(WallpaperError::BadId));
    assert_eq!(download_plan("/th?id=", "out", "/home/u"), Err(WallpaperError::BadId));
    assert_eq!(download_plan("/th?id=a%2F..%2Fb", "out", "/home/u"), Err(WallpaperError::BadId));
}

#[test]
fn plain_file_names() {
    assert!(is_plain_file_name("OHR.Sample123"));
    assert!(is_plain_file_name("..."));
    assert!(is_plain_file_name(".x"));
    assert!(!is_plain_file_name(""));
    assert!(!is_plain_file_name("."));
    assert!(!is_plain_file_name(".."));
    assert!(!is_plain_file_name("/etc/x"));
    assert!(!is_plain_file_name("a/b"));
}

#[test]
fn absolute_paths() {
    assert!(is_absolute_path("/abs/dir"));
    assert!(!is_absolute_path("sub/dir"));
    assert!(!is_absolute_path(""));
}
