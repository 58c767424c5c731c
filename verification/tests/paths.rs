use i_uploader::delete::{finish_delete, handle_delete, DeleteRequest};
use i_uploader::helpers::{filename_path, get_base_dir, get_thumbnail_dir, thumbnail_filename_path};
use i_uploader::thumbnail::{
    generate_thumbnail, get_thumbnail_url, thumbnail_outcome, PLACEHOLDER_URL,
};
use i_uploader::{Opt, WebError, THUMBNAIL_SUBDIR};

fn make_test_opt() -> Opt {
    Opt {
        port: 1337,
        base_dir: "/tmp".into(),
        server_url: "http://test.example.com".into(),
        auth_user: None,
        auth_pass: None,
        recents: 1,
        thumbnail_size: 150,
        max_upload_size: 30 * 1024 * 1024,
    }
}

fn stored_name(filename: &str) -> String {
    let path = filename_path(filename, &make_test_opt());
    path.strip_prefix("/tmp").unwrap().trim_start_matches('/').to_string()
}

#[test]
fn default_settings() {
    let opt = Opt::default();
    assert_eq!(opt.port, 8088);
    assert_eq!(opt.base_dir, "./tmp");
    assert_eq!(opt.server_url, "http://localhost:8088");
    assert_eq!(opt.auth_user, None);
    assert_eq!(opt.auth_pass, None);
    assert_eq!(opt.recents, 15);
    assert_eq!(opt.thumbnail_size, 150);
    assert_eq!(opt.max_upload_size, 2_147_483_648);
}

#[test]
fn plain_name_is_joined_to_the_base_dir() {
    let opt = make_test_opt();
    assert_eq!(get_base_dir(&opt), "/tmp");
    assert_eq!(filename_path("original.txt", &opt), "/tmp/original.txt");
}

#[test]
fn thumbnail_lives_in_the_thumbnail_dir() {
    let opt = make_test_opt();
    assert_eq!(THUMBNAIL_SUBDIR, "thumbnails");
    assert_eq!(get_thumbnail_dir(&opt), "/tmp/thumbnails");
    assert_eq!(thumbnail_filename_path("cat.png", &opt), "/tmp/thumbnails/cat.png");
}

#[test]
fn traversal_is_neutralised() {
    let opt = make_test_opt();
    assert_eq!(filename_path("../../etc/passwd", &opt), "/tmp/....etcpasswd");
    assert_eq!(thumbnail_filename_path("../secret.png", &opt), "/tmp/thumbnails/..secret.png");
}

#[test]
fn absolute_path_is_neutralised() {
    assert_eq!(stored_name("/etc/passwd"), "etcpasswd");
    assert_eq!(stored_name("\\\\server\\share"), "servershare");
}

#[test]
fn sanitized_names_hold_no_separator_and_are_no_dots() {
    let names = [
        "../", "..", ".", "./", "/..", "/../", "../../foobar", "./././foobar", "/abs/path/to/some/dir",
        "relative/path/to/some/dir", "a\\b", "..\\..\\x", "", "~/.\u{0000}notssh/authorized_keys",
    ];
    for name in names {
        let stored = stored_name(name);
        assert!(!stored.contains('/'), "{name:?} gave {stored:?}");
        assert!(!stored.contains('\\'), "{name:?} gave {stored:?}");
        assert_ne!(stored, ".");
        assert_ne!(stored, "..");
    }
}

#[test]
fn names_of_dots_become_empty() {
    assert_eq!(stored_name("."), "");
    assert_eq!(stored_name(".."), "");
    assert_eq!(stored_name("../"), "");
}

#[test]
fn delete_of_a_stored_name() {
    let opt = make_test_opt();
    let form = DeleteRequest { filename: "original.txt".into() };
    let plan = handle_delete(&form, &opt).unwrap();
    assert_eq!(plan.file, "/tmp/original.txt");
    assert_eq!(plan.thumbnail, "/tmp/thumbnails/original.txt");
}

#[test]
fn delete_refuses_what_is_no_stored_name() {
    let opt = make_test_opt();
    for name in ["../original.txt", "a/b", "/etc/passwd", "..", ".", "what?.txt", "a\\b"] {
        let form = DeleteRequest { filename: name.into() };
        assert_eq!(handle_delete(&form, &opt), Err(WebError::BadRequest), "{name:?}");
    }
}

#[test]
fn delete_answers_with_a_redirect_to_the_list() {
    let done = finish_delete(Ok(()), Ok(())).unwrap();
    assert_eq!(done.status, 303);
    assert_eq!(done.location, "recent");
    assert_eq!(done.body, "deleted");
}

#[test]
fn delete_ignores_a_missing_thumbnail() {
    let done = finish_delete(Ok(()), Err("No such file or directory".into())).unwrap();
    assert_eq!(done.status, 303);
}

#[test]
fn delete_fails_when_the_file_stays() {
    let failed = finish_delete(Err("permission denied".into()), Ok(()));
    assert_eq!(failed, Err(WebError::IoError("permission denied".into())));
}

#[test]
fn placeholder_without_thumbnail() {
    assert_eq!(PLACEHOLDER_URL, "/recent/placeholder.png");
    assert_eq!(get_thumbnail_url("cat.png", false), "/recent/placeholder.png");
}

#[test]
fn thumbnail_link_once_it_exists() {
    assert_eq!(get_thumbnail_url("cat.png", true), "thumbnails/cat.png");
    assert_eq!(get_thumbnail_url("2024/cat.png", true), "thumbnails/2024/cat.png");
}

#[test]
fn no_thumbnail_of_what_is_no_image() {
    assert!(generate_thumbnail(None, &make_test_opt()).is_none());
}

#[test]
fn thumbnail_is_a_square_of_the_configured_size() {
    let opt = make_test_opt();
    let wide = image::DynamicImage::new_rgb8(300, 200);
    let thumb = generate_thumbnail(Some(wide), &opt).unwrap();
    assert_eq!((thumb.width(), thumb.height()), (150, 150));
    let tall = image::DynamicImage::new_rgb8(40, 90);
    let thumb = generate_thumbnail(Some(tall), &opt).unwrap();
    assert_eq!((thumb.width(), thumb.height()), (150, 150));
}

#[test]
fn outcome_of_making_a_thumbnail() {
    assert_eq!(thumbnail_outcome(None), Ok(false));
    assert_eq!(thumbnail_outcome(Some(Ok(()))), Ok(true));
    assert_eq!(thumbnail_outcome(Some(Err("disk full".into()))), Err(WebError::InvalidImage));
}

#[test]
fn thumbnail_is_the_image_resized_to_fill() {
    let opt = make_test_opt();
    let mut source = image::RgbImage::new(64, 48);
    for (x, y, pixel) in source.enumerate_pixels_mut() {
        *pixel = image::Rgb([(x * 4) as u8, (y * 5) as u8, ((x + y) * 2) as u8]);
    }
    let source = image::DynamicImage::ImageRgb8(source);
    let expected = source.resize_to_fill(150, 150, image::imageops::FilterType::Triangle);
    let thumb = generate_thumbnail(Some(source.clone()), &opt).unwrap();
    assert_eq!(thumb.as_bytes(), expected.as_bytes());
    assert_ne!(thumb.as_bytes(), source.as_bytes());
}

#[test]
fn no_thumbnail_of_an_image_without_pixels() {
    let opt = make_test_opt();
    assert!(generate_thumbnail(Some(image::DynamicImage::new_rgb8(0, 0)), &opt).is_none());
    assert!(generate_thumbnail(Some(image::DynamicImage::new_rgb8(0, 7)), &opt).is_none());
    assert!(generate_thumbnail(Some(image::DynamicImage::new_rgba8(7, 0)), &opt).is_none());
    assert_eq!(thumbnail_outcome(None), Ok(false));
}

#[test]
fn thumbnail_of_the_smallest_and_of_long_images() {
    let opt = make_test_opt();
    for (width, height) in [(1, 1), (1, 1000), (1000, 1), (150, 150), (151, 149), (3, 2)] {
        let source = image::DynamicImage::new_rgb8(width, height);
        let thumb = generate_thumbnail(Some(source), &opt).unwrap();
        assert_eq!((thumb.width(), thumb.height()), (150, 150), "{width} x {height}");
    }
}

#[test]
fn thumbnail_of_size_zero_and_one() {
    let mut opt = make_test_opt();
    opt.thumbnail_size = 0;
    let thumb = generate_thumbnail(Some(image::DynamicImage::new_rgb8(30, 20)), &opt).unwrap();
    assert_eq!((thumb.width(), thumb.height()), (0, 0));
    opt.thumbnail_size = 1;
    let thumb = generate_thumbnail(Some(image::DynamicImage::new_rgb8(30, 20)), &opt).unwrap();
    assert_eq!((thumb.width(), thumb.height()), (1, 1));
}
