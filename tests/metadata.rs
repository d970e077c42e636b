use bings_everyday_wallpaper::error::{FetchError, ParseProblem};
use bings_everyday_wallpaper::metadata::{
    extract_image_url, image_url_from_field, image_url_from_relative, IMAGES_KEY, IMAGE_HOST, TODAY_INDEX, URL_KEY,
};

#[test]
fn absolute_url_from_metadata() {
    let body = br#"{"images":[{"url":"/th?id=ABC"}]}"#;
    assert_eq!(extract_image_url(body), Ok("https://www.bing.com/th?id=ABC".to_string()));
}

#[test]
fn absolute_url_ignores_other_fields() {
    let body = br#"{"images":[{"startdate":"20240101","url":"/th?id=OHR.X_1920x1080.jpg&rf=a","hsh":"q"},{"url":"/other"}],"tooltips":{}}"#;
    assert_eq!(
        extract_image_url(body),
        Ok("https://www.bing.com/th?id=OHR.X_1920x1080.jpg&rf=a".to_string())
    );
}

#[test]
fn missing_images_is_parse_error() {
    assert_eq!(
        extract_image_url(b"{}"),
        Err(FetchError::Parse(ParseProblem::MissingImageUrl))
    );
}

#[test]
fn empty_images_is_parse_error() {
    assert_eq!(
        extract_image_url(br#"{"images":[]}"#),
        Err(FetchError::Parse(ParseProblem::MissingImageUrl))
    );
}

#[test]
fn non_string_url_is_parse_error() {
    assert_eq!(
        extract_image_url(br#"{"images":[{"url":5}]}"#),
        Err(FetchError::Parse(ParseProblem::MissingImageUrl))
    );
}

#[test]
fn non_json_body_is_parse_error() {
    assert_eq!(
        extract_image_url(b"<html>busy</html>"),
        Err(FetchError::Parse(ParseProblem::NotJson))
    );
    assert_eq!(extract_image_url(b""), Err(FetchError::Parse(ParseProblem::NotJson)));
}

#[test]
fn url_from_field() {
    assert_eq!(image_url_from_field(Some("/th?id=ABC")), Ok("https://www.bing.com/th?id=ABC".to_string()));
    assert_eq!(image_url_from_field(None), Err(FetchError::Parse(ParseProblem::MissingImageUrl)));
}

#[test]
fn url_from_relative() {
    assert_eq!(image_url_from_relative(""), IMAGE_HOST);
    assert_eq!(image_url_from_relative("/a.jpg"), "https://www.bing.com/a.jpg");
}

#[test]
fn error_messages() {
    assert_eq!(FetchError::Network.message(), "network error");
    assert_eq!(FetchError::Filesystem.message(), "filesystem error");
    assert_eq!(
        FetchError::Parse(ParseProblem::NotJson).message(),
        "parse error: the metadata is not JSON"
    );
    assert_eq!(
        FetchError::Parse(ParseProblem::MissingImageUrl).message(),
        "parse error: the metadata holds no image url"
    );
}

#[test]
fn images_object_is_not_an_array() {
    assert_eq!(
        extract_image_url(br#"{"images":{"0":{"url":"/x"}}}"#),
        Err(FetchError::Parse(ParseProblem::MissingImageUrl))
    );
}

#[test]
fn trailing_content_is_not_json() {
    assert_eq!(
        extract_image_url(br#"{"images":[{"url":"/x"}]} extra"#),
        Err(FetchError::Parse(ParseProblem::NotJson))
    );
}

#[test]
fn image_address_path() {
    assert_eq!(IMAGES_KEY, "images");
    assert_eq!(TODAY_INDEX, 0);
    assert_eq!(URL_KEY, "url");
    assert_eq!(
        extract_image_url(br#"{"images":[{"url":"/first"},{"url":"/second"}]}"#),
        Ok("https://www.bing.com/first".to_string())
    );
    assert_eq!(
        extract_image_url(br#"{"images":[{"href":"/first"}]}"#),
        Err(FetchError::Parse(ParseProblem::MissingImageUrl))
    );
}
