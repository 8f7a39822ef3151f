use dhref::errors::CrateError;
use dhref::validate::check_url;

#[test]
fn test_check_url() {
    let mut url = "file://hello";
    assert_eq!(check_url(url), Err(CrateError::URLFormatError));
    url = "https://google.com";
    assert_eq!(check_url(url), Ok(()));
    url = "http://google.com";
    assert_eq!(check_url(url), Ok(()));
}

#[test]
fn check_url_empty_string_is_refused() {
    assert_eq!(check_url(""), Err(CrateError::URLFormatError));
}

#[test]
fn check_url_scheme_is_case_sensitive() {
    assert_eq!(check_url("HTTP://x"), Err(CrateError::URLFormatError));
    assert_eq!(check_url("Https://x"), Err(CrateError::URLFormatError));
}

#[test]
fn check_url_without_colon_is_refused() {
    // A scheme-less string fails, even when all of it reads http or https.
    assert_eq!(check_url("http"), Err(CrateError::URLFormatError));
    assert_eq!(check_url("https"), Err(CrateError::URLFormatError));
    assert_eq!(check_url("ftp"), Err(CrateError::URLFormatError));
    assert_eq!(check_url("http:"), Ok(()));
    assert_eq!(check_url("https:"), Ok(()));
}

#[test]
fn check_url_rejects_near_misses() {
    assert_eq!(check_url("httpx://host"), Err(CrateError::URLFormatError));
    assert_eq!(check_url("htt://host"), Err(CrateError::URLFormatError));
    assert_eq!(check_url("://host"), Err(CrateError::URLFormatError));
    assert_eq!(check_url(" http://host"), Err(CrateError::URLFormatError));
}
