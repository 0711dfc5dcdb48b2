use base64::Engine;
use pic_to_github::config::Committer;
use pic_to_github::error::UploadError;
use pic_to_github::upload::{
    can_encode, encode_img, finish_upload, upload_outcome, UploadRequest, COMMIT_MESSAGE,
};

fn decode(text: &str) -> Vec<u8> {
    base64::engine::general_purpose::STANDARD.decode(text).unwrap()
}

#[test]
fn encode_known_texts() {
    assert_eq!(encode_img(b""), "");
    assert_eq!(encode_img(b"f"), "Zg==");
    assert_eq!(encode_img(b"fo"), "Zm8=");
    assert_eq!(encode_img(b"foo"), "Zm9v");
    assert_eq!(encode_img(b"foob"), "Zm9vYg==");
    assert_eq!(encode_img(b"fooba"), "Zm9vYmE=");
    assert_eq!(encode_img(b"foobar"), "Zm9vYmFy");
    assert_eq!(encode_img(b"hello world~"), "aGVsbG8gd29ybGR+");
}

#[test]
fn lengths_that_can_be_encoded() {
    assert!(can_encode(0));
    assert!(can_encode(1 << 20));
    // Four characters for each three bytes, begun or full, must fit `usize`.
    let most = (usize::MAX - 4) / 4 * 3 + 2;
    assert!(can_encode(most));
    assert!(!can_encode(most + 1));
    assert!(!can_encode(usize::MAX));
}

#[test]
fn encode_uses_the_standard_alphabet() {
    assert_eq!(encode_img(&[0xfb, 0xff, 0xbf]), "+/+/");
    assert_eq!(encode_img(&[0xff]), "/w==");
}

#[test]
fn encode_then_decode_gives_the_bytes_back() {
    let every_byte: Vec<u8> = (0..=255).collect();
    let mut buffers: Vec<Vec<u8>> = vec![vec![], vec![0], vec![0, 0], vec![255; 3], every_byte];
    for len in 0..40usize {
        buffers.push((0..len).map(|i| (i * 37 + len * 11) as u8).collect());
    }
    for buffer in buffers {
        assert_eq!(decode(&encode_img(&buffer)), buffer);
    }
}

#[test]
fn request_holds_message_committer_and_content() {
    let committer = Committer { name: "Ann".to_string(), email: "ann@example.org".to_string() };
    let request = UploadRequest::new(&committer, b"foobar");
    assert_eq!(request.message, "add image");
    assert_eq!(COMMIT_MESSAGE, "add image");
    assert_eq!(request.committer, committer);
    assert_eq!(request.content, "Zm9vYmFy");
}

#[test]
fn line_is_proxy_then_download_url() {
    assert_eq!(
        finish_upload("https://mirror/", "https://api/put", r#"{"content":{"download_url":"https://x/y.png"}}"#),
        Ok("https://mirror/https://x/y.png".to_string())
    );
}

#[test]
fn line_without_proxy_is_the_download_url() {
    assert_eq!(
        finish_upload("", "u", r#"{"content":{"download_url":"https://x/y.png","name":"y.png"},"commit":{}}"#),
        Ok("https://x/y.png".to_string())
    );
}

#[test]
fn line_gets_no_separator() {
    assert_eq!(
        finish_upload("https://mirror", "u", r#" { "content" : { "download_url" : "x/y.png" } } "#),
        Ok("https://mirrorx/y.png".to_string())
    );
}

#[test]
fn download_url_is_read_as_json_text() {
    assert_eq!(
        finish_upload("p:", "u", r#"{"content":{"download_url":"a\/bé\"c"}}"#),
        Ok("p:a/bé\"c".to_string())
    );
}

fn missing(url: &str, response: &str) -> Result<String, UploadError> {
    Err(UploadError::MissingDownloadUrl { url: url.to_string(), response: response.to_string() })
}

#[test]
fn answer_without_download_url_is_an_error() {
    let response = r#"{"message":"Bad credentials","status":"401"}"#;
    assert_eq!(finish_upload("https://mirror/", "https://api/put", response), missing("https://api/put", response));
    let response = r#"{"content":{"name":"y.png"}}"#;
    assert_eq!(finish_upload("", "u", response), missing("u", response));
}

#[test]
fn download_url_that_is_no_string_is_an_error() {
    for response in [
        r#"{"content":{"download_url":null}}"#,
        r#"{"content":{"download_url":7}}"#,
        r#"{"content":{"download_url":["https://x/y.png"]}}"#,
        r#"{"content":{"download_url":{"url":"https://x/y.png"}}}"#,
        r#"{"content":"download_url"}"#,
        r#"{"content":null}"#,
        r#"{"content":[{"download_url":"https://x/y.png"}]}"#,
        r#"{"download_url":"https://x/y.png"}"#,
        r#"["content"]"#,
        r#""https://x/y.png""#,
        "null",
        "12",
    ] {
        assert_eq!(finish_upload("p", "u", response), missing("u", response), "{response}");
    }
}

#[test]
fn answer_that_is_no_json_is_an_error() {
    for response in ["", "<html>", r#"{"content":{"download_url":"x"}"#, r#"{"content":{"download_url":"x"}} x"#] {
        assert_eq!(
            finish_upload("p", "https://api/put", response),
            Err(UploadError::InvalidResponse { url: "https://api/put".to_string(), response: response.to_string() }),
            "{response}"
        );
    }
}

/// The line for an answer, by `serde_json` alone.
fn line_by_serde(proxy: &str, response: &str) -> Option<String> {
    let value = serde_json::from_str::<serde_json::Value>(response).ok()?;
    let download_url = value["content"]["download_url"].as_str()?;
    Some(format!("{proxy}{download_url}"))
}

#[test]
fn line_agrees_with_serde() {
    for response in [
        r#"{"content":{"download_url":"https://x/y.png"}}"#,
        r#"{"content":{"download_url":"https://x/y.png","download_url":"https://x/z.png"}}"#,
        r#"{"content":{"download_url":""}}"#,
        r#"{"content":{"download_url":"é😀"}}"#,
        r#"{"content":{"Download_url":"https://x/y.png"}}"#,
        r#"{"Content":{"download_url":"https://x/y.png"}}"#,
        r#"{"content":{"download_url":true}}"#,
        r#"{"content":{}}"#,
        r#"{"content":[]}"#,
        r#"{}"#,
        r#"[]"#,
        r#"{"content":{"download_url":"x"}}{}"#,
        "\u{feff}{}",
        "{",
    ] {
        assert_eq!(
            finish_upload("p/", "u", response).ok(),
            line_by_serde("p/", response),
            "{response}"
        );
    }
}

#[test]
fn outcome_for_a_found_url() {
    assert_eq!(upload_outcome("https://mirror/", "u", "r", Some("https://x/y.png")), Ok("https://mirror/https://x/y.png".to_string()));
    assert_eq!(upload_outcome("", "u", "r", Some("")), Ok(String::new()));
}

#[test]
fn outcome_for_no_url() {
    assert_eq!(upload_outcome("https://mirror/", "u", "r", None), missing("u", "r"));
}

#[test]
fn upload_error_messages() {
    let e = UploadError::MissingDownloadUrl { url: "https://api/put".to_string(), response: "{}".to_string() };
    assert_eq!(e.message(), "commit failed: https://api/put {}");
    let e = UploadError::InvalidResponse { url: "https://api/put".to_string(), response: "<html>".to_string() };
    assert_eq!(e.message(), "error decoding response body: https://api/put <html>");
}
