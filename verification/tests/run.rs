use pic_to_github::config::{setting_text, Committer, Config, Repo};
use pic_to_github::error::{ArgumentError, UploadError};
use pic_to_github::run::Uploader;

fn config(proxy: Option<&str>) -> Config {
    Config {
        token: "SECRET".to_string(),
        github_proxy: proxy.map(|p| p.to_string()),
        repo: Repo { owner: "bar".to_string(), repo: "baz".to_string(), path: Some("foo".to_string()) },
        committer: Committer { name: "Ann".to_string(), email: "ann@example.org".to_string() },
    }
}

fn paths(list: &[&str]) -> Vec<String> {
    list.iter().map(|p| p.to_string()).collect()
}

const BASE: &str = "https://api.github.com/repos/bar/baz/contents/foo";

#[test]
fn no_paths_is_an_argument_error() {
    assert_eq!(Uploader::new(&config(None), vec![]), Err(ArgumentError));
    assert_eq!(ArgumentError.message(), "No image paths provided");
}

#[test]
fn a_run_starts_at_the_first_path() {
    let uploader = Uploader::new(&config(Some("https://mirror/")), paths(&["a.png", "b.jpg"])).unwrap();
    assert_eq!(uploader.repo_url, BASE);
    assert_eq!(uploader.proxy, "https://mirror/");
    assert_eq!(uploader.committer, config(None).committer);
    assert_eq!(uploader.paths, paths(&["a.png", "b.jpg"]));
    assert_eq!(uploader.done, 0);
    assert_eq!(uploader.current(), Some("a.png"));
}

#[test]
fn a_missing_proxy_is_empty() {
    let uploader = Uploader::new(&config(None), paths(&["a.png"])).unwrap();
    assert_eq!(uploader.proxy, "");
    assert_eq!(setting_text(&None), "");
    assert_eq!(setting_text(&Some("x".to_string())), "x");
}

#[test]
fn prepare_gives_request_and_address() {
    let uploader = Uploader::new(&config(None), paths(&["shots/a.PNG"])).unwrap();
    let upload = uploader.prepare(b"foobar").unwrap();
    let id = upload.url.strip_prefix(BASE).unwrap().strip_prefix('/').unwrap().strip_suffix(".PNG").unwrap();
    assert_eq!(id.chars().count(), 22);
    assert_eq!(upload.request.message, "add image");
    assert_eq!(upload.request.committer, config(None).committer);
    assert_eq!(upload.request.content, "Zm9vYmFy");
}

#[test]
fn a_run_prints_one_line_per_path_in_order() {
    let list = ["one.png", "two", "three.gif"];
    let mut uploader = Uploader::new(&config(Some("https://mirror/")), paths(&list)).unwrap();
    let mut lines = Vec::new();
    let mut seen = Vec::new();
    while let Some(path) = uploader.current() {
        let path = path.to_string();
        let upload = uploader.prepare(path.as_bytes()).unwrap();
        let response = format!(r#"{{"content":{{"download_url":"https://raw/{}"}}}}"#, path);
        let (next, line) = uploader.finish(&upload.url, &response).unwrap();
        seen.push(path);
        lines.push(line);
        uploader = next;
    }
    assert_eq!(seen, list);
    assert_eq!(
        lines,
        ["https://mirror/https://raw/one.png", "https://mirror/https://raw/two", "https://mirror/https://raw/three.gif"]
    );
    assert_eq!(uploader.done, 3);
    assert_eq!(uploader.current(), None);
    assert_eq!(uploader.prepare(b"x"), None);
}

#[test]
fn a_failed_upload_ends_the_run() {
    let uploader = Uploader::new(&config(None), paths(&["one.png", "two.png"])).unwrap();
    let response = r#"{"message":"Validation Failed"}"#;
    assert_eq!(
        uploader.finish("https://api/put", response),
        Err(UploadError::MissingDownloadUrl { url: "https://api/put".to_string(), response: response.to_string() })
    );
}

#[test]
fn finish_moves_to_the_next_path_only() {
    let uploader = Uploader::new(&config(None), paths(&["one.png", "two.png"])).unwrap();
    let before = uploader.clone();
    let (next, line) = uploader.finish("u", r#"{"content":{"download_url":"d"}}"#).unwrap();
    assert_eq!(line, "d");
    assert_eq!(next.done, 1);
    assert_eq!(next.current(), Some("two.png"));
    assert_eq!(Uploader { done: 0, ..next }, before);
}

#[test]
fn finish_after_the_last_path_stays_at_the_end() {
    let uploader = Uploader::new(&config(None), paths(&["one.png"])).unwrap();
    let (next, _) = uploader.finish("u", r#"{"content":{"download_url":"d"}}"#).unwrap();
    assert_eq!(next.done, 1);
    let (last, line) = next.finish("u", r#"{"content":{"download_url":"e"}}"#).unwrap();
    assert_eq!(line, "e");
    assert_eq!(last.done, 1);
    assert_eq!(last.current(), None);
}
