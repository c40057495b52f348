use brewver::request::bearer_header_value;
use brewver::request::commit_message;
use brewver::request::format_gh_api_commits_url;
use brewver::request::format_gh_api_raw_file_url;
use brewver::request::get_file_path;
use brewver::request::user_agent;
use brewver::request::ResolutionRequest;
use brewver::staging::staging_plan;

#[test]
fn candidate_paths_bucketed_then_flat() {
    let paths = get_file_path("wget");
    assert_eq!(paths.len(), 2);
    assert_eq!(paths[0], "/Formula/w/wget.rb");
    assert_eq!(paths[1], "/Formula/wget.rb");
}

#[test]
fn candidate_paths_single_letter_name() {
    let paths = get_file_path("r");
    assert_eq!(paths.len(), 2);
    assert_eq!(paths[0], "/Formula/r/r.rb");
    assert_eq!(paths[1], "/Formula/r.rb");
}

#[test]
fn commit_message_exact_fragment() {
    assert_eq!(commit_message("wget", "1.21.3"), "wget: update 1.21.3 bottle");
}

#[test]
fn commits_url_exact() {
    assert_eq!(
        format_gh_api_commits_url("/Formula/wget.rb"),
        "https://api.github.com/repos/Homebrew/homebrew-core/commits?path=/Formula/wget.rb&per_page=100"
    );
}

#[test]
fn raw_file_url_exact() {
    assert_eq!(
        format_gh_api_raw_file_url("abc123", "/Formula/wget.rb"),
        "https://raw.githubusercontent.com/Homebrew/homebrew-core/abc123/Formula/wget.rb"
    );
}

#[test]
fn client_identifier_and_bearer_header() {
    assert_eq!(user_agent(), "BrewVer/0.1");
    assert_eq!(bearer_header_value("sometoken"), "Bearer sometoken");
}

#[test]
fn request_keeps_its_fields() {
    let r = ResolutionRequest::new(String::from("wget"), String::from("1.21.3"));
    assert_eq!(r.name, "wget");
    assert_eq!(r.version, "1.21.3");
}

#[test]
fn staging_plan_fields() {
    let p = staging_plan("wget");
    assert_eq!(p.prefix, "wget");
    assert_eq!(p.suffix, ".rb");
    assert_eq!(p.rand_bytes, 8);
}
