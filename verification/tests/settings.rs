use gistit::error::{CredentialError, PublishError};
use gistit::gist::GistBuilder;
use gistit::request::ApiRequestBuilder;
use std::path::PathBuf;

#[test]
fn builder_defaults_point_at_the_public_host() {
    let gist = GistBuilder::new("alice", "secret").finalize();
    assert_eq!(gist.api_uri(), "https://api.github.com/gists");
    assert_eq!(gist.host(), "github.com");
    assert_eq!(gist.user(), "alice");
    assert_eq!(gist.workdir(), ".gistit");
    assert_eq!(gist.authorization(), "token secret");
    assert_eq!(gist.file_count(), 0);
    assert!(gist.file(0).is_none());
}

#[test]
fn with_host_changes_the_addresses_only() {
    let mut builder = GistBuilder::new("alice", "secret");
    builder.with_host("example.org".to_string());
    let gist = builder.finalize();
    assert_eq!(gist.api_uri(), "https://api.example.org/gists");
    assert_eq!(gist.sshurl("abc123"), "git@example.org:abc123.git");
    assert_eq!(gist.host(), "example.org");
    assert_eq!(gist.user(), "alice");
    assert_eq!(gist.authorization(), "token secret");
    assert_eq!(gist.workdir(), ".gistit");
}

#[test]
fn with_files_keeps_the_files_in_order() {
    let mut builder = GistBuilder::new("alice", "secret");
    builder
        .with_host("example.org".to_string())
        .with_files(vec![PathBuf::from("/tmp/a.txt"), PathBuf::from("b/c.rs")]);
    let gist = builder.finalize();
    assert_eq!(gist.file_count(), 2);
    assert_eq!(gist.file(0), Some(&PathBuf::from("/tmp/a.txt")));
    assert_eq!(gist.file(1), Some(&PathBuf::from("b/c.rs")));
    assert_eq!(gist.file(2), None);
    assert_eq!(gist.host(), "example.org");
}

#[test]
fn finalize_can_be_repeated() {
    let mut builder = GistBuilder::new("bob", "t0ken");
    builder.with_files(vec![PathBuf::from("x")]);
    let first = builder.finalize();
    let second = builder.finalize();
    assert_eq!(first.api_uri(), second.api_uri());
    assert_eq!(first.file(0), second.file(0));
    assert_eq!(first.authorization(), "token t0ken");
}

#[test]
fn ssh_address_names_the_push_user_and_the_gist() {
    let gist = GistBuilder::new("alice", "secret").finalize();
    assert_eq!(gist.sshurl("abc123"), "git@github.com:abc123.git");
    assert_eq!(gist.sshurl(""), "git@github.com:.git");
    let mut builder = GistBuilder::new("alice", "tok");
    builder.with_host("example.org".to_string());
    assert_eq!(builder.finalize().sshurl("abc123"), "git@example.org:abc123.git");
}

#[test]
fn request_starts_secret_and_undescribed() {
    let body = ApiRequestBuilder::new("alice".to_string()).get_body();
    assert_eq!(body.user, "alice");
    assert_eq!(body.description, "");
    assert!(!body.public);
    assert_eq!(body.file_name, "gistitfile");
    assert_eq!(body.file_content, "Hello gistit");
}

#[test]
fn request_setters_chain() {
    let mut builder = ApiRequestBuilder::new("alice".to_string());
    builder.with_description("first").with_public(true).with_description("notes");
    let body = builder.get_body();
    assert_eq!(body.user, "alice");
    assert_eq!(body.description, "notes");
    assert!(body.public);
}

#[test]
fn body_renders_as_the_expected_document() {
    let mut builder = ApiRequestBuilder::new("alice".to_string());
    builder.with_description("my notes").with_public(true);
    assert_eq!(
        builder.get_body().to_json(),
        "{\"description\":\"my notes\",\"files\":{\"gistitfile\":{\"content\":\"Hello gistit\"}},\"public\":true,\"user\":\"alice\"}"
    );
}

#[test]
fn body_escapes_what_json_does_not_take() {
    let mut builder = ApiRequestBuilder::new("al\"ice".to_string());
    builder.with_description("line one\nline \\ two");
    let text = builder.get_body().to_json();
    assert_eq!(
        text,
        "{\"description\":\"line one\\nline \\\\ two\",\"files\":{\"gistitfile\":{\"content\":\"Hello gistit\"}},\"public\":false,\"user\":\"al\\\"ice\"}"
    );

    let mut content = serde_json::Map::new();
    content.insert(
        "content".to_string(),
        serde_json::Value::String("Hello gistit".to_string()),
    );
    let mut files = serde_json::Map::new();
    files.insert("gistitfile".to_string(), serde_json::Value::Object(content));
    let mut expected = serde_json::Map::new();
    expected.insert("user".to_string(), serde_json::Value::String("al\"ice".to_string()));
    expected.insert(
        "description".to_string(),
        serde_json::Value::String("line one\nline \\ two".to_string()),
    );
    expected.insert("public".to_string(), serde_json::Value::Bool(false));
    expected.insert("files".to_string(), serde_json::Value::Object(files));
    let parsed: serde_json::Value = serde_json::from_str(&text).unwrap();
    assert_eq!(parsed, serde_json::Value::Object(expected.clone()));
    assert_eq!(text, serde_json::Value::Object(expected).to_string());
}

#[test]
fn every_condition_has_its_description() {
    assert_eq!(PublishError::CommitFailed.message(), "Commit faild");
    assert_eq!(PublishError::NoCommitFound.message(), "Couldn't find commit");
    assert_eq!(
        PublishError::StatusResolution.message(),
        "Couldn't resolve the status of a path"
    );
    assert_eq!(
        PublishError::Configuration.message(),
        "Couldn't rewrite the remote address"
    );
    assert_eq!(PublishError::PushFailed.message(), "Push failed");
    assert_eq!(
        CredentialError::NoAuthentication.message(),
        "No authentication available. Please make sure you have the correct access rights"
    );
    assert_eq!(
        CredentialError::AuthenticationFailed.message(),
        "Failed to authenticate. Please make sure you have the correct access rights"
    );
}
