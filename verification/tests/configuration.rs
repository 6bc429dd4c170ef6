use async_dashscope::config::{join_url, Config, ConfigBuilder, DASHSCOPE_API_BASE};
use async_dashscope::error::BuilderError;

fn header_of(config: &Config, name: &str) -> Option<String> {
    config.headers().into_iter().find(|(k, _)| k.eq_ignore_ascii_case(name)).map(|(_, v)| v)
}

#[test]
fn test_config() {
    let config = ConfigBuilder::default().api_key("test key").build().unwrap();
    for header in config.headers().iter() {
        if header.0.eq_ignore_ascii_case("authorization") {
            assert_eq!(header.1, "Bearer test key");
        }
    }
    assert_eq!(header_of(&config, "authorization"), Some("Bearer test key".to_string()));
}

#[test]
fn test_url_normal_case() {
    let instance = ConfigBuilder::default().api_base("https://example.com").api_key("test").build().unwrap();
    assert_eq!(instance.url("/v1"), "https://example.com/v1");
}

#[test]
fn test_url_empty_path() {
    let instance = ConfigBuilder::default().api_base("http://localhost:8080").api_key("test").build().unwrap();
    assert_eq!(instance.url(""), "http://localhost:8080");
}

#[test]
fn test_url_empty_api_base() {
    let instance = ConfigBuilder::default().api_key("test").build().unwrap();
    assert_eq!(instance.url("/test"), format!("{DASHSCOPE_API_BASE}/test").as_str());
}

#[test]
fn test_url_slash_in_both_parts() {
    let instance = ConfigBuilder::default().api_base("https://a.com/").api_key("test").build().unwrap();
    assert_eq!(instance.url("/b"), "https://a.com/b");
}

#[test]
fn test_url_no_slash_in_path() {
    let instance = ConfigBuilder::default().api_base("https://a.com").api_key("test").build().unwrap();
    assert_eq!(instance.url("b"), "https://a.com/b");
}

#[test]
fn test_api_key() {
    let instance = ConfigBuilder::default().api_base("https://example.com").api_key("test").build().unwrap();
    assert_eq!(header_of(&instance, "Authorization").unwrap(), "Bearer test");
}

#[test]
fn urls_are_joined_by_one_slash() {
    assert_eq!(join_url("https://a.com///", "///b/c/"), "https://a.com/b/c");
    assert_eq!(join_url("", ""), "");
    assert_eq!(join_url("/", "/"), "");
    assert_eq!(join_url("https://a.com", "/"), "https://a.com");
    assert_eq!(join_url("https://例.com/", "路径//"), "https://例.com/路径");
    assert_eq!(join_url("a", "b"), "a/b");
}

#[test]
fn every_request_carries_three_headers() {
    let mut config = Config::new(None, "k1".to_string());
    assert_eq!(
        config.headers(),
        vec![
            ("Content-Type".to_string(), "application/json".to_string()),
            ("X-DashScope-OssResourceResolve".to_string(), "enable".to_string()),
            ("Authorization".to_string(), "Bearer k1".to_string()),
        ]
    );
    assert_eq!(config.url("files"), "https://dashscope.aliyuncs.com/api/v1/files");
    config.set_api_key("k2".to_string());
    assert_eq!(config.api_key(), "k2");
    assert_eq!(header_of(&config, "authorization"), Some("Bearer k2".to_string()));
}

#[test]
fn a_configuration_needs_a_key() {
    match ConfigBuilder::default().api_base("https://a.com").build() {
        Err(e) => assert_eq!(e, BuilderError::UninitializedField("api_key")),
        Ok(_) => panic!("built without a key"),
    }
    assert_eq!(ConfigBuilder::default().default_base_url(), Some(DASHSCOPE_API_BASE.to_string()));
}
