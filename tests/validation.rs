use github_mcp_server::config::ConfigError;
use github_mcp_server::auth::{create_error_page, create_success_page, decrypt_token, encrypt_token};
use github_mcp_server::github::git::{current_branch_from_output, main_branch_from_output, status_from_output};
use github_mcp_server::github::project::{extract_number_from_line, project_number_in_document};
use github_mcp_server::rate_limit::{
    admission, client_address, Admission, first_forwarded_address, RateLimitingLayer, RATE_LIMITED_BODY, RATE_LIMITED_STATUS,
};
use github_mcp_server::security::{
    generate_secure_token, hash_password, verify_password, PasswordError, sanitize_branch_name, validate_github_username, validate_project_number,
};
use github_mcp_server::text::{split_lines, trim};

#[test]
fn rate_limiter_admits_capacity_then_rejects_per_address() {
    let mut layer = RateLimitingLayer::new(2);
    assert!(layer.check("10.0.0.1"));
    assert!(layer.check("10.0.0.1"));
    assert!(!layer.check("10.0.0.1"));
    assert!(layer.check("10.0.0.2"));
    assert!(layer.check("10.0.0.2"));
    assert!(!layer.check("10.0.0.2"));
    assert!(!layer.check("10.0.0.1"));
    assert_eq!(RATE_LIMITED_STATUS, 429);
    let mut gate = RateLimitingLayer::new(2);
    assert!(matches!(gate.gate("10.0.0.1"), Admission::Forward));
    assert!(matches!(gate.gate("10.0.0.1"), Admission::Forward));
    assert!(matches!(gate.gate("10.0.0.1"), Admission::Reject { status: 429, body } if body == RATE_LIMITED_BODY));
    assert!(matches!(gate.gate("10.0.0.3"), Admission::Forward));
    assert!(matches!(admission(true), Admission::Forward));
    assert!(RATE_LIMITED_BODY.contains("Rate limit exceeded"));
}

#[test]
fn client_address_prefers_forwarded_then_real_ip() {
    assert_eq!(first_forwarded_address(" 203.0.113.7 , 10.0.0.1"), "203.0.113.7");
    assert_eq!(first_forwarded_address("198.51.100.2"), "198.51.100.2");
    assert_eq!(client_address(Some("1.2.3.4".to_string()), Some("5.6.7.8".to_string())), "1.2.3.4");
    assert_eq!(client_address(None, Some("5.6.7.8".to_string())), "5.6.7.8");
    assert_eq!(client_address(None, None), "127.0.0.1");
}

#[test]
fn usernames() {
    assert!(validate_github_username("octo-cat"));
    assert!(validate_github_username("a"));
    assert!(!validate_github_username(""));
    assert!(!validate_github_username("-octo"));
    assert!(!validate_github_username("octo-"));
    assert!(!validate_github_username("octo_cat"));
    assert!(validate_github_username(&"a".repeat(39)));
    assert!(!validate_github_username(&"a".repeat(40)));
}

#[test]
fn project_numbers() {
    assert!(validate_project_number("42"));
    assert!(validate_project_number("1234567890"));
    assert!(!validate_project_number("12345678901"));
    assert!(!validate_project_number(""));
    assert!(!validate_project_number("4a"));
}

#[test]
fn branch_names_are_sanitized() {
    assert_eq!(sanitize_branch_name("feature/x"), "feature/x");
    assert_eq!(sanitize_branch_name("..fix; rm -rf ..."), "fixrm-rf");
    assert_eq!(sanitize_branch_name("rel_1.2"), "rel_1.2");
    assert_eq!(sanitize_branch_name("..."), "");
    assert_eq!(sanitize_branch_name("feature/x; rm -rf ~"), "feature/xrm-rf");
}

#[test]
fn numbers_in_lines() {
    assert_eq!(extract_number_from_line("GitHub Project: 17").as_deref(), Some("17"));
    assert_eq!(extract_number_from_line("Project Number: #5 then 23 and 4").as_deref(), Some("23"));
    assert_eq!(extract_number_from_line("12ab 7").as_deref(), Some("7"));
    assert_eq!(extract_number_from_line("no number here"), None);
    assert_eq!(extract_number_from_line("Project Number: #42, see 15").as_deref(), Some("15"));
    assert_eq!(extract_number_from_line(""), None);
}

#[test]
fn project_number_from_tracking_document() {
    let doc = "# Plan\nGitHub Project: none yet\nSee 99 items\nProject Number: 12\nGitHub Project: 13\n";
    assert_eq!(project_number_in_document(doc).as_deref(), Some("12"));
    assert_eq!(project_number_in_document("# Plan\nnothing\n"), None);
    assert_eq!(project_number_in_document(""), None);
}

#[test]
fn git_output_parsing() {
    assert_eq!(current_branch_from_output("feature/x\n"), "feature/x");
    assert_eq!(status_from_output(" M a.rs\r\n?? b.rs\n"), vec![" M a.rs".to_string(), "?? b.rs".to_string()]);
    assert!(status_from_output("").is_empty());
    let remote = "* remote origin\n  Fetch URL: git@github.com:o/r.git\n  HEAD branch: develop\n  Remote branches:\n";
    assert_eq!(main_branch_from_output(Some(remote)), "develop");
    assert_eq!(main_branch_from_output(Some("* remote origin\n")), "main");
    assert_eq!(main_branch_from_output(None), "main");
}

#[test]
fn text_helpers() {
    assert_eq!(trim("  a b \t\n"), "a b");
    assert_eq!(trim(""), "");
    assert_eq!(split_lines("a\n\nb"), vec!["a".to_string(), "".to_string(), "b".to_string()]);
    assert_eq!(split_lines("a\r"), vec!["a\r".to_string()]);
}

#[test]
fn secure_tokens_are_64_hex_digits() {
    let t = generate_secure_token();
    assert_eq!(t.len(), 64);
    assert!(t.chars().all(|c| c.is_ascii_digit() || ('a'..='f').contains(&c)));
    assert_ne!(t, generate_secure_token());
    assert_ne!(t, "0".repeat(64));
}

#[test]
fn tokens_are_stored_as_given() {
    let stored = encrypt_token("gho_abc").ok().unwrap();
    assert_eq!(stored, "gho_abc");
    assert_eq!(decrypt_token(&stored).ok().unwrap(), "gho_abc");
}

#[test]
fn sign_in_pages_hold_their_values() {
    let ok = create_success_page("octocat", "jwt.value");
    assert!(ok.contains("Welcome, <strong>octocat</strong>!"));
    assert!(ok.contains("<div class=\"token\" id=\"token\">jwt.value</div>"));
    let err = create_error_page("access_denied", "The user said no");
    assert!(err.contains("<strong>Error:</strong> access_denied</p>"));
    assert!(err.contains("<strong>Description:</strong> The user said no</p>"));
}

#[test]
fn passwords_hash_and_verify() {
    let hash = hash_password("hunter2").ok().expect("hashing works");
    assert!(hash.starts_with("$argon2"));
    assert_ne!(hash, "hunter2");
    assert!(matches!(verify_password("hunter2", &hash), Ok(true)));
    assert!(matches!(verify_password("hunter3", &hash), Ok(false)));
    assert!(matches!(verify_password("hunter2", "not a hash"), Err(PasswordError::InvalidHash(_))));
}

#[test]
fn config_error_messages() {
    assert_eq!(ConfigError::MissingEnvVar("JWT_SECRET".to_string()).message(), "Environment variable not found: JWT_SECRET");
    assert_eq!(ConfigError::ParseError("Invalid port: x".to_string()).message(), "Configuration parsing error: Invalid port: x");
}
