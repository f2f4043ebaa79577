use hookd::auth::encode_basic_authorization;
use hookd::config::dynamic::DynamicConfig;
use hookd::config::{Auth, BasicAuth, BearerAuth, Hook};
use hookd::{dispatch, ResponseError};

fn hook(command: &str, method: Option<&str>, auth: Option<Vec<&str>>) -> Hook {
    Hook {
        command: command.to_string(),
        method: method.map(|m| m.to_string()),
        auth: auth.map(|v| v.into_iter().map(|s| s.to_string()).collect()),
        args: None,
        env: None,
    }
}

fn deploy_config() -> DynamicConfig {
    DynamicConfig {
        auth: Some(vec![(
            "ci".to_string(),
            Auth::Bearer(BearerAuth { token: "secret".to_string() }),
        )]),
        hooks: vec![(
            "/deploy".to_string(),
            Hook {
                command: "echo".to_string(),
                method: Some("POST".to_string()),
                auth: Some(vec!["ci".to_string()]),
                args: Some(vec!["ok".to_string()]),
                env: None,
            },
        )],
    }
}

#[test]
fn unknown_path_is_not_found() {
    let cfg = deploy_config();
    assert!(matches!(
        dispatch(&cfg, "/other", "POST", Some("Bearer secret")),
        Err(ResponseError::NotFound)
    ));
}

#[test]
fn trailing_slashes_are_stripped_before_lookup() {
    let cfg = deploy_config();
    assert!(dispatch(&cfg, "/deploy/", "POST", Some("Bearer secret")).is_ok());
    assert!(dispatch(&cfg, "/deploy///", "POST", Some("Bearer secret")).is_ok());
}

#[test]
fn method_mismatch_is_refused_before_authorization() {
    let cfg = deploy_config();
    // Even a request that would fail authorization sees the method check first.
    assert!(matches!(
        dispatch(&cfg, "/deploy", "GET", Some("Bearer wrong")),
        Err(ResponseError::MethodNotAllowed)
    ));
    assert!(matches!(
        dispatch(&cfg, "/deploy", "GET", None),
        Err(ResponseError::MethodNotAllowed)
    ));
}

#[test]
fn method_match_is_case_sensitive_and_exact() {
    let cfg = deploy_config();
    assert!(matches!(
        dispatch(&cfg, "/deploy", "post", Some("Bearer secret")),
        Err(ResponseError::MethodNotAllowed)
    ));
}

#[test]
fn matching_method_never_yields_method_not_allowed() {
    let cfg = deploy_config();
    // Authorization fails, but not as a method error.
    assert!(matches!(
        dispatch(&cfg, "/deploy", "POST", Some("Bearer wrong")),
        Err(ResponseError::Unauthorized)
    ));
}

#[test]
fn hook_without_method_accepts_any_method() {
    let mut cfg = deploy_config();
    cfg.hooks[0].1.method = None;
    assert!(dispatch(&cfg, "/deploy", "DELETE", Some("Bearer secret")).is_ok());
}

#[test]
fn absent_credential_list_skips_authentication() {
    let cfg = DynamicConfig {
        auth: None,
        hooks: vec![("/open".to_string(), hook("true", None, None))],
    };
    assert!(dispatch(&cfg, "/open", "GET", None).is_ok());
    // Any header, even a malformed one, is simply not examined.
    assert!(dispatch(&cfg, "/open", "GET", Some("Bearer whatever")).is_ok());
    assert!(dispatch(&cfg, "/open", "GET", Some("garbage")).is_ok());
}

#[test]
fn empty_credential_list_admits_only_headerless_requests() {
    let cfg = DynamicConfig {
        auth: None,
        hooks: vec![("/open".to_string(), hook("true", None, Some(vec![])))],
    };
    assert!(dispatch(&cfg, "/open", "GET", None).is_ok());
    assert!(matches!(
        dispatch(&cfg, "/open", "GET", Some("Bearer whatever")),
        Err(ResponseError::Unauthorized)
    ));
}

#[test]
fn malformed_header_is_a_bad_request() {
    let cfg = deploy_config();
    match dispatch(&cfg, "/deploy", "POST", Some("Basic !!!")) {
        Err(ResponseError::BadRequest(msg)) => {
            assert_eq!(msg, "invalid base64 in basic value");
        }
        _ => panic!("expected a bad request"),
    }
}

#[test]
fn deploy_scenario_grants_the_right_bearer() {
    let cfg = deploy_config();
    let hook = dispatch(&cfg, "/deploy", "POST", Some("Bearer secret")).unwrap();
    assert_eq!(hook.command, "echo");
    assert_eq!(hook.args.as_ref().unwrap()[0], "ok");
}

#[test]
fn deploy_scenario_refuses_the_wrong_bearer() {
    let cfg = deploy_config();
    assert!(matches!(
        dispatch(&cfg, "/deploy", "POST", Some("Bearer wrong")),
        Err(ResponseError::Unauthorized)
    ));
}

#[test]
fn deploy_scenario_refuses_a_headerless_request() {
    let cfg = deploy_config();
    assert!(matches!(
        dispatch(&cfg, "/deploy", "POST", None),
        Err(ResponseError::Unauthorized)
    ));
}

#[test]
fn deploy_scenario_reports_a_dangling_credential_name() {
    let mut cfg = deploy_config();
    cfg.hooks[0].1.auth = Some(vec!["ghost".to_string()]);
    match dispatch(&cfg, "/deploy", "POST", Some("Bearer secret")) {
        Err(ResponseError::InternalServerError(msg)) => {
            assert_eq!(msg, "misconfigured hook auth: 'ghost' does not exist");
        }
        _ => panic!("expected a configuration error"),
    }
}

#[test]
fn missing_auth_section_makes_every_name_dangle() {
    let cfg = DynamicConfig {
        auth: None,
        hooks: vec![("/deploy".to_string(), hook("echo", None, Some(vec!["ci"])))],
    };
    match dispatch(&cfg, "/deploy", "POST", Some("Bearer secret")) {
        Err(ResponseError::InternalServerError(msg)) => {
            assert_eq!(msg, "misconfigured hook auth: 'ci' does not exist");
        }
        _ => panic!("expected a configuration error"),
    }
}

#[test]
fn basic_credentials_work_end_to_end() {
    let cfg = DynamicConfig {
        auth: Some(vec![(
            "admin".to_string(),
            Auth::Basic(BasicAuth {
                username: "root".to_string(),
                password: "pa:ss".to_string(),
            }),
        )]),
        hooks: vec![("/deploy".to_string(), hook("echo", None, Some(vec!["admin"])))],
    };
    let header = encode_basic_authorization("root", "pa:ss");
    assert!(dispatch(&cfg, "/deploy", "POST", Some(&header)).is_ok());
    let wrong = encode_basic_authorization("root", "nope");
    assert!(matches!(
        dispatch(&cfg, "/deploy", "POST", Some(&wrong)),
        Err(ResponseError::Unauthorized)
    ));
}

#[test]
fn status_codes_match_the_failure_kinds() {
    assert_eq!(ResponseError::NotFound.status_code(), 404);
    assert_eq!(ResponseError::BadRequest("m".to_string()).status_code(), 400);
    assert_eq!(ResponseError::Unauthorized.status_code(), 401);
    assert_eq!(ResponseError::InternalServerError("m".to_string()).status_code(), 500);
    assert_eq!(ResponseError::MethodNotAllowed.status_code(), 405);
}

#[test]
fn body_text_carries_only_the_diagnostic_variants() {
    assert_eq!(ResponseError::NotFound.body_text(), "");
    assert_eq!(ResponseError::BadRequest("oops".to_string()).body_text(), "oops");
    assert_eq!(ResponseError::InternalServerError("bad".to_string()).body_text(), "bad");
    assert_eq!(ResponseError::Unauthorized.body_text(), "");
    assert_eq!(ResponseError::MethodNotAllowed.body_text(), "");
}
