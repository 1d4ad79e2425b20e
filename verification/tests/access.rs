//! Role checks.
use checkgate::access::{
    check_env_role, check_project_role, check_write_scope, request_claims, require_admin,
    require_editor, AccessStep,
};
use checkgate::identity::{PatIdentity, RequestIdentities, SdkKeyEntry, SessionClaims};
use checkgate::status::Status;

const ENV_PATH: &str = "/api/environments/e1/flags/f";

fn claims(role: &str) -> SessionClaims {
    SessionClaims {
        user_id: 5,
        expires_at: 1,
        email: "u@example.com".to_string(),
        name: "U".to_string(),
        role: role.to_string(),
    }
}

fn session(role: &str) -> RequestIdentities {
    RequestIdentities { sdk_key: None, session: Some(claims(role)), pat: None }
}

fn token(role: &str, scope: &str) -> RequestIdentities {
    let pat = PatIdentity { claims: claims(role), scope: scope.to_string() };
    RequestIdentities { sdk_key: None, session: None, pat: Some(pat) }
}

fn sdk() -> RequestIdentities {
    let entry = SdkKeyEntry {
        id: 1,
        name: "n".to_string(),
        value: "v".to_string(),
        environment_id: Some("e1".to_string()),
    };
    RequestIdentities { sdk_key: Some(entry), session: None, pat: None }
}

fn nobody() -> RequestIdentities {
    RequestIdentities { sdk_key: None, session: None, pat: None }
}

fn role(name: &str) -> Result<Option<String>, ()> {
    Ok(Some(name.to_string()))
}

fn lookup() -> AccessStep {
    AccessStep::FindProjectRole { env_id: "e1".to_string(), user_id: 5 }
}

#[test]
fn sdk_key_passes_every_check() {
    assert_eq!(require_admin(&sdk()), Ok(()));
    assert_eq!(require_editor(&sdk(), ENV_PATH), AccessStep::Allow);
    assert_eq!(require_editor(&sdk(), "/api/projects"), AccessStep::Allow);
}

#[test]
fn nobody_is_401() {
    assert_eq!(require_admin(&nobody()), Err(Status::unauthorized()));
    assert_eq!(
        require_editor(&nobody(), ENV_PATH),
        AccessStep::Reject(Status::unauthorized())
    );
    assert_eq!(request_claims(&nobody()), Err(Status::unauthorized()));
}

#[test]
fn admins_pass_and_others_are_403() {
    assert_eq!(require_admin(&session("admin")), Ok(()));
    assert_eq!(require_admin(&session("editor")), Err(Status::forbidden()));
    assert_eq!(require_admin(&session("Admin")), Err(Status::forbidden()));
}

#[test]
fn read_only_token_of_an_admin_is_403() {
    assert_eq!(require_admin(&token("admin", "read_only")), Err(Status::forbidden()));
    assert_eq!(require_admin(&token("admin", "read_write")), Ok(()));
    assert_eq!(
        require_editor(&token("admin", "read_only"), ENV_PATH),
        AccessStep::Reject(Status::forbidden())
    );
    assert_eq!(require_editor(&token("admin", "read_write"), ENV_PATH), AccessStep::Allow);
}

#[test]
fn scope_is_checked_on_tokens_only() {
    assert_eq!(check_write_scope(&token("viewer", "read_only")), Err(Status::forbidden()));
    assert_eq!(check_write_scope(&token("viewer", "read_write")), Ok(()));
    assert_eq!(check_write_scope(&session("viewer")), Ok(()));
    assert_eq!(check_write_scope(&nobody()), Ok(()));
}

#[test]
fn claims_of_the_session_come_before_those_of_the_token() {
    let mut both = token("viewer", "read_write");
    both.session = Some(claims("admin"));
    assert_eq!(request_claims(&both), Ok(&claims("admin")));
    assert_eq!(request_claims(&token("viewer", "x")), Ok(&claims("viewer")));
}

#[test]
fn environment_writes_go_by_the_project_role() {
    assert_eq!(require_editor(&session("editor"), ENV_PATH), lookup());
    assert_eq!(require_editor(&session("viewer"), ENV_PATH), lookup());
    assert_eq!(check_project_role(role("admin"), true), Ok(()));
    assert_eq!(check_project_role(role("editor"), true), Ok(()));
    assert_eq!(check_project_role(role("viewer"), true), Err(Status::forbidden()));
    assert_eq!(check_project_role(Ok(None), true), Err(Status::forbidden()));
    assert_eq!(check_project_role(role("owner"), true), Err(Status::forbidden()));
}

#[test]
fn project_viewers_may_read() {
    assert_eq!(check_project_role(role("viewer"), false), Ok(()));
    assert_eq!(check_project_role(Ok(None), false), Err(Status::forbidden()));
}

#[test]
fn failed_role_lookup_is_500() {
    assert_eq!(check_project_role(Err(()), true), Err(Status::internal_server_error()));
    assert_eq!(check_project_role(Err(()), false), Err(Status::internal_server_error()));
}

#[test]
fn workspace_admin_needs_no_project_role() {
    assert_eq!(require_editor(&session("admin"), ENV_PATH), AccessStep::Allow);
    assert_eq!(check_env_role(&claims("admin"), "e1"), AccessStep::Allow);
    assert_eq!(check_env_role(&claims("editor"), "e1"), lookup());
}

#[test]
fn other_writes_go_by_the_workspace_role() {
    assert_eq!(require_editor(&session("editor"), "/api/webhooks"), AccessStep::Allow);
    assert_eq!(require_editor(&session("admin"), "/api/webhooks"), AccessStep::Allow);
    assert_eq!(
        require_editor(&session("viewer"), "/api/webhooks"),
        AccessStep::Reject(Status::forbidden())
    );
    // Nothing follows the word, so the path names no environment.
    assert_eq!(require_editor(&session("editor"), "/api/environments"), AccessStep::Allow);
}
