//! Role checks. They see only identities that authentication has validated.
use crate::auth::lookup;
use crate::credentials::{environment_in, environment_of_path};
use crate::identity::{
    caller_claims, ClaimsView, IdentitiesView, PatView, RequestIdentities, SessionClaims,
};
use crate::status::Status;
use crate::text::same_text;
use vstd::prelude::*;

verus! {

/// What a role check asks for, or its answer.
#[derive(Debug, PartialEq, Eq)]
pub enum AccessStep {
    Allow,
    Reject(Status),
    /// The role that the user has in the project of the environment.
    FindProjectRole { env_id: String, user_id: i64 },
}

/// What a step says.
pub enum AccessView {
    Allow,
    Reject(u16),
    FindProjectRole { env_id: Seq<char>, user_id: i64 },
}

impl View for AccessStep {
    type V = AccessView;

    open spec fn view(&self) -> AccessView {
        match self {
            AccessStep::Allow => AccessView::Allow,
            AccessStep::Reject(status) => AccessView::Reject(status@),
            AccessStep::FindProjectRole { env_id, user_id } => AccessView::FindProjectRole {
                env_id: env_id@,
                user_id: *user_id,
            },
        }
    }
}

/// The verdict of a check, by the code of its refusal.
pub open spec fn verdict(result: Result<(), Status>) -> Result<(), u16> {
    match result {
        Ok(()) => Ok(()),
        Err(status) => Err(status@),
    }
}

/// A token may write only with the scope `read_write`; whoever comes without a token may.
pub open spec fn may_write(pat: Option<PatView>) -> bool {
    match pat {
        Some(identity) => identity.scope == "read_write"@,
        None => true,
    }
}

/// The verdict on a route for admins.
pub open spec fn admin_verdict(who: IdentitiesView) -> Result<(), u16> {
    if who.sdk_key is Some {
        Ok(())
    } else {
        match caller_claims(who.session, who.pat) {
            None => Err(401),
            Some(claims) => if claims.role == "admin"@ && may_write(who.pat) {
                Ok(())
            } else {
                Err(403)
            },
        }
    }
}

/// The roles that may edit.
pub open spec fn edits(role: Seq<char>) -> bool {
    role == "admin"@ || role == "editor"@
}

/// The verdict of a project role: admins and editors may read and write, viewers may read.
pub open spec fn project_role_verdict(
    role: Result<Option<Seq<char>>, ()>,
    write: bool,
) -> Result<(), u16> {
    match role {
        Err(()) => Err(500),
        Ok(Some(r)) => if edits(r) || (r == "viewer"@ && !write) {
            Ok(())
        } else {
            Err(403)
        },
        Ok(None) => Err(403),
    }
}

/// A workspace admin needs no project role; anyone else is looked up.
pub open spec fn env_role_step(claims: ClaimsView, env_id: Seq<char>) -> AccessView {
    if claims.role == "admin"@ {
        AccessView::Allow
    } else {
        AccessView::FindProjectRole { env_id, user_id: claims.user_id }
    }
}

/// The first step on a route for editors.
pub open spec fn editor_step(who: IdentitiesView, path: Seq<char>) -> AccessView {
    if who.sdk_key is Some {
        AccessView::Allow
    } else if !may_write(who.pat) {
        AccessView::Reject(403)
    } else {
        match caller_claims(who.session, who.pat) {
            None => AccessView::Reject(401),
            Some(claims) => match environment_in(path) {
                Some(env_id) => env_role_step(claims, env_id),
                None => if edits(claims.role) {
                    AccessView::Allow
                } else {
                    AccessView::Reject(403)
                },
            },
        }
    }
}

/// The verdict on a route for editors, where the project role comes back as given.
pub open spec fn editor_verdict(
    who: IdentitiesView,
    path: Seq<char>,
    role: Result<Option<Seq<char>>, ()>,
) -> Result<(), u16> {
    match editor_step(who, path) {
        AccessView::Allow => Ok(()),
        AccessView::Reject(code) => Err(code),
        AccessView::FindProjectRole { .. } => project_role_verdict(role, true),
    }
}

/// The claims of whoever makes the request; 401 where no user does.
pub fn request_claims(who: &RequestIdentities) -> (claims: Result<&SessionClaims, Status>)
    ensures
        match claims {
            Ok(c) => caller_claims(who@.session, who@.pat) == Some(c@),
            Err(status) => caller_claims(who@.session, who@.pat) is None && status@ == 401,
        },
{
    match &who.session {
        Some(claims) => Ok(claims),
        None => match &who.pat {
            Some(pat) => Ok(&pat.claims),
            None => Err(Status::unauthorized()),
        },
    }
}

/// Refuses a token that may not write with 403.
pub fn check_write_scope(who: &RequestIdentities) -> (result: Result<(), Status>)
    ensures
        verdict(result) == if may_write(who@.pat) {
            Ok::<(), u16>(())
        } else {
            Err(403)
        },
{
    match &who.pat {
        Some(pat) => if same_text(pat.scope.as_str(), "read_write") {
            Ok(())
        } else {
            Err(Status::forbidden())
        },
        None => Ok(()),
    }
}

/// Admits SDK keys and admins. A token of an admin needs the scope to write.
pub fn require_admin(who: &RequestIdentities) -> (result: Result<(), Status>)
    ensures
        verdict(result) == admin_verdict(who@),
{
    if who.sdk_key.is_some() {
        return Ok(());
    }
    match request_claims(who) {
        Ok(claims) => {
            if !same_text(claims.role.as_str(), "admin") {
                return Err(Status::forbidden());
            }
            check_write_scope(who)
        },
        Err(status) => Err(status),
    }
}

/// Starts the check of a user's role in the project of an environment.
pub fn check_env_role(claims: &SessionClaims, env_id: &str) -> (step: AccessStep)
    ensures
        step@ == env_role_step(claims@, env_id@),
{
    if same_text(claims.role.as_str(), "admin") {
        AccessStep::Allow
    } else {
        AccessStep::FindProjectRole { env_id: env_id.to_owned(), user_id: claims.user_id }
    }
}

/// Ends the check of a user's role in a project, by the role that was looked up.
pub fn check_project_role(role: Result<Option<String>, ()>, write: bool) -> (result: Result<
    (),
    Status,
>)
    ensures
        verdict(result) == project_role_verdict(lookup(role), write),
{
    match role {
        Ok(Some(r)) => if same_text(r.as_str(), "admin") || same_text(r.as_str(), "editor") {
            Ok(())
        } else if same_text(r.as_str(), "viewer") && !write {
            Ok(())
        } else {
            Err(Status::forbidden())
        },
        Ok(None) => Err(Status::forbidden()),
        Err(()) => Err(Status::internal_server_error()),
    }
}

/// Starts the check on a route for editors. Writes to an environment go by the role in its
/// project, which workspace admins bypass; other writes go by the workspace role.
pub fn require_editor(who: &RequestIdentities, path: &str) -> (step: AccessStep)
    ensures
        step@ == editor_step(who@, path@),
{
    if who.sdk_key.is_some() {
        return AccessStep::Allow;
    }
    if let Err(status) = check_write_scope(who) {
        return AccessStep::Reject(status);
    }
    match request_claims(who) {
        Ok(claims) => match environment_of_path(path) {
            Some(env_id) => check_env_role(claims, env_id),
            None => if same_text(claims.role.as_str(), "admin") || same_text(
                claims.role.as_str(),
                "editor",
            ) {
                AccessStep::Allow
            } else {
                AccessStep::Reject(Status::forbidden())
            },
        },
        Err(status) => AccessStep::Reject(status),
    }
}

// ---------------------------------------------------------------------------
// Laws
// ---------------------------------------------------------------------------
/// An SDK key is admin-equivalent: it passes every role check.
pub proof fn law_sdk_key_passes(
    who: IdentitiesView,
    path: Seq<char>,
    role: Result<Option<Seq<char>>, ()>,
)
    requires
        who.sdk_key is Some,
    ensures
        admin_verdict(who) == Ok::<(), u16>(()),
        editor_verdict(who, path, role) == Ok::<(), u16>(()),
{
}

/// A token without the scope `read_write` passes no role check, whatever its owner's role.
pub proof fn law_read_only_token_never_writes(
    who: IdentitiesView,
    path: Seq<char>,
    role: Result<Option<Seq<char>>, ()>,
    pat: PatView,
)
    requires
        who.sdk_key is None,
        who.pat == Some(pat),
        pat.scope != "read_write"@,
    ensures
        admin_verdict(who) == Err::<(), u16>(403),
        editor_verdict(who, path, role) == Err::<(), u16>(403),
{
}

/// A request without any identity is refused with 401.
pub proof fn law_no_identity_is_401(path: Seq<char>, role: Result<Option<Seq<char>>, ()>)
    ensures
        ({
            let nobody = IdentitiesView { sdk_key: None, session: None, pat: None };
            admin_verdict(nobody) == Err::<(), u16>(401) && editor_verdict(nobody, path, role)
                == Err::<(), u16>(401)
        }),
{
}

/// Writes to an environment go by the role in its project: a project viewer, or one who is no
/// member, may not write even with a broader workspace role, and a project editor may write even
/// with a narrower one.
pub proof fn law_environment_writes_go_by_project_role(
    who: IdentitiesView,
    path: Seq<char>,
    role: Option<Seq<char>>,
    claims: ClaimsView,
)
    requires
        who.sdk_key is None,
        may_write(who.pat),
        caller_claims(who.session, who.pat) == Some(claims),
        claims.role != "admin"@,
        environment_in(path) is Some,
    ensures
        editor_verdict(who, path, Ok(role)) == Ok::<(), u16>(()) <==> (role is Some && edits(
            role->0,
        )),
        role is None || role == Some("viewer"@) ==> editor_verdict(who, path, Ok(role)) == Err::<
            (),
            u16,
        >(403),
{
    reveal_strlit("viewer");
    reveal_strlit("admin");
    reveal_strlit("editor");
    assert("viewer"@[0] == 'v');
    assert("admin"@[0] == 'a');
    assert("editor"@[0] == 'e');
}

/// A workspace admin may write everywhere, without any project role.
pub proof fn law_workspace_admin_bypasses_projects(
    who: IdentitiesView,
    path: Seq<char>,
    role: Result<Option<Seq<char>>, ()>,
    claims: ClaimsView,
)
    requires
        may_write(who.pat),
        caller_claims(who.session, who.pat) == Some(claims),
        claims.role == "admin"@,
    ensures
        admin_verdict(who) == Ok::<(), u16>(()),
        editor_verdict(who, path, role) == Ok::<(), u16>(()),
{
}

/// Whoever passes the check for admins passes the check for editors.
pub proof fn law_admin_is_editor(
    who: IdentitiesView,
    path: Seq<char>,
    role: Result<Option<Seq<char>>, ()>,
)
    requires
        admin_verdict(who) == Ok::<(), u16>(()),
    ensures
        editor_verdict(who, path, role) == Ok::<(), u16>(()),
{
}

} // verus!
