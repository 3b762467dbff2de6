//! `auth verify`: what is shown of a verified key.
use crate::models::AuthResponse;
use crate::text::{concat4, decimal, decimal_string, strings_view};
use vstd::prelude::*;

verus! {

/// The lines describing a verified key: its project and its user.
pub open spec fn auth_details(auth: AuthResponse) -> Seq<Seq<char>> {
    seq![
        "Project: "@ + auth.project.name@ + " ("@ + decimal(auth.project.id as nat) + ")"@,
        "User: "@ + auth.user.name@ + " <"@ + auth.user.email@ + ">"@,
    ]
}

/// The lines printed by `auth verify` after "Authenticated successfully".
pub fn auth_detail_lines(auth: &AuthResponse) -> (lines: Vec<String>)
    ensures
        strings_view(lines@) == auth_details(*auth),
{
    let id = decimal_string(auth.project.id);
    let mut project = concat4("Project: ", auth.project.name.as_str(), " (", id.as_str());
    project.append(")");
    let mut user = concat4("User: ", auth.user.name.as_str(), " <", auth.user.email.as_str());
    user.append(">");
    let mut lines: Vec<String> = Vec::new();
    lines.push(project);
    lines.push(user);
    assert(strings_view(lines@) =~= auth_details(*auth));
    lines
}

/// The line shown by the setup wizard once a key is verified:
/// `Authenticated: <project> (<email>)`.
pub fn authenticated_line(auth: &AuthResponse) -> (line: String)
    ensures
        line@ == "Authenticated: "@ + auth.project.name@ + " ("@ + auth.user.email@ + ")"@,
{
    let mut line = concat4("Authenticated: ", auth.project.name.as_str(), " (", auth.user.email.as_str());
    line.append(")");
    line
}

} // verus!
