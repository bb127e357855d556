//! A new workspace: its empty compose file, `.env` and `pyproject.toml`.

use vstd::prelude::*;
use vstd::string::*;
use crate::text::{has_substring, occurs_at, owned, unicode_uppercase};
use crate::workspace::external::compose_marker;
use crate::workspace::service::{
    law_registration_effects, member_entry, registered, MEMBERS_HEADER, PORT_VARIABLE_SUFFIX,
};

verus! {

pub const COMPOSE_FILE: &'static str = "docker-compose.yml";

pub const ENV_FILE: &'static str = ".env";

/// A compose file that declares no service yet.
pub const WORKSPACE_COMPOSE: &'static str = "version: \"3.9\"\nservices:\n";

/// The `.env` of a new workspace: a comment only.
pub const WORKSPACE_ENV: &'static str = "# Variáveis de ambiente\n";

pub const PYPROJECT_FILE: &'static str = "pyproject.toml";

/// The `pyproject.toml` of a new workspace: a uv workspace whose members
/// list is empty; each service added later is listed under its header.
pub const WORKSPACE_PYPROJECT: &'static str = "[tool.uv.workspace]\nmembers = [\n]\n";

/// A file written when the workspace is created: its path relative to the
/// workspace, and its content.
#[derive(Debug)]
pub struct WorkspaceFile {
    pub path: String,
    pub content: String,
}

/// The files of a new workspace (besides its empty `services` directory):
/// the compose file, `.env`, then `pyproject.toml`.
pub fn initial_workspace_files() -> (f: Vec<WorkspaceFile>)
    ensures
        f@.len() == 3,
        f@[0].path@ == COMPOSE_FILE@,
        f@[0].content@ == WORKSPACE_COMPOSE@,
        f@[1].path@ == ENV_FILE@,
        f@[1].content@ == WORKSPACE_ENV@,
        f@[2].path@ == PYPROJECT_FILE@,
        f@[2].content@ == WORKSPACE_PYPROJECT@,
{
    let mut f: Vec<WorkspaceFile> = Vec::new();
    f.push(WorkspaceFile { path: owned(COMPOSE_FILE), content: owned(WORKSPACE_COMPOSE) });
    f.push(WorkspaceFile { path: owned(ENV_FILE), content: owned(WORKSPACE_ENV) });
    f.push(WorkspaceFile { path: owned(PYPROJECT_FILE), content: owned(WORKSPACE_PYPROJECT) });
    f
}

/// A new workspace's `pyproject.toml` has a members header.
pub proof fn lemma_new_workspace_has_members_header()
    ensures
        has_substring(WORKSPACE_PYPROJECT@, MEMBERS_HEADER@),
{
    reveal_strlit("[tool.uv.workspace]\nmembers = [\n]\n");
    reveal_strlit("members = [");
    let s = WORKSPACE_PYPROJECT@;
    assert(s.subrange(20, 31) =~= MEMBERS_HEADER@);
    assert(occurs_at(s, MEMBERS_HEADER@, 20));
}

/// The first service added to a new workspace, on whatever port, is
/// declared in its compose file, listed as a member of its
/// `pyproject.toml`, and gets its port variable in `.env`.
pub proof fn law_new_workspace_registers_service(name: Seq<char>, port: nat)
    ensures
        ({
            let r = registered(WORKSPACE_PYPROJECT@, WORKSPACE_COMPOSE@, WORKSPACE_ENV@, name, port);
            &&& has_substring(r.0, member_entry(name))
            &&& has_substring(r.1, compose_marker(name))
            &&& has_substring(r.2, unicode_uppercase(name) + PORT_VARIABLE_SUFFIX@)
        }),
{
    law_new_workspace_declares_no_service(name);
    lemma_new_workspace_has_members_header();
    law_registration_effects(WORKSPACE_PYPROJECT@, WORKSPACE_COMPOSE@, WORKSPACE_ENV@, name, port);
}

/// A new workspace declares no service: its compose file holds no
/// service line, so the first service added to it is always registered.
pub proof fn law_new_workspace_declares_no_service(name: Seq<char>)
    ensures
        !has_substring(WORKSPACE_COMPOSE@, compose_marker(name)),
{
    reveal_strlit("version: \"3.9\"\nservices:\n");
    reveal_strlit("  ");
    reveal_strlit(":");
    let s = WORKSPACE_COMPOSE@;
    let m = compose_marker(name);
    assert(s =~= seq![
        'v', 'e', 'r', 's', 'i', 'o', 'n', ':', ' ', '"', '3', '.', '9', '"', '\n', 's', 'e',
        'r', 'v', 'i', 'c', 'e', 's', ':', '\n',
    ]);
    if has_substring(s, m) {
        let i = choose|i: int| occurs_at(s, m, i);
        assert(m[0] == ' ' && m[1] == ' ');
        assert(s.subrange(i, i + m.len())[0] == s[i]);
        assert(s.subrange(i, i + m.len())[1] == s[i + 1]);
        assert(s[i] == ' ' && s[i + 1] == ' ');
        assert(false);
    }
}

} // verus!
