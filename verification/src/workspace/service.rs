//! Registering a new FastAPI service in a workspace: its member entry in
//! `pyproject.toml`, its block in `docker-compose.yml` with a host port,
//! and the port variable in `.env`.

use vstd::prelude::*;
use vstd::string::*;
use crate::text::{
    all_ascii, ascii_uppered, concat2, concat3, contains, decimal, decimal_string, has_substring, lemma_replaced_absent,
    lemma_replaced_present, lemma_substring_middle, lemma_substring_transitive, owned,
    replace_all, replaced, to_uppercase, unicode_uppercase,
};
use crate::workspace::external::{compose_marker, compose_service_marker};

verus! {

pub const SERVICES_DIR: &'static str = "services";

pub const SERVICES_PREFIX: &'static str = "services/";

/// The line of `pyproject.toml` after which members are listed.
pub const MEMBERS_HEADER: &'static str = "members = [";

pub const MEMBER_INDENT: &'static str = "\n    ";

pub const BUILD_LINE: &'static str = ":\n    build: ./services/";

pub const PORTS_LINES: &'static str = "\n    ports:\n      - \"";

pub const CONTAINER_PORT_LINE: &'static str = ":8000\"\n";

pub const PORT_VARIABLE_SUFFIX: &'static str = "_PORT=";

/// The files rendered from the service templates, in order.
pub const MAIN_PY: &'static str = "main.py";

pub const REQUIREMENTS_TXT: &'static str = "requirements.txt";

pub const DOCKERFILE: &'static str = "Dockerfile";

/// The lowest host port given to a service; ports lie in `[8000, 9000)`.
pub const BASE_PORT: u16 = 8000;

/// The member entry of service `name`: `"services/<name>"`, quoted.
pub open spec fn member_entry(name: Seq<char>) -> Seq<char> {
    "\""@ + SERVICES_PREFIX@ + name + "\""@
}

/// What the members header becomes when `name` is added.
pub open spec fn members_with(name: Seq<char>) -> Seq<char> {
    MEMBERS_HEADER@ + MEMBER_INDENT@ + member_entry(name) + ","@
}

/// `pyproject.toml` after registering `name`: unchanged when the member is
/// listed, else every members header gets the member on the next line.
pub open spec fn pyproject_after_service(py: Seq<char>, name: Seq<char>) -> Seq<char> {
    if has_substring(py, member_entry(name)) {
        py
    } else {
        replaced(py, MEMBERS_HEADER@, members_with(name))
    }
}

/// The compose block of service `name`, built from its directory and
/// published on host port `port` (container port 8000).
pub open spec fn service_block(name: Seq<char>, port: nat) -> Seq<char> {
    "  "@ + name + BUILD_LINE@ + name + PORTS_LINES@ + decimal(port) + CONTAINER_PORT_LINE@
}

/// The compose file after registering `name` on `port`: unchanged when the
/// service is declared, else its block at the end.
pub open spec fn compose_after_service(compose: Seq<char>, name: Seq<char>, port: nat) -> Seq<
    char,
> {
    if has_substring(compose, compose_marker(name)) {
        compose
    } else {
        compose + service_block(name, port)
    }
}

/// The `.env` line that records the host port of `name`.
pub open spec fn port_line(name: Seq<char>, port: nat) -> Seq<char> {
    unicode_uppercase(name) + PORT_VARIABLE_SUFFIX@ + decimal(port) + "\n"@
}

/// The three workspace files after registering `name`; the port is used
/// only when the compose file does not declare the service yet, and only
/// then does `.env` change.
pub open spec fn registered(
    py: Seq<char>,
    compose: Seq<char>,
    env: Seq<char>,
    name: Seq<char>,
    port: nat,
) -> (Seq<char>, Seq<char>, Seq<char>) {
    (
        pyproject_after_service(py, name),
        compose_after_service(compose, name, port),
        if has_substring(compose, compose_marker(name)) {
            env
        } else {
            env + port_line(name, port)
        },
    )
}

/// Calls `rand::random::<u16>()`. Any value may come back.
#[verifier::external_body]
fn random_u16() -> u16 {
    rand::random::<u16>()
}

/// The host port drawn from a random number: 8000 plus its remainder by 1000.
pub fn service_port(random: u16) -> (p: u16)
    ensures
        p == BASE_PORT + random % 1000,
        BASE_PORT <= p < 9000,
{
    BASE_PORT + random % 1000
}

/// A random host port in `[8000, 9000)`.
pub fn pick_service_port() -> (p: u16)
    ensures
        BASE_PORT <= p < 9000,
{
    service_port(random_u16())
}

/// The path of the service inside the workspace: `services/<name>`.
pub fn service_app_path(name: &str) -> (p: String)
    ensures
        p@ == SERVICES_PREFIX@ + name@,
{
    concat2(SERVICES_PREFIX, name)
}

/// The arguments of `uv` that initialise the service as its own app.
pub fn uv_init_args(name: &str) -> (a: Vec<String>)
    ensures
        a@.len() == 4,
        a@[0]@ == "init"@,
        a@[1]@ == SERVICES_PREFIX@ + name@,
        a@[2]@ == "--no-workspace"@,
        a@[3]@ == "--app"@,
{
    let mut a: Vec<String> = Vec::new();
    a.push(owned("init"));
    a.push(service_app_path(name));
    a.push(owned("--no-workspace"));
    a.push(owned("--app"));
    a
}

/// The manifest written into a service added for AI generation.
pub const AI_MANIFEST_FILE: &'static str = "instrucoes.md";

pub const AI_MANIFEST_TITLE: &'static str = "# Instruções para o serviço ";

pub const AI_MANIFEST_BODY: &'static str = "\n\nDescreva aqui, em detalhes, o que a aplicação FastAPI deste serviço deve fazer:\n\n- Modelos de dados (Pydantic) e seus campos.\n- Rotas (método, caminho, entrada e saída).\n- Armazenamento dos dados.\n- Porta em que o serviço roda.\n";

/// The default manifest of a service added for AI generation: a title
/// naming the service, then what to describe for the model.
pub open spec fn ai_manifest_text(name: Seq<char>) -> Seq<char> {
    AI_MANIFEST_TITLE@ + name + AI_MANIFEST_BODY@
}

/// The default `instrucoes.md` of a service added for AI generation.
pub fn ai_manifest_template(name: &str) -> (t: String)
    ensures
        t@ == ai_manifest_text(name@),
{
    concat3(AI_MANIFEST_TITLE, name, AI_MANIFEST_BODY)
}

/// The template files rendered into a new service, in order.
pub fn service_template_files() -> (f: Vec<String>)
    ensures
        f@.len() == 3,
        f@[0]@ == MAIN_PY@,
        f@[1]@ == REQUIREMENTS_TXT@,
        f@[2]@ == DOCKERFILE@,
{
    let mut f: Vec<String> = Vec::new();
    f.push(owned(MAIN_PY));
    f.push(owned(REQUIREMENTS_TXT));
    f.push(owned(DOCKERFILE));
    f
}

/// The new `pyproject.toml`, or none when the member is already listed
/// (then it is left as it is).
pub fn pyproject_with_service(py: &str, name: &str) -> (r: Option<String>)
    ensures
        r is None <==> has_substring(py@, member_entry(name@)),
        r matches Some(p) ==> p@ == pyproject_after_service(py@, name@),
{
    let mut member = concat3("\"", SERVICES_PREFIX, name);
    member.append("\"");
    if contains(py, member.as_str()) {
        None
    } else {
        let mut with_member = concat3(MEMBERS_HEADER, MEMBER_INDENT, member.as_str());
        with_member.append(",");
        proof {
            reveal_strlit("members = [");
        }
        Some(replace_all(py, MEMBERS_HEADER, with_member.as_str()))
    }
}

/// The compose block of service `name` on host port `port`.
pub fn service_compose_block(name: &str, port: u16) -> (b: String)
    ensures
        b@ == service_block(name@, port as nat),
{
    let mut b = concat3("  ", name, BUILD_LINE);
    b.append(name);
    b.append(PORTS_LINES);
    let digits = decimal_string(port as u32);
    b.append(digits.as_str());
    b.append(CONTAINER_PORT_LINE);
    b
}

/// The new compose file for `name` on `port`, or none when it already
/// declares the service.
pub fn compose_with_service_port(compose: &str, name: &str, port: u16) -> (r: Option<String>)
    ensures
        r is None <==> has_substring(compose@, compose_marker(name@)),
        r matches Some(c) ==> c@ == compose_after_service(compose@, name@, port as nat),
{
    let marker = compose_service_marker(name);
    if contains(compose, marker.as_str()) {
        None
    } else {
        let block = service_compose_block(name, port);
        Some(concat2(compose, block.as_str()))
    }
}

/// The new compose file for `name` and the random host port it publishes,
/// or none when the compose file already declares the service (no port is
/// drawn then).
pub fn compose_with_service(compose: &str, name: &str) -> (r: Option<(String, u16)>)
    ensures
        r is None <==> has_substring(compose@, compose_marker(name@)),
        r matches Some((c, p)) ==> BASE_PORT <= p < 9000 && c@ == compose_after_service(
            compose@,
            name@,
            p as nat,
        ),
{
    let marker = compose_service_marker(name);
    if contains(compose, marker.as_str()) {
        None
    } else {
        let port = pick_service_port();
        match compose_with_service_port(compose, name, port) {
            Some(c) => Some((c, port)),
            None => None,
        }
    }
}

/// `.env` with the port variable of `name` appended.
pub fn env_with_service_port(env: &str, name: &str, port: u16) -> (e: String)
    ensures
        e@ == env@ + port_line(name@, port as nat),
        all_ascii(name@) ==> unicode_uppercase(name@) == ascii_uppered(name@),
{
    let upper = to_uppercase(name);
    let mut e = concat3(env, upper.as_str(), PORT_VARIABLE_SUFFIX);
    let digits = decimal_string(port as u32);
    e.append(digits.as_str());
    e.append("\n");
    e
}

proof fn lemma_block_declares(name: Seq<char>, port: nat)
    ensures
        service_block(name, port) == compose_marker(name) + (BUILD_LINE@.skip(1) + name
            + PORTS_LINES@ + decimal(port) + CONTAINER_PORT_LINE@),
{
    reveal_strlit(":\n    build: ./services/");
    reveal_strlit(":");
    assert(BUILD_LINE@ == ":"@ + BUILD_LINE@.skip(1));
}

/// Registering a service twice changes nothing the second time, whatever
/// ports are drawn: the member is listed (or there is no members header to
/// list it under), the service is declared, and `.env` changes only with
/// the compose file.
pub proof fn law_registration_idempotent(
    py: Seq<char>,
    compose: Seq<char>,
    env: Seq<char>,
    name: Seq<char>,
    port1: nat,
    port2: nat,
)
    ensures
        ({
            let once = registered(py, compose, env, name, port1);
            registered(once.0, once.1, once.2, name, port2) == once
        }),
{
    reveal_strlit("members = [");
    let py1 = pyproject_after_service(py, name);
    if !has_substring(py, member_entry(name)) {
        if has_substring(py, MEMBERS_HEADER@) {
            lemma_replaced_present(py, MEMBERS_HEADER@, members_with(name));
            lemma_substring_middle(
                MEMBERS_HEADER@ + MEMBER_INDENT@,
                member_entry(name),
                ","@,
            );
            lemma_substring_transitive(py1, members_with(name), member_entry(name));
        } else {
            lemma_replaced_absent(py, MEMBERS_HEADER@, members_with(name));
        }
    }
    if !has_substring(compose, compose_marker(name)) {
        let rest = BUILD_LINE@.skip(1) + name + PORTS_LINES@ + decimal(port1)
            + CONTAINER_PORT_LINE@;
        lemma_block_declares(name, port1);
        lemma_substring_middle(compose, compose_marker(name), rest);
        assert(compose + compose_marker(name) + rest =~= compose + service_block(name, port1));
    }
}

/// After registering a service whose compose block was missing, the compose
/// file declares it, builds it from `./services/<name>`, publishes a port,
/// and `.env` records `<NAME>_PORT=`; the member is listed whenever
/// `pyproject.toml` has a members header or already listed it.
pub proof fn law_registration_effects(
    py: Seq<char>,
    compose: Seq<char>,
    env: Seq<char>,
    name: Seq<char>,
    port: nat,
)
    requires
        !has_substring(compose, compose_marker(name)),
    ensures
        ({
            let r = registered(py, compose, env, name, port);
            &&& has_substring(r.1, compose_marker(name))
            &&& has_substring(r.1, "./services/"@ + name)
            &&& has_substring(r.1, "ports:"@)
            &&& has_substring(r.2, unicode_uppercase(name) + PORT_VARIABLE_SUFFIX@)
            &&& (has_substring(py, MEMBERS_HEADER@) || has_substring(py, member_entry(name)))
                ==> has_substring(r.0, member_entry(name))
        }),
{
    reveal_strlit("members = [");
    reveal_strlit(":\n    build: ./services/");
    reveal_strlit("\n    ports:\n      - \"");
    reveal_strlit("./services/");
    reveal_strlit("ports:");
    let block = service_block(name, port);
    let rest = CONTAINER_PORT_LINE@;
    lemma_block_declares(name, port);
    let tail = BUILD_LINE@.skip(1) + name + PORTS_LINES@ + decimal(port) + CONTAINER_PORT_LINE@;
    lemma_substring_middle(compose, compose_marker(name), tail);
    assert(compose + compose_marker(name) + tail =~= compose + block);
    // "./services/<name>" sits inside the build line.
    reveal_strlit(":\n    build: ");
    let build_tail = ":\n    build: "@;
    assert(BUILD_LINE@ =~= build_tail + "./services/"@);
    assert(block == (compose_marker(name).drop_last() + build_tail) + ("./services/"@ + name) + (
    PORTS_LINES@ + decimal(port) + rest));
    lemma_substring_middle(
        compose_marker(name).drop_last() + build_tail,
        "./services/"@ + name,
        PORTS_LINES@ + decimal(port) + rest,
    );
    crate::text::lemma_substring_prepend(compose, block, "./services/"@ + name);
    // "ports:" sits inside the ports lines.
    reveal_strlit("\n    ");
    reveal_strlit("\n      - \"");
    assert(PORTS_LINES@ =~= "\n    "@ + "ports:"@ + "\n      - \""@);
    assert(block == ("  "@ + name + BUILD_LINE@ + name + "\n    "@) + "ports:"@ + (
    "\n      - \""@ + decimal(port) + rest));
    lemma_substring_middle(
        "  "@ + name + BUILD_LINE@ + name + "\n    "@,
        "ports:"@,
        "\n      - \""@ + decimal(port) + rest,
    );
    crate::text::lemma_substring_prepend(compose, block, "ports:"@);
    // The port variable.
    assert(env + port_line(name, port) == env + (unicode_uppercase(name) + PORT_VARIABLE_SUFFIX@)
        + (decimal(port) + "\n"@));
    lemma_substring_middle(
        env,
        unicode_uppercase(name) + PORT_VARIABLE_SUFFIX@,
        decimal(port) + "\n"@,
    );
    // The member entry.
    if !has_substring(py, member_entry(name)) && has_substring(py, MEMBERS_HEADER@) {
        lemma_replaced_present(py, MEMBERS_HEADER@, members_with(name));
        lemma_substring_middle(MEMBERS_HEADER@ + MEMBER_INDENT@, member_entry(name), ","@);
        lemma_substring_transitive(
            pyproject_after_service(py, name),
            members_with(name),
            member_entry(name),
        );
    }
}

/// Registering a service only appends to the compose file and `.env`:
/// everything they held before is kept, in place.
pub proof fn law_registration_appends(
    py: Seq<char>,
    compose: Seq<char>,
    env: Seq<char>,
    name: Seq<char>,
    port: nat,
)
    ensures
        ({
            let r = registered(py, compose, env, name, port);
            &&& compose.len() <= r.1.len() && r.1.take(compose.len() as int) == compose
            &&& env.len() <= r.2.len() && r.2.take(env.len() as int) == env
        }),
{
    let r = registered(py, compose, env, name, port);
    assert(r.1.take(compose.len() as int) =~= compose);
    assert(r.2.take(env.len() as int) =~= env);
}

} // verus!
