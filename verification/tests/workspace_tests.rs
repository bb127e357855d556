use fastgen::config::{config_location, default_config_yaml, Config, ConfigLocation};
use fastgen::plugin::{
    appended_content, decode_fetched_content, github_file_url, github_plugin_url, plugin_dir,
    plugin_manifest_path, plugin_template_path, plugin_templates_glob, target_action,
    plugin_copy_source,
    ContentError, Target, TargetAction,
};
use fastgen::workspace::devui::{
    check_execute_request, check_plan_request, execution_failed_message, generate_html,
    listed_services, plan_failed_message, route, validation_failed_message, HttpMethod, Route,
};
use fastgen::workspace::external::{
    compose_with_external, env_with_external, external_not_found_message, external_template_path,
};
use fastgen::workspace::init::initial_workspace_files;
use fastgen::workspace::service::{
    compose_with_service, compose_with_service_port, env_with_service_port, pick_service_port,
    pyproject_with_service, service_port, service_template_files, uv_init_args,
    ai_manifest_template, AI_MANIFEST_FILE,
};
use fastgen::workspace::devui::{
    compose_service_names, execute_body_fields, execute_reply, plan_body_service, plan_reply,
    plan_reply_from, plan_call_inputs, plan_inputs_from, execute_inputs_from, execute_call_inputs,
};
use fastgen::ai::providers::{GeneratedFile, LlmProvider};

const PYPROJECT: &str = "[tool.poetry]\nname = \"test-workspace\"\nversion = \"0.1.0\"\ndescription = \"\"\nauthors = [\"Your Name <you@example.com>\"]\n\n[tool.poetry.dependencies]\npython = \"^3.9\"\n\n[tool.poetry.group.dev.dependencies]\npytest = \"^7.0\"\n\n[tool.pytest.ini_options]\nminversion = \"6.0\"\naddopts = \"-ra -q\"\ntestpaths = [\"tests\"]\n\n[tool.ruff]\nselect = [\"E\", \"F\", \"I\"]\n\n[workspace.members]\nmembers = []";

#[test]
fn default_config_uses_local_ollama() {
    let c = Config::default();
    assert!(c.github_token.is_none());
    assert!(c.llm_provider.is_none());
    assert_eq!(c.ollama_url, Some("http://localhost:11434".to_string()));
    assert!(default_config_yaml().contains("ollama_url: \"http://localhost:11434\""));
    assert!(default_config_yaml().starts_with("# Arquivo de configuracao gerado automaticamente\n"));
}

#[test]
fn config_file_location() {
    assert_eq!(config_location(true, true), ConfigLocation::CurrentDir);
    assert_eq!(config_location(true, false), ConfigLocation::CurrentDir);
    assert_eq!(config_location(false, true), ConfigLocation::ExecutableDir);
    assert_eq!(config_location(false, false), ConfigLocation::CurrentDir);
}

#[test]
fn registering_a_service_updates_the_workspace_files() {
    let name = "my_test_service";
    let py = pyproject_with_service(PYPROJECT, name).expect("member added");
    assert!(py.contains(&format!("\"services/{}\"", name)));
    assert!(py.ends_with("members = [\n    \"services/my_test_service\",]"));
    let (compose, port) =
        compose_with_service("version: '3.8'\nservices:\n", name).expect("service added");
    assert!(compose.contains(&format!("  {}:", name)));
    assert!(compose.contains(&format!("./services/{}", name)));
    assert!(compose.contains("ports:"));
    assert!((8000..9000).contains(&port));
    let env = env_with_service_port("GLOBAL_VAR=initial_value\n", name, port);
    assert!(env.contains(&format!("{}_PORT=", name.to_uppercase())));
    assert_eq!(env, format!("GLOBAL_VAR=initial_value\nMY_TEST_SERVICE_PORT={}\n", port));
}

#[test]
fn compose_block_is_exact() {
    let c = compose_with_service_port("services:\n", "users", 8123).unwrap();
    assert_eq!(c, "services:\n  users:\n    build: ./services/users\n    ports:\n      - \"8123:8000\"\n");
    assert_eq!(compose_with_service_port(&c, "users", 8999), None);
    assert!(compose_with_service(&c, "users").is_none());
}

#[test]
fn registering_twice_changes_nothing() {
    let py = pyproject_with_service(PYPROJECT, "orders").unwrap();
    assert_eq!(pyproject_with_service(&py, "orders"), None);
    let no_header = "[project]\nname = \"x\"\n";
    assert_eq!(pyproject_with_service(no_header, "orders"), Some(no_header.to_string()));
}

#[test]
fn service_ports_and_commands() {
    assert_eq!(service_port(0), 8000);
    assert_eq!(service_port(999), 8999);
    assert_eq!(service_port(1000), 8000);
    assert_eq!(service_port(65535), 8535);
    for _ in 0..100 {
        let p = pick_service_port();
        assert!((8000..9000).contains(&p));
    }
    assert_eq!(uv_init_args("users"), vec!["init", "services/users", "--no-workspace", "--app"]);
    assert_eq!(service_template_files(), vec!["main.py", "requirements.txt", "Dockerfile"]);
}

#[test]
fn external_services_are_added_once() {
    assert_eq!(external_template_path("redis"), "templates/external/redis.yml");
    assert_eq!(external_not_found_message("x"), "Serviço externo 'x' não encontrado.");
    let snippet = "  redis:\n    image: redis:7\n";
    let compose = compose_with_external("services:\n", "redis", snippet).unwrap();
    assert_eq!(compose, "services:\n\n  redis:\n    image: redis:7\n");
    assert_eq!(compose_with_external(&compose, "redis", snippet), None);
    let env = env_with_external("# env\n", "redis").unwrap();
    assert_eq!(env, "# env\nREDIS_ENABLED=true\n");
    assert_eq!(env_with_external(&env, "redis"), None);
}

#[test]
fn new_workspace_files() {
    let f = initial_workspace_files();
    assert_eq!(f.len(), 3);
    assert_eq!(f[0].path, "docker-compose.yml");
    assert_eq!(f[0].content, "version: \"3.9\"\nservices:\n");
    assert_eq!(f[1].path, ".env");
    assert_eq!(f[1].content, "# Variáveis de ambiente\n");
    assert_eq!(f[2].path, "pyproject.toml");
    assert_eq!(f[2].content, "[tool.uv.workspace]\nmembers = [\n]\n");
}

#[test]
fn first_service_of_a_new_workspace_is_listed() {
    let f = initial_workspace_files();
    let py = pyproject_with_service(&f[2].content, "users").expect("member added");
    assert_eq!(py, "[tool.uv.workspace]\nmembers = [\n    \"services/users\",\n]\n");
    let (compose, port) = compose_with_service(&f[0].content, "users").expect("service added");
    assert!(compose.contains("  users:\n    build: ./services/users\n"));
    assert!((8000..9000).contains(&port));
    assert!(env_with_service_port(&f[1].content, "users", port).contains("USERS_PORT="));
}

#[test]
fn ai_manifest_template_names_the_service() {
    assert_eq!(AI_MANIFEST_FILE, "instrucoes.md");
    let t = ai_manifest_template("products");
    assert!(t.starts_with("# Instruções para o serviço products\n\n"));
    assert!(t.ends_with("- Porta em que o serviço roda.\n"));
}

#[test]
fn dev_ui_routes() {
    assert_eq!(route(HttpMethod::Get, "/api/services"), Route::ListServices);
    assert_eq!(route(HttpMethod::Post, "/api/plan"), Route::Plan);
    assert_eq!(route(HttpMethod::Post, "/api/execute"), Route::Execute);
    assert_eq!(route(HttpMethod::Post, "/api/services"), Route::ApiNotFound);
    assert_eq!(route(HttpMethod::Get, "/api/unknown"), Route::ApiNotFound);
    assert_eq!(route(HttpMethod::Get, "/"), Route::Page);
    assert_eq!(route(HttpMethod::Other, "/index.html"), Route::Page);
}

#[test]
fn dev_ui_requests() {
    let names = vec!["users".to_string(), "validation".to_string(), "orders".to_string()];
    assert_eq!(listed_services(&names), vec!["users", "orders"]);
    assert_eq!(check_plan_request(""), Err("Service name required".to_string()));
    assert_eq!(check_plan_request("users"), Ok(()));
    assert_eq!(check_execute_request("users", "plan", "m"), Ok(()));
    assert_eq!(
        check_execute_request("users", "", "m"),
        Err("Service, plan, and manifest required".to_string())
    );
    assert_eq!(plan_failed_message("timeout"), "Plan generation failed: timeout");
    assert_eq!(execution_failed_message("x"), "Execution failed: x");
    assert_eq!(validation_failed_message("y"), "Validation failed to run: y");
}

#[test]
fn dev_ui_page() {
    let html = generate_html("company", &vec!["users".to_string(), "redis".to_string()], true);
    assert!(html.starts_with("\n<!DOCTYPE html>\n<html lang=\"en\">"));
    assert!(html.contains("rounded\">company</span>"));
    assert!(html.contains("<li class=\"p-3 bg-gray-50 border border-gray-200 rounded-md\">users</li><li class=\"p-3 bg-gray-50 border border-gray-200 rounded-md\">redis</li>"));
    assert!(html.contains("const IS_AI_DISABLED = false;"));
    assert!(!html.contains("No services found in docker-compose.yml"));
    assert!(html.contains("onclick=\"selectService('${s}')\""));
    assert!(html.ends_with("</html>\n"));
    let empty = generate_html("w", &vec![], false);
    assert!(empty.contains("No services found in docker-compose.yml"));
    assert!(empty.contains("const IS_AI_DISABLED = true;"));
}

#[test]
fn plugin_targets_and_paths() {
    let t = Target { path: "a.py".into(), template: Some("auth.py".into()), append: Some("x".into()), copy: Some(true) };
    assert_eq!(target_action(&t), TargetAction::Render("auth.py".into()));
    let t = Target { path: "requirements.txt".into(), template: None, append: Some("\npytest".into()), copy: Some(true) };
    assert_eq!(target_action(&t), TargetAction::Append("\npytest".into()));
    let t = Target { path: "k8s".into(), template: None, append: None, copy: Some(true) };
    assert_eq!(target_action(&t), TargetAction::Copy("k8s".into()));
    assert_eq!(plugin_copy_source("kubernetes", "k8s"), "templates/plugins/kubernetes/k8s");
    let t = Target { path: "k8s".into(), template: None, append: None, copy: Some(false) };
    assert_eq!(target_action(&t), TargetAction::Nothing);
    let t = Target { path: "k8s".into(), template: None, append: None, copy: None };
    assert_eq!(target_action(&t), TargetAction::Nothing);
    assert_eq!(appended_content("fastapi", "\npytest"), "fastapi\npytest");
    assert_eq!(plugin_manifest_path("auth-jwt"), "templates/plugins/auth-jwt/plugin.yaml");
    assert_eq!(plugin_templates_glob("auth-jwt"), "templates/plugins/auth-jwt/**/*");
    assert_eq!(plugin_template_path("k", "t.py"), "templates/plugins/k/t.py");
    assert_eq!(plugin_dir("k"), "templates/plugins/k");
    assert_eq!(
        github_plugin_url("kubernetes"),
        "https://api.github.com/repos/DigitalizeBr/fastgen/contents/templates/plugins/kubernetes"
    );
    assert_eq!(
        github_file_url("templates/plugins/k/plugin.yaml"),
        "https://api.github.com/repos/DigitalizeBr/fastgen/contents/templates/plugins/k/plugin.yaml"
    );
}

#[test]
fn fetched_plugin_files_are_decoded() {
    let content = Some("aGVs\nbG8g\nd29ybGQ=\n".to_string());
    match decode_fetched_content(&content, &Some("base64".to_string())) {
        Some(Ok(bytes)) => assert_eq!(bytes, b"hello world".to_vec()),
        _ => panic!("expected decoded bytes"),
    }
    assert!(decode_fetched_content(&content, &Some("utf-8".to_string())).is_none());
    assert!(decode_fetched_content(&None, &Some("base64".to_string())).is_none());
    assert!(decode_fetched_content(&content, &None).is_none());
    match decode_fetched_content(&Some("@@@".to_string()), &Some("base64".to_string())) {
        Some(Err(ContentError::InvalidBase64(_))) => {}
        _ => panic!("expected a decoding error"),
    }
}

#[test]
fn dev_ui_plan_bodies() {
    assert_eq!(plan_body_service("{\"service\": \"users\"}"), Ok("users".to_string()));
    assert_eq!(plan_body_service("not json"), Err("Invalid JSON".to_string()));
    assert_eq!(plan_body_service("{}"), Err("Service name required".to_string()));
    assert_eq!(plan_body_service("{\"service\": 3}"), Err("Service name required".to_string()));
    assert_eq!(plan_body_service("[1, 2]"), Err("Service name required".to_string()));
}

#[test]
fn dev_ui_plan_calls_check_in_order() {
    let mut c = Config::default();
    c.llm_provider = Some("openai".to_string());
    match plan_call_inputs("{\"service\": \"\"}", &c, None) {
        Err(e) => assert_eq!(e, "Service name required"),
        Ok(_) => panic!("accepted"),
    }
    match plan_call_inputs("{\"service\": \"users\"}", &c, None) {
        Err(e) => assert_eq!(e, "openai_api_key is required"),
        Ok(_) => panic!("accepted"),
    }
    match plan_call_inputs("{\"service\": \"users\"}", &Config::default(), None) {
        Err(e) => assert_eq!(e, "AI Path not configured"),
        Ok(_) => panic!("accepted"),
    }
    match plan_call_inputs("{\"service\": \"users\"}", &Config::default(), Some("m")) {
        Ok((s, _)) => assert_eq!(s, "users"),
        Err(e) => panic!("refused: {}", e),
    }
}

#[test]
fn dev_ui_execute_bodies() {
    assert_eq!(
        execute_body_fields("{\"service\": \"s\", \"plan\": \"p\", \"manifest\": \"m\"}"),
        Ok(("s".to_string(), "p".to_string(), "m".to_string()))
    );
    assert_eq!(
        execute_body_fields("{\"service\": \"s\", \"plan\": \"\", \"manifest\": \"m\"}"),
        Err("Service, plan, and manifest required".to_string())
    );
    assert_eq!(execute_body_fields("{"), Err("Invalid JSON".to_string()));
}

#[test]
fn dev_ui_replies() {
    assert_eq!(
        plan_reply_from(Ok("P".to_string()), "M"),
        Ok(("P".to_string(), "M".to_string()))
    );
    assert_eq!(
        plan_reply_from(Err("down".to_string()), "M"),
        Err("Plan generation failed: down".to_string())
    );
    assert_eq!(execute_reply(Err("disk".to_string()), None), Err("Execution failed: disk".to_string()));
    assert_eq!(execute_reply(Ok(()), None), Ok(String::new()));
    assert_eq!(execute_reply(Ok(()), Some(Ok("ok".to_string()))), Ok("ok".to_string()));
    assert_eq!(
        execute_reply(Ok(()), Some(Err("x".to_string()))),
        Ok("Validation failed to run: x".to_string())
    );
}

struct Echo;

impl LlmProvider for Echo {
    fn chat(&self, prompt: &str) -> Result<String, String> {
        Ok(prompt.len().to_string())
    }
    fn generate_files(&self, _prompt: &str) -> Result<Vec<GeneratedFile>, String> {
        Ok(Vec::new())
    }
}

#[test]
fn dev_ui_plan_reply_asks_the_model() {
    assert_eq!(plan_reply(&Echo, "svc", ""), Err("No manifest found".to_string()));
    let expected = fastgen::ai::generator::plan_prompt("M", "svc").len().to_string();
    assert_eq!(plan_reply(&Echo, "svc", "M"), Ok((expected, "M".to_string())));
}

#[test]
fn compose_services_are_read_from_yaml() {
    let text = "version: \"3.9\"\nservices:\n  users:\n    build: ./services/users\n  redis:\n    image: redis\n  1: {}\n";
    assert_eq!(compose_service_names(text), vec!["users".to_string(), "redis".to_string()]);
    assert!(compose_service_names("version: \"3.9\"\nservices:\n").is_empty());
    assert!(compose_service_names(": : :\n- [").is_empty());
    let html = fastgen::workspace::devui::dev_ui_page("w", Some(text), true);
    assert!(html.contains(">users</li>"));
    assert!(html.contains(">redis</li>"));
    let none = fastgen::workspace::devui::dev_ui_page("w", None, true);
    assert!(none.contains("No services found in docker-compose.yml"));
}

#[test]
fn dev_ui_inputs_from_outcomes() {
    let provider = || fastgen::ai::providers::get_provider(&Config::default());
    assert_eq!(
        plan_inputs_from(Err("Invalid JSON".to_string()), provider(), true).err(),
        Some("Invalid JSON".to_string())
    );
    assert_eq!(
        plan_inputs_from(Ok("svc".to_string()), Err("tls".to_string()), true).err(),
        Some("tls".to_string())
    );
    assert_eq!(
        plan_inputs_from(Ok("svc".to_string()), provider(), false).err(),
        Some("AI Path not configured".to_string())
    );
    match plan_inputs_from(Ok("svc".to_string()), provider(), true) {
        Ok((s, _)) => assert_eq!(s, "svc"),
        Err(e) => panic!("refused: {}", e),
    }
    let fields = || Ok(("s".to_string(), "p".to_string(), "m".to_string()));
    assert_eq!(
        execute_inputs_from(fields(), Err("tls".to_string()), true).err(),
        Some("tls".to_string())
    );
    assert_eq!(
        execute_inputs_from(fields(), provider(), false).err(),
        Some("AI Path not configured".to_string())
    );
    match execute_inputs_from(fields(), provider(), true) {
        Ok((s, p, m, _)) => assert_eq!((s.as_str(), p.as_str(), m.as_str()), ("s", "p", "m")),
        Err(e) => panic!("refused: {}", e),
    }
    let body = "{\"service\": \"s\", \"plan\": \"p\", \"manifest\": \"m\"}";
    match execute_call_inputs(body, &Config::default(), Some("m")) {
        Ok((s, _, _, _)) => assert_eq!(s, "s"),
        Err(e) => panic!("refused: {}", e),
    }
    assert_eq!(
        execute_call_inputs(body, &Config::default(), None).err(),
        Some("AI Path not configured".to_string())
    );
}
