use fastgen::ai::generator::{
    execute_prompt, generate_plan, plan_prompt, push_file_section, validation_prompt,
};
use fastgen::ai::orchestrator::{
    feedback_text, is_manifest_extension, is_skipped_entry, is_validation_dir,
    push_existing_section, review_decision, validation_rejected, ReviewDecision,
};
use fastgen::ai::providers::{
    provider_kind, GeminiProvider, OllamaProvider, OpenAiProvider, ProviderKind,
    gemini_url, get_provider, ollama_files_location, ollama_files_prompt, ollama_generate_url,
    strip_json_fences, FilesLocation, GeneratedFile, LlmProvider, Provider, http_client,
    ollama_answer_layout, ollama_layout_from,
};
use fastgen::ai::run::{
    execute_request, plan_request, run_step, PlanNoteOf, RunActionOf, RunEventOf, RunOutcomeOf,
    RunStateOf, RunState, RunAction,
};
use fastgen::config::Config;
use std::cell::RefCell;

fn config_with(provider: Option<&str>) -> Config {
    let mut c = Config::default();
    c.llm_provider = provider.map(|s| s.to_string());
    c
}

#[test]
fn unknown_provider_is_refused_with_its_name() {
    match get_provider(&config_with(Some("mistral"))) {
        Err(e) => assert_eq!(e, "Unknown LLM provider: mistral"),
        Ok(_) => panic!("unknown provider accepted"),
    }
}

#[test]
fn missing_keys_are_reported() {
    match get_provider(&config_with(Some("openai"))) {
        Err(e) => assert_eq!(e, "openai_api_key is required"),
        Ok(_) => panic!("accepted without key"),
    }
    match get_provider(&config_with(Some("Gemini"))) {
        Err(e) => assert_eq!(e, "gemini_api_key is required"),
        Ok(_) => panic!("accepted without key"),
    }
}

#[test]
fn provider_name_is_case_insensitive_and_models_default() {
    let mut c = config_with(Some("OpenAI"));
    c.openai_api_key = Some("sk-test".to_string());
    match get_provider(&c).expect("openai provider") {
        Provider::OpenAi(p) => {
            assert_eq!(p.api_key, "sk-test");
            assert_eq!(p.model, "gpt-4o-mini");
            assert_eq!(p.client.timeout_secs(), 120);
        }
        _ => panic!("wrong provider"),
    }
    let mut c = config_with(Some("gemini"));
    c.gemini_api_key = Some("AIza".to_string());
    c.llm_model = Some("gemini-2.0".to_string());
    match get_provider(&c).expect("gemini provider") {
        Provider::Gemini(p) => {
            assert_eq!(p.model, "gemini-2.0");
            assert_eq!(p.api_key, "AIza");
        }
        _ => panic!("wrong provider"),
    }
}

#[test]
fn ollama_is_the_default_provider() {
    let mut c = config_with(None);
    c.ollama_url = None;
    match get_provider(&c).expect("ollama provider") {
        Provider::Ollama(p) => {
            assert_eq!(p.url, "http://localhost:11434");
            assert_eq!(p.model, "llama3");
            assert_eq!(p.client.timeout_secs(), 300);
        }
        _ => panic!("wrong provider"),
    }
    let mut c = config_with(Some("OLLAMA"));
    c.ollama_url = Some("http://gpu:11434".to_string());
    match get_provider(&c).expect("ollama provider") {
        Provider::Ollama(p) => assert_eq!(p.url, "http://gpu:11434"),
        _ => panic!("wrong provider"),
    }
}

#[test]
fn request_addresses_and_prompts() {
    assert_eq!(
        gemini_url("gemini-1.5-pro", "KEY"),
        "https://generativelanguage.googleapis.com/v1beta/models/gemini-1.5-pro:generateContent?key=KEY"
    );
    assert_eq!(ollama_generate_url("http://localhost:11434"), "http://localhost:11434/api/generate");
    let p = ollama_files_prompt("make it");
    assert!(p.starts_with("make it\n\nIMPORTANT: You must return the output as a strict JSON format"));
    assert!(p.ends_with("[{\"path\": \"app/main.py\", \"content\": \"print('hello')\"}]"));
}

#[test]
fn fences_are_stripped_from_ollama_answers() {
    assert_eq!(strip_json_fences("  ```json\n[{\"a\":1}]\n```  "), "[{\"a\":1}]");
    assert_eq!(strip_json_fences("```\n{}\n```"), "{}");
    assert_eq!(strip_json_fences("[]"), "[]");
}

#[test]
fn ollama_files_are_found_in_arrays_or_files_entries() {
    assert_eq!(ollama_files_location(true, false), Ok(FilesLocation::Whole));
    assert_eq!(ollama_files_location(true, true), Ok(FilesLocation::Whole));
    assert_eq!(ollama_files_location(false, true), Ok(FilesLocation::FilesEntry));
    assert_eq!(
        ollama_files_location(false, false),
        Err("Unexpected JSON structure from Ollama".to_string())
    );
}

#[test]
fn plan_prompt_names_the_service_and_embeds_the_manifest() {
    let p = plan_prompt("Build a catalog.", "products");
    assert_eq!(
        p,
        "You are FastGen AI, an expert software architect and Cloud Native engineer.\n\
        The user wants to generate a microservice or infrastructure component named 'products'.\n\
        Read the following manifest/instructions:\n\n\
        Build a catalog.\n\n\
        Create a detailed step-by-step plan of the files and directories that will be created for this service.\n\
        Do NOT generate the code yet. Just describe the architecture and the file structure in Markdown."
    );
}

#[test]
fn execute_and_validation_prompts() {
    let p = execute_prompt("M", "svc", "PLAN");
    assert_eq!(
        p,
        "You are FastGen AI, an expert Cloud Native engineer.\n\
        You must generate the code for a service named 'svc'.\n\
        Here is the original manifest:\nM\n\n\
        Here is the approved plan:\nPLAN\n\n\
        You MUST use the function 'create_files' to generate the files. \
        Ensure all code is functional, clean, and follows best practices."
    );
    let v = validation_prompt("RULES", "CODE");
    assert_eq!(
        v,
        "You are FastGen AI Security and QA Agent.\n\
        Review the following codebase against the validation rules provided.\n\
        Validation Rules:\nRULES\n\n\
        Codebase:\nCODE\n\n\
        Provide a detailed report on whether the code passes the validation rules. \
        List any issues found, or state clearly if everything is correct."
    );
    let mut code = String::new();
    push_file_section(&mut code, "\"a.py\"", "x=1");
    assert_eq!(code, "\n\n--- File: \"a.py\" ---\n\nx=1");
    let mut existing = String::from("pre");
    push_existing_section(&mut existing, "\"b.py\"", "y");
    assert_eq!(existing, "pre\n\n--- Arquivo Existente: \"b.py\" ---\n\ny");
}

struct Recorder {
    prompts: RefCell<Vec<String>>,
}

impl LlmProvider for Recorder {
    fn chat(&self, prompt: &str) -> Result<String, String> {
        self.prompts.borrow_mut().push(prompt.to_string());
        Ok("the plan".to_string())
    }
    fn generate_files(&self, _prompt: &str) -> Result<Vec<GeneratedFile>, String> {
        Ok(vec![GeneratedFile { path: "main.py".to_string(), content: String::new() }])
    }
}

#[test]
fn generate_plan_sends_the_plan_prompt() {
    let r = Recorder { prompts: RefCell::new(Vec::new()) };
    let boxed: Box<dyn LlmProvider> = Box::new(r);
    assert_eq!(generate_plan(&*boxed, "manifest", "orders"), Ok("the plan".to_string()));
    let r2 = Recorder { prompts: RefCell::new(Vec::new()) };
    let _ = generate_plan(&r2, "manifest", "orders");
    assert_eq!(r2.prompts.borrow().clone(), vec![plan_prompt("manifest", "orders")]);
}

#[test]
fn manifest_and_entry_classification() {
    assert!(is_manifest_extension("md"));
    assert!(is_manifest_extension("yml"));
    assert!(is_manifest_extension("yaml"));
    assert!(!is_manifest_extension("txt"));
    assert!(!is_manifest_extension("MD"));
    assert!(is_validation_dir("validation"));
    assert!(!is_validation_dir("validations"));
    for n in [".git", ".env", "target", "node_modules", "build", "dist", "venv"] {
        assert!(is_skipped_entry(n), "{}", n);
    }
    for n in ["app", "main.py", "builds"] {
        assert!(!is_skipped_entry(n), "{}", n);
    }
}

#[test]
fn answers_to_the_plan_review() {
    assert_eq!(review_decision("n\n"), ReviewDecision::Skip);
    assert_eq!(review_decision("  N  "), ReviewDecision::Skip);
    assert_eq!(review_decision("i\n"), ReviewDecision::Feedback);
    assert_eq!(review_decision("I"), ReviewDecision::Feedback);
    assert_eq!(review_decision("\n"), ReviewDecision::Approve);
    assert_eq!(review_decision("y"), ReviewDecision::Approve);
    assert_eq!(review_decision("no"), ReviewDecision::Approve);
    assert_eq!(feedback_text("  use redis \n"), Some("use redis".to_string()));
    assert_eq!(feedback_text(" \n"), None);
    assert!(validation_rejected("N\n"));
    assert!(!validation_rejected("\n"));
    assert!(!validation_rejected("yes"));
}

#[test]
fn provider_kind_selection() {
    assert_eq!(provider_kind(&config_with(None)), Ok(ProviderKind::Ollama));
    assert_eq!(provider_kind(&config_with(Some("GeMiNi"))), Ok(ProviderKind::Gemini));
    assert_eq!(provider_kind(&config_with(Some("openai"))), Ok(ProviderKind::OpenAi));
    assert_eq!(
        provider_kind(&config_with(Some("azure"))),
        Err("Unknown LLM provider: azure".to_string())
    );
}

#[test]
fn providers_from_a_client_outcome() {
    let mut c = config_with(Some("openai"));
    match OpenAiProvider::with_client(&c, Err("tls backend".to_string())) {
        Err(e) => assert_eq!(e, "openai_api_key is required"),
        Ok(_) => panic!("accepted without key"),
    }
    c.openai_api_key = Some("k".to_string());
    match OpenAiProvider::with_client(&c, Err("tls backend".to_string())) {
        Err(e) => assert_eq!(e, "tls backend"),
        Ok(_) => panic!("accepted without client"),
    }
    let p = OpenAiProvider::with_client(&c, http_client(120)).expect("provider");
    assert_eq!((p.api_key.as_str(), p.model.as_str(), p.client.timeout_secs()), ("k", "gpt-4o-mini", 120));
    match GeminiProvider::with_client(&c, http_client(120)) {
        Err(e) => assert_eq!(e, "gemini_api_key is required"),
        Ok(_) => panic!("accepted without key"),
    }
    match OllamaProvider::with_client(&c, Err("resolver".to_string())) {
        Err(e) => assert_eq!(e, "resolver"),
        Ok(_) => panic!("accepted without client"),
    }
    let o = OllamaProvider::with_client(&Config::default(), http_client(300)).expect("provider");
    assert_eq!((o.url.as_str(), o.model.as_str(), o.client.timeout_secs()), ("http://localhost:11434", "llama3", 300));
}

#[test]
fn http_clients_keep_their_timeout() {
    let c = http_client(120).expect("client");
    assert_eq!(c.timeout_secs(), 120);
    let c = http_client(300).expect("client");
    assert_eq!(c.timeout_secs(), 300);
}

struct Failing;

impl LlmProvider for Failing {
    fn chat(&self, _prompt: &str) -> Result<String, String> {
        Err("model offline".to_string())
    }
    fn generate_files(&self, _prompt: &str) -> Result<Vec<GeneratedFile>, String> {
        Err("model offline".to_string())
    }
}

#[test]
fn generate_plan_passes_model_errors_through() {
    assert_eq!(generate_plan(&Failing, "M", "svc"), Err("model offline".to_string()));
}

#[test]
fn run_plan_prompts_carry_existing_code_and_feedback() {
    assert_eq!(plan_request("M", "svc", "", None), plan_prompt("M", "svc"));
    let p = plan_request("M", "svc", "CODE", Some(("OLD", "use redis")));
    assert_eq!(
        p,
        format!(
            "{}{}{}{}{}{}{}",
            plan_prompt("M", "svc"),
            "\n\nThe service already has the following code. Plan how to refactor and update it instead of generating it from scratch:",
            "CODE",
            "\n\nThis was the previous plan:\n",
            "OLD",
            "\n\nRevise it according to the user's feedback:\n",
            "use redis"
        )
    );
    assert_eq!(execute_request("M", "svc", "PLAN", ""), execute_prompt("M", "svc", "PLAN"));
    assert!(execute_request("M", "svc", "PLAN", "CODE").ends_with("CODE"));
}

fn step(state: RunState, event: RunEventOf<String>) -> (RunState, RunAction) {
    run_step("manifest", "svc", "", true, state, event)
}

#[test]
fn run_without_manifest_is_ignored() {
    let (s, a) = run_step("", "svc", "", false, RunStateOf::Start, RunEventOf::Started);
    assert!(matches!(s, RunStateOf::Done));
    assert!(matches!(a, RunActionOf::Finish(RunOutcomeOf::NoManifest)));
}

#[test]
fn run_with_feedback_revision_and_validation() {
    let (s, a) = step(RunStateOf::Start, RunEventOf::Started);
    assert!(matches!(s, RunStateOf::Planning));
    match a {
        RunActionOf::RequestPlan(p) => assert_eq!(p, plan_prompt("manifest", "svc")),
        _ => panic!("expected a plan request"),
    }
    let (s, a) = step(s, RunEventOf::PlanReceived(Ok("P1".to_string())));
    assert!(matches!(&a, RunActionOf::AskApproval(p, PlanNoteOf::Fresh) if p == "P1"));
    let (s, a) = step(s, RunEventOf::Answered(" I \n".to_string()));
    assert!(matches!(a, RunActionOf::AskFeedback));
    let (s, a) = step(s, RunEventOf::Answered("   \n".to_string()));
    assert!(matches!(&a, RunActionOf::AskApproval(p, PlanNoteOf::NoFeedback) if p == "P1"));
    let (s, _) = step(s, RunEventOf::Answered("i".to_string()));
    let (s, a) = step(s, RunEventOf::Answered(" more tests \n".to_string()));
    match a {
        RunActionOf::RequestPlan(p) => {
            assert_eq!(p, plan_request("manifest", "svc", "", Some(("P1", "more tests"))))
        }
        _ => panic!("expected a revision request"),
    }
    let (s, a) = step(s, RunEventOf::PlanReceived(Err("timeout".to_string())));
    assert!(matches!(&a, RunActionOf::AskApproval(p, PlanNoteOf::RevisionFailed(e)) if p == "P1" && e == "timeout"));
    let (s, _) = step(s, RunEventOf::Answered("i".to_string()));
    let (s, _) = step(s, RunEventOf::Answered("again".to_string()));
    let (s, a) = step(s, RunEventOf::PlanReceived(Ok("P2".to_string())));
    assert!(matches!(&a, RunActionOf::AskApproval(p, PlanNoteOf::Fresh) if p == "P2"));
    let (s, a) = step(s, RunEventOf::Answered("\n".to_string()));
    match a {
        RunActionOf::GenerateFiles(p) => assert_eq!(p, execute_prompt("manifest", "svc", "P2")),
        _ => panic!("expected generation"),
    }
    let (s, a) = step(s, RunEventOf::FilesWritten(Ok(())));
    assert!(matches!(a, RunActionOf::Validate));
    let (s, a) = step(s, RunEventOf::ReportReceived(Ok("all good".to_string())));
    assert!(matches!(&a, RunActionOf::AskValidationApproval(r) if r == "all good"));
    let (s, a) = step(s, RunEventOf::Answered("N".to_string()));
    assert!(matches!(s, RunStateOf::Done));
    assert!(matches!(a, RunActionOf::Finish(RunOutcomeOf::ValidationRejected)));
    let (s, a) = step(s, RunEventOf::Started);
    assert!(matches!(s, RunStateOf::Done));
    assert!(matches!(a, RunActionOf::Nothing));
}

#[test]
fn run_outcomes_of_failures_and_skips() {
    let (_, a) = step(RunStateOf::Planning, RunEventOf::PlanReceived(Err("down".to_string())));
    assert!(matches!(&a, RunActionOf::Finish(RunOutcomeOf::PlanFailed(e)) if e == "down"));
    let (_, a) = step(RunStateOf::Reviewing("P".to_string()), RunEventOf::Answered("n".to_string()));
    assert!(matches!(a, RunActionOf::Finish(RunOutcomeOf::Skipped)));
    let (_, a) = step(RunStateOf::Generating("P".to_string()), RunEventOf::FilesWritten(Err("disk".to_string())));
    assert!(matches!(&a, RunActionOf::Finish(RunOutcomeOf::GenerationFailed(e)) if e == "disk"));
    let (_, a) = run_step("m", "s", "", false, RunStateOf::Generating("P".to_string()), RunEventOf::FilesWritten(Ok(())));
    assert!(matches!(a, RunActionOf::Finish(RunOutcomeOf::Generated)));
    let (_, a) = step(RunStateOf::Validating, RunEventOf::ReportReceived(Err("x".to_string())));
    assert!(matches!(&a, RunActionOf::Finish(RunOutcomeOf::ValidationFailed(e)) if e == "x"));
    let (_, a) = step(RunStateOf::ConfirmingValidation, RunEventOf::Answered("".to_string()));
    assert!(matches!(a, RunActionOf::Finish(RunOutcomeOf::Validated)));
    let (s, a) = step(RunStateOf::Validating, RunEventOf::Answered("y".to_string()));
    assert!(matches!(s, RunStateOf::Validating));
    assert!(matches!(a, RunActionOf::Nothing));
}

#[test]
fn ollama_answers_are_laid_out() {
    assert_eq!(
        ollama_answer_layout("```json\n[{\"path\": \"a\", \"content\": \"\"}]\n```"),
        Ok(("[{\"path\": \"a\", \"content\": \"\"}]".to_string(), FilesLocation::Whole))
    );
    assert_eq!(
        ollama_answer_layout(" {\"files\": []} "),
        Ok(("{\"files\": []}".to_string(), FilesLocation::FilesEntry))
    );
    assert_eq!(
        ollama_answer_layout("{\"other\": 1}"),
        Err("Unexpected JSON structure from Ollama".to_string())
    );
    match ollama_answer_layout("not json") {
        Err(e) => assert!(e.starts_with("Invalid JSON from Ollama: ") && e.len() > 26, "{}", e),
        Ok(_) => panic!("accepted"),
    }
    assert_eq!(
        ollama_layout_from("t".to_string(), Err("bad".to_string())),
        Err("Invalid JSON from Ollama: bad".to_string())
    );
    assert_eq!(ollama_layout_from("t".to_string(), Ok((false, true))), Ok(("t".to_string(), FilesLocation::FilesEntry)));
}
