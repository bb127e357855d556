//! The development web interface: request routing, reading and checking
//! its API requests, the replies to them, and the HTML page it serves.

use vstd::prelude::*;
use vstd::string::*;
use crate::ai::generator::{generate_plan, plan_prompt_text};
use crate::ai::orchestrator::VALIDATION_DIR;
use crate::ai::providers::{get_provider, provider_outcome, LlmProvider, Provider};
use crate::ai::run::text_result;
use crate::config::Config;
use crate::text::{concat2, has_prefix, owned, same_text, starts_with};

verus! {

pub const HTML_BEFORE_REPO: &'static str = r#"
<!DOCTYPE html>
<html lang="en">
<head>
    <meta charset="UTF-8">
    <meta name="viewport" content="width=device-width, initial-scale=1.0">
    <title>FastGen Dev UI</title>
    <script src="https://cdn.tailwindcss.com"></script>
    <!-- Marked.js for markdown rendering -->
    <script src="https://cdn.jsdelivr.net/npm/marked/marked.min.js"></script>
</head>
<body class="bg-gray-100 min-h-screen">
    <div class="max-w-6xl mx-auto p-6">
        <header class="mb-8">
            <h1 class="text-4xl font-bold text-gray-800 flex items-center gap-2">
                ⚡ FastGen Dev UI
            </h1>
            <p class="text-gray-500 mt-2">Workspace: <span class="font-mono text-gray-700 bg-gray-200 px-2 py-1 rounded">"#;

pub const HTML_BEFORE_SERVICES: &'static str = r#"</span></p>
        </header>

        <div class="mb-4 border-b border-gray-200">
            <ul class="flex flex-wrap -mb-px text-sm font-medium text-center" id="tabs">
                <li class="mr-2">
                    <button class="inline-block p-4 border-b-2 border-blue-600 rounded-t-lg text-blue-600" id="tab-compose" onclick="switchTab('compose')">Docker Compose</button>
                </li>
                <li class="mr-2">
                    <button class="inline-block p-4 border-b-2 border-transparent hover:text-gray-600 hover:border-gray-300 rounded-t-lg text-gray-500" id="tab-ai" onclick="switchTab('ai')">🤖 AI Generator</button>
                </li>
            </ul>
        </div>

        <div id="content-compose" class="tab-content block">
            <div class="bg-white p-6 rounded-lg shadow-sm border border-gray-200">
                <h2 class="text-2xl font-semibold mb-4">Compose Services</h2>
                <ul class="space-y-2">
                    "#;

pub const HTML_BEFORE_EMPTY_NOTE: &'static str = r#"
                </ul>
                "#;

pub const HTML_BEFORE_AI_FLAG: &'static str = r#"
            </div>
        </div>

        <div id="content-ai" class="tab-content hidden">
            <div class="bg-white p-6 rounded-lg shadow-sm border border-gray-200" id="ai-container">
                <h2 class="text-2xl font-semibold mb-4">AI Service Generator</h2>

                <div id="ai-disabled-msg" class="hidden text-red-500 bg-red-50 p-4 rounded-md border border-red-200">
                    AI Generator is not enabled. Start Dev UI with <code class="bg-white px-1 rounded text-red-700">--ai-path &lt;manifest-folder&gt;</code> to use this feature.
                </div>

                <div id="ai-app" class="hidden flex gap-6">
                    <!-- Sidebar: Services List -->
                    <div class="w-1/3 border-r border-gray-200 pr-6">
                        <h3 class="font-medium text-gray-700 mb-3">Manifests Found</h3>
                        <ul id="ai-services-list" class="space-y-2">
                            <li class="text-gray-400 italic text-sm">Loading...</li>
                        </ul>
                    </div>

                    <!-- Main Area: Planning & Execution -->
                    <div class="w-2/3">
                        <div id="ai-welcome" class="text-center py-12 text-gray-500">
                            Select a service from the left to start.
                        </div>

                        <div id="ai-service-panel" class="hidden">
                            <h3 id="panel-title" class="text-xl font-bold mb-4"></h3>

                            <button id="btn-generate-plan" class="bg-blue-600 hover:bg-blue-700 text-white font-bold py-2 px-4 rounded" onclick="generatePlan()">
                                Generate Architecture Plan
                            </button>

                            <div id="loading-spinner" class="hidden mt-4 text-gray-600 flex items-center gap-2">
                                <svg class="animate-spin h-5 w-5 text-blue-600" xmlns="http://www.w3.org/2000/svg" fill="none" viewBox="0 0 24 24">
                                    <circle class="opacity-25" cx="12" cy="12" r="10" stroke="currentColor" stroke-width="4"></circle>
                                    <path class="opacity-75" fill="currentColor" d="M4 12a8 8 0 018-8V0C5.373 0 0 5.373 0 12h4zm2 5.291A7.962 7.962 0 014 12H0c0 3.042 1.135 5.824 3 7.938l3-2.647z"></path>
                                </svg>
                                <span id="loading-text">Generating plan... this may take a minute.</span>
                            </div>

                            <div id="plan-container" class="hidden mt-6">
                                <h4 class="font-semibold text-lg border-b pb-2 mb-3">Proposed Plan</h4>
                                <div id="plan-content" class="prose max-w-none bg-gray-50 p-4 rounded border border-gray-200 overflow-auto max-h-96 text-sm"></div>

                                <div class="mt-4 flex gap-3">
                                    <button class="bg-green-600 hover:bg-green-700 text-white font-bold py-2 px-4 rounded" onclick="executePlan()">
                                        Approve & Execute
                                    </button>
                                </div>
                            </div>

                            <div id="execution-result" class="hidden mt-6">
                                <h4 class="font-semibold text-lg border-b pb-2 mb-3 text-green-700">Execution Successful!</h4>
                                <div id="validation-report" class="prose max-w-none bg-blue-50 p-4 rounded border border-blue-200 overflow-auto max-h-96 text-sm"></div>
                            </div>

                            <div id="error-container" class="hidden mt-6 text-red-600 bg-red-50 p-4 rounded border border-red-200"></div>
                        </div>
                    </div>
                </div>
            </div>
        </div>
    </div>

    <script>
        const IS_AI_DISABLED = "#;

pub const HTML_AFTER_AI_FLAG: &'static str = r#";
        let currentService = "";
        let currentPlan = "";
        let currentManifest = "";

        function switchTab(tabId) {
            document.querySelectorAll('.tab-content').forEach(el => el.classList.add('hidden'));
            document.getElementById('content-' + tabId).classList.remove('hidden');

            document.getElementById('tab-compose').className = "inline-block p-4 border-b-2 border-transparent hover:text-gray-600 hover:border-gray-300 rounded-t-lg text-gray-500";
            document.getElementById('tab-ai').className = "inline-block p-4 border-b-2 border-transparent hover:text-gray-600 hover:border-gray-300 rounded-t-lg text-gray-500";

            document.getElementById('tab-' + tabId).className = "inline-block p-4 border-b-2 border-blue-600 rounded-t-lg text-blue-600";
        }

        async function fetchServices() {
            try {
                const res = await fetch('/api/services');
                const data = await res.json();
                const list = document.getElementById('ai-services-list');

                if (data.services && data.services.length > 0) {
                    list.innerHTML = data.services.map(s =>
                        `<li><button class="w-full text-left p-2 rounded hover:bg-blue-50 text-gray-700 font-medium" onclick="selectService('${s}')">📦 ${s}</button></li>`
                    ).join('');
                } else {
                    list.innerHTML = '<li class="text-gray-500 text-sm">No services found in path.</li>';
                }
            } catch (e) {
                document.getElementById('ai-services-list').innerHTML = '<li class="text-red-500">Error loading services.</li>';
            }
        }

        function selectService(name) {
            currentService = name;
            currentPlan = "";
            currentManifest = "";

            document.getElementById('ai-welcome').classList.add('hidden');
            document.getElementById('ai-service-panel').classList.remove('hidden');
            document.getElementById('panel-title').textContent = `Service: ${name}`;

            document.getElementById('btn-generate-plan').classList.remove('hidden');
            document.getElementById('plan-container').classList.add('hidden');
            document.getElementById('execution-result').classList.add('hidden');
            document.getElementById('error-container').classList.add('hidden');
        }

        function showLoading(text) {
            document.getElementById('loading-spinner').classList.remove('hidden');
            document.getElementById('loading-text').textContent = text;
            document.getElementById('error-container').classList.add('hidden');
        }

        function hideLoading() {
            document.getElementById('loading-spinner').classList.add('hidden');
        }

        function showError(msg) {
            const err = document.getElementById('error-container');
            err.textContent = msg;
            err.classList.remove('hidden');
        }

        async function generatePlan() {
            document.getElementById('btn-generate-plan').classList.add('hidden');
            showLoading("Reading manifest and generating AI plan...");

            try {
                const res = await fetch('/api/plan', {
                    method: 'POST',
                    headers: {'Content-Type': 'application/json'},
                    body: JSON.stringify({service: currentService})
                });
                const data = await res.json();

                if (data.error) {
                    showError(data.error);
                    document.getElementById('btn-generate-plan').classList.remove('hidden');
                } else {
                    currentPlan = data.plan;
                    currentManifest = data.manifest;

                    document.getElementById('plan-content').innerHTML = marked.parse(currentPlan);
                    document.getElementById('plan-container').classList.remove('hidden');
                }
            } catch (e) {
                showError("Network error occurred.");
                document.getElementById('btn-generate-plan').classList.remove('hidden');
            } finally {
                hideLoading();
            }
        }

        async function executePlan() {
            document.getElementById('plan-container').classList.add('hidden');
            showLoading("Executing plan... writing files and running validation. This takes a while.");

            try {
                const res = await fetch('/api/execute', {
                    method: 'POST',
                    headers: {'Content-Type': 'application/json'},
                    body: JSON.stringify({
                        service: currentService,
                        plan: currentPlan,
                        manifest: currentManifest
                    })
                });
                const data = await res.json();

                if (data.error) {
                    showError(data.error);
                    document.getElementById('plan-container').classList.remove('hidden'); // allow retry
                } else {
                    document.getElementById('execution-result').classList.remove('hidden');
                    if (data.validation) {
                        document.getElementById('validation-report').innerHTML = "<strong>Validation Agent Report:</strong><br><br>" + marked.parse(data.validation);
                    } else {
                        document.getElementById('validation-report').innerHTML = "No validation rules found for this run.";
                    }
                }
            } catch (e) {
                showError("Network error occurred.");
                document.getElementById('plan-container').classList.remove('hidden');
            } finally {
                hideLoading();
            }
        }

        if (IS_AI_DISABLED) {
            document.getElementById('ai-disabled-msg').classList.remove('hidden');
        } else {
            document.getElementById('ai-app').classList.remove('hidden');
            fetchServices();
        }

    </script>
</body>
</html>
"#;


pub const COMPOSE_ITEM_START: &'static str = r#"<li class="p-3 bg-gray-50 border border-gray-200 rounded-md">"#;

pub const COMPOSE_ITEM_END: &'static str = "</li>";

pub const NO_COMPOSE_SERVICES_NOTE: &'static str = "<p class='text-gray-500 italic mt-2'>No services found in docker-compose.yml</p>";

pub const API_PREFIX: &'static str = "/api/";

pub const NOT_FOUND: &'static str = "Not Found";

pub const FAILED_TO_READ_BODY: &'static str = "Failed to read body";

pub const INVALID_JSON: &'static str = "Invalid JSON";

pub const SERVICE_NAME_REQUIRED: &'static str = "Service name required";

pub const EXECUTE_FIELDS_REQUIRED: &'static str = "Service, plan, and manifest required";

pub const AI_PATH_NOT_CONFIGURED: &'static str = "AI Path not configured";

pub const NO_MANIFEST_FOUND: &'static str = "No manifest found";

pub const PLAN_FAILED_PREFIX: &'static str = "Plan generation failed: ";

pub const EXECUTION_FAILED_PREFIX: &'static str = "Execution failed: ";

pub const VALIDATION_FAILED_PREFIX: &'static str = "Validation failed to run: ";

/// The request methods the interface tells apart.
#[derive(Debug, Clone, Copy, PartialEq, Eq, Structural)]
pub enum HttpMethod {
    Get,
    Post,
    Other,
}

/// What answers a request.
#[derive(Debug, Clone, Copy, PartialEq, Eq, Structural)]
pub enum Route {
    /// GET /api/services: the service directories with manifests.
    ListServices,
    /// POST /api/plan: plan one service.
    Plan,
    /// POST /api/execute: generate and validate one service.
    Execute,
    /// Any other path under /api/: a "Not Found" error.
    ApiNotFound,
    /// Everything else: the HTML page.
    Page,
}

/// The route for a request.
pub open spec fn route_of(method: HttpMethod, url: Seq<char>) -> Route {
    if !has_prefix(url, API_PREFIX@) {
        Route::Page
    } else if method == HttpMethod::Get && url == "/api/services"@ {
        Route::ListServices
    } else if method == HttpMethod::Post && url == "/api/plan"@ {
        Route::Plan
    } else if method == HttpMethod::Post && url == "/api/execute"@ {
        Route::Execute
    } else {
        Route::ApiNotFound
    }
}

/// Routes a request by its method and URL.
pub fn route(method: HttpMethod, url: &str) -> (r: Route)
    ensures
        r == route_of(method, url@),
{
    if !starts_with(url, API_PREFIX) {
        Route::Page
    } else if method == HttpMethod::Get && same_text(url, "/api/services") {
        Route::ListServices
    } else if method == HttpMethod::Post && same_text(url, "/api/plan") {
        Route::Plan
    } else if method == HttpMethod::Post && same_text(url, "/api/execute") {
        Route::Execute
    } else {
        Route::ApiNotFound
    }
}

/// The directory names listed as services: all but the validation
/// directory, in their order.
pub open spec fn listed_names(names: Seq<Seq<char>>) -> Seq<Seq<char>>
    decreases names.len(),
{
    if names.len() == 0 {
        names
    } else if names[0] == VALIDATION_DIR@ {
        listed_names(names.skip(1))
    } else {
        seq![names[0]] + listed_names(names.skip(1))
    }
}

/// The views of a list of texts.
pub open spec fn views(v: Seq<String>) -> Seq<Seq<char>> {
    v.map_values(|s: String| s@)
}

/// The service directories to list, leaving out the validation directory.
pub fn listed_services(dir_names: &Vec<String>) -> (r: Vec<String>)
    ensures
        views(r@) == listed_names(views(dir_names@)),
{
    let mut r: Vec<String> = Vec::new();
    let n = dir_names.len();
    let mut i: usize = 0;
    assert(views(dir_names@).skip(0) == views(dir_names@));
    while i < n
        invariant
            n == dir_names.len(),
            i <= n,
            views(r@) + listed_names(views(dir_names@).skip(i as int)) == listed_names(
                views(dir_names@),
            ),
        decreases n - i,
    {
        let rest = Ghost(views(dir_names@).skip(i as int));
        assert(rest@.skip(1) == views(dir_names@).skip(i + 1));
        assert(rest@[0] == dir_names@[i as int]@);
        if !same_text(dir_names[i].as_str(), VALIDATION_DIR) {
            let ghost before = r@;
            r.push(dir_names[i].clone());
            assert(views(r@) == views(before).push(dir_names@[i as int]@));
        }
        assert(views(r@) + listed_names(views(dir_names@).skip(i + 1)) == listed_names(
            views(dir_names@),
        ));
        i += 1;
    }
    assert(views(r@) + listed_names(views(dir_names@).skip(n as int)) == views(r@));
    r
}

/// A plan request names a service.
pub fn check_plan_request(service_name: &str) -> (r: Result<(), String>)
    ensures
        service_name@.len() == 0 ==> (r matches Err(e) && e@ == SERVICE_NAME_REQUIRED@),
        service_name@.len() > 0 ==> r is Ok,
{
    if service_name.unicode_len() == 0 {
        Err(owned(SERVICE_NAME_REQUIRED))
    } else {
        Ok(())
    }
}

/// An execute request names a service and carries its plan and manifest.
pub fn check_execute_request(service_name: &str, plan: &str, manifest: &str) -> (r: Result<
    (),
    String,
>)
    ensures
        r is Ok <==> (service_name@.len() > 0 && plan@.len() > 0 && manifest@.len() > 0),
        r matches Err(e) ==> e@ == EXECUTE_FIELDS_REQUIRED@,
{
    if service_name.unicode_len() == 0 || plan.unicode_len() == 0 || manifest.unicode_len() == 0 {
        Err(owned(EXECUTE_FIELDS_REQUIRED))
    } else {
        Ok(())
    }
}

/// The error reported when planning fails.
pub fn plan_failed_message(e: &str) -> (m: String)
    ensures
        m@ == PLAN_FAILED_PREFIX@ + e@,
{
    concat2(PLAN_FAILED_PREFIX, e)
}

/// The error reported when generating the files fails.
pub fn execution_failed_message(e: &str) -> (m: String)
    ensures
        m@ == EXECUTION_FAILED_PREFIX@ + e@,
{
    concat2(EXECUTION_FAILED_PREFIX, e)
}

/// The report given when the validation agent cannot run.
pub fn validation_failed_message(e: &str) -> (m: String)
    ensures
        m@ == VALIDATION_FAILED_PREFIX@ + e@,
{
    concat2(VALIDATION_FAILED_PREFIX, e)
}

/// The listing never shows the validation directory, shows only names it
/// was given, and shows every other name it was given.
pub proof fn law_listing_leaves_out_validation(names: Seq<Seq<char>>)
    ensures
        !listed_names(names).contains(VALIDATION_DIR@),
        forall|i: int| 0 <= i < listed_names(names).len() ==> names.contains(
            #[trigger] listed_names(names)[i],
        ),
        forall|n: Seq<char>| #[trigger] names.contains(n) && n != VALIDATION_DIR@ ==> listed_names(
            names,
        ).contains(n),
    decreases names.len(),
{
    if names.len() > 0 {
        let rest = names.skip(1);
        law_listing_leaves_out_validation(rest);
        let l = listed_names(names);
        let lr = listed_names(rest);
        assert forall|i: int| 0 <= i < lr.len() implies names.contains(#[trigger] lr[i]) by {
            let j = choose|j: int| 0 <= j < rest.len() && rest[j] == lr[i];
            assert(names[j + 1] == lr[i]);
        }
        assert forall|n: Seq<char>| #[trigger] names.contains(n) && n != VALIDATION_DIR@ implies l.contains(n) by {
            let j = choose|j: int| 0 <= j < names.len() && names[j] == n;
            if j > 0 {
                assert(rest[j - 1] == n);
                assert(rest.contains(n));
                let k = choose|k: int| 0 <= k < lr.len() && lr[k] == n;
                if names[0] != VALIDATION_DIR@ {
                    assert(l[k + 1] == n);
                } else {
                    assert(l[k] == n);
                }
            } else {
                assert(l[0] == n);
            }
        }
        if names[0] != VALIDATION_DIR@ {
            assert forall|i: int| 0 <= i < l.len() implies names.contains(#[trigger] l[i]) by {
                if i == 0 {
                    assert(names[0] == l[0]);
                } else {
                    assert(l[i] == lr[i - 1]);
                }
            }
            assert(!l.contains(VALIDATION_DIR@)) by {
                if l.contains(VALIDATION_DIR@) {
                    let k = choose|k: int| 0 <= k < l.len() && l[k] == VALIDATION_DIR@;
                    if k > 0 {
                        assert(lr[k - 1] == VALIDATION_DIR@);
                    }
                }
            }
        }
    }
}

/// The list items of the compose services, in order.
pub open spec fn compose_items(names: Seq<Seq<char>>) -> Seq<char>
    decreases names.len(),
{
    if names.len() == 0 {
        Seq::empty()
    } else {
        compose_items(names.drop_last()) + COMPOSE_ITEM_START@ + names.last() + COMPOSE_ITEM_END@
    }
}

/// The whole page: the workspace path, its compose services (or a note
/// that there are none), and whether the AI tab is disabled.
pub open spec fn page_text(repo: Seq<char>, names: Seq<Seq<char>>, ai_enabled: bool) -> Seq<char> {
    HTML_BEFORE_REPO@ + repo + HTML_BEFORE_SERVICES@ + compose_items(names)
        + HTML_BEFORE_EMPTY_NOTE@ + (if names.len() == 0 {
        NO_COMPOSE_SERVICES_NOTE@
    } else {
        Seq::empty()
    }) + HTML_BEFORE_AI_FLAG@ + (if ai_enabled {
        "false"@
    } else {
        "true"@
    }) + HTML_AFTER_AI_FLAG@
}

/// The HTML page of the interface for a workspace whose compose file
/// declares `compose_services`; the AI tab is enabled when a manifests
/// path was given.
pub fn generate_html(repo: &str, compose_services: &Vec<String>, ai_enabled: bool) -> (h: String)
    ensures
        h@ == page_text(repo@, views(compose_services@), ai_enabled),
{
    let mut h = String::from_str(HTML_BEFORE_REPO);
    h.append(repo);
    h.append(HTML_BEFORE_SERVICES);
    let n = compose_services.len();
    let mut i: usize = 0;
    let ghost base = h@;
    assert(views(compose_services@).take(0) == Seq::<Seq<char>>::empty());
    while i < n
        invariant
            n == compose_services.len(),
            i <= n,
            h@ == base + compose_items(views(compose_services@).take(i as int)),
        decreases n - i,
    {
        h.append(COMPOSE_ITEM_START);
        h.append(compose_services[i].as_str());
        h.append(COMPOSE_ITEM_END);
        let ghost t = views(compose_services@).take(i + 1);
        assert(t.drop_last() == views(compose_services@).take(i as int));
        assert(t.last() == compose_services@[i as int]@);
        i += 1;
    }
    assert(views(compose_services@).take(n as int) == views(compose_services@));
    h.append(HTML_BEFORE_EMPTY_NOTE);
    if n == 0 {
        h.append(NO_COMPOSE_SERVICES_NOTE);
    }
    h.append(HTML_BEFORE_AI_FLAG);
    if ai_enabled {
        h.append("false");
    } else {
        h.append("true");
    }
    h.append(HTML_AFTER_AI_FLAG);
    h
}

// ---------------------------------------------------------------------------
// Request bodies
// ---------------------------------------------------------------------------

/// The text field `key` of the JSON document `text`, as serde_json reads
/// it: none when `text` is not JSON; `Some(None)` when the document has no
/// such field, or the field is not a string (or the document is not an
/// object).
pub uninterp spec fn json_string_field(text: Seq<char>, key: Seq<char>) -> Option<Option<Seq<char>>>;

/// A read field with its text taken as a character sequence.
pub open spec fn field_view(f: Option<Option<String>>) -> Option<Option<Seq<char>>> {
    match f {
        None => None,
        Some(None) => Some(None),
        Some(Some(s)) => Some(Some(s@)),
    }
}

/// Calls `serde_json::from_str::<serde_json::Value>(text)`; on success
/// indexes the value with `key` (which gives `Null` for a missing field or
/// a non-object) and calls `as_str` on the result. Claimed: the outcome is
/// `json_string_field(text, key)`, a function of the two texts alone.
#[verifier::external_body]
fn parse_json_string_field(text: &str, key: &str) -> (r: Option<Option<String>>)
    ensures
        field_view(r) == json_string_field(text@, key@),
{
    match serde_json::from_str::<serde_json::Value>(text) {
        Ok(v) => Some(v[key].as_str().map(String::from)),
        Err(_) => None,
    }
}

/// The text of a field; empty when it is missing or not text.
pub open spec fn field_text(f: Option<Seq<char>>) -> Seq<char> {
    match f {
        Some(t) => t,
        None => Seq::empty(),
    }
}

fn take_field(f: Option<String>) -> (t: String)
    ensures
        t@ == field_text(
            match f {
                Some(s) => Some(s@),
                None => None,
            },
        ),
{
    match f {
        Some(s) => s,
        None => String::new(),
    }
}

/// The service a plan request names, read from its `service` field: a
/// body that is not JSON is refused with "Invalid JSON", a missing or
/// empty name with "Service name required".
pub open spec fn plan_service_outcome(service: Option<Option<Seq<char>>>) -> Result<
    Seq<char>,
    Seq<char>,
> {
    match service {
        None => Err(INVALID_JSON@),
        Some(f) => if field_text(f).len() == 0 {
            Err(SERVICE_NAME_REQUIRED@)
        } else {
            Ok(field_text(f))
        },
    }
}

/// The service a plan request names, from its read `service` field.
pub fn plan_service_from(service: Option<Option<String>>) -> (r: Result<String, String>)
    ensures
        text_result(r) == plan_service_outcome(field_view(service)),
{
    match service {
        None => Err(owned(INVALID_JSON)),
        Some(f) => {
            let name = take_field(f);
            check_plan_request(name.as_str())?;
            Ok(name)
        },
    }
}

/// The service the body of a plan request names.
pub fn plan_body_service(body: &str) -> (r: Result<String, String>)
    ensures
        text_result(r) == plan_service_outcome(json_string_field(body@, "service"@)),
{
    plan_service_from(parse_json_string_field(body, "service"))
}

/// The service, plan and manifest of an execute request, read from its
/// fields: a body that is not JSON is refused with "Invalid JSON", one
/// where any of them is missing or empty with "Service, plan, and manifest
/// required".
pub open spec fn execute_fields_outcome(
    service: Option<Option<Seq<char>>>,
    plan: Option<Option<Seq<char>>>,
    manifest: Option<Option<Seq<char>>>,
) -> Result<(Seq<char>, Seq<char>, Seq<char>), Seq<char>> {
    if service is None || plan is None || manifest is None {
        Err(INVALID_JSON@)
    } else {
        let s = field_text(service->0);
        let p = field_text(plan->0);
        let m = field_text(manifest->0);
        if s.len() == 0 || p.len() == 0 || m.len() == 0 {
            Err(EXECUTE_FIELDS_REQUIRED@)
        } else {
            Ok((s, p, m))
        }
    }
}

/// Three texts, or an error, taken as character sequences.
pub open spec fn triple_text(r: Result<(String, String, String), String>) -> Result<
    (Seq<char>, Seq<char>, Seq<char>),
    Seq<char>,
> {
    match r {
        Ok((a, b, c)) => Ok((a@, b@, c@)),
        Err(e) => Err(e@),
    }
}

/// The service, plan and manifest of an execute request, from its read
/// fields.
pub fn execute_fields_from(
    service: Option<Option<String>>,
    plan: Option<Option<String>>,
    manifest: Option<Option<String>>,
) -> (r: Result<(String, String, String), String>)
    ensures
        triple_text(r) == execute_fields_outcome(
            field_view(service),
            field_view(plan),
            field_view(manifest),
        ),
{
    match (service, plan, manifest) {
        (Some(s), Some(p), Some(m)) => {
            let s = take_field(s);
            let p = take_field(p);
            let m = take_field(m);
            check_execute_request(s.as_str(), p.as_str(), m.as_str())?;
            Ok((s, p, m))
        },
        _ => Err(owned(INVALID_JSON)),
    }
}

/// The service, plan and manifest the body of an execute request carries.
pub fn execute_body_fields(body: &str) -> (r: Result<(String, String, String), String>)
    ensures
        triple_text(r) == execute_fields_outcome(
            json_string_field(body@, "service"@),
            json_string_field(body@, "plan"@),
            json_string_field(body@, "manifest"@),
        ),
{
    let service = parse_json_string_field(body, "service");
    let plan = parse_json_string_field(body, "plan");
    let manifest = parse_json_string_field(body, "manifest");
    execute_fields_from(service, plan, manifest)
}

// ---------------------------------------------------------------------------
// Handling the requests
// ---------------------------------------------------------------------------

/// The inputs of a plan request, given the service its body names, the
/// outcome of selecting a provider and whether a manifests path is
/// configured, checked in this order: the body's error; then the
/// provider's error; then "AI Path not configured"; otherwise the service
/// and the provider.
pub open spec fn plan_inputs_of(
    service: Result<Seq<char>, Seq<char>>,
    provider: Result<Provider, String>,
    ai_path_set: bool,
) -> Result<(Seq<char>, Provider), Seq<char>> {
    match service {
        Err(e) => Err(e),
        Ok(s) => match provider {
            Err(e) => Err(e@),
            Ok(p) => if ai_path_set {
                Ok((s, p))
            } else {
                Err(AI_PATH_NOT_CONFIGURED@)
            },
        },
    }
}

/// Plan inputs, or an error, with their texts as character sequences.
pub open spec fn plan_inputs_view(r: Result<(String, Provider), String>) -> Result<
    (Seq<char>, Provider),
    Seq<char>,
> {
    match r {
        Ok((s, p)) => Ok((s@, p)),
        Err(e) => Err(e@),
    }
}

/// The inputs of a plan request, from the service its body names, the
/// outcome of selecting a provider and whether a manifests path is set.
pub fn plan_inputs_from(
    service: Result<String, String>,
    provider: Result<Provider, String>,
    ai_path_set: bool,
) -> (r: Result<(String, Provider), String>)
    ensures
        plan_inputs_view(r) == plan_inputs_of(text_result(service), provider, ai_path_set),
{
    let service = service?;
    let provider = provider?;
    if ai_path_set {
        Ok((service, provider))
    } else {
        Err(owned(AI_PATH_NOT_CONFIGURED))
    }
}

/// Reads a plan request: the service it names and the provider to ask.
/// A body error comes first, and then no provider is selected; otherwise
/// the result is `plan_inputs_of` for the outcome of selecting the
/// provider, whatever that outcome (it depends on building an HTTP
/// client).
pub fn plan_call_inputs(body: &str, config: &Config, ai_path: Option<&str>) -> (r: Result<
    (String, Provider),
    String,
>)
    ensures
        plan_service_outcome(json_string_field(body@, "service"@)) matches Err(e) ==> (r matches Err(
            x,
        ) && x@ == e),
        plan_service_outcome(json_string_field(body@, "service"@)) is Ok ==> exists|
            p: Result<Provider, String>,
        |
            #[trigger] provider_outcome(*config, p) && plan_inputs_view(r) == plan_inputs_of(
                plan_service_outcome(json_string_field(body@, "service"@)),
                p,
                ai_path is Some,
            ),
{
    match plan_body_service(body) {
        Err(e) => Err(e),
        Ok(service) => {
            let provider = get_provider(config);
            let ghost p = provider;
            let r = plan_inputs_from(Ok(service), provider, ai_path.is_some());
            assert(provider_outcome(*config, p));
            r
        },
    }
}

/// The inputs of an execute request, given the service, plan and manifest
/// its body carries, the outcome of selecting a provider and whether a
/// manifests path is configured, checked in the same order as a plan
/// request.
pub open spec fn execute_inputs_of(
    fields: Result<(Seq<char>, Seq<char>, Seq<char>), Seq<char>>,
    provider: Result<Provider, String>,
    ai_path_set: bool,
) -> Result<(Seq<char>, Seq<char>, Seq<char>, Provider), Seq<char>> {
    match fields {
        Err(e) => Err(e),
        Ok((s, pl, m)) => match provider {
            Err(e) => Err(e@),
            Ok(p) => if ai_path_set {
                Ok((s, pl, m, p))
            } else {
                Err(AI_PATH_NOT_CONFIGURED@)
            },
        },
    }
}

/// Execute inputs, or an error, with their texts as character sequences.
pub open spec fn execute_inputs_view(r: Result<(String, String, String, Provider), String>) -> Result<
    (Seq<char>, Seq<char>, Seq<char>, Provider),
    Seq<char>,
> {
    match r {
        Ok((s, pl, m, p)) => Ok((s@, pl@, m@, p)),
        Err(e) => Err(e@),
    }
}

/// The inputs of an execute request, from the fields its body carries, the
/// outcome of selecting a provider and whether a manifests path is set.
pub fn execute_inputs_from(
    fields: Result<(String, String, String), String>,
    provider: Result<Provider, String>,
    ai_path_set: bool,
) -> (r: Result<(String, String, String, Provider), String>)
    ensures
        execute_inputs_view(r) == execute_inputs_of(triple_text(fields), provider, ai_path_set),
{
    let (service, plan, manifest) = fields?;
    let provider = provider?;
    if ai_path_set {
        Ok((service, plan, manifest, provider))
    } else {
        Err(owned(AI_PATH_NOT_CONFIGURED))
    }
}

/// The service, plan and manifest that the body of an execute request
/// carries, as read from its JSON fields.
pub open spec fn execute_body_outcome(body: Seq<char>) -> Result<
    (Seq<char>, Seq<char>, Seq<char>),
    Seq<char>,
> {
    execute_fields_outcome(
        json_string_field(body, "service"@),
        json_string_field(body, "plan"@),
        json_string_field(body, "manifest"@),
    )
}

/// Reads an execute request: its service, plan and manifest and the
/// provider to ask. A body error comes first, and then no provider is
/// selected; otherwise the result is `execute_inputs_of` for the outcome
/// of selecting the provider, whatever that outcome.
pub fn execute_call_inputs(body: &str, config: &Config, ai_path: Option<&str>) -> (r: Result<
    (String, String, String, Provider),
    String,
>)
    ensures
        execute_body_outcome(body@) matches Err(e) ==> (r matches Err(x) && x@ == e),
        execute_body_outcome(body@) is Ok ==> exists|p: Result<Provider, String>|
            #[trigger] provider_outcome(*config, p) && execute_inputs_view(r) == execute_inputs_of(
                execute_body_outcome(body@),
                p,
                ai_path is Some,
            ),
{
    match execute_body_fields(body) {
        Err(e) => Err(e),
        Ok(fields) => {
            let provider = get_provider(config);
            let ghost p = provider;
            let r = execute_inputs_from(Ok(fields), provider, ai_path.is_some());
            assert(provider_outcome(*config, p));
            r
        },
    }
}

/// Two texts, or an error, taken as character sequences.
pub open spec fn pair_text(r: Result<(String, String), String>) -> Result<
    (Seq<char>, Seq<char>),
    Seq<char>,
> {
    match r {
        Ok((a, b)) => Ok((a@, b@)),
        Err(e) => Err(e@),
    }
}

/// The reply to a plan request given the model's answer: the plan with
/// the manifest it was made from, or "Plan generation failed: <error>".
pub open spec fn plan_reply_of(answer: Result<Seq<char>, Seq<char>>, manifest: Seq<char>) -> Result<
    (Seq<char>, Seq<char>),
    Seq<char>,
> {
    match answer {
        Ok(plan) => Ok((plan, manifest)),
        Err(e) => Err(PLAN_FAILED_PREFIX@ + e),
    }
}

/// The reply to a plan request given the model's answer.
pub fn plan_reply_from(answer: Result<String, String>, manifest: &str) -> (r: Result<
    (String, String),
    String,
>)
    ensures
        pair_text(r) == plan_reply_of(text_result(answer), manifest@),
{
    match answer {
        Ok(plan) => Ok((plan, owned(manifest))),
        Err(e) => Err(plan_failed_message(e.as_str())),
    }
}

/// Answers a plan request for `service` whose manifest is `manifest`
/// (empty when none was found): "No manifest found", or the reply to the
/// model's answer to the plan prompt.
pub fn plan_reply<P: LlmProvider + ?Sized>(provider: &P, service: &str, manifest: &str) -> (r: Result<
    (String, String),
    String,
>)
    ensures
        manifest@.len() == 0 ==> (r matches Err(e) && e@ == NO_MANIFEST_FOUND@),
        manifest@.len() > 0 ==> exists|a: Result<String, String>|
            #[trigger] provider.answers(plan_prompt_text(manifest@, service@), a) && pair_text(r)
                == plan_reply_of(text_result(a), manifest@),
{
    if manifest.unicode_len() == 0 {
        return Err(owned(NO_MANIFEST_FOUND));
    }
    let answer = generate_plan(provider, manifest, service);
    let ghost a = answer;
    let r = plan_reply_from(answer, manifest);
    assert(provider.answers(plan_prompt_text(manifest@, service@), a));
    r
}

/// An outcome with no value, or an error, with the error as a character
/// sequence.
pub open spec fn unit_text(r: Result<(), String>) -> Result<(), Seq<char>> {
    match r {
        Ok(_) => Ok(()),
        Err(e) => Err(e@),
    }
}

/// An optional answer with its texts as character sequences.
pub open spec fn optional_text(r: Option<Result<String, String>>) -> Option<
    Result<Seq<char>, Seq<char>>,
> {
    match r {
        None => None,
        Some(a) => Some(text_result(a)),
    }
}

/// The reply to an execute request: "Execution failed: <error>" when the
/// files could not be generated; otherwise success with the validation
/// report: empty when there are no rules, the agent's report, or
/// "Validation failed to run: <error>".
pub open spec fn execute_reply_of(
    written: Result<(), Seq<char>>,
    validation: Option<Result<Seq<char>, Seq<char>>>,
) -> Result<Seq<char>, Seq<char>> {
    match written {
        Err(e) => Err(EXECUTION_FAILED_PREFIX@ + e),
        Ok(_) => Ok(
            match validation {
                None => Seq::empty(),
                Some(Ok(report)) => report,
                Some(Err(e)) => VALIDATION_FAILED_PREFIX@ + e,
            },
        ),
    }
}

/// The reply to an execute request, from whether the files were written
/// and what the validation agent answered (none when there are no rules).
pub fn execute_reply(written: Result<(), String>, validation: Option<Result<String, String>>) -> (r:
    Result<String, String>)
    ensures
        text_result(r) == execute_reply_of(unit_text(written), optional_text(validation)),
{
    match written {
        Err(e) => Err(execution_failed_message(e.as_str())),
        Ok(_) => Ok(
            match validation {
                None => String::new(),
                Some(Ok(report)) => report,
                Some(Err(e)) => validation_failed_message(e.as_str()),
            },
        ),
    }
}

// ---------------------------------------------------------------------------
// The services of the compose file
// ---------------------------------------------------------------------------

/// The keys of the `services` mapping of the YAML document `text`, in
/// order, as serde_yaml reads them, each with its text when it is a
/// string: none when `text` is not YAML or has no `services` mapping.
pub uninterp spec fn yaml_service_keys(text: Seq<char>) -> Option<Seq<Option<Seq<char>>>>;

/// Read keys with their texts as character sequences.
pub open spec fn key_list_view(keys: Option<Vec<Option<String>>>) -> Option<Seq<Option<Seq<char>>>> {
    match keys {
        None => None,
        Some(ks) => Some(
            ks@.map_values(
                |k: Option<String>|
                    match k {
                        Some(s) => Some(s@),
                        None => None,
                    },
            ),
        ),
    }
}

/// Calls `serde_yaml::from_str::<serde_yaml::Value>(text)`, then `get`
/// with "services" and `as_mapping`, and gives each key of the mapping in
/// order through `as_str`. Claimed: the outcome is
/// `yaml_service_keys(text)`, a function of the text alone.
#[verifier::external_body]
fn parse_compose_service_keys(text: &str) -> (r: Option<Vec<Option<String>>>)
    ensures
        key_list_view(r) == yaml_service_keys(text@),
{
    let doc: serde_yaml::Value = serde_yaml::from_str(text).ok()?;
    let services = doc.get("services")?.as_mapping()?;
    let mut keys = Vec::new();
    for k in services.keys() {
        keys.push(k.as_str().map(String::from));
    }
    Some(keys)
}

/// The keys that are text, in order.
pub open spec fn text_keys(keys: Seq<Option<Seq<char>>>) -> Seq<Seq<char>>
    decreases keys.len(),
{
    if keys.len() == 0 {
        Seq::empty()
    } else {
        match keys.last() {
            Some(k) => text_keys(keys.drop_last()).push(k),
            None => text_keys(keys.drop_last()),
        }
    }
}

/// The service names of a compose file's read keys: none when it could
/// not be read.
pub open spec fn compose_names(keys: Option<Seq<Option<Seq<char>>>>) -> Seq<Seq<char>> {
    match keys {
        None => Seq::empty(),
        Some(ks) => text_keys(ks),
    }
}

/// The service names of a compose file, from its read keys.
pub fn compose_names_from(keys: Option<Vec<Option<String>>>) -> (r: Vec<String>)
    ensures
        views(r@) == compose_names(key_list_view(keys)),
{
    let mut r: Vec<String> = Vec::new();
    match keys {
        None => r,
        Some(ks) => {
            let ghost kv = key_list_view(Some(ks))->0;
            let n = ks.len();
            let mut i: usize = 0;
            assert(kv.take(0) =~= Seq::<Option<Seq<char>>>::empty());
            while i < n
                invariant
                    n == ks.len(),
                    i <= n,
                    kv == key_list_view(Some(ks))->0,
                    kv.len() == n,
                    views(r@) == text_keys(kv.take(i as int)),
                decreases n - i,
            {
                let ghost t = kv.take(i + 1);
                assert(t.drop_last() =~= kv.take(i as int));
                assert(t.last() == kv[i as int]);
                match &ks[i] {
                    Some(k) => {
                        let ghost before = r@;
                        r.push(k.clone());
                        assert(views(r@) =~= views(before).push(k@));
                    },
                    None => {},
                }
                i += 1;
            }
            assert(kv.take(n as int) =~= kv);
            r
        },
    }
}

/// The service names declared under `services:` in a compose file's text
/// (none when it is not YAML or has no `services` mapping).
pub fn compose_service_names(text: &str) -> (r: Vec<String>)
    ensures
        views(r@) == compose_names(yaml_service_keys(text@)),
{
    compose_names_from(parse_compose_service_keys(text))
}

/// The services shown on the page: those of the compose file's text, none
/// when there is no compose file.
pub open spec fn page_services(compose: Option<Seq<char>>) -> Seq<Seq<char>> {
    match compose {
        None => Seq::empty(),
        Some(t) => compose_names(yaml_service_keys(t)),
    }
}

/// The page of the interface for the workspace `repo`, whose compose file
/// holds `compose` (none when it cannot be read); the AI tab is enabled
/// when a manifests path was given.
pub fn dev_ui_page(repo: &str, compose: Option<&str>, ai_enabled: bool) -> (h: String)
    ensures
        h@ == page_text(
            repo@,
            page_services(
                match compose {
                    None => None,
                    Some(t) => Some(t@),
                },
            ),
            ai_enabled,
        ),
{
    let names = match compose {
        None => Vec::new(),
        Some(t) => compose_service_names(t),
    };
    proof {
        if compose is None {
            assert(views(names@) =~= Seq::<Seq<char>>::empty());
        }
    }
    generate_html(repo, &names, ai_enabled)
}

/// Every key of the compose file's `services` mapping that is text is
/// listed, in order, and nothing else: the names are the keys that are
/// text, as `filter_map` keeps them.
pub proof fn law_compose_names_are_text_keys(ks: Seq<Option<Seq<char>>>)
    ensures
        compose_names(Some(ks)) == ks.filter_map(|k: Option<Seq<char>>| k),
        forall|i: int|
            0 <= i < ks.len() && #[trigger] ks[i] is Some ==> compose_names(Some(ks)).contains(
                ks[i]->0,
            ),
        compose_names(Some(ks)).len() == ks.filter(|k: Option<Seq<char>>| k is Some).len(),
    decreases ks.len(),
{
    reveal(Seq::filter);
    if ks.len() > 0 {
        let rest = ks.drop_last();
        law_compose_names_are_text_keys(rest);
        let names = compose_names(Some(ks));
        let rest_names = compose_names(Some(rest));
        match ks.last() {
            Some(k) => {
                assert(rest_names.push(k) =~= rest_names + seq![k]);
            },
            None => {},
        }
        assert forall|i: int| 0 <= i < ks.len() && #[trigger] ks[i] is Some implies names.contains(
            ks[i]->0,
        ) by {
            if i < ks.len() - 1 {
                assert(rest[i] == ks[i]);
                let j = choose|j: int| 0 <= j < rest_names.len() && rest_names[j] == rest[i]->0;
                assert(names[j] == rest_names[j]);
            } else {
                assert(names[names.len() - 1] == ks[i]->0);
            }
        }
    }
}

} // verus!
