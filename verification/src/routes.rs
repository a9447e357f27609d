//! The routes of the service API and how a request is dispatched: the
//! pre-flight answer, the update gate, the table of handlers, and the
//! answers for unknown paths and methods.

use vstd::prelude::*;
use crate::json::{error_body_json, json_quoted};
use crate::response::{
    error_response, is_error_response, json_text_response, method_not_allowed_response, ApiResponse,
    JSON_CONTENT_TYPE, TEXT_CONTENT_TYPE,
};
use crate::target::{normalize_path, normalized_path};
use crate::text::{owned, text_eq};

verus! {

/// The path of the health check.
pub const HEALTH_PATH: &'static str = "/health";

/// A route of the service API and the methods it takes.
#[derive(Debug, Clone, Copy, PartialEq, Eq)]
pub struct ServiceApiRouteSpec {
    pub path: &'static str,
    pub methods: &'static [&'static str],
}

pub fn service_route(path: &'static str, methods: &'static [&'static str]) -> (r: ServiceApiRouteSpec)
    ensures
        r.path == path,
        r.methods == methods,
{
    ServiceApiRouteSpec { path, methods }
}

/// A route as its path and its methods.
pub open spec fn route_view(r: ServiceApiRouteSpec) -> (Seq<char>, Seq<Seq<char>>) {
    (r.path@, r.methods@.map_values(|m: &str| m@))
}

/// The routes of the service API, in order.
pub open spec fn route_table() -> Seq<(Seq<char>, Seq<Seq<char>>)> {
    seq![
        ("/health"@, seq!["GET"@]),
        ("/config"@, seq!["GET"@]),
        ("/config/default-export-dir"@, seq!["POST"@]),
        ("/config/browser-proxy"@, seq!["POST"@]),
        ("/dashboard"@, seq!["GET"@]),
        ("/accounts"@, seq!["GET"@]),
        ("/accounts/import"@, seq!["POST"@]),
        ("/accounts/import/cookie"@, seq!["POST"@]),
        ("/accounts/export"@, seq!["POST"@]),
        ("/accounts/export/json"@, seq!["POST"@]),
        ("/accounts/credentials"@, seq!["POST"@]),
        ("/accounts/register"@, seq!["POST"@]),
        ("/accounts/credentials/refresh"@, seq!["POST"@]),
        ("/accounts/session/refresh"@, seq!["POST"@]),
        ("/accounts/password"@, seq!["POST"@]),
        ("/accounts/overleaf-password"@, seq!["POST"@]),
        ("/accounts/trial-eligibility"@, seq!["POST"@]),
        ("/accounts/git-token/refresh"@, seq!["POST"@]),
        ("/accounts/git-token/generate"@, seq!["POST"@]),
        ("/accounts/browser-login"@, seq!["POST"@]),
        ("/accounts/switch/plan"@, seq!["POST"@]),
        ("/accounts/switch/projects/preview"@, seq!["POST"@]),
        ("/accounts/switch/execute"@, seq!["POST"@]),
        ("/accounts/remove/projects/preview"@, seq!["POST"@]),
        ("/accounts/remove"@, seq!["POST"@]),
        ("/browser/profiles"@, seq!["GET"@]),
        ("/browser/current-account"@, seq!["POST"@]),
        ("/cards"@, seq!["GET"@, "POST"@]),
        ("/cards/status"@, seq!["POST"@]),
        ("/cards/remove"@, seq!["POST"@]),
        ("/cards/export"@, seq!["POST"@]),
        ("/addresses"@, seq!["GET"@]),
        ("/addresses/current"@, seq!["GET"@]),
        ("/addresses/fetch"@, seq!["POST"@]),
        ("/addresses/select"@, seq!["POST"@]),
        ("/addresses/fallback"@, seq!["POST"@]),
        ("/tasks"@, seq!["GET"@]),
        ("/tasks/summary"@, seq!["GET"@]),
        ("/tasks/cancel"@, seq!["POST"@]),
        ("/tasks/retry"@, seq!["POST"@]),
        ("/tasks/input"@, seq!["POST"@]),
        ("/tasks/clear-terminal"@, seq!["POST"@]),
        ("/runtime/artifacts"@, seq!["GET"@]),
        ("/runtime/updates"@, seq!["GET"@]),
        ("/runtime/updates/prepare"@, seq!["POST"@]),
        ("/runtime/updates/cancel"@, seq!["POST"@]),
        ("/runtime/skills"@, seq!["POST"@]),
        ("/runtime/artifacts/cleanup"@, seq!["POST"@]),
        ("/runtime/temp-profiles/preview"@, seq!["GET"@]),
        ("/runtime/temp-profiles/cleanup"@, seq!["POST"@]),
        ("/secrets/account"@, seq!["GET"@]),
    ]
}

/// The routes of the service API.
pub fn service_api_routes() -> (r: Vec<ServiceApiRouteSpec>)
    ensures
        r@.map_values(|x: ServiceApiRouteSpec| route_view(x)) == route_table(),
{
    let mut v: Vec<ServiceApiRouteSpec> = Vec::new();
    v.push(service_route(HEALTH_PATH, &["GET"]));
    v.push(service_route("/config", &["GET"]));
    v.push(service_route("/config/default-export-dir", &["POST"]));
    v.push(service_route("/config/browser-proxy", &["POST"]));
    v.push(service_route("/dashboard", &["GET"]));
    v.push(service_route("/accounts", &["GET"]));
    v.push(service_route("/accounts/import", &["POST"]));
    v.push(service_route("/accounts/import/cookie", &["POST"]));
    v.push(service_route("/accounts/export", &["POST"]));
    v.push(service_route("/accounts/export/json", &["POST"]));
    v.push(service_route("/accounts/credentials", &["POST"]));
    v.push(service_route("/accounts/register", &["POST"]));
    v.push(service_route("/accounts/credentials/refresh", &["POST"]));
    v.push(service_route("/accounts/session/refresh", &["POST"]));
    v.push(service_route("/accounts/password", &["POST"]));
    v.push(service_route("/accounts/overleaf-password", &["POST"]));
    v.push(service_route("/accounts/trial-eligibility", &["POST"]));
    v.push(service_route("/accounts/git-token/refresh", &["POST"]));
    v.push(service_route("/accounts/git-token/generate", &["POST"]));
    v.push(service_route("/accounts/browser-login", &["POST"]));
    v.push(service_route("/accounts/switch/plan", &["POST"]));
    v.push(service_route("/accounts/switch/projects/preview", &["POST"]));
    v.push(service_route("/accounts/switch/execute", &["POST"]));
    v.push(service_route("/accounts/remove/projects/preview", &["POST"]));
    v.push(service_route("/accounts/remove", &["POST"]));
    v.push(service_route("/browser/profiles", &["GET"]));
    v.push(service_route("/browser/current-account", &["POST"]));
    v.push(service_route("/cards", &["GET", "POST"]));
    v.push(service_route("/cards/status", &["POST"]));
    v.push(service_route("/cards/remove", &["POST"]));
    v.push(service_route("/cards/export", &["POST"]));
    v.push(service_route("/addresses", &["GET"]));
    v.push(service_route("/addresses/current", &["GET"]));
    v.push(service_route("/addresses/fetch", &["POST"]));
    v.push(service_route("/addresses/select", &["POST"]));
    v.push(service_route("/addresses/fallback", &["POST"]));
    v.push(service_route("/tasks", &["GET"]));
    v.push(service_route("/tasks/summary", &["GET"]));
    v.push(service_route("/tasks/cancel", &["POST"]));
    v.push(service_route("/tasks/retry", &["POST"]));
    v.push(service_route("/tasks/input", &["POST"]));
    v.push(service_route("/tasks/clear-terminal", &["POST"]));
    v.push(service_route("/runtime/artifacts", &["GET"]));
    v.push(service_route("/runtime/updates", &["GET"]));
    v.push(service_route("/runtime/updates/prepare", &["POST"]));
    v.push(service_route("/runtime/updates/cancel", &["POST"]));
    v.push(service_route("/runtime/skills", &["POST"]));
    v.push(service_route("/runtime/artifacts/cleanup", &["POST"]));
    v.push(service_route("/runtime/temp-profiles/preview", &["GET"]));
    v.push(service_route("/runtime/temp-profiles/cleanup", &["POST"]));
    v.push(service_route("/secrets/account", &["GET"]));
    proof {
        assert(v@.len() == route_table().len());
        assert(route_view(v@[0]) == route_table()[0]);
        assert(route_view(v@[1]) == route_table()[1]);
        assert(route_view(v@[2]) == route_table()[2]);
        assert(route_view(v@[3]) == route_table()[3]);
        assert(route_view(v@[4]) == route_table()[4]);
        assert(route_view(v@[5]) == route_table()[5]);
        assert(route_view(v@[6]) == route_table()[6]);
        assert(route_view(v@[7]) == route_table()[7]);
        assert(route_view(v@[8]) == route_table()[8]);
        assert(route_view(v@[9]) == route_table()[9]);
        assert(route_view(v@[10]) == route_table()[10]);
        assert(route_view(v@[11]) == route_table()[11]);
        assert(route_view(v@[12]) == route_table()[12]);
        assert(route_view(v@[13]) == route_table()[13]);
        assert(route_view(v@[14]) == route_table()[14]);
        assert(route_view(v@[15]) == route_table()[15]);
        assert(route_view(v@[16]) == route_table()[16]);
        assert(route_view(v@[17]) == route_table()[17]);
        assert(route_view(v@[18]) == route_table()[18]);
        assert(route_view(v@[19]) == route_table()[19]);
        assert(route_view(v@[20]) == route_table()[20]);
        assert(route_view(v@[21]) == route_table()[21]);
        assert(route_view(v@[22]) == route_table()[22]);
        assert(route_view(v@[23]) == route_table()[23]);
        assert(route_view(v@[24]) == route_table()[24]);
        assert(route_view(v@[25]) == route_table()[25]);
        assert(route_view(v@[26]) == route_table()[26]);
        assert(route_view(v@[27]) == route_table()[27]);
        assert(route_view(v@[28]) == route_table()[28]);
        assert(route_view(v@[29]) == route_table()[29]);
        assert(route_view(v@[30]) == route_table()[30]);
        assert(route_view(v@[31]) == route_table()[31]);
        assert(route_view(v@[32]) == route_table()[32]);
        assert(route_view(v@[33]) == route_table()[33]);
        assert(route_view(v@[34]) == route_table()[34]);
        assert(route_view(v@[35]) == route_table()[35]);
        assert(route_view(v@[36]) == route_table()[36]);
        assert(route_view(v@[37]) == route_table()[37]);
        assert(route_view(v@[38]) == route_table()[38]);
        assert(route_view(v@[39]) == route_table()[39]);
        assert(route_view(v@[40]) == route_table()[40]);
        assert(route_view(v@[41]) == route_table()[41]);
        assert(route_view(v@[42]) == route_table()[42]);
        assert(route_view(v@[43]) == route_table()[43]);
        assert(route_view(v@[44]) == route_table()[44]);
        assert(route_view(v@[45]) == route_table()[45]);
        assert(route_view(v@[46]) == route_table()[46]);
        assert(route_view(v@[47]) == route_table()[47]);
        assert(route_view(v@[48]) == route_table()[48]);
        assert(route_view(v@[49]) == route_table()[49]);
        assert(route_view(v@[50]) == route_table()[50]);
        assert(v@.map_values(|x: ServiceApiRouteSpec| route_view(x)) =~= route_table());
    }
    v
}

/// The handler a request goes to.
#[derive(Debug, Clone, Copy, PartialEq, Eq)]
pub enum ApiRoute {
    ImportAccounts,
    ImportManualCookieAccounts,
    ExportAccounts,
    ExportAccountsJson,
    UpdateDefaultExportDir,
    UpdateBrowserProxy,
    AddCredentials,
    RegisterAccount,
    RefreshCredentials,
    RefreshAccountSubscriptions,
    UpdateLocalPassword,
    ChangeOverleafPassword,
    InspectTrialEligibility,
    RefreshGitToken,
    GenerateGitToken,
    DetectBrowserCurrentAccount,
    BrowserAutoLogin,
    PlanAccountSwitch,
    PreviewAccountSwitchProjects,
    ExecuteAccountSwitch,
    PreviewRemoteCleanup,
    RemoveAccounts,
    AddCard,
    UpdateCardStatus,
    RemoveCard,
    ExportCards,
    ManageSkills,
    FetchAddress,
    SelectAddress,
    SelectFallbackAddress,
    CancelTask,
    RetryTask,
    TaskInput,
    ClearTerminalTasks,
    CleanupRuntimeArtifacts,
    CleanupTempProfiles,
    Health,
    Config,
    BrowserProfiles,
    Dashboard,
    Accounts,
    Cards,
    Addresses,
    CurrentAddress,
    TaskSummary,
    Tasks,
    RuntimeArtifacts,
    PreviewTempProfiles,
    AccountSecret,
}

/// The handler of a `POST` to `path`.
pub open spec fn post_route(path: Seq<char>) -> Option<ApiRoute> {
    if path == "/accounts/import"@ {
        Some(ApiRoute::ImportAccounts)
    } else if path == "/accounts/import/cookie"@ {
        Some(ApiRoute::ImportManualCookieAccounts)
    } else if path == "/accounts/export"@ {
        Some(ApiRoute::ExportAccounts)
    } else if path == "/accounts/export/json"@ {
        Some(ApiRoute::ExportAccountsJson)
    } else if path == "/config/default-export-dir"@ {
        Some(ApiRoute::UpdateDefaultExportDir)
    } else if path == "/config/browser-proxy"@ {
        Some(ApiRoute::UpdateBrowserProxy)
    } else if path == "/accounts/credentials"@ {
        Some(ApiRoute::AddCredentials)
    } else if path == "/accounts/register"@ {
        Some(ApiRoute::RegisterAccount)
    } else if path == "/accounts/credentials/refresh"@ {
        Some(ApiRoute::RefreshCredentials)
    } else if path == "/accounts/session/refresh"@ {
        Some(ApiRoute::RefreshAccountSubscriptions)
    } else if path == "/accounts/password"@ {
        Some(ApiRoute::UpdateLocalPassword)
    } else if path == "/accounts/overleaf-password"@ {
        Some(ApiRoute::ChangeOverleafPassword)
    } else if path == "/accounts/trial-eligibility"@ {
        Some(ApiRoute::InspectTrialEligibility)
    } else if path == "/accounts/git-token/refresh"@ {
        Some(ApiRoute::RefreshGitToken)
    } else if path == "/accounts/git-token/generate"@ {
        Some(ApiRoute::GenerateGitToken)
    } else if path == "/browser/current-account"@ {
        Some(ApiRoute::DetectBrowserCurrentAccount)
    } else if path == "/accounts/browser-login"@ {
        Some(ApiRoute::BrowserAutoLogin)
    } else if path == "/accounts/switch/plan"@ {
        Some(ApiRoute::PlanAccountSwitch)
    } else if path == "/accounts/switch/projects/preview"@ {
        Some(ApiRoute::PreviewAccountSwitchProjects)
    } else if path == "/accounts/switch/execute"@ {
        Some(ApiRoute::ExecuteAccountSwitch)
    } else if path == "/accounts/remove/projects/preview"@ {
        Some(ApiRoute::PreviewRemoteCleanup)
    } else if path == "/accounts/remove"@ {
        Some(ApiRoute::RemoveAccounts)
    } else if path == "/cards"@ {
        Some(ApiRoute::AddCard)
    } else if path == "/cards/status"@ {
        Some(ApiRoute::UpdateCardStatus)
    } else if path == "/cards/remove"@ {
        Some(ApiRoute::RemoveCard)
    } else if path == "/cards/export"@ {
        Some(ApiRoute::ExportCards)
    } else if path == "/runtime/skills"@ {
        Some(ApiRoute::ManageSkills)
    } else if path == "/addresses/fetch"@ {
        Some(ApiRoute::FetchAddress)
    } else if path == "/addresses/select"@ {
        Some(ApiRoute::SelectAddress)
    } else if path == "/addresses/fallback"@ {
        Some(ApiRoute::SelectFallbackAddress)
    } else if path == "/tasks/cancel"@ {
        Some(ApiRoute::CancelTask)
    } else if path == "/tasks/retry"@ {
        Some(ApiRoute::RetryTask)
    } else if path == "/tasks/input"@ {
        Some(ApiRoute::TaskInput)
    } else if path == "/tasks/clear-terminal"@ {
        Some(ApiRoute::ClearTerminalTasks)
    } else if path == "/runtime/artifacts/cleanup"@ {
        Some(ApiRoute::CleanupRuntimeArtifacts)
    } else if path == "/runtime/temp-profiles/cleanup"@ {
        Some(ApiRoute::CleanupTempProfiles)
    } else {
        None
    }
}

/// The handler of a `GET` or `HEAD` of `path`.
pub open spec fn get_route(path: Seq<char>) -> Option<ApiRoute> {
    if path == "/"@ {
        Some(ApiRoute::Health)
    } else if path == "/health"@ {
        Some(ApiRoute::Health)
    } else if path == "/config"@ {
        Some(ApiRoute::Config)
    } else if path == "/browser/profiles"@ {
        Some(ApiRoute::BrowserProfiles)
    } else if path == "/dashboard"@ {
        Some(ApiRoute::Dashboard)
    } else if path == "/accounts"@ {
        Some(ApiRoute::Accounts)
    } else if path == "/cards"@ {
        Some(ApiRoute::Cards)
    } else if path == "/addresses"@ {
        Some(ApiRoute::Addresses)
    } else if path == "/addresses/current"@ {
        Some(ApiRoute::CurrentAddress)
    } else if path == "/tasks/summary"@ {
        Some(ApiRoute::TaskSummary)
    } else if path == "/tasks"@ {
        Some(ApiRoute::Tasks)
    } else if path == "/runtime/artifacts"@ {
        Some(ApiRoute::RuntimeArtifacts)
    } else if path == "/runtime/temp-profiles/preview"@ {
        Some(ApiRoute::PreviewTempProfiles)
    } else if path == "/secrets/account"@ {
        Some(ApiRoute::AccountSecret)
    } else {
        None
    }
}

fn post_route_of(path: &str) -> (r: Option<ApiRoute>)
    ensures
        r == post_route(path@),
{
    if text_eq(path, "/accounts/import") {
        Some(ApiRoute::ImportAccounts)
    } else if text_eq(path, "/accounts/import/cookie") {
        Some(ApiRoute::ImportManualCookieAccounts)
    } else if text_eq(path, "/accounts/export") {
        Some(ApiRoute::ExportAccounts)
    } else if text_eq(path, "/accounts/export/json") {
        Some(ApiRoute::ExportAccountsJson)
    } else if text_eq(path, "/config/default-export-dir") {
        Some(ApiRoute::UpdateDefaultExportDir)
    } else if text_eq(path, "/config/browser-proxy") {
        Some(ApiRoute::UpdateBrowserProxy)
    } else if text_eq(path, "/accounts/credentials") {
        Some(ApiRoute::AddCredentials)
    } else if text_eq(path, "/accounts/register") {
        Some(ApiRoute::RegisterAccount)
    } else if text_eq(path, "/accounts/credentials/refresh") {
        Some(ApiRoute::RefreshCredentials)
    } else if text_eq(path, "/accounts/session/refresh") {
        Some(ApiRoute::RefreshAccountSubscriptions)
    } else if text_eq(path, "/accounts/password") {
        Some(ApiRoute::UpdateLocalPassword)
    } else if text_eq(path, "/accounts/overleaf-password") {
        Some(ApiRoute::ChangeOverleafPassword)
    } else if text_eq(path, "/accounts/trial-eligibility") {
        Some(ApiRoute::InspectTrialEligibility)
    } else if text_eq(path, "/accounts/git-token/refresh") {
        Some(ApiRoute::RefreshGitToken)
    } else if text_eq(path, "/accounts/git-token/generate") {
        Some(ApiRoute::GenerateGitToken)
    } else if text_eq(path, "/browser/current-account") {
        Some(ApiRoute::DetectBrowserCurrentAccount)
    } else if text_eq(path, "/accounts/browser-login") {
        Some(ApiRoute::BrowserAutoLogin)
    } else if text_eq(path, "/accounts/switch/plan") {
        Some(ApiRoute::PlanAccountSwitch)
    } else if text_eq(path, "/accounts/switch/projects/preview") {
        Some(ApiRoute::PreviewAccountSwitchProjects)
    } else if text_eq(path, "/accounts/switch/execute") {
        Some(ApiRoute::ExecuteAccountSwitch)
    } else if text_eq(path, "/accounts/remove/projects/preview") {
        Some(ApiRoute::PreviewRemoteCleanup)
    } else if text_eq(path, "/accounts/remove") {
        Some(ApiRoute::RemoveAccounts)
    } else if text_eq(path, "/cards") {
        Some(ApiRoute::AddCard)
    } else if text_eq(path, "/cards/status") {
        Some(ApiRoute::UpdateCardStatus)
    } else if text_eq(path, "/cards/remove") {
        Some(ApiRoute::RemoveCard)
    } else if text_eq(path, "/cards/export") {
        Some(ApiRoute::ExportCards)
    } else if text_eq(path, "/runtime/skills") {
        Some(ApiRoute::ManageSkills)
    } else if text_eq(path, "/addresses/fetch") {
        Some(ApiRoute::FetchAddress)
    } else if text_eq(path, "/addresses/select") {
        Some(ApiRoute::SelectAddress)
    } else if text_eq(path, "/addresses/fallback") {
        Some(ApiRoute::SelectFallbackAddress)
    } else if text_eq(path, "/tasks/cancel") {
        Some(ApiRoute::CancelTask)
    } else if text_eq(path, "/tasks/retry") {
        Some(ApiRoute::RetryTask)
    } else if text_eq(path, "/tasks/input") {
        Some(ApiRoute::TaskInput)
    } else if text_eq(path, "/tasks/clear-terminal") {
        Some(ApiRoute::ClearTerminalTasks)
    } else if text_eq(path, "/runtime/artifacts/cleanup") {
        Some(ApiRoute::CleanupRuntimeArtifacts)
    } else if text_eq(path, "/runtime/temp-profiles/cleanup") {
        Some(ApiRoute::CleanupTempProfiles)
    } else {
        None
    }
}

fn get_route_of(path: &str) -> (r: Option<ApiRoute>)
    ensures
        r == get_route(path@),
{
    if text_eq(path, "/") {
        Some(ApiRoute::Health)
    } else if text_eq(path, "/health") {
        Some(ApiRoute::Health)
    } else if text_eq(path, "/config") {
        Some(ApiRoute::Config)
    } else if text_eq(path, "/browser/profiles") {
        Some(ApiRoute::BrowserProfiles)
    } else if text_eq(path, "/dashboard") {
        Some(ApiRoute::Dashboard)
    } else if text_eq(path, "/accounts") {
        Some(ApiRoute::Accounts)
    } else if text_eq(path, "/cards") {
        Some(ApiRoute::Cards)
    } else if text_eq(path, "/addresses") {
        Some(ApiRoute::Addresses)
    } else if text_eq(path, "/addresses/current") {
        Some(ApiRoute::CurrentAddress)
    } else if text_eq(path, "/tasks/summary") {
        Some(ApiRoute::TaskSummary)
    } else if text_eq(path, "/tasks") {
        Some(ApiRoute::Tasks)
    } else if text_eq(path, "/runtime/artifacts") {
        Some(ApiRoute::RuntimeArtifacts)
    } else if text_eq(path, "/runtime/temp-profiles/preview") {
        Some(ApiRoute::PreviewTempProfiles)
    } else if text_eq(path, "/secrets/account") {
        Some(ApiRoute::AccountSecret)
    } else {
        None
    }
}
/// The table has a route at `path` that takes no `GET`.
pub open spec fn route_without_get(path: Seq<char>) -> bool {
    exists|i: int|
        0 <= i < route_table().len() && (#[trigger] route_table()[i]).0 == path
            && !route_table()[i].1.contains("GET"@)
}

/// What the service does with a request.
#[derive(Debug, Clone, Copy, PartialEq, Eq)]
pub enum RouteDecision {
    /// Answer the pre-flight request.
    Preflight,
    /// Call the prepared update off.
    CancelUpdate,
    /// Refuse a write while an update is prepared.
    UpdateInProgress,
    /// Refuse to prepare an update while tasks run or wait.
    TasksBusy,
    /// Prepare the update.
    PrepareUpdate,
    /// Hand the request to a handler.
    Handle(ApiRoute),
    MethodNotAllowed,
    NotFound,
}

/// The decision for `method` on `path` (already normalized), given whether
/// an update is prepared and whether any task is pending, running or
/// waiting.
pub open spec fn route_for(method: Seq<char>, path: Seq<char>, update_prepared: bool, tasks_busy: bool) -> RouteDecision {
    if method == "OPTIONS"@ {
        RouteDecision::Preflight
    } else if method == "POST"@ && path == "/runtime/updates/cancel"@ {
        RouteDecision::CancelUpdate
    } else if method == "POST"@ && update_prepared {
        RouteDecision::UpdateInProgress
    } else if method == "POST"@ && path == "/runtime/updates/prepare"@ {
        if tasks_busy {
            RouteDecision::TasksBusy
        } else {
            RouteDecision::PrepareUpdate
        }
    } else if method == "POST"@ && post_route(path) is Some {
        RouteDecision::Handle(post_route(path)->0)
    } else if method != "GET"@ && method != "HEAD"@ {
        RouteDecision::MethodNotAllowed
    } else if route_without_get(path) {
        RouteDecision::MethodNotAllowed
    } else {
        match get_route(path) {
            Some(r) => RouteDecision::Handle(r),
            None => RouteDecision::NotFound,
        }
    }
}

fn has_method(methods: &[&str], method: &str) -> (r: bool)
    ensures
        r == methods@.map_values(|m: &str| m@).contains(method@),
{
    let mut i: usize = 0;
    while i < methods.len()
        invariant
            i <= methods@.len(),
            forall|j: int| 0 <= j < i ==> methods@[j]@ != method@,
        decreases methods.len() - i,
    {
        if text_eq(methods[i], method) {
            assert(methods@.map_values(|m: &str| m@)[i as int] == method@);
            return true;
        }
        i = i + 1;
    }
    proof {
        let v = methods@.map_values(|m: &str| m@);
        if v.contains(method@) {
            let k = choose|k: int| 0 <= k < v.len() && v[k] == method@;
            assert(methods@[k]@ == method@);
        }
    }
    false
}

fn takes_no_get(path: &str) -> (r: bool)
    ensures
        r == route_without_get(path@),
{
    let routes = service_api_routes();
    let ghost table = route_table();
    assert(routes@.len() == table.len());
    let mut i: usize = 0;
    while i < routes.len()
        invariant
            routes@.map_values(|x: ServiceApiRouteSpec| route_view(x)) == table,
            table == route_table(),
            i <= routes@.len(),
            forall|j: int| 0 <= j < i ==> !((#[trigger] table[j]).0 == path@ && !table[j].1.contains("GET"@)),
        decreases routes.len() - i,
    {
        let route = routes[i];
        assert(table[i as int] == route_view(route));
        if text_eq(route.path, path) && !has_method(route.methods, "GET") {
            return true;
        }
        i = i + 1;
    }
    false
}

/// The decision for a request, with its normalized path.
pub fn route_request(method: &str, target: &str, update_prepared: bool, tasks_busy: bool) -> (r: (
    String,
    RouteDecision,
))
    ensures
        r.0@ == normalized_path(target@),
        r.1 == route_for(method@, normalized_path(target@), update_prepared, tasks_busy),
{
    let path = normalize_path(target);
    let p = path.as_str();
    let is_post = text_eq(method, "POST");
    let decision = if text_eq(method, "OPTIONS") {
        RouteDecision::Preflight
    } else if is_post && text_eq(p, "/runtime/updates/cancel") {
        RouteDecision::CancelUpdate
    } else if is_post && update_prepared {
        RouteDecision::UpdateInProgress
    } else if is_post && text_eq(p, "/runtime/updates/prepare") {
        if tasks_busy {
            RouteDecision::TasksBusy
        } else {
            RouteDecision::PrepareUpdate
        }
    } else {
        let posted = if is_post {
            post_route_of(p)
        } else {
            None
        };
        match posted {
            Some(route) => RouteDecision::Handle(route),
            None => if !text_eq(method, "GET") && !text_eq(method, "HEAD") {
                RouteDecision::MethodNotAllowed
            } else if takes_no_get(p) {
                RouteDecision::MethodNotAllowed
            } else {
                match get_route_of(p) {
                    Some(route) => RouteDecision::Handle(route),
                    None => RouteDecision::NotFound,
                }
            },
        }
    };
    (path, decision)
}

// ---------------------------------------------------------------------------
// The answers the dispatcher gives itself

/// `{"ready":<ready>}`
pub open spec fn ready_body(ready: bool) -> Seq<char> {
    if ready {
        "{\"ready\":true}"@
    } else {
        "{\"ready\":false}"@
    }
}

/// The response a decision is answered with, when no handler answers it.
pub open spec fn is_fixed_response(d: RouteDecision, r: ApiResponse) -> bool {
    match d {
        RouteDecision::Preflight => r.status_code == 204 && r.content_type@ == TEXT_CONTENT_TYPE@
            && r.body@.len() == 0,
        RouteDecision::CancelUpdate => r.status_code == 200 && r.content_type@ == JSON_CONTENT_TYPE@
            && r.body@ == ready_body(false),
        RouteDecision::PrepareUpdate => r.status_code == 200 && r.content_type@ == JSON_CONTENT_TYPE@
            && r.body@ == ready_body(true),
        RouteDecision::UpdateInProgress => is_error_response(r, 503, "应用正在更新，请稍后重试"@),
        RouteDecision::TasksBusy => is_error_response(r, 409, "请先完成或取消运行中及等待验证的任务"@),
        RouteDecision::MethodNotAllowed => is_error_response(r, 405, "method not allowed"@),
        RouteDecision::NotFound => is_error_response(r, 404, "not found"@),
        RouteDecision::Handle(_) => false,
    }
}

/// The answer of a decision that needs no handler; `None` for a handler.
pub fn fixed_response(d: RouteDecision) -> (r: Option<ApiResponse>)
    ensures
        d is Handle <==> r is None,
        r matches Some(x) ==> is_fixed_response(d, x),
{
    match d {
        RouteDecision::Preflight => {
            let body = String::new();
            assert(body@.len() == 0);
            Some(ApiResponse { status_code: 204, content_type: TEXT_CONTENT_TYPE, body })
        },
        RouteDecision::CancelUpdate => Some(json_text_response(200, owned("{\"ready\":false}"))),
        RouteDecision::PrepareUpdate => Some(json_text_response(200, owned("{\"ready\":true}"))),
        RouteDecision::UpdateInProgress => Some(error_response(503, "应用正在更新，请稍后重试")),
        RouteDecision::TasksBusy => Some(error_response(409, "请先完成或取消运行中及等待验证的任务")),
        RouteDecision::MethodNotAllowed => Some(method_not_allowed_response()),
        RouteDecision::NotFound => Some(error_response(404, "not found")),
        RouteDecision::Handle(_) => None,
    }
}

/// Whether an update is prepared after the decision: calling it off clears
/// the flag, preparing sets it, everything else leaves it.
pub open spec fn update_prepared_after(d: RouteDecision, prepared: bool) -> bool {
    match d {
        RouteDecision::CancelUpdate => false,
        RouteDecision::PrepareUpdate => true,
        _ => prepared,
    }
}

pub fn update_flag_after(d: RouteDecision, prepared: bool) -> (r: bool)
    ensures
        r == update_prepared_after(d, prepared),
{
    match d {
        RouteDecision::CancelUpdate => false,
        RouteDecision::PrepareUpdate => true,
        _ => prepared,
    }
}

/// A `HEAD` request is answered as the `GET` would be, without the body.
pub fn response_for_method(method: &str, response: ApiResponse) -> (r: ApiResponse)
    ensures
        r.status_code == response.status_code,
        r.content_type == response.content_type,
        method@ == "HEAD"@ ==> r.body@.len() == 0,
        method@ != "HEAD"@ ==> r.body == response.body,
{
    if text_eq(method, "HEAD") {
        ApiResponse { status_code: response.status_code, content_type: response.content_type, body: String::new() }
    } else {
        response
    }
}

// ---------------------------------------------------------------------------
// Laws of the dispatcher

proof fn lemma_methods_differ()
    ensures
        "POST"@ != "OPTIONS"@,
        "GET"@ != "OPTIONS"@,
        "HEAD"@ != "OPTIONS"@,
        "HEAD"@ != "POST"@,
        "GET"@ != "POST"@,
        "HEAD"@ != "GET"@,
        "/runtime/updates/prepare"@ != "/runtime/updates/cancel"@,
{
    reveal_strlit("POST");
    reveal_strlit("OPTIONS");
    reveal_strlit("GET");
    reveal_strlit("HEAD");
    reveal_strlit("/runtime/updates/prepare");
    reveal_strlit("/runtime/updates/cancel");
    assert("POST"@.len() != "OPTIONS"@.len());
    assert("GET"@.len() != "OPTIONS"@.len());
    assert("HEAD"@.len() != "OPTIONS"@.len());
    assert("HEAD"@[0] != "POST"@[1]);
    assert("HEAD"@.len() != "GET"@.len());
    assert("GET"@.len() != "POST"@.len());
    assert("/runtime/updates/prepare"@[17] != "/runtime/updates/cancel"@[17]);
}

/// While an update is prepared, every `POST` but the one that calls the
/// update off is refused with 503.
pub proof fn prepared_update_refuses_writes(path: Seq<char>, tasks_busy: bool)
    requires
        path != "/runtime/updates/cancel"@,
    ensures
        route_for("POST"@, path, true, tasks_busy) == RouteDecision::UpdateInProgress,
{
    lemma_methods_differ();
}

/// A pre-flight request is always answered, whatever else holds.
pub proof fn preflight_always_answered(path: Seq<char>, update_prepared: bool, tasks_busy: bool)
    ensures
        route_for("OPTIONS"@, path, update_prepared, tasks_busy) == RouteDecision::Preflight,
{
    lemma_methods_differ();
}

/// Without a prepared update, preparing one succeeds exactly when no task
/// is pending, running or waiting.
pub proof fn prepare_succeeds_only_when_idle(tasks_busy: bool)
    ensures
        route_for("POST"@, "/runtime/updates/prepare"@, false, tasks_busy) == if tasks_busy {
            RouteDecision::TasksBusy
        } else {
            RouteDecision::PrepareUpdate
        },
{
    lemma_methods_differ();
}

/// `HEAD` goes where `GET` goes.
pub proof fn head_routes_as_get(path: Seq<char>, update_prepared: bool, tasks_busy: bool)
    ensures
        route_for("HEAD"@, path, update_prepared, tasks_busy) == route_for(
            "GET"@,
            path,
            update_prepared,
            tasks_busy,
        ),
{
    lemma_methods_differ();
}

/// Calling a prepared update off is never refused and always clears it.
pub proof fn cancelling_update_always_clears(update_prepared: bool, tasks_busy: bool)
    ensures
        route_for("POST"@, "/runtime/updates/cancel"@, update_prepared, tasks_busy)
            == RouteDecision::CancelUpdate,
        !update_prepared_after(RouteDecision::CancelUpdate, update_prepared),
{
    lemma_methods_differ();
}

/// The path of the API's route table that each `POST` handler serves, as
/// the table lists them; handlers that are not reached by `POST` have none.
pub open spec fn post_path_of(route: ApiRoute) -> Option<Seq<char>> {
    match route {
        ApiRoute::ImportAccounts => Some("/accounts/import"@),
        ApiRoute::ImportManualCookieAccounts => Some("/accounts/import/cookie"@),
        ApiRoute::ExportAccounts => Some("/accounts/export"@),
        ApiRoute::ExportAccountsJson => Some("/accounts/export/json"@),
        ApiRoute::UpdateDefaultExportDir => Some("/config/default-export-dir"@),
        ApiRoute::UpdateBrowserProxy => Some("/config/browser-proxy"@),
        ApiRoute::AddCredentials => Some("/accounts/credentials"@),
        ApiRoute::RegisterAccount => Some("/accounts/register"@),
        ApiRoute::RefreshCredentials => Some("/accounts/credentials/refresh"@),
        ApiRoute::RefreshAccountSubscriptions => Some("/accounts/session/refresh"@),
        ApiRoute::UpdateLocalPassword => Some("/accounts/password"@),
        ApiRoute::ChangeOverleafPassword => Some("/accounts/overleaf-password"@),
        ApiRoute::InspectTrialEligibility => Some("/accounts/trial-eligibility"@),
        ApiRoute::RefreshGitToken => Some("/accounts/git-token/refresh"@),
        ApiRoute::GenerateGitToken => Some("/accounts/git-token/generate"@),
        ApiRoute::DetectBrowserCurrentAccount => Some("/browser/current-account"@),
        ApiRoute::BrowserAutoLogin => Some("/accounts/browser-login"@),
        ApiRoute::PlanAccountSwitch => Some("/accounts/switch/plan"@),
        ApiRoute::PreviewAccountSwitchProjects => Some("/accounts/switch/projects/preview"@),
        ApiRoute::ExecuteAccountSwitch => Some("/accounts/switch/execute"@),
        ApiRoute::PreviewRemoteCleanup => Some("/accounts/remove/projects/preview"@),
        ApiRoute::RemoveAccounts => Some("/accounts/remove"@),
        ApiRoute::AddCard => Some("/cards"@),
        ApiRoute::UpdateCardStatus => Some("/cards/status"@),
        ApiRoute::RemoveCard => Some("/cards/remove"@),
        ApiRoute::ExportCards => Some("/cards/export"@),
        ApiRoute::ManageSkills => Some("/runtime/skills"@),
        ApiRoute::FetchAddress => Some("/addresses/fetch"@),
        ApiRoute::SelectAddress => Some("/addresses/select"@),
        ApiRoute::SelectFallbackAddress => Some("/addresses/fallback"@),
        ApiRoute::CancelTask => Some("/tasks/cancel"@),
        ApiRoute::RetryTask => Some("/tasks/retry"@),
        ApiRoute::TaskInput => Some("/tasks/input"@),
        ApiRoute::ClearTerminalTasks => Some("/tasks/clear-terminal"@),
        ApiRoute::CleanupRuntimeArtifacts => Some("/runtime/artifacts/cleanup"@),
        ApiRoute::CleanupTempProfiles => Some("/runtime/temp-profiles/cleanup"@),
        _ => None,
    }
}

/// The paths of the `POST` table are told apart: their lengths, and for
/// paths of equal length, that they differ.
proof fn post_table_paths_differ()
    ensures
        "/accounts/import"@.len() == 16,
        "/accounts/import/cookie"@.len() == 23,
        "/accounts/export"@.len() == 16,
        "/accounts/export/json"@.len() == 21,
        "/config/default-export-dir"@.len() == 26,
        "/config/browser-proxy"@.len() == 21,
        "/accounts/credentials"@.len() == 21,
        "/accounts/register"@.len() == 18,
        "/accounts/credentials/refresh"@.len() == 29,
        "/accounts/session/refresh"@.len() == 25,
        "/accounts/password"@.len() == 18,
        "/accounts/overleaf-password"@.len() == 27,
        "/accounts/trial-eligibility"@.len() == 27,
        "/accounts/git-token/refresh"@.len() == 27,
        "/accounts/git-token/generate"@.len() == 28,
        "/browser/current-account"@.len() == 24,
        "/accounts/browser-login"@.len() == 23,
        "/accounts/switch/plan"@.len() == 21,
        "/accounts/switch/projects/preview"@.len() == 33,
        "/accounts/switch/execute"@.len() == 24,
        "/accounts/remove/projects/preview"@.len() == 33,
        "/accounts/remove"@.len() == 16,
        "/cards"@.len() == 6,
        "/cards/status"@.len() == 13,
        "/cards/remove"@.len() == 13,
        "/cards/export"@.len() == 13,
        "/runtime/skills"@.len() == 15,
        "/addresses/fetch"@.len() == 16,
        "/addresses/select"@.len() == 17,
        "/addresses/fallback"@.len() == 19,
        "/tasks/cancel"@.len() == 13,
        "/tasks/retry"@.len() == 12,
        "/tasks/input"@.len() == 12,
        "/tasks/clear-terminal"@.len() == 21,
        "/runtime/artifacts/cleanup"@.len() == 26,
        "/runtime/temp-profiles/cleanup"@.len() == 30,
        "/accounts/export"@ != "/accounts/import"@,
        "/config/browser-proxy"@ != "/accounts/export/json"@,
        "/accounts/credentials"@ != "/accounts/export/json"@,
        "/accounts/credentials"@ != "/config/browser-proxy"@,
        "/accounts/password"@ != "/accounts/register"@,
        "/accounts/trial-eligibility"@ != "/accounts/overleaf-password"@,
        "/accounts/git-token/refresh"@ != "/accounts/overleaf-password"@,
        "/accounts/git-token/refresh"@ != "/accounts/trial-eligibility"@,
        "/accounts/browser-login"@ != "/accounts/import/cookie"@,
        "/accounts/switch/plan"@ != "/accounts/export/json"@,
        "/accounts/switch/plan"@ != "/config/browser-proxy"@,
        "/accounts/switch/plan"@ != "/accounts/credentials"@,
        "/accounts/switch/execute"@ != "/browser/current-account"@,
        "/accounts/remove/projects/preview"@ != "/accounts/switch/projects/preview"@,
        "/accounts/remove"@ != "/accounts/import"@,
        "/accounts/remove"@ != "/accounts/export"@,
        "/cards/remove"@ != "/cards/status"@,
        "/cards/export"@ != "/cards/status"@,
        "/cards/export"@ != "/cards/remove"@,
        "/addresses/fetch"@ != "/accounts/import"@,
        "/addresses/fetch"@ != "/accounts/export"@,
        "/addresses/fetch"@ != "/accounts/remove"@,
        "/tasks/cancel"@ != "/cards/status"@,
        "/tasks/cancel"@ != "/cards/remove"@,
        "/tasks/cancel"@ != "/cards/export"@,
        "/tasks/input"@ != "/tasks/retry"@,
        "/tasks/clear-terminal"@ != "/accounts/export/json"@,
        "/tasks/clear-terminal"@ != "/config/browser-proxy"@,
        "/tasks/clear-terminal"@ != "/accounts/credentials"@,
        "/tasks/clear-terminal"@ != "/accounts/switch/plan"@,
        "/runtime/artifacts/cleanup"@ != "/config/default-export-dir"@,
{
    reveal_strlit("/accounts/import");
    reveal_strlit("/accounts/import/cookie");
    reveal_strlit("/accounts/export");
    reveal_strlit("/accounts/export/json");
    reveal_strlit("/config/default-export-dir");
    reveal_strlit("/config/browser-proxy");
    reveal_strlit("/accounts/credentials");
    reveal_strlit("/accounts/register");
    reveal_strlit("/accounts/credentials/refresh");
    reveal_strlit("/accounts/session/refresh");
    reveal_strlit("/accounts/password");
    reveal_strlit("/accounts/overleaf-password");
    reveal_strlit("/accounts/trial-eligibility");
    reveal_strlit("/accounts/git-token/refresh");
    reveal_strlit("/accounts/git-token/generate");
    reveal_strlit("/browser/current-account");
    reveal_strlit("/accounts/browser-login");
    reveal_strlit("/accounts/switch/plan");
    reveal_strlit("/accounts/switch/projects/preview");
    reveal_strlit("/accounts/switch/execute");
    reveal_strlit("/accounts/remove/projects/preview");
    reveal_strlit("/accounts/remove");
    reveal_strlit("/cards");
    reveal_strlit("/cards/status");
    reveal_strlit("/cards/remove");
    reveal_strlit("/cards/export");
    reveal_strlit("/runtime/skills");
    reveal_strlit("/addresses/fetch");
    reveal_strlit("/addresses/select");
    reveal_strlit("/addresses/fallback");
    reveal_strlit("/tasks/cancel");
    reveal_strlit("/tasks/retry");
    reveal_strlit("/tasks/input");
    reveal_strlit("/tasks/clear-terminal");
    reveal_strlit("/runtime/artifacts/cleanup");
    reveal_strlit("/runtime/temp-profiles/cleanup");
    assert("/accounts/export"@[10] == 'e' && "/accounts/import"@[10] == 'i');
    assert("/config/browser-proxy"@[1] == 'c' && "/accounts/export/json"@[1] == 'a');
    assert("/accounts/credentials"@[10] == 'c' && "/accounts/export/json"@[10] == 'e');
    assert("/accounts/credentials"@[1] == 'a' && "/config/browser-proxy"@[1] == 'c');
    assert("/accounts/password"@[10] == 'p' && "/accounts/register"@[10] == 'r');
    assert("/accounts/trial-eligibility"@[10] == 't' && "/accounts/overleaf-password"@[10] == 'o');
    assert("/accounts/git-token/refresh"@[10] == 'g' && "/accounts/overleaf-password"@[10] == 'o');
    assert("/accounts/git-token/refresh"@[10] == 'g' && "/accounts/trial-eligibility"@[10] == 't');
    assert("/accounts/browser-login"@[10] == 'b' && "/accounts/import/cookie"@[10] == 'i');
    assert("/accounts/switch/plan"@[10] == 's' && "/accounts/export/json"@[10] == 'e');
    assert("/accounts/switch/plan"@[1] == 'a' && "/config/browser-proxy"@[1] == 'c');
    assert("/accounts/switch/plan"@[10] == 's' && "/accounts/credentials"@[10] == 'c');
    assert("/accounts/switch/execute"@[1] == 'a' && "/browser/current-account"@[1] == 'b');
    assert("/accounts/remove/projects/preview"@[10] == 'r' && "/accounts/switch/projects/preview"@[10] == 's');
    assert("/accounts/remove"@[10] == 'r' && "/accounts/import"@[10] == 'i');
    assert("/accounts/remove"@[10] == 'r' && "/accounts/export"@[10] == 'e');
    assert("/cards/remove"@[7] == 'r' && "/cards/status"@[7] == 's');
    assert("/cards/export"@[7] == 'e' && "/cards/status"@[7] == 's');
    assert("/cards/export"@[7] == 'e' && "/cards/remove"@[7] == 'r');
    assert("/addresses/fetch"@[2] == 'd' && "/accounts/import"@[2] == 'c');
    assert("/addresses/fetch"@[2] == 'd' && "/accounts/export"@[2] == 'c');
    assert("/addresses/fetch"@[2] == 'd' && "/accounts/remove"@[2] == 'c');
    assert("/tasks/cancel"@[1] == 't' && "/cards/status"@[1] == 'c');
    assert("/tasks/cancel"@[1] == 't' && "/cards/remove"@[1] == 'c');
    assert("/tasks/cancel"@[1] == 't' && "/cards/export"@[1] == 'c');
    assert("/tasks/input"@[7] == 'i' && "/tasks/retry"@[7] == 'r');
    assert("/tasks/clear-terminal"@[1] == 't' && "/accounts/export/json"@[1] == 'a');
    assert("/tasks/clear-terminal"@[1] == 't' && "/config/browser-proxy"@[1] == 'c');
    assert("/tasks/clear-terminal"@[1] == 't' && "/accounts/credentials"@[1] == 'a');
    assert("/tasks/clear-terminal"@[1] == 't' && "/accounts/switch/plan"@[1] == 'a');
    assert("/runtime/artifacts/cleanup"@[1] == 'r' && "/config/default-export-dir"@[1] == 'c');
}

/// Each path of the route table's `POST` handlers is routed to its handler.
proof fn post_table_paths_are_routed(route: ApiRoute)
    ensures
        post_path_of(route) matches Some(path) ==> post_route(path) == Some(route),
{
    post_table_paths_differ();
    match route {
            ApiRoute::ImportAccounts => assert(post_route("/accounts/import"@) == Some(ApiRoute::ImportAccounts)),
            ApiRoute::ImportManualCookieAccounts => assert(post_route("/accounts/import/cookie"@) == Some(ApiRoute::ImportManualCookieAccounts)),
            ApiRoute::ExportAccounts => assert(post_route("/accounts/export"@) == Some(ApiRoute::ExportAccounts)),
            ApiRoute::ExportAccountsJson => assert(post_route("/accounts/export/json"@) == Some(ApiRoute::ExportAccountsJson)),
            ApiRoute::UpdateDefaultExportDir => assert(post_route("/config/default-export-dir"@) == Some(ApiRoute::UpdateDefaultExportDir)),
            ApiRoute::UpdateBrowserProxy => assert(post_route("/config/browser-proxy"@) == Some(ApiRoute::UpdateBrowserProxy)),
            ApiRoute::AddCredentials => assert(post_route("/accounts/credentials"@) == Some(ApiRoute::AddCredentials)),
            ApiRoute::RegisterAccount => assert(post_route("/accounts/register"@) == Some(ApiRoute::RegisterAccount)),
            ApiRoute::RefreshCredentials => assert(post_route("/accounts/credentials/refresh"@) == Some(ApiRoute::RefreshCredentials)),
            ApiRoute::RefreshAccountSubscriptions => assert(post_route("/accounts/session/refresh"@) == Some(ApiRoute::RefreshAccountSubscriptions)),
            ApiRoute::UpdateLocalPassword => assert(post_route("/accounts/password"@) == Some(ApiRoute::UpdateLocalPassword)),
            ApiRoute::ChangeOverleafPassword => assert(post_route("/accounts/overleaf-password"@) == Some(ApiRoute::ChangeOverleafPassword)),
            ApiRoute::InspectTrialEligibility => assert(post_route("/accounts/trial-eligibility"@) == Some(ApiRoute::InspectTrialEligibility)),
            ApiRoute::RefreshGitToken => assert(post_route("/accounts/git-token/refresh"@) == Some(ApiRoute::RefreshGitToken)),
            ApiRoute::GenerateGitToken => assert(post_route("/accounts/git-token/generate"@) == Some(ApiRoute::GenerateGitToken)),
            ApiRoute::DetectBrowserCurrentAccount => assert(post_route("/browser/current-account"@) == Some(ApiRoute::DetectBrowserCurrentAccount)),
            ApiRoute::BrowserAutoLogin => assert(post_route("/accounts/browser-login"@) == Some(ApiRoute::BrowserAutoLogin)),
            ApiRoute::PlanAccountSwitch => assert(post_route("/accounts/switch/plan"@) == Some(ApiRoute::PlanAccountSwitch)),
            ApiRoute::PreviewAccountSwitchProjects => assert(post_route("/accounts/switch/projects/preview"@) == Some(ApiRoute::PreviewAccountSwitchProjects)),
            ApiRoute::ExecuteAccountSwitch => assert(post_route("/accounts/switch/execute"@) == Some(ApiRoute::ExecuteAccountSwitch)),
            ApiRoute::PreviewRemoteCleanup => assert(post_route("/accounts/remove/projects/preview"@) == Some(ApiRoute::PreviewRemoteCleanup)),
            ApiRoute::RemoveAccounts => assert(post_route("/accounts/remove"@) == Some(ApiRoute::RemoveAccounts)),
            ApiRoute::AddCard => assert(post_route("/cards"@) == Some(ApiRoute::AddCard)),
            ApiRoute::UpdateCardStatus => assert(post_route("/cards/status"@) == Some(ApiRoute::UpdateCardStatus)),
            ApiRoute::RemoveCard => assert(post_route("/cards/remove"@) == Some(ApiRoute::RemoveCard)),
            ApiRoute::ExportCards => assert(post_route("/cards/export"@) == Some(ApiRoute::ExportCards)),
            ApiRoute::ManageSkills => assert(post_route("/runtime/skills"@) == Some(ApiRoute::ManageSkills)),
            ApiRoute::FetchAddress => assert(post_route("/addresses/fetch"@) == Some(ApiRoute::FetchAddress)),
            ApiRoute::SelectAddress => assert(post_route("/addresses/select"@) == Some(ApiRoute::SelectAddress)),
            ApiRoute::SelectFallbackAddress => assert(post_route("/addresses/fallback"@) == Some(ApiRoute::SelectFallbackAddress)),
            ApiRoute::CancelTask => assert(post_route("/tasks/cancel"@) == Some(ApiRoute::CancelTask)),
            ApiRoute::RetryTask => assert(post_route("/tasks/retry"@) == Some(ApiRoute::RetryTask)),
            ApiRoute::TaskInput => assert(post_route("/tasks/input"@) == Some(ApiRoute::TaskInput)),
            ApiRoute::ClearTerminalTasks => assert(post_route("/tasks/clear-terminal"@) == Some(ApiRoute::ClearTerminalTasks)),
            ApiRoute::CleanupRuntimeArtifacts => assert(post_route("/runtime/artifacts/cleanup"@) == Some(ApiRoute::CleanupRuntimeArtifacts)),
            ApiRoute::CleanupTempProfiles => assert(post_route("/runtime/temp-profiles/cleanup"@) == Some(ApiRoute::CleanupTempProfiles)),
        _ => {},
    }
}

/// Every `POST` path of the route table goes to the handler named after it
/// and to no other: a path is routed to a handler exactly when it is that
/// handler's path, so no two paths share a handler.
pub proof fn post_routes_follow_the_table(path: Seq<char>, other: Seq<char>, route: ApiRoute)
    ensures
        post_route(path) == Some(route) <==> post_path_of(route) == Some(path),
        post_route(path) is Some && post_route(path) == post_route(other) ==> path == other,
{
    post_table_paths_are_routed(route);
}

} // verus!
