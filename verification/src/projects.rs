//! Managing the Overleaf projects of an account: which requests are
//! accepted, which account they act for, which project operations the
//! account may run, and the answers the operations give.

use vstd::prelude::*;
use base64::Engine;
use crate::json::{json_quoted, json_string};
use crate::response::{error_response, is_error_response, json_text_response, ApiResponse, JSON_CONTENT_TYPE};
use crate::tasks::{is_terminal_phase, phase_is_terminal, ServiceTaskPhase};
use crate::text::{chars_of, concat2, concat3, concat5, is_empty_text, owned, text_eq, trim, trimmed};
use vstd::utf8::encode_utf8;

verus! {

/// What a project request asks for.
#[derive(Debug, Clone, Copy, PartialEq, Eq, Structural)]
pub enum ProjectAction {
    List,
    Copy,
    Rename,
    Archive,
    Unarchive,
    Trash,
    Restore,
    Delete,
    Zip,
    Pdf,
}

/// A project request.
pub struct ProjectRequest {
    pub alias: Option<String>,
    pub action: ProjectAction,
    pub project_id: Option<String>,
    pub name: Option<String>,
    pub confirm_name: Option<String>,
    pub task_id: String,
}

/// An ASCII hexadecimal digit.
pub open spec fn is_hex_char(c: char) -> bool {
    ('0' <= c && c <= '9') || ('a' <= c && c <= 'f') || ('A' <= c && c <= 'F')
}

/// A project id: 24 ASCII hexadecimal digits.
pub open spec fn is_project_id(s: Seq<char>) -> bool {
    s.len() == 24 && forall|i: int| 0 <= i < 24 ==> is_hex_char(#[trigger] s[i])
}

pub(crate) fn project_id_is_valid(id: &str) -> (r: bool)
    ensures
        r == is_project_id(id@),
{
    let v = chars_of(id);
    if v.len() != 24 {
        return false;
    }
    let mut i: usize = 0;
    while i < 24
        invariant
            v@ == id@,
            v@.len() == 24,
            i <= 24,
            forall|k: int| 0 <= k < i ==> is_hex_char(#[trigger] id@[k]),
        decreases 24 - i,
    {
        let c = v[i];
        if !(('0' <= c && c <= '9') || ('a' <= c && c <= 'f') || ('A' <= c && c <= 'F')) {
            return false;
        }
        i = i + 1;
    }
    true
}

/// The reason a project request is refused before any account is touched:
/// only `POST` is served, the task id must not be blank nor longer than 200
/// bytes, and every action but listing names a valid project id.
pub open spec fn request_refusal(method: Seq<char>, req: ProjectRequest) -> Option<(u16, Seq<char>)> {
    if method != "POST"@ {
        Some((405, "不支持的请求方式"@))
    } else if trimmed(req.task_id@).len() == 0 || encode_utf8(req.task_id@).len() > 200 {
        Some((400, "任务标识无效"@))
    } else if !(req.action is List) && !(req.project_id matches Some(id) && is_project_id(id@)) {
        Some((400, "项目标识无效"@))
    } else {
        None
    }
}

pub fn check_project_request(method: &str, req: &ProjectRequest) -> (r: Result<(), ApiResponse>)
    ensures
        request_refusal(method@, *req) is None <==> r is Ok,
        r matches Err(e) ==> (request_refusal(method@, *req) matches Some((status, message)) && is_error_response(e, status, message)),
{
    if !text_eq(method, "POST") {
        return Err(error_response(405, "不支持的请求方式"));
    }
    let t = trim(req.task_id.as_str());
    let bytes = req.task_id.as_str().as_bytes();
    if is_empty_text(t.as_str()) || bytes.len() > 200 {
        return Err(error_response(400, "任务标识无效"));
    }
    let listing = req.action == ProjectAction::List;
    if !listing {
        let valid = match &req.project_id {
            Some(id) => project_id_is_valid(id.as_str()),
            None => false,
        };
        if !valid {
            return Err(error_response(400, "项目标识无效"));
        }
    }
    Ok(())
}

/// The account a request acts for: the one it names, else the current one,
/// trimmed; a blank name is not replaced by the current account.
pub open spec fn chosen_alias(requested: Option<Seq<char>>, current: Option<Seq<char>>) -> Option<Seq<char>> {
    let named = match requested {
        Some(a) => Some(a),
        None => current,
    };
    match named {
        Some(a) => if trimmed(a).len() > 0 {
            Some(trimmed(a))
        } else {
            None
        },
        None => None,
    }
}

pub open spec fn opt_text(o: Option<&str>) -> Option<Seq<char>> {
    match o {
        Some(s) => Some(s@),
        None => None,
    }
}

/// The account a project request acts for; without one it is refused with
/// 409.
pub fn select_project_alias(requested: Option<&str>, current: Option<&str>) -> (r: Result<String, ApiResponse>)
    ensures
        chosen_alias(opt_text(requested), opt_text(current)) is None <==> r is Err,
        r matches Ok(a) ==> chosen_alias(opt_text(requested), opt_text(current)) == Some(a@),
        r matches Err(e) ==> is_error_response(e, 409, "请先选择当前账号"@),
{
    let named = match requested {
        Some(a) => Some(a),
        None => current,
    };
    match named {
        Some(a) => {
            let t = trim(a);
            if is_empty_text(t.as_str()) {
                Err(error_response(409, "请先选择当前账号"))
            } else {
                Ok(t)
            }
        },
        None => Err(error_response(409, "请先选择当前账号")),
    }
}

/// The answer when the chosen account is not saved.
pub fn unknown_project_account_response() -> (r: ApiResponse)
    ensures
        is_error_response(r, 404, "账号不存在"@),
{
    error_response(404, "账号不存在")
}

/// What a task tells of a project migration it may be running.
pub struct MigrationTaskView {
    /// The task executes an account switch.
    pub is_switch_execution: bool,
    pub phase: ServiceTaskPhase,
    /// The task has a retry descriptor; the next two fields come from it.
    pub has_retry: bool,
    pub migrate_projects: Option<bool>,
    pub source_alias: Option<String>,
}

/// The task is an unfinished account switch that migrates the projects of
/// `alias` (its source, or the current account when it names none).
pub open spec fn migrates_alias(t: MigrationTaskView, current: Option<Seq<char>>, alias: Seq<char>) -> bool {
    &&& t.is_switch_execution
    &&& !phase_is_terminal(t.phase)
    &&& t.has_retry
    &&& t.migrate_projects == Some(true)
    &&& (match t.source_alias {
        Some(s) => Some(s@),
        None => current,
    }) == Some(alias)
}

/// Whether a project migration of `alias` is under way, and the answer then.
pub fn project_migration_conflict(tasks: &Vec<MigrationTaskView>, current: Option<&str>, alias: &str) -> (r: Option<ApiResponse>)
    ensures
        r is Some <==> exists|i: int| 0 <= i < tasks@.len() && migrates_alias(#[trigger] tasks@[i], opt_text(current), alias@),
        r matches Some(e) ==> is_error_response(e, 409, "该账号正在迁移项目，请等待迁移结束"@),
{
    let mut i: usize = 0;
    while i < tasks.len()
        invariant
            i <= tasks@.len(),
            forall|k: int| 0 <= k < i ==> !migrates_alias(#[trigger] tasks@[k], opt_text(current), alias@),
        decreases tasks.len() - i,
    {
        let t = &tasks[i];
        let active = !is_terminal_phase(t.phase);
        let source_matches = match &t.source_alias {
            Some(s) => text_eq(s.as_str(), alias),
            None => match current {
                Some(c) => text_eq(c, alias),
                None => false,
            },
        };
        if t.is_switch_execution && active && t.has_retry && t.migrate_projects == Some(true) && source_matches {
            assert(migrates_alias(tasks@[i as int], opt_text(current), alias@));
            return Some(error_response(409, "该账号正在迁移项目，请等待迁移结束"));
        }
        i = i + 1;
    }
    None
}

/// The answer when the account's cookies cannot be read: a missing secret
/// asks for a new login (401), anything else is a server error.
pub fn project_cookie_error(missing: bool) -> (r: ApiResponse)
    ensures
        missing ==> is_error_response(r, 401, "账号需要重新登录"@),
        !missing ==> is_error_response(r, 500, "无法读取账号 Cookie"@),
{
    if missing {
        error_response(401, "账号需要重新登录")
    } else {
        error_response(500, "无法读取账号 Cookie")
    }
}

/// The answer when the session does not prove the account: 401 when a new
/// login is needed, else 409, with the error's text.
pub fn project_identity_error(requires_recovery: bool, message: &str) -> (r: ApiResponse)
    ensures
        is_error_response(r, if requires_recovery { 401u16 } else { 409u16 }, message@),
{
    error_response(if requires_recovery { 401 } else { 409 }, message)
}

/// The answer when the task was cancelled while the projects were read.
pub fn project_operation_cancelled_response() -> (r: ApiResponse)
    ensures
        is_error_response(r, 409, "项目操作已取消"@),
{
    error_response(409, "项目操作已取消")
}

// ---------------------------------------------------------------------------
// The projects of the account

/// A project as the listing shows it. `last_updated` is its JSON value.
pub struct ProjectSummary {
    pub id: String,
    pub name: String,
    pub owner_email: Option<String>,
    pub owner_name: Option<String>,
    pub is_owner: bool,
    pub last_updated: String,
    pub archived: bool,
    pub trashed: bool,
}

pub open spec fn json_bool(b: bool) -> Seq<char> {
    if b {
        "true"@
    } else {
        "false"@
    }
}

/// A project in the listing, its keys in order as `serde_json` writes an
/// object.
pub open spec fn project_json(p: ProjectSummary) -> Seq<char> {
    "{\"archived\":"@ + json_bool(p.archived) + ",\"id\":"@ + json_quoted(p.id@) + ",\"is_owner\":"@
        + json_bool(p.is_owner) + ",\"last_updated\":"@ + p.last_updated@ + ",\"name\":"@ + json_quoted(p.name@)
        + ",\"owner\":"@ + match p.owner_email {
        Some(e) => json_quoted(e@),
        None => match p.owner_name {
            Some(n) => json_quoted(n@),
            None => "null"@,
        },
    } + ",\"trashed\":"@ + json_bool(p.trashed) + "}"@
}

/// The projects, separated by commas.
pub open spec fn projects_json(ps: Seq<ProjectSummary>) -> Seq<char>
    decreases ps.len(),
{
    if ps.len() == 0 {
        Seq::empty()
    } else if ps.len() == 1 {
        project_json(ps[0])
    } else {
        projects_json(ps.drop_last()) + ","@ + project_json(ps.last())
    }
}

fn bool_text(b: bool) -> (r: &'static str)
    ensures
        r@ == json_bool(b),
{
    if b {
        "true"
    } else {
        "false"
    }
}

fn one_project_json(p: &ProjectSummary) -> (r: String)
    ensures
        r@ == project_json(*p),
{
    let owner = match &p.owner_email {
        Some(e) => json_string(e.as_str()),
        None => match &p.owner_name {
            Some(n) => json_string(n.as_str()),
            None => owned("null"),
        },
    };
    let a = concat5("{\"archived\":", bool_text(p.archived), ",\"id\":", json_string(p.id.as_str()).as_str(), ",\"is_owner\":");
    let b = concat5(bool_text(p.is_owner), ",\"last_updated\":", p.last_updated.as_str(), ",\"name\":", json_string(p.name.as_str()).as_str());
    let c = concat5(",\"owner\":", owner.as_str(), ",\"trashed\":", bool_text(p.trashed), "}");
    let r = concat3(a.as_str(), b.as_str(), c.as_str());
    assert(r@ =~= project_json(*p));
    r
}

/// `{"alias":..,"projects":[..]}`: the listing of the account's projects.
pub fn project_list_body(alias: &str, projects: &Vec<ProjectSummary>) -> (r: String)
    ensures
        r@ == "{\"alias\":"@ + json_quoted(alias@) + ",\"projects\":["@ + projects_json(projects@) + "]}"@,
{
    let mut items = String::new();
    let mut i: usize = 0;
    assert(items@ =~= projects_json(projects@.subrange(0, 0)));
    while i < projects.len()
        invariant
            i <= projects@.len(),
            items@ == projects_json(projects@.subrange(0, i as int)),
        decreases projects.len() - i,
    {
        let one = one_project_json(&projects[i]);
        let ghost sub = projects@.subrange(0, i + 1);
        assert(sub.drop_last() =~= projects@.subrange(0, i as int));
        if i == 0 {
            items = one;
            assert(items@ =~= projects_json(sub));
        } else {
            items = concat3(items.as_str(), ",", one.as_str());
            assert(items@ =~= projects_json(sub));
        }
        i = i + 1;
    }
    assert(projects@.subrange(0, projects@.len() as int) =~= projects@);
    let q = json_string(alias);
    let r = concat5("{\"alias\":", q.as_str(), ",\"projects\":[", items.as_str(), "]}");
    r
}

/// The project a request acts on, by id; renaming and deleting are for the
/// project's owner only.
pub open spec fn target_check(projects: Seq<ProjectSummary>, id: Seq<char>, action: ProjectAction) -> Result<int, (u16, Seq<char>)> {
    if !(exists|i: int| 0 <= i < projects.len() && projects[i].id@ == id) {
        Err((404, "项目已不在账号中，请刷新列表"@))
    } else {
        let i = choose|i: int| 0 <= i < projects.len() && projects[i].id@ == id && forall|j: int| 0 <= j < i ==> projects[j].id@ != id;
        if (action is Rename || action is Delete) && !projects[i].is_owner {
            Err((403, "只有项目所有者可以执行此操作"@))
        } else {
            Ok(i)
        }
    }
}

/// Finds the first project with the id the request names and checks that
/// the action is allowed on it; `Ok` holds its position.
pub fn project_target(projects: &Vec<ProjectSummary>, id: &str, action: ProjectAction) -> (r: Result<usize, ApiResponse>)
    ensures
        match target_check(projects@, id@, action) {
            Ok(i) => r == Ok::<usize, ApiResponse>(i as usize),
            Err((status, message)) => r matches Err(e) && is_error_response(e, status, message),
        },
{
    let mut i: usize = 0;
    while i < projects.len()
        invariant
            i <= projects@.len(),
            forall|j: int| 0 <= j < i ==> projects@[j].id@ != id@,
        decreases projects.len() - i,
    {
        if text_eq(projects[i].id.as_str(), id) {
            let ghost want = choose|k: int| 0 <= k < projects@.len() && projects@[k].id@ == id@ && forall|j: int| 0 <= j < k ==> projects@[j].id@ != id@;
            proof {
                assert(0 <= i < projects@.len() && projects@[i as int].id@ == id@ && forall|j: int| 0 <= j < i ==> projects@[j].id@ != id@);
                if want < i {
                    assert(projects@[want].id@ != id@);
                } else if want > i {
                    assert(projects@[i as int].id@ != id@);
                }
            }
            if (action == ProjectAction::Rename || action == ProjectAction::Delete) && !projects[i].is_owner {
                return Err(error_response(403, "只有项目所有者可以执行此操作"));
            }
            return Ok(i);
        }
        i = i + 1;
    }
    Err(error_response(404, "项目已不在账号中，请刷新列表"))
}

/// The name a request gives, trimmed, when it is not blank.
pub fn project_new_name(name: Option<&str>) -> (r: Option<String>)
    ensures
        (match r { Some(n) => Some(n@), None => None }) == (match name {
            Some(n) => if trimmed(n@).len() > 0 { Some(trimmed(n@)) } else { None },
            None => None,
        }),
{
    match name {
        Some(n) => {
            let t = trim(n);
            if is_empty_text(t.as_str()) {
                None
            } else {
                Some(t)
            }
        },
        None => None,
    }
}

/// A rename needs a name.
pub fn rename_name_missing_response() -> (r: ApiResponse)
    ensures
        is_error_response(r, 400, "项目名不能为空"@),
{
    error_response(400, "项目名不能为空")
}

/// A project is deleted only from the trash and only when the request
/// repeats its name.
pub fn delete_is_confirmed(project: &ProjectSummary, confirm_name: Option<&str>) -> (r: Result<(), ApiResponse>)
    ensures
        r is Ok <==> (project.trashed && (confirm_name matches Some(c) && c@ == project.name@)),
        r matches Err(e) ==> is_error_response(e, 409, "请在回收站确认项目名称后删除"@),
{
    let confirmed = match confirm_name {
        Some(c) => text_eq(c, project.name.as_str()),
        None => false,
    };
    if project.trashed && confirmed {
        Ok(())
    } else {
        Err(error_response(409, "请在回收站确认项目名称后删除"))
    }
}

/// `{"completed":true}`, or with the id of the copy.
pub fn project_completed_body(copied_id: Option<&str>) -> (r: String)
    ensures
        match copied_id {
            Some(id) => r@ == "{\"completed\":true,\"project_id\":"@ + json_quoted(id@) + "}"@,
            None => r@ == "{\"completed\":true}"@,
        },
{
    match copied_id {
        Some(id) => {
            let q = json_string(id);
            concat3("{\"completed\":true,\"project_id\":", q.as_str(), "}")
        },
        None => owned("{\"completed\":true}"),
    }
}

/// Where the zip of a project is downloaded from.
pub fn project_zip_path(id: &str) -> (r: String)
    ensures
        r@ == "/project/"@ + id@ + "/download/zip"@,
{
    concat3("/project/", id, "/download/zip")
}

// ---------------------------------------------------------------------------
// The compiled PDF's address

/// What `Url::join` gives for `reference` against `https://www.overleaf.com`,
/// as text; `None` when it does not parse.
pub uninterp spec fn overleaf_url_join(reference: Seq<char>) -> Option<Seq<char>>;

/// The keys of the query pairs of the URL `url`, in order; `None` when it
/// does not parse.
pub uninterp spec fn url_query_keys(url: Seq<char>) -> Option<Seq<Seq<char>>>;

/// The URL `url` with the pair `key=value` appended to its query by
/// `append_pair`; `None` when it does not parse.
pub uninterp spec fn url_with_pair(url: Seq<char>, key: Seq<char>, value: Seq<char>) -> Option<Seq<char>>;

pub open spec fn opt_seq(o: Option<String>) -> Option<Seq<char>> {
    match o {
        Some(s) => Some(s@),
        None => None,
    }
}

/// `reqwest::Url::parse` of the Overleaf origin, then `Url::join` with
/// `reference`, written back with `to_string`. The origin always parses;
/// the result is named by `overleaf_url_join` on the reference.
#[verifier::external_body]
fn join_overleaf_url(reference: &str) -> (r: Option<String>)
    ensures
        opt_seq(r) == overleaf_url_join(reference@),
{
    match reqwest::Url::parse("https://www.overleaf.com") {
        Ok(base) => base.join(reference).ok().map(|u| u.to_string()),
        Err(_) => None,
    }
}

/// `reqwest::Url::parse` of `url`, then the keys of `query_pairs`, each
/// decoded into an owned text; named by `url_query_keys`.
#[verifier::external_body]
fn query_keys(url: &str) -> (r: Option<Vec<String>>)
    ensures
        match r {
            Some(v) => url_query_keys(url@) == Some(v@.map_values(|k: String| k@)),
            None => url_query_keys(url@) is None,
        },
{
    match reqwest::Url::parse(url) {
        Ok(u) => Some(u.query_pairs().map(|(k, _)| k.into_owned()).collect()),
        Err(_) => None,
    }
}

/// `reqwest::Url::parse` of `url`, `query_pairs_mut().append_pair(key,
/// value)`, then `to_string`; named by `url_with_pair`.
#[verifier::external_body]
fn append_query_pair(url: &str, key: &str, value: &str) -> (r: Option<String>)
    ensures
        opt_seq(r) == url_with_pair(url@, key@, value@),
{
    match reqwest::Url::parse(url) {
        Ok(mut u) => {
            u.query_pairs_mut().append_pair(key, value);
            Some(u.to_string())
        },
        Err(_) => None,
    }
}

/// Where the compiled PDF is downloaded from: the output file's address
/// joined onto the Overleaf origin, with the compile server's id added to
/// the query when the address carries none.
pub open spec fn pdf_download_url(output_url: Option<Seq<char>>, clsi_server: Option<Seq<char>>) -> Result<Seq<char>, (u16, Seq<char>)> {
    match output_url {
        None => Err((409, "编译未生成 PDF，请检查项目源码"@)),
        Some(u) => match overleaf_url_join(u) {
            None => Err((502, "编译返回的下载地址无效"@)),
            Some(joined) => {
                let has_server = match url_query_keys(joined) {
                    Some(keys) => keys.contains("clsiserverid"@),
                    None => false,
                };
                if has_server {
                    Ok(joined)
                } else {
                    match clsi_server {
                        Some(s) => match url_with_pair(joined, "clsiserverid"@, s) {
                            Some(v) => Ok(v),
                            None => Ok(joined),
                        },
                        None => Ok(joined),
                    }
                }
            },
        },
    }
}

fn contains_key(keys: &Vec<String>, key: &str) -> (r: bool)
    ensures
        r == keys@.map_values(|k: String| k@).contains(key@),
{
    let ghost ks = keys@.map_values(|k: String| k@);
    let mut i: usize = 0;
    while i < keys.len()
        invariant
            i <= keys@.len(),
            ks == keys@.map_values(|k: String| k@),
            forall|j: int| 0 <= j < i ==> ks[j] != key@,
        decreases keys.len() - i,
    {
        if text_eq(keys[i].as_str(), key) {
            assert(ks[i as int] == key@);
            return true;
        }
        i = i + 1;
    }
    false
}

/// The download address of the compiled PDF, from the address of the
/// `output.pdf` file the compile listed and the compile server's id.
pub fn project_pdf_url(output_url: Option<&str>, clsi_server: Option<&str>) -> (r: Result<String, ApiResponse>)
    ensures
        match pdf_download_url(opt_text(output_url), opt_text(clsi_server)) {
            Ok(u) => r matches Ok(x) && x@ == u,
            Err((status, message)) => r matches Err(e) && is_error_response(e, status, message),
        },
{
    let u = match output_url {
        Some(u) => u,
        None => {
            return Err(error_response(409, "编译未生成 PDF，请检查项目源码"));
        },
    };
    let joined = match join_overleaf_url(u) {
        Some(j) => j,
        None => {
            return Err(error_response(502, "编译返回的下载地址无效"));
        },
    };
    let has_server = match query_keys(joined.as_str()) {
        Some(keys) => contains_key(&keys, "clsiserverid"),
        None => false,
    };
    if has_server {
        return Ok(joined);
    }
    match clsi_server {
        Some(s) => match append_query_pair(joined.as_str(), "clsiserverid", s) {
            Some(v) => Ok(v),
            None => Ok(joined),
        },
        None => Ok(joined),
    }
}

// ---------------------------------------------------------------------------
// The downloaded file

/// The character of a 6-bit value in the standard base64 alphabet
/// (`A`-`Z`, `a`-`z`, `0`-`9`, `+`, `/`).
pub open spec fn base64_char(v: nat) -> char {
    if v < 26 {
        (65 + v) as char
    } else if v < 52 {
        (97 + (v - 26)) as char
    } else if v < 62 {
        (48 + (v - 52)) as char
    } else if v == 62 {
        '+'
    } else {
        '/'
    }
}

/// Standard base64 with padding (RFC 4648): every three bytes become four
/// characters of six bits each, most significant first; a final one or two
/// bytes are padded with zero bits and the group filled up with `=`.
pub open spec fn base64_standard(b: Seq<u8>) -> Seq<char>
    decreases b.len(),
{
    if b.len() == 0 {
        Seq::empty()
    } else if b.len() == 1 {
        let n = b[0] as nat;
        seq![base64_char(n / 4), base64_char((n % 4) * 16), '=', '=']
    } else if b.len() == 2 {
        let n = (b[0] as nat) * 256 + (b[1] as nat);
        seq![base64_char(n / 1024), base64_char((n / 16) % 64), base64_char((n % 16) * 4), '=']
    } else {
        let n = (b[0] as nat) * 65536 + (b[1] as nat) * 256 + (b[2] as nat);
        seq![base64_char(n / 262144), base64_char((n / 4096) % 64), base64_char((n / 64) % 64), base64_char(n % 64)]
            + base64_standard(b.skip(3))
    }
}

/// `base64::engine::general_purpose::STANDARD.encode`: the standard,
/// padded base64 of the bytes. It panics only when the encoded length
/// overflows `usize`, which the bound rules out.
#[verifier::external_body]
fn base64_encode(bytes: &[u8]) -> (r: String)
    requires
        bytes@.len() <= usize::MAX / 2,
    ensures
        r@ == base64_standard(bytes@),
{
    base64::engine::general_purpose::STANDARD.encode(bytes)
}

/// The file starts with the magic of its kind: `%PDF-` for a PDF, `PK` for
/// a zip archive.
pub open spec fn has_magic(bytes: Seq<u8>, pdf: bool) -> bool {
    if pdf {
        seq![37u8, 80u8, 68u8, 70u8, 45u8].is_prefix_of(bytes)
    } else {
        seq![80u8, 75u8].is_prefix_of(bytes)
    }
}

/// The answer with a downloaded project file: `{"content_type":..,
/// "data":<base64>,"filename":<name>.pdf|zip}`, or 502 when the bytes are
/// not a file of the kind asked for.
pub fn project_file_body(project_name: &str, pdf: bool, bytes: &Vec<u8>) -> (r: Result<String, ApiResponse>)
    requires
        bytes@.len() <= usize::MAX / 2,
    ensures
        !has_magic(bytes@, pdf) ==> (r matches Err(e) && is_error_response(e, 502, "下载内容不是有效的项目文件"@)),
        has_magic(bytes@, pdf) ==> (r matches Ok(b) && b@ == "{\"content_type\":"@
            + json_quoted(if pdf { "application/pdf"@ } else { "application/zip"@ }) + ",\"data\":"@
            + json_quoted(base64_standard(bytes@)) + ",\"filename\":"@
            + json_quoted(project_name@ + "."@ + if pdf { "pdf"@ } else { "zip"@ }) + "}"@),
{
    let ok = if pdf {
        bytes.len() >= 5 && bytes[0] == 37u8 && bytes[1] == 80u8 && bytes[2] == 68u8 && bytes[3] == 70u8 && bytes[4] == 45u8
    } else {
        bytes.len() >= 2 && bytes[0] == 80u8 && bytes[1] == 75u8
    };
    proof {
        if pdf {
            if bytes@.len() >= 5 {
                assert(ok == (seq![37u8, 80u8, 68u8, 70u8, 45u8] =~= bytes@.subrange(0, 5)));
            }
        } else {
            if bytes@.len() >= 2 {
                assert(ok == (seq![80u8, 75u8] =~= bytes@.subrange(0, 2)));
            }
        }
    }
    if !ok {
        return Err(error_response(502, "下载内容不是有效的项目文件"));
    }
    let content_type = if pdf { "application/pdf" } else { "application/zip" };
    let ext = if pdf { "pdf" } else { "zip" };
    let data = base64_encode(bytes.as_slice());
    let filename = concat3(project_name, ".", ext);
    let ct = json_string(content_type);
    let d = json_string(data.as_str());
    let f = json_string(filename.as_str());
    let head = concat5("{\"content_type\":", ct.as_str(), ",\"data\":", d.as_str(), ",\"filename\":");
    Ok(concat3(head.as_str(), f.as_str(), "}"))
}

// ---------------------------------------------------------------------------
// How the project task ends

/// The value of the `error` key of a JSON object text, when it is a string.
pub uninterp spec fn json_error_field(body: Seq<char>) -> Option<Seq<char>>;

/// `serde_json::from_str` into a `Value`, then `v["error"].as_str()`, owned;
/// named by `json_error_field`.
#[verifier::external_body]
fn error_field_of(body: &str) -> (r: Option<String>)
    ensures
        opt_seq(r) == json_error_field(body@),
{
    serde_json::from_str::<serde_json::Value>(body).ok().and_then(|v| v["error"].as_str().map(str::to_owned))
}

/// How a project task ends.
pub enum ProjectTaskEnd {
    /// Complete the task with `项目操作完成`.
    Complete,
    /// The user cancelled: cancel the task with `项目操作已取消`.
    Cancel,
    /// Fail the task with this message.
    Fail(String),
}

/// A cancelled operation (answered 409 while the task's cancel was asked)
/// cancels the task; any other failure fails it with the error of the
/// answer's body, or `项目操作失败`.
pub fn project_task_end(result: &Result<ApiResponse, ApiResponse>, cancel_requested: bool) -> (r: ProjectTaskEnd)
    ensures
        result is Ok ==> r is Complete,
        result matches Err(e) ==> (e.status_code == 409 && cancel_requested ==> r is Cancel),
        result matches Err(e) ==> (!(e.status_code == 409 && cancel_requested) ==> (r matches ProjectTaskEnd::Fail(m)
            && m@ == match json_error_field(e.body@) { Some(x) => x, None => "项目操作失败"@ })),
{
    match result {
        Ok(_) => ProjectTaskEnd::Complete,
        Err(e) => {
            if e.status_code == 409 && cancel_requested {
                ProjectTaskEnd::Cancel
            } else {
                match error_field_of(e.body.as_str()) {
                    Some(m) => ProjectTaskEnd::Fail(m),
                    None => ProjectTaskEnd::Fail(owned("项目操作失败")),
                }
            }
        },
    }
}

/// The result a completed project task records: `{"alias":..,"completed":true}`.
pub fn project_task_result(alias: &str) -> (r: String)
    ensures
        r@ == "{\"alias\":"@ + json_quoted(alias@) + ",\"completed\":true}"@,
{
    let q = json_string(alias);
    concat3("{\"alias\":", q.as_str(), ",\"completed\":true}")
}

/// How a remote project cleanup task ends.
#[derive(Debug, Clone, Copy, PartialEq, Eq)]
pub enum RemoteCleanupEnd {
    /// The user cancelled it: what was done stays.
    Cancel(&'static str),
    Complete(&'static str),
    /// Fail the task, keeping the report as its result.
    Fail(&'static str),
}

/// The end of a remote cleanup: a cancel request wins; otherwise any
/// failed or incomplete project (counts read from the report, absent ones
/// counting as none) fails the task.
pub fn remote_cleanup_end(cancel_requested: bool, failed_count: Option<u64>, incomplete_count: Option<u64>) -> (r:
    RemoteCleanupEnd)
    ensures
        cancel_requested ==> r == RemoteCleanupEnd::Cancel("远端项目处理已取消，已完成的操作保留"),
        !cancel_requested && ((failed_count matches Some(f) && f > 0) || (incomplete_count matches Some(n) && n > 0))
            ==> r == RemoteCleanupEnd::Fail("远端项目处理未完全完成"),
        !cancel_requested && !((failed_count matches Some(f) && f > 0) || (incomplete_count matches Some(n) && n
            > 0)) ==> r == RemoteCleanupEnd::Complete("远端项目处理完成"),
{
    if cancel_requested {
        return RemoteCleanupEnd::Cancel("远端项目处理已取消，已完成的操作保留");
    }
    let failed = match failed_count {
        Some(f) => f,
        None => 0,
    };
    let incomplete = match incomplete_count {
        Some(n) => n,
        None => 0,
    };
    if failed > 0 || incomplete > 0 {
        RemoteCleanupEnd::Fail("远端项目处理未完全完成")
    } else {
        RemoteCleanupEnd::Complete("远端项目处理完成")
    }
}

/// Which project a request acts on: the first project with the id it
/// names; none gives 404; renaming or deleting a project the account does
/// not own gives 403, whatever else; every other request on an existing
/// project is allowed.
pub proof fn project_target_is_first_match_and_owner_only(projects: Seq<ProjectSummary>, id: Seq<char>, action: ProjectAction)
    ensures
        target_check(projects, id, action) matches Ok(i) ==> (0 <= i < projects.len() && projects[i].id@ == id
            && (forall|j: int| 0 <= j < i ==> projects[j].id@ != id)
            && ((action is Rename || action is Delete) ==> projects[i].is_owner)),
        forall|i: int| 0 <= i < projects.len() && projects[i].id@ == id
            && (forall|j: int| 0 <= j < i ==> projects[j].id@ != id) ==> (
                if (action is Rename || action is Delete) && !projects[i].is_owner {
                    target_check(projects, id, action) == Err::<int, (u16, Seq<char>)>((403, "只有项目所有者可以执行此操作"@))
                } else {
                    target_check(projects, id, action) == Ok::<int, (u16, Seq<char>)>(i)
                }),
        (forall|i: int| 0 <= i < projects.len() ==> projects[i].id@ != id) ==> target_check(projects, id, action)
            == Err::<int, (u16, Seq<char>)>((404, "项目已不在账号中，请刷新列表"@)),
{
    if exists|i: int| 0 <= i < projects.len() && projects[i].id@ == id {
        let k = choose|i: int| 0 <= i < projects.len() && projects[i].id@ == id && forall|j: int| 0 <= j < i ==> projects[j].id@ != id;
        assert(exists|i: int| 0 <= i < projects.len() && projects[i].id@ == id && forall|j: int| 0 <= j < i ==> projects[j].id@ != id) by {
            lemma_first_match_exists(projects, id);
        }
        assert forall|i: int| 0 <= i < projects.len() && projects[i].id@ == id
            && (forall|j: int| 0 <= j < i ==> projects[j].id@ != id) implies i == k by {
            if i < k {
                assert(projects[i].id@ != id);
            } else if k < i {
                assert(projects[k].id@ != id);
            }
        }
    }
}

proof fn lemma_first_match_exists(projects: Seq<ProjectSummary>, id: Seq<char>)
    requires
        exists|i: int| 0 <= i < projects.len() && projects[i].id@ == id,
    ensures
        exists|i: int| 0 <= i < projects.len() && projects[i].id@ == id && forall|j: int| 0 <= j < i ==> projects[j].id@ != id,
    decreases projects.len(),
{
    if projects[0].id@ == id {
        assert(0 < projects.len() && projects[0].id@ == id && forall|j: int| 0 <= j < 0 ==> projects[j].id@ != id);
    } else {
        let w = choose|i: int| 0 <= i < projects.len() && projects[i].id@ == id;
        let rest = projects.drop_first();
        assert(rest[w - 1] == projects[w]);
        lemma_first_match_exists(rest, id);
        let k = choose|i: int| 0 <= i < rest.len() && rest[i].id@ == id && forall|j: int| 0 <= j < i ==> rest[j].id@ != id;
        assert(projects[k + 1] == rest[k]);
        assert forall|j: int| 0 <= j < k + 1 implies projects[j].id@ != id by {
            if j > 0 {
                assert(projects[j] == rest[j - 1]);
            }
        }
    }
}

} // verus!
