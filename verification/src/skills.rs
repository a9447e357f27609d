//! The Overleaf skills of the coding agents: where each agent keeps them,
//! whether they are installed, how the installer is run, and the report of
//! handing an account's credentials to the installed skills.

use vstd::prelude::*;
use crate::credential_job::StageLog;
use crate::response::{error_response, is_error_response, ApiResponse};
use crate::target::{before_char, split_at_char};
use crate::text::{
    ascii_lower, chars_of, concat2, concat3, is_empty_text, owned, string_of_range,
    text_eq, to_ascii_lower, trim, trimmed,
};

verus! {

/// A coding agent that can hold the Overleaf skills, named as it is
/// serialized.
#[allow(non_camel_case_types)]
#[derive(Debug, Clone, Copy, PartialEq, Eq, Structural)]
pub enum SkillAgent {
    codex,
    claude,
}

pub open spec fn agent_home_variable(agent: SkillAgent) -> Seq<char> {
    match agent {
        SkillAgent::codex => "CODEX_HOME"@,
        SkillAgent::claude => "CLAUDE_CONFIG_DIR"@,
    }
}

/// The agent's name: the first word of its variable, in lower case.
pub open spec fn agent_name(agent: SkillAgent) -> Seq<char> {
    ascii_lower(before_char(agent_home_variable(agent), '_'))
}

impl SkillAgent {
    /// The agent's name, as serialized.
    pub fn name(self) -> (r: String)
        ensures
            r@ == agent_name(self),
    {
        let (word, _) = split_at_char(self.home_variable(), '_');
        to_ascii_lower(word.as_str())
    }

    /// The environment variable that overrides the agent's home.
    pub fn home_variable(self) -> (r: &'static str)
        ensures
            r@ == agent_home_variable(self),
    {
        match self {
            SkillAgent::codex => "CODEX_HOME",
            SkillAgent::claude => "CLAUDE_CONFIG_DIR",
        }
    }
}

/// The message when no user home directory is known.
pub open spec fn missing_home_text() -> Seq<char> {
    "未找到用户目录"@
}

/// The path conventions of the platform the service runs on: on Unix `/`
/// separates components; on Windows `/` and `\` both do, and a path may
/// start with a drive (`C:`) or with `\\` (a share, a verbatim or a device
/// path).
#[derive(Debug, Clone, Copy, PartialEq, Eq, Structural)]
pub enum PathStyle {
    Unix,
    Windows,
}

pub open spec fn is_separator(style: PathStyle, c: char) -> bool {
    c == '/' || (style == PathStyle::Windows && c == '\\')
}

/// The separator that joining inserts.
pub open spec fn main_separator(style: PathStyle) -> char {
    match style {
        PathStyle::Unix => '/',
        PathStyle::Windows => '\\',
    }
}

pub open spec fn is_ascii_letter(c: char) -> bool {
    ('a' <= c && c <= 'z') || ('A' <= c && c <= 'Z')
}

/// `p` starts with a drive such as `C:` (Windows only).
pub open spec fn has_drive(style: PathStyle, p: Seq<char>) -> bool {
    style == PathStyle::Windows && p.len() >= 2 && is_ascii_letter(p[0]) && p[1] == ':'
}

/// `p` starts with `\\`: a share, a verbatim or a device path (Windows only).
pub open spec fn has_share_prefix(style: PathStyle, p: Seq<char>) -> bool {
    style == PathStyle::Windows && p.len() >= 2 && p[0] == '\\' && p[1] == '\\'
}

/// `Path::is_absolute`: on Unix a path starting with `/`; on Windows one
/// starting with `\\`, or with a drive followed by a separator.
pub open spec fn is_absolute_path(style: PathStyle, p: Seq<char>) -> bool {
    match style {
        PathStyle::Unix => p.len() > 0 && p[0] == '/',
        PathStyle::Windows => has_share_prefix(style, p) || (has_drive(style, p) && p.len() >= 3
            && is_separator(style, p[2])),
    }
}

/// `rel` joined onto `base` as `Path::join` does: an absolute `rel`, or one
/// with a drive, replaces `base`; a `rel` that starts with a separator keeps
/// only the drive of `base`; otherwise a separator goes between them unless
/// `base` is empty, ends with a separator or is a bare drive such as `C:`.
/// (A `base` that starts with `\\` is given no prefix to keep here, and a
/// verbatim `base` gets `rel` appended as it is.)
pub open spec fn path_join(style: PathStyle, base: Seq<char>, rel: Seq<char>) -> Seq<char> {
    if is_absolute_path(style, rel) || has_drive(style, rel) {
        rel
    } else if rel.len() > 0 && is_separator(style, rel[0]) {
        if has_drive(style, base) {
            base.take(2) + rel
        } else {
            rel
        }
    } else if base.len() == 0 || is_separator(style, base.last()) || (has_drive(style, base)
        && base.len() == 2) {
        base + rel
    } else {
        base + seq![main_separator(style)] + rel
    }
}

fn separator(style: PathStyle, c: char) -> (r: bool)
    ensures
        r == is_separator(style, c),
{
    c == '/' || (style == PathStyle::Windows && c == '\\')
}

fn drive_prefixed(style: PathStyle, v: &Vec<char>) -> (r: bool)
    ensures
        r == has_drive(style, v@),
{
    style == PathStyle::Windows && v.len() >= 2 && (('a' <= v[0] && v[0] <= 'z') || ('A' <= v[0]
        && v[0] <= 'Z')) && v[1] == ':'
}

fn absolute(style: PathStyle, v: &Vec<char>) -> (r: bool)
    ensures
        r == is_absolute_path(style, v@),
{
    match style {
        PathStyle::Unix => v.len() > 0 && v[0] == '/',
        PathStyle::Windows => (v.len() >= 2 && v[0] == '\\' && v[1] == '\\') || (drive_prefixed(
            style,
            v,
        ) && v.len() >= 3 && separator(style, v[2])),
    }
}

/// Joins `rel` onto `base`.
pub fn join_path(style: PathStyle, base: &str, rel: &str) -> (r: String)
    ensures
        r@ == path_join(style, base@, rel@),
{
    let b = chars_of(base);
    let v = chars_of(rel);
    if absolute(style, &v) || drive_prefixed(style, &v) {
        owned(rel)
    } else if v.len() > 0 && separator(style, v[0]) {
        if drive_prefixed(style, &b) {
            let drive = string_of_range(&b, 0, 2);
            assert(b@.subrange(0, 2) =~= b@.take(2));
            concat2(drive.as_str(), rel)
        } else {
            owned(rel)
        }
    } else if b.len() == 0 || separator(style, b[b.len() - 1]) || (drive_prefixed(style, &b)
        && b.len() == 2) {
        concat2(base, rel)
    } else {
        let sep = match style {
            PathStyle::Unix => "/",
            PathStyle::Windows => "\\",
        };
        proof {
            reveal_strlit("/");
            reveal_strlit("\\");
            assert(sep@ =~= seq![main_separator(style)]);
        }
        concat3(base, sep, rel)
    }
}

/// `s` without leading and trailing separators.
pub open spec fn strip_separators(style: PathStyle, s: Seq<char>) -> Seq<char>
    decreases s.len(),
{
    if s.len() > 0 && is_separator(style, s[0]) {
        strip_separators(style, s.drop_first())
    } else if s.len() > 0 && is_separator(style, s.last()) {
        strip_separators(style, s.drop_last())
    } else {
        s
    }
}

/// The part of a `~` path after the home directory: `Some` for `~` itself
/// and for `~` followed by a separator, whose remainder loses its leading
/// and trailing separators.
pub open spec fn tilde_tail(style: PathStyle, path: Seq<char>) -> Option<Seq<char>> {
    if path == "~"@ {
        Some(Seq::empty())
    } else if path.len() >= 2 && path[0] == '~' && is_separator(style, path[1]) {
        Some(strip_separators(style, path.skip(2)))
    } else {
        None
    }
}

/// A path given by the user, as the service resolves it: `~` is the user's
/// home, and a path that is not absolute lies under the current directory.
pub open spec fn resolved_user_path(
    style: PathStyle,
    path: Seq<char>,
    user_home: Option<Seq<char>>,
    current_dir: Result<Seq<char>, Seq<char>>,
) -> Result<Seq<char>, Seq<char>> {
    let expanded: Result<Seq<char>, Seq<char>> = match tilde_tail(style, path) {
        Some(tail) => match user_home {
            Some(h) => Ok(path_join(style, h, tail)),
            None => Err(missing_home_text()),
        },
        None => Ok(path),
    };
    match expanded {
        Err(e) => Err(e),
        Ok(p) => if is_absolute_path(style, p) {
            Ok(p)
        } else {
            match current_dir {
                Ok(d) => Ok(path_join(style, d, p)),
                Err(e) => Err(e),
            }
        },
    }
}

fn strip_separators_exec(style: PathStyle, v: &Vec<char>, from: usize) -> (r: String)
    requires
        from <= v@.len(),
    ensures
        r@ == strip_separators(style, v@.skip(from as int)),
{
    let mut a: usize = from;
    let n = v.len();
    assert(v@.subrange(from as int, n as int) =~= v@.skip(from as int));
    while a < n && separator(style, v[a])
        invariant
            from <= a <= n,
            n == v@.len(),
            strip_separators(style, v@.skip(from as int)) == strip_separators(style, v@.subrange(a as int, n as int)),
        decreases n - a,
    {
        assert(v@.subrange(a as int, n as int).drop_first() =~= v@.subrange(a + 1, n as int));
        a = a + 1;
    }
    let mut b: usize = n;
    while b > a && separator(style, v[b - 1])
        invariant
            from <= a <= b <= n,
            n == v@.len(),
            a < n ==> !is_separator(style, v@[a as int]),
            strip_separators(style, v@.skip(from as int)) == strip_separators(style, v@.subrange(a as int, b as int)),
        decreases b - a,
    {
        let ghost s = v@.subrange(a as int, b as int);
        assert(s.drop_last() =~= v@.subrange(a as int, b - 1));
        assert(s.len() > 0 && !is_separator(style, s[0]));
        b = b - 1;
    }
    let ghost s = v@.subrange(a as int, b as int);
    assert(s.len() > 0 ==> s[0] == v@[a as int] && s.last() == v@[b - 1]);
    string_of_range(v, a, b)
}

/// Resolves a path given by the user: `~` and `~/...` against the user's
/// home (an error when it is unknown), and a path that is not absolute
/// against the current directory (its error when it could not be read).
pub fn user_path(style: PathStyle, path: &str, user_home: Option<&str>, current_dir: Result<&str, &str>) -> (r: Result<String, String>)
    ensures
        (match r { Ok(p) => Ok(p@), Err(e) => Err(e@) }) == resolved_user_path(
            style,
            path@,
            match user_home { Some(h) => Some(h@), None => None },
            match current_dir { Ok(d) => Ok(d@), Err(e) => Err(e@) },
        ),
{
    proof {
        reveal_strlit("~");
    }
    let v = chars_of(path);
    let tail: Option<String> = if text_eq(path, "~") {
        Some(String::new())
    } else if v.len() >= 2 && v[0] == '~' && separator(style, v[1]) {
        Some(strip_separators_exec(style, &v, 2))
    } else {
        None
    };
    let expanded: String = match tail {
        Some(t) => match user_home {
            Some(h) => join_path(style, h, t.as_str()),
            None => {
                return Err(owned("未找到用户目录"));
            },
        },
        None => owned(path),
    };
    let e = chars_of(expanded.as_str());
    if absolute(style, &e) {
        Ok(expanded)
    } else {
        match current_dir {
            Ok(d) => Ok(join_path(style, d, expanded.as_str())),
            Err(err) => Err(owned(err)),
        }
    }
}

/// The agent's home: the directory its variable names when that is set
/// and not empty, else `.<name>` in the user's home.
pub open spec fn agent_home_spec(
    style: PathStyle,
    agent: SkillAgent,
    variable: Option<Seq<char>>,
    user_home: Option<Seq<char>>,
    current_dir: Result<Seq<char>, Seq<char>>,
) -> Result<Seq<char>, Seq<char>> {
    match variable {
        Some(v) if v.len() > 0 => resolved_user_path(style, v, user_home, current_dir),
        _ => match user_home {
            Some(h) => Ok(path_join(style, h, "."@ + agent_name(agent))),
            None => Err(missing_home_text()),
        },
    }
}

/// Where `agent` keeps its configuration, from the value of its variable,
/// the user's home and the current directory.
pub fn agent_home(
    style: PathStyle,
    agent: SkillAgent,
    variable: Option<&str>,
    user_home: Option<&str>,
    current_dir: Result<&str, &str>,
) -> (r: Result<String, String>)
    ensures
        (match r { Ok(p) => Ok(p@), Err(e) => Err(e@) }) == agent_home_spec(
            style,
            agent,
            match variable { Some(v) => Some(v@), None => None },
            match user_home { Some(h) => Some(h@), None => None },
            match current_dir { Ok(d) => Ok(d@), Err(e) => Err(e@) },
        ),
{
    if let Some(v) = variable {
        if !is_empty_text(v) {
            return user_path(style, v, user_home, current_dir);
        }
    }
    match user_home {
        Some(h) => {
            let dir = concat2(".", agent.name().as_str());
            Ok(join_path(style, h, dir.as_str()))
        },
        None => Err(owned("未找到用户目录")),
    }
}

/// Where the skills live under an agent's home.
pub open spec fn skill_dir_spec(style: PathStyle, home: Seq<char>) -> Seq<char> {
    path_join(style, home, "skills/overleaf-skills"@)
}

/// The skills' directory under `home`.
pub fn skill_dir(style: PathStyle, home: &str) -> (r: String)
    ensures
        r@ == skill_dir_spec(style, home@),
{
    join_path(style, home, "skills/overleaf-skills")
}

/// The two files whose presence makes the skills installed in `dir`: the
/// skill description and the script.
pub fn skill_marker_files(style: PathStyle, dir: &str) -> (r: (String, String))
    ensures
        r.0@ == path_join(style, dir@, "SKILL.md"@),
        r.1@ == path_join(style, dir@, "scripts/overleaf_skill.py"@),
{
    (join_path(style, dir, "SKILL.md"), join_path(style, dir, "scripts/overleaf_skill.py"))
}

/// What was found of one agent: its home when it could be resolved, and
/// whether the two marker files of its skills' directory are files.
pub struct SkillProbe {
    pub home: Option<String>,
    pub skill_file_present: bool,
    pub script_file_present: bool,
}

/// Whether, and where, an agent has the skills.
pub struct SkillInstallation {
    pub agent: SkillAgent,
    pub path: Option<String>,
    pub installed: bool,
}

pub open spec fn installation_matches(style: PathStyle, r: SkillInstallation, agent: SkillAgent, probe: SkillProbe) -> bool {
    &&& r.agent == agent
    &&& match probe.home {
        Some(h) => r.path matches Some(p) && p@ == skill_dir_spec(style, h@),
        None => r.path is None,
    }
    &&& r.installed == (probe.home is Some && probe.skill_file_present && probe.script_file_present)
}

/// The installation of `agent` that `probe` shows.
pub fn installation(style: PathStyle, agent: SkillAgent, probe: SkillProbe) -> (r: SkillInstallation)
    ensures
        installation_matches(style, r, agent, probe),
{
    let installed = probe.home.is_some() && probe.skill_file_present && probe.script_file_present;
    let path = match &probe.home {
        Some(h) => Some(skill_dir(style, h.as_str())),
        None => None,
    };
    SkillInstallation { agent, path, installed }
}

/// The skills of both agents, in that order.
pub fn installations(style: PathStyle, codex_probe: SkillProbe, claude_probe: SkillProbe) -> (r: Vec<SkillInstallation>)
    ensures
        r@.len() == 2,
        installation_matches(style, r@[0], SkillAgent::codex, codex_probe),
        installation_matches(style, r@[1], SkillAgent::claude, claude_probe),
{
    let mut r: Vec<SkillInstallation> = Vec::new();
    r.push(installation(style, SkillAgent::codex, codex_probe));
    r.push(installation(style, SkillAgent::claude, claude_probe));
    r
}

/// What the installer is asked to do.
#[derive(Debug, Clone, Copy, PartialEq, Eq, Structural)]
pub enum SkillAction {
    Install,
    Update,
    Uninstall,
}

pub open spec fn action_title(action: SkillAction) -> Seq<char> {
    match action {
        SkillAction::Install => "安装 Overleaf skills"@,
        SkillAction::Update => "更新 Overleaf skills"@,
        SkillAction::Uninstall => "卸载 Overleaf skills"@,
    }
}

pub open spec fn action_done_text(action: SkillAction) -> Seq<char> {
    match action {
        SkillAction::Install => "skills 已就绪"@,
        SkillAction::Update => "skills 已更新"@,
        SkillAction::Uninstall => "skills 已卸载，账号状态和缓存已保留"@,
    }
}

impl SkillAction {
    /// The title of the task that runs the action.
    pub fn title(self) -> (r: &'static str)
        ensures
            r@ == action_title(self),
    {
        match self {
            SkillAction::Install => "安装 Overleaf skills",
            SkillAction::Update => "更新 Overleaf skills",
            SkillAction::Uninstall => "卸载 Overleaf skills",
        }
    }

    /// The message when the installer succeeded.
    pub fn done_message(self) -> (r: &'static str)
        ensures
            r@ == action_done_text(self),
    {
        match self {
            SkillAction::Install => "skills 已就绪",
            SkillAction::Update => "skills 已更新",
            SkillAction::Uninstall => "skills 已卸载，账号状态和缓存已保留",
        }
    }
}

/// The task id of a skills request, trimmed; an empty one is answered 400.
pub fn skills_task_id(raw: &str) -> (r: Result<String, ApiResponse>)
    ensures
        trimmed(raw@).len() == 0 <==> r is Err,
        r matches Ok(id) ==> id@ == trimmed(raw@),
        r matches Err(resp) ==> is_error_response(resp, 400, "缺少任务编号"@),
{
    let id = trim(raw);
    if is_empty_text(id.as_str()) {
        Err(error_response(400, "缺少任务编号"))
    } else {
        Ok(id)
    }
}

/// The label under which a skills task is tracked: `skills:<agent>`.
pub fn skills_task_label(agent: SkillAgent) -> (r: String)
    ensures
        r@ == "skills:"@ + agent_name(agent),
{
    concat2("skills:", agent.name().as_str())
}

/// Installing over skills that already have their description is answered
/// at once with `skills 已安装`.
pub fn installer_already_done(action: SkillAction, skill_file_present: bool) -> (r: Option<&'static str>)
    ensures
        r is Some <==> (action is Install && skill_file_present),
        r matches Some(m) ==> m@ == "skills 已安装"@,
{
    if action == SkillAction::Install && skill_file_present {
        Some("skills 已安装")
    } else {
        None
    }
}

/// An uninstall runs the installer the skills brought along, when it is
/// there; everything else downloads a fresh one.
pub fn uses_local_installer(action: SkillAction, local_present: bool) -> (r: bool)
    ensures
        r == (action is Uninstall && local_present),
{
    action == SkillAction::Uninstall && local_present
}

/// The most bytes the downloaded installer may have.
pub const INSTALLER_SIZE_LIMIT: usize = 1048576;

/// The download is refused once a chunk would take it past the limit.
pub fn installer_chunk_exceeds(received: usize, chunk: usize) -> (r: bool)
    ensures
        r == (received + chunk > INSTALLER_SIZE_LIMIT),
{
    received > INSTALLER_SIZE_LIMIT || chunk > INSTALLER_SIZE_LIMIT - received
}

/// The installer's arguments after its path.
pub open spec fn installer_arguments_spec(agent: SkillAgent, action: SkillAction) -> Seq<Seq<char>> {
    let base = seq!["--agent"@, agent_name(agent)];
    match action {
        SkillAction::Install => base,
        SkillAction::Update => base.push("--update"@),
        SkillAction::Uninstall => base.push("--uninstall"@),
    }
}

/// The arguments the installer is run with, after its own path.
pub fn installer_arguments(agent: SkillAgent, action: SkillAction) -> (r: Vec<String>)
    ensures
        r@.map_values(|a: String| a@) == installer_arguments_spec(agent, action),
{
    let mut r: Vec<String> = Vec::new();
    r.push(owned("--agent"));
    r.push(agent.name());
    match action {
        SkillAction::Install => {},
        SkillAction::Update => r.push(owned("--update")),
        SkillAction::Uninstall => r.push(owned("--uninstall")),
    }
    assert(r@.map_values(|a: String| a@) =~= installer_arguments_spec(agent, action));
    r
}

/// The error of a failed installer: its error output, trimmed.
pub fn installer_failure_message(stderr_text: &str) -> (r: String)
    ensures
        r@ == trimmed(stderr_text@),
{
    trim(stderr_text)
}

// ---------------------------------------------------------------------------
// Handing an account to the installed skills

/// Why an account's credentials cannot be handed to the skills.
pub open spec fn sync_secret_error(loaded: bool, session: Option<Seq<char>>, token: Option<Seq<char>>) -> Option<Seq<char>> {
    if !loaded {
        Some("无法读取账号库"@)
    } else if session is None {
        Some("缺少可读取的 Cookie"@)
    } else if token is None {
        Some("缺少可读取的 Git token"@)
    } else if trimmed(session->0).len() == 0 || trimmed(token->0).len() == 0 {
        Some("Cookie 或 Git token 为空"@)
    } else {
        None
    }
}

/// The session cookie and Git token to hand over, or why there are none:
/// `loaded` tells whether the account store could be read, the secrets are
/// those that could be read.
pub fn sync_secrets(loaded: bool, session: Option<String>, token: Option<String>) -> (r: Result<(String, String), &'static str>)
    ensures
        ({
            let s = match session { Some(x) => Some(x@), None => None };
            let t = match token { Some(x) => Some(x@), None => None };
            match r {
                Ok((a, b)) => sync_secret_error(loaded, s, t) is None && Some(a@) == s && Some(b@) == t,
                Err(e) => sync_secret_error(loaded, s, t) == Some(e@),
            }
        }),
{
    if !loaded {
        return Err("无法读取账号库");
    }
    let session = match session {
        Some(s) => s,
        None => {
            return Err("缺少可读取的 Cookie");
        },
    };
    let token = match token {
        Some(t) => t,
        None => {
            return Err("缺少可读取的 Git token");
        },
    };
    let a = trim(session.as_str());
    let b = trim(token.as_str());
    if is_empty_text(a.as_str()) || is_empty_text(b.as_str()) {
        return Err("Cookie 或 Git token 为空");
    }
    Ok((session, token))
}

/// One line of the report of handing an account to the skills.
pub struct SkillSyncItem {
    pub agent: Option<SkillAgent>,
    pub success: bool,
    pub message: String,
}

/// The report of handing an account to the skills.
pub struct SkillSyncReport {
    pub failed_count: usize,
    pub items: Vec<SkillSyncItem>,
}

pub open spec fn sync_item_view(i: SkillSyncItem) -> (Option<SkillAgent>, bool, Seq<char>) {
    (i.agent, i.success, i.message@)
}

/// The line for one installed agent: saved, or not with the error's text.
pub open spec fn saved_item(agent: SkillAgent, saved: Result<(), Seq<char>>) -> (Option<SkillAgent>, bool, Seq<char>) {
    match saved {
        Ok(_) => (Some(agent), true, agent_name(agent) + " skills 账号已同步"@),
        Err(e) => (Some(agent), false, agent_name(agent) + " skills 账号未同步："@ + e),
    }
}

pub open spec fn saved_view(s: (SkillAgent, Result<(), String>)) -> (SkillAgent, Result<(), Seq<char>>) {
    (s.0, match s.1 { Ok(_) => Ok(()), Err(e) => Err(e@) })
}

/// The lines of the report: one per installed agent that was written to,
/// or a single failed line when nothing could be handed over.
pub open spec fn sync_items(
    secrets: Result<(), Seq<char>>,
    saved: Seq<(SkillAgent, Result<(), Seq<char>>)>,
) -> Seq<(Option<SkillAgent>, bool, Seq<char>)> {
    match secrets {
        Err(m) => seq![(None, false, "skills 账号未同步："@ + m + "；原有账号状态已保留"@)],
        Ok(_) => if saved.len() == 0 {
            seq![(None, false, "未安装 Overleaf skills，账号未同步"@)]
        } else {
            saved.map_values(|s: (SkillAgent, Result<(), Seq<char>>)| saved_item(s.0, s.1))
        },
    }
}

/// How many of the lines did not succeed.
pub open spec fn failed_lines(items: Seq<(Option<SkillAgent>, bool, Seq<char>)>) -> int
    decreases items.len(),
{
    if items.len() == 0 {
        0
    } else {
        failed_lines(items.drop_last()) + if items.last().1 { 0int } else { 1int }
    }
}

/// The report of handing an account to the skills: `secrets` is why the
/// credentials could not be read, if so; `saved` holds, for each installed
/// agent in order, whether its state file was written.
pub fn skills_sync_report(secrets: Result<(), &str>, saved: Vec<(SkillAgent, Result<(), String>)>) -> (r: SkillSyncReport)
    ensures
        ({
            let items = sync_items(
                match secrets { Ok(_) => Ok(()), Err(m) => Err(m@) },
                saved@.map_values(|s: (SkillAgent, Result<(), String>)| saved_view(s)),
            );
            &&& r.items@.map_values(|i: SkillSyncItem| sync_item_view(i)) == items
            &&& r.failed_count == failed_lines(items)
        }),
{
    let ghost sv = saved@.map_values(|s: (SkillAgent, Result<(), String>)| saved_view(s));
    let ghost want = sync_items(match secrets { Ok(_) => Ok(()), Err(m) => Err(m@) }, sv);
    let mut items: Vec<SkillSyncItem> = Vec::new();
    let mut failed: usize = 0;
    match secrets {
        Err(m) => {
            let message = concat3("skills 账号未同步：", m, "；原有账号状态已保留");
            items.push(SkillSyncItem { agent: None, success: false, message });
            failed = 1;
            assert(items@.map_values(|i: SkillSyncItem| sync_item_view(i)) =~= want);
            assert(want.drop_last() =~= Seq::empty());
            assert(failed_lines(want) == 1) by { reveal_with_fuel(failed_lines, 2); }
        },
        Ok(_) => {
            if saved.len() == 0 {
                items.push(SkillSyncItem { agent: None, success: false, message: owned("未安装 Overleaf skills，账号未同步") });
                failed = 1;
                assert(items@.map_values(|i: SkillSyncItem| sync_item_view(i)) =~= want);
                assert(want.drop_last() =~= Seq::empty());
                assert(failed_lines(want) == 1) by { reveal_with_fuel(failed_lines, 2); }
            } else {
                let mut i: usize = 0;
                while i < saved.len()
                    invariant
                        i <= saved@.len(),
                        sv == saved@.map_values(|s: (SkillAgent, Result<(), String>)| saved_view(s)),
                        failed <= i,
                        items@.map_values(|x: SkillSyncItem| sync_item_view(x)) == sv.subrange(0, i as int).map_values(|s: (SkillAgent, Result<(), Seq<char>>)| saved_item(s.0, s.1)),
                        failed == failed_lines(sv.subrange(0, i as int).map_values(|s: (SkillAgent, Result<(), Seq<char>>)| saved_item(s.0, s.1))),
                    decreases saved.len() - i,
                {
                    let agent = saved[i].0;
                    assert(sv[i as int] == saved_view(saved@[i as int]));
                    let ghost before = items@;
                    let ghost prev = sv.subrange(0, i as int).map_values(|s: (SkillAgent, Result<(), Seq<char>>)| saved_item(s.0, s.1));
                    let ghost next = sv.subrange(0, i + 1).map_values(|s: (SkillAgent, Result<(), Seq<char>>)| saved_item(s.0, s.1));
                    assert(next.drop_last() =~= prev);
                    assert(next[i as int] == saved_item(sv[i as int].0, sv[i as int].1));
                    let item = match &saved[i].1 {
                        Ok(_) => {
                            assert(sv[i as int].1 == Ok::<(), Seq<char>>(()));
                            SkillSyncItem { agent: Some(agent), success: true, message: concat2(agent.name().as_str(), " skills 账号已同步") }
                        },
                        Err(e) => {
                            assert(sv[i as int].1 == Err::<(), Seq<char>>(e@));
                            SkillSyncItem { agent: Some(agent), success: false, message: concat3(agent.name().as_str(), " skills 账号未同步：", e.as_str()) }
                        },
                    };
                    assert(sync_item_view(item) == next[i as int]);
                    if !item.success {
                        failed = failed + 1;
                    }
                    items.push(item);
                    assert(items@.map_values(|x: SkillSyncItem| sync_item_view(x)) =~= before.map_values(|x: SkillSyncItem| sync_item_view(x)).push(next[i as int]));
                    assert(items@.map_values(|x: SkillSyncItem| sync_item_view(x)) =~= next);
                    i = i + 1;
                }
                assert(sv.subrange(0, saved@.len() as int) =~= sv);
                assert(want == sv.map_values(|s: (SkillAgent, Result<(), Seq<char>>)| saved_item(s.0, s.1)));
            }
        },
    }
    SkillSyncReport { failed_count: failed, items }
}

/// What finishing a switch that went through does before its task
/// completes: the browser now belongs to the plan's e-mail, and the skills
/// are handed the account when the task's retry payload asks for it.
pub struct SwitchFinishPlan {
    pub browser_account_email: Option<String>,
    pub sync_skills: bool,
}

/// Plans the end of a switch: the browser account e-mail becomes the plan's
/// e-mail; the skills hand-over runs only when the retry payload's
/// `sync_skills` is `Some(true)` (no task, no retry payload or no flag mean
/// `None`).
pub fn switch_finish_plan(plan_email: Option<String>, retry_sync_skills: Option<bool>) -> (r: SwitchFinishPlan)
    ensures
        r.browser_account_email == plan_email,
        r.sync_skills == (retry_sync_skills == Some(true)),
{
    let sync_skills = match retry_sync_skills {
        Some(b) => b,
        None => false,
    };
    SwitchFinishPlan { browser_account_email: plan_email, sync_skills }
}

/// How a switch that went through ends.
pub struct SwitchFinish {
    /// The e-mail the browser account now has.
    pub browser_account_email: Option<String>,
    /// The skills hand-over's report, attached to the result when it ran.
    pub skills_sync: Option<SkillSyncReport>,
    /// One log line per line of that report, a warning where it failed.
    pub logs: Vec<StageLog>,
    /// The message the task completes with.
    pub message: &'static str,
}

/// Ends a switch that went through, given its plan and, exactly when the
/// plan asked for it, the skills hand-over's report. The task completes
/// whatever the hand-over gave: a failed hand-over only adds warnings and
/// never turns a finished switch into a failure.
pub fn switch_finish(plan: SwitchFinishPlan, sync: Option<SkillSyncReport>) -> (r: SwitchFinish)
    requires
        plan.sync_skills <==> sync is Some,
    ensures
        r.browser_account_email == plan.browser_account_email,
        r.skills_sync is Some <==> plan.sync_skills,
        r.skills_sync == sync,
        r.message@ == "无感换号执行完成"@,
        sync is None ==> r.logs@.len() == 0,
        sync matches Some(s) ==> r.logs@.len() == s.items@.len() && forall|i: int|
            0 <= i < r.logs@.len() ==> (#[trigger] r.logs@[i]).warning == !s.items@[i].success && r.logs@[i].text@
                == s.items@[i].message@,
{
    let mut logs: Vec<StageLog> = Vec::new();
    match &sync {
        None => {},
        Some(s) => {
            let mut i: usize = 0;
            while i < s.items.len()
                invariant
                    i <= s.items@.len(),
                    logs@.len() == i,
                    forall|j: int|
                        0 <= j < i ==> (#[trigger] logs@[j]).warning == !s.items@[j].success && logs@[j].text@
                            == s.items@[j].message@,
                decreases s.items.len() - i,
            {
                let item = &s.items[i];
                logs.push(StageLog { warning: !item.success, text: item.message.clone() });
                i = i + 1;
            }
        },
    }
    SwitchFinish {
        browser_account_email: plan.browser_account_email,
        skills_sync: sync,
        logs,
        message: "无感换号执行完成",
    }
}

} // verus!
