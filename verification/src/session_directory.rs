//! Where the sessions of a project lie.
use vstd::prelude::*;
use vstd::string::*;
use vstd::utf8::*;

use crate::json::{json_parsed, json_text_at, json_tree, parse_json};
use crate::jsonc::{plain_json, remove_jsonc_comments_and_trailing_commas};
use crate::limits::RuntimeLimits;
use crate::paths::{is_absolute, path_is_absolute, path_join, path_joined};
use crate::session_catalog::{
    ResolvedSessionDirectory, SessionCatalogError, SessionDirectorySource,
};
use crate::text::{chars_of, optional_view, same_text, stands_at, text_of};

verus! {

/// Whether a setting starts in the home directory.
pub open spec fn in_home(value: Seq<char>) -> bool {
    value == "~"@ || "~/"@.is_prefix_of(value) || "~\\"@.is_prefix_of(value)
}

/// The absolute path that a setting stands for.
pub open spec fn pi_path(value: Seq<char>, cwd: Seq<char>, home: Seq<char>) -> Seq<char> {
    let expanded = if value == "~"@ {
        home
    } else if in_home(value) {
        path_joined(home, value.skip(2))
    } else {
        value
    };
    if path_is_absolute(expanded) {
        expanded
    } else {
        path_joined(cwd, expanded)
    }
}

/// The absolute path that a setting stands for; one in the home directory needs to
/// know it. The file system may resolve it further.
pub fn resolve_pi_path(value: &str, cwd: &str, home: Option<&str>) -> (r: Result<
    String,
    SessionCatalogError,
>)
    ensures
        match r {
            Ok(path) => (in_home(value@) ==> home is Some) && path@ == pi_path(
                value@,
                cwd@,
                match home {
                    Some(home) => home@,
                    None => Seq::empty(),
                },
            ),
            Err(SessionCatalogError::TildeWithoutHome { value: named }) => in_home(value@)
                && home is None && named@ == value@,
            Err(_) => false,
        },
{
    let chars = chars_of(value);
    let slash = chars_of("~/");
    let backslash = chars_of("~\\");
    assert(chars@.skip(0) =~= chars@);
    proof {
        reveal_strlit("~/");
        reveal_strlit("~\\");
        reveal_strlit("~");
    }
    let whole = same_text(value, "~");
    let below = stands_at(&chars, 0, &slash) || stands_at(&chars, 0, &backslash);
    let expanded = if whole || below {
        match home {
            Some(home) => {
                if whole {
                    home.to_owned()
                } else {
                    let rest = text_of(chars.as_slice(), 2, chars.len());
                    assert(rest@ =~= value@.skip(2));
                    path_join(home, rest.as_str())
                }
            },
            None => {
                return Err(SessionCatalogError::TildeWithoutHome { value: value.to_owned() });
            },
        }
    } else {
        value.to_owned()
    };
    if is_absolute(expanded.as_str()) {
        Ok(expanded)
    } else {
        Ok(path_join(cwd, expanded.as_str()))
    }
}

/// The directory in which Pi keeps its own files: what the environment says, or
/// `.pi/agent` in the home directory. Only the former is resolved further by the
/// file system.
pub fn agent_directory(configured: Option<&str>, project_root: &str, home: Option<&str>) -> (r:
    Result<String, SessionCatalogError>)
    ensures
        match (configured, home) {
            (Some(value), None) if in_home(value@) => r is Err && r->Err_0 is TildeWithoutHome
                && r->Err_0->TildeWithoutHome_value@ == value@,
            (Some(value), _) => r is Ok && r->Ok_0@ == pi_path(
                value@,
                project_root@,
                match home {
                    Some(home) => home@,
                    None => Seq::empty(),
                },
            ),
            (None, Some(home)) => r is Ok && r->Ok_0@ == path_joined(
                path_joined(home@, ".pi"@),
                "agent"@,
            ),
            (None, None) => r == Err::<String, SessionCatalogError>(
                SessionCatalogError::HomeUnavailable,
            ),
        },
{
    match configured {
        Some(value) => resolve_pi_path(value, project_root, home),
        None => match home {
            Some(home) => {
                let pi = path_join(home, ".pi");
                Ok(path_join(pi.as_str(), "agent"))
            },
            None => Err(SessionCatalogError::HomeUnavailable),
        },
    }
}

/// A path without the slashes and backslashes at its start.
pub open spec fn without_root(path: Seq<char>) -> Seq<char>
    decreases path.len(),
{
    if path.len() > 0 && (path[0] == '/' || path[0] == '\\') {
        without_root(path.drop_first())
    } else {
        path
    }
}

/// What stands for a character in the name of a directory.
pub open spec fn safe_char(c: char) -> char {
    if c == '/' || c == '\\' || c == ':' {
        '-'
    } else {
        c
    }
}

/// The name of the directory in which Pi keeps the sessions of a project.
pub open spec fn project_directory_name(project_root: Seq<char>) -> Seq<char> {
    "--"@ + without_root(project_root).map_values(|c: char| safe_char(c)) + "--"@
}

/// The name of the directory in which Pi keeps the sessions of a project.
pub fn default_project_session_dir_name(project_root: &str) -> (r: String)
    ensures
        r@ == project_directory_name(project_root@),
{
    let chars = chars_of(project_root);
    let mut start: usize = 0;
    assert(chars@.skip(0) =~= chars@);
    while start < chars.len() && (chars[start] == '/' || chars[start] == '\\')
        invariant
            start <= chars@.len(),
            without_root(chars@) == without_root(chars@.skip(start as int)),
        decreases chars@.len() - start,
    {
        assert(chars@.skip(start as int).drop_first() =~= chars@.skip(start + 1));
        start += 1;
    }
    let ghost rest = chars@.skip(start as int);
    assert(without_root(chars@) == rest);
    let ghost safe = rest.map_values(|c: char| safe_char(c));
    let mut r = "--".to_owned();
    let mut i: usize = start;
    assert(safe.take(0) =~= Seq::<char>::empty());
    assert(r@ =~= "--"@ + safe.take(0));
    while i < chars.len()
        invariant
            start <= i <= chars@.len(),
            rest == chars@.skip(start as int),
            safe == rest.map_values(|c: char| safe_char(c)),
            r@ == "--"@ + safe.take(i - start),
        decreases chars@.len() - i,
    {
        let c = chars[i];
        assert(c == rest[i - start]);
        assert("--"@ + safe.take(i + 1 - start) =~= ("--"@ + safe.take(i - start)).push(
            safe_char(c),
        ));
        if c == '/' || c == '\\' || c == ':' {
            r.push('-');
        } else {
            r.push(c);
        }
        i += 1;
    }
    assert(safe.take(i - start) =~= safe);
    r.append("--");
    r
}

/// The session directory that a settings file names. A file that is no JSON names
/// none.
pub open spec fn named_session_dir(text: Seq<char>) -> Option<Seq<char>> {
    match json_parsed(plain_json(encode_utf8(text))) {
        Some(settings) => settings.text_at("sessionDir"@),
        None => None,
    }
}

/// Refuses a settings file that is too large to read.
pub fn check_settings_size(path: &str, file_len: u64, limits: RuntimeLimits) -> (r: Result<
    (),
    SessionCatalogError,
>)
    ensures
        match r {
            Ok(_) => file_len <= limits.max_session_entry_page_bytes,
            Err(SessionCatalogError::SettingsTooLarge { path: named, actual, limit }) => file_len
                > limits.max_session_entry_page_bytes && named@ == path@ && actual == (
            if file_len > usize::MAX {
                usize::MAX as int
            } else {
                file_len as int
            }) && limit == limits.max_session_entry_page_bytes,
            Err(_) => false,
        },
{
    let actual: usize = if file_len as u128 > usize::MAX as u128 {
        usize::MAX
    } else {
        file_len as usize
    };
    if file_len as u128 > limits.max_session_entry_page_bytes as u128 {
        return Err(
            SessionCatalogError::SettingsTooLarge {
                path: path.to_owned(),
                actual,
                limit: limits.max_session_entry_page_bytes,
            },
        );
    }
    Ok(())
}

/// The session directory that a settings file names, if it names one.
pub fn read_session_dir_setting(text: &str) -> (r: Option<String>)
    ensures
        optional_view(r) == named_session_dir(text@),
{
    let normalized = remove_jsonc_comments_and_trailing_commas(text);
    match parse_json(normalized.as_slice()) {
        Some(settings) => session_dir_of(&settings),
        None => None,
    }
}

/// The session directory that settings which were read name, if they name one.
pub fn session_dir_of(settings: &serde_json::Value) -> (r: Option<String>)
    ensures
        optional_view(r) == json_tree(*settings).text_at("sessionDir"@),
{
    match json_text_at(settings, "sessionDir") {
        Some(directory) => Some(directory.to_owned()),
        None => None,
    }
}

/// What decides where the sessions lie: the environment, or else the settings of
/// the project, or else those of the user.
pub open spec fn chosen_setting(
    environment: Option<&str>,
    project: Option<&str>,
    global: Option<&str>,
) -> Option<Seq<char>> {
    if environment is Some {
        Some(environment->0@)
    } else if project is Some {
        Some(project->0@)
    } else if global is Some {
        Some(global->0@)
    } else {
        None
    }
}

/// The directory of the sessions of a project: what the environment names, or else
/// the settings of the project, or else those of the user; or else one under
/// `sessions` in the directory of Pi, which is the only one that the file system
/// does not resolve further.
pub fn resolve_session_directory(
    project_root: &str,
    agent_dir: &str,
    home: Option<&str>,
    environment: Option<&str>,
    project: Option<&str>,
    global: Option<&str>,
) -> (r: Result<ResolvedSessionDirectory, SessionCatalogError>)
    ensures
        match chosen_setting(environment, project, global) {
            Some(value) => if in_home(value) && home is None {
                r is Err && r->Err_0 is TildeWithoutHome && r->Err_0->TildeWithoutHome_value@
                    == value
            } else {
                &&& r is Ok
                &&& r->Ok_0.path@ == pi_path(
                    value,
                    project_root@,
                    match home {
                        Some(home) => home@,
                        None => Seq::empty(),
                    },
                )
                &&& r->Ok_0.source == (if environment is Some {
                    SessionDirectorySource::Environment
                } else {
                    SessionDirectorySource::Settings
                })
            },
            None => r is Ok && r->Ok_0.source == SessionDirectorySource::Default
                && r->Ok_0.path@ == path_joined(
                path_joined(agent_dir@, "sessions"@),
                project_directory_name(project_root@),
            ),
        },
{
    let (value, source) = match (environment, project, global) {
        (Some(value), _, _) => (value, SessionDirectorySource::Environment),
        (None, Some(value), _) => (value, SessionDirectorySource::Settings),
        (None, None, Some(value)) => (value, SessionDirectorySource::Settings),
        (None, None, None) => {
            let sessions = path_join(agent_dir, "sessions");
            let name = default_project_session_dir_name(project_root);
            return Ok(
                ResolvedSessionDirectory {
                    path: path_join(sessions.as_str(), name.as_str()),
                    source: SessionDirectorySource::Default,
                },
            );
        },
    };
    match resolve_pi_path(value, project_root, home) {
        Ok(path) => Ok(ResolvedSessionDirectory { path, source }),
        Err(error) => Err(error),
    }
}

} // verus!
