//! Classification of filesystem paths against the protected browser
//! credential stores.
//!
//! A path is classified by root-prefix match (Chrome/Edge/Brave user data
//! under the local application-data root, Firefox profiles under the roaming
//! root) crossed with the configured leaf file names. All comparisons are
//! ASCII case-insensitive.

use vstd::prelude::*;
use vstd::string::StringExecFns;
use crate::config::{Config, ProtectedM};
use crate::text::{ends_with_fold, eq_fold, starts_with_fold, str_ends_with_fold, str_eq_fold,
    str_starts_with_fold};

verus! {

#[derive(Debug, Clone, Copy, PartialEq, Eq, Structural)]
pub enum ProtectedTarget {
    ChromeLoginData,
    ChromeCookies,
    ChromeLocalState,
    FirefoxLoginsJson,
    FirefoxKey4Db,
    FirefoxCookiesSqlite,
}

/// The environment-derived roots under which browser data stores live. The
/// surrounding binary resolves them from `LOCALAPPDATA` / `APPDATA`, with the
/// documented fallbacks when a variable is absent.
#[derive(Debug)]
pub struct Roots {
    pub local_appdata: String,
    pub roaming_appdata: String,
}

impl Clone for Roots {
    fn clone(&self) -> (r: Self)
        ensures
            r.local_appdata@ == self.local_appdata@,
            r.roaming_appdata@ == self.roaming_appdata@,
    {
        Roots {
            local_appdata: self.local_appdata.clone(),
            roaming_appdata: self.roaming_appdata.clone(),
        }
    }
}

pub open spec fn chrome_root_spec(local: Seq<char>) -> Seq<char> {
    local + "\\google\\chrome\\user data\\"@
}

pub open spec fn edge_root_spec(local: Seq<char>) -> Seq<char> {
    local + "\\microsoft\\edge\\user data\\"@
}

pub open spec fn brave_root_spec(local: Seq<char>) -> Seq<char> {
    local + "\\bravesoftware\\brave-browser\\user data\\"@
}

pub open spec fn firefox_root_spec(roam: Seq<char>) -> Seq<char> {
    roam + "\\mozilla\\firefox\\profiles\\"@
}

pub fn chrome_user_data_root(localappdata: &str) -> (r: String)
    ensures
        r@ == chrome_root_spec(localappdata@),
{
    String::from_str(localappdata).concat("\\google\\chrome\\user data\\")
}

pub fn edge_user_data_root(localappdata: &str) -> (r: String)
    ensures
        r@ == edge_root_spec(localappdata@),
{
    String::from_str(localappdata).concat("\\microsoft\\edge\\user data\\")
}

pub fn brave_user_data_root(localappdata: &str) -> (r: String)
    ensures
        r@ == brave_root_spec(localappdata@),
{
    String::from_str(localappdata).concat("\\bravesoftware\\brave-browser\\user data\\")
}

pub fn firefox_profiles_root(appdata: &str) -> (r: String)
    ensures
        r@ == firefox_root_spec(appdata@),
{
    String::from_str(appdata).concat("\\mozilla\\firefox\\profiles\\")
}

/// The path ends in the given leaf name, preceded by a path separator.
pub open spec fn path_has_leaf(p: Seq<char>, name: Seq<char>) -> bool {
    ends_with_fold(p, seq!['\\'] + name) || ends_with_fold(p, seq!['/'] + name)
}

/// The first configured name that matches the path's leaf, in list order.
pub open spec fn first_leaf_match(names: Seq<Seq<char>>, p: Seq<char>) -> Option<Seq<char>>
    decreases names.len(),
{
    if names.len() == 0 {
        None
    } else if path_has_leaf(p, names[0]) {
        Some(names[0])
    } else {
        first_leaf_match(names.drop_first(), p)
    }
}

pub open spec fn chrome_name_target(n: Seq<char>) -> Option<ProtectedTarget> {
    if eq_fold(n, "login data"@) {
        Some(ProtectedTarget::ChromeLoginData)
    } else if eq_fold(n, "cookies"@) {
        Some(ProtectedTarget::ChromeCookies)
    } else if eq_fold(n, "local state"@) {
        Some(ProtectedTarget::ChromeLocalState)
    } else {
        None
    }
}

pub open spec fn firefox_name_target(n: Seq<char>) -> Option<ProtectedTarget> {
    if eq_fold(n, "logins.json"@) {
        Some(ProtectedTarget::FirefoxLoginsJson)
    } else if eq_fold(n, "key4.db"@) {
        Some(ProtectedTarget::FirefoxKey4Db)
    } else if eq_fold(n, "cookies.sqlite"@) {
        Some(ProtectedTarget::FirefoxCookiesSqlite)
    } else {
        None
    }
}

pub open spec fn under_chromium_root(local: Seq<char>, p: Seq<char>) -> bool {
    starts_with_fold(p, chrome_root_spec(local)) || starts_with_fold(p, edge_root_spec(local))
        || starts_with_fold(p, brave_root_spec(local))
}

/// What `classify_protected_target` returns: the first matching chrome leaf
/// under a Chromium root decides (even when it names no known target), else
/// the first matching firefox leaf under the Firefox root.
pub open spec fn classify_spec(
    prot: ProtectedM,
    local: Seq<char>,
    roam: Seq<char>,
    p: Seq<char>,
) -> Option<ProtectedTarget> {
    if under_chromium_root(local, p) && first_leaf_match(prot.chrome_targets, p) is Some {
        chrome_name_target(first_leaf_match(prot.chrome_targets, p)->Some_0)
    } else if starts_with_fold(p, firefox_root_spec(roam)) && first_leaf_match(
        prot.firefox_targets,
        p,
    ) is Some {
        firefox_name_target(first_leaf_match(prot.firefox_targets, p)->Some_0)
    } else {
        None
    }
}

pub open spec fn under_protected_root_spec(local: Seq<char>, roam: Seq<char>, p: Seq<char>) -> bool {
    under_chromium_root(local, p) || starts_with_fold(p, firefox_root_spec(roam))
}

proof fn lemma_first_leaf_skip(names: Seq<Seq<char>>, p: Seq<char>, i: int)
    requires
        0 <= i <= names.len(),
        forall|j: int| 0 <= j < i ==> !path_has_leaf(p, names[j]),
    ensures
        first_leaf_match(names, p) == first_leaf_match(names.skip(i), p),
    decreases i,
{
    if i > 0 {
        assert(!path_has_leaf(p, names[0]));
        assert(names.len() > 0);
        lemma_first_leaf_skip(names.drop_first(), p, i - 1);
        assert(names.drop_first().skip(i - 1) =~= names.skip(i));
    } else {
        assert(names.skip(0) =~= names);
    }
}

fn path_has_leaf_exec(p: &str, name: &str) -> (r: bool)
    ensures
        r == path_has_leaf(p@, name@),
{
    let back = String::from_str("\\").concat(name);
    let fwd = String::from_str("/").concat(name);
    proof {
        reveal_strlit("\\");
        reveal_strlit("/");
    }
    assert(back@ =~= seq!['\\'] + name@);
    assert(fwd@ =~= seq!['/'] + name@);
    str_ends_with_fold(p, back.as_str()) || str_ends_with_fold(p, fwd.as_str())
}

/// The first name in the list that matches the path's leaf.
fn first_leaf_match_exec(names: &Vec<String>, p: &str) -> (r: Option<usize>)
    ensures
        (match r {
            Some(i) => i < names@.len() && first_leaf_match(
                crate::config::strs_view(names@),
                p@,
            ) == Some(names@[i as int]@),
            None => first_leaf_match(crate::config::strs_view(names@), p@) is None,
        }),
{
    let ghost nv = crate::config::strs_view(names@);
    let mut i: usize = 0;
    while i < names.len()
        invariant
            nv == crate::config::strs_view(names@),
            i <= names@.len(),
            forall|j: int| 0 <= j < i ==> !path_has_leaf(p@, nv[j]),
        decreases names@.len() - i,
    {
        if path_has_leaf_exec(p, names[i].as_str()) {
            proof {
                lemma_first_leaf_skip(nv, p@, i as int);
                assert(nv.skip(i as int)[0] == nv[i as int]);
            }
            return Some(i);
        }
        i += 1;
    }
    proof {
        lemma_first_leaf_skip(nv, p@, i as int);
        assert(nv.skip(i as int).len() == 0);
    }
    None
}

fn chrome_name_target_exec(n: &str) -> (r: Option<ProtectedTarget>)
    ensures
        r == chrome_name_target(n@),
{
    if str_eq_fold(n, "login data") {
        Some(ProtectedTarget::ChromeLoginData)
    } else if str_eq_fold(n, "cookies") {
        Some(ProtectedTarget::ChromeCookies)
    } else if str_eq_fold(n, "local state") {
        Some(ProtectedTarget::ChromeLocalState)
    } else {
        None
    }
}

fn firefox_name_target_exec(n: &str) -> (r: Option<ProtectedTarget>)
    ensures
        r == firefox_name_target(n@),
{
    if str_eq_fold(n, "logins.json") {
        Some(ProtectedTarget::FirefoxLoginsJson)
    } else if str_eq_fold(n, "key4.db") {
        Some(ProtectedTarget::FirefoxKey4Db)
    } else if str_eq_fold(n, "cookies.sqlite") {
        Some(ProtectedTarget::FirefoxCookiesSqlite)
    } else {
        None
    }
}

fn under_chromium_root_exec(roots: &Roots, p: &str) -> (r: bool)
    ensures
        r == under_chromium_root(roots.local_appdata@, p@),
{
    let chrome = chrome_user_data_root(roots.local_appdata.as_str());
    let edge = edge_user_data_root(roots.local_appdata.as_str());
    let brave = brave_user_data_root(roots.local_appdata.as_str());
    str_starts_with_fold(p, chrome.as_str()) || str_starts_with_fold(p, edge.as_str())
        || str_starts_with_fold(p, brave.as_str())
}

/// Maps a path to the protected browser artifact it denotes, or `None`.
pub fn classify_protected_target(cfg: &Config, roots: &Roots, file_path: &str) -> (r: Option<
    ProtectedTarget,
>)
    ensures
        r == classify_spec(cfg@.protected, roots.local_appdata@, roots.roaming_appdata@, file_path@),
{
    if under_chromium_root_exec(roots, file_path) {
        if let Some(i) = first_leaf_match_exec(&cfg.protected.chrome_targets, file_path) {
            return chrome_name_target_exec(cfg.protected.chrome_targets[i].as_str());
        }
    }
    let firefox = firefox_profiles_root(roots.roaming_appdata.as_str());
    if str_starts_with_fold(file_path, firefox.as_str()) {
        if let Some(i) = first_leaf_match_exec(&cfg.protected.firefox_targets, file_path) {
            return firefox_name_target_exec(cfg.protected.firefox_targets[i].as_str());
        }
    }
    None
}

/// Whether any protected browser root is a prefix of the path.
pub fn is_under_protected_root(roots: &Roots, file_path: &str) -> (r: bool)
    ensures
        r == under_protected_root_spec(roots.local_appdata@, roots.roaming_appdata@, file_path@),
{
    if under_chromium_root_exec(roots, file_path) {
        return true;
    }
    let firefox = firefox_profiles_root(roots.roaming_appdata.as_str());
    str_starts_with_fold(file_path, firefox.as_str())
}

} // verus!
