//! Locating the browsers and drivers, and their command lines.

use vstd::prelude::*;
use crate::error::BrowserError;
use crate::text::{concat, concat3, decimal, decimal_text, trim, trimmed};

verus! {

/// What a lookup on the search path found: the command's output without
/// surrounding white space, where that is not empty (`None` where the
/// lookup failed).
pub open spec fn path_hit(output: Option<String>) -> Option<Seq<char>> {
    match output {
        Some(o) => if trimmed(o@).len() > 0 {
            Some(trimmed(o@))
        } else {
            None
        },
        None => None,
    }
}

/// The lookup of `name` can come back without a hit.
pub open spec fn missed<F: Fn(&str) -> Option<String>>(on_path: F, name: &str) -> bool {
    exists|o: Option<String>| #[trigger] call_ensures(on_path, (name,), o) && path_hit(o) is None
}

/// The lookup of `name` can come back with `path`.
pub open spec fn hit<F: Fn(&str) -> Option<String>>(on_path: F, name: &str, path: Seq<char>) -> bool {
    exists|o: Option<String>| #[trigger] call_ensures(on_path, (name,), o) && path_hit(o) == Some(path)
}

/// `path` is what the first successful lookup of `names` found.
pub open spec fn first_hit<F: Fn(&str) -> Option<String>>(on_path: F, names: Seq<&str>, path: Seq<char>) -> bool {
    exists|i: int|
        0 <= i < names.len() && #[trigger] hit(on_path, names[i], path) && forall|j: int|
            0 <= j < i ==> #[trigger] missed(on_path, names[j])
}

/// Every lookup of `names` missed.
pub open spec fn all_missed<F: Fn(&str) -> Option<String>>(on_path: F, names: Seq<&str>) -> bool {
    forall|j: int| 0 <= j < names.len() ==> #[trigger] missed(on_path, names[j])
}

/// The path in the output of a search-path lookup, if it found one.
pub fn lookup_result(output: Option<String>) -> (r: Option<String>)
    ensures
        match r {
            Some(p) => path_hit(output) == Some(p@),
            None => path_hit(output) is None,
        },
{
    match output {
        Some(o) => {
            let t = trim(o.as_str());
            if t.unicode_len() > 0 {
                Some(t)
            } else {
                None
            }
        },
        None => None,
    }
}

/// The first of `names` that `on_path` (a search-path lookup, giving the
/// lookup's output where it succeeded) resolves.
pub fn find_on_path(names: &[&str], on_path: impl Fn(&str) -> Option<String>) -> (r: Option<String>)
    requires
        forall|n: &str| call_requires(on_path, (n,)),
    ensures
        match r {
            Some(p) => first_hit(on_path, names@, p@),
            None => all_missed(on_path, names@),
        },
{
    let mut i: usize = 0;
    while i < names.len()
        invariant
            i <= names@.len(),
            forall|n: &str| call_requires(on_path, (n,)),
            forall|j: int| 0 <= j < i ==> #[trigger] missed(on_path, names@[j]),
        decreases names@.len() - i,
    {
        let output = on_path(names[i]);
        let ghost o = output;
        match lookup_result(output) {
            Some(p) => {
                assert(hit(on_path, names@[i as int], p@));
                return Some(p);
            },
            None => {
                assert(missed(on_path, names@[i as int]));
            },
        }
        i += 1;
    }
    None
}

/// The application bundles where Chrome is looked for first, in order.
pub open spec fn chrome_bundle(i: int) -> &'static str {
    if i == 0 {
        "/Applications/Google Chrome.app/Contents/MacOS/Google Chrome"
    } else if i == 1 {
        "/Applications/Chromium.app/Contents/MacOS/Chromium"
    } else {
        "/Applications/Google Chrome Canary.app/Contents/MacOS/Google Chrome Canary"
    }
}

/// The command names under which Chrome is looked for on the search path, in order.
pub open spec fn chrome_commands() -> Seq<&'static str> {
    seq!["google-chrome", "google-chrome-stable", "chromium", "chromium-browser"]
}

/// Finds Chrome: the first application bundle that `installed` reports,
/// else the first of the usual command names that `on_path` resolves.
pub fn find_chrome(installed: impl Fn(&str) -> bool, on_path: impl Fn(&str) -> Option<String>) -> (r: Option<String>)
    requires
        forall|p: &str| call_requires(installed, (p,)),
        forall|p: &str| call_requires(on_path, (p,)),
    ensures
        match r {
            Some(s) => {
                ||| exists|i: int|
                    0 <= i < 3 && #[trigger] chrome_bundle(i)@ == s@ && call_ensures(installed, (chrome_bundle(i),), true)
                        && forall|j: int| 0 <= j < i ==> call_ensures(installed, (#[trigger] chrome_bundle(j),), false)
                ||| (forall|j: int| 0 <= j < 3 ==> call_ensures(installed, (#[trigger] chrome_bundle(j),), false))
                    && first_hit(on_path, chrome_commands(), s@)
            },
            None => (forall|j: int| 0 <= j < 3 ==> call_ensures(installed, (#[trigger] chrome_bundle(j),), false))
                && all_missed(on_path, chrome_commands()),
        },
{
    let bundles: [&'static str; 3] = [
        "/Applications/Google Chrome.app/Contents/MacOS/Google Chrome",
        "/Applications/Chromium.app/Contents/MacOS/Chromium",
        "/Applications/Google Chrome Canary.app/Contents/MacOS/Google Chrome Canary",
    ];
    let mut i: usize = 0;
    while i < 3
        invariant
            i <= 3,
            forall|j: int| 0 <= j < 3 ==> bundles@[j] == chrome_bundle(j),
            forall|p: &str| call_requires(installed, (p,)),
            forall|j: int| 0 <= j < i ==> call_ensures(installed, (#[trigger] chrome_bundle(j),), false),
        decreases 3 - i,
    {
        let found = installed(bundles[i]);
        assert(bundles@[i as int] == chrome_bundle(i as int));
        if found {
            let s = String::from_str(bundles[i]);
            assert(chrome_bundle(i as int)@ == s@);
            return Some(s);
        }
        i += 1;
    }
    let commands: [&'static str; 4] = ["google-chrome", "google-chrome-stable", "chromium", "chromium-browser"];
    assert(commands@ =~= chrome_commands());
    find_on_path(&commands, on_path)
}

/// Where safaridriver is installed.
pub fn safaridriver_path() -> (r: &'static str)
    ensures
        r@ == "/usr/bin/safaridriver"@,
{
    "/usr/bin/safaridriver"
}

/// The text views of a list of strings.
pub open spec fn texts(v: Seq<String>) -> Seq<Seq<char>> {
    v.map_values(|s: String| s@)
}

/// Chrome's command line: remote debugging on `port`, a profile in
/// `user_data_dir`, no first-run or background activity, headless when
/// asked, opening a blank page.
pub open spec fn chrome_arguments(port: u16, user_data_dir: Seq<char>, headless: bool) -> Seq<Seq<char>> {
    let base = seq![
        "--remote-debugging-port="@ + decimal(port as nat),
        "--user-data-dir="@ + user_data_dir,
        "--no-first-run"@,
        "--no-default-browser-check"@,
        "--disable-background-networking"@,
        "--disable-default-apps"@,
        "--disable-extensions"@,
        "--disable-sync"@,
        "--disable-translate"@,
        "--metrics-recording-only"@,
        "--mute-audio"@,
    ];
    if headless {
        base.push("--headless=new"@).push("about:blank"@)
    } else {
        base.push("about:blank"@)
    }
}

/// The arguments that launch Chrome.
pub fn chrome_args(port: u16, user_data_dir: &str, headless: bool) -> (r: Vec<String>)
    ensures
        texts(r@) == chrome_arguments(port, user_data_dir@, headless),
{
    let mut args: Vec<String> = Vec::new();
    let p = decimal_text(port as u64);
    args.push(concat("--remote-debugging-port=", p.as_str()));
    args.push(concat("--user-data-dir=", user_data_dir));
    args.push(String::from_str("--no-first-run"));
    args.push(String::from_str("--no-default-browser-check"));
    args.push(String::from_str("--disable-background-networking"));
    args.push(String::from_str("--disable-default-apps"));
    args.push(String::from_str("--disable-extensions"));
    args.push(String::from_str("--disable-sync"));
    args.push(String::from_str("--disable-translate"));
    args.push(String::from_str("--metrics-recording-only"));
    args.push(String::from_str("--mute-audio"));
    if headless {
        args.push(String::from_str("--headless=new"));
    }
    args.push(String::from_str("about:blank"));
    assert(texts(args@) =~= chrome_arguments(port, user_data_dir@, headless));
    args
}

/// geckodriver's command line: WebDriver on `port`, BiDi on `ws_port`, both on localhost.
pub open spec fn geckodriver_arguments(port: u16, ws_port: u16) -> Seq<Seq<char>> {
    seq![
        "--host"@,
        "127.0.0.1"@,
        "--port"@,
        decimal(port as nat),
        "--websocket-port"@,
        decimal(ws_port as nat),
    ]
}

/// The arguments that launch geckodriver.
pub fn geckodriver_args(port: u16, ws_port: u16) -> (r: Vec<String>)
    ensures
        texts(r@) == geckodriver_arguments(port, ws_port),
{
    let mut args: Vec<String> = Vec::new();
    args.push(String::from_str("--host"));
    args.push(String::from_str("127.0.0.1"));
    args.push(String::from_str("--port"));
    args.push(decimal_text(port as u64));
    args.push(String::from_str("--websocket-port"));
    args.push(decimal_text(ws_port as u64));
    assert(texts(args@) =~= geckodriver_arguments(port, ws_port));
    args
}

/// The arguments that launch safaridriver on `port`.
pub fn safaridriver_args(port: u16) -> (r: Vec<String>)
    ensures
        texts(r@) == seq!["--port"@, decimal(port as nat)],
{
    let mut args: Vec<String> = Vec::new();
    args.push(String::from_str("--port"));
    args.push(decimal_text(port as u64));
    assert(texts(args@) =~= seq!["--port"@, decimal(port as nat)]);
    args
}

/// The launch failure of a program that did not start: `<program>: <reason>`.
pub fn spawn_failure(program: &str, reason: &str) -> (e: BrowserError)
    ensures
        e matches BrowserError::LaunchFailed(m) && m@ == program@ + ": "@ + reason@,
{
    BrowserError::LaunchFailed(concat3(program, ": ", reason))
}

/// The launch failure when no Chrome is installed.
pub fn chrome_not_found() -> (e: BrowserError)
    ensures
        e matches BrowserError::LaunchFailed(m) && m@ == "Chrome not found"@,
{
    BrowserError::LaunchFailed(String::from_str("Chrome not found"))
}

/// The launch failure when geckodriver is not on the search path.
pub fn geckodriver_not_found() -> (e: BrowserError)
    ensures
        e matches BrowserError::LaunchFailed(m) && m@ == "geckodriver not found on PATH"@,
{
    BrowserError::LaunchFailed(String::from_str("geckodriver not found on PATH"))
}

/// The launch failure when safaridriver is not installed.
pub fn safaridriver_not_found() -> (e: BrowserError)
    ensures
        e matches BrowserError::LaunchFailed(m) && m@ == "safaridriver not found at /usr/bin/safaridriver"@,
{
    BrowserError::LaunchFailed(String::from_str("safaridriver not found at /usr/bin/safaridriver"))
}

/// geckodriver's command name.
pub fn geckodriver_command() -> (r: &'static str)
    ensures
        r@ == "geckodriver"@,
{
    "geckodriver"
}

/// Chrome starts headless exactly when that is asked for: its command line
/// holds `--headless=new` if and only if `headless`, and it always opens a
/// blank page, its last argument, after debugging on `port` with the
/// profile in `user_data_dir`.
pub proof fn law_chrome_headless_flag(port: u16, user_data_dir: Seq<char>, headless: bool)
    ensures
        chrome_arguments(port, user_data_dir, headless).contains("--headless=new"@) <==> headless,
        chrome_arguments(port, user_data_dir, headless).last() == "about:blank"@,
        chrome_arguments(port, user_data_dir, headless)[0] == "--remote-debugging-port="@ + decimal(port as nat),
        chrome_arguments(port, user_data_dir, headless)[1] == "--user-data-dir="@ + user_data_dir,
{
    reveal_strlit("--remote-debugging-port=");
    reveal_strlit("--user-data-dir=");
    reveal_strlit("--no-first-run");
    reveal_strlit("--no-default-browser-check");
    reveal_strlit("--disable-background-networking");
    reveal_strlit("--disable-default-apps");
    reveal_strlit("--disable-extensions");
    reveal_strlit("--disable-sync");
    reveal_strlit("--disable-translate");
    reveal_strlit("--metrics-recording-only");
    reveal_strlit("--mute-audio");
    reveal_strlit("--headless=new");
    reveal_strlit("about:blank");
    let args = chrome_arguments(port, user_data_dir, headless);
    let flag = "--headless=new"@;
    if headless {
        assert(args[11] == flag);
    } else {
        assert(args.len() == 12);
        assert forall|i: int| 0 <= i < args.len() implies args[i] != flag by {
            assert(args[i].len() > 2);
            assert(args[i][2] != flag[2]);
        }
    }
}

} // verus!
