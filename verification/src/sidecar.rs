use vstd::prelude::*;
use vstd::string::*;
use crate::paths::{texts_view, BundlePath, BundlePathView};

verus! {

/// Where the bundled resources sit, given the directory that holds the executable:
/// on macOS the executable lives in `Contents/MacOS` and the resources in
/// `Contents/Resources`; elsewhere they sit beside the executable.
pub open spec fn resources_of(exe_dir: BundlePathView) -> BundlePathView {
    if exe_dir.ends_with("MacOS"@) {
        exe_dir.parent().join("Resources"@)
    } else {
        exe_dir
    }
}

/// The directory of the bundled resources (Node runtime, the service package and
/// the built-in profile), given the path of the running executable.
pub fn resource_dir(exe: &BundlePath) -> (r: BundlePath)
    requires
        exe@.has_parent(),
    ensures
        r@ == resources_of(exe@.parent()),
{
    let dir = exe.parent();
    if dir.ends_with("MacOS") {
        dir.parent().join("Resources")
    } else {
        dir
    }
}

/// The bundled Node executable: `node/node.exe` on Windows, `node/node` elsewhere.
pub fn node_binary(resources: &BundlePath, windows: bool) -> (r: BundlePath)
    ensures
        r@ == resources@.join("node"@).join(if windows { "node.exe"@ } else { "node"@ }),
{
    let base = resources.join("node");
    let name = if windows { "node.exe" } else { "node" };
    base.join(name)
}

/// The bundled service package.
pub fn dsh_dir(resources: &BundlePath) -> (r: BundlePath)
    ensures
        r@ == resources@.join("dsh"@),
{
    resources.join("dsh")
}

/// The built-in profile.
pub fn profile_dir(resources: &BundlePath) -> (r: BundlePath)
    ensures
        r@ == resources@.join("profile"@),
{
    resources.join("profile")
}


/// The character of a decimal digit.
pub open spec fn digit_char(d: nat) -> char {
    (48 + d) as char
}

/// The decimal notation of `n`, without leading zeros.
pub open spec fn decimal(n: nat) -> Seq<char>
    decreases n,
{
    if n < 10 {
        seq![digit_char(n)]
    } else {
        decimal(n / 10).push(digit_char(n % 10))
    }
}

fn digit_text(d: u64) -> (r: &'static str)
    requires
        d < 10,
    ensures
        r@ == seq![digit_char(d as nat)],
{
    proof {
        reveal_strlit("0");
        reveal_strlit("1");
        reveal_strlit("2");
        reveal_strlit("3");
        reveal_strlit("4");
        reveal_strlit("5");
        reveal_strlit("6");
        reveal_strlit("7");
        reveal_strlit("8");
        reveal_strlit("9");
    }
    if d == 0 {
        "0"
    } else if d == 1 {
        "1"
    } else if d == 2 {
        "2"
    } else if d == 3 {
        "3"
    } else if d == 4 {
        "4"
    } else if d == 5 {
        "5"
    } else if d == 6 {
        "6"
    } else if d == 7 {
        "7"
    } else if d == 8 {
        "8"
    } else {
        "9"
    }
}

/// The decimal notation of a number.
pub fn decimal_text(n: u64) -> (r: String)
    ensures
        r@ == decimal(n as nat),
    decreases n,
{
    if n < 10 {
        digit_text(n).to_owned()
    } else {
        let mut s = decimal_text(n / 10);
        s.append(digit_text(n % 10));
        s
    }
}

/// The decimal notation of a port number.
pub fn port_text(n: u16) -> (r: String)
    ensures
        r@ == decimal(n as nat),
{
    decimal_text(n as u64)
}

/// How the service is started: the program, the script it runs with its
/// arguments, the working directory, and the data directory passed as
/// `DSH_HOME` (none keeps the service's own default).
pub struct SidecarLaunch {
    pub program: BundlePath,
    pub script: BundlePath,
    pub args: Vec<String>,
    pub cwd: String,
    pub dsh_home: Option<String>,
}

/// The arguments after the script: web profile, the port, no browser.
pub open spec fn launch_args_of(port: u16) -> Seq<Seq<char>> {
    seq!["--profile"@, "web"@, "--port"@, decimal(port as nat), "--no-open"@]
}

/// The launch of the service in `workspace` on `port`, with the bundled Node
/// runtime running `dsh/lib/bin.js` of the bundled resources.
pub fn sidecar_launch(
    resources: &BundlePath,
    windows: bool,
    workspace: &str,
    data_dir: &Option<String>,
    port: u16,
) -> (r: SidecarLaunch)
    ensures
        r.program@ == resources@.join("node"@).join(if windows { "node.exe"@ } else { "node"@ }),
        r.script@ == resources@.join("dsh"@).join("lib"@).join("bin.js"@),
        texts_view(r.args) == launch_args_of(port),
        r.cwd@ == workspace@,
        crate::config::opt_view(r.dsh_home) == crate::config::opt_view(*data_dir),
{
    let program = node_binary(resources, windows);
    let script = dsh_dir(resources).join("lib").join("bin.js");
    let mut args: Vec<String> = Vec::new();
    args.push(String::from_str("--profile"));
    args.push(String::from_str("web"));
    args.push(String::from_str("--port"));
    args.push(port_text(port));
    args.push(String::from_str("--no-open"));
    let dsh_home = match data_dir {
        Some(d) => Some(d.clone()),
        None => None,
    };
    let r = SidecarLaunch { program, script, args, cwd: workspace.to_owned(), dsh_home };
    assert(texts_view(r.args) =~= launch_args_of(port));
    r
}

/// The text every service address starts with.
pub open spec fn url_prefix() -> Seq<char> {
    "http://127.0.0.1:"@
}

pub open spec fn starts_at(s: Seq<char>, i: int, p: Seq<char>) -> bool {
    0 <= i && i + p.len() <= s.len() && s.subrange(i, i + p.len()) == p
}

/// The first position at or after `i` where `p` occurs in `s`.
pub open spec fn first_match_from(s: Seq<char>, p: Seq<char>, i: int) -> Option<int>
    decreases s.len() + 1 - i,
{
    if i < 0 || i + p.len() > s.len() {
        None
    } else if starts_at(s, i, p) {
        Some(i)
    } else {
        first_match_from(s, p, i + 1)
    }
}

pub open spec fn is_blank(c: char) -> bool {
    c == ' ' || c == '\t' || c == '\n' || c == '\r'
}

/// The end of the word that starts at `i`: the first blank at or after `i`, or
/// the end of `s`.
pub open spec fn word_end(s: Seq<char>, i: int) -> int
    decreases s.len() - i,
{
    if i >= s.len() {
        s.len() as int
    } else if is_blank(s[i]) {
        i
    } else {
        word_end(s, i + 1)
    }
}

/// The service address announced in a line of the service's output: the word
/// that starts with the first `http://127.0.0.1:` of the line (it carries the
/// access token as `?token=`), if there is one.
pub open spec fn service_url_of(s: Seq<char>) -> Option<Seq<char>> {
    match first_match_from(s, url_prefix(), 0) {
        Some(i) => Some(s.subrange(i, word_end(s, i))),
        None => None,
    }
}

fn chars_of(s: &str) -> (r: Vec<char>)
    ensures
        r@ == s@,
{
    let n = s.unicode_len();
    let mut cs: Vec<char> = Vec::new();
    for i in 0..n
        invariant
            n == s@.len(),
            cs@ == s@.take(i as int),
    {
        cs.push(s.get_char(i));
        assert(cs@ =~= s@.take(i + 1));
    }
    assert(s@.take(n as int) =~= s@);
    cs
}

/// The authenticated service address in a line of the service's output.
pub fn service_url(line: &str) -> (r: Option<String>)
    ensures
        match r {
            Some(u) => service_url_of(line@) == Some(u@),
            None => service_url_of(line@) is None,
        },
{
    let s = chars_of(line);
    let p = chars_of("http://127.0.0.1:");
    let n = s.len();
    let m = p.len();
    let mut i: usize = 0;
    while i <= n && m <= n - i
        invariant
            s@ == line@,
            p@ == url_prefix(),
            n == s@.len(),
            m == p@.len(),
            i <= n,
            first_match_from(s@, p@, 0) == first_match_from(s@, p@, i as int),
        decreases n - i,
    {
        let mut j: usize = 0;
        let mut same = true;
        while j < m
            invariant
                i + m <= n,
                n == s@.len(),
                m == p@.len(),
                j <= m,
                same == (forall|k: int| 0 <= k < j ==> s@[i + k] == p@[k]),
            decreases m - j,
        {
            if s[i + j] != p[j] {
                same = false;
            }
            j = j + 1;
        }
        if same {
            assert(s@.subrange(i as int, i + m) =~= p@);
            assert(first_match_from(s@, p@, i as int) == Some(i as int));
            let mut e: usize = i;
            while e < n && !(s[e] == ' ' || s[e] == '\t' || s[e] == '\n' || s[e] == '\r')
                invariant
                    i <= e <= n,
                    n == s@.len(),
                    word_end(s@, i as int) == word_end(s@, e as int),
                decreases n - e,
            {
                e = e + 1;
            }
            let url = line.substring_char(i, e).to_owned();
            return Some(url);
        }
        assert(!starts_at(s@, i as int, p@)) by {
            if starts_at(s@, i as int, p@) {
                let k = choose|k: int| 0 <= k < m && s@[i + k] != p@[k];
                assert(s@.subrange(i as int, i + m)[k] == s@[i + k]);
            }
        }
        i = i + 1;
    }
    None
}

/// The word that starts at `i` runs to the first blank after it, or to the end.
pub proof fn lemma_word_end(s: Seq<char>, i: int)
    requires
        0 <= i <= s.len(),
    ensures
        i <= word_end(s, i) <= s.len(),
        forall|k: int| i <= k < word_end(s, i) ==> !is_blank(#[trigger] s[k]),
        word_end(s, i) == s.len() || is_blank(s[word_end(s, i)]),
    decreases s.len() - i,
{
    if i < s.len() && !is_blank(s[i]) {
        lemma_word_end(s, i + 1);
    }
}

/// `first_match_from` finds the first occurrence at or after `i`, and none
/// when there is none.
pub proof fn lemma_first_match(s: Seq<char>, p: Seq<char>, i: int)
    requires
        0 <= i,
    ensures
        first_match_from(s, p, i) matches Some(j) ==> {
            &&& i <= j
            &&& starts_at(s, j, p)
            &&& forall|k: int| i <= k < j ==> !#[trigger] starts_at(s, k, p)
        },
        first_match_from(s, p, i) is None ==> forall|k: int| i <= k ==> !#[trigger] starts_at(s, k, p),
    decreases s.len() + 1 - i,
{
    if i + p.len() <= s.len() && !starts_at(s, i, p) {
        lemma_first_match(s, p, i + 1);
    }
}

/// Law of the service address: a line holds one exactly when
/// `http://127.0.0.1:` occurs in it; the address is then the whole word that
/// begins at the first occurrence: it starts with `http://127.0.0.1:`, holds
/// no space, tab, line feed or carriage return, and in the line it is followed
/// by one of these or by the end of the line.
pub proof fn lemma_service_url(s: Seq<char>)
    ensures
        service_url_of(s) is Some <==> exists|i: int| #[trigger] starts_at(s, i, "http://127.0.0.1:"@),
        service_url_of(s) matches Some(u) ==> exists|i: int| {
            &&& #[trigger] starts_at(s, i, "http://127.0.0.1:"@)
            &&& forall|k: int| 0 <= k < i ==> !#[trigger] starts_at(s, k, "http://127.0.0.1:"@)
            &&& i + u.len() <= s.len()
            &&& u == s.subrange(i, i + u.len())
            &&& u.len() >= "http://127.0.0.1:"@.len()
            &&& u.subrange(0, "http://127.0.0.1:"@.len() as int) == "http://127.0.0.1:"@
            &&& forall|k: int| 0 <= k < u.len() ==> {
                let c = #[trigger] u[k];
                c != ' ' && c != '\t' && c != '\n' && c != '\r'
            }
            &&& (i + u.len() == s.len() || {
                let c = s[i + u.len()];
                c == ' ' || c == '\t' || c == '\n' || c == '\r'
            })
        },
{
    let p = "http://127.0.0.1:"@;
    reveal_strlit("http://127.0.0.1:");
    lemma_first_match(s, p, 0);
    match first_match_from(s, p, 0) {
        Some(i) => {
            lemma_word_end(s, i);
            let e = word_end(s, i);
            let u = s.subrange(i, e);
            assert(starts_at(s, i, p));
            assert(e >= i + p.len()) by {
                if e < i + p.len() {
                    assert(s[e] == s.subrange(i, i + p.len())[e - i]);
                    assert(is_blank(s[e]));
                }
            }
            assert(u.subrange(0, p.len() as int) =~= p) by {
                assert forall|k: int| 0 <= k < p.len() implies u.subrange(0, p.len() as int)[k] == p[k] by {
                    assert(s.subrange(i, i + p.len())[k] == s[i + k]);
                }
            }
            assert forall|k: int| 0 <= k < u.len() implies {
                let c = #[trigger] u[k];
                c != ' ' && c != '\t' && c != '\n' && c != '\r'
            } by {
                assert(u[k] == s[i + k]);
                assert(!is_blank(s[i + k]));
            }
            assert(u == s.subrange(i, i + u.len()));
        },
        None => {
            assert forall|i: int| !#[trigger] starts_at(s, i, p) by {
                if i >= 0 {
                    assert(!starts_at(s, i, p));
                }
            }
        },
    }
}

/// Law of the resource directory: it keeps the executable's anchor (prefix and
/// root); when the executable's directory ends in `MacOS` it is the sibling
/// `Resources` of that directory, and otherwise it is exactly the executable's
/// directory.
pub proof fn lemma_resources(exe: BundlePathView)
    requires
        exe.parts.len() >= 1,
    ensures
        resources_of(exe.parent()).anchor == exe.anchor,
        ({
            let dir = exe.parts.drop_last();
            (dir.len() == 0 || dir.last() != "MacOS"@) ==> resources_of(exe.parent()) == BundlePathView {
                anchor: exe.anchor,
                parts: dir,
            }
        }),
        ({
            let dir = exe.parts.drop_last();
            (dir.len() > 0 && dir.last() == "MacOS"@) ==> resources_of(exe.parent()) == BundlePathView {
                anchor: exe.anchor,
                parts: dir.drop_last().push("Resources"@),
            }
        }),
{
}

/// Law of the launch arguments: the web profile, then `--port` with the port
/// written in decimal so that it reads back as the port, then no browser.
pub proof fn lemma_launch_args(port: u16)
    ensures
        launch_args_of(port).len() == 5,
        launch_args_of(port)[0] == "--profile"@,
        launch_args_of(port)[1] == "web"@,
        launch_args_of(port)[2] == "--port"@,
        crate::service::digits_value(launch_args_of(port)[3], 0, launch_args_of(port)[3].len() as int) == port,
        forall|k: int| 0 <= k < launch_args_of(port)[3].len()
            ==> crate::service::is_digit(#[trigger] launch_args_of(port)[3][k]),
        launch_args_of(port)[4] == "--no-open"@,
{
    crate::service::lemma_decimal_reads_back(port as nat);
}

} // verus!
