//! Where the device is found.

use vstd::prelude::*;
use vstd::string::*;

use crate::text;
use crate::text::{chars_of, same_text, starts_with, strip_prefix, trim_end_matches};

verus! {

/// The address of the device.
#[derive(Clone, Debug)]
pub struct Config {
    /// The URL that requests are sent below.
    pub base_url: String,
}

/// What the command line asks for.
#[derive(Debug)]
pub enum Startup {
    /// To print the help and leave.
    Help,
    /// To run the dashboard.
    Run(Config),
}

/// Whether an argument asks for help.
pub open spec fn asks_for_help(arg: Seq<char>) -> bool {
    arg == "--help"@ || arg == "-h"@
}

/// The address that is used: the argument's, else the environment's, else the
/// one that the device has by default.
pub open spec fn chosen_url(first: Option<String>, variable: Option<String>) -> Seq<char> {
    match (first, variable) {
        (Some(arg), _) => arg@,
        (None, Some(value)) => value@,
        (None, None) => "http://bitaxe.local"@,
    }
}

/// The address that requests are sent below: the one that is used, without the
/// slashes at its end.
pub open spec fn address(first: Option<String>, variable: Option<String>) -> Seq<char> {
    text::without_trailing(chosen_url(first, variable), '/')
}

/// The URL of the device's log stream, for a device at `base`.
pub open spec fn log_url(base: Seq<char>) -> Seq<char> {
    if "https://"@.is_prefix_of(base) {
        "wss://"@ + base.skip("https://"@.len() as int) + "/api/ws"@
    } else if "http://"@.is_prefix_of(base) {
        "ws://"@ + base.skip("http://"@.len() as int) + "/api/ws"@
    } else if "ws://"@.is_prefix_of(base) || "wss://"@.is_prefix_of(base) {
        base + "/api/ws"@
    } else {
        "ws://"@ + base + "/api/ws"@
    }
}

/// The URL under which a device at `base` tells of itself.
pub open spec fn info_url(base: Seq<char>) -> Seq<char> {
    base + "/api/system/info"@
}

/// The URL under which a device at `base` tells of its mining chip.
pub open spec fn chip_url(base: Seq<char>) -> Seq<char> {
    base + "/api/system/asic"@
}

impl Config {
    /// The configuration for the first argument of the command line and the
    /// value of `BITAXE_URL`, where there are any.
    pub fn from_args(first: Option<String>, variable: Option<String>) -> (r: Startup)
        ensures
            r is Help <==> (first matches Some(arg) && asks_for_help(arg@)),
            r matches Startup::Run(config) ==> config.base_url@ == text::without_trailing(
                chosen_url(first, variable),
                '/',
            ),
            r matches Startup::Run(config) ==> config.base_url@ == address(first, variable),
    {
        let url = match first {
            Some(arg) => {
                if same_text(arg.as_str(), "--help") || same_text(arg.as_str(), "-h") {
                    return Startup::Help;
                }
                arg
            },
            None => match variable {
                Some(value) => value,
                None => "http://bitaxe.local".to_owned(),
            },
        };
        Startup::Run(Config { base_url: trim_end_matches(url.as_str(), '/') })
    }

    /// The URL of the device's log stream.
    pub fn websocket_url(&self) -> (r: String)
        ensures
            r@ == log_url(self.base_url@),
    {
        if let Some(rest) = strip_prefix(self.base_url.as_str(), "https://") {
            let mut r = "wss://".to_owned();
            r.append(rest.as_str());
            r.append("/api/ws");
            return r;
        }
        if let Some(rest) = strip_prefix(self.base_url.as_str(), "http://") {
            let mut r = "ws://".to_owned();
            r.append(rest.as_str());
            r.append("/api/ws");
            return r;
        }
        let chars = chars_of(self.base_url.as_str());
        if starts_with(&chars, "ws://") || starts_with(&chars, "wss://") {
            let mut r = self.base_url.clone();
            r.append("/api/ws");
            r
        } else {
            let mut r = "ws://".to_owned();
            r.append(self.base_url.as_str());
            r.append("/api/ws");
            r
        }
    }

    /// The URL under which the device tells of itself.
    pub fn system_info_url(&self) -> (r: String)
        ensures
            r@ == self.base_url@ + "/api/system/info"@,
            r@ == info_url(self.base_url@),
    {
        let mut r = self.base_url.clone();
        r.append("/api/system/info");
        r
    }

    /// The URL under which the device tells of its mining chip.
    pub fn asic_url(&self) -> (r: String)
        ensures
            r@ == self.base_url@ + "/api/system/asic"@,
            r@ == chip_url(self.base_url@),
    {
        let mut r = self.base_url.clone();
        r.append("/api/system/asic");
        r
    }
}

/// The lines of the help.
pub open spec fn help_text() -> Seq<Seq<char>> {
    seq![
        "axetui - Bitaxe Ratatui dashboard"@,
        ""@,
        "Usage:"@,
        "  axetui [BITAXE_URL]"@,
        ""@,
        "Examples:"@,
        "  axetui http://bitaxe.local"@,
        "  BITAXE_URL=http://192.168.1.77 cargo run"@,
        ""@,
        "Keys:"@,
        "  q    quit"@,
        "  r    refresh immediately"@,
    ]
}

/// The help that is printed for `--help`, line by line.
pub fn help_lines() -> (r: Vec<&'static str>)
    ensures
        r.deep_view() == seq![
            "axetui - Bitaxe Ratatui dashboard"@,
            ""@,
            "Usage:"@,
            "  axetui [BITAXE_URL]"@,
            ""@,
            "Examples:"@,
            "  axetui http://bitaxe.local"@,
            "  BITAXE_URL=http://192.168.1.77 cargo run"@,
            ""@,
            "Keys:"@,
            "  q    quit"@,
            "  r    refresh immediately"@,
        ],
        r.deep_view() == help_text(),
{
    let r: Vec<&'static str> =
        vec![
        "axetui - Bitaxe Ratatui dashboard",
        "",
        "Usage:",
        "  axetui [BITAXE_URL]",
        "",
        "Examples:",
        "  axetui http://bitaxe.local",
        "  BITAXE_URL=http://192.168.1.77 cargo run",
        "",
        "Keys:",
        "  q    quit",
        "  r    refresh immediately",
    ];
    assert(r.deep_view() =~= seq![
        "axetui - Bitaxe Ratatui dashboard"@,
        ""@,
        "Usage:"@,
        "  axetui [BITAXE_URL]"@,
        ""@,
        "Examples:"@,
        "  axetui http://bitaxe.local"@,
        "  BITAXE_URL=http://192.168.1.77 cargo run"@,
        ""@,
        "Keys:"@,
        "  q    quit"@,
        "  r    refresh immediately"@,
    ]);
    r
}

// ---------------------------------------------------------------------------
// Laws
// ---------------------------------------------------------------------------

/// The address of a configuration never ends with a slash, so the paths that
/// are appended to it are never preceded by two.
pub proof fn base_url_has_no_trailing_slash(url: Seq<char>)
    ensures
        text::without_trailing(url, '/').len() > 0 ==> text::without_trailing(url, '/').last()
            != '/',
        text::without_trailing(url, '/').is_prefix_of(url),
    decreases url.len(),
{
    if url.len() > 0 && url.last() == '/' {
        base_url_has_no_trailing_slash(url.drop_last());
        let r = text::without_trailing(url, '/');
        assert(url.drop_last().subrange(0, r.len() as int) =~= url.subrange(0, r.len() as int));
    }
}

/// The log stream is reached over a web socket, below the path `/api/ws`, and
/// over an encrypted one exactly where the address asks for encryption.
pub proof fn log_url_is_a_web_socket(base: Seq<char>)
    ensures
        "/api/ws"@.is_suffix_of(log_url(base)),
        "ws://"@.is_prefix_of(log_url(base)) || "wss://"@.is_prefix_of(log_url(base)),
        "wss://"@.is_prefix_of(log_url(base)) <==> "https://"@.is_prefix_of(base)
            || "wss://"@.is_prefix_of(base),
{
    reveal_strlit("https://");
    reveal_strlit("http://");
    reveal_strlit("ws://");
    reveal_strlit("wss://");
    reveal_strlit("/api/ws");
    let url = log_url(base);
    assert(url.subrange(url.len() - 7, url.len() as int) =~= "/api/ws"@);
    assert("ws://"@[0] == 'w' && "ws://"@[1] == 's' && "ws://"@[2] == ':');
    assert("wss://"@[0] == 'w' && "wss://"@[1] == 's' && "wss://"@[2] == 's');
    if "https://"@.is_prefix_of(base) {
        assert(url.subrange(0, 6) =~= "wss://"@);
        assert("https://"@[0] == base[0]);
    } else if "http://"@.is_prefix_of(base) {
        assert(url.subrange(0, 5) =~= "ws://"@);
        assert("http://"@[0] == base[0]);
        assert(url[2] == ':');
    } else if "ws://"@.is_prefix_of(base) {
        assert(url.subrange(0, 5) =~= base.subrange(0, 5));
        assert(base[2] == base.subrange(0, 5)[2]);
        assert(url[2] == ':');
    } else if "wss://"@.is_prefix_of(base) {
        assert(url.subrange(0, 6) =~= base.subrange(0, 6));
    } else {
        assert(url.subrange(0, 5) =~= "ws://"@);
        assert(url[2] == ':');
    }
}


/// The address of an argument is the argument, up to slashes at its end, whatever
/// the environment says; without an argument it is that of the environment; and
/// without either it is the one that the device has by default.
pub proof fn address_is_the_one_that_was_given(first: Option<String>, variable: Option<String>)
    ensures
        first matches Some(arg) ==> without_slashes(address(first, variable), arg@),
        first is None ==> (variable matches Some(value) ==> without_slashes(
            address(first, variable),
            value@,
        )),
        first is None && variable is None ==> address(first, variable) == "http://bitaxe.local"@,
{
    text::only_trailing_copies_are_removed(chosen_url(first, variable), '/');
    if first is None && variable is None {
        reveal_strlit("http://bitaxe.local");
    }
}

/// `r` is `url` without the slashes at its end.
pub open spec fn without_slashes(r: Seq<char>, url: Seq<char>) -> bool {
    &&& r.is_prefix_of(url)
    &&& r.len() > 0 ==> r.last() != '/'
    &&& forall|i: int| r.len() <= i < url.len() ==> #[trigger] url[i] == '/'
}

/// Help is asked for by two arguments and by nothing else, so by no address.
pub proof fn no_address_asks_for_help(arg: Seq<char>)
    ensures
        asks_for_help(arg) <==> arg == "--help"@ || arg == "-h"@,
        asks_for_help(arg) ==> arg[0] == '-',
{
    reveal_strlit("--help");
    reveal_strlit("-h");
}

/// The log stream is found at the address itself. Only the scheme is replaced:
/// what stands between it and the path is the address without its scheme, every
/// character of it.
pub proof fn log_url_keeps_the_address(host: Seq<char>)
    ensures
        log_url("http://"@ + host) == "ws://"@ + host + "/api/ws"@,
        log_url("https://"@ + host) == "wss://"@ + host + "/api/ws"@,
        log_url("ws://"@ + host) == "ws://"@ + host + "/api/ws"@,
        log_url("wss://"@ + host) == "wss://"@ + host + "/api/ws"@,
{
    reveal_strlit("https://");
    reveal_strlit("http://");
    reveal_strlit("ws://");
    reveal_strlit("wss://");
    let (h, hs, w, ws) = ("http://"@ + host, "https://"@ + host, "ws://"@ + host, "wss://"@ + host);
    assert(h.subrange(0, 7) =~= "http://"@ && h.skip(7) =~= host);
    assert(hs.subrange(0, 8) =~= "https://"@ && hs.skip(8) =~= host);
    assert(w.subrange(0, 5) =~= "ws://"@);
    assert(ws.subrange(0, 6) =~= "wss://"@);
    assert("https://"@.is_prefix_of(h) ==> h.subrange(0, 8)[4] == 's');
    assert(h[4] == ':' && w[0] == 'w' && ws[0] == 'w');
    assert("https://"@.is_prefix_of(w) ==> w.subrange(0, 8)[0] == 'h');
    assert("http://"@.is_prefix_of(w) ==> w.subrange(0, 7)[0] == 'h');
    assert("https://"@.is_prefix_of(ws) ==> ws.subrange(0, 8)[0] == 'h');
    assert("http://"@.is_prefix_of(ws) ==> ws.subrange(0, 7)[0] == 'h');
}

/// An address without a scheme is taken as it is, behind the scheme of a web
/// socket.
pub proof fn log_url_of_a_bare_address(base: Seq<char>)
    requires
        !"http://"@.is_prefix_of(base),
        !"https://"@.is_prefix_of(base),
        !"ws://"@.is_prefix_of(base),
        !"wss://"@.is_prefix_of(base),
    ensures
        log_url(base) == "ws://"@ + base + "/api/ws"@,
{
}

/// The log of one device is never looked for at another: two different addresses
/// of the same scheme have different log streams.
pub proof fn different_addresses_have_different_logs(a: Seq<char>, b: Seq<char>)
    ensures
        log_url("http://"@ + a) == log_url("http://"@ + b) ==> a == b,
        log_url("https://"@ + a) == log_url("https://"@ + b) ==> a == b,
        log_url("http://"@ + a) != log_url("https://"@ + b),
{
    log_url_keeps_the_address(a);
    log_url_keeps_the_address(b);
    reveal_strlit("ws://");
    reveal_strlit("wss://");
    reveal_strlit("/api/ws");
    let (x, y) = ("ws://"@ + a + "/api/ws"@, "ws://"@ + b + "/api/ws"@);
    if x == y {
        assert(a =~= x.subrange(5, x.len() - 7));
        assert(b =~= y.subrange(5, y.len() - 7));
    }
    let (u, v) = ("wss://"@ + a + "/api/ws"@, "wss://"@ + b + "/api/ws"@);
    if u == v {
        assert(a =~= u.subrange(6, u.len() - 7));
        assert(b =~= v.subrange(6, v.len() - 7));
    }
    assert(x[2] == ':' && v[2] == 's');
}

/// The device is asked below its address: what is requested of it begins with the
/// address, every character of it, and goes on with the path.
pub proof fn requests_go_below_the_address(base: Seq<char>)
    ensures
        base.is_prefix_of(info_url(base)),
        info_url(base).skip(base.len() as int) == "/api/system/info"@,
        base.is_prefix_of(chip_url(base)),
        chip_url(base).skip(base.len() as int) == "/api/system/asic"@,
{
    assert(info_url(base).subrange(0, base.len() as int) =~= base);
    assert(info_url(base).skip(base.len() as int) =~= "/api/system/info"@);
    assert(chip_url(base).subrange(0, base.len() as int) =~= base);
    assert(chip_url(base).skip(base.len() as int) =~= "/api/system/asic"@);
}

/// The help shows how to give an address: its first example gives the one that is
/// used without any, and its second one by the environment. It ends with the keys.
pub proof fn help_shows_the_default_address()
    ensures
        help_text().len() == 12,
        help_text()[0] == "axetui - Bitaxe Ratatui dashboard"@,
        help_text()[2] == "Usage:"@ && help_text()[3] == "  axetui [BITAXE_URL]"@,
        help_text()[5] == "Examples:"@,
        help_text()[6] == "  axetui "@ + address(None, None),
        help_text()[7] == "  BITAXE_URL="@ + "http://192.168.1.77"@ + " cargo run"@,
        help_text()[9] == "Keys:"@,
        help_text()[10] == "  q    quit"@ && help_text()[11] == "  r    refresh immediately"@,
        help_text()[1].len() == 0 && help_text()[4].len() == 0 && help_text()[8].len() == 0,
{
    address_is_the_one_that_was_given(None, None);
    reveal_strlit("");
    reveal_strlit("  axetui ");
    reveal_strlit("http://bitaxe.local");
    reveal_strlit("  axetui http://bitaxe.local");
    reveal_strlit("  BITAXE_URL=");
    reveal_strlit("http://192.168.1.77");
    reveal_strlit(" cargo run");
    reveal_strlit("  BITAXE_URL=http://192.168.1.77 cargo run");
    assert(help_text()[6] =~= "  axetui "@ + "http://bitaxe.local"@);
    assert(help_text()[7] =~= "  BITAXE_URL="@ + "http://192.168.1.77"@ + " cargo run"@);
}

} // verus!
