//! The texts of the dashboard's panes.
//!
//! A pane is a list of lines, and a line a list of styled pieces of text.

use std::collections::VecDeque;
use vstd::prelude::*;
use vstd::string::*;

use crate::state::{App, AppModel};
use crate::text;
use crate::text::{
    chars_of,
    clip_text,
    contains,
    decimal_text,
    signed_decimal_text,
    trim_start_matches,
};
use crate::theme;
use crate::theme::{Color, Span, SpanModel, Theme};

verus! {

// ---------------------------------------------------------------------------
// The header
// ---------------------------------------------------------------------------

/// The line of the header's left pane.
pub open spec fn title_model(app: AppModel, theme: Theme) -> Seq<SpanModel> {
    seq![
        theme::in_bold(" BITAXE "@, theme.accent),
        theme::in_color("live terminal dashboard"@, theme.text),
        theme::unstyled("  "@),
        theme::in_color(app.connection(), theme.info),
    ]
}

/// The address without the scheme that it begins with.
pub open spec fn endpoint(base_url: Seq<char>) -> Seq<char> {
    text::without_leading(text::without_leading(base_url, "http://"@), "https://"@)
}

/// The text of the header's right pane, before it is clipped.
pub open spec fn session_text(app: AppModel, now: u64) -> Seq<char> {
    endpoint(app.base_url) + " | "@ + app.status() + " | "@ + app.last_update(now)
}

/// The line of the header's right pane, clipped to `room` characters.
pub open spec fn session_model(app: AppModel, room: nat, now: u64) -> SpanModel {
    theme::in_color(text::clipped(session_text(app, now), room), theme::session_color())
}

/// The line of the header's left pane.
pub fn header_title(app: &App, theme: Theme) -> (r: Vec<Span>)
    ensures
        r.deep_view() == title_model(app@, theme),
{
    let mut r: Vec<Span> = Vec::new();
    r.push(Span::bold(" BITAXE ", theme.accent));
    r.push(Span::colored("live terminal dashboard", theme.text));
    r.push(Span::raw("  "));
    r.push(Span::colored(app.connection_label(), theme.info));
    assert(r.deep_view() =~= title_model(app@, theme));
    r
}

/// The line of the header's right pane, for a pane with room for `max_chars`
/// characters.
pub fn compact_session_line(app: &App, max_chars: usize, now: u64) -> (r: Span)
    ensures
        r.deep_view() == theme::in_color(
            text::clipped(session_text(app@, now), max_chars as nat),
            theme::session_color(),
        ),
        r.deep_view() == session_model(app@, max_chars as nat, now),
{
    let without_http = trim_start_matches(app.base_url(), "http://");
    let mut line = trim_start_matches(without_http.as_str(), "https://");
    line.append(" | ");
    line.append(app.status_text().as_str());
    line.append(" | ");
    line.append(app.last_update_text(now).as_str());
    Span::colored(clip_text(line.as_str(), max_chars).as_str(), Color::Rgb(255, 204, 128))
}

/// The line of the header's right pane, for a pane that is `width` wide, borders
/// included.
pub fn session_line(app: &App, width: u16, now: u64) -> (r: Span)
    ensures
        r.deep_view() == theme::in_color(
            text::clipped(session_text(app@, now), inside(width)),
            theme::session_color(),
        ),
        r.deep_view() == session_model(app@, inside(width), now),
{
    compact_session_line(app, width.saturating_sub(2) as usize, now)
}

/// What two borders leave of an extent.
pub open spec fn inside(extent: u16) -> nat {
    if extent < 2 {
        0
    } else {
        (extent - 2) as nat
    }
}

// ---------------------------------------------------------------------------
// Lines of a name and a value
// ---------------------------------------------------------------------------

/// A line of a name and a value.
pub open spec fn entry_model(name: Seq<char>, value: SpanModel, theme: Theme) -> Seq<SpanModel> {
    seq![theme::in_color(name, theme.muted), theme::unstyled("  "@), value]
}

/// A line of a name and a value.
fn entry(name: &str, value: Span, theme: Theme) -> (r: Vec<Span>)
    ensures
        r.deep_view() == entry_model(name@, value.deep_view(), theme),
{
    let mut r: Vec<Span> = Vec::new();
    r.push(Span::colored(name, theme.muted));
    r.push(Span::raw("  "));
    r.push(value);
    assert(r.deep_view() =~= entry_model(name@, value.deep_view(), theme));
    r
}

/// The lines of the hashrate pane.
pub open spec fn stats_model(app: AppModel, theme: Theme) -> Seq<Seq<SpanModel>> {
    let hashrate = app.rendered.figures.hashrate@ + " GH/s"@;
    seq![
        entry_model("Current"@, theme::in_bold(hashrate, theme.text), theme),
        entry_model("Best Diff"@, theme::in_color(app.snapshot.best_diff@, theme.text), theme),
        entry_model(
            "Network Diff"@,
            theme::in_color(app.snapshot.network_difficulty@, theme.text),
            theme,
        ),
    ]
}

/// The lines of the hashrate pane.
pub fn hashrate_stats(app: &App, theme: Theme) -> (r: Vec<Vec<Span>>)
    ensures
        r.deep_view() == stats_model(app@, theme),
{
    let snapshot = app.snapshot();
    let mut hashrate = app.rendered().figures.hashrate.clone();
    hashrate.append(" GH/s");
    let mut r: Vec<Vec<Span>> = Vec::new();
    r.push(entry("Current", Span::bold(hashrate.as_str(), theme.text), theme));
    r.push(entry("Best Diff", Span::colored(snapshot.best_diff.as_str(), theme.text), theme));
    r.push(
        entry(
            "Network Diff",
            Span::colored(snapshot.network_difficulty.as_str(), theme.text),
            theme,
        ),
    );
    assert(r.deep_view() =~= stats_model(app@, theme));
    r
}

/// The text about the wireless network.
pub open spec fn wifi_text(app: AppModel) -> Seq<char> {
    app.snapshot.wifi_status@ + " | "@ + text::signed_decimal(app.snapshot.wifi_rssi as int)
        + " dBm"@
}

/// The text about the shares.
pub open spec fn shares_text(app: AppModel) -> Seq<char> {
    text::decimal(app.snapshot.shares_accepted as nat) + " accepted / "@ + text::decimal(
        app.snapshot.shares_rejected as nat,
    ) + " rejected / "@ + text::decimal(
        crate::snapshot::stale_count(app.snapshot.share_reasons@) as nat,
    ) + " stale"@
}

/// The lines of the status pane.
pub open spec fn status_model(app: AppModel, theme: Theme) -> Seq<Seq<SpanModel>> {
    let shown = app.rendered.figures;
    seq![
        entry_model("Pool"@, theme::in_bold(app.snapshot.pool(), theme.text), theme),
        entry_model("Worker"@, theme::in_color(app.snapshot.stratum_user@, theme.text), theme),
        entry_model(
            "Latency"@,
            theme::in_color(shown.response_time@ + " ms"@, theme.accent_soft),
            theme,
        ),
        entry_model("WiFi"@, theme::in_color(wifi_text(app), theme.text), theme),
        entry_model("Shares"@, theme::in_color(shares_text(app), theme.text), theme),
        entry_model("Heap"@, theme::in_color(shown.free_heap@ + " MB free"@, theme.text), theme),
        Seq::empty(),
        seq![theme::in_color(app.message, theme.text)],
    ]
}

/// The lines of the status pane.
pub fn status_pane(app: &App, theme: Theme) -> (r: Vec<Vec<Span>>)
    ensures
        r.deep_view() == status_model(app@, theme),
{
    let snapshot = app.snapshot();
    let shown = &app.rendered().figures;
    let mut latency = shown.response_time.clone();
    latency.append(" ms");
    let mut wifi = snapshot.wifi_status.clone();
    wifi.append(" | ");
    wifi.append(signed_decimal_text(snapshot.wifi_rssi).as_str());
    wifi.append(" dBm");
    let mut shares = decimal_text(snapshot.shares_accepted as u64);
    shares.append(" accepted / ");
    shares.append(decimal_text(snapshot.shares_rejected as u64).as_str());
    shares.append(" rejected / ");
    shares.append(decimal_text(snapshot.stale_shares() as u64).as_str());
    shares.append(" stale");
    let mut heap = shown.free_heap.clone();
    heap.append(" MB free");
    let mut message: Vec<Span> = Vec::new();
    message.push(Span::colored(app.message(), theme.text));
    assert(message.deep_view() =~= seq![theme::in_color(app@.message, theme.text)]);
    let empty: Vec<Span> = Vec::new();
    assert(empty.deep_view() =~= Seq::<SpanModel>::empty());
    let mut r: Vec<Vec<Span>> = Vec::new();
    r.push(entry("Pool", Span::bold(snapshot.pool_label().as_str(), theme.text), theme));
    r.push(entry("Worker", Span::colored(snapshot.stratum_user.as_str(), theme.text), theme));
    r.push(entry("Latency", Span::colored(latency.as_str(), theme.accent_soft), theme));
    r.push(entry("WiFi", Span::colored(wifi.as_str(), theme.text), theme));
    r.push(entry("Shares", Span::colored(shares.as_str(), theme.text), theme));
    r.push(entry("Heap", Span::colored(heap.as_str(), theme.text), theme));
    r.push(empty);
    r.push(message);
    assert(r.deep_view() =~= status_model(app@, theme));
    r
}

// ---------------------------------------------------------------------------
// The log
// ---------------------------------------------------------------------------

/// The line tells of success.
pub open spec fn good_news(line: Seq<char>) -> bool {
    text::occurs("accept"@, line) || text::occurs("share"@, line) || text::occurs(
        "found block"@,
        line,
    ) || text::occurs("connected"@, line)
}

/// The line is about a connection.
pub open spec fn network_news(line: Seq<char>) -> bool {
    text::occurs("pool"@, line) || text::occurs("stratum"@, line) || text::occurs("ws "@, line)
        || text::occurs("subscribed"@, line)
}

/// The line tells of trouble.
pub open spec fn bad_news(line: Seq<char>) -> bool {
    text::occurs("warn"@, line) || text::occurs("error"@, line)
}

/// The colour of a line of the log: that of the first kind it belongs to.
pub open spec fn line_color(line: Seq<char>, theme: Theme) -> Color {
    if good_news(line) {
        theme.ok
    } else if network_news(line) {
        theme.info
    } else if bad_news(line) {
        theme.warn
    } else {
        theme.muted
    }
}

/// The lines of the log pane: the newest that fit into it, each clipped to its
/// width.
pub open spec fn log_model(
    logs: Seq<Seq<char>>,
    width: u16,
    height: u16,
    theme: Theme,
) -> Seq<Seq<SpanModel>> {
    let shown = crate::state::last_of(logs, inside(height));
    Seq::new(
        shown.len(),
        |i: int|
            seq![
                theme::in_color(
                    text::clipped(shown[i], inside(width)),
                    line_color(shown[i], theme),
                ),
            ],
    )
}

/// The colour of a line of the log.
pub fn log_color(line: &str, theme: Theme) -> (r: Color)
    ensures
        r == line_color(line@, theme),
{
    let chars = chars_of(line);
    if contains(&chars, "accept") || contains(&chars, "share") || contains(&chars, "found block")
        || contains(&chars, "connected") {
        theme.ok
    } else if contains(&chars, "pool") || contains(&chars, "stratum") || contains(&chars, "ws ")
        || contains(&chars, "subscribed") {
        theme.info
    } else if contains(&chars, "warn") || contains(&chars, "error") {
        theme.warn
    } else {
        theme.muted
    }
}

/// The lines of the log pane, for a pane of the given extents, borders included.
pub fn log_pane(app: &App, width: u16, height: u16, theme: Theme) -> (r: Vec<Vec<Span>>)
    ensures
        r.deep_view() == log_model(app@.logs, width, height, theme),
{
    let logs: &VecDeque<String> = app.logs();
    let content_width: usize = width.saturating_sub(2) as usize;
    let visible_lines: usize = height.saturating_sub(2) as usize;
    let start: usize = logs.len().saturating_sub(visible_lines);
    let ghost shown = crate::state::last_of(app@.logs, inside(height));
    let mut r: Vec<Vec<Span>> = Vec::new();
    let mut i: usize = start;
    while i < logs.len()
        invariant
            start <= i <= logs@.len(),
            logs.deep_view() == app@.logs,
            content_width == inside(width),
            shown == app@.logs.skip(start as int),
            shown == crate::state::last_of(app@.logs, inside(height)),
            r@.len() == i - start,
            r.deep_view() =~= log_model(app@.logs, width, height, theme).take(i - start),
        decreases logs.len() - i,
    {
        let line: &str = logs[i].as_str();
        assert(line@ == shown[i - start]);
        let clipped = clip_text(line, content_width);
        let mut spans: Vec<Span> = Vec::new();
        spans.push(Span::colored(clipped.as_str(), log_color(line, theme)));
        assert(spans.deep_view() =~= log_model(app@.logs, width, height, theme)[i - start]);
        r.push(spans);
        i += 1;
    }
    assert(r.deep_view() =~= log_model(app@.logs, width, height, theme));
    r
}

// ---------------------------------------------------------------------------
// The footer and the frames
// ---------------------------------------------------------------------------

/// The line of the footer.
pub open spec fn footer_model(app: AppModel, theme: Theme, now: u64) -> Seq<SpanModel> {
    seq![
        theme::on_color(" q "@, theme.bg, theme.accent),
        theme::in_color(" quit "@, theme.muted),
        theme::on_color(" r "@, theme.bg, theme.info),
        theme::in_color(" refresh now "@, theme.muted),
        theme::in_color(" | "@, theme.muted),
        theme::in_color(app.connection_details(now), theme.text),
    ]
}

/// The line of the footer.
pub fn footer_line(app: &App, theme: Theme, now: u64) -> (r: Vec<Span>)
    ensures
        r.deep_view() == footer_model(app@, theme, now),
{
    let mut r: Vec<Span> = Vec::new();
    r.push(Span::inverse(" q ", theme.bg, theme.accent));
    r.push(Span::colored(" quit ", theme.muted));
    r.push(Span::inverse(" r ", theme.bg, theme.info));
    r.push(Span::colored(" refresh now ", theme.muted));
    r.push(Span::colored(" | ", theme.muted));
    r.push(Span::colored(app.connection_detail(now).as_str(), theme.text));
    assert(r.deep_view() =~= footer_model(app@, theme, now));
    r
}

/// A pane of the dashboard that has a title of its own.
#[derive(Clone, Copy, Debug, PartialEq, Eq, Structural)]
pub enum Pane {
    Node,
    Session,
    Hashrate,
    HashrateStats,
    Status,
    Log,
    Controls,
}

impl Pane {
    /// The title of the pane.
    pub open spec fn words(self) -> Seq<char> {
        match self {
            Pane::Node => "Node"@,
            Pane::Session => "Session"@,
            Pane::Hashrate => "Hashrate"@,
            Pane::HashrateStats => "Hashrate Stats"@,
            Pane::Status => "Bitaxe Status"@,
            Pane::Log => "Log"@,
            Pane::Controls => "Controls"@,
        }
    }

    /// The title of the pane.
    pub fn title(self) -> (r: &'static str)
        ensures
            r@ == self.words(),
    {
        match self {
            Pane::Node => "Node",
            Pane::Session => "Session",
            Pane::Hashrate => "Hashrate",
            Pane::HashrateStats => "Hashrate Stats",
            Pane::Status => "Bitaxe Status",
            Pane::Log => "Log",
            Pane::Controls => "Controls",
        }
    }
}

/// The title in the frame of a pane.
pub open spec fn title_of(title: Seq<char>, theme: Theme) -> Option<SpanModel> {
    if title.len() == 0 {
        None
    } else {
        Some(theme::in_color(" "@ + title + " "@, theme.muted))
    }
}

/// The title in the frame of a pane: set off by blanks, or none where the pane
/// has no title.
pub fn panel_title(title: &str, theme: Theme) -> (r: Option<Span>)
    ensures
        r is None <==> title@.len() == 0,
        r matches Some(span) ==> span.deep_view() == theme::in_color(
            " "@ + title@ + " "@,
            theme.muted,
        ),
        r matches Some(span) ==> Some(span.deep_view()) == title_of(title@, theme),
        r is None ==> title_of(title@, theme) is None,
{
    if title.is_empty() {
        None
    } else {
        let mut text = " ".to_owned();
        text.append(title);
        text.append(" ");
        Some(Span::colored(text.as_str(), theme.muted))
    }
}

// ---------------------------------------------------------------------------
// Laws
// ---------------------------------------------------------------------------

/// The endpoint in the session line does not begin with `https://`; and it
/// begins with `http://` only where that stood behind an `https://`.
pub proof fn endpoint_has_no_scheme(base_url: Seq<char>)
    ensures
        !"https://"@.is_prefix_of(endpoint(base_url)),
        "http://"@.is_prefix_of(endpoint(base_url)) ==> "https://"@.is_prefix_of(
            text::without_leading(base_url, "http://"@),
        ),
{
    reveal_strlit("http://");
    reveal_strlit("https://");
    let rest = text::without_leading(base_url, "http://"@);
    text::no_leading_copy_is_left(base_url, "http://"@);
    text::no_leading_copy_is_left(rest, "https://"@);
}

/// The log pane shows no more lines than it has room for, no line longer than
/// it is wide, and the newest line whenever it has room for one.
pub proof fn log_pane_fits(logs: Seq<Seq<char>>, width: u16, height: u16, theme: Theme)
    ensures
        log_model(logs, width, height, theme).len() <= inside(height),
        forall|i: int|
            0 <= i < log_model(logs, width, height, theme).len() ==> (#[trigger] log_model(
                logs,
                width,
                height,
                theme,
            )[i])[0].text.len() <= inside(width),
        logs.len() > 0 && height > 2 ==> log_model(logs, width, height, theme).last()[0].text
            == text::clipped(logs.last(), inside(width)),
{
}

/// The line reads `name`, two blanks and `value`: the name muted, and the value
/// in the given colour, bold or not.
pub open spec fn tells(
    line: Seq<SpanModel>,
    name: Seq<char>,
    value: Seq<char>,
    color: Color,
    bold: bool,
    theme: Theme,
) -> bool {
    &&& line.len() == 3
    &&& is_piece(line[0], name, Some(theme.muted), false)
    &&& is_piece(line[1], "  "@, None, false)
    &&& is_piece(line[2], value, Some(color), bold)
}

/// The piece reads `text`, in the given colour on no other, bold or not.
pub open spec fn is_piece(
    piece: SpanModel,
    text: Seq<char>,
    color: Option<Color>,
    bold: bool,
) -> bool {
    piece.text == text && piece.fg == color && piece.bg is None && piece.bold == bold
}

/// In the hashrate pane each value stands behind its own name: the hashrate with
/// its unit, then the best difficulty, then that of the network.
pub proof fn stats_stand_behind_their_names(
    app: AppModel,
    hashrate: Seq<char>,
    best: Seq<char>,
    network: Seq<char>,
    theme: Theme,
)
    requires
        app.rendered.figures.hashrate@ == hashrate,
        app.snapshot.best_diff@ == best,
        app.snapshot.network_difficulty@ == network,
    ensures
        stats_model(app, theme).len() == 3,
        tells(stats_model(app, theme)[0], "Current"@, hashrate + " GH/s"@, theme.text, true, theme),
        tells(stats_model(app, theme)[1], "Best Diff"@, best, theme.text, false, theme),
        tells(stats_model(app, theme)[2], "Network Diff"@, network, theme.text, false, theme),
{
}

/// A change of one figure leaves the lines of the others as they were.
pub proof fn stats_do_not_mix(a: AppModel, b: AppModel, theme: Theme)
    ensures
        a.rendered.figures.hashrate@ == b.rendered.figures.hashrate@ ==> stats_model(a, theme)[0]
            == stats_model(b, theme)[0],
        a.snapshot.best_diff@ == b.snapshot.best_diff@ ==> stats_model(a, theme)[1]
            == stats_model(b, theme)[1],
        a.snapshot.network_difficulty@ == b.snapshot.network_difficulty@ ==> stats_model(
            a,
            theme,
        )[2] == stats_model(b, theme)[2],
{
}

/// In the status pane each value stands behind its own name; below them, after
/// an empty line, stands the message, every character of it.
pub proof fn status_stands_behind_its_names(
    app: AppModel,
    latency: Seq<char>,
    heap: Seq<char>,
    theme: Theme,
)
    requires
        app.rendered.figures.response_time@ == latency,
        app.rendered.figures.free_heap@ == heap,
    ensures
        ({
            let lines = status_model(app, theme);
            let s = app.snapshot;
            &&& lines.len() == 8
            &&& tells(lines[0], "Pool"@, s.pool(), theme.text, true, theme)
            &&& tells(lines[1], "Worker"@, s.stratum_user@, theme.text, false, theme)
            &&& tells(lines[2], "Latency"@, latency + " ms"@, theme.accent_soft, false, theme)
            &&& tells(
                lines[3],
                "WiFi"@,
                s.wifi_status@ + " | "@ + text::signed_decimal(s.wifi_rssi as int) + " dBm"@,
                theme.text,
                false,
                theme,
            )
            &&& tells(
                lines[4],
                "Shares"@,
                text::decimal(s.shares_accepted as nat) + " accepted / "@ + text::decimal(
                    s.shares_rejected as nat,
                ) + " rejected / "@ + text::decimal(
                    crate::snapshot::stale_count(s.share_reasons@) as nat,
                ) + " stale"@,
                theme.text,
                false,
                theme,
            )
            &&& tells(lines[5], "Heap"@, heap + " MB free"@, theme.text, false, theme)
            &&& lines[6].len() == 0
            &&& lines[7].len() == 1
            &&& is_piece(lines[7][0], app.message, Some(theme.text), false)
        }),
{
}

/// A change of one value leaves the lines of the others as they were.
pub proof fn status_does_not_mix(a: AppModel, b: AppModel, theme: Theme)
    ensures
        ({
            let (x, y) = (status_model(a, theme), status_model(b, theme));
            let (s, t) = (a.snapshot, b.snapshot);
            &&& s.stratum_url@ == t.stratum_url@ && s.is_using_fallback_stratum
                == t.is_using_fallback_stratum ==> x[0] == y[0]
            &&& s.stratum_user@ == t.stratum_user@ ==> x[1] == y[1]
            &&& a.rendered.figures.response_time@ == b.rendered.figures.response_time@ ==> x[2]
                == y[2]
            &&& s.wifi_status@ == t.wifi_status@ && s.wifi_rssi == t.wifi_rssi ==> x[3] == y[3]
            &&& s.shares_accepted == t.shares_accepted && s.shares_rejected == t.shares_rejected
                && s.share_reasons@ == t.share_reasons@ ==> x[4] == y[4]
            &&& a.rendered.figures.free_heap@ == b.rendered.figures.free_heap@ ==> x[5] == y[5]
            &&& a.message == b.message ==> x[7] == y[7]
        }),
{
}

/// The header names the program, and the state of the connection behind it.
pub proof fn header_ends_with_the_connection(app: AppModel, theme: Theme)
    ensures
        ({
            let line = title_model(app, theme);
            &&& line.len() == 4
            &&& is_piece(line[0], " BITAXE "@, Some(theme.accent), true)
            &&& is_piece(line[1], "live terminal dashboard"@, Some(theme.text), false)
            &&& is_piece(line[2], "  "@, None, false)
            &&& is_piece(line[3], app.connection(), Some(theme.info), false)
        }),
{
}

/// The endpoint is the address without its scheme, every character of it; an
/// address without a scheme is its own endpoint.
pub proof fn endpoint_keeps_the_host(host: Seq<char>)
    requires
        !"http://"@.is_prefix_of(host),
        !"https://"@.is_prefix_of(host),
    ensures
        endpoint(host) == host,
        endpoint("http://"@ + host) == host,
        endpoint("https://"@ + host) == host,
{
    reveal_strlit("http://");
    reveal_strlit("https://");
    text::leading_copies_are_removed_one_by_one(host, "http://"@);
    text::leading_copies_are_removed_one_by_one(host, "https://"@);
    let secure = "https://"@ + host;
    assert("http://"@.is_prefix_of(secure) ==> secure.subrange(0, 7)[4] == ':');
    assert(secure[4] == 's');
    text::leading_copies_are_removed_one_by_one(secure, "http://"@);
}

/// The session line reads the host, the state of the device and the age of its
/// data, in this order, set off by bars.
pub proof fn session_reads_host_status_and_age(
    app: AppModel,
    host: Seq<char>,
    status: Seq<char>,
    age: Seq<char>,
    now: u64,
)
    requires
        !"http://"@.is_prefix_of(host),
        !"https://"@.is_prefix_of(host),
        app.base_url == host || app.base_url == "http://"@ + host || app.base_url == "https://"@
            + host,
        app.status() == status,
        app.last_update(now) == age,
    ensures
        session_text(app, now) == host + " | "@ + status + " | "@ + age,
        theme::session_color() == Color::Rgb(255, 204, 128),
{
    endpoint_keeps_the_host(host);
}

/// One of the words stands somewhere in the line.
pub open spec fn holds_one_of(line: Seq<char>, words: Seq<Seq<char>>) -> bool {
    exists|i: int| 0 <= i < words.len() && text::occurs(#[trigger] words[i], line)
}

/// The words of good news.
pub open spec fn good_words() -> Seq<Seq<char>> {
    seq!["accept"@, "share"@, "found block"@, "connected"@]
}

/// The words of connections.
pub open spec fn network_words() -> Seq<Seq<char>> {
    seq!["pool"@, "stratum"@, "ws "@, "subscribed"@]
}

/// The words of trouble.
pub open spec fn bad_words() -> Seq<Seq<char>> {
    seq!["warn"@, "error"@]
}

proof fn words_decide(line: Seq<char>)
    ensures
        holds_one_of(line, good_words()) <==> good_news(line),
        holds_one_of(line, network_words()) <==> network_news(line),
        holds_one_of(line, bad_words()) <==> bad_news(line),
{
    let (g, n, b) = (good_words(), network_words(), bad_words());
    assert(g[0] == "accept"@ && g[1] == "share"@ && g[2] == "found block"@ && g[3]
        == "connected"@);
    assert(n[0] == "pool"@ && n[1] == "stratum"@ && n[2] == "ws "@ && n[3] == "subscribed"@);
    assert(b[0] == "warn"@ && b[1] == "error"@);
}

/// A line has the colour of success wherever it holds a word of good news,
/// whatever stands around it; else that of information where it holds a word of
/// connections; else that of a warning where it holds a word of trouble; and it
/// is muted exactly when it holds none of them.
pub proof fn words_give_a_line_its_colour(line: Seq<char>, theme: Theme)
    ensures
        ({
            let good = holds_one_of(line, good_words());
            let network = holds_one_of(line, network_words());
            let bad = holds_one_of(line, bad_words());
            &&& good ==> line_color(line, theme) == theme.ok
            &&& !good && network ==> line_color(line, theme) == theme.info
            &&& !good && !network && bad ==> line_color(line, theme) == theme.warn
            &&& !good && !network && !bad ==> line_color(line, theme) == theme.muted
        }),
{
    words_decide(line);
}

/// Good news is coloured as such whatever stands before it and behind.
pub proof fn good_news_is_seen_anywhere(a: Seq<char>, b: Seq<char>, theme: Theme)
    ensures
        line_color(a + "accept"@ + b, theme) == theme.ok,
        line_color(a + "share"@ + b, theme) == theme.ok,
        line_color(a + "found block"@ + b, theme) == theme.ok,
        line_color(a + "connected"@ + b, theme) == theme.ok,
        line_color(a + "pool"@ + b, theme) != theme.ok ==> line_color(a + "pool"@ + b, theme)
            == theme.info,
        line_color(a + "stratum"@ + b, theme) != theme.ok ==> line_color(a + "stratum"@ + b, theme)
            == theme.info,
{
    text::part_is_found_between_any_texts(a, "accept"@, b);
    text::part_is_found_between_any_texts(a, "share"@, b);
    text::part_is_found_between_any_texts(a, "found block"@, b);
    text::part_is_found_between_any_texts(a, "connected"@, b);
    text::part_is_found_between_any_texts(a, "pool"@, b);
    text::part_is_found_between_any_texts(a, "stratum"@, b);
}

/// `shown` is `line` as far as `room` characters allow.
pub open spec fn shows_as_much_as_fits(shown: Seq<char>, line: Seq<char>, room: int) -> bool {
    &&& line.len() <= room ==> shown == line
    &&& line.len() > room > 1 ==> shown.len() == room && shown.last() == '\u{2026}' && forall|
        i: int,
    |
        0 <= i < room - 1 ==> #[trigger] shown[i] == line[i]
    &&& line.len() > room && room <= 1 ==> shown.len() == 0
}

/// The log pane shows the newest lines, as many as it has room for between its
/// borders, the newest at the bottom. Each is shown whole where it fits between
/// the borders, and has the colour that its whole text gives it.
pub proof fn log_pane_shows_the_newest_lines(
    logs: Seq<Seq<char>>,
    width: u16,
    height: u16,
    theme: Theme,
)
    requires
        width >= 2,
        height >= 2,
    ensures
        ({
            let lines = log_model(logs, width, height, theme);
            &&& lines.len() == if logs.len() <= height - 2 {
                logs.len() as int
            } else {
                height - 2
            }
            &&& forall|i: int|
                0 <= i < lines.len() ==> {
                    let line = logs[logs.len() - lines.len() + i];
                    &&& (#[trigger] lines[i]).len() == 1
                    &&& shows_as_much_as_fits(lines[i][0].text, line, width - 2)
                    &&& lines[i][0].fg == Some(line_color(line, theme))
                    &&& lines[i][0].bg is None && !lines[i][0].bold
                }
        }),
{
    let lines = log_model(logs, width, height, theme);
    crate::state::newest_are_the_end_of_the_list(logs, (height - 2) as nat);
    assert forall|i: int| 0 <= i < lines.len() implies shows_as_much_as_fits(
        (#[trigger] lines[i])[0].text,
        logs[logs.len() - lines.len() + i],
        width - 2,
    ) by {
        text::clipping_uses_all_of_the_room(
            logs[logs.len() - lines.len() + i],
            (width - 2) as nat,
        );
    }
}

/// A log pane that is all border shows nothing.
pub proof fn log_pane_without_room_is_empty(
    logs: Seq<Seq<char>>,
    width: u16,
    height: u16,
    theme: Theme,
)
    requires
        height <= 2,
    ensures
        log_model(logs, width, height, theme).len() == 0,
{
    crate::state::newest_are_the_end_of_the_list(logs, 0);
}

/// The footer explains the keys, each before its word, and ends with what there
/// is to say of the connection.
pub proof fn footer_explains_the_keys(app: AppModel, theme: Theme, now: u64)
    ensures
        ({
            let line = footer_model(app, theme, now);
            &&& line.len() == 6
            &&& line[0].text == " q "@ && line[0].fg == Some(theme.bg) && line[0].bg == Some(
                theme.accent,
            ) && line[0].bold
            &&& is_piece(line[1], " quit "@, Some(theme.muted), false)
            &&& line[2].text == " r "@ && line[2].fg == Some(theme.bg) && line[2].bg == Some(
                theme.info,
            ) && line[2].bold
            &&& is_piece(line[3], " refresh now "@, Some(theme.muted), false)
            &&& is_piece(line[4], " | "@, Some(theme.muted), false)
            &&& is_piece(line[5], app.connection_details(now), Some(theme.text), false)
        }),
{
}

/// A title stands between two blanks, every character of it, and no two panes
/// have the same.
pub proof fn titles_are_kept_and_differ(title: Seq<char>, a: Pane, b: Pane, theme: Theme)
    ensures
        title.len() == 0 ==> title_of(title, theme) is None,
        title.len() > 0 ==> (title_of(title, theme) matches Some(span) && is_piece(
            span,
            seq![' '] + title + seq![' '],
            Some(theme.muted),
            false,
        )),
        a.words() == b.words() ==> a == b,
        a.words().len() > 0,
{
    reveal_strlit(" ");
    reveal_strlit("Node");
    reveal_strlit("Session");
    reveal_strlit("Hashrate");
    reveal_strlit("Hashrate Stats");
    reveal_strlit("Bitaxe Status");
    reveal_strlit("Log");
    reveal_strlit("Controls");
    assert(" "@ =~= seq![' ']);
    assert("Node"@.len() == 4 && "Session"@.len() == 7 && "Hashrate"@.len() == 8);
    assert("Hashrate Stats"@.len() == 14 && "Bitaxe Status"@.len() == 13 && "Log"@.len() == 3);
    assert("Controls"@.len() == 8 && "Hashrate"@[0] == 'H' && "Controls"@[0] == 'C');
}

/// The session line is shown whole where it fits between the borders of its pane,
/// and as much of it as fits otherwise.
pub proof fn session_line_is_shown_as_far_as_it_fits(app: AppModel, width: u16, now: u64)
    requires
        width >= 2,
    ensures
        shows_as_much_as_fits(
            session_model(app, inside(width), now).text,
            session_text(app, now),
            width - 2,
        ),
        session_model(app, inside(width), now).fg == Some(Color::Rgb(255, 204, 128)),
        session_model(app, inside(width), now).bg is None,
        !session_model(app, inside(width), now).bold,
{
    text::clipping_uses_all_of_the_room(session_text(app, now), (width - 2) as nat);
}

} // verus!
