//! Daemon health: PID, uptime, version and log path, the overall health,
//! the last error, and the health of each plugin.
use vstd::prelude::*;
use crate::text::{
    decimal, owned, push_char, push_decimal, signed_decimal, signed_decimal_string,
};
use crate::views::{
    dash, dash_string, error_span, error_text, or_dash, or_dash_string, raw, styled, Span, Tone,
};

verus! {

#[derive(Debug, Clone, Copy, PartialEq, Eq, Structural)]
pub enum DaemonHealthStatus {
    Healthy,
    Degraded,
    Unhealthy,
    Down,
}

/// What the daemon reports about itself.
pub struct DaemonStatus {
    pub running: bool,
    pub pid: Option<i64>,
    pub uptime_seconds: Option<u64>,
    pub version: Option<String>,
    pub project_root: Option<String>,
    pub log_path: Option<String>,
}

pub struct PluginHealth {
    pub name: String,
    pub kind: String,
    pub status: DaemonHealthStatus,
}

pub struct DaemonHealth {
    pub status: DaemonHealthStatus,
    pub plugins: Vec<PluginHealth>,
    pub last_error: Option<String>,
}

pub struct HealthView {
    pub status: Option<DaemonStatus>,
    pub health: Option<DaemonHealth>,
    pub error: Option<String>,
}

/// One line of text: its spans as (text, colour role, bold).
pub type LineView = Seq<(Seq<char>, Option<Tone>, bool)>;

/// An uptime in its two largest units: `42s`, `5m 3s`, `2h 10m`, `3d 4h`.
pub open spec fn uptime_text(s: nat) -> Seq<char> {
    if s < 60 {
        decimal(s).push('s')
    } else if s < 3600 {
        decimal(s / 60) + seq!['m', ' '] + decimal(s % 60).push('s')
    } else if s < 86400 {
        decimal(s / 3600) + seq!['h', ' '] + decimal((s % 3600) / 60).push('m')
    } else {
        decimal(s / 86400) + seq!['d', ' '] + decimal((s % 86400) / 3600).push('h')
    }
}

pub fn humanize_uptime(seconds: u64) -> (r: String)
    ensures
        r@ == uptime_text(seconds as nat),
{
    let mut r = String::new();
    if seconds < 60 {
        push_decimal(&mut r, seconds);
        push_char(&mut r, 's');
    } else if seconds < 3600 {
        push_decimal(&mut r, seconds / 60);
        push_char(&mut r, 'm');
        push_char(&mut r, ' ');
        push_decimal(&mut r, seconds % 60);
        push_char(&mut r, 's');
    } else if seconds < 86400 {
        push_decimal(&mut r, seconds / 3600);
        push_char(&mut r, 'h');
        push_char(&mut r, ' ');
        push_decimal(&mut r, (seconds % 3600) / 60);
        push_char(&mut r, 'm');
    } else {
        push_decimal(&mut r, seconds / 86400);
        push_char(&mut r, 'd');
        push_char(&mut r, ' ');
        push_decimal(&mut r, (seconds % 86400) / 3600);
        push_char(&mut r, 'h');
    }
    r
}

/// Law: the uptime reads as whole units of its two largest parts. Under a
/// minute it is the seconds; under an hour, the minutes and the seconds
/// left over; under a day, the hours and the whole minutes past the hour;
/// from a day on, the days and the whole hours past the day.
pub proof fn lemma_uptime_parts(s: nat, big: nat, small: nat)
    ensures
        s < 60 ==> uptime_text(s) == decimal(s) + seq!['s'],
        60 <= s < 3600 && big * 60 + small == s && small < 60 ==> uptime_text(s) == decimal(big)
            + seq!['m', ' '] + decimal(small) + seq!['s'],
        3600 <= s < 86400 && big * 3600 + small * 60 <= s < big * 3600 + (small + 1) * 60 && small
            < 60 ==> uptime_text(s) == decimal(big) + seq!['h', ' '] + decimal(small) + seq!['m'],
        86400 <= s && big * 86400 + small * 3600 <= s < big * 86400 + (small + 1) * 3600 && small
            < 24 ==> uptime_text(s) == decimal(big) + seq!['d', ' '] + decimal(small) + seq!['h'],
{
    assert(decimal(s).push('s') =~= decimal(s) + seq!['s']);
    if 60 <= s < 3600 && big * 60 + small == s && small < 60 {
        assert(big == s / 60 && small == s % 60) by (nonlinear_arith)
            requires
                big * 60 + small == s,
                small < 60,
        ;
        assert(decimal(small).push('s') =~= decimal(small) + seq!['s']);
    }
    if 3600 <= s < 86400 && big * 3600 + small * 60 <= s < big * 3600 + (small + 1) * 60 && small
        < 60 {
        assert(big == s / 3600 && small == (s % 3600) / 60) by (nonlinear_arith)
            requires
                big * 3600 + small * 60 <= s,
                s < big * 3600 + (small + 1) * 60,
                small < 60,
        ;
        assert(decimal(small).push('m') =~= decimal(small) + seq!['m']);
    }
    if 86400 <= s && big * 86400 + small * 3600 <= s < big * 86400 + (small + 1) * 3600 && small
        < 24 {
        assert(big == s / 86400 && small == (s % 86400) / 3600) by (nonlinear_arith)
            requires
                big * 86400 + small * 3600 <= s,
                s < big * 86400 + (small + 1) * 3600,
                small < 24,
        ;
        assert(decimal(small).push('h') =~= decimal(small) + seq!['h']);
    }
}

/// Label and colour role of a health status.
pub open spec fn health_label(s: DaemonHealthStatus) -> Seq<char> {
    match s {
        DaemonHealthStatus::Healthy => "healthy"@,
        DaemonHealthStatus::Degraded => "degraded"@,
        DaemonHealthStatus::Unhealthy => "unhealthy"@,
        DaemonHealthStatus::Down => "down"@,
    }
}

pub open spec fn health_tone(s: DaemonHealthStatus) -> Tone {
    match s {
        DaemonHealthStatus::Healthy => Tone::Good,
        DaemonHealthStatus::Degraded => Tone::Warn,
        _ => Tone::Bad,
    }
}

pub fn health_span(s: DaemonHealthStatus) -> (r: Span)
    ensures
        r@ == (health_label(s), Some(health_tone(s)), false),
{
    match s {
        DaemonHealthStatus::Healthy => styled(owned("healthy"), Tone::Good),
        DaemonHealthStatus::Degraded => styled(owned("degraded"), Tone::Warn),
        DaemonHealthStatus::Unhealthy => styled(owned("unhealthy"), Tone::Bad),
        DaemonHealthStatus::Down => styled(owned("down"), Tone::Bad),
    }
}

/// A dimmed label followed by a plain value.
pub open spec fn field_line(label: Seq<char>, value: Seq<char>) -> LineView {
    seq![(label, Some(Tone::FgDim), false), (value, None, false)]
}

/// The four lines about the daemon process.
pub open spec fn status_lines(s: DaemonStatus) -> Seq<LineView> {
    seq![
        field_line("PID:     "@, match s.pid {
            Some(p) => signed_decimal(p as int),
            None => dash(),
        }),
        field_line("uptime:  "@, match s.uptime_seconds {
            Some(u) => uptime_text(u as nat),
            None => dash(),
        }),
        field_line("version: "@, or_dash(s.version)),
        field_line("log:     "@, or_dash(s.log_path)),
    ]
}

/// The line for one plugin: name, kind (dimmed) and health.
pub open spec fn plugin_line(p: PluginHealth) -> LineView {
    seq![
        (seq![' ', ' '], None, false),
        (p.name@, None, false),
        (seq![' ', ' '], None, false),
        (p.kind@, Some(Tone::FgDim), false),
        (seq![' ', ' '], None, false),
        (health_label(p.status), Some(health_tone(p.status)), false),
    ]
}

/// Overall health, the last error if any, a blank line, a `Plugins`
/// heading and one line per plugin.
pub open spec fn health_lines(h: DaemonHealth) -> Seq<LineView> {
    seq![
        seq![
            ("health:  "@, Some(Tone::FgDim), false),
            (health_label(h.status), Some(health_tone(h.status)), false),
        ],
    ] + match h.last_error {
        Some(e) => seq![seq![("last err: "@, Some(Tone::FgDim), false), (e@, Some(Tone::Bad), false)]],
        None => seq![],
    } + seq![seq![(seq![], None, false)], seq![("Plugins"@, Some(Tone::Accent), false)]]
        + h.plugins@.map_values(|p: PluginHealth| plugin_line(p))
}

/// All lines of the view.
pub open spec fn view_lines(v: HealthView) -> Seq<LineView> {
    let top = match v.status {
        Some(s) => status_lines(s),
        None => seq![],
    };
    let bottom = match v.health {
        Some(h) => health_lines(h),
        None => seq![],
    };
    top + bottom
}

fn field(label: &str, value: String) -> (l: Vec<Span>)
    ensures
        l.deep_view() == field_line(label@, value@),
{
    let mut l: Vec<Span> = Vec::new();
    l.push(styled(owned(label), Tone::FgDim));
    l.push(raw(value));
    assert(l.deep_view() =~= field_line(label@, value@));
    l
}

fn two_spaces() -> (s: Span)
    ensures
        s@ == (seq![' ', ' '], None::<Tone>, false),
{
    let mut t = String::new();
    push_char(&mut t, ' ');
    push_char(&mut t, ' ');
    raw(t)
}

fn push_line(out: &mut Vec<Vec<Span>>, l: Vec<Span>)
    ensures
        final(out).deep_view() == old(out).deep_view().push(l.deep_view()),
{
    let ghost before = out.deep_view();
    let ghost lv = l.deep_view();
    out.push(l);
    assert(out.deep_view() =~= before.push(lv));
}

impl Default for HealthView {
    fn default() -> (v: Self)
        ensures
            v.status is None,
            v.health is None,
            v.error is None,
    {
        HealthView::new()
    }
}

impl HealthView {
    pub fn new() -> (v: HealthView)
        ensures
            v.status is None,
            v.health is None,
            v.error is None,
    {
        HealthView { status: None, health: None, error: None }
    }

    /// Records a fresh status and health report and clears the error.
    pub fn set(&mut self, status: DaemonStatus, health: DaemonHealth)
        ensures
            final(self).status == Some(status),
            final(self).health == Some(health),
            final(self).error is None,
    {
        self.status = Some(status);
        self.health = Some(health);
        self.error = None;
    }

    pub fn set_error(&mut self, msg: String)
        ensures
            final(self).error == Some(msg),
            final(self).status == old(self).status,
            final(self).health == old(self).health,
    {
        self.error = Some(msg);
    }

    /// The error notice shown instead of the lines, if the last refresh failed.
    pub fn notice(&self) -> (n: Option<Span>)
        ensures
            match self.error {
                Some(e) => n matches Some(s) && s@ == (error_text(e@), Some(Tone::Bad), false),
                None => n is None,
            },
    {
        match &self.error {
            Some(e) => Some(error_span(e)),
            None => None,
        }
    }

    /// The lines of the view.
    pub fn lines(&self) -> (r: Vec<Vec<Span>>)
        ensures
            r.deep_view() == view_lines(*self),
    {
        let mut out: Vec<Vec<Span>> = Vec::new();
        if let Some(s) = &self.status {
            let pid = match s.pid {
                Some(p) => signed_decimal_string(p),
                None => dash_string(),
            };
            let uptime = match s.uptime_seconds {
                Some(u) => humanize_uptime(u),
                None => dash_string(),
            };
            push_line(&mut out, field("PID:     ", pid));
            push_line(&mut out, field("uptime:  ", uptime));
            push_line(&mut out, field("version: ", or_dash_string(&s.version)));
            push_line(&mut out, field("log:     ", or_dash_string(&s.log_path)));
            assert(out.deep_view() =~= status_lines(*s));
        }
        let ghost first = out.deep_view();
        if let Some(h) = &self.health {
            let mut l: Vec<Span> = Vec::new();
            l.push(styled(owned("health:  "), Tone::FgDim));
            l.push(health_span(h.status));
            push_line(&mut out, l);
            if let Some(e) = &h.last_error {
                let mut l: Vec<Span> = Vec::new();
                l.push(styled(owned("last err: "), Tone::FgDim));
                l.push(styled(e.clone(), Tone::Bad));
                push_line(&mut out, l);
            }
            let mut blank: Vec<Span> = Vec::new();
            blank.push(raw(String::new()));
            push_line(&mut out, blank);
            let mut heading: Vec<Span> = Vec::new();
            heading.push(styled(owned("Plugins"), Tone::Accent));
            push_line(&mut out, heading);
            let ghost head = out.deep_view();
            let mut i: usize = 0;
            while i < h.plugins.len()
                invariant
                    i <= h.plugins@.len(),
                    out.deep_view() == head + h.plugins@.take(i as int).map_values(
                        |p: PluginHealth| plugin_line(p),
                    ),
                decreases h.plugins@.len() - i,
            {
                let p = &h.plugins[i];
                let mut l: Vec<Span> = Vec::new();
                l.push(two_spaces());
                l.push(raw(p.name.clone()));
                l.push(two_spaces());
                l.push(styled(p.kind.clone(), Tone::FgDim));
                l.push(two_spaces());
                l.push(health_span(p.status));
                assert(l.deep_view() =~~= plugin_line(*p));
                push_line(&mut out, l);
                assert(h.plugins@.take(i + 1).map_values(|q: PluginHealth| plugin_line(q))
                    =~= h.plugins@.take(i as int).map_values(|q: PluginHealth| plugin_line(q)).push(
                    plugin_line(*p),
                ));
                i += 1;
            }
            assert(h.plugins@.take(h.plugins@.len() as int) =~= h.plugins@);
            assert(out.deep_view() =~~= first + health_lines(*h));
        }
        assert(out.deep_view() =~~= view_lines(*self));
        out
    }
}

} // verus!
