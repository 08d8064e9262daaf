//! What the bot says about the machine it runs on.

use crate::embed::{Color, Embed, EmbedView};
use crate::text::{decimal, decimal_string};
use vstd::prelude::*;
use vstd::string::*;

verus! {

/// The color of the embed that shows the host.
pub const HOST_EMBED_COLOR: Color = (47, 137, 197);

/// The most whole seconds that the chrono crate takes as a time span: the
/// seconds of `i64::MAX` milliseconds.
pub const LONGEST_SPAN_SECS: u64 = 9_223_372_036_854_775;

/// The most nanoseconds that the chrono crate takes beside
/// [`LONGEST_SPAN_SECS`].
pub const LONGEST_SPAN_NANOS: u32 = 807_000_000;

/// Whether `secs` seconds and `nanos` nanoseconds are a time that the chrono
/// crate takes as a time span: the nanoseconds stay below one second, and the
/// whole is no longer than `i64::MAX` milliseconds.
pub open spec fn is_span(secs: u64, nanos: u32) -> bool {
    nanos < 1_000_000_000 && (secs < LONGEST_SPAN_SECS || (secs == LONGEST_SPAN_SECS && nanos
        <= LONGEST_SPAN_NANOS))
}

/// Makes a chrono `Duration` of the given time with `Duration::from_std` and
/// asks it for `num_days`, `num_hours`, `num_minutes` and `num_seconds`, in
/// this order. Trusted: chrono takes a time of up to `i64::MAX` milliseconds
/// and refuses a longer one, and each number is the whole count of its unit
/// in the time.
#[verifier::external_body]
pub(crate) fn whole_units(secs: u64, nanos: u32) -> (units: Option<(i64, i64, i64, i64)>)
    requires
        nanos < 1_000_000_000,
    ensures
        units is Some <==> is_span(secs, nanos),
        units matches Some(units) ==> units.0 == secs / 86_400 && units.1 == secs / 3_600
            && units.2 == secs / 60 && units.3 == secs,
{
    let span = chrono::Duration::from_std(std::time::Duration::new(secs, nanos)).ok()?;
    Some((span.num_days(), span.num_hours(), span.num_minutes(), span.num_seconds()))
}

/// How long the host has been up, in words: the days, then the hours, minutes
/// and seconds that do not make up a day, an hour, a minute.
pub open spec fn uptime_text(secs: u64) -> Seq<char> {
    decimal((secs / 86_400) as nat) + " day(s), "@ + decimal(((secs / 3_600) % 24) as nat) + ":"@
        + decimal(((secs / 60) % 60) as nat) + ":"@ + decimal((secs % 60) as nat)
}

/// What is shown where something about the host is not known.
pub open spec fn unknown_text() -> Seq<char> {
    "Unknown"@
}

/// Says how long the host has been up, given the time as whole seconds and
/// the nanoseconds beyond them; `Unknown` for what is no time span.
pub fn uptime(secs: u64, nanos: u32) -> (text: String)
    ensures
        text@ == if is_span(secs, nanos) {
            uptime_text(secs)
        } else {
            unknown_text()
        },
{
    if nanos >= 1_000_000_000 {
        return String::from_str("Unknown");
    }
    match whole_units(secs, nanos) {
        Some((days, hours, minutes, seconds)) => {
            let odd_hours = hours - days * 24;
            let odd_minutes = minutes - hours * 60;
            let odd_seconds = seconds - minutes * 60;
            assert(odd_hours == (secs / 3_600) % 24);
            assert(odd_minutes == (secs / 60) % 60);
            assert(odd_seconds == secs % 60);
            let mut text = decimal_string(days as u64);
            text.append(" day(s), ");
            text.append(decimal_string(odd_hours as u64).as_str());
            text.append(":");
            text.append(decimal_string(odd_minutes as u64).as_str());
            text.append(":");
            text.append(decimal_string(odd_seconds as u64).as_str());
            text
        },
        None => String::from_str("Unknown"),
    }
}

/// What is known of the host, as far as it could be found out.
#[derive(Debug, Clone, PartialEq, Eq)]
pub struct HostInfo {
    pub hostname: Option<String>,
    pub platform: Option<String>,
    pub architecture: String,
    /// The time the host has been up: whole seconds, and the nanoseconds
    /// beyond them.
    pub uptime: Option<(u64, u32)>,
    /// The moment of the report, written as the platform writes moments.
    pub now: String,
}

/// Mathematical value of a [`HostInfo`].
pub ghost struct HostInfoView {
    pub hostname: Option<Seq<char>>,
    pub platform: Option<Seq<char>>,
    pub architecture: Seq<char>,
    pub uptime: Option<(u64, u32)>,
    pub now: Seq<char>,
}

impl View for HostInfo {
    type V = HostInfoView;

    open spec fn view(&self) -> HostInfoView {
        HostInfoView {
            hostname: self.hostname.deep_view(),
            platform: self.platform.deep_view(),
            architecture: self.architecture@,
            uptime: self.uptime,
            now: self.now@,
        }
    }
}

impl HostInfoView {
    /// The embed that shows the host: name, platform, architecture and time
    /// up, each in a field that may share its row; what is not known is
    /// said to be so.
    pub open spec fn embed(self) -> EmbedView {
        (EmbedView {
            title: Some("Host info"@),
            timestamp: Some(self.now),
            color: Some(HOST_EMBED_COLOR),
            ..EmbedView::empty()
        }).with_field(
            "Hostname"@,
            match self.hostname {
                Some(hostname) => hostname,
                None => unknown_text(),
            },
            true,
        ).with_field(
            "Platform"@,
            match self.platform {
                Some(platform) => platform,
                None => "unknwon"@,
            },
            true,
        ).with_field("Architecture"@, self.architecture, true).with_field(
            "Host uptime"@,
            match self.uptime {
                Some(uptime) => if is_span(uptime.0, uptime.1) {
                    uptime_text(uptime.0)
                } else {
                    unknown_text()
                },
                None => unknown_text(),
            },
            true,
        )
    }
}

/// The embed that shows the host.
pub fn host_embed(info: HostInfo) -> (embed: Embed)
    ensures
        embed@ == info@.embed(),
{
    let mut embed = Embed::new();
    embed.title = Some(String::from_str("Host info"));
    embed.timestamp = Some(info.now);
    embed.color = Some(HOST_EMBED_COLOR);
    let hostname = match info.hostname {
        Some(hostname) => hostname,
        None => String::from_str("Unknown"),
    };
    embed.field(String::from_str("Hostname"), hostname, true);
    let platform = match info.platform {
        Some(platform) => platform,
        None => String::from_str("unknwon"),
    };
    embed.field(String::from_str("Platform"), platform, true);
    embed.field(String::from_str("Architecture"), info.architecture, true);
    let time = match info.uptime {
        Some((secs, nanos)) => uptime(secs, nanos),
        None => String::from_str("Unknown"),
    };
    embed.field(String::from_str("Host uptime"), time, true);
    embed
}

} // verus!
