use motorchik::embed::EmbedField;
use motorchik::host::{host_embed, uptime, HostInfo, LONGEST_SPAN_NANOS, LONGEST_SPAN_SECS};

#[test]
fn uptime_splits_the_time_into_units() {
    assert_eq!("0 day(s), 0:0:0", uptime(0, 0));
    assert_eq!("0 day(s), 0:0:59", uptime(59, 999_999_999));
    assert_eq!("0 day(s), 0:1:0", uptime(60, 0));
    assert_eq!("0 day(s), 1:1:1", uptime(3661, 5));
    assert_eq!("0 day(s), 23:59:59", uptime(86_399, 0));
    assert_eq!("1 day(s), 0:0:0", uptime(86_400, 0));
    assert_eq!("12 day(s), 13:14:15", uptime(12 * 86_400 + 13 * 3_600 + 14 * 60 + 15, 0));
}

#[test]
fn uptime_of_the_longest_span() {
    assert_eq!(i64::MAX as u64 / 1_000, LONGEST_SPAN_SECS);
    assert_eq!((i64::MAX % 1_000) as u32 * 1_000_000, LONGEST_SPAN_NANOS);
    assert_eq!("106751991167 day(s), 7:12:55", uptime(LONGEST_SPAN_SECS, LONGEST_SPAN_NANOS));
    assert_eq!("106751991167 day(s), 7:12:54", uptime(LONGEST_SPAN_SECS - 1, 999_999_999));
}

#[test]
fn uptime_beyond_the_longest_span_is_unknown() {
    assert_eq!("Unknown", uptime(LONGEST_SPAN_SECS, LONGEST_SPAN_NANOS + 1));
    assert_eq!("Unknown", uptime(LONGEST_SPAN_SECS + 1, 0));
    assert_eq!("Unknown", uptime(u64::MAX, 0));
}

#[test]
fn uptime_with_a_second_of_nanoseconds_is_unknown() {
    assert_eq!("Unknown", uptime(5, 1_000_000_000));
    assert_eq!("Unknown", uptime(u64::MAX, u32::MAX));
}

fn field(name: &str, value: &str) -> EmbedField {
    EmbedField { name: name.to_string(), value: value.to_string(), inline: true }
}

#[test]
fn host_embed_shows_what_is_known() {
    let embed = host_embed(HostInfo {
        hostname: Some("box".to_string()),
        platform: Some("6.1.0".to_string()),
        architecture: "x86_64".to_string(),
        uptime: Some((90_061, 1)),
        now: "2016-04-30T11:18:25.796Z".to_string(),
    });
    assert_eq!(Some("Host info".to_string()), embed.title);
    assert_eq!(Some("2016-04-30T11:18:25.796Z".to_string()), embed.timestamp);
    assert_eq!(Some((47, 137, 197)), embed.color);
    assert_eq!(None, embed.description);
    assert_eq!(
        vec![
            field("Hostname", "box"),
            field("Platform", "6.1.0"),
            field("Architecture", "x86_64"),
            field("Host uptime", "1 day(s), 1:1:1"),
        ],
        embed.fields
    );
}

#[test]
fn host_embed_says_what_is_not_known() {
    let embed = host_embed(HostInfo {
        hostname: None,
        platform: None,
        architecture: "riscv".to_string(),
        uptime: None,
        now: "now".to_string(),
    });
    assert_eq!(
        vec![
            field("Hostname", "Unknown"),
            field("Platform", "unknwon"),
            field("Architecture", "riscv"),
            field("Host uptime", "Unknown"),
        ],
        embed.fields
    );
}
