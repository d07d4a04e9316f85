use std::collections::VecDeque;

use manticore_sentinel::console::{
    format_bytes, human_bytes, profile_arg, profile_env_pairs, profile_path, push_history,
    throughput_severity, ThroughputSeverity, TimeWindow,
};
use manticore_sentinel::shell::CommandShell;

#[test]
fn time_windows_have_seconds_and_labels() {
    assert_eq!(TimeWindow::Last5m.seconds(), 300);
    assert_eq!(TimeWindow::Last1h.seconds(), 3600);
    assert_eq!(TimeWindow::Last24h.seconds(), 86400);
    assert_eq!(TimeWindow::Last5m.label(), "5m");
    assert_eq!(TimeWindow::Last1h.label(), "1h");
    assert_eq!(TimeWindow::Last24h.label(), "24h");
}

#[test]
fn throughput_severity_thresholds() {
    assert_eq!(throughput_severity(0), ThroughputSeverity::Nominal);
    assert_eq!(throughput_severity(20 * 1024 * 1024 - 1), ThroughputSeverity::Nominal);
    assert_eq!(throughput_severity(20 * 1024 * 1024), ThroughputSeverity::Elevated);
    assert_eq!(throughput_severity(100 * 1024 * 1024 - 1), ThroughputSeverity::Elevated);
    assert_eq!(throughput_severity(100 * 1024 * 1024), ThroughputSeverity::Critical);
    assert_eq!(ThroughputSeverity::Critical.label(), "CRITICAL");
    assert_eq!(ThroughputSeverity::Elevated.label(), "ELEVATED");
    assert_eq!(ThroughputSeverity::Nominal.label(), "NOMINAL");
}

#[test]
fn throughput_severity_is_monotone_on_samples() {
    let rank = |s: ThroughputSeverity| match s {
        ThroughputSeverity::Nominal => 0,
        ThroughputSeverity::Elevated => 1,
        ThroughputSeverity::Critical => 2,
    };
    let samples = [0u64, 1, 20_971_519, 20_971_520, 104_857_599, 104_857_600, u64::MAX];
    for w in samples.windows(2) {
        assert!(rank(throughput_severity(w[0])) <= rank(throughput_severity(w[1])));
    }
}

#[test]
fn human_bytes_examples() {
    assert_eq!(human_bytes(0), "0 B");
    assert_eq!(human_bytes(1023), "1023 B");
    assert_eq!(human_bytes(1024), "1.00 KiB");
    assert_eq!(human_bytes(1536), "1.50 KiB");
    assert_eq!(human_bytes(1024 * 1024), "1.00 MiB");
    assert_eq!(human_bytes(5 * 1024 * 1024 * 1024), "5.00 GiB");
}

#[test]
fn format_bytes_examples() {
    assert_eq!(format_bytes(512), "512 B");
    assert_eq!(format_bytes(1536), "1.5 KB");
    assert_eq!(format_bytes(1024 * 1024), "1.0 MB");
    assert_eq!(format_bytes(3 * 1024 * 1024 * 1024 / 2), "1.5 GB");
}

fn float_human(bytes: u64) -> String {
    const KB: f64 = 1024.0;
    const MB: f64 = KB * 1024.0;
    const GB: f64 = MB * 1024.0;
    let b = bytes as f64;
    if b >= GB {
        format!("{:.2} GiB", b / GB)
    } else if b >= MB {
        format!("{:.2} MiB", b / MB)
    } else if b >= KB {
        format!("{:.2} KiB", b / KB)
    } else {
        format!("{bytes} B")
    }
}

fn float_format(bytes: u64) -> String {
    const KB: u64 = 1024;
    const MB: u64 = 1024 * KB;
    const GB: u64 = 1024 * MB;
    if bytes >= GB {
        format!("{:.1} GB", bytes as f64 / GB as f64)
    } else if bytes >= MB {
        format!("{:.1} MB", bytes as f64 / MB as f64)
    } else if bytes >= KB {
        format!("{:.1} KB", bytes as f64 / KB as f64)
    } else {
        format!("{bytes} B")
    }
}

#[test]
fn byte_formatting_matches_float_formatting() {
    let mut samples: Vec<u64> = vec![
        0,
        1,
        1023,
        1024,
        1152,
        1153,
        1535,
        1536,
        10_240,
        1_048_575,
        1_048_576,
        1_073_741_823,
        1_073_741_824,
        1_610_612_736,
        (1u64 << 53) - 1,
        1u64 << 53,
        (1u64 << 53) + 1,
        (1u64 << 60) + 12345,
        u64::MAX - 1,
        u64::MAX,
    ];
    let mut x: u64 = 0x9e37_79b9_7f4a_7c15;
    for _ in 0..2000 {
        x ^= x << 13;
        x ^= x >> 7;
        x ^= x << 17;
        samples.push(x >> (x % 60));
        samples.push(x % 5_000_000);
    }
    for b in samples {
        assert_eq!(human_bytes(b), float_human(b), "human_bytes({b})");
        assert_eq!(format_bytes(b), float_format(b), "format_bytes({b})");
    }
}

#[test]
fn push_history_drops_oldest_at_cap() {
    let mut buf: VecDeque<u32> = VecDeque::new();
    for v in 0..5 {
        push_history(&mut buf, v, 3);
    }
    assert_eq!(buf.iter().copied().collect::<Vec<_>>(), vec![2, 3, 4]);
    let mut empty: VecDeque<u32> = VecDeque::new();
    push_history(&mut empty, 7, 0);
    assert_eq!(empty.len(), 1);
}

#[test]
fn profile_arg_finds_first_value() {
    let args: Vec<String> = ["sentinel", "--profile", "secure", "--profile", "dev"]
        .iter()
        .map(|s| s.to_string())
        .collect();
    assert_eq!(profile_arg(&args), Some("secure".to_string()));
    let none: Vec<String> = ["sentinel", "--profile"].iter().map(|s| s.to_string()).collect();
    assert_eq!(profile_arg(&none), None);
}

#[test]
fn profile_files_are_parsed() {
    let raw = "# comment\n\nMANTICORE_ROLE = operator\r\nBROKEN LINE\n  MANTICORE_AUTH_MODE=token=x  \n=empty\n";
    let pairs = profile_env_pairs(raw);
    assert_eq!(
        pairs,
        vec![
            ("MANTICORE_ROLE".to_string(), "operator".to_string()),
            ("MANTICORE_AUTH_MODE".to_string(), "token=x".to_string()),
            ("".to_string(), "empty".to_string()),
        ]
    );
    assert_eq!(profile_path("/srv", "secure"), "/srv/config/profiles/secure.env");
}

#[test]
fn shell_history_browsing() {
    let mut sh = CommandShell::new();
    sh.record("show cpu");
    sh.record("show cpu");
    sh.record("");
    sh.record("show memory");
    sh.set_input("draft");
    sh.history_up();
    assert_eq!(sh.input(), "show memory");
    sh.history_up();
    assert_eq!(sh.input(), "show cpu");
    sh.history_up();
    assert_eq!(sh.input(), "show cpu");
    sh.history_down();
    assert_eq!(sh.input(), "show memory");
    sh.history_down();
    assert_eq!(sh.input(), "draft");
    sh.history_down();
    assert_eq!(sh.input(), "draft");
    assert_eq!(sh.entry_from_newest(0).map(|s| s.as_str()), Some("show memory"));
    assert_eq!(sh.entry_from_newest(1).map(|s| s.as_str()), Some("show cpu"));
    assert_eq!(sh.entry_from_newest(2), None);
}

#[test]
fn shell_history_is_capped() {
    let mut sh = CommandShell::new();
    for i in 0..60 {
        sh.record(&format!("cmd {i}"));
    }
    assert_eq!(sh.entry_from_newest(0).map(|s| s.as_str()), Some("cmd 59"));
    assert_eq!(sh.entry_from_newest(49).map(|s| s.as_str()), Some("cmd 10"));
    assert_eq!(sh.entry_from_newest(50), None);
}

#[test]
fn shell_tab_completes() {
    let mut sh = CommandShell::new();
    sh.set_input("show me");
    sh.tab_complete();
    assert_eq!(sh.input(), "show memory");
    sh.set_input("zzz");
    sh.tab_complete();
    assert_eq!(sh.input(), "zzz");
}
