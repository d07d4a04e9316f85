//! The text that the console's read-only commands print: throughput per
//! device and interface, alerts, the audit trail and storage health.
use vstd::prelude::*;

use crate::alerts::AlertSeverity;
use crate::audit::AuditEvent;
use crate::auth::{AuthMode, Role};
use crate::collectors::{by_total_desc, sort_by_total_desc, DiskMetrics, NetworkMetrics};
use crate::console::{format_bytes, human_bytes, spec_format_bytes, spec_human_bytes};
use crate::telemetry::{sum_totals, throughput_total};
use crate::text::{decimal, u64_to_decimal};

verus! {

broadcast use vstd::string::group_string_axioms;

// ---------------------------------------------------------------------------
// Throughput
// ---------------------------------------------------------------------------

pub open spec fn disk_line(d: DiskMetrics) -> Seq<char> {
    "  "@ + d.device@ + " R:"@ + spec_human_bytes(d.read_bytes_per_sec) + "/s W:"@
        + spec_human_bytes(d.write_bytes_per_sec) + "/s\n"@
}

pub open spec fn disk_lines(s: Seq<DiskMetrics>) -> Seq<char>
    decreases s.len(),
{
    if s.len() == 0 {
        Seq::empty()
    } else {
        disk_lines(s.drop_last()) + disk_line(s.last())
    }
}

fn disk_line_text(d: &DiskMetrics) -> (r: String)
    ensures
        r@ == disk_line(*d),
{
    let mut out = "  ".to_owned();
    out.append(d.device.as_str());
    out.append(" R:");
    let r = human_bytes(d.read_bytes_per_sec);
    out.append(r.as_str());
    out.append("/s W:");
    let w = human_bytes(d.write_bytes_per_sec);
    out.append(w.as_str());
    out.append("/s\n");
    out
}

fn network_line_text(n: &NetworkMetrics) -> (r: String)
    ensures
        r@ == network_line(*n),
{
    let mut out = "  ".to_owned();
    out.append(n.interface.as_str());
    out.append(" RX:");
    let r = human_bytes(n.rx_bytes_per_sec);
    out.append(r.as_str());
    out.append("/s TX:");
    let t = human_bytes(n.tx_bytes_per_sec);
    out.append(t.as_str());
    out.append("/s\n");
    out
}

fn alert_line_text(a: &AlertLine) -> (r: String)
    ensures
        r@ == alert_line(*a),
{
    let mut out = "  [".to_owned();
    out.append(severity_debug_str(a.severity));
    out.append("] ");
    out.append(a.rule_id.as_str());
    out.append(" \u{2014} ");
    out.append(a.message.as_str());
    out.append("\n");
    out
}

fn audit_line_text(e: &AuditEvent) -> (r: String)
    ensures
        r@ == audit_line(*e),
{
    let mut out = "  [".to_owned();
    let ts = u64_to_decimal(e.ts);
    out.append(ts.as_str());
    out.append("] ");
    out.append(e.action.as_str());
    out.append(" \u{2192} ");
    out.append(e.target.as_str());
    out.append(" (");
    out.append(e.result.as_str());
    out.append(") by ");
    out.append(e.actor.as_str());
    out.append("\n");
    out
}

/// `show disk`: a line per device, the busiest first, with its read and
/// write rates for people.
pub open spec fn spec_disk_report(disks: Seq<DiskMetrics>) -> Seq<char> {
    "Disk throughput:\n"@ + disk_lines(by_total_desc(disks))
}

pub fn disk_report(disks: Vec<DiskMetrics>) -> (r: String)
    requires
        forall|i: int|
            0 <= i < disks@.len() ==> #[trigger] disks@[i].read_bytes_per_sec
                + disks@[i].write_bytes_per_sec <= u64::MAX,
    ensures
        r@ == spec_disk_report(disks@),
{
    let sorted = sort_by_total_desc(disks);
    let mut out = "Disk throughput:\n".to_owned();
    let mut i: usize = 0;
    assert(sorted@.subrange(0, 0) =~= Seq::<DiskMetrics>::empty());
    while i < sorted.len()
        invariant
            i <= sorted@.len(),
            out@ == "Disk throughput:\n"@ + disk_lines(sorted@.subrange(0, i as int)),
        decreases sorted@.len() - i,
    {
        let line = disk_line_text(&sorted[i]);
        out.append(line.as_str());
        proof {
            assert(sorted@.subrange(0, i + 1).drop_last() =~= sorted@.subrange(0, i as int));
            assert(out@ =~= "Disk throughput:\n"@ + disk_lines(sorted@.subrange(0, i + 1)));
        }
        i = i + 1;
    }
    assert(sorted@.subrange(0, i as int) =~= sorted@);
    out
}

pub open spec fn network_line(n: NetworkMetrics) -> Seq<char> {
    "  "@ + n.interface@ + " RX:"@ + spec_human_bytes(n.rx_bytes_per_sec) + "/s TX:"@
        + spec_human_bytes(n.tx_bytes_per_sec) + "/s\n"@
}

pub open spec fn network_lines(s: Seq<NetworkMetrics>) -> Seq<char>
    decreases s.len(),
{
    if s.len() == 0 {
        Seq::empty()
    } else {
        network_lines(s.drop_last()) + network_line(s.last())
    }
}

/// `show network`: a line per interface, the busiest first, with its
/// receive and send rates for people.
pub open spec fn spec_network_report(ifaces: Seq<NetworkMetrics>) -> Seq<char> {
    "Network throughput:\n"@ + network_lines(by_total_desc(ifaces))
}

pub fn network_report(ifaces: Vec<NetworkMetrics>) -> (r: String)
    requires
        forall|i: int|
            0 <= i < ifaces@.len() ==> #[trigger] ifaces@[i].rx_bytes_per_sec
                + ifaces@[i].tx_bytes_per_sec <= u64::MAX,
    ensures
        r@ == spec_network_report(ifaces@),
{
    let sorted = sort_by_total_desc(ifaces);
    let mut out = "Network throughput:\n".to_owned();
    let mut i: usize = 0;
    assert(sorted@.subrange(0, 0) =~= Seq::<NetworkMetrics>::empty());
    while i < sorted.len()
        invariant
            i <= sorted@.len(),
            out@ == "Network throughput:\n"@ + network_lines(sorted@.subrange(0, i as int)),
        decreases sorted@.len() - i,
    {
        let line = network_line_text(&sorted[i]);
        out.append(line.as_str());
        proof {
            assert(sorted@.subrange(0, i + 1).drop_last() =~= sorted@.subrange(0, i as int));
            assert(out@ =~= "Network throughput:\n"@ + network_lines(sorted@.subrange(0, i + 1)));
        }
        i = i + 1;
    }
    assert(sorted@.subrange(0, i as int) =~= sorted@);
    out
}

// ---------------------------------------------------------------------------
// Alerts
// ---------------------------------------------------------------------------

/// A firing alert as the console lists it.
#[derive(Debug, Clone)]
pub struct AlertLine {
    pub severity: AlertSeverity,
    pub rule_id: String,
    pub message: String,
}

/// The severity as `{:?}` prints it.
pub open spec fn severity_debug(s: AlertSeverity) -> Seq<char> {
    match s {
        AlertSeverity::Info => "Info"@,
        AlertSeverity::Warning => "Warning"@,
        AlertSeverity::Critical => "Critical"@,
    }
}

fn severity_debug_str(s: AlertSeverity) -> (r: &'static str)
    ensures
        r@ == severity_debug(s),
{
    match s {
        AlertSeverity::Info => "Info",
        AlertSeverity::Warning => "Warning",
        AlertSeverity::Critical => "Critical",
    }
}

pub open spec fn alert_line(a: AlertLine) -> Seq<char> {
    "  ["@ + severity_debug(a.severity) + "] "@ + a.rule_id@ + " \u{2014} "@ + a.message@ + "\n"@
}

pub open spec fn alert_lines(s: Seq<AlertLine>) -> Seq<char>
    decreases s.len(),
{
    if s.len() == 0 {
        Seq::empty()
    } else {
        alert_lines(s.drop_last()) + alert_line(s.last())
    }
}

/// `show alerts`: the firing alerts, or that there are none.
pub open spec fn spec_alerts_report(alerts: Seq<AlertLine>) -> Seq<char> {
    if alerts.len() == 0 {
        "No active alerts."@
    } else {
        "Active alerts:\n"@ + alert_lines(alerts)
    }
}

pub fn alerts_report(alerts: &Vec<AlertLine>) -> (r: String)
    ensures
        r@ == spec_alerts_report(alerts@),
{
    if alerts.len() == 0 {
        return "No active alerts.".to_owned();
    }
    let mut out = "Active alerts:\n".to_owned();
    let mut i: usize = 0;
    assert(alerts@.subrange(0, 0) =~= Seq::<AlertLine>::empty());
    while i < alerts.len()
        invariant
            i <= alerts@.len(),
            out@ == "Active alerts:\n"@ + alert_lines(alerts@.subrange(0, i as int)),
        decreases alerts@.len() - i,
    {
        let line = alert_line_text(&alerts[i]);
        out.append(line.as_str());
        proof {
            assert(alerts@.subrange(0, i + 1).drop_last() =~= alerts@.subrange(0, i as int));
            assert(out@ =~= "Active alerts:\n"@ + alert_lines(alerts@.subrange(0, i + 1)));
        }
        i = i + 1;
    }
    assert(alerts@.subrange(0, i as int) =~= alerts@);
    out
}

// ---------------------------------------------------------------------------
// The audit trail
// ---------------------------------------------------------------------------

pub open spec fn audit_line(e: AuditEvent) -> Seq<char> {
    "  ["@ + decimal(e.ts as nat) + "] "@ + e.action@ + " \u{2192} "@ + e.target@ + " ("@
        + e.result@ + ") by "@ + e.actor@ + "\n"@
}

pub open spec fn audit_lines(s: Seq<AuditEvent>) -> Seq<char>
    decreases s.len(),
{
    if s.len() == 0 {
        Seq::empty()
    } else {
        audit_lines(s.drop_last()) + audit_line(s.last())
    }
}

/// `show audit`: the recent events, or that there are none.
pub open spec fn spec_audit_report(events: Seq<AuditEvent>) -> Seq<char> {
    if events.len() == 0 {
        "No audit events."@
    } else {
        "Last "@ + decimal(events.len()) + " audit events:\n"@ + audit_lines(events)
    }
}

pub fn audit_report(events: &Vec<AuditEvent>) -> (r: String)
    ensures
        r@ == spec_audit_report(events@),
{
    if events.len() == 0 {
        return "No audit events.".to_owned();
    }
    let mut out = "Last ".to_owned();
    let n = u64_to_decimal(events.len() as u64);
    out.append(n.as_str());
    out.append(" audit events:\n");
    let ghost head = out@;
    let mut i: usize = 0;
    assert(events@.subrange(0, 0) =~= Seq::<AuditEvent>::empty());
    while i < events.len()
        invariant
            i <= events@.len(),
            head == "Last "@ + decimal(events@.len()) + " audit events:\n"@,
            out@ == head + audit_lines(events@.subrange(0, i as int)),
        decreases events@.len() - i,
    {
        let line = audit_line_text(&events[i]);
        out.append(line.as_str());
        proof {
            assert(events@.subrange(0, i + 1).drop_last() =~= events@.subrange(0, i as int));
            assert(out@ =~= head + audit_lines(events@.subrange(0, i + 1)));
        }
        i = i + 1;
    }
    assert(events@.subrange(0, i as int) =~= events@);
    out
}

// ---------------------------------------------------------------------------
// Storage health
// ---------------------------------------------------------------------------

/// A limit that may be off: `<n>s` for an age, `off` when unset.
pub open spec fn age_limit(v: Option<u64>) -> Seq<char> {
    match v {
        Some(s) => decimal(s as nat) + "s"@,
        None => "off"@,
    }
}

/// A size limit that may be off.
pub open spec fn size_limit(v: Option<u64>) -> Seq<char> {
    match v {
        Some(b) => spec_format_bytes(b),
        None => "off"@,
    }
}

fn age_limit_text(v: Option<u64>) -> (r: String)
    ensures
        r@ == age_limit(v),
{
    match v {
        Some(s) => {
            let mut t = u64_to_decimal(s);
            t.append("s");
            t
        },
        None => "off".to_owned(),
    }
}

fn size_limit_text(v: Option<u64>) -> (r: String)
    ensures
        r@ == size_limit(v),
{
    match v {
        Some(b) => format_bytes(b),
        None => "off".to_owned(),
    }
}

/// What `show storage` reports.
#[derive(Debug, Clone, Copy)]
pub struct StorageFacts {
    pub audit_entries: u64,
    pub audit_bytes: u64,
    pub audit_max_entries: u64,
    pub archive_files: u64,
    pub archive_bytes: u64,
    pub snapshot_bytes: u64,
    pub snapshot_max_entries: u64,
    pub snapshot_max_age_secs: Option<u64>,
    pub snapshot_max_bytes: Option<u64>,
}

/// `show storage`: the audit trail, its archive and the snapshot history,
/// with their sizes and limits.
pub open spec fn spec_storage_report(f: StorageFacts) -> Seq<char> {
    "Storage health:\n"@ + "  audit events:   "@ + decimal(f.audit_entries as nat) + " entries, "@
        + spec_format_bytes(f.audit_bytes) + "\n"@ + "  audit max:      "@ + decimal(
        f.audit_max_entries as nat,
    ) + "\n"@ + "  audit archive:  "@ + decimal(f.archive_files as nat) + " files, "@
        + spec_format_bytes(f.archive_bytes) + "\n"@ + "  snapshots:      "@ + spec_format_bytes(
        f.snapshot_bytes,
    ) + "\n"@ + "  snapshot max:   "@ + decimal(f.snapshot_max_entries as nat) + "\n"@
        + "  snapshot max age: "@ + age_limit(f.snapshot_max_age_secs) + "\n"@
        + "  snapshot max bytes: "@ + size_limit(f.snapshot_max_bytes) + "\n"@
}

pub fn storage_report(f: StorageFacts) -> (r: String)
    ensures
        r@ == spec_storage_report(f),
{
    let mut out = "Storage health:\n".to_owned();
    out.append("  audit events:   ");
    let a = u64_to_decimal(f.audit_entries);
    out.append(a.as_str());
    out.append(" entries, ");
    let b = format_bytes(f.audit_bytes);
    out.append(b.as_str());
    out.append("\n");
    out.append("  audit max:      ");
    let c = u64_to_decimal(f.audit_max_entries);
    out.append(c.as_str());
    out.append("\n");
    out.append("  audit archive:  ");
    let d = u64_to_decimal(f.archive_files);
    out.append(d.as_str());
    out.append(" files, ");
    let e = format_bytes(f.archive_bytes);
    out.append(e.as_str());
    out.append("\n");
    out.append("  snapshots:      ");
    let g = format_bytes(f.snapshot_bytes);
    out.append(g.as_str());
    out.append("\n");
    out.append("  snapshot max:   ");
    let h = u64_to_decimal(f.snapshot_max_entries);
    out.append(h.as_str());
    out.append("\n");
    out.append("  snapshot max age: ");
    let k = age_limit_text(f.snapshot_max_age_secs);
    out.append(k.as_str());
    out.append("\n");
    out.append("  snapshot max bytes: ");
    let m = size_limit_text(f.snapshot_max_bytes);
    out.append(m.as_str());
    out.append("\n");
    out
}

// ---------------------------------------------------------------------------
// The dashboard's device panels
// ---------------------------------------------------------------------------

/// The line above the disk panel: a note when there is no device, otherwise
/// the devices' combined throughput and their number.
pub open spec fn disk_panel_heading_text(s: Seq<DiskMetrics>) -> Seq<char> {
    if s.len() == 0 {
        "No disk devices in this snapshot."@
    } else {
        "All devices by R+W throughput ("@ + spec_human_bytes(sum_totals(s) as u64)
            + " combined) \u{2014} "@ + decimal(s.len()) + " devices."@
    }
}

pub fn disk_panel_heading(disks: &Vec<DiskMetrics>) -> (r: String)
    requires
        sum_totals(disks@) <= u64::MAX,
    ensures
        r@ == disk_panel_heading_text(disks@),
{
    if disks.len() == 0 {
        return "No disk devices in this snapshot.".to_owned();
    }
    let total = throughput_total(disks);
    let mut out = "All devices by R+W throughput (".to_owned();
    let h = human_bytes(total);
    out.append(h.as_str());
    out.append(" combined) \u{2014} ");
    let n = u64_to_decimal(disks.len() as u64);
    out.append(n.as_str());
    out.append(" devices.");
    out
}

/// The line above the network panel: a note when there is no interface,
/// otherwise the interfaces' combined throughput and their number.
pub open spec fn network_panel_heading_text(s: Seq<NetworkMetrics>) -> Seq<char> {
    if s.len() == 0 {
        "No network interfaces in this snapshot."@
    } else {
        "All interfaces by RX+TX ("@ + spec_human_bytes(sum_totals(s) as u64)
            + " combined) \u{2014} "@ + decimal(s.len()) + " interfaces."@
    }
}

pub fn network_panel_heading(ifaces: &Vec<NetworkMetrics>) -> (r: String)
    requires
        sum_totals(ifaces@) <= u64::MAX,
    ensures
        r@ == network_panel_heading_text(ifaces@),
{
    if ifaces.len() == 0 {
        return "No network interfaces in this snapshot.".to_owned();
    }
    let total = throughput_total(ifaces);
    let mut out = "All interfaces by RX+TX (".to_owned();
    let h = human_bytes(total);
    out.append(h.as_str());
    out.append(" combined) \u{2014} ");
    let n = u64_to_decimal(ifaces.len() as u64);
    out.append(n.as_str());
    out.append(" interfaces.");
    out
}

// ---------------------------------------------------------------------------
// The effective configuration
// ---------------------------------------------------------------------------

/// A warning about the configuration, by the area it concerns.
#[derive(Debug, Clone)]
pub struct ConfigWarning {
    pub area: String,
    pub message: String,
}

/// What `show config` reports.
#[derive(Debug, Clone)]
pub struct ConfigFacts {
    pub diagnostics: String,
    pub auth_mode: AuthMode,
    pub role: Role,
    pub privileged: bool,
    pub audit_max_entries: u64,
    pub audit_archive: bool,
    pub history_enabled: bool,
    pub history_max: u64,
    pub history_reset: bool,
    pub history_max_age_secs: Option<u64>,
    pub history_max_bytes: Option<u64>,
    pub history_slim: bool,
    pub sse: bool,
    pub warnings: Vec<ConfigWarning>,
}

pub open spec fn bool_text(b: bool) -> Seq<char> {
    if b {
        "true"@
    } else {
        "false"@
    }
}

fn bool_str(b: bool) -> (r: &'static str)
    ensures
        r@ == bool_text(b),
{
    if b {
        "true"
    } else {
        "false"
    }
}

pub open spec fn warning_lines(w: Seq<ConfigWarning>) -> Seq<char>
    decreases w.len(),
{
    if w.len() == 0 {
        Seq::empty()
    } else {
        warning_lines(w.drop_last()) + "    ["@ + w.last().area@ + "] "@ + w.last().message@ + "\n"@
    }
}

/// The opening lines of `show config`: profile, sign-in mode, role and trust.
pub open spec fn config_head_text(f: ConfigFacts) -> Seq<char> {
    "Effective configuration:\n"@ + "  profile:           "@ + f.diagnostics@ + "\n"@
        + "  auth_mode:         "@ + f.auth_mode.name() + "\n"@ + "  role:              "@
        + f.role.name() + "\n"@ + "  trust:             "@ + (if f.privileged {
        "PRIVILEGED"@
    } else {
        "UNPRIVILEGED"@
    }) + "\n"@
}

/// The audit and history limits of `show config`.
pub open spec fn config_limits_text(f: ConfigFacts) -> Seq<char> {
    "  audit_max_entries: "@ + decimal(f.audit_max_entries as nat) + "\n"@
        + "  audit_archive:     "@ + bool_text(f.audit_archive) + "\n"@
        + "  history_enabled:   "@ + bool_text(f.history_enabled) + "\n"@
        + "  history_max:       "@ + decimal(f.history_max as nat) + "\n"@
        + "  history_reset:     "@ + bool_text(f.history_reset) + "\n"@
}

/// The retention and streaming lines of `show config`.
pub open spec fn config_tail_text(f: ConfigFacts) -> Seq<char> {
    "  history_max_age:   "@ + age_limit(f.history_max_age_secs) + "\n"@
        + "  history_max_bytes: "@ + size_limit(f.history_max_bytes) + "\n"@
        + "  history_slim:      "@ + bool_text(f.history_slim) + "\n"@
        + "  sse:               "@ + (if f.sse {
        "on"@
    } else {
        "off"@
    }) + "\n"@
}

/// The warnings block: nothing when there are no warnings.
pub open spec fn config_warnings_text(f: ConfigFacts) -> Seq<char> {
    if f.warnings@.len() == 0 {
        Seq::empty()
    } else {
        "\n  Warnings:\n"@ + warning_lines(f.warnings@)
    }
}

/// `show config`: the session's settings, one per line, and the warnings
/// about the configuration when there are any.
pub open spec fn spec_config_report(f: ConfigFacts) -> Seq<char> {
    config_head_text(f) + config_limits_text(f) + config_tail_text(f) + config_warnings_text(f)
}

fn config_head(f: &ConfigFacts) -> (r: String)
    ensures
        r@ == config_head_text(*f),
{
    let mut out = "Effective configuration:\n".to_owned();
    out.append("  profile:           ");
    out.append(f.diagnostics.as_str());
    out.append("\n");
    out.append("  auth_mode:         ");
    out.append(f.auth_mode.as_str());
    out.append("\n");
    out.append("  role:              ");
    out.append(f.role.as_str());
    out.append("\n");
    out.append("  trust:             ");
    out.append(crate::session::trust_state(f.privileged));
    out.append("\n");
    out
}

fn config_limits(f: &ConfigFacts) -> (r: String)
    ensures
        r@ == config_limits_text(*f),
{
    let mut out = "  audit_max_entries: ".to_owned();
    let a = u64_to_decimal(f.audit_max_entries);
    out.append(a.as_str());
    out.append("\n");
    out.append("  audit_archive:     ");
    out.append(bool_str(f.audit_archive));
    out.append("\n");
    out.append("  history_enabled:   ");
    out.append(bool_str(f.history_enabled));
    out.append("\n");
    out.append("  history_max:       ");
    let h = u64_to_decimal(f.history_max);
    out.append(h.as_str());
    out.append("\n");
    out.append("  history_reset:     ");
    out.append(bool_str(f.history_reset));
    out.append("\n");
    out
}

fn config_tail(f: &ConfigFacts) -> (r: String)
    ensures
        r@ == config_tail_text(*f),
{
    let mut out = "  history_max_age:   ".to_owned();
    let a = age_limit_text(f.history_max_age_secs);
    out.append(a.as_str());
    out.append("\n");
    out.append("  history_max_bytes: ");
    let b = size_limit_text(f.history_max_bytes);
    out.append(b.as_str());
    out.append("\n");
    out.append("  history_slim:      ");
    out.append(bool_str(f.history_slim));
    out.append("\n");
    out.append("  sse:               ");
    out.append(if f.sse {
        "on"
    } else {
        "off"
    });
    out.append("\n");
    out
}

fn warnings_text(w: &Vec<ConfigWarning>) -> (r: String)
    ensures
        r@ == warning_lines(w@),
{
    let mut out = String::new();
    let mut i: usize = 0;
    assert(w@.subrange(0, 0) =~= Seq::<ConfigWarning>::empty());
    while i < w.len()
        invariant
            i <= w@.len(),
            out@ == warning_lines(w@.subrange(0, i as int)),
        decreases w@.len() - i,
    {
        let mut line = "    [".to_owned();
        line.append(w[i].area.as_str());
        line.append("] ");
        line.append(w[i].message.as_str());
        line.append("\n");
        proof {
            assert(w@.subrange(0, i + 1).drop_last() =~= w@.subrange(0, i as int));
        }
        out.append(line.as_str());
        proof {
            assert(out@ =~= warning_lines(w@.subrange(0, i + 1)));
        }
        i = i + 1;
    }
    assert(w@.subrange(0, i as int) =~= w@);
    out
}

pub fn config_report(f: &ConfigFacts) -> (r: String)
    ensures
        r@ == spec_config_report(*f),
{
    let mut out = config_head(f);
    let l = config_limits(f);
    out.append(l.as_str());
    let t = config_tail(f);
    out.append(t.as_str());
    if f.warnings.len() > 0 {
        out.append("\n  Warnings:\n");
        let w = warnings_text(&f.warnings);
        out.append(w.as_str());
    } else {
        assert(config_warnings_text(*f) =~= Seq::<char>::empty());
    }
    out
}

} // verus!
