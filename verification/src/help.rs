//! The in-app documentation of the command palette.
use vstd::prelude::*;

use crate::text::{
    ascii_lower, chars_of, lower_span, lower_str, trim_start, trim_bounds, vec_eq_lit,
};

verus! {

broadcast use vstd::string::group_string_axioms;

pub const HELP_OVERVIEW_TITLE: &'static str = "Manticore ";

pub const HELP_OVERVIEW_REST: &'static str = "Sentinel — Command Palette

COMMANDS:
  show cpu          CPU metrics (usage, load, per-core)
  show memory       Memory usage (total, used, available)
  show disk         Disk throughput per device
  show network      Network throughput per interface
  show processes    Process table (--sort cpu|rss|pid|threads, --limit N)
  show alerts       Active alert policy matches
  show config       Current effective configuration
  show connectors   Ecosystem connector status
  show audit        Recent audit events (--last N, default 10)
  show storage      File sizes and retention status
  help [topic]      In-app documentation (topics: commands, config, connectors,
                    peerweave, evrus, auth, alerts, audit, sse, profiles)
  kill <pid>        Kill a process (requires confirmation + privilege)
  renice <n> <pid>  Change process priority (-20..19)

Press F1 for Help Center. Press Tab for autocomplete.";

pub const HELP_COMMANDS_TITLE: &'static str = "COMMANDS ";

pub const HELP_COMMANDS_REST: &'static str = "— detailed reference

show cpu
  Displays aggregate CPU usage percent, 1/5/15-minute load averages,
  and per-core utilization.

show memory | show mem
  Displays total, used, and available memory in human-readable units.

show disk | show disks
  Lists all disk devices sorted by combined R+W throughput.

show network | show net
  Lists all network interfaces sorted by combined RX+TX throughput.

show processes [--sort cpu|rss|pid|threads] [--limit N]
  Full process table. Default sort: cpu descending. Limit default: all.

show alerts
  Lists currently firing alert rules with severity and message.

show config
  Displays all effective configuration values including profile,
  auth mode, connectors, retention settings, and feature flags.

show connectors
  Shows health status for PeerWeave and EVRUS connectors.

show audit [--last N]
  Shows the N most recent audit events (default 10, max 200).

show storage
  Displays file sizes, entry counts, and retention config for
  audit events, snapshots, and archive files.

help [topic]
  Shows documentation. Topics: commands, config, connectors,
  peerweave, evrus, auth, alerts, audit, sse, profiles.

kill <pid>
  Sends SIGKILL to the specified process. Requires operator/admin role,
  confirmation prompt, and is audit-logged.

renice <nice> <pid>
  Changes the scheduling priority of a process. Nice range: -20..19.
  Lower = higher priority. Requires operator/admin role.";

pub const HELP_CONFIG_TITLE: &'static str = "CONFIGURATION ";

pub const HELP_CONFIG_REST: &'static str = "— environment variables

Core:
  MANTICORE_PROFILE             default|dev|secure|ecosystem (default: default)
  MANTICORE_PRIVILEGED          true|false — enable kill/renice (default: false)
  MANTICORE_HELPER_MODE         embedded|subprocess (default: embedded)
  MANTICORE_REFRESH_MS          Poll interval 100-5000ms (default: 500)

Auth:
  MANTICORE_AUTH_MODE            local|token|evrus (default: local)
  MANTICORE_ROLE                 viewer|operator|admin (auto from privileged)
  MANTICORE_AUTH_TOKEN           Required if auth_mode=token (min 12 chars)
  MANTICORE_AUTH_TOKEN_ISSUED_AT Unix timestamp for token lifecycle
  MANTICORE_AUTH_TOKEN_TTL_SECS  60-604800 seconds
  MANTICORE_AUTH_TOKEN_GRACE_SECS 0-600 (default: 30)

Retention:
  MANTICORE_AUDIT_MAX_ENTRIES      500-500000 (default: 10000)
  MANTICORE_AUDIT_ARCHIVE_ENABLED  true|false (default: true)
  MANTICORE_SNAPSHOT_HISTORY_ENABLED  true|false (default: false)
  MANTICORE_SNAPSHOT_HISTORY_MAX_ENTRIES 100-200000 (default: 1000)
  MANTICORE_SNAPSHOT_HISTORY_MAX_AGE_SECS seconds; 0/empty disables
  MANTICORE_SNAPSHOT_HISTORY_MAX_BYTES bytes; 0/empty disables
  MANTICORE_SNAPSHOT_HISTORY_SLIM_RECORDS true|false (default: false)
  MANTICORE_SNAPSHOT_HISTORY_RESET_ON_START true|false (default: false)

SSE:
  MANTICORE_EVENT_STREAM_ENABLED   true|false (default: false)
  MANTICORE_EVENT_STREAM_PORT      port number (default: 9462)

PeerWeave:
  MANTICORE_PEERWEAVE_ENABLED      true|false
  MANTICORE_PEERWEAVE_GRAPHQL_URL  (default: http://localhost:3200/graphql)
  MANTICORE_PEERWEAVE_CAP_TOKEN    CapToken for graph.read
  MANTICORE_PEERWEAVE_POLL_MS      1000-30000 (default: 5000)
  MANTICORE_PEERWEAVE_PUBLISH_ENABLED  true|false
  MANTICORE_PEERWEAVE_PUBLISH_SPACE_ID Space ID for publish
  MANTICORE_PEERWEAVE_PUBLISH_MS   1000-30000 (default: 5000)

EVRUS:
  MANTICORE_EVRUS_ENABLED          true|false
  MANTICORE_EVRUS_OIDC_URL         (default: http://localhost:8790)
  MANTICORE_EVRUS_JWT              EVRUS-issued JWT
  MANTICORE_EVRUS_ANCHOR_ENABLED   true|false
  MANTICORE_EVRUS_ANCHOR_INTERVAL_SECS 30-86400 (default: 300)
  MANTICORE_EVRUS_RPC_URL / _USER / _PASS  Evrmore RPC credentials

Alerts:
  MANTICORE_ALERT_POLICY_JSON      Inline JSON alert policy
  MANTICORE_ALERT_POLICY_PATH      Path to alert policy JSON file";

pub const HELP_CONNECTORS_TITLE: &'static str = "CONNECTORS ";

pub const HELP_CONNECTORS_REST: &'static str = "— ecosystem integration

Sentinel optionally connects to PeerWeave and EVRUS to provide a
unified operations console. Connectors are disabled by default.

To enable:
  export MANTICORE_PEERWEAVE_ENABLED=true
  export MANTICORE_EVRUS_ENABLED=true

See 'help peerweave' and 'help evrus' for connector-specific details.

Connector status is shown in the Connectors tab. Use 'show connectors'
from the command palette for a quick check.

All connector communication is outbound HTTP only. Sentinel never
listens for inbound connections from connectors.";

pub const HELP_PEERWEAVE_TITLE: &'static str = "PEERWEAVE ";

pub const HELP_PEERWEAVE_REST: &'static str = "— graph-based distributed knowledge

PeerWeave provides a GraphQL API for querying node, space, and graph
context. Sentinel reads from PeerWeave to display ecosystem topology.

Required env vars:
  MANTICORE_PEERWEAVE_ENABLED=true
  MANTICORE_PEERWEAVE_GRAPHQL_URL=<url>
  MANTICORE_PEERWEAVE_CAP_TOKEN=<token>

Optional graph publish (write host telemetry as triples):
  MANTICORE_PEERWEAVE_PUBLISH_ENABLED=true
  MANTICORE_PEERWEAVE_PUBLISH_SPACE_ID=<space-id>

Authentication uses CapTokens (capability-based tokens) passed
as Bearer tokens in the Authorization header.";

pub const HELP_EVRUS_TITLE: &'static str = "EVRUS ";

pub const HELP_EVRUS_REST: &'static str = "— identity, vault, and chain integration

EVRUS provides OIDC-based operator identity and optional Evrmore
blockchain audit anchoring.

Required env vars:
  MANTICORE_EVRUS_ENABLED=true
  MANTICORE_EVRUS_OIDC_URL=<url>
  MANTICORE_EVRUS_JWT=<jwt>

For audit anchoring (writes Merkle root to Evrmore blockchain):
  MANTICORE_EVRUS_ANCHOR_ENABLED=true
  MANTICORE_EVRUS_ANCHOR_INTERVAL_SECS=300
  MANTICORE_EVRUS_RPC_URL=<url>
  MANTICORE_EVRUS_RPC_USER=<user>
  MANTICORE_EVRUS_RPC_PASS=<pass>

When auth_mode=evrus, the JWT is used for operator identity
attribution in audit events (DID from JWT claims).";

pub const HELP_AUTH_TITLE: &'static str = "AUTHENTICATION ";

pub const HELP_AUTH_REST: &'static str = "— trust modes and RBAC

Sentinel supports three authentication modes:

local  — No token required. Role set by MANTICORE_ROLE.
         Suitable for single-user desktop use.

token  — Bearer token required for destructive actions.
         Set MANTICORE_AUTH_TOKEN (min 12 chars),
         MANTICORE_AUTH_TOKEN_ISSUED_AT, MANTICORE_AUTH_TOKEN_TTL_SECS.
         Lockout after 3 failed attempts.

evrus  — JWT-based identity via EVRUS OIDC.
         Requires MANTICORE_EVRUS_JWT. Operator identity
         (DID) extracted from JWT claims for audit attribution.

Roles:
  viewer   — Read-only. Cannot kill/renice.
  operator — Can renice. Cannot kill.
  admin    — Full access including kill.

Role is set by MANTICORE_ROLE or auto-detected from MANTICORE_PRIVILEGED.";

pub const HELP_ALERTS_TITLE: &'static str = "ALERTS ";

pub const HELP_ALERTS_REST: &'static str = "— configurable threshold monitoring

Alert policies define rules that fire when metrics exceed thresholds.
Alerts are evaluated on each collection cycle.

Configure via env vars:
  MANTICORE_ALERT_POLICY_JSON='{\"rules\": [...]}'
  MANTICORE_ALERT_POLICY_PATH=/path/to/alerts.json

Rule format:
  {
    \"id\": \"high-cpu\",
    \"metric\": \"cpu.usage_percent\",
    \"op\": \">\",
    \"threshold\": 90.0,
    \"for_cycles\": 3,
    \"severity\": \"warning\",
    \"message\": \"CPU above 90%\"
  }

Available metrics:
  cpu.usage_percent, memory.used_percent, process.count,
  disk.total_bytes_per_sec, network.total_bytes_per_sec

Severities: info, warning, critical
The for_cycles field requires the condition to persist for N consecutive
cycles before firing (debounce).";

pub const HELP_AUDIT_TITLE: &'static str = "AUDIT ";

pub const HELP_AUDIT_REST: &'static str = "— append-only event trail

Every command execution, auth failure, and policy denial is recorded
in .beads/audit/events.jsonl with Ed25519 digital signatures.

Retention:
  MANTICORE_AUDIT_MAX_ENTRIES (default: 10000)
  MANTICORE_AUDIT_ARCHIVE_ENABLED (default: true)

When max entries is exceeded, old events are archived to
.beads/audit/archive/events-<timestamp>.jsonl.

A Merkle tree root is computed over all events. When EVRUS anchoring
is enabled, this root is written to the Evrmore blockchain via
OP_RETURN for tamper-evidence.

Use 'show audit --last 50' to view recent events.
Use 'show storage' to check file sizes and retention status.";

pub const HELP_SSE_TITLE: &'static str = "SSE ";

pub const HELP_SSE_REST: &'static str = "— Server-Sent Events stream

Sentinel can expose a local SSE endpoint for streaming telemetry
to external consumers (dashboards, scripts, monitoring tools).

Enable:
  MANTICORE_EVENT_STREAM_ENABLED=true
  MANTICORE_EVENT_STREAM_PORT=9462

Test with curl:
  curl -N http://localhost:9462/

Events are streamed as 'event: telemetry' frames with JSON payloads
containing the current SystemSnapshot. Auth is inherited from the
configured MANTICORE_AUTH_MODE.";

pub const HELP_PROFILES_TITLE: &'static str = "PROFILES ";

pub const HELP_PROFILES_REST: &'static str = "— runtime configuration presets

Profiles load environment variables from config/profiles/<name>.env.
Use --profile <name> or MANTICORE_PROFILE=<name>.

Available profiles:

default  — Minimal standalone. Local auth, no connectors.
           Good for personal desktop monitoring.

dev      — Development mode. Verbose logging, fast refresh.

secure   — Token auth, restricted capabilities.
           Suitable for shared workstations.

ecosystem — Full integration. EVRUS auth, PeerWeave + EVRUS connectors,
            audit anchoring, snapshot history. For production fleet use.

Profile files are in config/profiles/. Create custom profiles by
adding new .env files to that directory.";


/// A help page: its title, then the rest of it.
pub open spec fn help_page(title: Seq<char>, rest: Seq<char>) -> Seq<char> {
    title + rest
}

fn page_text(title: &str, rest: &str) -> (r: String)
    ensures
        r@ == help_page(title@, rest@),
{
    let mut s = title.to_owned();
    s.append(rest);
    s
}

pub open spec fn unknown_topic_tail() -> Seq<char> {
    "'. Available: commands, config, connectors, peerweave, evrus, auth, alerts, audit, sse, profiles"@
}

/// The help page for a topic; `None` gives the overview.
pub open spec fn spec_help_text(topic: Option<Seq<char>>) -> Seq<char> {
    match topic {
        None => help_page(HELP_OVERVIEW_TITLE@, HELP_OVERVIEW_REST@),
        Some(t) => if t == "commands"@ || t == "command"@ {
            help_page(HELP_COMMANDS_TITLE@, HELP_COMMANDS_REST@)
        } else if t == "config"@ || t == "configuration"@ {
            help_page(HELP_CONFIG_TITLE@, HELP_CONFIG_REST@)
        } else if t == "connectors"@ || t == "connector"@ {
            help_page(HELP_CONNECTORS_TITLE@, HELP_CONNECTORS_REST@)
        } else if t == "peerweave"@ || t == "pw"@ {
            help_page(HELP_PEERWEAVE_TITLE@, HELP_PEERWEAVE_REST@)
        } else if t == "evrus"@ {
            help_page(HELP_EVRUS_TITLE@, HELP_EVRUS_REST@)
        } else if t == "auth"@ || t == "authentication"@ {
            help_page(HELP_AUTH_TITLE@, HELP_AUTH_REST@)
        } else if t == "alerts"@ || t == "alert"@ {
            help_page(HELP_ALERTS_TITLE@, HELP_ALERTS_REST@)
        } else if t == "audit"@ {
            help_page(HELP_AUDIT_TITLE@, HELP_AUDIT_REST@)
        } else if t == "sse"@ || t == "stream"@ {
            help_page(HELP_SSE_TITLE@, HELP_SSE_REST@)
        } else if t == "profiles"@ || t == "profile"@ {
            help_page(HELP_PROFILES_TITLE@, HELP_PROFILES_REST@)
        } else {
            "Unknown topic: '"@ + t + unknown_topic_tail()
        },
    }
}

/// The documentation for `topic`, or the overview when there is none.
pub fn help_text(topic: Option<&str>) -> (r: String)
    ensures
        r@ == spec_help_text(match topic {
            Some(t) => Some(t@),
            None => None,
        }),
{
    match topic {
        None => page_text(HELP_OVERVIEW_TITLE, HELP_OVERVIEW_REST),
        Some(t) => {
            let v = chars_of(t);
            if vec_eq_lit(&v, "commands") || vec_eq_lit(&v, "command") {
                page_text(HELP_COMMANDS_TITLE, HELP_COMMANDS_REST)
            } else if vec_eq_lit(&v, "config") || vec_eq_lit(&v, "configuration") {
                page_text(HELP_CONFIG_TITLE, HELP_CONFIG_REST)
            } else if vec_eq_lit(&v, "connectors") || vec_eq_lit(&v, "connector") {
                page_text(HELP_CONNECTORS_TITLE, HELP_CONNECTORS_REST)
            } else if vec_eq_lit(&v, "peerweave") || vec_eq_lit(&v, "pw") {
                page_text(HELP_PEERWEAVE_TITLE, HELP_PEERWEAVE_REST)
            } else if vec_eq_lit(&v, "evrus") {
                page_text(HELP_EVRUS_TITLE, HELP_EVRUS_REST)
            } else if vec_eq_lit(&v, "auth") || vec_eq_lit(&v, "authentication") {
                page_text(HELP_AUTH_TITLE, HELP_AUTH_REST)
            } else if vec_eq_lit(&v, "alerts") || vec_eq_lit(&v, "alert") {
                page_text(HELP_ALERTS_TITLE, HELP_ALERTS_REST)
            } else if vec_eq_lit(&v, "audit") {
                page_text(HELP_AUDIT_TITLE, HELP_AUDIT_REST)
            } else if vec_eq_lit(&v, "sse") || vec_eq_lit(&v, "stream") {
                page_text(HELP_SSE_TITLE, HELP_SSE_REST)
            } else if vec_eq_lit(&v, "profiles") || vec_eq_lit(&v, "profile") {
                page_text(HELP_PROFILES_TITLE, HELP_PROFILES_REST)
            } else {
                let mut s = "Unknown topic: '".to_owned();
                s.append(t);
                s.append("'. Available: commands, config, connectors, peerweave, evrus, auth, alerts, audit, sse, profiles");
                s
            }
        },
    }
}

/// The ten topics that have a page of their own.
pub open spec fn help_topics() -> Seq<Seq<char>> {
    seq!["commands"@, "config"@, "connectors"@, "peerweave"@, "evrus"@, "auth"@, "alerts"@, "audit"@, "sse"@, "profiles"@]
}

/// The first four characters of a page.
pub open spec fn head(p: Seq<char>) -> Seq<char> {
    p.subrange(0, 4)
}

proof fn lemma_head_commands()
    ensures
        spec_help_text(Some("commands"@)).len() >= 4,
        head(spec_help_text(Some("commands"@))) == "COMM"@,
{
    reveal_strlit("commands");
    reveal_strlit("COMMANDS ");
    reveal_strlit("COMM");
    assert(spec_help_text(Some("commands"@)) == help_page(HELP_COMMANDS_TITLE@, HELP_COMMANDS_REST@));
    assert(head(spec_help_text(Some("commands"@))) =~= "COMM"@);
}

proof fn lemma_head_config()
    ensures
        spec_help_text(Some("config"@)).len() >= 4,
        head(spec_help_text(Some("config"@))) == "CONF"@,
{
    reveal_strlit("commands");
    reveal_strlit("command");
    reveal_strlit("config");
    reveal_strlit("CONFIGURATION ");
    reveal_strlit("CONF");
    assert("config"@.len() != "commands"@.len());
    assert("config"@.len() != "command"@.len());
    assert(spec_help_text(Some("config"@)) == help_page(HELP_CONFIG_TITLE@, HELP_CONFIG_REST@));
    assert(head(spec_help_text(Some("config"@))) =~= "CONF"@);
}

proof fn lemma_head_connectors()
    ensures
        spec_help_text(Some("connectors"@)).len() >= 4,
        head(spec_help_text(Some("connectors"@))) == "CONN"@,
{
    reveal_strlit("commands");
    reveal_strlit("command");
    reveal_strlit("config");
    reveal_strlit("configuration");
    reveal_strlit("connectors");
    reveal_strlit("CONNECTORS ");
    reveal_strlit("CONN");
    assert("connectors"@.len() != "commands"@.len());
    assert("connectors"@.len() != "command"@.len());
    assert("connectors"@.len() != "config"@.len());
    assert("connectors"@.len() != "configuration"@.len());
    assert(spec_help_text(Some("connectors"@)) == help_page(HELP_CONNECTORS_TITLE@, HELP_CONNECTORS_REST@));
    assert(head(spec_help_text(Some("connectors"@))) =~= "CONN"@);
}

proof fn lemma_head_peerweave()
    ensures
        spec_help_text(Some("peerweave"@)).len() >= 4,
        head(spec_help_text(Some("peerweave"@))) == "PEER"@,
{
    reveal_strlit("commands");
    reveal_strlit("command");
    reveal_strlit("config");
    reveal_strlit("configuration");
    reveal_strlit("connectors");
    reveal_strlit("connector");
    reveal_strlit("peerweave");
    reveal_strlit("PEERWEAVE ");
    reveal_strlit("PEER");
    assert("peerweave"@.len() != "commands"@.len());
    assert("peerweave"@.len() != "command"@.len());
    assert("peerweave"@.len() != "config"@.len());
    assert("peerweave"@.len() != "configuration"@.len());
    assert("peerweave"@.len() != "connectors"@.len());
    assert("peerweave"@[0] != "connector"@[0]);
    assert(spec_help_text(Some("peerweave"@)) == help_page(HELP_PEERWEAVE_TITLE@, HELP_PEERWEAVE_REST@));
    assert(head(spec_help_text(Some("peerweave"@))) =~= "PEER"@);
}

proof fn lemma_head_evrus()
    ensures
        spec_help_text(Some("evrus"@)).len() >= 4,
        head(spec_help_text(Some("evrus"@))) == "EVRU"@,
{
    reveal_strlit("commands");
    reveal_strlit("command");
    reveal_strlit("config");
    reveal_strlit("configuration");
    reveal_strlit("connectors");
    reveal_strlit("connector");
    reveal_strlit("peerweave");
    reveal_strlit("pw");
    reveal_strlit("evrus");
    reveal_strlit("EVRUS ");
    reveal_strlit("EVRU");
    assert("evrus"@.len() != "commands"@.len());
    assert("evrus"@.len() != "command"@.len());
    assert("evrus"@.len() != "config"@.len());
    assert("evrus"@.len() != "configuration"@.len());
    assert("evrus"@.len() != "connectors"@.len());
    assert("evrus"@.len() != "connector"@.len());
    assert("evrus"@.len() != "peerweave"@.len());
    assert("evrus"@.len() != "pw"@.len());
    assert(spec_help_text(Some("evrus"@)) == help_page(HELP_EVRUS_TITLE@, HELP_EVRUS_REST@));
    assert(head(spec_help_text(Some("evrus"@))) =~= "EVRU"@);
}

proof fn lemma_head_auth()
    ensures
        spec_help_text(Some("auth"@)).len() >= 4,
        head(spec_help_text(Some("auth"@))) == "AUTH"@,
{
    reveal_strlit("commands");
    reveal_strlit("command");
    reveal_strlit("config");
    reveal_strlit("configuration");
    reveal_strlit("connectors");
    reveal_strlit("connector");
    reveal_strlit("peerweave");
    reveal_strlit("pw");
    reveal_strlit("evrus");
    reveal_strlit("auth");
    reveal_strlit("AUTHENTICATION ");
    reveal_strlit("AUTH");
    assert("auth"@.len() != "commands"@.len());
    assert("auth"@.len() != "command"@.len());
    assert("auth"@.len() != "config"@.len());
    assert("auth"@.len() != "configuration"@.len());
    assert("auth"@.len() != "connectors"@.len());
    assert("auth"@.len() != "connector"@.len());
    assert("auth"@.len() != "peerweave"@.len());
    assert("auth"@.len() != "pw"@.len());
    assert("auth"@.len() != "evrus"@.len());
    assert(spec_help_text(Some("auth"@)) == help_page(HELP_AUTH_TITLE@, HELP_AUTH_REST@));
    assert(head(spec_help_text(Some("auth"@))) =~= "AUTH"@);
}

proof fn lemma_head_alerts()
    ensures
        spec_help_text(Some("alerts"@)).len() >= 4,
        head(spec_help_text(Some("alerts"@))) == "ALER"@,
{
    reveal_strlit("commands");
    reveal_strlit("command");
    reveal_strlit("config");
    reveal_strlit("configuration");
    reveal_strlit("connectors");
    reveal_strlit("connector");
    reveal_strlit("peerweave");
    reveal_strlit("pw");
    reveal_strlit("evrus");
    reveal_strlit("auth");
    reveal_strlit("authentication");
    reveal_strlit("alerts");
    reveal_strlit("ALERTS ");
    reveal_strlit("ALER");
    assert("alerts"@.len() != "commands"@.len());
    assert("alerts"@.len() != "command"@.len());
    assert("alerts"@[0] != "config"@[0]);
    assert("alerts"@.len() != "configuration"@.len());
    assert("alerts"@.len() != "connectors"@.len());
    assert("alerts"@.len() != "connector"@.len());
    assert("alerts"@.len() != "peerweave"@.len());
    assert("alerts"@.len() != "pw"@.len());
    assert("alerts"@.len() != "evrus"@.len());
    assert("alerts"@.len() != "auth"@.len());
    assert("alerts"@.len() != "authentication"@.len());
    assert(spec_help_text(Some("alerts"@)) == help_page(HELP_ALERTS_TITLE@, HELP_ALERTS_REST@));
    assert(head(spec_help_text(Some("alerts"@))) =~= "ALER"@);
}

proof fn lemma_head_audit()
    ensures
        spec_help_text(Some("audit"@)).len() >= 4,
        head(spec_help_text(Some("audit"@))) == "AUDI"@,
{
    reveal_strlit("commands");
    reveal_strlit("command");
    reveal_strlit("config");
    reveal_strlit("configuration");
    reveal_strlit("connectors");
    reveal_strlit("connector");
    reveal_strlit("peerweave");
    reveal_strlit("pw");
    reveal_strlit("evrus");
    reveal_strlit("auth");
    reveal_strlit("authentication");
    reveal_strlit("alerts");
    reveal_strlit("alert");
    reveal_strlit("audit");
    reveal_strlit("AUDIT ");
    reveal_strlit("AUDI");
    assert("audit"@.len() != "commands"@.len());
    assert("audit"@.len() != "command"@.len());
    assert("audit"@.len() != "config"@.len());
    assert("audit"@.len() != "configuration"@.len());
    assert("audit"@.len() != "connectors"@.len());
    assert("audit"@.len() != "connector"@.len());
    assert("audit"@.len() != "peerweave"@.len());
    assert("audit"@.len() != "pw"@.len());
    assert("audit"@[0] != "evrus"@[0]);
    assert("audit"@.len() != "auth"@.len());
    assert("audit"@.len() != "authentication"@.len());
    assert("audit"@.len() != "alerts"@.len());
    assert("audit"@[1] != "alert"@[1]);
    assert(spec_help_text(Some("audit"@)) == help_page(HELP_AUDIT_TITLE@, HELP_AUDIT_REST@));
    assert(head(spec_help_text(Some("audit"@))) =~= "AUDI"@);
}

proof fn lemma_head_sse()
    ensures
        spec_help_text(Some("sse"@)).len() >= 4,
        head(spec_help_text(Some("sse"@))) == "SSE "@,
{
    reveal_strlit("commands");
    reveal_strlit("command");
    reveal_strlit("config");
    reveal_strlit("configuration");
    reveal_strlit("connectors");
    reveal_strlit("connector");
    reveal_strlit("peerweave");
    reveal_strlit("pw");
    reveal_strlit("evrus");
    reveal_strlit("auth");
    reveal_strlit("authentication");
    reveal_strlit("alerts");
    reveal_strlit("alert");
    reveal_strlit("audit");
    reveal_strlit("sse");
    reveal_strlit("SSE ");
    reveal_strlit("SSE ");
    assert("sse"@.len() != "commands"@.len());
    assert("sse"@.len() != "command"@.len());
    assert("sse"@.len() != "config"@.len());
    assert("sse"@.len() != "configuration"@.len());
    assert("sse"@.len() != "connectors"@.len());
    assert("sse"@.len() != "connector"@.len());
    assert("sse"@.len() != "peerweave"@.len());
    assert("sse"@.len() != "pw"@.len());
    assert("sse"@.len() != "evrus"@.len());
    assert("sse"@.len() != "auth"@.len());
    assert("sse"@.len() != "authentication"@.len());
    assert("sse"@.len() != "alerts"@.len());
    assert("sse"@.len() != "alert"@.len());
    assert("sse"@.len() != "audit"@.len());
    assert(spec_help_text(Some("sse"@)) == help_page(HELP_SSE_TITLE@, HELP_SSE_REST@));
    assert(head(spec_help_text(Some("sse"@))) =~= "SSE "@);
}

proof fn lemma_head_profiles()
    ensures
        spec_help_text(Some("profiles"@)).len() >= 4,
        head(spec_help_text(Some("profiles"@))) == "PROF"@,
{
    reveal_strlit("commands");
    reveal_strlit("command");
    reveal_strlit("config");
    reveal_strlit("configuration");
    reveal_strlit("connectors");
    reveal_strlit("connector");
    reveal_strlit("peerweave");
    reveal_strlit("pw");
    reveal_strlit("evrus");
    reveal_strlit("auth");
    reveal_strlit("authentication");
    reveal_strlit("alerts");
    reveal_strlit("alert");
    reveal_strlit("audit");
    reveal_strlit("sse");
    reveal_strlit("stream");
    reveal_strlit("profiles");
    reveal_strlit("PROFILES ");
    reveal_strlit("PROF");
    assert("profiles"@[0] != "commands"@[0]);
    assert("profiles"@.len() != "command"@.len());
    assert("profiles"@.len() != "config"@.len());
    assert("profiles"@.len() != "configuration"@.len());
    assert("profiles"@.len() != "connectors"@.len());
    assert("profiles"@.len() != "connector"@.len());
    assert("profiles"@.len() != "peerweave"@.len());
    assert("profiles"@.len() != "pw"@.len());
    assert("profiles"@.len() != "evrus"@.len());
    assert("profiles"@.len() != "auth"@.len());
    assert("profiles"@.len() != "authentication"@.len());
    assert("profiles"@.len() != "alerts"@.len());
    assert("profiles"@.len() != "alert"@.len());
    assert("profiles"@.len() != "audit"@.len());
    assert("profiles"@.len() != "sse"@.len());
    assert("profiles"@.len() != "stream"@.len());
    assert(spec_help_text(Some("profiles"@)) == help_page(HELP_PROFILES_TITLE@, HELP_PROFILES_REST@));
    assert(head(spec_help_text(Some("profiles"@))) =~= "PROF"@);
}

proof fn lemma_head_overview()
    ensures
        spec_help_text(None).len() >= 4,
        head(spec_help_text(None)) == "Mant"@,
{
    reveal_strlit("Manticore ");
    reveal_strlit("Mant");
    assert(head(spec_help_text(None)) =~= "Mant"@);
}

proof fn lemma_alias_command()
    ensures
        spec_help_text(Some("command"@)) == spec_help_text(Some("commands"@)),
{
    reveal_strlit("commands");
    reveal_strlit("command");
    assert("command"@.len() != "commands"@.len());
}

proof fn lemma_alias_configuration()
    ensures
        spec_help_text(Some("configuration"@)) == spec_help_text(Some("config"@)),
{
    reveal_strlit("commands");
    reveal_strlit("command");
    reveal_strlit("config");
    reveal_strlit("configuration");
    assert("configuration"@.len() != "commands"@.len());
    assert("configuration"@.len() != "command"@.len());
    assert("configuration"@.len() != "config"@.len());
    assert("config"@.len() != "commands"@.len());
    assert("config"@.len() != "command"@.len());
}

proof fn lemma_alias_connector()
    ensures
        spec_help_text(Some("connector"@)) == spec_help_text(Some("connectors"@)),
{
    reveal_strlit("commands");
    reveal_strlit("command");
    reveal_strlit("config");
    reveal_strlit("configuration");
    reveal_strlit("connectors");
    reveal_strlit("connector");
    assert("connector"@.len() != "commands"@.len());
    assert("connector"@.len() != "command"@.len());
    assert("connector"@.len() != "config"@.len());
    assert("connector"@.len() != "configuration"@.len());
    assert("connector"@.len() != "connectors"@.len());
    assert("connectors"@.len() != "commands"@.len());
    assert("connectors"@.len() != "command"@.len());
    assert("connectors"@.len() != "config"@.len());
    assert("connectors"@.len() != "configuration"@.len());
}

proof fn lemma_alias_pw()
    ensures
        spec_help_text(Some("pw"@)) == spec_help_text(Some("peerweave"@)),
{
    reveal_strlit("commands");
    reveal_strlit("command");
    reveal_strlit("config");
    reveal_strlit("configuration");
    reveal_strlit("connectors");
    reveal_strlit("connector");
    reveal_strlit("peerweave");
    reveal_strlit("pw");
    assert("pw"@.len() != "commands"@.len());
    assert("pw"@.len() != "command"@.len());
    assert("pw"@.len() != "config"@.len());
    assert("pw"@.len() != "configuration"@.len());
    assert("pw"@.len() != "connectors"@.len());
    assert("pw"@.len() != "connector"@.len());
    assert("pw"@.len() != "peerweave"@.len());
    assert("peerweave"@.len() != "commands"@.len());
    assert("peerweave"@.len() != "command"@.len());
    assert("peerweave"@.len() != "config"@.len());
    assert("peerweave"@.len() != "configuration"@.len());
    assert("peerweave"@.len() != "connectors"@.len());
    assert("peerweave"@[0] != "connector"@[0]);
}

proof fn lemma_alias_authentication()
    ensures
        spec_help_text(Some("authentication"@)) == spec_help_text(Some("auth"@)),
{
    reveal_strlit("commands");
    reveal_strlit("command");
    reveal_strlit("config");
    reveal_strlit("configuration");
    reveal_strlit("connectors");
    reveal_strlit("connector");
    reveal_strlit("peerweave");
    reveal_strlit("pw");
    reveal_strlit("evrus");
    reveal_strlit("auth");
    reveal_strlit("authentication");
    assert("authentication"@.len() != "commands"@.len());
    assert("authentication"@.len() != "command"@.len());
    assert("authentication"@.len() != "config"@.len());
    assert("authentication"@.len() != "configuration"@.len());
    assert("authentication"@.len() != "connectors"@.len());
    assert("authentication"@.len() != "connector"@.len());
    assert("authentication"@.len() != "peerweave"@.len());
    assert("authentication"@.len() != "pw"@.len());
    assert("authentication"@.len() != "evrus"@.len());
    assert("authentication"@.len() != "auth"@.len());
    assert("auth"@.len() != "commands"@.len());
    assert("auth"@.len() != "command"@.len());
    assert("auth"@.len() != "config"@.len());
    assert("auth"@.len() != "configuration"@.len());
    assert("auth"@.len() != "connectors"@.len());
    assert("auth"@.len() != "connector"@.len());
    assert("auth"@.len() != "peerweave"@.len());
    assert("auth"@.len() != "pw"@.len());
    assert("auth"@.len() != "evrus"@.len());
}

proof fn lemma_alias_alert()
    ensures
        spec_help_text(Some("alert"@)) == spec_help_text(Some("alerts"@)),
{
    reveal_strlit("commands");
    reveal_strlit("command");
    reveal_strlit("config");
    reveal_strlit("configuration");
    reveal_strlit("connectors");
    reveal_strlit("connector");
    reveal_strlit("peerweave");
    reveal_strlit("pw");
    reveal_strlit("evrus");
    reveal_strlit("auth");
    reveal_strlit("authentication");
    reveal_strlit("alerts");
    reveal_strlit("alert");
    assert("alert"@.len() != "commands"@.len());
    assert("alert"@.len() != "command"@.len());
    assert("alert"@.len() != "config"@.len());
    assert("alert"@.len() != "configuration"@.len());
    assert("alert"@.len() != "connectors"@.len());
    assert("alert"@.len() != "connector"@.len());
    assert("alert"@.len() != "peerweave"@.len());
    assert("alert"@.len() != "pw"@.len());
    assert("alert"@[0] != "evrus"@[0]);
    assert("alert"@.len() != "auth"@.len());
    assert("alert"@.len() != "authentication"@.len());
    assert("alert"@.len() != "alerts"@.len());
    assert("alerts"@.len() != "commands"@.len());
    assert("alerts"@.len() != "command"@.len());
    assert("alerts"@[0] != "config"@[0]);
    assert("alerts"@.len() != "configuration"@.len());
    assert("alerts"@.len() != "connectors"@.len());
    assert("alerts"@.len() != "connector"@.len());
    assert("alerts"@.len() != "peerweave"@.len());
    assert("alerts"@.len() != "pw"@.len());
    assert("alerts"@.len() != "evrus"@.len());
    assert("alerts"@.len() != "auth"@.len());
    assert("alerts"@.len() != "authentication"@.len());
}

proof fn lemma_alias_stream()
    ensures
        spec_help_text(Some("stream"@)) == spec_help_text(Some("sse"@)),
{
    reveal_strlit("commands");
    reveal_strlit("command");
    reveal_strlit("config");
    reveal_strlit("configuration");
    reveal_strlit("connectors");
    reveal_strlit("connector");
    reveal_strlit("peerweave");
    reveal_strlit("pw");
    reveal_strlit("evrus");
    reveal_strlit("auth");
    reveal_strlit("authentication");
    reveal_strlit("alerts");
    reveal_strlit("alert");
    reveal_strlit("audit");
    reveal_strlit("sse");
    reveal_strlit("stream");
    assert("stream"@.len() != "commands"@.len());
    assert("stream"@.len() != "command"@.len());
    assert("stream"@[0] != "config"@[0]);
    assert("stream"@.len() != "configuration"@.len());
    assert("stream"@.len() != "connectors"@.len());
    assert("stream"@.len() != "connector"@.len());
    assert("stream"@.len() != "peerweave"@.len());
    assert("stream"@.len() != "pw"@.len());
    assert("stream"@.len() != "evrus"@.len());
    assert("stream"@.len() != "auth"@.len());
    assert("stream"@.len() != "authentication"@.len());
    assert("stream"@[0] != "alerts"@[0]);
    assert("stream"@.len() != "alert"@.len());
    assert("stream"@.len() != "audit"@.len());
    assert("stream"@.len() != "sse"@.len());
    assert("sse"@.len() != "commands"@.len());
    assert("sse"@.len() != "command"@.len());
    assert("sse"@.len() != "config"@.len());
    assert("sse"@.len() != "configuration"@.len());
    assert("sse"@.len() != "connectors"@.len());
    assert("sse"@.len() != "connector"@.len());
    assert("sse"@.len() != "peerweave"@.len());
    assert("sse"@.len() != "pw"@.len());
    assert("sse"@.len() != "evrus"@.len());
    assert("sse"@.len() != "auth"@.len());
    assert("sse"@.len() != "authentication"@.len());
    assert("sse"@.len() != "alerts"@.len());
    assert("sse"@.len() != "alert"@.len());
    assert("sse"@.len() != "audit"@.len());
}

proof fn lemma_alias_profile()
    ensures
        spec_help_text(Some("profile"@)) == spec_help_text(Some("profiles"@)),
{
    reveal_strlit("commands");
    reveal_strlit("command");
    reveal_strlit("config");
    reveal_strlit("configuration");
    reveal_strlit("connectors");
    reveal_strlit("connector");
    reveal_strlit("peerweave");
    reveal_strlit("pw");
    reveal_strlit("evrus");
    reveal_strlit("auth");
    reveal_strlit("authentication");
    reveal_strlit("alerts");
    reveal_strlit("alert");
    reveal_strlit("audit");
    reveal_strlit("sse");
    reveal_strlit("stream");
    reveal_strlit("profiles");
    reveal_strlit("profile");
    assert("profile"@.len() != "commands"@.len());
    assert("profile"@[0] != "command"@[0]);
    assert("profile"@.len() != "config"@.len());
    assert("profile"@.len() != "configuration"@.len());
    assert("profile"@.len() != "connectors"@.len());
    assert("profile"@.len() != "connector"@.len());
    assert("profile"@.len() != "peerweave"@.len());
    assert("profile"@.len() != "pw"@.len());
    assert("profile"@.len() != "evrus"@.len());
    assert("profile"@.len() != "auth"@.len());
    assert("profile"@.len() != "authentication"@.len());
    assert("profile"@.len() != "alerts"@.len());
    assert("profile"@.len() != "alert"@.len());
    assert("profile"@.len() != "audit"@.len());
    assert("profile"@.len() != "sse"@.len());
    assert("profile"@.len() != "stream"@.len());
    assert("profile"@.len() != "profiles"@.len());
    assert("profiles"@[0] != "commands"@[0]);
    assert("profiles"@.len() != "command"@.len());
    assert("profiles"@.len() != "config"@.len());
    assert("profiles"@.len() != "configuration"@.len());
    assert("profiles"@.len() != "connectors"@.len());
    assert("profiles"@.len() != "connector"@.len());
    assert("profiles"@.len() != "peerweave"@.len());
    assert("profiles"@.len() != "pw"@.len());
    assert("profiles"@.len() != "evrus"@.len());
    assert("profiles"@.len() != "auth"@.len());
    assert("profiles"@.len() != "authentication"@.len());
    assert("profiles"@.len() != "alerts"@.len());
    assert("profiles"@.len() != "alert"@.len());
    assert("profiles"@.len() != "audit"@.len());
    assert("profiles"@.len() != "sse"@.len());
    assert("profiles"@.len() != "stream"@.len());
}

/// Each alias shows the page of its topic; the ten topics show ten
/// different pages, none of which is the overview or begins like the
/// answer for an unknown topic.
pub proof fn law_help_pages_are_distinct()
    ensures
        spec_help_text(Some("command"@)) == spec_help_text(Some("commands"@)),
        spec_help_text(Some("configuration"@)) == spec_help_text(Some("config"@)),
        spec_help_text(Some("connector"@)) == spec_help_text(Some("connectors"@)),
        spec_help_text(Some("pw"@)) == spec_help_text(Some("peerweave"@)),
        spec_help_text(Some("authentication"@)) == spec_help_text(Some("auth"@)),
        spec_help_text(Some("alert"@)) == spec_help_text(Some("alerts"@)),
        spec_help_text(Some("stream"@)) == spec_help_text(Some("sse"@)),
        spec_help_text(Some("profile"@)) == spec_help_text(Some("profiles"@)),
        forall|i: int, j: int|
            0 <= i < j < 10 ==> spec_help_text(Some(help_topics()[i])) != spec_help_text(
                Some(help_topics()[j]),
            ),
        forall|i: int|
            0 <= i < 10 ==> spec_help_text(Some(help_topics()[i])) != spec_help_text(None),
        forall|i: int|
            0 <= i < 10 ==> !crate::command::starts_with(
                spec_help_text(Some(help_topics()[i])),
                "Unknown topic"@,
            ),
{
    reveal_strlit("commands");
    reveal_strlit("command");
    reveal_strlit("config");
    reveal_strlit("configuration");
    reveal_strlit("connectors");
    reveal_strlit("connector");
    reveal_strlit("peerweave");
    reveal_strlit("pw");
    reveal_strlit("evrus");
    reveal_strlit("auth");
    reveal_strlit("authentication");
    reveal_strlit("alerts");
    reveal_strlit("alert");
    reveal_strlit("audit");
    reveal_strlit("sse");
    reveal_strlit("stream");
    reveal_strlit("profiles");
    reveal_strlit("profile");
    lemma_head_commands();
    lemma_head_config();
    lemma_head_connectors();
    lemma_head_peerweave();
    lemma_head_evrus();
    lemma_head_auth();
    lemma_head_alerts();
    lemma_head_audit();
    lemma_head_sse();
    lemma_head_profiles();
    lemma_head_overview();
    lemma_alias_command();
    lemma_alias_configuration();
    lemma_alias_connector();
    lemma_alias_pw();
    lemma_alias_authentication();
    lemma_alias_alert();
    lemma_alias_stream();
    lemma_alias_profile();
    reveal_strlit("COMM");
    reveal_strlit("CONF");
    reveal_strlit("CONN");
    reveal_strlit("PEER");
    reveal_strlit("EVRU");
    reveal_strlit("AUTH");
    reveal_strlit("ALER");
    reveal_strlit("AUDI");
    reveal_strlit("SSE ");
    reveal_strlit("PROF");
    reveal_strlit("Mant");
    reveal_strlit("Unkn");
    assert("COMM"@[2] != "CONF"@[2]);
    assert("COMM"@[2] != "CONN"@[2]);
    assert("COMM"@[0] != "PEER"@[0]);
    assert("COMM"@[0] != "EVRU"@[0]);
    assert("COMM"@[0] != "AUTH"@[0]);
    assert("COMM"@[0] != "ALER"@[0]);
    assert("COMM"@[0] != "AUDI"@[0]);
    assert("COMM"@[0] != "SSE "@[0]);
    assert("COMM"@[0] != "PROF"@[0]);
    assert("COMM"@[0] != "Mant"@[0]);
    assert("COMM"@[0] != "Unkn"@[0]);
    assert("CONF"@[3] != "CONN"@[3]);
    assert("CONF"@[0] != "PEER"@[0]);
    assert("CONF"@[0] != "EVRU"@[0]);
    assert("CONF"@[0] != "AUTH"@[0]);
    assert("CONF"@[0] != "ALER"@[0]);
    assert("CONF"@[0] != "AUDI"@[0]);
    assert("CONF"@[0] != "SSE "@[0]);
    assert("CONF"@[0] != "PROF"@[0]);
    assert("CONF"@[0] != "Mant"@[0]);
    assert("CONF"@[0] != "Unkn"@[0]);
    assert("CONN"@[0] != "PEER"@[0]);
    assert("CONN"@[0] != "EVRU"@[0]);
    assert("CONN"@[0] != "AUTH"@[0]);
    assert("CONN"@[0] != "ALER"@[0]);
    assert("CONN"@[0] != "AUDI"@[0]);
    assert("CONN"@[0] != "SSE "@[0]);
    assert("CONN"@[0] != "PROF"@[0]);
    assert("CONN"@[0] != "Mant"@[0]);
    assert("CONN"@[0] != "Unkn"@[0]);
    assert("PEER"@[0] != "EVRU"@[0]);
    assert("PEER"@[0] != "AUTH"@[0]);
    assert("PEER"@[0] != "ALER"@[0]);
    assert("PEER"@[0] != "AUDI"@[0]);
    assert("PEER"@[0] != "SSE "@[0]);
    assert("PEER"@[1] != "PROF"@[1]);
    assert("PEER"@[0] != "Mant"@[0]);
    assert("PEER"@[0] != "Unkn"@[0]);
    assert("EVRU"@[0] != "AUTH"@[0]);
    assert("EVRU"@[0] != "ALER"@[0]);
    assert("EVRU"@[0] != "AUDI"@[0]);
    assert("EVRU"@[0] != "SSE "@[0]);
    assert("EVRU"@[0] != "PROF"@[0]);
    assert("EVRU"@[0] != "Mant"@[0]);
    assert("EVRU"@[0] != "Unkn"@[0]);
    assert("AUTH"@[1] != "ALER"@[1]);
    assert("AUTH"@[2] != "AUDI"@[2]);
    assert("AUTH"@[0] != "SSE "@[0]);
    assert("AUTH"@[0] != "PROF"@[0]);
    assert("AUTH"@[0] != "Mant"@[0]);
    assert("AUTH"@[0] != "Unkn"@[0]);
    assert("ALER"@[1] != "AUDI"@[1]);
    assert("ALER"@[0] != "SSE "@[0]);
    assert("ALER"@[0] != "PROF"@[0]);
    assert("ALER"@[0] != "Mant"@[0]);
    assert("ALER"@[0] != "Unkn"@[0]);
    assert("AUDI"@[0] != "SSE "@[0]);
    assert("AUDI"@[0] != "PROF"@[0]);
    assert("AUDI"@[0] != "Mant"@[0]);
    assert("AUDI"@[0] != "Unkn"@[0]);
    assert("SSE "@[0] != "PROF"@[0]);
    assert("SSE "@[0] != "Mant"@[0]);
    assert("SSE "@[0] != "Unkn"@[0]);
    assert("PROF"@[0] != "Mant"@[0]);
    assert("PROF"@[0] != "Unkn"@[0]);
    assert(help_topics() =~= seq!["commands"@, "config"@, "connectors"@, "peerweave"@, "evrus"@, "auth"@, "alerts"@, "audit"@, "sse"@, "profiles"@]);
    assert forall|i: int, j: int| 0 <= i < j < 10 implies spec_help_text(Some(help_topics()[i]))
        != spec_help_text(Some(help_topics()[j])) by {
        let pi = spec_help_text(Some(help_topics()[i]));
        let pj = spec_help_text(Some(help_topics()[j]));
        assert(head(pi) != head(pj));
    }
    assert forall|i: int| 0 <= i < 10 implies spec_help_text(Some(help_topics()[i]))
        != spec_help_text(None) by {
        assert(head(spec_help_text(Some(help_topics()[i]))) != head(spec_help_text(None)));
    }
    reveal_strlit("Unknown topic");
    assert("Unknown topic"@.subrange(0, 4) =~= "Unkn"@);
    assert forall|i: int| 0 <= i < 10 implies !crate::command::starts_with(
        spec_help_text(Some(help_topics()[i])),
        "Unknown topic"@,
    ) by {
        let p = spec_help_text(Some(help_topics()[i]));
        assert(head(p) != "Unkn"@);
        if crate::command::starts_with(p, "Unknown topic"@) {
            assert(p.subrange(0, 4) =~= "Unknown topic"@.subrange(0, 13).subrange(0, 4));
        }
    }
}

} // verus!
