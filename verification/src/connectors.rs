//! The status of the optional ecosystem connectors.
use vstd::prelude::*;

use crate::text::{eq_ignore_case, str_eq_ignore_case};

verus! {

broadcast use vstd::string::group_string_axioms;

/// Runtime status of an ecosystem connector.
#[derive(Debug, Clone)]
pub enum ConnectorStatus {
    /// Connector not configured / feature disabled.
    Disabled,
    /// Connection attempt in progress.
    Connecting,
    /// Connected and receiving data.
    Healthy,
    /// Connected but experiencing issues.
    Degraded(String),
    /// Connection failed or endpoint unreachable.
    Failed(String),
}

impl ConnectorStatus {
    pub open spec fn label_spec(&self) -> Seq<char> {
        match self {
            ConnectorStatus::Disabled => "DISABLED"@,
            ConnectorStatus::Connecting => "CONNECTING"@,
            ConnectorStatus::Healthy => "HEALTHY"@,
            ConnectorStatus::Degraded(_) => "DEGRADED"@,
            ConnectorStatus::Failed(_) => "FAILED"@,
        }
    }

    pub open spec fn detail_spec(&self) -> Option<Seq<char>> {
        match self {
            ConnectorStatus::Degraded(d) => Some(d@),
            ConnectorStatus::Failed(d) => Some(d@),
            _ => None,
        }
    }

    pub fn label(&self) -> (r: &str)
        ensures
            r@ == self.label_spec(),
    {
        match self {
            ConnectorStatus::Disabled => "DISABLED",
            ConnectorStatus::Connecting => "CONNECTING",
            ConnectorStatus::Healthy => "HEALTHY",
            ConnectorStatus::Degraded(_) => "DEGRADED",
            ConnectorStatus::Failed(_) => "FAILED",
        }
    }

    /// The status as it is displayed: its label, and for a degraded or
    /// failed connector `: ` and the detail.
    pub open spec fn display_spec(&self) -> Seq<char> {
        match self {
            ConnectorStatus::Degraded(d) => "DEGRADED: "@ + d@,
            ConnectorStatus::Failed(d) => "FAILED: "@ + d@,
            _ => self.label_spec(),
        }
    }

    pub fn display_text(&self) -> (r: String)
        ensures
            r@ == self.display_spec(),
    {
        match self {
            ConnectorStatus::Degraded(d) => {
                let mut out = "DEGRADED: ".to_owned();
                out.append(d.as_str());
                out
            },
            ConnectorStatus::Failed(d) => {
                let mut out = "FAILED: ".to_owned();
                out.append(d.as_str());
                out
            },
            _ => self.label().to_owned(),
        }
    }

    /// Every status but `Disabled` counts as active.
    pub fn is_active(&self) -> (r: bool)
        ensures
            r == !(self is Disabled),
    {
        !matches!(self, ConnectorStatus::Disabled)
    }

    /// The detail of a degraded or failed connector.
    pub fn detail(&self) -> (r: Option<&str>)
        ensures
            match r {
                Some(s) => self.detail_spec() == Some(s@),
                None => self.detail_spec() is None,
            },
    {
        match self {
            ConnectorStatus::Degraded(d) => Some(d.as_str()),
            ConnectorStatus::Failed(d) => Some(d.as_str()),
            _ => None,
        }
    }
}

/// A connector reports a detail exactly when it is degraded or failed,
/// and it is active exactly when its label is not `DISABLED`.
pub proof fn law_status_label_and_detail(s: ConnectorStatus)
    ensures
        (s.detail_spec() is Some) <==> (s is Degraded || s is Failed),
        (s is Disabled) <==> (s.label_spec() == "DISABLED"@),
{
    reveal_strlit("DISABLED");
    reveal_strlit("CONNECTING");
    reveal_strlit("HEALTHY");
    reveal_strlit("DEGRADED");
    reveal_strlit("FAILED");
    assert("CONNECTING"@[0] != "DISABLED"@[0]);
    assert("HEALTHY"@[0] != "DISABLED"@[0]);
    assert("DEGRADED"@[1] != "DISABLED"@[1]);
    assert("FAILED"@[0] != "DISABLED"@[0]);
}

/// A URL without its trailing `/`s.
pub open spec fn trim_trailing_slashes(s: Seq<char>) -> Seq<char>
    decreases s.len(),
{
    if s.len() > 0 && s.last() == '/' {
        trim_trailing_slashes(s.drop_last())
    } else {
        s
    }
}

/// Where the EVRUS identity service publishes its OpenID configuration:
/// the service URL without trailing `/`s, then
/// `/.well-known/openid-configuration`.
pub open spec fn spec_oidc_discovery_url(oidc_url: Seq<char>) -> Seq<char> {
    trim_trailing_slashes(oidc_url) + "/.well-known/openid-configuration"@
}

pub fn oidc_discovery_url(oidc_url: &str) -> (r: String)
    ensures
        r@ == spec_oidc_discovery_url(oidc_url@),
{
    let mut n = oidc_url.unicode_len();
    assert(oidc_url@.subrange(0, n as int) =~= oidc_url@);
    while n > 0 && oidc_url.get_char(n - 1) == '/'
        invariant
            n <= oidc_url@.len(),
            trim_trailing_slashes(oidc_url@) == trim_trailing_slashes(oidc_url@.subrange(0, n as int)),
        decreases n,
    {
        assert(oidc_url@.subrange(0, n as int).drop_last() =~= oidc_url@.subrange(0, n - 1));
        n = n - 1;
    }
    let head = oidc_url.substring_char(0, n);
    assert(trim_trailing_slashes(head@) == head@);
    let mut out = head.to_owned();
    out.append("/.well-known/openid-configuration");
    out
}

// ---------------------------------------------------------------------------
// Health reports
// ---------------------------------------------------------------------------

/// The outcome of a connector's health check. (How long the check took, a
/// float, stays with the caller.)
#[derive(Debug, Clone)]
pub struct ConnectorHealth {
    pub name: String,
    pub status: ConnectorStatus,
    pub detail: Option<String>,
}

/// The health of every configured connector.
#[derive(Debug, Clone)]
pub struct ConnectorSummary {
    pub entries: Vec<ConnectorHealth>,
}

/// The first entry whose name is `name`, ASCII case ignored.
pub open spec fn first_named(entries: Seq<ConnectorHealth>, name: Seq<char>) -> Option<int>
    decreases entries.len(),
{
    if entries.len() == 0 {
        None
    } else if eq_ignore_case(entries[0].name@, name) {
        Some(0)
    } else {
        match first_named(entries.drop_first(), name) {
            Some(k) => Some(k + 1),
            None => None,
        }
    }
}

impl ConnectorSummary {
    /// Whether any connector is active (not `Disabled`).
    pub fn any_active(&self) -> (r: bool)
        ensures
            r == exists|k: int|
                0 <= k < self.entries@.len() && !(#[trigger] self.entries@[k].status is Disabled),
    {
        let mut k: usize = 0;
        while k < self.entries.len()
            invariant
                k <= self.entries@.len(),
                forall|j: int| 0 <= j < k ==> self.entries@[j].status is Disabled,
            decreases self.entries@.len() - k,
        {
            if self.entries[k].status.is_active() {
                return true;
            }
            k = k + 1;
        }
        false
    }

    /// The health of the connector named `name`, ASCII case ignored: the
    /// first such entry.
    pub fn health_for(&self, name: &str) -> (r: Option<&ConnectorHealth>)
        ensures
            match first_named(self.entries@, name@) {
                Some(k) => r == Some(&self.entries@[k]),
                None => r is None,
            },
    {
        let mut k: usize = 0;
        assert(self.entries@.subrange(0, self.entries@.len() as int) =~= self.entries@);
        while k < self.entries.len()
            invariant
                k <= self.entries@.len(),
                first_named(self.entries@, name@) == match first_named(
                    self.entries@.subrange(k as int, self.entries@.len() as int),
                    name@,
                ) {
                    Some(j) => Some(j + k),
                    None => None,
                },
            decreases self.entries@.len() - k,
        {
            let ghost tail = self.entries@.subrange(k as int, self.entries@.len() as int);
            assert(tail[0] == self.entries@[k as int]);
            if str_eq_ignore_case(self.entries[k].name.as_str(), name) {
                return Some(&self.entries[k]);
            }
            assert(tail.drop_first() =~= self.entries@.subrange(k + 1, self.entries@.len() as int));
            k = k + 1;
        }
        None
    }
}

/// The health that a PeerWeave check reports: healthy when the graph query
/// answered (with a note when publishing was asked for, which the
/// read-only graph cannot do), otherwise failed with the error.
pub open spec fn spec_peerweave_health(probe: Result<(), Seq<char>>, publish_enabled: bool) -> (
    Seq<char>,
    Seq<char>,
    Option<Seq<char>>,
) {
    match probe {
        Ok(()) => (
            "PeerWeave"@,
            "HEALTHY"@,
            if publish_enabled {
                Some("publish requested but current PeerWeave GraphQL is read-only; telemetry remains local/search-indexed"@)
            } else {
                None
            },
        ),
        Err(e) => ("PeerWeave"@, "FAILED"@, Some(e)),
    }
}

pub open spec fn health_view(h: ConnectorHealth) -> (Seq<char>, Seq<char>, Option<Seq<char>>) {
    (
        h.name@,
        h.status.label_spec(),
        match h.detail {
            Some(d) => Some(d@),
            None => None,
        },
    )
}

pub fn peerweave_health(probe: Result<(), String>, publish_enabled: bool) -> (r: ConnectorHealth)
    ensures
        health_view(r) == spec_peerweave_health(
            match probe {
                Ok(()) => Ok(()),
                Err(e) => Err(e@),
            },
            publish_enabled,
        ),
        probe matches Err(e) ==> r.status == ConnectorStatus::Failed(e),
{
    match probe {
        Ok(()) => ConnectorHealth {
            name: "PeerWeave".to_owned(),
            status: ConnectorStatus::Healthy,
            detail: if publish_enabled {
                Some("publish requested but current PeerWeave GraphQL is read-only; telemetry remains local/search-indexed".to_owned())
            } else {
                None
            },
        },
        Err(e) => ConnectorHealth {
            name: "PeerWeave".to_owned(),
            status: ConnectorStatus::Failed(e.clone()),
            detail: Some(e),
        },
    }
}

/// The health that an EVRUS check reports: healthy when the identity
/// service's OpenID configuration was read, otherwise failed with the error.
pub fn evrus_health(probe: Result<(), String>) -> (r: ConnectorHealth)
    ensures
        r.name@ == "EVRUS"@,
        probe is Ok ==> r.status is Healthy && r.detail is None,
        probe matches Err(e) ==> r.status == ConnectorStatus::Failed(e) && r.detail == Some(e),
{
    match probe {
        Ok(()) => ConnectorHealth {
            name: "EVRUS".to_owned(),
            status: ConnectorStatus::Healthy,
            detail: None,
        },
        Err(e) => ConnectorHealth {
            name: "EVRUS".to_owned(),
            status: ConnectorStatus::Failed(e.clone()),
            detail: Some(e),
        },
    }
}

// ---------------------------------------------------------------------------
// The connectors report
// ---------------------------------------------------------------------------

/// Names what `format!("{:?}", s)` gives for a string slice.
pub uninterp spec fn spec_debug_str(s: Seq<char>) -> Seq<char>;

/// `<str as Debug>::fmt`, by `format!("{:?}", ..)`: the string in quotes
/// with its special characters escaped. Only that the result is this
/// function of its argument is claimed; the escaping is not stated.
#[verifier::external_body]
fn debug_str(s: &str) -> (r: String)
    ensures
        r@ == spec_debug_str(s@),
{
    format!("{:?}", s)
}

/// A status as `{:?}` prints it: the variant's name, with a degraded or
/// failed connector's detail in brackets, as a quoted string.
pub open spec fn status_debug_text(s: ConnectorStatus) -> Seq<char> {
    match s {
        ConnectorStatus::Disabled => "Disabled"@,
        ConnectorStatus::Connecting => "Connecting"@,
        ConnectorStatus::Healthy => "Healthy"@,
        ConnectorStatus::Degraded(d) => "Degraded("@ + spec_debug_str(d@) + ")"@,
        ConnectorStatus::Failed(d) => "Failed("@ + spec_debug_str(d@) + ")"@,
    }
}

pub fn status_debug(s: &ConnectorStatus) -> (r: String)
    ensures
        r@ == status_debug_text(*s),
{
    match s {
        ConnectorStatus::Disabled => "Disabled".to_owned(),
        ConnectorStatus::Connecting => "Connecting".to_owned(),
        ConnectorStatus::Healthy => "Healthy".to_owned(),
        ConnectorStatus::Degraded(d) => {
            let mut out = "Degraded(".to_owned();
            let q = debug_str(d.as_str());
            out.append(q.as_str());
            out.append(")");
            out
        },
        ConnectorStatus::Failed(d) => {
            let mut out = "Failed(".to_owned();
            let q = debug_str(d.as_str());
            out.append(q.as_str());
            out.append(")");
            out
        },
    }
}

/// A connector's line: `  <name> \u{2014} <status>`, and ` (<detail>)`
/// when the health check reported one.
pub open spec fn connector_line(h: ConnectorHealth) -> Seq<char> {
    "  "@ + h.name@ + " \u{2014} "@ + status_debug_text(h.status) + match h.detail {
        Some(d) => " ("@ + d@ + ")"@,
        None => Seq::empty(),
    } + "\n"@
}

pub open spec fn connector_lines(s: Seq<ConnectorHealth>) -> Seq<char>
    decreases s.len(),
{
    if s.len() == 0 {
        Seq::empty()
    } else {
        connector_lines(s.drop_last()) + connector_line(s.last())
    }
}

/// `show connectors`: a hint when none is configured, otherwise a line per
/// connector.
pub open spec fn spec_connectors_report(s: Seq<ConnectorHealth>) -> Seq<char> {
    if s.len() == 0 {
        "No connectors configured. Set MANTICORE_PEERWEAVE_ENABLED=true or MANTICORE_EVRUS_ENABLED=true."@
    } else {
        "Connector status:\n"@ + connector_lines(s)
    }
}

fn connector_line_text(h: &ConnectorHealth) -> (r: String)
    ensures
        r@ == connector_line(*h),
{
    let mut out = "  ".to_owned();
    out.append(h.name.as_str());
    out.append(" \u{2014} ");
    let st = status_debug(&h.status);
    out.append(st.as_str());
    match &h.detail {
        Some(d) => {
            out.append(" (");
            out.append(d.as_str());
            out.append(")");
        },
        None => {
            assert(out@ + Seq::<char>::empty() =~= out@);
        },
    }
    out.append("\n");
    out
}

pub fn connectors_report(summary: &ConnectorSummary) -> (r: String)
    ensures
        r@ == spec_connectors_report(summary.entries@),
{
    let entries = &summary.entries;
    if entries.len() == 0 {
        return "No connectors configured. Set MANTICORE_PEERWEAVE_ENABLED=true or MANTICORE_EVRUS_ENABLED=true.".to_owned();
    }
    let mut out = "Connector status:\n".to_owned();
    let ghost head = out@;
    let mut i: usize = 0;
    assert(entries@.subrange(0, 0) =~= Seq::<ConnectorHealth>::empty());
    assert(head + Seq::<char>::empty() =~= head);
    while i < entries.len()
        invariant
            i <= entries@.len(),
            head == "Connector status:\n"@,
            out@ == head + connector_lines(entries@.subrange(0, i as int)),
        decreases entries@.len() - i,
    {
        let line = connector_line_text(&entries[i]);
        out.append(line.as_str());
        proof {
            let sub = entries@.subrange(0, i + 1);
            assert(sub.drop_last() =~= entries@.subrange(0, i as int));
            assert(sub.last() == entries@[i as int]);
            assert(out@ =~= head + connector_lines(sub));
        }
        i = i + 1;
    }
    assert(entries@.subrange(0, i as int) =~= entries@);
    out
}

// ---------------------------------------------------------------------------
// The connector wizard
// ---------------------------------------------------------------------------

/// The connectors the wizard configures, by their position in its list:
/// PeerWeave, EVRUS, and (any other position) the event stream.
pub open spec fn spec_wizard_default_url(kind: usize) -> Seq<char> {
    if kind == 0 {
        "http://localhost:3200/graphql"@
    } else if kind == 1 {
        "http://localhost:8790"@
    } else {
        "9462"@
    }
}

/// What the wizard proposes for the URL (or, for the event stream, the port).
pub fn wizard_default_url(kind: usize) -> (r: &'static str)
    ensures
        r@ == spec_wizard_default_url(kind),
{
    if kind == 0 {
        "http://localhost:3200/graphql"
    } else if kind == 1 {
        "http://localhost:8790"
    } else {
        "9462"
    }
}

/// The settings the wizard's last step shows for the chosen connector: it
/// is enabled at `url`; PeerWeave adds its token and publishing space, and
/// EVRUS its token, each only when given.
pub open spec fn spec_wizard_env_block(
    kind: usize,
    url: Seq<char>,
    token: Seq<char>,
    space_id: Seq<char>,
) -> Seq<char> {
    if kind == 0 {
        "MANTICORE_PEERWEAVE_ENABLED=true\nMANTICORE_PEERWEAVE_GRAPHQL_URL="@ + url + "\n"@ + (if token.len()
            == 0 {
            Seq::empty()
        } else {
            "MANTICORE_PEERWEAVE_CAP_TOKEN="@ + token + "\n"@
        }) + (if space_id.len() == 0 {
            Seq::empty()
        } else {
            "MANTICORE_PEERWEAVE_PUBLISH_ENABLED=true\nMANTICORE_PEERWEAVE_PUBLISH_SPACE_ID="@
                + space_id + "\n"@
        })
    } else if kind == 1 {
        "MANTICORE_EVRUS_ENABLED=true\nMANTICORE_EVRUS_OIDC_URL="@ + url + "\n"@ + (if token.len()
            == 0 {
            Seq::empty()
        } else {
            "MANTICORE_EVRUS_JWT="@ + token + "\n"@
        })
    } else {
        "MANTICORE_EVENT_STREAM_ENABLED=true\nMANTICORE_EVENT_STREAM_PORT="@ + url + "\n"@
    }
}

pub fn wizard_env_block(kind: usize, url: &str, token: &str, space_id: &str) -> (r: String)
    ensures
        r@ == spec_wizard_env_block(kind, url@, token@, space_id@),
{
    if kind == 0 {
        let mut s = "MANTICORE_PEERWEAVE_ENABLED=true\nMANTICORE_PEERWEAVE_GRAPHQL_URL=".to_owned();
        s.append(url);
        s.append("\n");
        let ghost a = s@;
        if token.unicode_len() > 0 {
            s.append("MANTICORE_PEERWEAVE_CAP_TOKEN=");
            s.append(token);
            s.append("\n");
        } else {
            assert(a + Seq::<char>::empty() =~= a);
        }
        let ghost b = s@;
        if space_id.unicode_len() > 0 {
            s.append("MANTICORE_PEERWEAVE_PUBLISH_ENABLED=true\nMANTICORE_PEERWEAVE_PUBLISH_SPACE_ID=");
            s.append(space_id);
            s.append("\n");
        } else {
            assert(b + Seq::<char>::empty() =~= b);
        }
        s
    } else if kind == 1 {
        let mut s = "MANTICORE_EVRUS_ENABLED=true\nMANTICORE_EVRUS_OIDC_URL=".to_owned();
        s.append(url);
        s.append("\n");
        let ghost a = s@;
        if token.unicode_len() > 0 {
            s.append("MANTICORE_EVRUS_JWT=");
            s.append(token);
            s.append("\n");
        } else {
            assert(a + Seq::<char>::empty() =~= a);
        }
        s
    } else {
        let mut s = "MANTICORE_EVENT_STREAM_ENABLED=true\nMANTICORE_EVENT_STREAM_PORT=".to_owned();
        s.append(url);
        s.append("\n");
        s
    }
}

} // verus!
