//! The decisions behind the relay administration routes.

use vstd::prelude::*;
use crate::decimal::{i64_to_decimal, signed_decimal};
use crate::relay::schema_guard::{NRR_SCHEMA_MAX, NRR_SCHEMA_MIN};
use crate::relay::types::{CompatStatus, CreateRuleRequest};
use crate::text::str_equal;

verus! {

/// The HTTP status of a request without a valid admin token.
pub const STATUS_UNAUTHORIZED: u16 = 401;

/// Admits a request whose admin token header was given and equals the
/// configured token; refuses any other with status 401.
pub fn ensure_admin(provided: Option<&str>, token: &str) -> (r: Result<(), (u16, String)>)
    ensures
        r is Ok <==> (provided matches Some(p) && p@ == token@),
        r matches Err(e) ==> e.0 == STATUS_UNAUTHORIZED && e.1@ == "missing/invalid admin token"@,
{
    let admitted = match provided {
        Some(p) => str_equal(p, token),
        None => false,
    };
    if admitted {
        Ok(())
    } else {
        Err((STATUS_UNAUTHORIZED, "missing/invalid admin token".to_owned()))
    }
}

/// The relay administration routes.
#[derive(Debug, Clone, Copy, PartialEq, Eq, Structural)]
pub enum RelayRoute {
    /// GET /status
    Status,
    /// GET /config
    ConfigRead,
    /// POST /config
    ConfigUpdate,
    /// GET /compat
    Compat,
    /// GET /summary
    Summary,
    /// GET /export-rules
    ExportRulesList,
    /// POST /export-rules
    ExportRulesCreate,
    /// PUT /export-rules/:id
    ExportRulesUpdate,
    /// DELETE /export-rules/:id
    ExportRulesDelete,
    /// GET /export/preview
    ExportPreview,
    /// POST /export/run
    ExportRun,
    /// POST /observe/run
    ObserveRun,
    /// POST /restart
    Restart,
    /// POST /writers
    WriterAdd,
    /// DELETE /writers/:pubkey
    WriterRemove,
    /// POST /prune
    Prune,
    /// GET /logs
    Logs,
}

/// HTTP request methods of the routes.
#[derive(Debug, Clone, Copy, PartialEq, Eq, Structural)]
pub enum Method {
    Get,
    Post,
    Put,
    Delete,
}

/// The method of a route.
pub open spec fn route_method(route: RelayRoute) -> Method {
    match route {
        RelayRoute::ConfigUpdate | RelayRoute::ExportRulesCreate | RelayRoute::ExportRun
        | RelayRoute::ObserveRun | RelayRoute::Restart | RelayRoute::WriterAdd
        | RelayRoute::Prune => Method::Post,
        RelayRoute::ExportRulesUpdate => Method::Put,
        RelayRoute::ExportRulesDelete | RelayRoute::WriterRemove => Method::Delete,
        _ => Method::Get,
    }
}

/// The routes that need the admin token: every route that changes
/// something, and reading the backend's configuration and logs.
pub open spec fn admin_only(route: RelayRoute) -> bool {
    route_method(route) != Method::Get || route == RelayRoute::ConfigRead || route
        == RelayRoute::Logs
}

/// Whether a request to `route` carrying the admin token `provided` (if
/// any) is admitted when the configured token is `token`.
pub open spec fn admitted(route: RelayRoute, provided: Option<Seq<char>>, token: Seq<char>) -> bool {
    !admin_only(route) || provided == Some(token)
}

/// The view of an optional text.
pub open spec fn opt_text(provided: Option<&str>) -> Option<Seq<char>> {
    match provided {
        Some(p) => Some(p@),
        None => None,
    }
}

/// The method of a route.
pub fn method_of(route: RelayRoute) -> (m: Method)
    ensures
        m == route_method(route),
{
    match route {
        RelayRoute::ConfigUpdate | RelayRoute::ExportRulesCreate | RelayRoute::ExportRun
        | RelayRoute::ObserveRun | RelayRoute::Restart | RelayRoute::WriterAdd
        | RelayRoute::Prune => Method::Post,
        RelayRoute::ExportRulesUpdate => Method::Put,
        RelayRoute::ExportRulesDelete | RelayRoute::WriterRemove => Method::Delete,
        _ => Method::Get,
    }
}

/// Whether a route needs the admin token.
pub fn requires_admin(route: RelayRoute) -> (r: bool)
    ensures
        r == admin_only(route),
{
    match route {
        RelayRoute::Status | RelayRoute::Compat | RelayRoute::Summary
        | RelayRoute::ExportRulesList | RelayRoute::ExportPreview => false,
        _ => true,
    }
}

/// Admits a request to a route: routes that need the admin token admit it
/// only with the configured token (status 401 otherwise); the others admit
/// every request.
pub fn authorize(route: RelayRoute, provided: Option<&str>, token: &str) -> (r: Result<(), (u16, String)>)
    ensures
        r is Ok <==> admitted(route, opt_text(provided), token@),
        r matches Err(e) ==> e.0 == STATUS_UNAUTHORIZED && e.1@ == "missing/invalid admin token"@,
{
    if requires_admin(route) {
        ensure_admin(provided, token)
    } else {
        Ok(())
    }
}

/// Every route that changes something is refused, with status 401,
/// without the configured admin token.
pub proof fn mutating_routes_need_the_admin_token(
    route: RelayRoute,
    provided: Option<Seq<char>>,
    token: Seq<char>,
)
    requires
        route_method(route) != Method::Get,
        provided != Some(token),
    ensures
        admin_only(route),
        !admitted(route, provided, token),
{
}

/// `s` with every leading copy of the non-empty prefix `p` removed.
pub open spec fn strip_repeated_prefix(s: Seq<char>, p: Seq<char>) -> Seq<char>
    decreases s.len(),
{
    if 0 < p.len() <= s.len() && s.take(p.len() as int) == p {
        strip_repeated_prefix(s.skip(p.len() as int), p)
    } else {
        s
    }
}

/// A URL's leading scheme is removed: the path of `sqlite://` followed by
/// `p` is the path of `p`.
pub proof fn scheme_prefix_is_removed(p: Seq<char>)
    ensures
        strip_repeated_prefix(sqlite_scheme() + p, sqlite_scheme()) == strip_repeated_prefix(
            p,
            sqlite_scheme(),
        ),
{
    reveal_strlit("sqlite://");
    let u = sqlite_scheme() + p;
    assert(u.take(sqlite_scheme().len() as int) =~= sqlite_scheme());
    assert(u.skip(sqlite_scheme().len() as int) =~= p);
}

/// A URL that does not start with `sqlite://` is its own path, unchanged.
pub proof fn url_without_scheme_is_unchanged(s: Seq<char>)
    requires
        !(sqlite_scheme().len() <= s.len() && s.take(sqlite_scheme().len() as int) == sqlite_scheme()),
    ensures
        strip_repeated_prefix(s, sqlite_scheme()) == s,
{
}

/// The scheme of a SQLite database URL.
pub open spec fn sqlite_scheme() -> Seq<char> {
    "sqlite://"@
}

/// Whether `p` occurs in `s` at position `start`.
fn occurs_at(s: &str, start: usize, p: &str) -> (r: bool)
    requires
        start <= s@.len(),
    ensures
        r == (start + p@.len() <= s@.len() && s@.subrange(start as int, start + p@.len()) == p@),
{
    let n: usize = s.unicode_len();
    let m: usize = p.unicode_len();
    if m > n - start {
        return false;
    }
    let mut k: usize = 0;
    while k < m
        invariant
            n == s@.len(),
            m == p@.len(),
            start + m <= n,
            k <= m,
            forall|j: int| 0 <= j < k ==> #[trigger] s@[start + j] == p@[j],
        decreases m - k,
    {
        if s.get_char(start + k) != p.get_char(k) {
            assert(s@.subrange(start as int, start + m)[k as int] != p@[k as int]);
            return false;
        }
        k = k + 1;
    }
    assert forall|j: int| 0 <= j < m implies s@.subrange(start as int, start + m)[j] == p@[j] by {
        assert(s@[start + j] == p@[j]);
    }
    assert(s@.subrange(start as int, start + m) =~= p@);
    true
}

/// The file path of a database URL: the URL with every leading `sqlite://`
/// removed.
pub fn database_file_path(url: &str) -> (r: String)
    ensures
        r@ == strip_repeated_prefix(url@, sqlite_scheme()),
{
    let scheme = "sqlite://";
    proof {
        reveal_strlit("sqlite://");
    }
    let n: usize = url.unicode_len();
    let m: usize = scheme.unicode_len();
    let mut start: usize = 0;
    assert(url@.skip(0) =~= url@);
    while start <= n && occurs_at(url, start, scheme)
        invariant
            n == url@.len(),
            m == scheme@.len(),
            m > 0,
            start <= n,
            strip_repeated_prefix(url@, scheme@) == strip_repeated_prefix(url@.skip(start as int), scheme@),
        decreases n - start,
    {
        proof {
            let rest = url@.skip(start as int);
            assert(rest.take(m as int) =~= url@.subrange(start as int, start + m));
            assert(rest.skip(m as int) =~= url@.skip(start + m));
        }
        start = start + m;
    }
    proof {
        let rest = url@.skip(start as int);
        if 0 < m <= rest.len() {
            assert(rest.take(m as int) =~= url@.subrange(start as int, start + m));
        }
        assert(url@.subrange(start as int, n as int) =~= rest);
    }
    url.substring_char(start, n).to_owned()
}

/// The values stored for an export rule.
pub struct RuleWrite {
    /// 1 when the rule is enabled, else 0
    pub enabled: i64,
    pub rule_type: String,
    pub rule_value: String,
    pub kinds_json: Option<String>,
    pub backfill_mode: String,
}

/// The values stored for a rule request: a rule is enabled unless the
/// request says otherwise, and only exports future events unless the
/// request names a backfill mode.
pub fn rule_write(req: CreateRuleRequest) -> (w: RuleWrite)
    ensures
        w.enabled == (if req.enabled == Some(false) { 0i64 } else { 1i64 }),
        w.rule_type == req.rule_type,
        w.rule_value == req.rule_value,
        w.kinds_json == req.kinds_json,
        w.backfill_mode@ == match req.backfill_mode {
            Some(m) => m@,
            None => "future_only"@,
        },
{
    let enabled = match req.enabled {
        Some(e) => e,
        None => true,
    };
    let backfill_mode = match req.backfill_mode {
        Some(m) => m,
        None => "future_only".to_owned(),
    };
    RuleWrite {
        enabled: if enabled { 1 } else { 0 },
        rule_type: req.rule_type,
        rule_value: req.rule_value,
        kinds_json: req.kinds_json,
        backfill_mode,
    }
}

/// The compatibility report for a schema check outcome, with the tested
/// range written as its bounds joined by a hyphen.
pub fn compat_status(compatible: bool, version: i64) -> (s: CompatStatus)
    ensures
        s.bridge_compatible == compatible,
        s.schema_version == version,
        s.supported_range@ == signed_decimal(NRR_SCHEMA_MIN as int) + "-"@ + signed_decimal(
            NRR_SCHEMA_MAX as int,
        ),
{
    let mut range = i64_to_decimal(NRR_SCHEMA_MIN);
    range.append("-");
    let max = i64_to_decimal(NRR_SCHEMA_MAX);
    range.append(max.as_str());
    CompatStatus { bridge_compatible: compatible, schema_version: version, supported_range: range }
}

} // verus!
