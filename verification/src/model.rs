//! Domain model: member roles, monitor kinds, task and alert
//! classifications, and the create/update value types the service accepts.

use crate::text::lower_of;
use crate::text::lowercase;
use crate::text::str_equal;
use vstd::prelude::*;
use vstd::string::StringExecFns;

verus! {

/// Role of a member within an organization.
#[derive(Clone, Copy, Debug, PartialEq, Eq, Structural)]
pub enum MemberRole {
    Owner,
    Admin,
    Member,
    Viewer,
}

/// The lower-case wire name of a role.
pub open spec fn spec_role_name(r: MemberRole) -> Seq<char> {
    match r {
        MemberRole::Owner => "owner"@,
        MemberRole::Admin => "admin"@,
        MemberRole::Member => "member"@,
        MemberRole::Viewer => "viewer"@,
    }
}

impl MemberRole {
    /// Whether this role can perform admin actions.
    pub fn is_admin(&self) -> (r: bool)
        ensures
            r == (*self == MemberRole::Owner || *self == MemberRole::Admin),
    {
        matches!(self, MemberRole::Owner | MemberRole::Admin)
    }

    /// Whether this role can write (not just read).
    pub fn can_write(&self) -> (r: bool)
        ensures
            r == (*self == MemberRole::Owner || *self == MemberRole::Admin || *self
                == MemberRole::Member),
    {
        matches!(self, MemberRole::Owner | MemberRole::Admin | MemberRole::Member)
    }

    /// The role's wire name.
    pub fn role_name(&self) -> (r: &'static str)
        ensures
            r@ == spec_role_name(*self),
    {
        match self {
            MemberRole::Owner => "owner",
            MemberRole::Admin => "admin",
            MemberRole::Member => "member",
            MemberRole::Viewer => "viewer",
        }
    }
}

/// The role whose wire name is exactly `s`, if any.
pub open spec fn spec_role_of_name(s: Seq<char>) -> Option<MemberRole> {
    if s == "owner"@ {
        Some(MemberRole::Owner)
    } else if s == "admin"@ {
        Some(MemberRole::Admin)
    } else if s == "member"@ {
        Some(MemberRole::Member)
    } else if s == "viewer"@ {
        Some(MemberRole::Viewer)
    } else {
        None
    }
}

fn role_of_name(s: &str) -> (r: Option<MemberRole>)
    ensures
        r == spec_role_of_name(s@),
{
    if str_equal(s, "owner") {
        Some(MemberRole::Owner)
    } else if str_equal(s, "admin") {
        Some(MemberRole::Admin)
    } else if str_equal(s, "member") {
        Some(MemberRole::Member)
    } else if str_equal(s, "viewer") {
        Some(MemberRole::Viewer)
    } else {
        None
    }
}

/// Parse a role name, ignoring case; the error carries the input as given.
pub fn parse_role(s: &str) -> (r: Result<MemberRole, String>)
    ensures
        match r {
            Ok(role) => spec_role_of_name(lower_of(s@)) == Some(role),
            Err(e) => spec_role_of_name(lower_of(s@)) is None && e@ == "Invalid role: "@ + s@,
        },
{
    let low = lowercase(s);
    match role_of_name(low.as_str()) {
        Some(role) => Ok(role),
        None => {
            let mut e = String::new();
            e.append("Invalid role: ");
            e.append(s);
            assert(e@ =~= "Invalid role: "@ + s@);
            Err(e)
        },
    }
}

/// Kind of check a monitor performs.
#[derive(Clone, Copy, Debug, PartialEq, Eq, Structural)]
pub enum MonitorType {
    DomainDns,
    SslCert,
    Uptime,
    SecurityHeaders,
}

/// The wire name of a monitor kind.
pub open spec fn spec_monitor_type_name(t: MonitorType) -> Seq<char> {
    match t {
        MonitorType::DomainDns => "domain_dns"@,
        MonitorType::SslCert => "ssl_cert"@,
        MonitorType::Uptime => "uptime"@,
        MonitorType::SecurityHeaders => "security_headers"@,
    }
}

impl MonitorType {
    /// The kind's wire name.
    pub fn kind_name(&self) -> (r: &'static str)
        ensures
            r@ == spec_monitor_type_name(*self),
    {
        match self {
            MonitorType::DomainDns => "domain_dns",
            MonitorType::SslCert => "ssl_cert",
            MonitorType::Uptime => "uptime",
            MonitorType::SecurityHeaders => "security_headers",
        }
    }
}

/// The monitor kind whose wire name is exactly `s`, if any.
pub open spec fn spec_monitor_type_of_name(s: Seq<char>) -> Option<MonitorType> {
    if s == "domain_dns"@ {
        Some(MonitorType::DomainDns)
    } else if s == "ssl_cert"@ {
        Some(MonitorType::SslCert)
    } else if s == "uptime"@ {
        Some(MonitorType::Uptime)
    } else if s == "security_headers"@ {
        Some(MonitorType::SecurityHeaders)
    } else {
        None
    }
}

/// Parse a monitor kind name (case-sensitive); the error carries the input.
pub fn parse_monitor_type(s: &str) -> (r: Result<MonitorType, String>)
    ensures
        match r {
            Ok(t) => spec_monitor_type_of_name(s@) == Some(t),
            Err(e) => spec_monitor_type_of_name(s@) is None && e@ == "Invalid monitor type: "@
                + s@,
        },
{
    if str_equal(s, "domain_dns") {
        Ok(MonitorType::DomainDns)
    } else if str_equal(s, "ssl_cert") {
        Ok(MonitorType::SslCert)
    } else if str_equal(s, "uptime") {
        Ok(MonitorType::Uptime)
    } else if str_equal(s, "security_headers") {
        Ok(MonitorType::SecurityHeaders)
    } else {
        let mut e = String::new();
        e.append("Invalid monitor type: ");
        e.append(s);
        assert(e@ =~= "Invalid monitor type: "@ + s@);
        Err(e)
    }
}

/// Lifecycle state of a queued task.
#[derive(Clone, Copy, Debug, PartialEq, Eq, Structural)]
pub enum TaskStatus {
    Pending,
    Running,
    Completed,
    Failed,
    Cancelled,
}

/// The wire name of a task status.
pub open spec fn spec_task_status_name(t: TaskStatus) -> Seq<char> {
    match t {
        TaskStatus::Pending => "pending"@,
        TaskStatus::Running => "running"@,
        TaskStatus::Completed => "completed"@,
        TaskStatus::Failed => "failed"@,
        TaskStatus::Cancelled => "cancelled"@,
    }
}

impl TaskStatus {
    /// The status's wire name.
    pub fn status_name(&self) -> (r: &'static str)
        ensures
            r@ == spec_task_status_name(*self),
    {
        match self {
            TaskStatus::Pending => "pending",
            TaskStatus::Running => "running",
            TaskStatus::Completed => "completed",
            TaskStatus::Failed => "failed",
            TaskStatus::Cancelled => "cancelled",
        }
    }
}

/// Calendar period an aggregate row summarizes.
#[derive(Clone, Copy, Debug, PartialEq, Eq, Structural)]
pub enum AggregatePeriod {
    Hour,
    Day,
    Week,
    Month,
}

/// The wire name of an aggregate period.
pub open spec fn spec_period_name(p: AggregatePeriod) -> Seq<char> {
    match p {
        AggregatePeriod::Hour => "hour"@,
        AggregatePeriod::Day => "day"@,
        AggregatePeriod::Week => "week"@,
        AggregatePeriod::Month => "month"@,
    }
}

impl AggregatePeriod {
    /// The period's wire name.
    pub fn period_name(&self) -> (r: &'static str)
        ensures
            r@ == spec_period_name(*self),
    {
        match self {
            AggregatePeriod::Hour => "hour",
            AggregatePeriod::Day => "day",
            AggregatePeriod::Week => "week",
            AggregatePeriod::Month => "month",
        }
    }
}

/// Severity of an alert.
#[derive(Clone, Copy, Debug, PartialEq, Eq, Structural)]
pub enum AlertSeverity {
    Info,
    Warning,
    Critical,
}

/// The wire name of a severity.
pub open spec fn spec_severity_name(s: AlertSeverity) -> Seq<char> {
    match s {
        AlertSeverity::Info => "info"@,
        AlertSeverity::Warning => "warning"@,
        AlertSeverity::Critical => "critical"@,
    }
}

impl AlertSeverity {
    /// The severity's wire name.
    pub fn severity_name(&self) -> (r: &'static str)
        ensures
            r@ == spec_severity_name(*self),
    {
        match self {
            AlertSeverity::Info => "info",
            AlertSeverity::Warning => "warning",
            AlertSeverity::Critical => "critical",
        }
    }
}

/// Data for creating a user account.
#[derive(Clone, Debug)]
pub struct CreateUser {
    pub email: String,
    pub password: String,
    pub full_name: Option<String>,
}

/// Data for creating an organization.
#[derive(Clone, Debug)]
pub struct CreateOrganization {
    pub name: String,
    pub slug: Option<String>,
}

/// Data for updating an organization.
#[derive(Clone, Debug)]
pub struct UpdateOrganization {
    pub name: Option<String>,
    pub webhook_url: Option<String>,
}

/// Data for registering a domain.
#[derive(Clone, Debug)]
pub struct CreateDomain {
    pub name: String,
}

/// Data for updating a domain.
#[derive(Clone, Copy, Debug)]
pub struct UpdateDomain {
    pub is_active: Option<bool>,
}

/// Credentials presented at login.
#[derive(Clone, Debug)]
pub struct LoginRequest {
    pub email: String,
    pub password: String,
}

/// Data for adding a member to an organization.
#[derive(Clone, Debug)]
pub struct AddMember {
    pub email: String,
    pub role: MemberRole,
}

/// A refresh-token exchange request.
#[derive(Clone, Debug)]
pub struct RefreshTokenRequest {
    pub refresh_token: String,
}

} // verus!
