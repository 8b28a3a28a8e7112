//! Request value types accepted by the HTTP surface, with their
//! validation rules, and the defaults used for query parameters.

use crate::model::MemberRole;
use vstd::prelude::*;
use vstd::string::StrSliceExecFns;
use vstd::string::StringExecFns;

verus! {

/// Body of a registration request.
#[derive(Clone, Debug)]
pub struct RegisterRequestJson {
    pub email: String,
    pub password: String,
    pub full_name: Option<String>,
}

/// Body of a login request.
#[derive(Clone, Debug)]
pub struct LoginRequestJson {
    pub email: String,
    pub password: String,
}

/// Body of a token refresh request.
#[derive(Clone, Debug)]
pub struct RefreshTokenRequest {
    pub refresh_token: String,
}

/// Body of a domain creation request.
#[derive(Clone, Debug)]
pub struct CreateDomainRequest {
    pub display_name: String,
    pub url: String,
}

impl CreateDomainRequest {
    /// Whether the request passes validation: a display name of 1 to 255
    /// characters and a URL of 1 to 2048 characters.
    pub fn is_valid(&self) -> (r: bool)
        ensures
            r == (1 <= self.display_name@.len() <= 255 && 1 <= self.url@.len() <= 2048),
    {
        let name_len = self.display_name.as_str().unicode_len();
        let url_len = self.url.as_str().unicode_len();
        1 <= name_len && name_len <= 255 && 1 <= url_len && url_len <= 2048
    }
}

/// Body of a domain update request.
#[derive(Clone, Copy, Debug)]
pub struct UpdateDomainRequest {
    pub is_active: Option<bool>,
}

/// Query parameters of the uptime-history endpoint.
#[derive(Clone, Copy, Debug)]
pub struct HistoryQuery {
    pub hours: i64,
    pub interval_minutes: i64,
}

/// Query parameters of the uptime-aggregate endpoint.
#[derive(Clone, Debug)]
pub struct AggregateQuery {
    pub period: String,
}

/// Default look-back window, in hours, for uptime history.
pub fn default_hours() -> (r: i64)
    ensures
        r == 24,
{
    24
}

/// Default bucketing interval, in minutes, for uptime history.
pub fn default_interval_minutes() -> (r: i64)
    ensures
        r == 30,
{
    30
}

/// Default period for aggregate queries.
pub fn default_period() -> (r: String)
    ensures
        r@ == "week"@,
{
    String::from_str("week")
}

/// Body of an organization creation request.
#[derive(Clone, Debug)]
pub struct CreateOrganizationRequest {
    pub name: String,
    pub slug: Option<String>,
}

/// Body of an organization update request.
#[derive(Clone, Debug)]
pub struct UpdateOrganizationRequest {
    pub name: Option<String>,
    pub webhook_url: Option<String>,
}

/// Body of a member addition request.
#[derive(Clone, Debug)]
pub struct AddMemberRequest {
    pub email: String,
    pub role: MemberRole,
}

/// Body of a member role change request.
#[derive(Clone, Copy, Debug)]
pub struct UpdateMemberRoleRequest {
    pub role: MemberRole,
}

} // verus!
