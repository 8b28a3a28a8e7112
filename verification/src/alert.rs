//! Alerting rules: which alerts a classified observation raises, with
//! their exact titles and descriptions. Alerts are raised afresh on every
//! qualifying cycle; nothing here suppresses repeats.

use crate::error::AppError;
use crate::model::AlertSeverity;
use crate::ssl::cert_info_from_der;
use crate::ssl::cert_not_after;
use crate::ssl::cert_not_before;
use crate::ssl::cert_parses;
use crate::ssl::spec_days_until;
use crate::ssl::ssl_info_wf;
use crate::ssl::SslCertInfo;
use crate::text::dec_digits;
use crate::text::dec_int;
use crate::text::i64_to_string;
use crate::text::u64_to_string;
use crate::time::date_representable;
use crate::time::format_date;
use crate::time::spec_format_date;
use crate::uptime::UptimeCheckResult;
use vstd::prelude::*;
use vstd::string::StringExecFns;

verus! {

/// A request to record one alert against a target.
#[derive(Clone, Debug)]
pub struct AlertRequest {
    pub domain_id: u128,
    pub alert_type: String,
    pub severity: AlertSeverity,
    pub title: String,
    pub description: String,
}

/// Description of an expiring-soon alert.
pub open spec fn spec_expiring_desc(domain: Seq<char>, days: int, valid_until: int) -> Seq<char> {
    "SSL certificate for "@ + domain + " expires in "@ + dec_int(days) + " days (on "@
        + spec_format_date(valid_until) + ")"@
}

/// Description of an expired alert.
pub open spec fn spec_expired_desc(domain: Seq<char>, valid_until: int) -> Seq<char> {
    "SSL certificate for "@ + domain + " expired on "@ + spec_format_date(valid_until)
}

/// An alert raised by the monitoring pipeline: type `monitoring`, severity
/// warning, against the given target.
pub open spec fn monitoring_alert_wf(a: AlertRequest, domain_id: u128) -> bool {
    &&& a.domain_id == domain_id
    &&& a.alert_type@ == "monitoring"@
    &&& a.severity == AlertSeverity::Warning
}

fn monitoring_alert(domain_id: u128, title: &str, description: String) -> (r: AlertRequest)
    ensures
        monitoring_alert_wf(r, domain_id),
        r.title@ == title@,
        r.description == description,
{
    AlertRequest {
        domain_id,
        alert_type: String::from_str("monitoring"),
        severity: AlertSeverity::Warning,
        title: title.to_owned(),
        description,
    }
}

/// Alerts raised by one SSL observation: an expiring-soon alert when
/// strictly fewer than 30 days (but more than none) remain, and an expired
/// alert when the certificate has expired. Each qualifying cycle raises
/// fresh rows.
pub fn ssl_alerts(domain_id: u128, domain_name: &str, cert: &SslCertInfo) -> (r: Vec<AlertRequest>)
    requires
        date_representable(cert.valid_until as int),
    ensures
        r@.len() == (if 0 < cert.days_until_expiry < 30 {
            1int
        } else {
            0int
        }) + (if cert.is_expired {
            1int
        } else {
            0int
        }),
        (0 < cert.days_until_expiry < 30) ==> (monitoring_alert_wf(r@[0], domain_id) && r@[0].title@
            == "SSL Certificate Expiring Soon"@ && r@[0].description@ == spec_expiring_desc(
            domain_name@,
            cert.days_until_expiry as int,
            cert.valid_until as int,
        )),
        cert.is_expired ==> {
            let i = if 0 < cert.days_until_expiry < 30 {
                1int
            } else {
                0int
            };
            &&& monitoring_alert_wf(r@[i], domain_id)
            &&& r@[i].title@ == "SSL Certificate Expired"@
            &&& r@[i].description@ == spec_expired_desc(domain_name@, cert.valid_until as int)
        },
{
    let mut alerts: Vec<AlertRequest> = Vec::new();
    if cert.days_until_expiry < 30 && cert.days_until_expiry > 0 {
        let mut desc = String::new();
        desc.append("SSL certificate for ");
        desc.append(domain_name);
        desc.append(" expires in ");
        let days = i64_to_string(cert.days_until_expiry);
        desc.append(days.as_str());
        desc.append(" days (on ");
        let date = format_date(cert.valid_until);
        desc.append(date.as_str());
        desc.append(")");
        assert(desc@ =~= spec_expiring_desc(
            domain_name@,
            cert.days_until_expiry as int,
            cert.valid_until as int,
        ));
        alerts.push(monitoring_alert(domain_id, "SSL Certificate Expiring Soon", desc));
    }
    if cert.is_expired {
        let mut desc = String::new();
        desc.append("SSL certificate for ");
        desc.append(domain_name);
        desc.append(" expired on ");
        let date = format_date(cert.valid_until);
        desc.append(date.as_str());
        assert(desc@ =~= spec_expired_desc(domain_name@, cert.valid_until as int));
        alerts.push(monitoring_alert(domain_id, "SSL Certificate Expired", desc));
    }
    alerts
}

/// One SSL check, from the leaf certificate the TLS layer handed back to
/// the observation to store and the alerts to raise: parse the
/// certificate, classify its validity window at `now`, and apply the
/// alerting rules. A certificate that does not parse, or whose validity
/// instants fall outside the representable calendar range, is surfaced as
/// an external-service error.
pub fn evaluate_ssl_check(
    domain_id: u128,
    domain_name: String,
    der: &Vec<u8>,
    now: i64,
) -> (r: Result<(SslCertInfo, Vec<AlertRequest>), AppError>)
    ensures
        r is Ok <==> (cert_parses(der@) && date_representable(cert_not_before(der@))
            && date_representable(cert_not_after(der@))),
        r matches Ok(out) ==> {
            let c = out.0;
            &&& ssl_info_wf(c)
            &&& c.domain == domain_name
            &&& c.is_expired == (now > cert_not_after(der@))
            &&& c.days_until_expiry as int == spec_days_until(cert_not_after(der@), now as int)
            &&& out.1@.len() == (if 0 < c.days_until_expiry < 30 {
                1int
            } else {
                0int
            }) + (if c.is_expired {
                1int
            } else {
                0int
            })
            &&& (0 < c.days_until_expiry < 30) ==> (monitoring_alert_wf(out.1@[0], domain_id)
                && out.1@[0].title@ == "SSL Certificate Expiring Soon"@ && out.1@[0].description@
                == spec_expiring_desc(c.domain@, c.days_until_expiry as int, c.valid_until as int))
            &&& c.is_expired ==> {
                let i = if 0 < c.days_until_expiry < 30 {
                    1int
                } else {
                    0int
                };
                &&& monitoring_alert_wf(out.1@[i], domain_id)
                &&& out.1@[i].title@ == "SSL Certificate Expired"@
                &&& out.1@[i].description@ == spec_expired_desc(c.domain@, c.valid_until as int)
            }
        },
        r matches Err(e) ==> e matches AppError::External(m) && (m@
            == "Failed to parse certificate"@ || m@ == "Certificate validity out of range"@),
{
    let cert = cert_info_from_der(domain_name, der, now)?;
    let alerts = ssl_alerts(domain_id, cert.domain.as_str(), &cert);
    Ok((cert, alerts))
}

/// Description of a down alert: the status code or `Unknown`, and the
/// error text or `Unknown error`.
pub open spec fn spec_down_desc(domain: Seq<char>, result: UptimeCheckResult) -> Seq<char> {
    "Website "@ + domain + " is down. Status: "@ + (match result.status_code {
        Some(c) => dec_digits(c as nat),
        None => "Unknown"@,
    }) + ". Error: "@ + (match result.error_message {
        Some(m) => m@,
        None => "Unknown error"@,
    })
}

/// Description of a slow-response alert.
pub open spec fn spec_slow_desc(domain: Seq<char>, response_time_ms: u64) -> Seq<char> {
    "Website "@ + domain + " is slow. Response time: "@ + dec_digits(response_time_ms as nat)
        + "ms"@
}

/// Alerts raised by one uptime observation: a down alert when the site is
/// not up, and a slow-response alert when the response took strictly
/// longer than the configured threshold. Both may fire in one cycle.
pub fn uptime_alerts(
    domain_id: u128,
    domain_name: &str,
    result: &UptimeCheckResult,
    slow_threshold_ms: u64,
) -> (r: Vec<AlertRequest>)
    ensures
        r@.len() == (if !result.is_up {
            1int
        } else {
            0int
        }) + (if result.response_time_ms > slow_threshold_ms {
            1int
        } else {
            0int
        }),
        !result.is_up ==> (monitoring_alert_wf(r@[0], domain_id) && r@[0].title@
            == "Website Down"@ && r@[0].description@ == spec_down_desc(domain_name@, *result)),
        (result.response_time_ms > slow_threshold_ms) ==> {
            let i = if !result.is_up {
                1int
            } else {
                0int
            };
            &&& monitoring_alert_wf(r@[i], domain_id)
            &&& r@[i].title@ == "Slow Response Time"@
            &&& r@[i].description@ == spec_slow_desc(domain_name@, result.response_time_ms)
        },
{
    let mut alerts: Vec<AlertRequest> = Vec::new();
    if !result.is_up {
        let mut desc = String::new();
        desc.append("Website ");
        desc.append(domain_name);
        desc.append(" is down. Status: ");
        match &result.status_code {
            Some(c) => {
                let code = u64_to_string(*c as u64);
                desc.append(code.as_str());
            },
            None => {
                desc.append("Unknown");
            },
        }
        desc.append(". Error: ");
        match &result.error_message {
            Some(m) => {
                desc.append(m.as_str());
            },
            None => {
                desc.append("Unknown error");
            },
        }
        assert(desc@ =~= spec_down_desc(domain_name@, *result));
        alerts.push(monitoring_alert(domain_id, "Website Down", desc));
    }
    if result.response_time_ms > slow_threshold_ms {
        let mut desc = String::new();
        desc.append("Website ");
        desc.append(domain_name);
        desc.append(" is slow. Response time: ");
        let ms = u64_to_string(result.response_time_ms);
        desc.append(ms.as_str());
        desc.append("ms");
        assert(desc@ =~= spec_slow_desc(domain_name@, result.response_time_ms));
        alerts.push(monitoring_alert(domain_id, "Slow Response Time", desc));
    }
    alerts
}

} // verus!
