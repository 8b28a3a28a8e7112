//! SSL certificate inspection: target normalization, parsing of the leaf
//! certificate handed back by the TLS layer, and classification of its
//! validity window.

use crate::error::AppError;
use crate::text::dec_val;
use crate::text::is_u16_digits;
use crate::text::parse_u16;
use crate::text::strip_prefix_all;
use crate::text::strip_prefix_repeated;
use crate::text::trim_end_slashes;
use crate::text::trim_trailing_slashes;
use crate::text::trim_whitespace;
use crate::text::trim_ws;
use crate::time::date_representable;
use vstd::arithmetic::div_mod::lemma_fundamental_div_mod;
use vstd::arithmetic::div_mod::lemma_fundamental_div_mod_converse_div;
use vstd::prelude::*;
use vstd::string::StrSliceExecFns;
use x509_parser::prelude::FromDer;

verus! {

/// Everything the service reads from a leaf certificate, as plain values.
/// Timestamps are Unix epoch seconds.
#[derive(Clone, Debug)]
pub struct CertFields {
    pub issuer: String,
    pub subject: String,
    pub serial_number: String,
    pub signature_algorithm: String,
    pub valid_from: i64,
    pub valid_until: i64,
}

/// Whether the DER bytes parse as an X.509 certificate.
pub uninterp spec fn cert_parses(der: Seq<u8>) -> bool;

/// The issuer distinguished name, rendered as text.
pub uninterp spec fn cert_issuer_of(der: Seq<u8>) -> Seq<char>;

/// The subject distinguished name, rendered as text.
pub uninterp spec fn cert_subject_of(der: Seq<u8>) -> Seq<char>;

/// The serial number, rendered in lower-case hex.
pub uninterp spec fn cert_serial_of(der: Seq<u8>) -> Seq<char>;

/// The signature algorithm OID, rendered in dotted form.
pub uninterp spec fn cert_sig_alg_of(der: Seq<u8>) -> Seq<char>;

/// The notBefore instant, in Unix epoch seconds.
pub uninterp spec fn cert_not_before(der: Seq<u8>) -> int;

/// The notAfter instant, in Unix epoch seconds.
pub uninterp spec fn cert_not_after(der: Seq<u8>) -> int;

/// Relies on x509_parser: `X509Certificate::from_der` for parsing, the
/// `Display` of `X509Name` for issuer and subject, `BigUint::to_str_radix`
/// for the serial, `Oid::to_id_string` for the algorithm, and
/// `ASN1Time::timestamp` for the validity instants.
#[verifier::external_body]
fn parse_certificate_der(der: &Vec<u8>) -> (r: Option<CertFields>)
    ensures
        r is Some <==> cert_parses(der@),
        r matches Some(f) ==> f.issuer@ == cert_issuer_of(der@) && f.subject@ == cert_subject_of(
            der@,
        ) && f.serial_number@ == cert_serial_of(der@) && f.signature_algorithm@ == cert_sig_alg_of(
            der@,
        ) && f.valid_from == cert_not_before(der@) && f.valid_until == cert_not_after(der@),
{
    match x509_parser::certificate::X509Certificate::from_der(der.as_slice()) {
        Ok((_, cert)) => Some(CertFields {
            issuer: cert.issuer().to_string(),
            subject: cert.subject().to_string(),
            serial_number: cert.tbs_certificate.serial.to_str_radix(16),
            signature_algorithm: cert.signature_algorithm.algorithm.to_id_string(),
            valid_from: cert.validity().not_before.timestamp(),
            valid_until: cert.validity().not_after.timestamp(),
        }),
        Err(_) => None,
    }
}

/// One SSL observation. Timestamps are Unix epoch seconds;
/// `days_until_expiry` may be negative for expired certificates.
#[derive(Clone, Debug)]
pub struct SslCertInfo {
    pub domain: String,
    pub is_valid: bool,
    pub issuer: String,
    pub subject: String,
    pub valid_from: i64,
    pub valid_until: i64,
    pub is_expired: bool,
    pub days_until_expiry: i64,
    pub is_self_signed: bool,
    pub signature_algorithm: String,
    pub serial_number: String,
}

/// Whole days from `now` until `valid_until`, rounded toward minus
/// infinity; negative once the instant has passed.
pub open spec fn spec_days_until(valid_until: int, now: int) -> int {
    (valid_until - now) / 86400
}

/// Well-formedness of an SSL observation: self-signedness is textual
/// equality of issuer and subject, and validity holds exactly when the
/// certificate is neither expired nor self-signed.
pub open spec fn ssl_info_wf(c: SslCertInfo) -> bool {
    &&& c.is_self_signed == (c.issuer@ == c.subject@)
    &&& c.is_valid == (!c.is_expired && !c.is_self_signed)
}

/// Every well-formed SSL observation is valid exactly when it is neither
/// expired nor self-signed.
pub proof fn lemma_ssl_valid_iff(c: SslCertInfo)
    requires
        ssl_info_wf(c),
    ensures
        c.is_valid <==> (!c.is_expired && !c.is_self_signed),
{
}

fn days_between(valid_until: i64, now: i64) -> (r: i64)
    ensures
        r as int == spec_days_until(valid_until as int, now as int),
{
    let diff: i128 = valid_until as i128 - now as i128;
    if diff >= 0 {
        let u = diff as u128;
        let q = u / 86400;
        assert(q < 36893488147419103232int / 86400) by {
            lemma_fundamental_div_mod(u as int, 86400);
        }
        q as i64
    } else {
        let m = (-diff) as u128;
        let q0 = m / 86400;
        let r0 = m % 86400;
        proof {
            lemma_fundamental_div_mod(m as int, 86400);
            assert(m as int == 86400 * (q0 as int) + (r0 as int));
        }
        if r0 == 0 {
            proof {
                lemma_fundamental_div_mod_converse_div(diff as int, 86400, -(q0 as int), 0);
            }
            -(q0 as i64)
        } else {
            proof {
                lemma_fundamental_div_mod_converse_div(
                    diff as int,
                    86400,
                    -(q0 as int) - 1,
                    86400 - (r0 as int),
                );
            }
            -(q0 as i64) - 1
        }
    }
}

/// Classify parsed certificate fields into an SSL observation at time
/// `now`.
pub fn cert_info_from_parts(domain: String, fields: CertFields, now: i64) -> (r: SslCertInfo)
    ensures
        r.domain == domain,
        r.issuer == fields.issuer,
        r.subject == fields.subject,
        r.serial_number == fields.serial_number,
        r.signature_algorithm == fields.signature_algorithm,
        r.valid_from == fields.valid_from,
        r.valid_until == fields.valid_until,
        r.is_expired == (now > fields.valid_until),
        r.days_until_expiry as int == spec_days_until(fields.valid_until as int, now as int),
        r.is_self_signed == (fields.issuer@ == fields.subject@),
        r.is_valid == (!r.is_expired && !r.is_self_signed),
        ssl_info_wf(r),
{
    let is_expired = now > fields.valid_until;
    let days_until_expiry = days_between(fields.valid_until, now);
    let is_self_signed = fields.issuer == fields.subject;
    let is_valid = !is_expired && !is_self_signed;
    SslCertInfo {
        domain,
        is_valid,
        issuer: fields.issuer,
        subject: fields.subject,
        valid_from: fields.valid_from,
        valid_until: fields.valid_until,
        is_expired,
        days_until_expiry,
        is_self_signed,
        signature_algorithm: fields.signature_algorithm,
        serial_number: fields.serial_number,
    }
}

/// Inspect the leaf certificate handed back by the TLS layer; the
/// classification is made at time `now` and recorded against the cleaned
/// target name. A certificate whose validity instants fall outside the
/// representable calendar range (years 0 through 9999) is rejected.
pub fn cert_info_from_der(domain: String, der: &Vec<u8>, now: i64) -> (r: Result<
    SslCertInfo,
    AppError,
>)
    ensures
        r is Ok <==> (cert_parses(der@) && date_representable(cert_not_before(der@))
            && date_representable(cert_not_after(der@))),
        r matches Ok(c) ==> c.domain == domain && c.issuer@ == cert_issuer_of(der@) && c.subject@
            == cert_subject_of(der@) && c.serial_number@ == cert_serial_of(der@)
            && c.signature_algorithm@ == cert_sig_alg_of(der@) && c.valid_from == cert_not_before(
            der@,
        ) && c.valid_until == cert_not_after(der@) && c.is_expired == (now > cert_not_after(der@))
            && c.days_until_expiry as int == spec_days_until(cert_not_after(der@), now as int)
            && c.is_self_signed == (cert_issuer_of(der@) == cert_subject_of(der@)) && c.is_valid
            == (!c.is_expired && !c.is_self_signed) && ssl_info_wf(c) && date_representable(
            c.valid_from as int,
        ) && date_representable(c.valid_until as int),
        !cert_parses(der@) ==> (r matches Err(e) && e matches AppError::External(m) && m@
            == "Failed to parse certificate"@),
        (cert_parses(der@) && !(date_representable(cert_not_before(der@)) && date_representable(
            cert_not_after(der@),
        ))) ==> (r matches Err(e) && e matches AppError::External(m) && m@
            == "Certificate validity out of range"@),
{
    match parse_certificate_der(der) {
        Some(fields) => {
            let from_ok = -62167219200 <= fields.valid_from && fields.valid_from <= 253402300799;
            let until_ok = -62167219200 <= fields.valid_until && fields.valid_until
                <= 253402300799;
            if from_ok && until_ok {
                Ok(cert_info_from_parts(domain, fields, now))
            } else {
                Err(AppError::external("Certificate validity out of range"))
            }
        },
        None => Err(AppError::external("Failed to parse certificate")),
    }
}

/// The cleaned SSL target: whitespace and scheme prefixes removed from the
/// front, slashes from the back.
pub open spec fn spec_ssl_clean(d: Seq<char>) -> Seq<char> {
    trim_end_slashes(strip_prefix_all(strip_prefix_all(trim_ws(d), "https://"@), "http://"@))
}

/// Index of the first `':'` in `s` at or after `i`, if any.
pub open spec fn spec_find_colon(s: Seq<char>, i: int) -> Option<int>
    decreases s.len() - i,
{
    if i < 0 || i >= s.len() {
        None
    } else if s[i] == ':' {
        Some(i)
    } else {
        spec_find_colon(s, i + 1)
    }
}

/// The host part of a cleaned target: everything before the first colon.
pub open spec fn spec_host_of(c: Seq<char>) -> Seq<char> {
    match spec_find_colon(c, 0) {
        None => c,
        Some(i) => c.subrange(0, i),
    }
}

/// The port of a cleaned target: the decimal value after the first colon
/// when it parses as a u16, else 443.
pub open spec fn spec_port_of(c: Seq<char>) -> int {
    match spec_find_colon(c, 0) {
        None => 443,
        Some(i) => {
            let p = c.subrange(i + 1, c.len() as int);
            if is_u16_digits(p) {
                dec_val(p)
            } else {
                443
            }
        },
    }
}

proof fn lemma_find_colon_shift(s: Seq<char>, i: int, j: int)
    requires
        0 <= i <= j <= s.len(),
        forall|k: int| i <= k < j ==> s[k] != ':',
    ensures
        spec_find_colon(s, i) == spec_find_colon(s, j),
    decreases j - i,
{
    if i < j {
        lemma_find_colon_shift(s, i + 1, j);
    }
}

/// Split a configured SSL target into its cleaned form, the host to
/// connect to, and the port (443 unless a valid `:port` suffix is given).
pub fn ssl_target(domain: &str) -> (r: (String, String, u16))
    ensures
        r.0@ == spec_ssl_clean(domain@),
        r.1@ == spec_host_of(spec_ssl_clean(domain@)),
        r.2 as int == spec_port_of(spec_ssl_clean(domain@)),
{
    proof {
        reveal_strlit("https://");
        reveal_strlit("http://");
    }
    let trimmed = trim_whitespace(domain);
    let no_https = strip_prefix_repeated(trimmed.as_str(), "https://");
    let no_http = strip_prefix_repeated(no_https.as_str(), "http://");
    let cleaned = trim_trailing_slashes(no_http.as_str());
    let c = cleaned.as_str();
    let len = c.unicode_len();
    let mut i: usize = 0;
    let mut colon: Option<usize> = None;
    while i < len
        invariant_except_break
            colon is None,
        invariant
            i <= len,
            len == c@.len(),
            forall|k: int| 0 <= k < i ==> c@[k] != ':',
        ensures
            match colon {
                Some(p) => p < len && c@[p as int] == ':' && (forall|k: int|
                    0 <= k < p ==> c@[k] != ':'),
                None => i == len,
            },
        decreases len - i,
    {
        if c.get_char(i) == ':' {
            colon = Some(i);
            break ;
        }
        i += 1;
    }
    match colon {
        None => {
            proof {
                lemma_find_colon_shift(c@, 0, len as int);
            }
            assert(spec_find_colon(c@, 0) is None);
            let host = cleaned.clone();
            (cleaned, host, 443)
        },
        Some(pos) => {
            proof {
                lemma_find_colon_shift(c@, 0, pos as int);
            }
            assert(spec_find_colon(c@, 0) == Some(pos as int));
            let host = c.substring_char(0, pos).to_owned();
            let port_str = c.substring_char(pos + 1, len);
            let port = match parse_u16(port_str) {
                Some(p) => p,
                None => 443,
            };
            (cleaned, host, port)
        },
    }
}

/// Whether the certificate expires within `days_threshold` days but has
/// not yet expired.
pub fn is_cert_expiring_soon(days_threshold: i64, cert_info: &SslCertInfo) -> (r: bool)
    ensures
        r == (cert_info.days_until_expiry <= days_threshold && cert_info.days_until_expiry > 0),
{
    cert_info.days_until_expiry <= days_threshold && cert_info.days_until_expiry > 0
}

} // verus!
