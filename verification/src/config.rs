//! Service configuration. Durations are held as whole seconds so that the
//! scheduling contracts can speak about them directly.

use crate::text::dec_digits;
use crate::text::u64_to_string;
use vstd::prelude::*;
use vstd::string::StringExecFns;

verus! {

/// Database connection settings.
#[derive(Clone, Debug)]
pub struct DatabaseConfig {
    pub url: String,
    pub max_connections: u32,
    pub min_connections: u32,
}

/// HTTP server bind settings.
#[derive(Clone, Debug)]
pub struct ServerConfig {
    pub host: String,
    pub port: u16,
    pub frontend_dist_path: String,
}

/// Authentication settings; token durations are in seconds.
#[derive(Clone, Debug)]
pub struct AuthConfig {
    pub jwt_secret: String,
    pub access_token_duration: u64,
    pub refresh_token_duration: u64,
    pub bcrypt_rounds: u32,
}

/// Task scheduler settings; intervals are in seconds.
#[derive(Clone, Debug)]
pub struct SchedulerConfig {
    pub poll_interval: u64,
    pub max_tasks_per_poll: usize,
    pub graceful_shutdown_timeout: u64,
}

/// Worker pool settings; the timeout is in seconds.
#[derive(Clone, Debug)]
pub struct WorkerConfig {
    pub pool_size: usize,
    pub task_timeout: u64,
    pub max_retries: u32,
}

/// Monitoring settings; the poll interval is in seconds.
#[derive(Clone, Debug)]
pub struct MonitoringConfig {
    pub poll_interval: u64,
    pub max_concurrent_checks: u32,
    pub slow_threshold_ms: u64,
    pub uptime_frequency_presets: Vec<u64>,
    pub dns_frequency_presets: Vec<u64>,
    pub ssl_frequency_presets: Vec<u64>,
    pub security_frequency_presets: Vec<u64>,
}

/// Outbound HTTP client settings; the timeout is in seconds.
#[derive(Clone, Debug)]
pub struct HttpConfig {
    pub timeout: u64,
    pub max_redirects: u32,
    pub user_agent: String,
}

/// Logging and metrics settings.
#[derive(Clone, Debug)]
pub struct TelemetryConfig {
    pub rust_log: String,
    pub enable_tracing: bool,
    pub enable_metrics: bool,
}

/// Webhook delivery settings; the timeout is in seconds.
#[derive(Clone, Debug)]
pub struct WebhookConfig {
    pub timeout: u64,
    pub retry_attempts: u32,
}

/// Full application configuration.
#[derive(Clone, Debug)]
pub struct Config {
    pub database: DatabaseConfig,
    pub server: ServerConfig,
    pub auth: AuthConfig,
    pub scheduler: SchedulerConfig,
    pub workers: WorkerConfig,
    pub monitoring: MonitoringConfig,
    pub http: HttpConfig,
    pub telemetry: TelemetryConfig,
    pub webhook: WebhookConfig,
}

impl Config {
    /// The built-in defaults, before any environment overrides are applied.
    pub fn builtin_defaults() -> (r: Config)
        ensures
            r.database.url@ == "postgresql://localhost:5432/webguard"@,
            r.database.max_connections == 20,
            r.database.min_connections == 5,
            r.server.host@ == "0.0.0.0"@,
            r.server.port == 9001,
            r.server.frontend_dist_path@ == "../frontend/dist"@,
            r.auth.jwt_secret@ == "change-this-secret-in-production"@,
            r.auth.access_token_duration == 900,
            r.auth.refresh_token_duration == 604800,
            r.auth.bcrypt_rounds == 12,
            r.scheduler.poll_interval == 60,
            r.scheduler.max_tasks_per_poll == 100,
            r.scheduler.graceful_shutdown_timeout == 30,
            r.workers.pool_size == 10,
            r.workers.task_timeout == 300,
            r.workers.max_retries == 3,
            r.monitoring.poll_interval == 60,
            r.monitoring.max_concurrent_checks == 50,
            r.monitoring.slow_threshold_ms == 3000,
            r.monitoring.uptime_frequency_presets@ == seq![60u64, 300u64, 600u64, 1800u64],
            r.monitoring.dns_frequency_presets@ == seq![60u64, 360u64, 720u64, 1440u64],
            r.monitoring.ssl_frequency_presets@ == seq![30u64, 60u64, 120u64, 360u64],
            r.monitoring.security_frequency_presets@ == seq![30u64, 60u64, 120u64, 360u64],
            r.http.timeout == 10,
            r.http.max_redirects == 3,
            r.http.user_agent@ == "WebGuard/1.0 (+https://webguard.io)"@,
            r.telemetry.rust_log@ == "info,web_guard=debug"@,
            r.telemetry.enable_tracing == true,
            r.telemetry.enable_metrics == true,
            r.webhook.timeout == 5,
            r.webhook.retry_attempts == 3,
    {
        Config {
            database: DatabaseConfig {
                url: String::from_str("postgresql://localhost:5432/webguard"),
                max_connections: 20,
                min_connections: 5,
            },
            server: ServerConfig {
                host: String::from_str("0.0.0.0"),
                port: 9001,
                frontend_dist_path: String::from_str("../frontend/dist"),
            },
            auth: AuthConfig {
                jwt_secret: String::from_str("change-this-secret-in-production"),
                access_token_duration: 900,
                refresh_token_duration: 604800,
                bcrypt_rounds: 12,
            },
            scheduler: SchedulerConfig {
                poll_interval: 60,
                max_tasks_per_poll: 100,
                graceful_shutdown_timeout: 30,
            },
            workers: WorkerConfig { pool_size: 10, task_timeout: 300, max_retries: 3 },
            monitoring: MonitoringConfig {
                poll_interval: 60,
                max_concurrent_checks: 50,
                slow_threshold_ms: 3000,
                uptime_frequency_presets: vec![60, 300, 600, 1800],
                dns_frequency_presets: vec![60, 360, 720, 1440],
                ssl_frequency_presets: vec![30, 60, 120, 360],
                security_frequency_presets: vec![30, 60, 120, 360],
            },
            http: HttpConfig {
                timeout: 10,
                max_redirects: 3,
                user_agent: String::from_str("WebGuard/1.0 (+https://webguard.io)"),
            },
            telemetry: TelemetryConfig {
                rust_log: String::from_str("info,web_guard=debug"),
                enable_tracing: true,
                enable_metrics: true,
            },
            webhook: WebhookConfig { timeout: 5, retry_attempts: 3 },
        }
    }

    /// The configured database URL.
    pub fn database_url(&self) -> (r: &str)
        ensures
            r@ == self.database.url@,
    {
        self.database.url.as_str()
    }

    /// The `host:port` address the server binds to.
    pub fn server_address(&self) -> (r: String)
        ensures
            r@ == self.server.host@ + seq![':'] + dec_digits(self.server.port as nat),
    {
        let mut s = self.server.host.clone();
        proof {
            reveal_strlit(":");
        }
        s.append(":");
        let port = u64_to_string(self.server.port as u64);
        s.append(port.as_str());
        assert(s@ =~= self.server.host@ + seq![':'] + dec_digits(self.server.port as nat));
        s
    }
}

} // verus!
