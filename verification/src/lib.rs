//! A minimal HTTP-service core: typed configuration loading, a uniform
//! response envelope with its own JSON rendering, request-log severity
//! selection, and a small user-creation service.

pub mod clock;
pub mod config;
pub mod envelope;
pub mod json;
pub mod logging;
pub mod middleware;
pub mod text;
pub mod users;

pub use clock::Timestamp;
pub use clock::format_rfc3339;
pub use clock::health_body;
pub use clock::health_check_handler;
pub use clock::root_handler;
pub use clock::timestamp_from_micros;
pub use envelope::ApiResponse;
pub use envelope::AppResponse;
pub use envelope::ToJson;
pub use envelope::lemma_envelope_exclusive;
pub use users::CreateUserDto;
pub use users::UserResponseDto;
pub use users::create;
pub use users::create_user;

pub use config::Config;
pub use config::ConfigError;
pub use config::DatabaseConfig;
pub use config::EnvValues;
pub use config::Environment;
pub use config::JwtConfig;
pub use config::LoggingConfig;
pub use config::PoolOptions;
pub use config::ServerConfig;
pub use config::pool_options;

pub use logging::LogRecord;
pub use logging::Severity;
pub use logging::resolve_log_directive;
pub use middleware::request_log_record;
pub use middleware::severity_for_status;
pub use text::parse_i64;
pub use text::parse_u16;
pub use text::parse_u32;
pub use text::parse_u64;
pub use text::u64_to_dec;
