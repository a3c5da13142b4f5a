//! The configuration of the server, checked once at start-up.

use vstd::prelude::*;
use vstd::string::*;

use crate::text::{
    decimal_int, format_u64, join2, list_entries, parse_i64, parse_u16, parsed_decimal, same_text,
    split_list, string_views,
};

verus! {

/// The least number of characters of a token secret.
pub const MIN_JWT_KEY_LEN: usize = 32;

/// The configuration of the server.
#[derive(Clone, Debug)]
pub struct AppConfig {
    pub http_addr: String,
    pub grpc_addr: String,
    pub database_url: String,
    pub jwt_secret: String,
    pub jwt_expiration: i64,
    pub cors_origins: Vec<String>,
}

/// The values of the environment variables that configure the server;
/// `None` for a variable that is not set.
#[derive(Debug)]
pub struct Environment {
    pub host: Option<String>,
    pub http_port: Option<String>,
    pub grpc_port: Option<String>,
    pub database_url: Option<String>,
    pub jwt_secret: Option<String>,
    pub jwt_expiration: Option<String>,
    pub cors_origins: Option<String>,
}

/// Why the environment is no configuration.
#[derive(Clone, Copy, Debug, PartialEq, Eq, Structural)]
pub enum ConfigError {
    /// `HTTP_PORT` is no port number.
    InvalidHttpPort,
    /// `GRPC_PORT` is no port number.
    InvalidGrpcPort,
    /// `DATABASE_URL` is not set.
    MissingDatabaseUrl,
    /// `JWT_SECRET` is not set.
    MissingJwtSecret,
    /// `JWT_SECRET` is shorter than `MIN_JWT_KEY_LEN`; its length.
    ShortJwtSecret(usize),
    /// `JWT_EXPIRATION` is no number of minutes.
    InvalidJwtExpiration,
}

/// The value of a variable, or `default` where it is not set.
pub open spec fn value_or(value: Option<String>, default: Seq<char>) -> Seq<char> {
    match value {
        Some(v) => v@,
        None => default,
    }
}

/// The port that the text of a variable names.
pub open spec fn port_of(value: Option<String>, default: Seq<char>) -> Option<int> {
    parsed_decimal(value_or(value, default), 0, 65535)
}

/// The first fault of the environment, in the order in which the variables
/// are looked at, or `None` where it has none.
pub open spec fn fault(env: Environment) -> Option<ConfigError> {
    if port_of(env.http_port, "3000"@) is None {
        Some(ConfigError::InvalidHttpPort)
    } else if port_of(env.grpc_port, "50051"@) is None {
        Some(ConfigError::InvalidGrpcPort)
    } else if env.database_url is None {
        Some(ConfigError::MissingDatabaseUrl)
    } else if env.jwt_secret is None {
        Some(ConfigError::MissingJwtSecret)
    } else if env.jwt_secret->0@.len() < MIN_JWT_KEY_LEN {
        Some(ConfigError::ShortJwtSecret(env.jwt_secret->0@.len() as usize))
    } else if parsed_decimal(value_or(env.jwt_expiration, "1440"@), i64::MIN as int, i64::MAX as int)
        is None {
        Some(ConfigError::InvalidJwtExpiration)
    } else {
        None
    }
}

/// `host`, a colon and `port` in decimal.
pub open spec fn socket_address(host: Seq<char>, port: int) -> Seq<char> {
    host + ":"@ + decimal_int(port)
}

/// The text that tells of a secret of `got` characters.
pub open spec fn short_secret_text(got: usize) -> Seq<char> {
    "JWT_SECRET must be at least 32 characters long, got "@ + decimal_int(got as int)
}

impl ConfigError {
    /// The text of the error.
    pub fn message(&self) -> (r: String)
        ensures
            r@ == (match self {
                ConfigError::InvalidHttpPort => "invalid HTTP_PORT"@,
                ConfigError::InvalidGrpcPort => "invalid GRPC_PORT"@,
                ConfigError::MissingDatabaseUrl => "DATABASE_URL must be set"@,
                ConfigError::MissingJwtSecret => "JWT_SECRET must be set"@,
                ConfigError::ShortJwtSecret(got) => short_secret_text(*got),
                ConfigError::InvalidJwtExpiration => "invalid JWT_EXPIRATION"@,
            }),
    {
        match self {
            ConfigError::InvalidHttpPort => "invalid HTTP_PORT".to_owned(),
            ConfigError::InvalidGrpcPort => "invalid GRPC_PORT".to_owned(),
            ConfigError::MissingDatabaseUrl => "DATABASE_URL must be set".to_owned(),
            ConfigError::MissingJwtSecret => "JWT_SECRET must be set".to_owned(),
            ConfigError::ShortJwtSecret(got) => {
                let number = format_u64(*got as u64);
                join2("JWT_SECRET must be at least 32 characters long, got ", number.as_str())
            },
            ConfigError::InvalidJwtExpiration => "invalid JWT_EXPIRATION".to_owned(),
        }
    }
}

/// The text of `value`, or `default` where there is none.
fn text_or(value: Option<String>, default: &str) -> (r: String)
    ensures
        r@ == value_or(value, default@),
{
    match value {
        Some(v) => v,
        None => default.to_owned(),
    }
}

impl AppConfig {
    /// The configuration that the environment describes. The host defaults
    /// to `127.0.0.1`, the ports to 3000 and 50051, the lifetime of a token
    /// to 1440 minutes and the CORS origins to `*`; the database URL and a
    /// token secret of at least `MIN_JWT_KEY_LEN` characters must be set.
    pub fn from_values(env: Environment) -> (r: Result<AppConfig, ConfigError>)
        ensures
            match r {
                Ok(config) => {
                    &&& fault(env) is None
                    &&& config.http_addr@ == socket_address(
                        value_or(env.host, "127.0.0.1"@),
                        port_of(env.http_port, "3000"@)->0,
                    )
                    &&& config.grpc_addr@ == socket_address(
                        value_or(env.host, "127.0.0.1"@),
                        port_of(env.grpc_port, "50051"@)->0,
                    )
                    &&& env.database_url matches Some(url) && config.database_url@ == url@
                    &&& env.jwt_secret matches Some(secret) && config.jwt_secret@ == secret@
                    &&& Some(config.jwt_expiration as int) == parsed_decimal(
                        value_or(env.jwt_expiration, "1440"@),
                        i64::MIN as int,
                        i64::MAX as int,
                    )
                    &&& string_views(config.cors_origins@) == list_entries(
                        value_or(env.cors_origins, "*"@),
                    )
                },
                Err(e) => fault(env) == Some(e),
            },
    {
        let host = text_or(env.host, "127.0.0.1");
        let http_port_text = text_or(env.http_port, "3000");
        let http_port: u16 = match parse_u16(http_port_text.as_str()) {
            Some(p) => p,
            None => {
                return Err(ConfigError::InvalidHttpPort);
            },
        };
        let grpc_port_text = text_or(env.grpc_port, "50051");
        let grpc_port: u16 = match parse_u16(grpc_port_text.as_str()) {
            Some(p) => p,
            None => {
                return Err(ConfigError::InvalidGrpcPort);
            },
        };
        let database_url = match env.database_url {
            Some(url) => url,
            None => {
                return Err(ConfigError::MissingDatabaseUrl);
            },
        };
        let jwt_secret = match env.jwt_secret {
            Some(secret) => secret,
            None => {
                return Err(ConfigError::MissingJwtSecret);
            },
        };
        let secret_len = jwt_secret.as_str().unicode_len();
        if secret_len < MIN_JWT_KEY_LEN {
            return Err(ConfigError::ShortJwtSecret(secret_len));
        }
        let expiration_text = text_or(env.jwt_expiration, "1440");
        let jwt_expiration: i64 = match parse_i64(expiration_text.as_str()) {
            Some(minutes) => minutes,
            None => {
                return Err(ConfigError::InvalidJwtExpiration);
            },
        };
        let origins_text = text_or(env.cors_origins, "*");
        let cors_origins = split_list(origins_text.as_str());
        let base = join2(host.as_str(), ":");
        let http_number = format_u64(http_port as u64);
        let grpc_number = format_u64(grpc_port as u64);
        Ok(
            AppConfig {
                http_addr: join2(base.as_str(), http_number.as_str()),
                grpc_addr: join2(base.as_str(), grpc_number.as_str()),
                database_url,
                jwt_secret,
                jwt_expiration,
                cors_origins,
            },
        )
    }

    /// A copy of the configuration.
    pub fn duplicate(&self) -> (r: AppConfig)
        ensures
            r.http_addr@ == self.http_addr@,
            r.grpc_addr@ == self.grpc_addr@,
            r.database_url@ == self.database_url@,
            r.jwt_secret@ == self.jwt_secret@,
            r.jwt_expiration == self.jwt_expiration,
            string_views(r.cors_origins@) == string_views(self.cors_origins@),
    {
        let mut origins: Vec<String> = Vec::new();
        let mut i: usize = 0;
        while i < self.cors_origins.len()
            invariant
                i <= self.cors_origins@.len(),
                origins@.len() == i,
                forall|k: int| 0 <= k < i ==> (#[trigger] origins@[k])@ == self.cors_origins@[k]@,
            decreases self.cors_origins@.len() - i,
        {
            origins.push(self.cors_origins[i].clone());
            i += 1;
        }
        assert(string_views(origins@) =~= string_views(self.cors_origins@));
        AppConfig {
            http_addr: self.http_addr.clone(),
            grpc_addr: self.grpc_addr.clone(),
            database_url: self.database_url.clone(),
            jwt_secret: self.jwt_secret.clone(),
            jwt_expiration: self.jwt_expiration,
            cors_origins: origins,
        }
    }
}

/// Which origins may call the HTTP surface.
#[derive(Debug)]
pub enum CorsPolicy {
    /// Every origin, without credentials.
    AnyOrigin,
    /// The two local front ends and the configured origins, with
    /// credentials.
    Listed(Vec<String>),
}

/// Whether `*` is among `origins`.
pub open spec fn any_origin(origins: Seq<Seq<char>>) -> bool {
    exists|i: int| 0 <= i < origins.len() && #[trigger] origins[i] == "*"@
}

/// The CORS policy of a configuration: every origin where `*` is
/// configured, the configured origins otherwise.
pub fn build_cors(config: &AppConfig) -> (r: CorsPolicy)
    ensures
        match r {
            CorsPolicy::AnyOrigin => any_origin(string_views(config.cors_origins@)),
            CorsPolicy::Listed(origins) => !any_origin(string_views(config.cors_origins@))
                && string_views(origins@) == string_views(config.cors_origins@),
        },
{
    let mut origins: Vec<String> = Vec::new();
    let mut i: usize = 0;
    while i < config.cors_origins.len()
        invariant
            i <= config.cors_origins@.len(),
            origins@.len() == i,
            forall|k: int| 0 <= k < i ==> (#[trigger] origins@[k])@ == config.cors_origins@[k]@,
            forall|k: int| 0 <= k < i ==> (#[trigger] config.cors_origins@[k])@ != "*"@,
        decreases config.cors_origins@.len() - i,
    {
        if same_text(config.cors_origins[i].as_str(), "*") {
            assert(string_views(config.cors_origins@)[i as int] == "*"@);
            return CorsPolicy::AnyOrigin;
        }
        origins.push(config.cors_origins[i].clone());
        i += 1;
    }
    assert(string_views(origins@) =~= string_views(config.cors_origins@));
    let ghost configured = string_views(config.cors_origins@);
    assert forall|k: int| 0 <= k < configured.len() implies #[trigger] configured[k] != "*"@ by {
        assert(configured[k] == config.cors_origins@[k]@);
    }
    CorsPolicy::Listed(origins)
}

} // verus!
