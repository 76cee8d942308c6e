//! Server configuration and its defaults. Loading it from `notifico.toml` and
//! `NOTIFICO_` environment variables is the application's job.
use vstd::prelude::*;

verus! {

/// Which parts of the server run.
#[derive(Debug, Clone, Copy, PartialEq, Eq, Structural)]
pub enum ServerMode {
    All,
    Api,
    Worker,
}

/// The whole configuration.
#[derive(Debug, Clone)]
pub struct Config {
    pub server: ServerConfig,
    pub database: DatabaseConfig,
    pub queue: QueueConfig,
    pub storage: StorageConfig,
    pub auth: AuthConfig,
    pub project: ProjectConfig,
}

/// HTTP server settings.
#[derive(Debug, Clone)]
pub struct ServerConfig {
    pub mode: ServerMode,
    pub host: String,
    pub port: u16,
    pub admin_port: u16,
}

/// Database settings.
#[derive(Debug, Clone)]
pub struct DatabaseConfig {
    pub backend: String,
    pub url: String,
}

/// Queue settings.
#[derive(Debug, Clone)]
pub struct QueueConfig {
    pub backend: String,
    pub redis_url: Option<String>,
    pub amqp_url: Option<String>,
}

/// Asset storage settings.
#[derive(Debug, Clone)]
pub struct StorageConfig {
    pub backend: String,
    pub path: String,
    pub s3_bucket: Option<String>,
    pub s3_endpoint: Option<String>,
}

/// Authentication settings.
#[derive(Debug, Clone)]
pub struct AuthConfig {
    pub encryption_key: Option<String>,
    pub jwt_secret: Option<String>,
    pub oidc: Option<OidcConfig>,
}

/// OpenID Connect settings.
#[derive(Debug, Clone)]
pub struct OidcConfig {
    pub enabled: bool,
    pub issuer_url: String,
    pub client_id: String,
    pub client_secret: String,
}

/// Project-wide settings.
#[derive(Debug, Clone)]
pub struct ProjectConfig {
    pub default_locale: String,
}

/// Default server mode: everything.
pub fn default_mode() -> (m: ServerMode)
    ensures
        m == ServerMode::All,
{
    ServerMode::All
}

/// Default bind host.
pub fn default_host() -> (s: String)
    ensures
        s@ == "0.0.0.0"@,
{
    String::from_str("0.0.0.0")
}

/// Default API port.
pub fn default_port() -> (p: u16)
    ensures
        p == 8000,
{
    8000
}

/// Default admin port.
pub fn default_admin_port() -> (p: u16)
    ensures
        p == 8001,
{
    8001
}

/// Default database backend.
pub fn default_db_backend() -> (s: String)
    ensures
        s@ == "sqlite"@,
{
    String::from_str("sqlite")
}

/// Default database URL.
pub fn default_db_url() -> (s: String)
    ensures
        s@ == "sqlite://notifico.db?mode=rwc"@,
{
    String::from_str("sqlite://notifico.db?mode=rwc")
}

/// Default queue backend.
pub fn default_queue_backend() -> (s: String)
    ensures
        s@ == "redis"@,
{
    String::from_str("redis")
}

/// Default storage backend.
pub fn default_storage_backend() -> (s: String)
    ensures
        s@ == "filesystem"@,
{
    String::from_str("filesystem")
}

/// Default storage path.
pub fn default_storage_path() -> (s: String)
    ensures
        s@ == "./data/assets"@,
{
    String::from_str("./data/assets")
}

/// Default locale of a project.
pub fn default_locale() -> (s: String)
    ensures
        s@ == "en"@,
{
    String::from_str("en")
}

impl Default for ServerConfig {
    fn default() -> (c: Self)
        ensures
            c.mode == ServerMode::All,
            c.host@ == "0.0.0.0"@,
            c.port == 8000,
            c.admin_port == 8001,
    {
        ServerConfig {
            mode: default_mode(),
            host: default_host(),
            port: default_port(),
            admin_port: default_admin_port(),
        }
    }
}

impl Default for DatabaseConfig {
    fn default() -> (c: Self)
        ensures
            c.backend@ == "sqlite"@,
            c.url@ == "sqlite://notifico.db?mode=rwc"@,
    {
        DatabaseConfig { backend: default_db_backend(), url: default_db_url() }
    }
}

impl Default for QueueConfig {
    fn default() -> (c: Self)
        ensures
            c.backend@ == "redis"@,
            c.redis_url is None,
            c.amqp_url is None,
    {
        QueueConfig { backend: default_queue_backend(), redis_url: None, amqp_url: None }
    }
}

impl Default for StorageConfig {
    fn default() -> (c: Self)
        ensures
            c.backend@ == "filesystem"@,
            c.path@ == "./data/assets"@,
            c.s3_bucket is None,
            c.s3_endpoint is None,
    {
        StorageConfig {
            backend: default_storage_backend(),
            path: default_storage_path(),
            s3_bucket: None,
            s3_endpoint: None,
        }
    }
}

impl Default for AuthConfig {
    fn default() -> (c: Self)
        ensures
            c.encryption_key is None,
            c.jwt_secret is None,
            c.oidc is None,
    {
        AuthConfig { encryption_key: None, jwt_secret: None, oidc: None }
    }
}

impl Default for ProjectConfig {
    fn default() -> (c: Self)
        ensures
            c.default_locale@ == "en"@,
    {
        ProjectConfig { default_locale: default_locale() }
    }
}

impl Default for Config {
    fn default() -> (c: Self)
        ensures
            c.server.mode == ServerMode::All,
            c.server.host@ == "0.0.0.0"@,
            c.server.port == 8000,
            c.server.admin_port == 8001,
            c.database.backend@ == "sqlite"@,
            c.database.url@ == "sqlite://notifico.db?mode=rwc"@,
            c.queue.backend@ == "redis"@,
            c.queue.redis_url is None,
            c.queue.amqp_url is None,
            c.storage.backend@ == "filesystem"@,
            c.storage.path@ == "./data/assets"@,
            c.storage.s3_bucket is None,
            c.storage.s3_endpoint is None,
            c.auth.encryption_key is None,
            c.auth.jwt_secret is None,
            c.auth.oidc is None,
            c.project.default_locale@ == "en"@,
    {
        Config {
            server: ServerConfig::default(),
            database: DatabaseConfig::default(),
            queue: QueueConfig::default(),
            storage: StorageConfig::default(),
            auth: AuthConfig::default(),
            project: ProjectConfig::default(),
        }
    }
}

} // verus!
