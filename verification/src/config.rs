use vstd::prelude::*;
use vstd::string::*;

verus! {

/// The environment the service runs in.
#[derive(PartialEq, Eq, Structural, Clone, Copy, Debug)]
pub enum ConfigEnvironmentEnum {
    Production,
    Development,
    Test,
}

/// The API key that clients present to the GraphQL endpoint.
#[derive(Clone, Debug)]
pub struct Key {
    value: String,
}

impl View for Key {
    type V = Seq<char>;

    closed spec fn view(&self) -> Seq<char> {
        self.value@
    }
}

impl Key {
    /// Wraps the configured API key.
    pub fn new(value: String) -> (key: Key)
        ensures
            key@ == value@,
    {
        Key { value }
    }

    /// The key's text.
    pub fn as_str(&self) -> (s: &str)
        ensures
            s@ == self@,
    {
        self.value.as_str()
    }
}

/// The raw values of the environment variables the configuration is made of,
/// each under the name of the variable it was read from.
pub struct EnvValues {
    pub host: String,
    pub port: String,
    pub api_key: String,
    pub postgres_user: String,
    pub postgres_password: String,
    pub postgres_db_host: String,
    pub postgres_db: String,
    pub influxdb_host: String,
    pub influxdb_db: String,
    pub influxdb_username: String,
    pub influxdb_password: String,
}

/// The service configuration.
#[derive(Clone)]
pub struct Config {
    pub host: String,
    pub port: String,
    pub key: Key,
    pub postgres_db_url: String,
    pub influxdb_host: String,
    pub influxdb_db: String,
    pub influxdb_username: String,
    pub influxdb_password: String,
}

/// `postgres://{user}:{password}@{host}/{db}`
pub open spec fn postgres_url_spec(
    user: Seq<char>,
    password: Seq<char>,
    host: Seq<char>,
    db: Seq<char>,
) -> Seq<char> {
    "postgres://"@ + user + ":"@ + password + "@"@ + host + "/"@ + db
}

/// The URL holds each part whole and in order: the scheme `postgres://`, the
/// user, `:`, the password, `@`, the host, `/` and the database, nothing more.
pub open spec fn postgres_url_has_parts(
    url: Seq<char>,
    user: Seq<char>,
    password: Seq<char>,
    host: Seq<char>,
    db: Seq<char>,
) -> bool {
    let u = user.len() as int;
    let p = password.len() as int;
    let h = host.len() as int;
    &&& url.len() == 14 + u + p + h + db.len()
    &&& url.subrange(0, 11) == seq!['p', 'o', 's', 't', 'g', 'r', 'e', 's', ':', '/', '/']
    &&& url.subrange(11, 11 + u) == user
    &&& url[11 + u] == ':'
    &&& url.subrange(12 + u, 12 + u + p) == password
    &&& url[12 + u + p] == '@'
    &&& url.subrange(13 + u + p, 13 + u + p + h) == host
    &&& url[13 + u + p + h] == '/'
    &&& url.subrange(14 + u + p + h, url.len() as int) == db
}

/// The PostgreSQL URL holds each part whole and in order.
pub proof fn lemma_postgres_url_parts(
    user: Seq<char>,
    password: Seq<char>,
    host: Seq<char>,
    db: Seq<char>,
)
    ensures
        postgres_url_has_parts(postgres_url_spec(user, password, host, db), user, password, host, db),
{
    reveal_strlit("postgres://");
    reveal_strlit(":");
    reveal_strlit("@");
    reveal_strlit("/");
    let url = postgres_url_spec(user, password, host, db);
    let u = user.len() as int;
    let p = password.len() as int;
    let h = host.len() as int;
    assert(url.subrange(0, 11) =~= seq!['p', 'o', 's', 't', 'g', 'r', 'e', 's', ':', '/', '/']);
    assert(url.subrange(11, 11 + u) =~= user);
    assert(url.subrange(12 + u, 12 + u + p) =~= password);
    assert(url.subrange(13 + u + p, 13 + u + p + h) =~= host);
    assert(url.subrange(14 + u + p + h, url.len() as int) =~= db);
}

/// The connection URL of the PostgreSQL database.
pub fn postgres_url(user: &str, password: &str, host: &str, db: &str) -> (url: String)
    ensures
        url@ == postgres_url_spec(user@, password@, host@, db@),
        postgres_url_has_parts(url@, user@, password@, host@, db@),
{
    proof {
        lemma_postgres_url_parts(user@, password@, host@, db@);
    }
    let url = String::from_str("postgres://");
    let url = url.concat(user);
    let url = url.concat(":");
    let url = url.concat(password);
    let url = url.concat("@");
    let url = url.concat(host);
    let url = url.concat("/");
    url.concat(db)
}

impl Config {
    /// The configuration made of the given environment values: the PostgreSQL
    /// settings are joined into one connection URL, the others are kept as
    /// they are.
    pub fn from_env_values(values: EnvValues) -> (config: Config)
        ensures
            config.host@ == values.host@,
            config.port@ == values.port@,
            config.key@ == values.api_key@,
            config.postgres_db_url@ == postgres_url_spec(
                values.postgres_user@,
                values.postgres_password@,
                values.postgres_db_host@,
                values.postgres_db@,
            ),
            postgres_url_has_parts(
                config.postgres_db_url@,
                values.postgres_user@,
                values.postgres_password@,
                values.postgres_db_host@,
                values.postgres_db@,
            ),
            config.influxdb_host@ == values.influxdb_host@,
            config.influxdb_db@ == values.influxdb_db@,
            config.influxdb_username@ == values.influxdb_username@,
            config.influxdb_password@ == values.influxdb_password@,
    {
        let postgres_db_url = postgres_url(
            values.postgres_user.as_str(),
            values.postgres_password.as_str(),
            values.postgres_db_host.as_str(),
            values.postgres_db.as_str(),
        );
        Config {
            host: values.host,
            port: values.port,
            key: Key::new(values.api_key),
            postgres_db_url,
            influxdb_host: values.influxdb_host,
            influxdb_db: values.influxdb_db,
            influxdb_username: values.influxdb_username,
            influxdb_password: values.influxdb_password,
        }
    }

    /// The extra file of environment values that is loaded before `.env`:
    /// `.test.env` for the test environment, none otherwise.
    pub fn extra_env_file(config_env: ConfigEnvironmentEnum) -> (file: Option<&'static str>)
        ensures
            config_env == ConfigEnvironmentEnum::Test ==> file is Some && file->0@ == ".test.env"@,
            config_env != ConfigEnvironmentEnum::Test ==> file is None,
    {
        if config_env == ConfigEnvironmentEnum::Test {
            Some(".test.env")
        } else {
            None
        }
    }
}

/// The environment a build runs in: debug builds are development builds,
/// optimised builds are production builds.
pub fn get_env(debug_build: bool) -> (env: ConfigEnvironmentEnum)
    ensures
        debug_build ==> env == ConfigEnvironmentEnum::Development,
        !debug_build ==> env == ConfigEnvironmentEnum::Production,
{
    if debug_build {
        ConfigEnvironmentEnum::Development
    } else {
        ConfigEnvironmentEnum::Production
    }
}

} // verus!
