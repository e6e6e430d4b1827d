use vstd::prelude::*;

verus! {

/// Where and as whom the dump tool connects.
pub struct SqlConfig {
    pub host: String,
    pub port: String,
    pub database: String,
    pub user: String,
    pub password: String,
}

/// The bucket that receives the dump and the bearer token that authorises
/// the upload.
pub struct StorageTarget {
    pub bucket: String,
    pub oauth_token: String,
}

/// Everything one run needs, assembled once at startup.
pub struct Settings {
    pub sql: SqlConfig,
    pub storage: StorageTarget,
}

/// The environment variables a run requires, in the order they are checked.
#[derive(Clone, Copy, Debug, PartialEq, Eq, Structural)]
pub enum EnvVar {
    MysqlHost,
    MysqlPort,
    MysqlDatabase,
    MysqlUser,
    MysqlPassword,
    GcsBucket,
    GcsOauthToken,
}

impl EnvVar {
    pub open spec fn spec_name(self) -> Seq<char> {
        match self {
            EnvVar::MysqlHost => "MYSQL_HOST"@,
            EnvVar::MysqlPort => "MYSQL_PORT"@,
            EnvVar::MysqlDatabase => "MYSQL_DATABASE"@,
            EnvVar::MysqlUser => "MYSQL_USER"@,
            EnvVar::MysqlPassword => "MYSQL_PASSWORD"@,
            EnvVar::GcsBucket => "GCS_BUCKET"@,
            EnvVar::GcsOauthToken => "GCS_OAUTH_TOKEN"@,
        }
    }

    /// The variable's name in the process environment.
    pub fn name(&self) -> (r: &'static str)
        ensures
            r@ == self.spec_name(),
    {
        match self {
            EnvVar::MysqlHost => "MYSQL_HOST",
            EnvVar::MysqlPort => "MYSQL_PORT",
            EnvVar::MysqlDatabase => "MYSQL_DATABASE",
            EnvVar::MysqlUser => "MYSQL_USER",
            EnvVar::MysqlPassword => "MYSQL_PASSWORD",
            EnvVar::GcsBucket => "GCS_BUCKET",
            EnvVar::GcsOauthToken => "GCS_OAUTH_TOKEN",
        }
    }
}

/// The first absent value, in the order host, port, database, user,
/// password, bucket, token; `None` when all are present.
pub open spec fn first_missing(
    host: Option<String>,
    port: Option<String>,
    database: Option<String>,
    user: Option<String>,
    password: Option<String>,
    bucket: Option<String>,
    oauth_token: Option<String>,
) -> Option<EnvVar> {
    if host is None {
        Some(EnvVar::MysqlHost)
    } else if port is None {
        Some(EnvVar::MysqlPort)
    } else if database is None {
        Some(EnvVar::MysqlDatabase)
    } else if user is None {
        Some(EnvVar::MysqlUser)
    } else if password is None {
        Some(EnvVar::MysqlPassword)
    } else if bucket is None {
        Some(EnvVar::GcsBucket)
    } else if oauth_token is None {
        Some(EnvVar::GcsOauthToken)
    } else {
        None
    }
}

/// Leaving out any one of the required values, whichever it is, makes the
/// settings fail to assemble, so a run stops before it starts anything.
pub proof fn missing_value_is_refused(
    host: Option<String>,
    port: Option<String>,
    database: Option<String>,
    user: Option<String>,
    password: Option<String>,
    bucket: Option<String>,
    oauth_token: Option<String>,
)
    requires
        host is None || port is None || database is None || user is None || password is None
            || bucket is None || oauth_token is None,
    ensures
        first_missing(host, port, database, user, password, bucket, oauth_token) is Some,
{
}

impl Settings {
    /// Assembles the settings from the looked-up value of each required
    /// variable (`None` where it is unset). Fails, naming the first missing
    /// variable, unless every one is present; on success each field is the
    /// value given for it.
    pub fn from_values(
        host: Option<String>,
        port: Option<String>,
        database: Option<String>,
        user: Option<String>,
        password: Option<String>,
        bucket: Option<String>,
        oauth_token: Option<String>,
    ) -> (r: Result<Settings, EnvVar>)
        ensures
            r is Err <==> first_missing(host, port, database, user, password, bucket, oauth_token) is Some,
            r matches Err(v) ==> first_missing(host, port, database, user, password, bucket, oauth_token) == Some(v),
            r matches Ok(s) ==> {
                &&& host == Some(s.sql.host)
                &&& port == Some(s.sql.port)
                &&& database == Some(s.sql.database)
                &&& user == Some(s.sql.user)
                &&& password == Some(s.sql.password)
                &&& bucket == Some(s.storage.bucket)
                &&& oauth_token == Some(s.storage.oauth_token)
            },
    {
        let host = match host {
            Some(v) => v,
            None => return Err(EnvVar::MysqlHost),
        };
        let port = match port {
            Some(v) => v,
            None => return Err(EnvVar::MysqlPort),
        };
        let database = match database {
            Some(v) => v,
            None => return Err(EnvVar::MysqlDatabase),
        };
        let user = match user {
            Some(v) => v,
            None => return Err(EnvVar::MysqlUser),
        };
        let password = match password {
            Some(v) => v,
            None => return Err(EnvVar::MysqlPassword),
        };
        let bucket = match bucket {
            Some(v) => v,
            None => return Err(EnvVar::GcsBucket),
        };
        let oauth_token = match oauth_token {
            Some(v) => v,
            None => return Err(EnvVar::GcsOauthToken),
        };
        Ok(Settings {
            sql: SqlConfig { host, port, database, user, password },
            storage: StorageTarget { bucket, oauth_token },
        })
    }
}

} // verus!
