use vstd::prelude::*;
use vstd::string::StringExecFns;

verus! {

/// Which backend stores the users.
#[derive(Clone, Copy, Debug, PartialEq, Eq, Structural)]
pub enum DatabaseType {
    Memory,
    Postgres,
}

/// The text of a setting, or `default` when it is not set.
pub open spec fn setting_or(value: Option<String>, default: Seq<char>) -> Seq<char> {
    match value {
        Some(v) => v@,
        None => default,
    }
}

/// The backend a setting names: `postgres` selects the relational one, any
/// other value, or none, the in-memory one.
pub open spec fn database_type_of(name: Option<String>) -> DatabaseType {
    if setting_or(name, "memory"@) == "postgres"@ {
        DatabaseType::Postgres
    } else {
        DatabaseType::Memory
    }
}

fn value_or(value: Option<String>, default: &str) -> (r: String)
    ensures
        r@ == setting_or(value, default@),
{
    match value {
        Some(v) => v,
        None => default.to_string(),
    }
}

impl DatabaseType {
    /// The backend that the setting `name` selects.
    pub fn from_name(name: Option<String>) -> (r: DatabaseType)
        ensures
            r == database_type_of(name),
    {
        let text = value_or(name, "memory");
        let postgres = "postgres".to_string();
        if text == postgres {
            DatabaseType::Postgres
        } else {
            DatabaseType::Memory
        }
    }
}

/// Where the users are stored and how to reach the database.
pub struct DatabaseConfig {
    pub database_type: DatabaseType,
    pub host: String,
    pub user: String,
    pub password: String,
    pub database: String,
}

impl DatabaseConfig {
    /// A configuration from the given settings, each unset one taking its
    /// default: the in-memory backend, host `localhost`, and `postgres` for
    /// the user, the password and the database name.
    pub fn new(
        database_type: Option<String>,
        host: Option<String>,
        user: Option<String>,
        password: Option<String>,
        database: Option<String>,
    ) -> (r: Self)
        ensures
            r.database_type == database_type_of(database_type),
            r.host@ == setting_or(host, "localhost"@),
            r.user@ == setting_or(user, "postgres"@),
            r.password@ == setting_or(password, "postgres"@),
            r.database@ == setting_or(database, "postgres"@),
    {
        DatabaseConfig {
            database_type: DatabaseType::from_name(database_type),
            host: value_or(host, "localhost"),
            user: value_or(user, "postgres"),
            password: value_or(password, "postgres"),
            database: value_or(database, "postgres"),
        }
    }

    /// The address of the relational database:
    /// `postgres://<user>:<password>@<host>/<database>`.
    pub fn connection_url(&self) -> (r: String)
        ensures
            r@ == "postgres://"@ + self.user@ + ":"@ + self.password@ + "@"@ + self.host@ + "/"@
                + self.database@,
    {
        let mut url = "postgres://".to_string();
        url.append(self.user.as_str());
        url.append(":");
        url.append(self.password.as_str());
        url.append("@");
        url.append(self.host.as_str());
        url.append("/");
        url.append(self.database.as_str());
        url
    }
}

} // verus!
