use vstd::prelude::*;

verus! {

/// Where the logs live: the database endpoint, the database and the
/// collection.
#[derive(Debug)]
pub struct Config {
    pub database_url: String,
    pub database_name: String,
    pub database_collection: String,
}

/// A required setting that is absent.
#[derive(Debug, PartialEq, Eq, Structural)]
pub enum ConfigError {
    MissingDatabaseUrl,
    MissingDatabaseName,
    MissingDatabaseCollection,
}

impl ConfigError {
    /// The name of the setting that is absent.
    pub fn setting(&self) -> (r: &'static str)
        ensures
            self is MissingDatabaseUrl ==> r@ == "DATABASE_URL"@,
            self is MissingDatabaseName ==> r@ == "DATABASE_NAME"@,
            self is MissingDatabaseCollection ==> r@ == "DATABASE_COLLECTION"@,
    {
        match self {
            ConfigError::MissingDatabaseUrl => "DATABASE_URL",
            ConfigError::MissingDatabaseName => "DATABASE_NAME",
            ConfigError::MissingDatabaseCollection => "DATABASE_COLLECTION",
        }
    }
}

impl Config {
    /// The configuration of three settings as they were read, each of them
    /// absent or present. All three are required: the first one absent, in
    /// the order endpoint, database, collection, is the error.
    pub fn from_settings(
        database_url: Option<String>,
        database_name: Option<String>,
        database_collection: Option<String>,
    ) -> (r: Result<Config, ConfigError>)
        ensures
            database_url is None ==> r == Err::<Config, ConfigError>(ConfigError::MissingDatabaseUrl),
            database_url is Some && database_name is None ==> r == Err::<Config, ConfigError>(
                ConfigError::MissingDatabaseName,
            ),
            database_url is Some && database_name is Some && database_collection is None ==> r
                == Err::<Config, ConfigError>(ConfigError::MissingDatabaseCollection),
            r is Ok <==> database_url is Some && database_name is Some && database_collection is Some,
            r matches Ok(c) ==> c.database_url@ == database_url->Some_0@ && c.database_name@
                == database_name->Some_0@ && c.database_collection@ == database_collection->Some_0@,
    {
        let database_url = match database_url {
            Some(v) => v,
            None => return Err(ConfigError::MissingDatabaseUrl),
        };
        let database_name = match database_name {
            Some(v) => v,
            None => return Err(ConfigError::MissingDatabaseName),
        };
        let database_collection = match database_collection {
            Some(v) => v,
            None => return Err(ConfigError::MissingDatabaseCollection),
        };
        Ok(Config { database_url, database_name, database_collection })
    }
}

} // verus!
