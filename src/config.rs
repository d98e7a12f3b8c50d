use vstd::prelude::*;
use crate::error::Error;

verus! {

/// The process configuration: where to listen, how to reach the database,
/// and the process-wide hashing salt and token secret.
#[derive(Debug)]
pub struct Config {
    pub address: [u8; 4],
    pub db_name: String,
    pub db_user: String,
    pub db_password: String,
    pub db_server: String,
    pub hash_salt: String,
    pub testing: bool,
    pub token_secret: String,
}

impl Config {
    /// A configuration from its values, listening on the loopback address.
    pub fn new(
        db_name: &str,
        db_user: &str,
        db_password: &str,
        db_server: &str,
        hash_salt: &str,
        testing: bool,
        token_secret: &str,
    ) -> (c: Config)
        ensures
            c.address@ == seq![127u8, 0, 0, 1],
            c.db_name@ == db_name@,
            c.db_user@ == db_user@,
            c.db_password@ == db_password@,
            c.db_server@ == db_server@,
            c.hash_salt@ == hash_salt@,
            c.testing == testing,
            c.token_secret@ == token_secret@,
    {
        Config {
            address: [127, 0, 0, 1],
            db_name: String::from_str(db_name),
            db_user: String::from_str(db_user),
            db_password: String::from_str(db_password),
            db_server: String::from_str(db_server),
            hash_salt: String::from_str(hash_salt),
            testing,
            token_secret: String::from_str(token_secret),
        }
    }

    /// A setting given either directly or through the contents of a file;
    /// the direct value wins, and with neither the arguments are incomplete.
    pub fn find_arg(value: Option<String>, from_file: Option<String>) -> (r: Result<String, Error>)
        ensures
            r == (match (value, from_file) {
                (Some(v), _) => Ok(v),
                (None, Some(f)) => Ok(f),
                (None, None) => Err(Error::Str("Args missing")),
            }),
    {
        match value {
            Some(v) => Ok(v),
            None => match from_file {
                Some(f) => Ok(f),
                None => Err(Error::Str("Args missing")),
            },
        }
    }
}

} // verus!
