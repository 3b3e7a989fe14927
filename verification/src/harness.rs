//! The compute half of the isolated test harness: every decision behind
//! provisioning a throwaway database — which maintenance connection to
//! use, what fresh name to give the database, and the statement that
//! creates it. Opening connections, running migrations and binding the
//! listener are left to the caller.

use vstd::prelude::*;
use vstd::string::StringExecFns;

use crate::configuration::{connection_chars, DatabaseSettings, DBUser, SecretString};
use crate::fresh::fresh_uuid;

verus! {

/// The settings for the maintenance connection that provisions databases:
/// the same server as the given settings, but the maintenance database and
/// role.
pub fn maintenance_settings(db: &DatabaseSettings) -> (r: DatabaseSettings)
    ensures
        r.name@ == "postgres"@,
        r.user.name@ == "postgres"@,
        r.user.password.value() == "password"@,
        r.host@ == db.host@,
        r.port == db.port,
{
    DatabaseSettings {
        name: String::from_str("postgres"),
        host: db.host.clone(),
        port: db.port,
        user: DBUser {
            name: String::from_str("postgres"),
            password: SecretString::new(String::from_str("password")),
        },
    }
}

/// A copy of the given settings aimed at a freshly named database, so that
/// the instance provisioned from it shares nothing with any other.
pub fn with_unique_database_name(db: &DatabaseSettings) -> (r: DatabaseSettings)
    ensures
        r.host@ == db.host@,
        r.port == db.port,
        r.user.name@ == db.user.name@,
        r.user.password.value() == db.user.password.value(),
        r.name@.len() == 36,
{
    DatabaseSettings {
        name: fresh_uuid(),
        host: db.host.clone(),
        port: db.port,
        user: DBUser {
            name: db.user.name.clone(),
            password: db.user.password.duplicate(),
        },
    }
}

/// The statement that provisions the ephemeral database, its name quoted.
pub fn create_database_statement(name: &String) -> (s: String)
    ensures
        s@ == "CREATE DATABASE \""@ + name@ + "\";"@,
{
    let mut s = String::from_str("CREATE DATABASE \"");
    s.append(name.as_str());
    s.append("\";");
    s
}

/// Two database settings that agree on everything but the database name
/// have different connection descriptors whenever the names differ: an
/// instance provisioned under a fresh name cannot be reached through
/// another instance's descriptor, which is what keeps concurrent harness
/// instances from observing each other's rows.
pub proof fn lemma_distinct_names_distinct_descriptors(a: DatabaseSettings, b: DatabaseSettings)
    requires
        a.user.name@ == b.user.name@,
        a.user.password.value() == b.user.password.value(),
        a.host@ == b.host@,
        a.port == b.port,
        a.name@ != b.name@,
    ensures
        connection_chars(a) != connection_chars(b),
{
    let prefix = "postgres://"@ + a.user.name@ + seq![':'] + a.user.password.value() + seq!['@']
        + a.host@ + seq![':'] + crate::text::decimal_seq(a.port as nat) + seq!['/'];
    assert(connection_chars(a) =~= prefix + a.name@);
    assert(connection_chars(b) =~= prefix + b.name@);
    if connection_chars(a) == connection_chars(b) {
        assert(a.name@.len() == b.name@.len());
        assert forall|k: int| 0 <= k < a.name@.len() implies a.name@[k] == b.name@[k] by {
            assert((prefix + a.name@)[prefix.len() + k] == a.name@[k]);
            assert((prefix + b.name@)[prefix.len() + k] == b.name@[k]);
        }
        assert(a.name@ =~= b.name@);
    }
}

} // verus!
