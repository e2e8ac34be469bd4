//! The application's settings, and what is computed from them.
use vstd::prelude::*;

use crate::domain::subscriber_email::{email_error, is_valid_email, SubscriberEmail};
use crate::text::{decimal, decimal_reads_back, decimal_string, digits_value};

verus! {

#[derive(Clone)]
pub struct Settings {
    pub database: DatabaseSettings,
    pub application: ApplicationSettings,
    pub email_client: EmailClientSettings,
}

#[derive(Clone)]
pub struct ApplicationSettings {
    pub host: String,
    pub port: u16,
}

#[derive(Clone)]
pub struct DatabaseSettings {
    pub username: String,
    pub password: String,
    pub port: u16,
    pub host: String,
    pub database_name: String,
}

#[derive(Clone)]
pub struct EmailClientSettings {
    pub base_url: String,
    pub sender_email: String,
    pub authorization_token: String,
    pub timeout_miliseconds: u64,
}

/// The `std::time::Duration` of `ms` milliseconds.
pub uninterp spec fn duration_of_millis(ms: u64) -> std::time::Duration;

/// Calls `std::time::Duration::from_millis`, which does not panic; the
/// duration is named by its number of milliseconds.
#[verifier::external_body]
fn duration_from_millis(ms: u64) -> (d: std::time::Duration)
    ensures
        d == duration_of_millis(ms),
{
    std::time::Duration::from_millis(ms)
}

impl EmailClientSettings {
    /// The configured sender address, checked as a subscriber's address is.
    pub fn sender(&self) -> (r: Result<SubscriberEmail, String>)
        ensures
            match r {
                Ok(email) => is_valid_email(self.sender_email@) && email@ == self.sender_email@,
                Err(e) => !is_valid_email(self.sender_email@) && e@ == email_error(
                    self.sender_email@,
                ),
            },
    {
        SubscriberEmail::parse(self.sender_email.clone())
    }

    /// How long a request to the email service may take.
    pub fn timeout(&self) -> (d: std::time::Duration)
        ensures
            d == duration_of_millis(self.timeout_miliseconds),
    {
        duration_from_millis(self.timeout_miliseconds)
    }
}

impl DatabaseSettings {
    /// `postgres://{username}:{password}@{host}:{port}`
    pub open spec fn url_without_db(&self) -> Seq<char> {
        "postgres://"@ + self.username@ + ":"@ + self.password@ + "@"@ + self.host@ + ":"@
            + decimal(self.port as nat)
    }

    /// `postgres://{username}:{password}@{host}:{port}/{database_name}`
    pub open spec fn url_with_db(&self) -> Seq<char> {
        self.url_without_db() + "/"@ + self.database_name@
    }

    pub fn connection_string_without_db(&self) -> (s: String)
        ensures
            s@ == self.url_without_db(),
    {
        let mut s = String::from_str("postgres://");
        s.append(self.username.as_str());
        s.append(":");
        s.append(self.password.as_str());
        s.append("@");
        s.append(self.host.as_str());
        s.append(":");
        let port = decimal_string(self.port);
        s.append(port.as_str());
        s
    }

    pub fn connection_string_with_db(&self) -> (s: String)
        ensures
            s@ == self.url_with_db(),
    {
        let mut s = self.connection_string_without_db();
        s.append("/");
        s.append(self.database_name.as_str());
        s
    }
}

impl ApplicationSettings {
    /// `{host}:{port}`, the address the server listens on.
    pub open spec fn address_text(&self) -> Seq<char> {
        self.host@ + ":"@ + decimal(self.port as nat)
    }

    pub fn address(&self) -> (s: String)
        ensures
            s@ == self.address_text(),
    {
        let mut s = String::from_str(self.host.as_str());
        s.append(":");
        let port = decimal_string(self.port);
        s.append(port.as_str());
        s
    }
}

/// The connection string naming a database is the one without it,
/// followed by `/` and the database's name.
pub proof fn connection_string_with_db_extends_without_db(db: DatabaseSettings)
    ensures
        db.url_with_db() == db.url_without_db() + "/"@ + db.database_name@,
        db.url_without_db().is_prefix_of(db.url_with_db()),
{
    assert(db.url_with_db().subrange(0, db.url_without_db().len() as int) =~= db.url_without_db());
}

/// The parts of a connection string stand where they belong:
/// `postgres://`, the user name, `:`, the password, `@`, the host, `:`, the
/// port in decimal digits without a leading zero, `/`, and the database's
/// name. Each part is the configured value, whatever the others hold.
pub proof fn connection_string_layout(db: DatabaseSettings)
    ensures
        ({
            let s = db.url_with_db();
            let a = 11 + db.username@.len() as int;
            let b = a + 1 + db.password@.len() as int;
            let c = b + 1 + db.host@.len() as int;
            let e = c + 1 + decimal(db.port as nat).len() as int;
            &&& s.len() == e + 1 + db.database_name@.len()
            &&& s.subrange(0, 11) == "postgres://"@
            &&& s.subrange(11, a) == db.username@
            &&& s[a] == ':'
            &&& s.subrange(a + 1, b) == db.password@
            &&& s[b] == '@'
            &&& s.subrange(b + 1, c) == db.host@
            &&& s[c] == ':'
            &&& digits_value(s.subrange(c + 1, e)) == db.port
            &&& forall|i: int| c + 1 <= i < e ==> '0' <= #[trigger] s[i] <= '9'
            &&& e > c + 2 ==> s[c + 1] != '0'
            &&& s[e] == '/'
            &&& s.subrange(e + 1, s.len() as int) == db.database_name@
            &&& db.url_without_db() == s.subrange(0, e)
        }),
{
    reveal_strlit("postgres://");
    reveal_strlit(":");
    reveal_strlit("@");
    reveal_strlit("/");
    decimal_reads_back(db.port as nat);
    let s = db.url_with_db();
    let d = decimal(db.port as nat);
    let a = 11 + db.username@.len() as int;
    let b = a + 1 + db.password@.len() as int;
    let c = b + 1 + db.host@.len() as int;
    let e = c + 1 + d.len() as int;
    assert(s.subrange(0, 11) =~= "postgres://"@);
    assert(s.subrange(11, a) =~= db.username@);
    assert(s.subrange(a + 1, b) =~= db.password@);
    assert(s.subrange(b + 1, c) =~= db.host@);
    assert(s.subrange(c + 1, e) =~= d);
    assert(s.subrange(e + 1, s.len() as int) =~= db.database_name@);
    assert(db.url_without_db() =~= s.subrange(0, e));
}

/// The listening address is the host, `:`, and the port in decimal digits
/// without a leading zero.
pub proof fn address_layout(app: ApplicationSettings)
    ensures
        ({
            let s = app.address_text();
            let h = app.host@.len() as int;
            &&& s.len() == h + 1 + decimal(app.port as nat).len()
            &&& s.subrange(0, h) == app.host@
            &&& s[h] == ':'
            &&& digits_value(s.subrange(h + 1, s.len() as int)) == app.port
            &&& forall|i: int| h + 1 <= i < s.len() ==> '0' <= #[trigger] s[i] <= '9'
            &&& s.len() > h + 2 ==> s[h + 1] != '0'
        }),
{
    reveal_strlit(":");
    decimal_reads_back(app.port as nat);
    let s = app.address_text();
    let h = app.host@.len() as int;
    assert(s.subrange(0, h) =~= app.host@);
    assert(s.subrange(h + 1, s.len() as int) =~= decimal(app.port as nat));
}

} // verus!
