use vstd::prelude::*;
use vstd::std_specs::convert::FromSpec;
use vstd::std_specs::convert::FromSpecImpl;
use vstd::std_specs::convert::IntoSpec;

verus! {

/// InfluxDB connection info with authentication.
pub struct AuthInfo {
    pub url: String,
    pub database: String,
    pub username: String,
    pub password: String,
}

/// What an [`InfluxDBConnectionInfo`] holds, as plain values.
pub struct InfluxDBConnectionInfoView {
    pub url: Seq<char>,
    pub database: Seq<char>,
    pub username: Option<Seq<char>>,
    pub password: Option<Seq<char>>,
    pub is_auth: bool,
}

/// Where and how to connect to InfluxDB.
///
/// When `is_auth` is set, both the user name and the password are present.
#[derive(Debug)]
pub struct InfluxDBConnectionInfo {
    url: String,
    database: String,
    username: Option<String>,
    password: Option<String>,
    is_auth: bool,
}

pub open spec fn opt_string_view(s: Option<String>) -> Option<Seq<char>> {
    match s {
        Some(v) => Some(v@),
        None => None,
    }
}

impl View for InfluxDBConnectionInfo {
    type V = InfluxDBConnectionInfoView;

    closed spec fn view(&self) -> InfluxDBConnectionInfoView {
        InfluxDBConnectionInfoView {
            url: self.url@,
            database: self.database@,
            username: opt_string_view(self.username),
            password: opt_string_view(self.password),
            is_auth: self.is_auth,
        }
    }
}

impl InfluxDBConnectionInfo {
    #[verifier::type_invariant]
    spec fn credentials_present(self) -> bool {
        self.is_auth ==> self.username is Some && self.password is Some
    }

    /// The credentials of an info view: present exactly when it authenticates.
    pub open spec fn credentials_of(v: InfluxDBConnectionInfoView) -> Option<(Seq<char>, Seq<char>)> {
        if v.is_auth {
            Some((v.username->0, v.password->0))
        } else {
            None
        }
    }

    /// The view of the info made of an [`AuthInfo`].
    pub open spec fn view_of_auth(item: AuthInfo) -> InfluxDBConnectionInfoView {
        InfluxDBConnectionInfoView {
            url: item.url@,
            database: item.database@,
            username: Some(item.username@),
            password: Some(item.password@),
            is_auth: true,
        }
    }

    /// The URL of the InfluxDB server.
    pub fn url(&self) -> (url: &str)
        ensures
            url@ == self@.url,
    {
        self.url.as_str()
    }

    /// The database queries run against.
    pub fn database(&self) -> (database: &str)
        ensures
            database@ == self@.database,
    {
        self.database.as_str()
    }

    /// The user name and password a client authenticates with, if it does.
    pub fn credentials(&self) -> (creds: Option<(&str, &str)>)
        ensures
            self@.is_auth ==> self@.username is Some && self@.password is Some,
            creds is Some <==> self@.is_auth,
            creds matches Some(c) ==> Some((c.0@, c.1@)) == Self::credentials_of(self@),
    {
        proof {
            use_type_invariant(self);
        }
        if self.is_auth {
            match (&self.username, &self.password) {
                (Some(username), Some(password)) => Some((username.as_str(), password.as_str())),
                _ => None,
            }
        } else {
            None
        }
    }
}

impl Clone for InfluxDBConnectionInfo {
    fn clone(&self) -> (info: InfluxDBConnectionInfo)
        ensures
            info@ == self@,
    {
        proof {
            use_type_invariant(self);
        }
        InfluxDBConnectionInfo {
            url: self.url.clone(),
            database: self.database.clone(),
            username: self.username.clone(),
            password: self.password.clone(),
            is_auth: self.is_auth,
        }
    }
}

impl From<AuthInfo> for InfluxDBConnectionInfo {
    fn from(item: AuthInfo) -> (info: InfluxDBConnectionInfo) {
        InfluxDBConnectionInfo {
            url: item.url,
            database: item.database,
            username: Some(item.username),
            password: Some(item.password),
            is_auth: true,
        }
    }
}

impl FromSpecImpl<AuthInfo> for InfluxDBConnectionInfo {
    open spec fn obeys_from_spec() -> bool {
        true
    }

    closed spec fn from_spec(item: AuthInfo) -> InfluxDBConnectionInfo {
        InfluxDBConnectionInfo {
            url: item.url,
            database: item.database,
            username: Some(item.username),
            password: Some(item.password),
            is_auth: true,
        }
    }
}

} // verus!

verus! {

/// Hands out InfluxDB connections made from one connection info.
#[derive(Debug)]
pub struct InfluxDBConnectionManager {
    info: InfluxDBConnectionInfo,
}

impl View for InfluxDBConnectionManager {
    type V = InfluxDBConnectionInfoView;

    closed spec fn view(&self) -> InfluxDBConnectionInfoView {
        self.info@
    }
}

impl InfluxDBConnectionManager {
    /// A manager for the connection info that `params` converts into.
    pub fn new<T: Into<InfluxDBConnectionInfo>>(params: T) -> (manager: InfluxDBConnectionManager)
        ensures
            T::obeys_into_spec() ==> manager@ == params.into_spec()@,
    {
        InfluxDBConnectionManager { info: params.into() }
    }

    /// A manager for a ready connection info.
    pub fn from_info(info: InfluxDBConnectionInfo) -> (manager: InfluxDBConnectionManager)
        ensures
            manager@ == info@,
    {
        InfluxDBConnectionManager { info }
    }

    /// The connection info new connections are made from.
    pub fn info(&self) -> (info: &InfluxDBConnectionInfo)
        ensures
            info@ == self@,
    {
        &self.info
    }
}

/// Converting an [`AuthInfo`] keeps its server, database and credentials,
/// and marks the connection as authenticating.
pub proof fn lemma_from_auth_info(item: AuthInfo)
    ensures
        <InfluxDBConnectionInfo as FromSpec<AuthInfo>>::obeys_from_spec(),
        <InfluxDBConnectionInfo as FromSpec<AuthInfo>>::from_spec(item)@ == InfluxDBConnectionInfo::view_of_auth(item),
        InfluxDBConnectionInfo::credentials_of(<InfluxDBConnectionInfo as FromSpec<AuthInfo>>::from_spec(item)@)
            == Some((item.username@, item.password@)),
{
}

} // verus!
