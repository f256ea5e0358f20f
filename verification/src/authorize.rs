//! Credentials and session authorization: the credential builder, the header
//! roles of the authorization call, the call's request value, and the session
//! produced from the service's answer.
use crate::encode::{json_quoted, json_string};
use crate::error::LinkError;
use crate::request::{header_pair, HttpRequest, Method};
use vstd::prelude::*;

verus! {

/// A complete credential: five required fields, immutable once built.
#[derive(Debug)]
pub struct User {
    pub api_key: String,
    pub partition: String,
    pub name: String,
    pub password: String,
    pub host: String,
}

impl User {
    /// Starts an empty [`UserBuilder`].
    pub fn new() -> (r: UserBuilder)
        ensures
            r.api_key is None,
            r.partition is None,
            r.name is None,
            r.password is None,
            r.host is None,
    {
        UserBuilder::new()
    }
}

impl Clone for User {
    fn clone(&self) -> (r: Self)
        ensures
            r == *self,
    {
        User {
            api_key: self.api_key.clone(),
            partition: self.partition.clone(),
            name: self.name.clone(),
            password: self.password.clone(),
            host: self.host.clone(),
        }
    }
}

/// Accumulates the credential fields one by one; [`UserBuilder::build`]
/// checks that none is missing.
#[derive(Debug)]
pub struct UserBuilder {
    pub api_key: Option<String>,
    pub partition: Option<String>,
    pub name: Option<String>,
    pub password: Option<String>,
    pub host: Option<String>,
}

/// Whether every credential field has been supplied.
pub open spec fn builder_complete(b: UserBuilder) -> bool {
    b.api_key is Some && b.partition is Some && b.name is Some && b.password is Some
        && b.host is Some
}

/// The names of the missing credential fields, in their fixed declaration
/// order regardless of the order the others were supplied in.
pub open spec fn missing_fields(b: UserBuilder) -> Seq<Seq<char>> {
    let s = Seq::<Seq<char>>::empty();
    let s = if b.api_key is None {
        s.push("api_key"@)
    } else {
        s
    };
    let s = if b.partition is None {
        s.push("partition"@)
    } else {
        s
    };
    let s = if b.name is None {
        s.push("name"@)
    } else {
        s
    };
    let s = if b.password is None {
        s.push("password"@)
    } else {
        s
    };
    if b.host is None {
        s.push("host"@)
    } else {
        s
    }
}

impl UserBuilder {
    /// An empty builder with no field supplied yet.
    pub fn new() -> (r: Self)
        ensures
            r.api_key is None,
            r.partition is None,
            r.name is None,
            r.password is None,
            r.host is None,
    {
        UserBuilder {
            api_key: None,
            partition: None,
            name: None,
            password: None,
            host: None,
        }
    }

    /// Supplies the service API key.
    pub fn api_key(&mut self, value: &str)
        ensures
            final(self).api_key matches Some(v) && v@ == value@,
            final(self).partition == old(self).partition,
            final(self).name == old(self).name,
            final(self).password == old(self).password,
            final(self).host == old(self).host,
    {
        self.api_key = Some(value.to_owned());
    }

    /// Supplies the partition number.
    pub fn partition(&mut self, value: &str)
        ensures
            final(self).partition matches Some(v) && v@ == value@,
            final(self).api_key == old(self).api_key,
            final(self).name == old(self).name,
            final(self).password == old(self).password,
            final(self).host == old(self).host,
    {
        self.partition = Some(value.to_owned());
    }

    /// Supplies the account name.
    pub fn name(&mut self, value: &str)
        ensures
            final(self).name matches Some(v) && v@ == value@,
            final(self).api_key == old(self).api_key,
            final(self).partition == old(self).partition,
            final(self).password == old(self).password,
            final(self).host == old(self).host,
    {
        self.name = Some(value.to_owned());
    }

    /// Supplies the account password.
    pub fn password(&mut self, value: &str)
        ensures
            final(self).password matches Some(v) && v@ == value@,
            final(self).api_key == old(self).api_key,
            final(self).partition == old(self).partition,
            final(self).name == old(self).name,
            final(self).host == old(self).host,
    {
        self.password = Some(value.to_owned());
    }

    /// Supplies the account's host domain.
    pub fn host(&mut self, value: &str)
        ensures
            final(self).host matches Some(v) && v@ == value@,
            final(self).api_key == old(self).api_key,
            final(self).partition == old(self).partition,
            final(self).name == old(self).name,
            final(self).password == old(self).password,
    {
        self.host = Some(value.to_owned());
    }

    /// Checks all five fields at once: a complete builder yields the
    /// credential with exactly the supplied values, an incomplete one the
    /// ordered list of every missing field name.  No partial credential is
    /// ever produced.
    pub fn build(&self) -> (r: Result<User, LinkError>)
        ensures
            builder_complete(*self) <==> r is Ok,
            r matches Ok(u) ==> {
                &&& Some(u.api_key) == self.api_key
                &&& Some(u.partition) == self.partition
                &&& Some(u.name) == self.name
                &&& Some(u.password) == self.password
                &&& Some(u.host) == self.host
            },
            r matches Err(e) ==> e matches LinkError::UserBuildError { value }
                && value.deep_view() == missing_fields(*self),
    {
        let mut fields: Vec<String> = Vec::new();
        if self.api_key.is_none() {
            fields.push("api_key".to_owned());
        }
        if self.partition.is_none() {
            fields.push("partition".to_owned());
        }
        if self.name.is_none() {
            fields.push("name".to_owned());
        }
        if self.password.is_none() {
            fields.push("password".to_owned());
        }
        if self.host.is_none() {
            fields.push("host".to_owned());
        }
        proof {
            assert(fields.deep_view() =~~= missing_fields(*self));
        }
        match (&self.api_key, &self.partition, &self.name, &self.password, &self.host) {
            (Some(api_key), Some(partition), Some(name), Some(password), Some(host)) => Ok(
                User {
                    api_key: api_key.clone(),
                    partition: partition.clone(),
                    name: name.clone(),
                    password: password.clone(),
                    host: host.clone(),
                },
            ),
            _ => Err(LinkError::UserBuildError { value: fields }),
        }
    }
}

impl Default for UserBuilder {
    /// An empty builder, as [`UserBuilder::new`] yields.
    fn default() -> (r: Self)
        ensures
            r.api_key is None,
            r.partition is None,
            r.name is None,
            r.password is None,
            r.host is None,
    {
        UserBuilder::new()
    }
}

/// The wire names of the two headers that carry the credential on the
/// authorization call.
#[derive(Debug)]
pub struct AuthorizeHeaders {
    pub api_key: String,
    pub partition: String,
}

impl AuthorizeHeaders {
    /// Header names chosen by the caller, for services that depart from the
    /// default wire names.
    pub fn new(api_key: &str, partition: &str) -> (r: Self)
        ensures
            r.api_key@ == api_key@,
            r.partition@ == partition@,
    {
        AuthorizeHeaders { api_key: api_key.to_owned(), partition: partition.to_owned() }
    }

    /// The wire name of the API key header.
    pub fn api_key(self) -> (r: String)
        ensures
            r == self.api_key,
    {
        self.api_key
    }

    /// The wire name of the partition header.
    pub fn partition(self) -> (r: String)
        ensures
            r == self.partition,
    {
        self.partition
    }
}

impl Clone for AuthorizeHeaders {
    fn clone(&self) -> (r: Self)
        ensures
            r == *self,
    {
        AuthorizeHeaders { api_key: self.api_key.clone(), partition: self.partition.clone() }
    }
}

impl Default for AuthorizeHeaders {
    /// The service's default wire names.
    fn default() -> (r: Self)
        ensures
            r.api_key@ == "apikey"@,
            r.partition@ == "partition"@,
    {
        AuthorizeHeaders { api_key: "apikey".to_owned(), partition: "partition".to_owned() }
    }
}

/// The account name qualified by its host, as the authorization body sends
/// it.
pub open spec fn auth_username(u: User) -> Seq<char> {
    u.name@ + "@"@ + u.host@
}

/// The JSON body of the authorization call.
pub open spec fn auth_body(u: User) -> Seq<char> {
    "{\"Username\":"@ + json_quoted(auth_username(u)) + ",\"Password\":"@ + json_quoted(u.password@)
        + "}"@
}

/// The header pairs of the authorization call, in the order they are sent.
pub open spec fn auth_headers(info: AuthorizeInfo) -> Seq<(Seq<char>, Seq<char>)> {
    seq![
        ("content-type"@, "application/json"@),
        ("accept"@, "application/json"@),
        (info.headers.api_key@, info.user.api_key@),
        (info.headers.partition@, info.user.partition@),
    ]
}

/// A credential together with the header names used to present it.
#[derive(Debug)]
pub struct AuthorizeInfo {
    pub user: User,
    pub headers: AuthorizeHeaders,
}

impl AuthorizeInfo {
    /// Binds a credential to a set of authorization header names.
    pub fn new(user: &User, headers: AuthorizeHeaders) -> (r: Self)
        ensures
            r.user == *user,
            r.headers == headers,
    {
        AuthorizeInfo { user: user.clone(), headers }
    }

    /// The authorization call: a POST of the qualified account name and the
    /// password, with the credential carried in the configured headers.
    pub fn request(&self, url: &str) -> (r: HttpRequest)
        ensures
            r.method == Method::Post,
            r.url@ == url@,
            r.headers.deep_view() == auth_headers(*self),
            r.body matches Some(b) && b@ == auth_body(self.user),
    {
        let mut username = self.user.name.clone();
        username.append("@");
        username.append(self.user.host.as_str());
        let mut body = String::new();
        body.append("{\"Username\":");
        let quoted_name = json_string(username.as_str());
        body.append(quoted_name.as_str());
        body.append(",\"Password\":");
        let quoted_password = json_string(self.user.password.as_str());
        body.append(quoted_password.as_str());
        body.append("}");
        let mut headers: Vec<(String, String)> = Vec::new();
        headers.push(header_pair("content-type", "application/json"));
        headers.push(header_pair("accept", "application/json"));
        headers.push(header_pair(self.headers.api_key.as_str(), self.user.api_key.as_str()));
        headers.push(header_pair(self.headers.partition.as_str(), self.user.partition.as_str()));
        proof {
            assert(headers.deep_view() =~~= auth_headers(*self));
            assert(body@ =~= auth_body(self.user));
        }
        HttpRequest { method: Method::Post, url: url.to_owned(), headers, body: Some(body) }
    }
}

/// How the authorization answer is read: success is owed exactly on the
/// service's OK status, and any other status is one uniform authorization
/// failure, the body left unread.
pub fn accept_auth_status(status: u16) -> (r: Result<(), LinkError>)
    ensures
        r is Ok <==> status == 200,
        r matches Err(e) ==> e == LinkError::AuthError,
{
    if status == 200 {
        Ok(())
    } else {
        Err(LinkError::AuthError)
    }
}

/// The service's answer to the authorization call.  Its `api_key` field is
/// the freshly issued session id, distinct from the credential's own API key.
#[derive(Debug)]
pub struct AuthResponse {
    pub additional_info: String,
    pub success: bool,
    pub api_key: String,
    pub user_id: i32,
    pub message: String,
}

impl AuthResponse {
    /// Assembles an answer value; the binary fills it from the decoded wire
    /// body.
    pub fn new(
        additional_info: &str,
        success: bool,
        api_key: &str,
        user_id: i32,
        message: &str,
    ) -> (r: Self)
        ensures
            r.additional_info@ == additional_info@,
            r.success == success,
            r.api_key@ == api_key@,
            r.user_id == user_id,
            r.message@ == message@,
    {
        AuthResponse {
            additional_info: additional_info.to_owned(),
            success,
            api_key: api_key.to_owned(),
            user_id,
            message: message.to_owned(),
        }
    }

    /// The answer's additional information text.
    pub fn info(&self) -> (r: String)
        ensures
            r == self.additional_info,
    {
        self.additional_info.clone()
    }

    /// Whether the service reported success.
    pub fn success(&self) -> (r: bool)
        ensures
            r == self.success,
    {
        self.success
    }

    /// The issued session id.
    pub fn api_key(&self) -> (r: String)
        ensures
            r == self.api_key,
    {
        self.api_key.clone()
    }

    /// The numeric account id.
    pub fn id(&self) -> (r: i32)
        ensures
            r == self.user_id,
    {
        self.user_id
    }

    /// The answer's message text.
    pub fn message(&self) -> (r: String)
        ensures
            r == self.message,
    {
        self.message.clone()
    }
}

impl Clone for AuthResponse {
    fn clone(&self) -> (r: Self)
        ensures
            r == *self,
    {
        AuthResponse {
            additional_info: self.additional_info.clone(),
            success: self.success,
            api_key: self.api_key.clone(),
            user_id: self.user_id,
            message: self.message.clone(),
        }
    }
}

/// The credential carried on every call after authorization: the original
/// API key and partition, plus the issued session id.
#[derive(Debug)]
pub struct AuthorizedUser {
    pub api_key: String,
    pub partition: String,
    pub user_api_key: String,
}

impl AuthorizedUser {
    /// Combines the credential with the session id from the authorization
    /// answer.
    pub fn new(user: &User, auth: &AuthResponse) -> (r: Self)
        ensures
            r.api_key == user.api_key,
            r.partition == user.partition,
            r.user_api_key == auth.api_key,
    {
        AuthorizedUser {
            api_key: user.api_key.clone(),
            partition: user.partition.clone(),
            user_api_key: auth.api_key.clone(),
        }
    }

    /// The account's own API key.
    pub fn api_key(&self) -> (r: String)
        ensures
            r == self.api_key,
    {
        self.api_key.clone()
    }

    /// The account's partition number.
    pub fn partition(&self) -> (r: String)
        ensures
            r == self.partition,
    {
        self.partition.clone()
    }

    /// The session id issued for this invocation.
    pub fn user_api_key(&self) -> (r: String)
        ensures
            r == self.user_api_key,
    {
        self.user_api_key.clone()
    }
}

impl Clone for AuthorizedUser {
    fn clone(&self) -> (r: Self)
        ensures
            r == *self,
    {
        AuthorizedUser {
            api_key: self.api_key.clone(),
            partition: self.partition.clone(),
            user_api_key: self.user_api_key.clone(),
        }
    }
}

} // verus!
