use vstd::prelude::*;
use crate::env::{env_value, Environment};
use crate::text::{escape_quotes, escaped};
use crate::web_url::{joined_url, parsed_url, WebUrl};

verus! {

/// Matrix notification, sent as an `m.room.message` event of type `m.text`.
#[derive(Clone, PartialEq, Eq)]
pub struct Matrix {
    pub homeserver: WebUrl,
    pub room_id: String,
    pub access_token: String,
}

/// The value of a `Matrix` configuration.
pub struct MatrixView {
    pub homeserver: Seq<char>,
    pub room_id: Seq<char>,
    pub access_token: Seq<char>,
}

impl View for Matrix {
    type V = MatrixView;

    open spec fn view(&self) -> MatrixView {
        MatrixView {
            homeserver: self.homeserver@,
            room_id: self.room_id@,
            access_token: self.access_token@,
        }
    }
}

/// The path that sends a message to a room, relative to the homeserver. The
/// room id and the token are inserted as they are.
pub open spec fn message_path_of(room_id: Seq<char>, access_token: Seq<char>) -> Seq<char> {
    "/_matrix/client/r0/rooms/"@ + room_id + "/send/m.room.message?access_token="@ + access_token
}

/// The JSON body of a text message; only double quotes are escaped.
pub open spec fn matrix_payload(text: Seq<char>) -> Seq<char> {
    "{\"msgtype\":\"m.text\",\"body\":\""@ + escaped(text) + "\"}"@
}

/// The Matrix configuration that an environment describes: a homeserver
/// that is a URL, a room id and an access token, all three or none.
pub open spec fn matrix_config(env: Seq<(Seq<char>, Seq<char>)>) -> Option<MatrixView> {
    match env_value(env, "MATRIX_HOMESERVER"@) {
        None => None,
        Some(h) => match parsed_url(h) {
            None => None,
            Some(homeserver) => match env_value(env, "MATRIX_ROOM_ID"@) {
                None => None,
                Some(room_id) => match env_value(env, "MATRIX_ACCESS_TOKEN"@) {
                    None => None,
                    Some(access_token) => Some(MatrixView { homeserver, room_id, access_token }),
                },
            },
        },
    }
}

/// The path that sends a message to the room `room_id`.
pub fn message_path(room_id: &str, access_token: &str) -> (r: String)
    ensures
        r@ == message_path_of(room_id@, access_token@),
{
    let mut r = "/_matrix/client/r0/rooms/".to_owned();
    r.append(room_id);
    r.append("/send/m.room.message?access_token=");
    r.append(access_token);
    r
}

/// The JSON body that carries `text`.
pub fn payload_to_json(text: &str) -> (r: String)
    ensures
        r@ == matrix_payload(text@),
{
    let mut r = "{\"msgtype\":\"m.text\",\"body\":\"".to_owned();
    let body = escape_quotes(text);
    r.append(body.as_str());
    r.append("\"}");
    r
}

impl Matrix {
    /// The address that a message is posted to: the message path resolved
    /// against the homeserver; `None` where the URL parser rejects it.
    pub fn generate_url(&self) -> (r: Option<WebUrl>)
        ensures
            r is Some <==> joined_url(
                self.homeserver@,
                message_path_of(self.room_id@, self.access_token@),
            ) is Some,
            r matches Some(u) ==> Some(u@) == joined_url(
                self.homeserver@,
                message_path_of(self.room_id@, self.access_token@),
            ),
    {
        let path = message_path(self.room_id.as_str(), self.access_token.as_str());
        self.homeserver.join(path.as_str())
    }

    /// Loads the configuration from `MATRIX_HOMESERVER`, `MATRIX_ROOM_ID`
    /// and `MATRIX_ACCESS_TOKEN`.
    pub fn from_env(env: &Environment) -> (r: Option<Matrix>)
        ensures
            match matrix_config(env@) {
                Some(c) => r matches Some(t) && t@ == c,
                None => r is None,
            },
    {
        let homeserver = match env.get("MATRIX_HOMESERVER") {
            Some(h) => match WebUrl::parse(h.as_str()) {
                Some(u) => u,
                None => return None,
            },
            None => return None,
        };
        let room_id = match env.get("MATRIX_ROOM_ID") {
            Some(v) => v,
            None => return None,
        };
        let access_token = match env.get("MATRIX_ACCESS_TOKEN") {
            Some(v) => v,
            None => return None,
        };
        Some(Matrix { homeserver, room_id, access_token })
    }

    /// A copy of this configuration.
    pub fn duplicate(&self) -> (r: Matrix)
        ensures
            r@ == self@,
    {
        Matrix {
            homeserver: self.homeserver.duplicate(),
            room_id: self.room_id.clone(),
            access_token: self.access_token.clone(),
        }
    }
}

} // verus!
