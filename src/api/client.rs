use vstd::prelude::*;

verus! {

/// The four OAuth1 secrets that identify the caller to the remote API.
/// They are fixed when the client is built and never change afterwards.
#[derive(Debug)]
pub struct TweetyClient {
    pub(crate) consumer_key: String,
    pub(crate) access_token: String,
    pub(crate) consumer_key_secret: String,
    pub(crate) access_token_secret: String,
}

/// The secrets of a client, as text.
pub ghost struct Credentials {
    pub consumer_key: Seq<char>,
    pub access_token: Seq<char>,
    pub consumer_key_secret: Seq<char>,
    pub access_token_secret: Seq<char>,
}

impl Credentials {
    /// All four secrets are non-empty.
    pub open spec fn complete(self) -> bool {
        self.consumer_key.len() > 0 && self.access_token.len() > 0
            && self.consumer_key_secret.len() > 0 && self.access_token_secret.len() > 0
    }
}

impl View for TweetyClient {
    type V = Credentials;

    closed spec fn view(&self) -> Credentials {
        Credentials {
            consumer_key: self.consumer_key@,
            access_token: self.access_token@,
            consumer_key_secret: self.consumer_key_secret@,
            access_token_secret: self.access_token_secret@,
        }
    }
}

impl TweetyClient {
    /// All four secrets are non-empty.
    pub open spec fn initialized(&self) -> bool {
        self@.complete()
    }

    /// Creates a client holding copies of the given credentials.
    pub fn new(
        consumer_key: &str,
        access_token: &str,
        consumer_key_secret: &str,
        access_token_secret: &str,
    ) -> (r: Self)
        ensures
            r@ == (Credentials {
                consumer_key: consumer_key@,
                access_token: access_token@,
                consumer_key_secret: consumer_key_secret@,
                access_token_secret: access_token_secret@,
            }),
    {
        TweetyClient {
            consumer_key: consumer_key.to_owned(),
            access_token: access_token.to_owned(),
            consumer_key_secret: consumer_key_secret.to_owned(),
            access_token_secret: access_token_secret.to_owned(),
        }
    }

    /// Whether every one of the four secrets is non-empty.
    pub fn is_initialized(&self) -> (r: bool)
        ensures
            r == self.initialized(),
    {
        !self.consumer_key.as_str().is_empty() && !self.access_token.as_str().is_empty()
            && !self.consumer_key_secret.as_str().is_empty() && !self.access_token_secret.as_str().is_empty()
    }

    /// The OAuth consumer key.
    pub fn consumer_key(&self) -> (r: &str)
        ensures
            r@ == self@.consumer_key,
    {
        self.consumer_key.as_str()
    }

    /// The OAuth access token.
    pub fn access_token(&self) -> (r: &str)
        ensures
            r@ == self@.access_token,
    {
        self.access_token.as_str()
    }

    /// The OAuth consumer key secret.
    pub fn consumer_key_secret(&self) -> (r: &str)
        ensures
            r@ == self@.consumer_key_secret,
    {
        self.consumer_key_secret.as_str()
    }

    /// The OAuth access token secret.
    pub fn access_token_secret(&self) -> (r: &str)
        ensures
            r@ == self@.access_token_secret,
    {
        self.access_token_secret.as_str()
    }
}

} // verus!
