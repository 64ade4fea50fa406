//! The keys with which the feed is read.

use vstd::prelude::*;

verus! {

/// The consumer key pair of the application and the access key pair of the
/// account that reads the feed.
#[derive(Debug)]
pub struct Credentials {
    pub consumer_key: String,
    pub consumer_secret: String,
    pub access_key: String,
    pub access_secret: String,
}

/// The two lines by which an access key pair is kept for later runs.
pub open spec fn env_lines(access_key: Seq<char>, access_secret: Seq<char>) -> Seq<char> {
    "TWITTER_ACCESS_KEY="@ + access_key + "\nTWITTER_ACCESS_SECRET="@ + access_secret + "\n"@
}

impl Credentials {
    /// The credentials made of the four keys.
    pub fn new(
        consumer_key: String,
        consumer_secret: String,
        access_token_key: String,
        access_token_secret: String,
    ) -> (credentials: Credentials)
        ensures
            credentials.consumer_key@ == consumer_key@,
            credentials.consumer_secret@ == consumer_secret@,
            credentials.access_key@ == access_token_key@,
            credentials.access_secret@ == access_token_secret@,
    {
        Credentials {
            consumer_key,
            consumer_secret,
            access_key: access_token_key,
            access_secret: access_token_secret,
        }
    }

    /// The credentials of an application that is registered already: both
    /// halves of the access key pair are at hand. With either missing there
    /// are none, and the access key pair has to be asked for first.
    pub fn registered(
        consumer_key: &str,
        consumer_secret: &str,
        access_key: Option<&str>,
        access_secret: Option<&str>,
    ) -> (credentials: Option<Credentials>)
        ensures
            credentials is Some <==> access_key is Some && access_secret is Some,
            credentials matches Some(c) ==> {
                &&& c.consumer_key@ == consumer_key@
                &&& c.consumer_secret@ == consumer_secret@
                &&& c.access_key@ == access_key->0@
                &&& c.access_secret@ == access_secret->0@
            },
    {
        match (access_key, access_secret) {
            (Some(key), Some(secret)) => Some(
                Credentials::new(
                    String::from_str(consumer_key),
                    String::from_str(consumer_secret),
                    String::from_str(key),
                    String::from_str(secret),
                ),
            ),
            _ => None,
        }
    }

    /// The lines to add to the environment file so that later runs find the
    /// access key pair.
    pub fn env_hint(&self) -> (lines: String)
        ensures
            lines@ == env_lines(self.access_key@, self.access_secret@),
    {
        let mut lines = String::from_str("TWITTER_ACCESS_KEY=");
        lines.append(self.access_key.as_str());
        lines.append("\nTWITTER_ACCESS_SECRET=");
        lines.append(self.access_secret.as_str());
        lines.append("\n");
        lines
    }
}

} // verus!
