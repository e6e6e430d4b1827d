use vstd::prelude::*;
use vstd::string::*;
use vstd::utf8::*;

use crate::dump::{object_name_of, SqlDump};

verus! {

/// The storage service's upload address for an object named `name` in
/// `bucket`, in media upload mode.
pub open spec fn storage_uri_of(bucket: Seq<char>, name: Seq<char>) -> Seq<char> {
    "https://www.googleapis.com/upload/storage/v1/b/"@ + bucket + "/o?uploadType=media&name="@
        + name
}

/// The `Authorization` header value that presents `token`.
pub open spec fn bearer_of(token: Seq<char>) -> Seq<char> {
    "Bearer "@ + token
}

/// One POST to the storage service: where it goes, its `Authorization`
/// header, and its body.
pub struct UploadRequest {
    pub url: String,
    pub authorization: String,
    pub body: String,
}

/// Uploads one dump to one bucket.
pub struct GcsClient {
    pub bucket: String,
    pub oauth_token: String,
    pub dump: SqlDump,
}

impl GcsClient {
    pub fn new(bucket: String, oauth_token: String, dump: SqlDump) -> (r: GcsClient)
        ensures
            r.bucket == bucket,
            r.oauth_token == oauth_token,
            r.dump == dump,
    {
        GcsClient { bucket, oauth_token, dump }
    }

    /// The upload address: the bucket's object path, with the dump's
    /// object name.
    pub fn build_storage_uri(&self) -> (r: String)
        requires
            self.dump.wf(),
        ensures
            r@ == storage_uri_of(self.bucket@, object_name_of(self.dump.timestamp as int)),
    {
        let mut uri = "https://www.googleapis.com/upload/storage/v1/b/".to_owned();
        uri.append(self.bucket.as_str());
        uri.append("/o?uploadType=media&name=");
        let name = self.dump.object_name();
        uri.append(name.as_str());
        uri
    }

    /// The `Authorization` header value.
    pub fn authorization(&self) -> (r: String)
        ensures
            r@ == bearer_of(self.oauth_token@),
    {
        let mut value = "Bearer ".to_owned();
        value.append(self.oauth_token.as_str());
        value
    }

    /// The request that uploads the dump. Only a payload that is valid UTF-8
    /// is sent, and then as it is: the body's encoding is exactly the
    /// payload. Callers test `SqlDump::text` first.
    pub fn request(&self) -> (r: UploadRequest)
        requires
            self.dump.wf(),
            valid_utf8(self.dump.sql@),
        ensures
            r.url@ == storage_uri_of(self.bucket@, object_name_of(self.dump.timestamp as int)),
            r.authorization@ == bearer_of(self.oauth_token@),
            encode_utf8(r.body@) == self.dump.sql@,
    {
        let body = self.dump.to_str().to_owned();
        UploadRequest { url: self.build_storage_uri(), authorization: self.authorization(), body }
    }
}

} // verus!
