//! The S3 operations on generated scripts: where a script is stored, what is
//! asked of S3 to upload, delete and look for it, and what the replies mean.

use super::reply::Reply;
use crate::error::{outcome_text, PluginError};
use vstd::prelude::*;

verus! {

/// A bucket, and the prefix of the keys under which scripts are stored in it.
#[derive(Debug)]
pub struct S3ScriptOps {
    pub script_bucket: String,
    pub script_prefix: String,
}

/// The name of an object in S3.
#[derive(Debug)]
pub struct ObjectName {
    pub bucket: String,
    pub key: String,
}

/// A `PutObject` request.
#[derive(Debug)]
pub struct PutObject {
    pub object: ObjectName,
    pub body: String,
    pub content_type: String,
}

impl View for ObjectName {
    type V = (Seq<char>, Seq<char>);

    open spec fn view(&self) -> (Seq<char>, Seq<char>) {
        (self.bucket@, self.key@)
    }
}

/// The URI of an object.
pub open spec fn s3_uri(bucket: Seq<char>, key: Seq<char>) -> Seq<char> {
    "s3://"@ + bucket + "/"@ + key
}

/// The key of the script of a job: the prefix, one slash between prefix and name
/// where there is a prefix, the name of the job and ".py".
pub open spec fn script_key_text(prefix: Seq<char>, job_name: Seq<char>) -> Seq<char> {
    if prefix.len() == 0 {
        job_name + ".py"@
    } else if prefix.last() == '/' {
        prefix + job_name + ".py"@
    } else {
        prefix + "/"@ + job_name + ".py"@
    }
}

/// The URI of an object.
pub fn object_uri(bucket: &str, key: &str) -> (uri: String)
    ensures
        uri@ == s3_uri(bucket@, key@),
{
    "s3://".to_owned().concat(bucket).concat("/").concat(key)
}

/// Whether the text ends in a slash.
fn ends_in_slash(text: &str) -> (ends: bool)
    ensures
        ends == (text@.len() > 0 && text@.last() == '/'),
{
    let mut last: Option<char> = None;
    for c in it: text.chars()
        invariant
            it.seq() == text@,
            it.index() == 0 ==> last is None,
            it.index() > 0 ==> last == Some(text@[it.index() - 1]),
    {
        last = Some(c);
    }
    match last {
        Some(c) => c == '/',
        None => false,
    }
}

impl S3ScriptOps {
    /// The key of the script of a job.
    pub open spec fn key_of(self, job_name: Seq<char>) -> Seq<char> {
        script_key_text(self.script_prefix@, job_name)
    }

    /// The URI of the script of a job.
    pub open spec fn uri_of(self, job_name: Seq<char>) -> Seq<char> {
        s3_uri(self.script_bucket@, self.key_of(job_name))
    }

    /// Builds the key of the script of a job.
    ///
    /// `scripts/` and `my_job` give `scripts/my_job.py`, and so do `scripts` and
    /// `my_job`.
    pub fn script_key(&self, job_name: &str) -> (key: String)
        ensures
            key@ == self.key_of(job_name@),
    {
        if self.script_prefix.as_str().is_empty() {
            job_name.to_owned().concat(".py")
        } else if ends_in_slash(self.script_prefix.as_str()) {
            self.script_prefix.clone().concat(job_name).concat(".py")
        } else {
            self.script_prefix.clone().concat("/").concat(job_name).concat(".py")
        }
    }

    /// The request that uploads the script of a job.
    pub fn upload_script(&self, job_name: &str, artifact: &str) -> (request: PutObject)
        ensures
            request.object@ == (self.script_bucket@, self.key_of(job_name@)),
            request.body@ == artifact@,
            request.content_type@ == "text/x-python"@,
    {
        PutObject {
            object: ObjectName {
                bucket: self.script_bucket.clone(),
                key: self.script_key(job_name),
            },
            body: artifact.to_owned(),
            content_type: "text/x-python".to_owned(),
        }
    }

    /// What an upload comes to: the URI of the script, or an error that names
    /// it.
    pub fn upload_outcome(&self, job_name: &str, reply: Reply) -> (outcome: Result<
        String,
        PluginError,
    >)
        ensures
            outcome_text(outcome) == if reply == Reply::Done {
                Ok::<Seq<char>, Seq<char>>(self.uri_of(job_name@))
            } else {
                Err("Failed to upload script to "@ + self.uri_of(job_name@))
            },
    {
        let uri: String = object_uri(
            self.script_bucket.as_str(),
            self.script_key(job_name).as_str(),
        );
        if reply == Reply::Done {
            Ok(uri)
        } else {
            Err(PluginError::new("Failed to upload script to ".to_owned().concat(uri.as_str())))
        }
    }

    /// The object that a deletion of the script of a job names.
    pub fn delete_script(&self, job_name: &str) -> (object: ObjectName)
        ensures
            object@ == (self.script_bucket@, self.key_of(job_name@)),
    {
        ObjectName { bucket: self.script_bucket.clone(), key: self.script_key(job_name) }
    }

    /// What a deletion comes to: an error names the script.
    pub fn delete_outcome(&self, job_name: &str, reply: Reply) -> (outcome: Result<(), PluginError>)
        ensures
            outcome is Ok <==> reply == Reply::Done,
            outcome matches Err(error) ==> error@ == "Failed to delete script at "@ + self.uri_of(
                job_name@,
            ),
    {
        if reply == Reply::Done {
            return Ok(());
        }
        let uri: String = object_uri(
            self.script_bucket.as_str(),
            self.script_key(job_name).as_str(),
        );
        Err(PluginError::new("Failed to delete script at ".to_owned().concat(uri.as_str())))
    }

    /// The object that a look for `key` in the bucket names.
    pub fn s3_object_exists(&self, key: &str) -> (object: ObjectName)
        ensures
            object@ == (self.script_bucket@, key@),
    {
        ObjectName { bucket: self.script_bucket.clone(), key: key.to_owned() }
    }
}

/// What a look for an object comes to: whether it exists, or an error that names
/// the key where the call failed for another reason than that.
pub fn object_exists_outcome(key: &str, reply: Reply) -> (outcome: Result<bool, PluginError>)
    ensures
        outcome is Err <==> reply == Reply::Failed,
        outcome matches Ok(exists) ==> exists == (reply == Reply::Done),
        outcome matches Err(error) ==> error@ == "Failed to check S3 object: "@ + key@,
{
    match reply {
        Reply::Done => Ok(true),
        Reply::NotFound => Ok(false),
        Reply::Failed => Err(PluginError::new("Failed to check S3 object: ".to_owned().concat(key))),
    }
}

/// A prefix with a slash at its end and the same prefix without it give one key.
pub proof fn trailing_slash_is_optional(prefix: Seq<char>, job_name: Seq<char>)
    requires
        prefix.len() > 0,
        prefix.last() != '/',
    ensures
        script_key_text(prefix, job_name) == script_key_text(prefix + "/"@, job_name),
{
    reveal_strlit("/");
    assert((prefix + "/"@).last() == '/');
}

/// Under one prefix, two jobs with different names have different keys.
pub proof fn script_keys_differ(prefix: Seq<char>, one: Seq<char>, other: Seq<char>)
    requires
        script_key_text(prefix, one) == script_key_text(prefix, other),
    ensures
        one == other,
{
    let head = if prefix.len() == 0 {
        prefix
    } else if prefix.last() == '/' {
        prefix
    } else {
        prefix + "/"@
    };
    let a = script_key_text(prefix, one);
    let b = script_key_text(prefix, other);
    assert(a =~= head + one + ".py"@);
    assert(b =~= head + other + ".py"@);
    assert(one.len() == other.len());
    assert(one =~= a.subrange(head.len() as int, (head.len() + one.len()) as int));
    assert(other =~= b.subrange(head.len() as int, (head.len() + other.len()) as int));
}

} // verus!
