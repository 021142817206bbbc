//! The URIs of objects in S3.

use crate::aws::s3::s3_uri;
use crate::text::{chars_of, find, find_from, find_is_first, find_unique};
use vstd::prelude::*;

verus! {

/// `uri` names the object `key` in `bucket`: neither is empty, and the first
/// slash after the scheme ends the bucket.
pub open spec fn names_object(uri: Seq<char>, bucket: Seq<char>, key: Seq<char>) -> bool {
    &&& uri == s3_uri(bucket, key)
    &&& bucket.len() > 0
    &&& !bucket.contains('/')
    &&& key.len() > 0
}

/// The bucket and the key that a URI names, where it names an object.
pub open spec fn parsed_uri(uri: Seq<char>) -> Option<(Seq<char>, Seq<char>)> {
    if uri.len() >= 5 && uri.take(5) == "s3://"@ {
        let rest = uri.skip(5);
        let at = find(rest, '/') as int;
        if 0 < at && at + 1 < rest.len() {
            Some((rest.take(at), rest.skip(at + 1)))
        } else {
            None
        }
    } else {
        None
    }
}

/// The parts of a parsed URI, as texts.
pub open spec fn uri_texts(parsed: Option<(&str, &str)>) -> Option<(Seq<char>, Seq<char>)> {
    match parsed {
        Some((bucket, key)) => Some((bucket@, key@)),
        None => None,
    }
}

/// Parses an S3 URI (`s3://bucket/key`) into bucket and key.
pub fn parse_s3_uri<'a>(uri: &'a str) -> (parsed: Option<(&'a str, &'a str)>)
    ensures
        uri_texts(parsed) == parsed_uri(uri@),
{
    let chars: Vec<char> = chars_of(uri);
    proof {
        reveal_strlit("s3://");
    }
    if chars.len() < 5 || chars[0] != 's' || chars[1] != '3' || chars[2] != ':' || chars[3] != '/'
        || chars[4] != '/' {
        proof {
            if chars@.len() >= 5 {
                let head = uri@.take(5);
                assert(head[0] == chars@[0] && head[1] == chars@[1] && head[2] == chars@[2]
                    && head[3] == chars@[3] && head[4] == chars@[4]);
                assert(head != "s3://"@);
            }
        }
        return None;
    }
    proof {
        assert(uri@.take(5) =~= "s3://"@);
    }
    let slash: usize = find_from(&chars, 5, '/');
    if slash == 5 || slash >= chars.len() - 1 {
        return None;
    }
    let ghost rest = uri@.skip(5);
    proof {
        assert(rest.take(slash - 5) =~= uri@.subrange(5, slash as int));
        assert(rest.skip(slash - 4) =~= uri@.subrange(slash + 1, uri@.len() as int));
    }
    let bucket: &'a str = uri.substring_char(5, slash);
    let key: &'a str = uri.substring_char(slash + 1, chars.len());
    Some((bucket, key))
}

/// A URI parses into a bucket and a key exactly when it names that object; so it
/// names one object at most.
pub proof fn parses_what_it_names(uri: Seq<char>, bucket: Seq<char>, key: Seq<char>)
    ensures
        parsed_uri(uri) == Some((bucket, key)) <==> names_object(uri, bucket, key),
{
    reveal_strlit("s3://");
    reveal_strlit("/");
    if names_object(uri, bucket, key) {
        let rest = uri.skip(5);
        assert(uri.take(5) =~= "s3://"@);
        assert(rest =~= bucket + "/"@ + key);
        assert forall|i: int| 0 <= i < bucket.len() implies rest[i] != '/' by {
            assert(rest[i] == bucket[i]);
        }
        find_unique(rest, '/', bucket.len() as int);
        assert(rest.take(bucket.len() as int) =~= bucket);
        assert(rest.skip(bucket.len() as int + 1) =~= key);
    }
    if parsed_uri(uri) == Some((bucket, key)) {
        let rest = uri.skip(5);
        let at = find(rest, '/') as int;
        find_is_first(rest, '/');
        assert(rest =~= rest.take(at) + "/"@ + rest.skip(at + 1));
        assert(uri =~= uri.take(5) + rest);
        assert(uri =~= s3_uri(bucket, key));
    }
}

} // verus!
