//! The verification of what a deployment made: one question per resource.

use super::deploy::{deployed_resources, script_uri_names_script};
use super::job::glue_job_exists;
use super::types::{
    resource_texts, status_texts, Resource, ResourceStatus, ResourceText, VerifyResponse,
};
use super::uri::{parse_s3_uri, parsed_uri};
use crate::aws::config::AwsSettings;
use crate::aws::reply::Reply;
use crate::aws::s3::{object_exists_outcome, s3_uri, script_key_text, ObjectName, S3ScriptOps};
use crate::error::PluginError;
use crate::text::same_text;
use vstd::prelude::*;

verus! {

/// How the existence of a resource is found out.
#[derive(Debug)]
pub enum Probe {
    /// By a look for the object in S3.
    Object(ObjectName),
    /// By a look for the Glue job.
    Job(String),
    /// Without a call.
    Settled(bool),
}

/// A probe as texts.
#[verifier::ext_equal]
pub enum ProbeText {
    Object(Seq<char>, Seq<char>),
    Job(Seq<char>),
    Settled(bool),
}

impl View for Probe {
    type V = ProbeText;

    open spec fn view(&self) -> ProbeText {
        match self {
            Probe::Object(object) => ProbeText::Object(object@.0, object@.1),
            Probe::Job(id) => ProbeText::Job(id@),
            Probe::Settled(exists) => ProbeText::Settled(*exists),
        }
    }
}

/// The probe of a resource. An object whose id names none does not exist; a
/// resource of a type that is not known counts as existing.
pub open spec fn probe_text(resource: ResourceText) -> ProbeText {
    if resource.resource_type == "s3_object"@ {
        match parsed_uri(resource.id) {
            Some((bucket, key)) => ProbeText::Object(bucket, key),
            None => ProbeText::Settled(false),
        }
    } else if resource.resource_type == "glue_job"@ {
        ProbeText::Job(resource.id)
    } else {
        ProbeText::Settled(true)
    }
}

/// What a reply says of the existence that a probe asks for, or the message on
/// a call that failed.
pub open spec fn existence(probe: ProbeText, reply: Reply) -> Result<bool, Seq<char>> {
    match probe {
        ProbeText::Settled(exists) => Ok(exists),
        ProbeText::Object(_, key) => match reply {
            Reply::Done => Ok(true),
            Reply::NotFound => Ok(false),
            Reply::Failed => Err("Failed to check S3 object: "@ + key),
        },
        ProbeText::Job(id) => match reply {
            Reply::Done => Ok(true),
            Reply::NotFound => Ok(false),
            Reply::Failed => Err("Failed to check Glue job: "@ + id),
        },
    }
}

/// Existence or an error message, as texts.
pub open spec fn existence_text(outcome: Result<bool, PluginError>) -> Result<bool, Seq<char>> {
    match outcome {
        Ok(exists) => Ok(exists),
        Err(error) => Err(error@),
    }
}

impl Probe {
    /// The probe of a resource.
    pub fn of(resource: &Resource) -> (probe: Probe)
        ensures
            probe@ == probe_text(resource@),
    {
        if same_text(resource.resource_type.as_str(), "s3_object") {
            match parse_s3_uri(resource.id.as_str()) {
                Some((bucket, key)) => {
                    let ops: S3ScriptOps = S3ScriptOps {
                        script_bucket: bucket.to_owned(),
                        script_prefix: String::new(),
                    };
                    Probe::Object(ops.s3_object_exists(key))
                },
                None => Probe::Settled(false),
            }
        } else if same_text(resource.resource_type.as_str(), "glue_job") {
            Probe::Job(resource.id.clone())
        } else {
            Probe::Settled(true)
        }
    }

    /// What the reply to the probe says. Where the probe makes no call, the
    /// reply does not matter.
    pub fn outcome(&self, reply: Reply) -> (outcome: Result<bool, PluginError>)
        ensures
            existence_text(outcome) == existence(self@, reply),
    {
        match self {
            Probe::Object(object) => object_exists_outcome(object.key.as_str(), reply),
            Probe::Job(id) => glue_job_exists(id.as_str(), reply),
            Probe::Settled(exists) => Ok(*exists),
        }
    }
}

/// A verification under way: the resources, the statuses of those that were asked
/// for so far, and whether a failed call ended it.
#[derive(Debug)]
pub struct Verification {
    pub settings: AwsSettings,
    pub resources: Vec<Resource>,
    pub statuses: Vec<ResourceStatus>,
    pub failed: bool,
}

impl Verification {
    /// The statuses are those of the first resources, in order; a call that ended
    /// the verification was for a resource after those.
    pub open spec fn wf(self) -> bool {
        &&& self.statuses@.len() <= self.resources@.len()
        &&& self.failed ==> self.statuses@.len() < self.resources@.len()
        &&& forall|i: int|
            0 <= i < self.statuses@.len() ==> (#[trigger] self.statuses@[i]).resource@
                == self.resources@[i]@
    }

    /// Whether a resource is still to be asked for.
    pub open spec fn is_under_way(self) -> bool {
        !self.failed && self.statuses@.len() < self.resources@.len()
    }

    /// The statuses so far are those that the replies give, one for each resource
    /// in order, and no call failed.
    pub open spec fn follows(self, replies: Seq<Reply>) -> bool {
        &&& !self.failed
        &&& verified(
            resource_texts(self.resources@).take(self.statuses@.len() as int),
            replies,
        ) == Ok::<Seq<(ResourceText, bool)>, Seq<char>>(status_texts(self.statuses@))
    }

    /// The probe that comes next, where one is left and no failed call ended the
    /// verification.
    pub fn probe(&self) -> (probe: Option<Probe>)
        requires
            self.wf(),
        ensures
            probe is Some <==> self.is_under_way(),
            self.failed ==> probe is None,
            probe matches Some(p) ==> p@ == probe_text(
                self.resources@[self.statuses@.len() as int]@,
            ),
    {
        let n: usize = self.statuses.len();
        if !self.failed && n < self.resources.len() {
            Some(Probe::of(&self.resources[n]))
        } else {
            None
        }
    }

    /// Takes the reply to the probe that came next. A call that failed ends the
    /// verification: no probe comes after it.
    pub fn step(&mut self, reply: Reply) -> (outcome: Result<(), PluginError>)
        requires
            old(self).wf(),
            old(self).is_under_way(),
        ensures
            final(self).wf(),
            final(self).settings == old(self).settings,
            final(self).resources == old(self).resources,
            outcome is Err <==> final(self).failed,
            ({
                let resource = old(self).resources@[old(self).statuses@.len() as int]@;
                match existence(probe_text(resource), reply) {
                    Ok(exists) => outcome is Ok && status_texts(final(self).statuses@)
                        == status_texts(old(self).statuses@).push((resource, exists)),
                    Err(message) => {
                        &&& outcome matches Err(error) && error@ == message
                        &&& final(self).statuses == old(self).statuses
                    },
                }
            }),
            forall|replies: Seq<Reply>| #[trigger]
                old(self).follows(replies) && replies[old(self).statuses@.len() as int] == reply
                    ==> match outcome {
                    Ok(_) => final(self).follows(replies),
                    Err(error) => verified(resource_texts(old(self).resources@), replies) == Err::<
                        Seq<(ResourceText, bool)>,
                        Seq<char>,
                    >(error@),
                },
    {
        let n: usize = self.statuses.len();
        let ghost started = *self;
        let ghost texts = resource_texts(self.resources@);
        let resource: Resource = self.resources[n].copy();
        proof {
            assert(texts[n as int] == resource@);
            assert forall|replies: Seq<Reply>| #[trigger] started.follows(replies) implies (
            match existence(probe_text(resource@), replies[n as int]) {
                Ok(exists) => verified(texts.take(n + 1), replies) == Ok::<
                    Seq<(ResourceText, bool)>,
                    Seq<char>,
                >(status_texts(started.statuses@).push((resource@, exists))),
                Err(message) => verified(texts, replies) == Err::<
                    Seq<(ResourceText, bool)>,
                    Seq<char>,
                >(message),
            }) by {
                steps_give_the_statuses(texts, replies, n as int);
            }
        }
        match Probe::of(&resource).outcome(reply) {
            Ok(exists) => {
                self.statuses.push(ResourceStatus { resource, exists });
                proof {
                    assert(status_texts(self.statuses@) =~= status_texts(started.statuses@).push(
                        (resource@, exists),
                    ));
                }
                Ok(())
            },
            Err(error) => {
                self.failed = true;
                Err(error)
            },
        }
    }

    /// The answer of a verification that is through, and that no failed call
    /// ended: the statuses of all resources.
    pub fn response(self) -> (response: Option<VerifyResponse>)
        requires
            self.wf(),
        ensures
            response is Some <==> !self.failed && self.statuses@.len() == self.resources@.len(),
            response matches Some(answer) ==> answer.statuses == self.statuses,
            forall|replies: Seq<Reply>| #[trigger]
                self.follows(replies) && response is Some ==> verified(
                    resource_texts(self.resources@),
                    replies,
                ) == Ok::<Seq<(ResourceText, bool)>, Seq<char>>(
                    status_texts(response->0.statuses@),
                ),
    {
        if self.failed || self.statuses.len() < self.resources.len() {
            return None;
        }
        proof {
            let texts = resource_texts(self.resources@);
            assert(texts.take(self.statuses@.len() as int) =~= texts);
        }
        Some(VerifyResponse { statuses: self.statuses })
    }
}

/// The statuses of the resources, one reply for each in order, or the message on
/// the first call that failed.
pub open spec fn verified(resources: Seq<ResourceText>, replies: Seq<Reply>) -> Result<
    Seq<(ResourceText, bool)>,
    Seq<char>,
>
    decreases resources.len(),
{
    if resources.len() == 0 {
        Ok(Seq::empty())
    } else {
        match verified(resources.drop_last(), replies) {
            Err(message) => Err(message),
            Ok(statuses) => match existence(
                probe_text(resources.last()),
                replies[resources.len() - 1],
            ) {
                Err(message) => Err(message),
                Ok(exists) => Ok(statuses.push((resources.last(), exists))),
            },
        }
    }
}

/// A step adds the status that its reply gives to those before it, and a failed
/// call gives the outcome of the whole.
pub proof fn steps_give_the_statuses(resources: Seq<ResourceText>, replies: Seq<Reply>, n: int)
    requires
        0 <= n < resources.len(),
        verified(resources.take(n), replies) is Ok,
    ensures
        match existence(probe_text(resources[n]), replies[n]) {
            Ok(exists) => verified(resources.take(n + 1), replies) == Ok::<
                Seq<(ResourceText, bool)>,
                Seq<char>,
            >(verified(resources.take(n), replies)->Ok_0.push((resources[n], exists))),
            Err(message) => verified(resources, replies) == Err::<
                Seq<(ResourceText, bool)>,
                Seq<char>,
            >(message),
        },
{
    assert(resources.take(n + 1).drop_last() =~= resources.take(n));
    if existence(probe_text(resources[n]), replies[n]) is Err {
        failure_stays(resources, replies, n + 1);
    }
}

/// A failed call of the first resources gives the outcome of all.
proof fn failure_stays(resources: Seq<ResourceText>, replies: Seq<Reply>, n: int)
    requires
        0 <= n <= resources.len(),
        verified(resources.take(n), replies) is Err,
    ensures
        verified(resources, replies) == verified(resources.take(n), replies),
    decreases resources.len() - n,
{
    if n < resources.len() {
        assert(resources.take(n + 1).drop_last() =~= resources.take(n));
        failure_stays(resources, replies, n + 1);
    } else {
        assert(resources.take(n) =~= resources);
    }
}

/// Every resource gets one status, in the order of the resources, and each says
/// what its own reply says.
pub proof fn one_status_each(resources: Seq<ResourceText>, replies: Seq<Reply>)
    requires
        verified(resources, replies) is Ok,
    ensures
        verified(resources, replies)->Ok_0.len() == resources.len(),
        forall|i: int|
            0 <= i < resources.len() ==> {
                &&& (#[trigger] verified(resources, replies)->Ok_0[i]).0 == resources[i]
                &&& Ok::<bool, Seq<char>>(verified(resources, replies)->Ok_0[i].1) == existence(
                    probe_text(resources[i]),
                    replies[i],
                )
            },
    decreases resources.len(),
{
    if resources.len() > 0 {
        one_status_each(resources.drop_last(), replies);
    }
}

/// A verification fails exactly when some call fails for another reason than
/// that the resource does not exist.
pub proof fn fails_only_on_failed_calls(resources: Seq<ResourceText>, replies: Seq<Reply>)
    ensures
        verified(resources, replies) is Err <==> exists|i: int|
            0 <= i < resources.len() && existence(
                probe_text(#[trigger] resources[i]),
                replies[i],
            ) is Err,
    decreases resources.len(),
{
    if resources.len() > 0 {
        let head = resources.drop_last();
        fails_only_on_failed_calls(head, replies);
        if verified(resources, replies) is Err {
            if verified(head, replies) is Err {
                let i = choose|i: int|
                    0 <= i < head.len() && existence(
                        probe_text(#[trigger] head[i]),
                        replies[i],
                    ) is Err;
                assert(existence(probe_text(resources[i]), replies[i]) is Err);
            } else {
                assert(existence(
                    probe_text(resources[resources.len() - 1]),
                    replies[resources.len() - 1],
                ) is Err);
            }
        }
        if exists|i: int|
            0 <= i < resources.len() && existence(
                probe_text(#[trigger] resources[i]),
                replies[i],
            ) is Err {
            let i = choose|i: int|
                0 <= i < resources.len() && existence(
                    probe_text(#[trigger] resources[i]),
                    replies[i],
                ) is Err;
            if i < head.len() {
                assert(existence(probe_text(head[i]), replies[i]) is Err);
            }
        }
    }
}

/// The verification of what a deployment made looks for its script and its job,
/// for a bucket that is not empty and holds no slash.
pub proof fn verifies_what_was_deployed(
    bucket: Seq<char>,
    prefix: Seq<char>,
    job_name: Seq<char>,
)
    requires
        bucket.len() > 0,
        !bucket.contains('/'),
    ensures
        deployed_resources(
            s3_uri(bucket, script_key_text(prefix, job_name)),
            job_name,
        ).map_values(|resource: ResourceText| probe_text(resource)) == seq![
            ProbeText::Object(bucket, script_key_text(prefix, job_name)),
            ProbeText::Job(job_name),
        ],
{
    let key = script_key_text(prefix, job_name);
    let resources = deployed_resources(s3_uri(bucket, key), job_name);
    script_uri_names_script(bucket, prefix, job_name);
    reveal_strlit("s3_object");
    reveal_strlit("glue_job");
    assert("s3_object"@.len() != "glue_job"@.len());
    assert(resources.map_values(|resource: ResourceText| probe_text(resource)) =~= seq![
        ProbeText::Object(bucket, key),
        ProbeText::Job(job_name),
    ]);
}

} // verus!
