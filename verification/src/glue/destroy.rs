//! The destruction of what a deployment made: first the Glue jobs, whose
//! deletion must succeed, then the objects in S3, whose deletion may fail.

use super::deploy::{deployed_resources, script_uri_names_script};
use super::job::{delete_glue_job, undeleted_job};
use super::types::{resource_texts, DestroyResponse, Resource, ResourceText};
use super::uri::{parse_s3_uri, parsed_uri};
use crate::aws::config::AwsSettings;
use crate::aws::reply::Reply;
use crate::aws::s3::{s3_uri, script_key_text, ObjectName};
use crate::error::PluginError;
use crate::text::same_text;
use vstd::prelude::*;

verus! {

/// A deletion to ask for.
#[derive(Debug)]
pub enum DestroyAction {
    DeleteJob(String),
    DeleteObject(ObjectName),
}

/// A deletion as texts.
#[verifier::ext_equal]
pub enum Deletion {
    Job(Seq<char>),
    Object(Seq<char>, Seq<char>),
}

/// A destruction under way: the deletions that it asks for, in order, how many of
/// them are behind it, and whether the one after those ended it.
#[derive(Debug)]
pub struct Destruction {
    pub settings: AwsSettings,
    pub actions: Vec<DestroyAction>,
    pub done: usize,
    pub failed: bool,
}

impl View for DestroyAction {
    type V = Deletion;

    open spec fn view(&self) -> Deletion {
        match self {
            DestroyAction::DeleteJob(id) => Deletion::Job(id@),
            DestroyAction::DeleteObject(object) => Deletion::Object(object@.0, object@.1),
        }
    }
}

/// The deletions as texts.
pub open spec fn deletions(actions: Seq<DestroyAction>) -> Seq<Deletion> {
    actions.map_values(|action: DestroyAction| action@)
}

/// The deletion of a Glue job.
pub open spec fn job_deletion(resource: ResourceText) -> Seq<Deletion> {
    if resource.resource_type == "glue_job"@ {
        seq![Deletion::Job(resource.id)]
    } else {
        Seq::empty()
    }
}

/// The deletion of an object in S3, where the id is a URI that names one.
pub open spec fn object_deletion(resource: ResourceText) -> Seq<Deletion> {
    if resource.resource_type == "s3_object"@ {
        match parsed_uri(resource.id) {
            Some((bucket, key)) => seq![Deletion::Object(bucket, key)],
            None => Seq::empty(),
        }
    } else {
        Seq::empty()
    }
}

/// The deletions of the Glue jobs, in the order of the resources.
pub open spec fn job_deletions(resources: Seq<ResourceText>) -> Seq<Deletion>
    decreases resources.len(),
{
    if resources.len() == 0 {
        Seq::empty()
    } else {
        job_deletions(resources.drop_last()) + job_deletion(resources.last())
    }
}

/// The deletions of the objects in S3, in the order of the resources.
pub open spec fn object_deletions(resources: Seq<ResourceText>) -> Seq<Deletion>
    decreases resources.len(),
{
    if resources.len() == 0 {
        Seq::empty()
    } else {
        object_deletions(resources.drop_last()) + object_deletion(resources.last())
    }
}

/// The deletions of a destruction: the jobs, then the objects.
pub open spec fn planned_deletions(resources: Seq<ResourceText>) -> Seq<Deletion> {
    job_deletions(resources) + object_deletions(resources)
}

/// Lists the deletions of a destruction.
pub fn plan_deletions(resources: &[Resource]) -> (actions: Vec<DestroyAction>)
    ensures
        deletions(actions@) == planned_deletions(resource_texts(resources@)),
{
    let ghost texts = resource_texts(resources@);
    let mut actions: Vec<DestroyAction> = Vec::new();
    proof {
        assert(deletions(actions@) =~= job_deletions(texts.take(0)));
    }
    for i in 0..resources.len()
        invariant
            texts == resource_texts(resources@),
            deletions(actions@) == job_deletions(texts.take(i as int)),
    {
        let ghost before = actions@;
        if same_text(resources[i].resource_type.as_str(), "glue_job") {
            actions.push(DestroyAction::DeleteJob(resources[i].id.clone()));
        }
        proof {
            assert(texts.take(i + 1).drop_last() =~= texts.take(i as int));
            assert(texts.take(i + 1).last() == resources@[i as int]@);
            assert(deletions(actions@) =~= deletions(before) + job_deletion(texts[i as int]));
        }
    }
    proof {
        assert(texts.take(resources@.len() as int) =~= texts);
        assert(deletions(actions@) =~= job_deletions(texts) + object_deletions(texts.take(0)));
    }
    for i in 0..resources.len()
        invariant
            texts == resource_texts(resources@),
            deletions(actions@) == job_deletions(texts) + object_deletions(texts.take(i as int)),
    {
        let ghost before = actions@;
        if same_text(resources[i].resource_type.as_str(), "s3_object") {
            match parse_s3_uri(resources[i].id.as_str()) {
                Some((bucket, key)) => {
                    actions.push(
                        DestroyAction::DeleteObject(
                            ObjectName { bucket: bucket.to_owned(), key: key.to_owned() },
                        ),
                    );
                },
                None => {},
            }
        }
        proof {
            assert(texts.take(i + 1).drop_last() =~= texts.take(i as int));
            assert(texts.take(i + 1).last() == resources@[i as int]@);
            assert(deletions(actions@) =~= deletions(before) + object_deletion(texts[i as int]));
            assert(deletions(actions@) =~= job_deletions(texts) + object_deletions(
                texts.take(i + 1),
            ));
        }
    }
    proof {
        assert(texts.take(resources@.len() as int) =~= texts);
    }
    actions
}

/// Whether a reply lets the destruction go on: the deletion of a job must have
/// succeeded.
pub open spec fn goes_on(deletion: Deletion, reply: Reply) -> bool {
    deletion is Job ==> reply == Reply::Done
}

impl DestroyAction {
    /// What the reply to the deletion comes to: an error ends the destruction.
    pub fn outcome(&self, reply: Reply) -> (outcome: Result<(), PluginError>)
        ensures
            outcome is Ok <==> goes_on(self@, reply),
            outcome matches Err(error) ==> self@ is Job && error@ == undeleted_job(self@->Job_0),
    {
        match self {
            DestroyAction::DeleteJob(id) => delete_glue_job(id.as_str(), reply),
            DestroyAction::DeleteObject(_) => Ok(()),
        }
    }
}

/// How far a destruction is: how many deletions are behind it, and whether the
/// one after those ended it.
#[verifier::ext_equal]
pub struct Progress {
    pub done: int,
    pub failed: bool,
}

/// Whether a deletion is still to be asked for.
pub open spec fn is_under_way(plan: Seq<Deletion>, progress: Progress) -> bool {
    !progress.failed && progress.done < plan.len()
}

/// How far a destruction is after the reply to the deletion that came next.
pub open spec fn next_progress(plan: Seq<Deletion>, progress: Progress, reply: Reply) -> Progress {
    if !is_under_way(plan, progress) {
        progress
    } else if goes_on(plan[progress.done], reply) {
        Progress { done: progress.done + 1, failed: false }
    } else {
        Progress { done: progress.done, failed: true }
    }
}

/// How far a destruction is after the replies, in order.
pub open spec fn progress_after(plan: Seq<Deletion>, replies: Seq<Reply>) -> Progress
    decreases replies.len(),
{
    if replies.len() == 0 {
        Progress { done: 0, failed: false }
    } else {
        next_progress(plan, progress_after(plan, replies.drop_last()), replies.last())
    }
}

impl Destruction {
    /// No more deletions are behind the destruction than there are, and one that
    /// ended it is not among them.
    pub open spec fn wf(self) -> bool {
        &&& self.done <= self.actions@.len()
        &&& self.failed ==> self.done < self.actions@.len()
    }

    /// How far the destruction is.
    pub open spec fn progress(self) -> Progress {
        Progress { done: self.done as int, failed: self.failed }
    }

    /// The deletion that comes next, where one is left and none ended the
    /// destruction.
    pub fn action(&self) -> (action: Option<&DestroyAction>)
        requires
            self.wf(),
        ensures
            action is Some <==> is_under_way(deletions(self.actions@), self.progress()),
            self.failed ==> action is None,
            action matches Some(next) ==> *next == self.actions@[self.done as int],
    {
        if !self.failed && self.done < self.actions.len() {
            Some(&self.actions[self.done])
        } else {
            None
        }
    }

    /// Takes the reply to the deletion that came next. An error ends the
    /// destruction: no deletion comes after it.
    pub fn step(&mut self, reply: Reply) -> (outcome: Result<(), PluginError>)
        requires
            old(self).wf(),
            is_under_way(deletions(old(self).actions@), old(self).progress()),
        ensures
            final(self).wf(),
            final(self).settings == old(self).settings,
            final(self).actions == old(self).actions,
            final(self).progress() == next_progress(
                deletions(old(self).actions@),
                old(self).progress(),
                reply,
            ),
            forall|replies: Seq<Reply>|
                old(self).progress() == #[trigger] progress_after(
                    deletions(old(self).actions@),
                    replies,
                ) ==> final(self).progress() == progress_after(
                    deletions(old(self).actions@),
                    replies.push(reply),
                ),
            outcome is Err <==> final(self).failed,
            outcome matches Err(error) ==> error@ == undeleted_job(
                old(self).actions@[old(self).done as int]@->Job_0,
            ),
    {
        let ghost plan = deletions(self.actions@);
        let ghost before = self.progress();
        let outcome: Result<(), PluginError> = self.actions[self.done].outcome(reply);
        proof {
            assert(self.done < self.actions.len());
            assert(plan[self.done as int] == self.actions@[self.done as int]@);
        }
        if outcome.is_ok() {
            self.done = self.done + 1;
        } else {
            self.failed = true;
        }
        proof {
            assert forall|replies: Seq<Reply>|
                before == #[trigger] progress_after(plan, replies) implies self.progress()
                == progress_after(plan, replies.push(reply)) by {
                assert(replies.push(reply).drop_last() =~= replies);
            }
        }
        outcome
    }

    /// The answer of a destruction that is through, and that nothing ended.
    pub fn response(&self) -> (response: Option<DestroyResponse>)
        requires
            self.wf(),
        ensures
            response is Some <==> !self.failed && self.done == self.actions@.len(),
    {
        if !self.failed && self.done == self.actions.len() {
            Some(DestroyResponse {  })
        } else {
            None
        }
    }
}

/// How many of the planned deletions are asked for, where `replies` are what
/// comes back: those behind the destruction, and the one that ended it.
pub open spec fn asked(plan: Seq<Deletion>, replies: Seq<Reply>) -> int {
    let progress = progress_after(plan, replies);
    if progress.failed {
        progress.done + 1
    } else {
        progress.done
    }
}

/// All deletions behind a destruction let it go on; one that ended it did not;
/// and where none did, each reply was to one deletion more.
proof fn progress_counts(plan: Seq<Deletion>, replies: Seq<Reply>)
    ensures
        ({
            let progress = progress_after(plan, replies);
            &&& 0 <= progress.done <= plan.len()
            &&& progress.done <= replies.len()
            &&& forall|i: int|
                #![trigger plan[i], replies[i]]
                0 <= i < progress.done ==> goes_on(plan[i], replies[i])
            &&& progress.failed ==> progress.done < plan.len() && progress.done < replies.len()
                && !goes_on(plan[progress.done], replies[progress.done])
            &&& !progress.failed ==> progress.done == plan.len() || progress.done == replies.len()
        }),
    decreases replies.len(),
{
    if replies.len() > 0 {
        let head = replies.drop_last();
        progress_counts(plan, head);
        let before = progress_after(plan, head);
        let after = progress_after(plan, replies);
        assert forall|i: int|
            #![trigger plan[i], replies[i]]
            0 <= i < after.done implies goes_on(plan[i], replies[i]) by {
            if i < before.done {
                assert(goes_on(plan[i], head[i]));
            }
        }
        if before.failed {
            assert(head[before.done] == replies[before.done]);
        }
    }
}

/// Whether a destruction succeeds: every reply lets it go on.
pub open spec fn succeeds(plan: Seq<Deletion>, replies: Seq<Reply>) -> bool {
    forall|i: int|
        #![trigger plan[i], replies[i]]
        0 <= i < plan.len() ==> goes_on(plan[i], replies[i])
}

/// Each planned deletion of a job comes before each of an object.
pub proof fn jobs_come_first(resources: Seq<ResourceText>, i: int, j: int)
    requires
        0 <= i < planned_deletions(resources).len(),
        0 <= j < planned_deletions(resources).len(),
        planned_deletions(resources)[i] is Job,
        planned_deletions(resources)[j] is Object,
    ensures
        i < j,
{
    deletions_of_one_sort(resources);
}

/// The first part of a plan holds jobs alone, the second objects alone.
proof fn deletions_of_one_sort(resources: Seq<ResourceText>)
    ensures
        forall|i: int| 0 <= i < job_deletions(resources).len() ==> (#[trigger] job_deletions(
            resources,
        )[i]) is Job,
        forall|i: int|
            0 <= i < object_deletions(resources).len() ==> (#[trigger] object_deletions(
                resources,
            )[i]) is Object,
    decreases resources.len(),
{
    if resources.len() > 0 {
        deletions_of_one_sort(resources.drop_last());
    }
}

/// A destruction in which every deletion of a job succeeds is a success, whatever
/// becomes of the deletions of objects.
pub proof fn object_failures_do_not_matter(plan: Seq<Deletion>, replies: Seq<Reply>)
    requires
        forall|i: int|
            #![trigger plan[i], replies[i]]
            0 <= i < plan.len() && plan[i] is Job ==> replies[i] == Reply::Done,
    ensures
        succeeds(plan, replies),
{
}

/// No deletion is asked for after one that does not let the destruction go on.
pub proof fn failure_stops(plan: Seq<Deletion>, replies: Seq<Reply>, i: int)
    requires
        0 <= i < plan.len(),
        i < replies.len(),
        !goes_on(plan[i], replies[i]),
    ensures
        asked(plan, replies) <= i + 1,
        progress_after(plan, replies).failed,
{
    progress_counts(plan, replies);
}

/// A deletion is asked for where every reply before it lets the destruction go
/// on.
pub proof fn goes_on_to_the_next(plan: Seq<Deletion>, replies: Seq<Reply>, n: int)
    requires
        0 <= n < plan.len(),
        n < replies.len(),
        forall|i: int|
            #![trigger plan[i], replies[i]]
            0 <= i < n ==> goes_on(plan[i], replies[i]),
    ensures
        asked(plan, replies) >= n + 1,
{
    progress_counts(plan, replies);
    let done = progress_after(plan, replies).done;
    assert(0 <= done < n ==> goes_on(plan[done], replies[done]));
}

/// Where the deletion of a job fails, no deletion of an object is asked for.
pub proof fn failed_job_keeps_objects(resources: Seq<ResourceText>, replies: Seq<Reply>, i: int)
    requires
        0 <= i < job_deletions(resources).len(),
        i < replies.len(),
        replies[i] != Reply::Done,
    ensures
        asked(planned_deletions(resources), replies) <= job_deletions(resources).len(),
{
    deletions_of_one_sort(resources);
    let plan = planned_deletions(resources);
    assert(plan[i] == job_deletions(resources)[i]);
    failure_stops(plan, replies, i);
}

/// A destruction that succeeds asks for every deletion of its plan, and nothing
/// ends it before.
pub proof fn success_asks_for_all(plan: Seq<Deletion>, replies: Seq<Reply>)
    requires
        succeeds(plan, replies),
        replies.len() >= plan.len(),
    ensures
        asked(plan, replies) == plan.len(),
        !progress_after(plan, replies).failed,
{
    progress_counts(plan, replies);
    let done = progress_after(plan, replies).done;
    assert(0 <= done < plan.len() ==> goes_on(plan[done], replies[done]));
}

/// The destruction of what a deployment made deletes its job and then its
/// script, and nothing else, for a bucket that is not empty and holds no slash.
pub proof fn destroys_what_was_deployed(
    bucket: Seq<char>,
    prefix: Seq<char>,
    job_name: Seq<char>,
)
    requires
        bucket.len() > 0,
        !bucket.contains('/'),
    ensures
        planned_deletions(
            deployed_resources(s3_uri(bucket, script_key_text(prefix, job_name)), job_name),
        ) == seq![
            Deletion::Job(job_name),
            Deletion::Object(bucket, script_key_text(prefix, job_name)),
        ],
{
    let key = script_key_text(prefix, job_name);
    let resources = deployed_resources(s3_uri(bucket, key), job_name);
    script_uri_names_script(bucket, prefix, job_name);
    reveal_strlit("s3_object");
    reveal_strlit("glue_job");
    assert("s3_object"@.len() != "glue_job"@.len());
    reveal_with_fuel(job_deletions, 3);
    reveal_with_fuel(object_deletions, 3);
    assert(resources.drop_last() =~= seq![resources[0]]);
    assert(resources.drop_last().drop_last() =~= Seq::<ResourceText>::empty());
    assert(planned_deletions(resources) =~= seq![
        Deletion::Job(job_name),
        Deletion::Object(bucket, key),
    ]);
}

} // verus!
