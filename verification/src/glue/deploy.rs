//! The deployment of a job: the script is uploaded, then the Glue job is
//! updated, or created where it does not exist yet.

use super::job::JobRequest;
use super::types::{resource_texts, DeployResponse, Resource, ResourceText};
use super::uri::{parsed_uri, parses_what_it_names};
use crate::aws::config::AwsSettings;
use crate::aws::reply::Reply;
use crate::aws::s3::{s3_uri, script_key_text, PutObject, S3ScriptOps};
use crate::error::PluginError;
use vstd::prelude::*;

verus! {

/// How far a deployment is: the call that comes next, or how it ended.
#[derive(Debug, Clone, Copy, PartialEq, Eq, Structural)]
pub enum Stage {
    Upload,
    UpdateJob,
    CreateJob,
    Finished,
    Aborted,
}

/// A deployment under way.
#[derive(Debug)]
pub struct Deployment {
    pub settings: AwsSettings,
    pub ops: S3ScriptOps,
    /// The request of the stage [`Stage::Upload`].
    pub upload: PutObject,
    /// The job of the stages [`Stage::UpdateJob`] and [`Stage::CreateJob`].
    pub job: JobRequest,
    pub stage: Stage,
}

/// Whether a call is still to be made.
pub open spec fn is_open(stage: Stage) -> bool {
    stage == Stage::Upload || stage == Stage::UpdateJob || stage == Stage::CreateJob
}

/// The stage after a reply: a job that does not exist is created; any other
/// failure ends the deployment.
pub open spec fn next_stage(stage: Stage, reply: Reply) -> Stage {
    match stage {
        Stage::Upload => if reply == Reply::Done {
            Stage::UpdateJob
        } else {
            Stage::Aborted
        },
        Stage::UpdateJob => match reply {
            Reply::Done => Stage::Finished,
            Reply::NotFound => Stage::CreateJob,
            Reply::Failed => Stage::Aborted,
        },
        Stage::CreateJob => if reply == Reply::Done {
            Stage::Finished
        } else {
            Stage::Aborted
        },
        Stage::Finished => Stage::Finished,
        Stage::Aborted => Stage::Aborted,
    }
}

/// The message on a call that failed in a stage.
pub open spec fn failure_text(stage: Stage, uri: Seq<char>, job_name: Seq<char>) -> Seq<char> {
    match stage {
        Stage::Upload => "Failed to upload script to "@ + uri,
        Stage::CreateJob => "Failed to create Glue job \""@ + job_name + "\""@,
        _ => "Failed to update Glue job \""@ + job_name + "\""@,
    }
}

/// The resources of a deployment.
pub open spec fn deployed_resources(uri: Seq<char>, job_name: Seq<char>) -> Seq<ResourceText> {
    seq![
        ResourceText { resource_type: "s3_object"@, id: uri, provider: "glue"@ },
        ResourceText { resource_type: "glue_job"@, id: job_name, provider: "glue"@ },
    ]
}

impl Deployment {
    /// The URI of the script.
    pub open spec fn uri(self) -> Seq<char> {
        self.ops.uri_of(self.job.name@)
    }

    /// Goes on to the next stage. Where the call of the stage failed, and that
    /// ends the deployment, the error says which it was.
    pub fn step(&mut self, reply: Reply) -> (outcome: Result<(), PluginError>)
        requires
            is_open(old(self).stage),
        ensures
            final(self).stage == next_stage(old(self).stage, reply),
            forall|replies: Seq<Reply>|
                old(self).stage == #[trigger] stage_after(replies) ==> final(self).stage
                    == stage_after(replies.push(reply)),
            final(self).settings == old(self).settings,
            final(self).ops == old(self).ops,
            final(self).upload == old(self).upload,
            final(self).job == old(self).job,
            outcome is Err <==> final(self).stage == Stage::Aborted,
            outcome matches Err(error) ==> error@ == failure_text(
                old(self).stage,
                old(self).uri(),
                old(self).job.name@,
            ),
    {
        proof {
            assert forall|replies: Seq<Reply>|
                self.stage == #[trigger] stage_after(replies) implies stage_after(
                replies.push(reply),
            ) == next_stage(self.stage, reply) by {
                assert(replies.push(reply).drop_last() =~= replies);
            }
        }
        match self.stage {
            Stage::Upload => {
                match self.ops.upload_outcome(self.job.name.as_str(), reply) {
                    Ok(_) => {
                        self.stage = Stage::UpdateJob;
                        Ok(())
                    },
                    Err(error) => {
                        self.stage = Stage::Aborted;
                        Err(error)
                    },
                }
            },
            Stage::UpdateJob => match reply {
                Reply::Done => {
                    self.stage = Stage::Finished;
                    Ok(())
                },
                Reply::NotFound => {
                    self.stage = Stage::CreateJob;
                    Ok(())
                },
                Reply::Failed => {
                    self.stage = Stage::Aborted;
                    Err(
                        PluginError::new(
                            "Failed to update Glue job \"".to_owned().concat(
                                self.job.name.as_str(),
                            ).concat("\""),
                        ),
                    )
                },
            },
            _ => {
                if reply == Reply::Done {
                    self.stage = Stage::Finished;
                    Ok(())
                } else {
                    self.stage = Stage::Aborted;
                    Err(
                        PluginError::new(
                            "Failed to create Glue job \"".to_owned().concat(
                                self.job.name.as_str(),
                            ).concat("\""),
                        ),
                    )
                }
            },
        }
    }

    /// The answer of a deployment that is finished: the script and the job.
    pub fn response(&self) -> (response: Option<DeployResponse>)
        ensures
            response is Some <==> self.stage == Stage::Finished,
            response matches Some(answer) ==> resource_texts(answer.resources@)
                == deployed_resources(self.job.script_location@, self.job.name@),
    {
        if self.stage != Stage::Finished {
            return None;
        }
        let script: Resource = Resource {
            resource_type: "s3_object".to_owned(),
            id: self.job.script_location.clone(),
            provider: "glue".to_owned(),
        };
        let job: Resource = Resource {
            resource_type: "glue_job".to_owned(),
            id: self.job.name.clone(),
            provider: "glue".to_owned(),
        };
        let resources: Vec<Resource> = vec![script, job];
        proof {
            assert(resource_texts(resources@) =~= deployed_resources(
                self.job.script_location@,
                self.job.name@,
            ));
        }
        Some(DeployResponse { resources })
    }
}

/// The stage after the replies, in order.
pub open spec fn stage_after(replies: Seq<Reply>) -> Stage
    decreases replies.len(),
{
    if replies.len() == 0 {
        Stage::Upload
    } else {
        next_stage(stage_after(replies.drop_last()), replies.last())
    }
}

/// A stage that is over stays.
proof fn ended_stays(replies: Seq<Reply>, n: int)
    requires
        0 <= n <= replies.len(),
        !is_open(stage_after(replies.take(n))),
    ensures
        stage_after(replies) == stage_after(replies.take(n)),
    decreases replies.len(),
{
    if n < replies.len() {
        assert(replies.drop_last().take(n) =~= replies.take(n));
        ended_stays(replies.drop_last(), n);
    } else {
        assert(replies.take(n) =~= replies);
    }
}

/// The stages that the first three replies lead to.
proof fn first_stages(replies: Seq<Reply>)
    ensures
        replies.len() >= 1 ==> stage_after(replies.take(1)) == next_stage(
            Stage::Upload,
            replies[0],
        ),
        replies.len() >= 2 ==> stage_after(replies.take(2)) == next_stage(
            next_stage(Stage::Upload, replies[0]),
            replies[1],
        ),
        replies.len() >= 3 ==> stage_after(replies.take(3)) == next_stage(
            next_stage(next_stage(Stage::Upload, replies[0]), replies[1]),
            replies[2],
        ),
{
    reveal_with_fuel(stage_after, 4);
    if replies.len() >= 1 {
        assert(replies.take(1).drop_last() =~= Seq::<Reply>::empty());
    }
    if replies.len() >= 2 {
        assert(replies.take(2).drop_last() =~= replies.take(1));
    }
    if replies.len() >= 3 {
        assert(replies.take(3).drop_last() =~= replies.take(2));
    }
}

/// A deployment finishes exactly when the upload succeeds, and then either the
/// update succeeds, or the job is not found and its creation succeeds.
pub proof fn deployment_finishes(replies: Seq<Reply>)
    ensures
        stage_after(replies) == Stage::Finished <==> replies.len() >= 2 && replies[0] == Reply::Done
            && (replies[1] == Reply::Done || (replies[1] == Reply::NotFound && replies.len() >= 3
            && replies[2] == Reply::Done)),
{
    first_stages(replies);
    if replies.len() >= 3 {
        ended_stays(replies, 3);
    }
    if replies.len() >= 1 && replies.len() < 3 {
        assert(replies.take(replies.len() as int) =~= replies);
    }
}

/// The job is touched only after the script was uploaded.
pub proof fn upload_comes_first(replies: Seq<Reply>)
    requires
        stage_after(replies) != Stage::Upload,
        stage_after(replies) != Stage::Aborted,
    ensures
        replies.len() >= 1,
        replies[0] == Reply::Done,
{
    first_stages(replies);
    if replies.len() >= 1 && replies[0] != Reply::Done {
        ended_stays(replies, 1);
    }
}

/// A job is created only after the service said, on its update, that it does not
/// exist.
pub proof fn created_only_where_missing(replies: Seq<Reply>)
    ensures
        stage_after(replies) == Stage::CreateJob <==> replies == seq![Reply::Done, Reply::NotFound],
{
    first_stages(replies);
    if replies.len() >= 3 {
        ended_stays(replies, 3);
    } else if replies.len() >= 1 {
        assert(replies.take(replies.len() as int) =~= replies);
    }
    if stage_after(replies) == Stage::CreateJob {
        assert(replies =~= seq![Reply::Done, Reply::NotFound]);
    }
}

/// No deployment makes more than three calls.
pub proof fn deployment_ends(replies: Seq<Reply>)
    requires
        replies.len() >= 3,
    ensures
        !is_open(stage_after(replies)),
{
    first_stages(replies);
    ended_stays(replies, 3);
}

/// The URI of an uploaded script names the object that was uploaded, for a
/// bucket that is not empty and holds no slash.
pub proof fn script_uri_names_script(bucket: Seq<char>, prefix: Seq<char>, job_name: Seq<char>)
    requires
        bucket.len() > 0,
        !bucket.contains('/'),
    ensures
        parsed_uri(s3_uri(bucket, script_key_text(prefix, job_name))) == Some(
            (bucket, script_key_text(prefix, job_name)),
        ),
{
    let key = script_key_text(prefix, job_name);
    reveal_strlit(".py");
    assert(key.len() > 0);
    parses_what_it_names(s3_uri(bucket, key), bucket, key);
}

} // verus!
