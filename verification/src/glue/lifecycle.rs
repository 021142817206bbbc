//! What a deployment, a verification and a destruction come to together, on a
//! service that keeps what it is given.

use super::deploy::{deployed_resources, next_stage, Stage};
use super::destroy::{destroys_what_was_deployed, planned_deletions, Deletion};
use super::types::ResourceText;
use super::verify::{existence, probe_text, verified, verifies_what_was_deployed, ProbeText};
use crate::aws::reply::Reply;
use crate::aws::s3::{s3_uri, script_key_text};
use vstd::prelude::*;

verus! {

/// The objects and jobs that exist on a service.
#[verifier::ext_equal]
pub struct Service {
    pub objects: Set<(Seq<char>, Seq<char>)>,
    pub jobs: Set<Seq<char>>,
}

/// What the call of a stage of a deployment does, and its reply: an upload and a
/// creation succeed, and an update finds the job or does not.
pub open spec fn deploy_call(
    service: Service,
    stage: Stage,
    object: (Seq<char>, Seq<char>),
    job_name: Seq<char>,
) -> (Service, Reply) {
    match stage {
        Stage::Upload => (
            Service { objects: service.objects.insert(object), jobs: service.jobs },
            Reply::Done,
        ),
        Stage::CreateJob => (
            Service { objects: service.objects, jobs: service.jobs.insert(job_name) },
            Reply::Done,
        ),
        _ => (
            service,
            if service.jobs.contains(job_name) {
                Reply::Done
            } else {
                Reply::NotFound
            },
        ),
    }
}

/// A deployment on the service, for so many calls.
pub open spec fn deploy_on(
    service: Service,
    stage: Stage,
    object: (Seq<char>, Seq<char>),
    job_name: Seq<char>,
    calls: nat,
) -> (Service, Stage)
    decreases calls,
{
    if calls == 0 || stage == Stage::Finished || stage == Stage::Aborted {
        (service, stage)
    } else {
        let (after, reply) = deploy_call(service, stage, object, job_name);
        deploy_on(after, next_stage(stage, reply), object, job_name, (calls - 1) as nat)
    }
}

/// The reply to a probe.
pub open spec fn probe_reply(service: Service, probe: ProbeText) -> Reply {
    match probe {
        ProbeText::Object(bucket, key) => if service.objects.contains((bucket, key)) {
            Reply::Done
        } else {
            Reply::NotFound
        },
        ProbeText::Job(id) => if service.jobs.contains(id) {
            Reply::Done
        } else {
            Reply::NotFound
        },
        ProbeText::Settled(_) => Reply::Done,
    }
}

/// The statuses that a verification on the service gives.
pub open spec fn verify_on(service: Service, resources: Seq<ResourceText>) -> Result<
    Seq<(ResourceText, bool)>,
    Seq<char>,
> {
    verified(
        resources,
        resources.map_values(|resource: ResourceText| probe_reply(service, probe_text(resource))),
    )
}

/// The service after the deletions.
pub open spec fn destroy_on(service: Service, plan: Seq<Deletion>) -> Service
    decreases plan.len(),
{
    if plan.len() == 0 {
        service
    } else {
        let before = destroy_on(service, plan.drop_last());
        match plan.last() {
            Deletion::Job(id) => Service {
                objects: before.objects,
                jobs: before.jobs.remove(id),
            },
            Deletion::Object(bucket, key) => Service {
                objects: before.objects.remove((bucket, key)),
                jobs: before.jobs,
            },
        }
    }
}

/// A deployment finishes within three calls, whether or not the job exists, and
/// leaves the script and the job behind, and all else as it was.
pub proof fn deployment_makes_script_and_job(
    service: Service,
    object: (Seq<char>, Seq<char>),
    job_name: Seq<char>,
)
    ensures
        deploy_on(service, Stage::Upload, object, job_name, 3) == (
            Service {
                objects: service.objects.insert(object),
                jobs: service.jobs.insert(job_name),
            },
            Stage::Finished,
        ),
{
    reveal_with_fuel(deploy_on, 4);
    if service.jobs.contains(job_name) {
        assert(service.jobs.insert(job_name) =~= service.jobs);
    }
}

/// What a deployment made is found by the verification of its resources.
pub proof fn deployed_is_verified(
    service: Service,
    bucket: Seq<char>,
    prefix: Seq<char>,
    job_name: Seq<char>,
)
    requires
        bucket.len() > 0,
        !bucket.contains('/'),
    ensures
        ({
            let key = script_key_text(prefix, job_name);
            let resources = deployed_resources(s3_uri(bucket, key), job_name);
            let after = deploy_on(service, Stage::Upload, (bucket, key), job_name, 3).0;
            verify_on(after, resources) == Ok::<Seq<(ResourceText, bool)>, Seq<char>>(
                seq![(resources[0], true), (resources[1], true)],
            )
        }),
{
    let key = script_key_text(prefix, job_name);
    deployment_makes_script_and_job(service, (bucket, key), job_name);
    let after = deploy_on(service, Stage::Upload, (bucket, key), job_name, 3).0;
    two_statuses(after, bucket, prefix, job_name);
}

/// What a destruction removed is no longer found by the verification of the
/// resources, whatever the service held before.
pub proof fn destroyed_is_gone(
    service: Service,
    bucket: Seq<char>,
    prefix: Seq<char>,
    job_name: Seq<char>,
)
    requires
        bucket.len() > 0,
        !bucket.contains('/'),
    ensures
        ({
            let key = script_key_text(prefix, job_name);
            let resources = deployed_resources(s3_uri(bucket, key), job_name);
            let after = destroy_on(service, planned_deletions(resources));
            verify_on(after, resources) == Ok::<Seq<(ResourceText, bool)>, Seq<char>>(
                seq![(resources[0], false), (resources[1], false)],
            )
        }),
{
    let key = script_key_text(prefix, job_name);
    let resources = deployed_resources(s3_uri(bucket, key), job_name);
    destruction_removes_script_and_job(service, bucket, prefix, job_name);
    two_statuses(
        destroy_on(service, planned_deletions(resources)),
        bucket,
        prefix,
        job_name,
    );
}

/// A destruction of what a deployment made removes its script and its job, and
/// leaves all else as it was.
pub proof fn destruction_removes_script_and_job(
    service: Service,
    bucket: Seq<char>,
    prefix: Seq<char>,
    job_name: Seq<char>,
)
    requires
        bucket.len() > 0,
        !bucket.contains('/'),
    ensures
        destroy_on(
            service,
            planned_deletions(
                deployed_resources(s3_uri(bucket, script_key_text(prefix, job_name)), job_name),
            ),
        ) == (Service {
            objects: service.objects.remove((bucket, script_key_text(prefix, job_name))),
            jobs: service.jobs.remove(job_name),
        }),
{
    let key = script_key_text(prefix, job_name);
    destroys_what_was_deployed(bucket, prefix, job_name);
    let plan = seq![Deletion::Job(job_name), Deletion::Object(bucket, key)];
    reveal_with_fuel(destroy_on, 3);
    assert(plan.drop_last() =~= seq![Deletion::Job(job_name)]);
    assert(plan.drop_last().drop_last() =~= Seq::<Deletion>::empty());
}

/// The statuses of the resources of a deployment on the service.
proof fn two_statuses(
    service: Service,
    bucket: Seq<char>,
    prefix: Seq<char>,
    job_name: Seq<char>,
)
    requires
        bucket.len() > 0,
        !bucket.contains('/'),
    ensures
        ({
            let key = script_key_text(prefix, job_name);
            let resources = deployed_resources(s3_uri(bucket, key), job_name);
            verify_on(service, resources) == Ok::<Seq<(ResourceText, bool)>, Seq<char>>(
                seq![
                    (resources[0], service.objects.contains((bucket, key))),
                    (resources[1], service.jobs.contains(job_name)),
                ],
            )
        }),
{
    let key = script_key_text(prefix, job_name);
    let resources = deployed_resources(s3_uri(bucket, key), job_name);
    verifies_what_was_deployed(bucket, prefix, job_name);
    let probes = resources.map_values(|resource: ResourceText| probe_text(resource));
    assert(probes[0] == probe_text(resources[0]));
    assert(probes[1] == probe_text(resources[1]));
    let replies = resources.map_values(
        |resource: ResourceText| probe_reply(service, probe_text(resource)),
    );
    reveal_with_fuel(verified, 3);
    assert(resources.drop_last() =~= seq![resources[0]]);
    assert(resources.drop_last().drop_last() =~= Seq::<ResourceText>::empty());
    let found = service.objects.contains((bucket, key));
    assert(existence(probes[0], replies[0]) == Ok::<bool, Seq<char>>(found));
    assert(verified(resources.drop_last(), replies) == Ok::<Seq<(ResourceText, bool)>, Seq<char>>(
        Seq::<(ResourceText, bool)>::empty().push((resources[0], found)),
    ));
    let known = service.jobs.contains(job_name);
    assert(existence(probes[1], replies[1]) == Ok::<bool, Seq<char>>(known));
    assert(Seq::<(ResourceText, bool)>::empty().push((resources[0], found)).push(
        (resources[1], known),
    ) =~= seq![(resources[0], found), (resources[1], known)]);
}

} // verus!
