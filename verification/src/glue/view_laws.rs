//! What the texts of requests and answers say of the values they stand for, and
//! what the state of a destruction or a verification says of the replies to it.

use super::destroy::{deletions, is_under_way, Deletion, DestroyAction, Destruction};
use super::schema::opt_views;
use super::types::{
    error_texts, field_texts, resource_texts, status_texts, PluginValidationError, Resource,
    ResourceStatus, SchemaField,
};
use super::verify::{
    existence, existence_text, one_status_each, probe_text, verified, Probe, ProbeText,
    Verification,
};
use crate::aws::reply::Reply;
use crate::aws::s3::{ObjectName, PutObject};
use crate::codegen::helpers::auth_texts;
use crate::codegen::sink::lines_outcome;
use crate::error::{outcome_text, PluginError};
use crate::text::views;
use vstd::prelude::*;

verus! {

/// Every field of a resource, a status, an error and a schema field is among its
/// texts.
pub proof fn texts_hold_every_field(
    resource: Resource,
    status: ResourceStatus,
    error: PluginValidationError,
    field: SchemaField,
)
    ensures
        resource@.resource_type == resource.resource_type@,
        resource@.id == resource.id@,
        resource@.provider == resource.provider@,
        status@.0.resource_type == status.resource.resource_type@,
        status@.0.id == status.resource.id@,
        status@.0.provider == status.resource.provider@,
        status@.1 == status.exists,
        error@.field == error.field@,
        error@.message == error.message@,
        error@.severity == error.severity@,
        field@.name == field.name@,
        field@.field_type == field.field_type@,
        field@.required == field.required,
        field@.description == field.description@,
{
}

/// A list has the texts of its values, one for each, in order.
pub proof fn lists_have_a_text_each(
    resources: Seq<Resource>,
    statuses: Seq<ResourceStatus>,
    errors: Seq<PluginValidationError>,
    fields: Seq<SchemaField>,
    actions: Seq<DestroyAction>,
    i: int,
)
    ensures
        resource_texts(resources).len() == resources.len(),
        0 <= i < resources.len() ==> resource_texts(resources)[i] == resources[i]@,
        status_texts(statuses).len() == statuses.len(),
        0 <= i < statuses.len() ==> status_texts(statuses)[i] == statuses[i]@,
        error_texts(errors).len() == errors.len(),
        0 <= i < errors.len() ==> error_texts(errors)[i] == errors[i]@,
        field_texts(fields).len() == fields.len(),
        0 <= i < fields.len() ==> field_texts(fields)[i] == fields[i]@,
        deletions(actions).len() == actions.len(),
        0 <= i < actions.len() ==> deletions(actions)[i] == actions[i]@,
{
}

/// A probe and a deletion name the job, or the bucket and the key of the object,
/// that they are for.
pub proof fn calls_name_what_they_are_for(id: String, object: ObjectName, upload: PutObject, b: bool)
    ensures
        Probe::Object(object)@ == ProbeText::Object(object.bucket@, object.key@),
        Probe::Job(id)@ == ProbeText::Job(id@),
        Probe::Settled(b)@ == ProbeText::Settled(b),
        DestroyAction::DeleteJob(id)@ == Deletion::Job(id@),
        DestroyAction::DeleteObject(object)@ == Deletion::Object(object.bucket@, object.key@),
        upload.object@ == (upload.object.bucket@, upload.object.key@),
{
}

/// An outcome as texts is a success exactly where the outcome is one, with the
/// texts of its value or the message of its error.
pub proof fn outcomes_keep_their_sort(
    text: String,
    lines: Vec<String>,
    exists: bool,
    error: PluginError,
    user: String,
    password: String,
)
    ensures
        error@ == error.message@,
        outcome_text(Ok(text)) == Ok::<Seq<char>, Seq<char>>(text@),
        outcome_text(Err(error)) == Err::<Seq<char>, Seq<char>>(error.message@),
        lines_outcome(Ok(lines)) == Ok::<Seq<Seq<char>>, Seq<char>>(views(lines@)),
        lines_outcome(Err(error)) == Err::<Seq<Seq<char>>, Seq<char>>(error.message@),
        existence_text(Ok(exists)) == Ok::<bool, Seq<char>>(exists),
        existence_text(Err(error)) == Err::<bool, Seq<char>>(error.message@),
        opt_views(Some(lines)) == Some(views(lines@)),
        opt_views(None) is None,
        auth_texts(Some((user, password, lines))) == Some((user@, password@, views(lines@))),
        auth_texts(None) is None,
{
}

/// A destruction goes on exactly as long as no deletion ended it and one is left;
/// the one that ended it is none of those behind it.
pub proof fn destruction_goes_on(destruction: Destruction)
    requires
        destruction.wf(),
    ensures
        destruction.progress().done == destruction.done,
        destruction.progress().failed == destruction.failed,
        is_under_way(deletions(destruction.actions@), destruction.progress())
            <==> !destruction.failed && destruction.done != destruction.actions@.len(),
        destruction.failed ==> destruction.done + 1 <= destruction.actions@.len(),
{
}

/// A verification goes on exactly as long as no call ended it and a resource is
/// left; the one whose call ended it has no status.
pub proof fn verification_goes_on(verification: Verification)
    requires
        verification.wf(),
    ensures
        verification.is_under_way() <==> !verification.failed && verification.statuses@.len()
            != verification.resources@.len(),
        verification.failed ==> verification.statuses@.len() + 1 <= verification.resources@.len(),
{
}

/// The statuses of a verification that follows the replies are those of its first
/// resources, and each says what the reply to its own resource says.
pub proof fn statuses_say_what_replies_say(
    verification: Verification,
    replies: Seq<Reply>,
    i: int,
)
    requires
        verification.wf(),
        verification.follows(replies),
        0 <= i < verification.statuses@.len(),
    ensures
        !verification.failed,
        verification.statuses@[i].resource@ == verification.resources@[i]@,
        existence(probe_text(verification.resources@[i]@), replies[i]) == Ok::<bool, Seq<char>>(
            verification.statuses@[i].exists,
        ),
{
    let asked = resource_texts(verification.resources@).take(
        verification.statuses@.len() as int,
    );
    one_status_each(asked, replies);
    assert(verified(asked, replies)->Ok_0[i] == verification.statuses@[i]@);
    assert(asked[i] == verification.resources@[i]@);
}

} // verus!
