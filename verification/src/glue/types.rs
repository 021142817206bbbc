//! What the plugin answers to a request.

use vstd::prelude::*;

verus! {

/// A field of a job definition that is not as it should be.
#[derive(Debug)]
pub struct PluginValidationError {
    pub field: String,
    pub message: String,
    pub severity: String,
}

/// The answer to a validation.
#[derive(Debug)]
pub struct ValidateResponse {
    pub errors: Vec<PluginValidationError>,
}

/// The answer to a code generation.
#[derive(Debug)]
pub struct CodegenResponse {
    pub script: Option<String>,
}

/// Something that a deployment made.
#[derive(Debug)]
pub struct Resource {
    /// The type of the resource, "s3_object" or "glue_job".
    pub resource_type: String,
    pub id: String,
    pub provider: String,
}

/// The answer to a deployment.
#[derive(Debug)]
pub struct DeployResponse {
    pub resources: Vec<Resource>,
}

/// The answer to a destruction.
#[derive(Debug)]
pub struct DestroyResponse {}

/// A resource, and whether it exists.
#[derive(Debug)]
pub struct ResourceStatus {
    pub resource: Resource,
    pub exists: bool,
}

/// The answer to a verification.
#[derive(Debug)]
pub struct VerifyResponse {
    pub statuses: Vec<ResourceStatus>,
}

/// A field of the `glue` block.
#[derive(Debug)]
pub struct SchemaField {
    pub name: String,
    pub field_type: String,
    pub required: bool,
    pub description: String,
}

/// The answer to a question for the schema.
#[derive(Debug)]
pub struct SchemaResponse {
    pub fields: Vec<SchemaField>,
    pub supported_source_types: Option<Vec<String>>,
    pub supported_sink_types: Option<Vec<String>>,
}

/// A validation error as texts: field, message and severity.
#[verifier::ext_equal]
pub struct ErrorText {
    pub field: Seq<char>,
    pub message: Seq<char>,
    pub severity: Seq<char>,
}

/// A resource as texts: type, id and provider.
#[verifier::ext_equal]
pub struct ResourceText {
    pub resource_type: Seq<char>,
    pub id: Seq<char>,
    pub provider: Seq<char>,
}

/// A schema field as texts.
#[verifier::ext_equal]
pub struct FieldText {
    pub name: Seq<char>,
    pub field_type: Seq<char>,
    pub required: bool,
    pub description: Seq<char>,
}

impl View for PluginValidationError {
    type V = ErrorText;

    open spec fn view(&self) -> ErrorText {
        ErrorText { field: self.field@, message: self.message@, severity: self.severity@ }
    }
}

impl View for Resource {
    type V = ResourceText;

    open spec fn view(&self) -> ResourceText {
        ResourceText {
            resource_type: self.resource_type@,
            id: self.id@,
            provider: self.provider@,
        }
    }
}

impl View for ResourceStatus {
    type V = (ResourceText, bool);

    open spec fn view(&self) -> (ResourceText, bool) {
        (self.resource@, self.exists)
    }
}

impl View for SchemaField {
    type V = FieldText;

    open spec fn view(&self) -> FieldText {
        FieldText {
            name: self.name@,
            field_type: self.field_type@,
            required: self.required,
            description: self.description@,
        }
    }
}

/// The errors as texts.
pub open spec fn error_texts(errors: Seq<PluginValidationError>) -> Seq<ErrorText> {
    errors.map_values(|error: PluginValidationError| error@)
}

/// The resources as texts.
pub open spec fn resource_texts(resources: Seq<Resource>) -> Seq<ResourceText> {
    resources.map_values(|resource: Resource| resource@)
}

/// The statuses, with the resources as texts.
pub open spec fn status_texts(statuses: Seq<ResourceStatus>) -> Seq<(ResourceText, bool)> {
    statuses.map_values(|status: ResourceStatus| status@)
}

/// The schema fields as texts.
pub open spec fn field_texts(fields: Seq<SchemaField>) -> Seq<FieldText> {
    fields.map_values(|field: SchemaField| field@)
}

impl Resource {
    /// A resource with the same texts.
    pub fn copy(&self) -> (copied: Resource)
        ensures
            copied@ == self@,
    {
        Resource {
            resource_type: self.resource_type.clone(),
            id: self.id.clone(),
            provider: self.provider.clone(),
        }
    }
}

} // verus!
