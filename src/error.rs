//! The error taxonomy of rendering, and its mathematical view.

use vstd::prelude::*;

verus! {

/// Why a triggered request produced no response.
#[derive(Clone, Debug, PartialEq, Eq)]
pub enum TriggeredRequestError {
    /// The request could not be built from its recipe.
    Build { cause: String },
    /// No HTTP engine is configured, so no request may be sent.
    NotAllowed,
    /// The request was sent and failed.
    Send { cause: String },
}

/// Why a chain could not be rendered.
#[derive(Clone, Debug, PartialEq, Eq)]
pub enum ChainError {
    ChainUnknown,
    RecipeUnknown { recipe_id: String },
    NoResponse,
    Database { cause: String },
    Trigger { recipe_id: String, error: TriggeredRequestError },
    File { path: String, cause: String },
    CommandMissing,
    Command { command: Vec<String>, cause: String },
    PromptNoResponse,
    UnknownContentType,
    ParseResponse { cause: String },
    InvalidUtf8 { cause: String },
    /// The selector failed on the parsed value.
    Selector { cause: String },
}

/// Why an environment variable could not be read.
#[derive(Clone, Copy, Debug, PartialEq, Eq)]
pub enum EnvVarError {
    /// The variable is not set.
    NotPresent,
    /// The variable is set but its value is not valid UTF-8.
    NotUnicode,
}

/// Why a template could not be rendered.
#[derive(Debug)]
pub enum TemplateError {
    NoProfileSelected,
    ProfileUnknown { profile_id: String },
    FieldUnknown { field: String },
    /// An error inside a profile field's template, with that template's source.
    Nested { template: String, error: Box<TemplateError> },
    RecursionLimit,
    EnvironmentVariable { variable: String, error: EnvVarError },
    Chain { chain_id: String, error: ChainError },
}

/// [`TriggeredRequestError`] with its strings as character sequences.
pub enum TriggeredRequestErrorV {
    Build(Seq<char>),
    NotAllowed,
    Send(Seq<char>),
}

/// [`ChainError`] with its strings as character sequences.
pub enum ChainErrorV {
    ChainUnknown,
    RecipeUnknown(Seq<char>),
    NoResponse,
    Database(Seq<char>),
    Trigger(Seq<char>, TriggeredRequestErrorV),
    File(Seq<char>, Seq<char>),
    CommandMissing,
    Command(Seq<Seq<char>>, Seq<char>),
    PromptNoResponse,
    UnknownContentType,
    ParseResponse(Seq<char>),
    InvalidUtf8(Seq<char>),
    Selector(Seq<char>),
}

/// [`TemplateError`] with its strings as character sequences.
pub enum TemplateErrorV {
    NoProfileSelected,
    ProfileUnknown(Seq<char>),
    FieldUnknown(Seq<char>),
    Nested(Seq<char>, Box<TemplateErrorV>),
    RecursionLimit,
    EnvironmentVariable(Seq<char>, EnvVarError),
    Chain(Seq<char>, ChainErrorV),
}

impl View for TriggeredRequestError {
    type V = TriggeredRequestErrorV;

    open spec fn view(&self) -> TriggeredRequestErrorV {
        match self {
            TriggeredRequestError::Build { cause } => TriggeredRequestErrorV::Build(cause@),
            TriggeredRequestError::NotAllowed => TriggeredRequestErrorV::NotAllowed,
            TriggeredRequestError::Send { cause } => TriggeredRequestErrorV::Send(cause@),
        }
    }
}

impl View for ChainError {
    type V = ChainErrorV;

    open spec fn view(&self) -> ChainErrorV {
        match self {
            ChainError::ChainUnknown => ChainErrorV::ChainUnknown,
            ChainError::RecipeUnknown { recipe_id } => ChainErrorV::RecipeUnknown(recipe_id@),
            ChainError::NoResponse => ChainErrorV::NoResponse,
            ChainError::Database { cause } => ChainErrorV::Database(cause@),
            ChainError::Trigger { recipe_id, error } => ChainErrorV::Trigger(recipe_id@, error@),
            ChainError::File { path, cause } => ChainErrorV::File(path@, cause@),
            ChainError::CommandMissing => ChainErrorV::CommandMissing,
            ChainError::Command { command, cause } => ChainErrorV::Command(
                command.deep_view(),
                cause@,
            ),
            ChainError::PromptNoResponse => ChainErrorV::PromptNoResponse,
            ChainError::UnknownContentType => ChainErrorV::UnknownContentType,
            ChainError::ParseResponse { cause } => ChainErrorV::ParseResponse(cause@),
            ChainError::InvalidUtf8 { cause } => ChainErrorV::InvalidUtf8(cause@),
            ChainError::Selector { cause } => ChainErrorV::Selector(cause@),
        }
    }
}

impl View for TemplateError {
    type V = TemplateErrorV;

    open spec fn view(&self) -> TemplateErrorV
        decreases self,
    {
        match self {
            TemplateError::NoProfileSelected => TemplateErrorV::NoProfileSelected,
            TemplateError::ProfileUnknown { profile_id } => TemplateErrorV::ProfileUnknown(
                profile_id@,
            ),
            TemplateError::FieldUnknown { field } => TemplateErrorV::FieldUnknown(field@),
            TemplateError::Nested { template, error } => TemplateErrorV::Nested(
                template@,
                Box::new((**error).view()),
            ),
            TemplateError::RecursionLimit => TemplateErrorV::RecursionLimit,
            TemplateError::EnvironmentVariable { variable, error } => TemplateErrorV::EnvironmentVariable(
                variable@,
                *error,
            ),
            TemplateError::Chain { chain_id, error } => TemplateErrorV::Chain(chain_id@, error@),
        }
    }
}

impl TriggeredRequestError {
    /// A copy with the same view.
    pub fn duplicate(&self) -> (r: TriggeredRequestError)
        ensures
            r@ == self@,
    {
        match self {
            TriggeredRequestError::Build { cause } => TriggeredRequestError::Build {
                cause: cause.clone(),
            },
            TriggeredRequestError::NotAllowed => TriggeredRequestError::NotAllowed,
            TriggeredRequestError::Send { cause } => TriggeredRequestError::Send {
                cause: cause.clone(),
            },
        }
    }
}

} // verus!
