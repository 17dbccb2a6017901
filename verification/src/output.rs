//! From answers to what has to be written, and where.

use vstd::prelude::*;
use vstd::string::StringExecFns;
use crate::backend::{pretty_text, to_pretty_text};
use crate::document::tsconfig_doc;
use crate::error::ConfigError;
use crate::options::{Answers, ProjectOptions};
use crate::synth::generate_tsconfig;

verus! {

/// The text of the `tsconfig.json` for `answers`.
pub open spec fn rendered(answers: Answers) -> Seq<char> {
    pretty_text(tsconfig_doc(answers))
}

/// Turns the serializer's outcome into the crate's own: a text is handed
/// on, a failure becomes [`ConfigError::Serialization`].
pub fn finish_rendering(outcome: Result<String, serde_json::Error>) -> (result: Result<
    String,
    ConfigError,
>)
    ensures
        match outcome {
            Ok(text) => result == Ok::<String, ConfigError>(text),
            Err(cause) => result == Err::<String, ConfigError>(ConfigError::Serialization(cause)),
        },
{
    match outcome {
        Ok(text) => Ok(text),
        Err(cause) => Err(ConfigError::Serialization(cause)),
    }
}

/// The `tsconfig.json` for `options` as pretty-printed text.
///
/// Rendering succeeds for all answers, and the text depends on the answers
/// alone, the project's name left aside.
pub fn render_tsconfig(options: &ProjectOptions) -> (result: Result<String, ConfigError>)
    ensures
        result is Ok,
        result matches Ok(text) ==> text@ == rendered(options@),
{
    let document = generate_tsconfig(options);
    finish_rendering(to_pretty_text(&document))
}

/// The directory that takes the file, seen from the current directory.
#[derive(Debug)]
pub enum TargetDir {
    /// The current directory itself.
    Current,
    /// The directory of this name below the current one.
    Child(String),
}

/// [`TargetDir`] as a mathematical value.
pub enum TargetDirModel {
    Current,
    Child(Seq<char>),
}

impl View for TargetDir {
    type V = TargetDirModel;

    open spec fn view(&self) -> TargetDirModel {
        match self {
            TargetDir::Current => TargetDirModel::Current,
            TargetDir::Child(name) => TargetDirModel::Child(name@),
        }
    }
}

impl TargetDirModel {
    /// What is written behind the path of the current directory to name this
    /// one: nothing for the current directory itself, else a slash and the
    /// name.
    pub open spec fn path_suffix(self) -> Seq<char> {
        match self {
            TargetDirModel::Current => Seq::empty(),
            TargetDirModel::Child(name) => "/"@ + name,
        }
    }
}

impl TargetDir {
    /// What is written behind the path of the current directory to name this
    /// one. A child directory is named by a slash and its name, so that it
    /// lies below the current directory whatever its name begins with.
    pub fn path_suffix(&self) -> (suffix: String)
        ensures
            suffix@ == self@.path_suffix(),
    {
        match self {
            TargetDir::Current => String::new(),
            TargetDir::Child(name) => String::from_str("/").concat(name.as_str()),
        }
    }
}

/// What a run writes: one file, in one directory.
#[derive(Debug)]
pub struct OutputPlan {
    /// The directory to create, with its parents, unless it exists.
    pub dir: TargetDir,
    /// The name of the file in that directory; one that exists is replaced.
    pub file_name: String,
    /// The text of the file.
    pub contents: String,
}

/// [`OutputPlan`] as a mathematical value.
pub struct OutputPlanModel {
    pub dir: TargetDirModel,
    pub file_name: Seq<char>,
    pub contents: Seq<char>,
}

impl View for OutputPlan {
    type V = OutputPlanModel;

    open spec fn view(&self) -> OutputPlanModel {
        OutputPlanModel {
            dir: self.dir@,
            file_name: self.file_name@,
            contents: self.contents@,
        }
    }
}

/// The directory for `answers`: the current one for the name `.`, else the
/// directory of the project's name below it.
pub open spec fn target_dir(answers: Answers) -> TargetDirModel {
    if answers.names_current_dir() {
        TargetDirModel::Current
    } else {
        TargetDirModel::Child(answers.project_name)
    }
}

/// The plan that puts `contents` into the `tsconfig.json` of the project.
pub open spec fn plan_for(answers: Answers, contents: Seq<char>) -> OutputPlanModel {
    OutputPlanModel { dir: target_dir(answers), file_name: "tsconfig.json"@, contents }
}

/// The directory that takes the file of `options`.
pub fn resolve_target(options: &ProjectOptions) -> (dir: TargetDir)
    ensures
        dir@ == target_dir(options@),
{
    if options.names_current_dir() {
        TargetDir::Current
    } else {
        TargetDir::Child(options.project_name.clone())
    }
}

/// The plan that puts `contents` into the `tsconfig.json` of the project.
pub fn plan_with(options: &ProjectOptions, contents: String) -> (plan: OutputPlan)
    ensures
        plan@ == plan_for(options@, contents@),
{
    OutputPlan {
        dir: resolve_target(options),
        file_name: String::from_str("tsconfig.json"),
        contents,
    }
}

/// What a run with `options` has to write.
///
/// There is a plan for all answers: it names the project's directory, the
/// file `tsconfig.json` and the rendered text.
pub fn plan_output(options: &ProjectOptions) -> (result: Result<OutputPlan, ConfigError>)
    ensures
        result is Ok,
        result matches Ok(plan) ==> plan@ == plan_for(options@, rendered(options@)),
{
    match render_tsconfig(options) {
        Ok(contents) => Ok(plan_with(options, contents)),
        Err(error) => Err(error),
    }
}

} // verus!
