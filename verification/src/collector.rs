//! The questions of a run and the bookkeeping of their answers.
//!
//! The collector does no input itself. It names the question that is open,
//! takes the operator's reply to it, and hands out the answers once the last
//! question is closed; whoever drives it does the asking.

use vstd::prelude::*;
use crate::error::ConfigError;
use crate::options::{default_answers, Answers, ProjectOptions, Strictness};

verus! {

/// The questions, in the order in which they are asked.
#[derive(Clone, Copy, Debug, PartialEq, Eq, Structural)]
pub enum Question {
    ProjectName,
    Strictness,
    Transpiler,
    Library,
    Monorepo,
    Dom,
}

impl Question {
    /// The question that is asked after this one, if any.
    pub open spec fn spec_following(self) -> Option<Question> {
        match self {
            Question::ProjectName => Some(Question::Strictness),
            Question::Strictness => Some(Question::Transpiler),
            Question::Transpiler => Some(Question::Library),
            Question::Library => Some(Question::Monorepo),
            Question::Monorepo => Some(Question::Dom),
            Question::Dom => None,
        }
    }

    /// The question that is asked after this one, if any.
    pub fn following(self) -> (next: Option<Question>)
        ensures
            next == self.spec_following(),
    {
        match self {
            Question::ProjectName => Some(Question::Strictness),
            Question::Strictness => Some(Question::Transpiler),
            Question::Transpiler => Some(Question::Library),
            Question::Library => Some(Question::Monorepo),
            Question::Monorepo => Some(Question::Dom),
            Question::Dom => None,
        }
    }

    /// The words in which a question is put to the operator.
    pub open spec fn spec_prompt(self) -> Seq<char> {
        match self {
            Question::ProjectName => "What is the name of your project?"@,
            Question::Strictness => "How strict should the typescript compiler be?"@,
            Question::Transpiler => "Are you transpiling using tsc?"@,
            Question::Library => "Are you building a library?"@,
            Question::Monorepo => "Are you building for a library in a monorepo?"@,
            Question::Dom => "Is your project for a dom (browser) environment?"@,
        }
    }

    /// The words in which this question is put to the operator.
    pub fn prompt(self) -> (text: &'static str)
        ensures
            text@ == self.spec_prompt(),
    {
        match self {
            Question::ProjectName => "What is the name of your project?",
            Question::Strictness => "How strict should the typescript compiler be?",
            Question::Transpiler => "Are you transpiling using tsc?",
            Question::Library => "Are you building a library?",
            Question::Monorepo => "Are you building for a library in a monorepo?",
            Question::Dom => "Is your project for a dom (browser) environment?",
        }
    }
}

/// What came back for a question.
#[derive(Debug)]
pub enum Reply {
    /// No input: the default stands.
    Default,
    /// A text, for the project's name. An empty text counts as no input.
    Text(String),
    /// A position in the list of levels, for the strictness.
    Choice(usize),
    /// Yes or no, for the four last questions.
    Flag(bool),
    /// The operator gave up, or the input channel closed.
    Aborted,
}

/// [`Reply`] as a mathematical value.
pub enum ReplyModel {
    Default,
    Text(Seq<char>),
    Choice(int),
    Flag(bool),
    Aborted,
}

impl View for Reply {
    type V = ReplyModel;

    open spec fn view(&self) -> ReplyModel {
        match self {
            Reply::Default => ReplyModel::Default,
            Reply::Text(text) => ReplyModel::Text(text@),
            Reply::Choice(index) => ReplyModel::Choice(*index as int),
            Reply::Flag(flag) => ReplyModel::Flag(*flag),
            Reply::Aborted => ReplyModel::Aborted,
        }
    }
}

/// Where a collector stands.
#[derive(Clone, Copy, Debug, PartialEq, Eq, Structural)]
pub enum Stage {
    /// This question is open.
    Asking(Question),
    /// Every question is closed.
    Complete,
    /// The operator gave up.
    Aborted,
    /// A reply was refused. This is final: no further reply is taken and no
    /// answers are handed out.
    Failed,
}

/// A collector as a mathematical value: where it stands, and the answers so
/// far, with the default for each question that is not closed yet.
pub struct CollectorModel {
    pub stage: Stage,
    pub draft: Answers,
}

/// The stage after `question` was closed.
pub open spec fn stage_after(question: Question) -> Stage {
    match question.spec_following() {
        Some(next) => Stage::Asking(next),
        None => Stage::Complete,
    }
}

/// The answers after `reply` was taken for `question`, or why it cannot be
/// taken.
///
/// No input leaves the default. A text answers the first question, a
/// position that names a level the second, yes or no any of the others.
pub open spec fn record(draft: Answers, question: Question, reply: ReplyModel) -> Result<
    Answers,
    ConfigError,
> {
    match (question, reply) {
        (_, ReplyModel::Aborted) => Err(ConfigError::InputAborted),
        (_, ReplyModel::Default) => Ok(draft),
        (Question::ProjectName, ReplyModel::Text(text)) => if text.len() == 0 {
            Ok(draft)
        } else {
            Ok(Answers { project_name: text, ..draft })
        },
        (Question::Strictness, ReplyModel::Choice(index)) => match Strictness::spec_from_index(
            index,
        ) {
            Some(level) => Ok(Answers { strictness: level, ..draft }),
            None => Err(ConfigError::InvalidChoice),
        },
        (Question::Transpiler, ReplyModel::Flag(flag)) => Ok(
            Answers { is_transpiler: flag, ..draft },
        ),
        (Question::Library, ReplyModel::Flag(flag)) => Ok(Answers { is_library: flag, ..draft }),
        (Question::Monorepo, ReplyModel::Flag(flag)) => Ok(Answers { is_monorepo: flag, ..draft }),
        (Question::Dom, ReplyModel::Flag(flag)) => Ok(Answers { is_dom: flag, ..draft }),
        _ => Err(ConfigError::UnexpectedReply),
    }
}

/// What the collector says to `reply`: nothing where it takes it, else why
/// not. With no question open, no reply is expected.
pub open spec fn verdict(state: CollectorModel, reply: ReplyModel) -> Result<(), ConfigError> {
    match state.stage {
        Stage::Asking(question) => match record(state.draft, question, reply) {
            Ok(_) => Ok(()),
            Err(error) => Err(error),
        },
        _ => Err(ConfigError::UnexpectedReply),
    }
}

/// The collector after `reply`: a reply that is taken closes the open
/// question; giving up, and a reply that is refused, end the run for good.
/// Once no question is open, nothing changes any more.
pub open spec fn step(state: CollectorModel, reply: ReplyModel) -> CollectorModel {
    match state.stage {
        Stage::Asking(question) => match record(state.draft, question, reply) {
            Ok(draft) => CollectorModel { stage: stage_after(question), draft },
            Err(ConfigError::InputAborted) => CollectorModel {
                stage: Stage::Aborted,
                draft: state.draft,
            },
            Err(_) => CollectorModel { stage: Stage::Failed, draft: state.draft },
        },
        _ => state,
    }
}

/// The collector before the first question.
pub open spec fn initial() -> CollectorModel {
    CollectorModel { stage: Stage::Asking(Question::ProjectName), draft: default_answers() }
}

/// Keeps the answers of a run while the questions are asked.
#[derive(Debug)]
pub struct Collector {
    stage: Stage,
    draft: ProjectOptions,
}

impl View for Collector {
    type V = CollectorModel;

    closed spec fn view(&self) -> CollectorModel {
        CollectorModel { stage: self.stage, draft: self.draft@ }
    }
}

impl Collector {
    #[verifier::type_invariant]
    spec fn named(self) -> bool {
        self.draft@.well_formed()
    }

    /// A collector that is about to ask the first question.
    pub fn new() -> (collector: Collector)
        ensures
            collector@ == initial(),
    {
        Collector { stage: Stage::Asking(Question::ProjectName), draft: ProjectOptions::defaults() }
    }

    /// Where the collector stands.
    pub fn stage(&self) -> (stage: Stage)
        ensures
            stage == self@.stage,
    {
        self.stage
    }

    /// The question that is open, if any.
    pub fn pending(&self) -> (question: Option<Question>)
        ensures
            question == match self@.stage {
                Stage::Asking(open) => Some(open),
                _ => None,
            },
    {
        match self.stage {
            Stage::Asking(open) => Some(open),
            _ => None,
        }
    }

    /// Takes the reply to the open question.
    ///
    /// A reply that fits closes the question and opens the next one. Giving
    /// up ends the run with [`ConfigError::InputAborted`]. A position that
    /// names no level is refused with [`ConfigError::InvalidChoice`], and a
    /// reply of the wrong kind, or one that comes when no question is open,
    /// with [`ConfigError::UnexpectedReply`]. Every error is final: no
    /// question is open afterwards, and [`Collector::finish`] gives nothing.
    pub fn accept(&mut self, reply: Reply) -> (result: Result<(), ConfigError>)
        ensures
            final(self)@ == step(old(self)@, reply@),
            result == verdict(old(self)@, reply@),
    {
        proof {
            use_type_invariant(&*self);
        }
        let question = match self.stage {
            Stage::Asking(open) => open,
            _ => { return Err(ConfigError::UnexpectedReply); },
        };
        match (question, reply) {
            (_, Reply::Aborted) => {
                self.stage = Stage::Aborted;
                return Err(ConfigError::InputAborted);
            },
            (_, Reply::Default) => {},
            (Question::ProjectName, Reply::Text(text)) => {
                if !text.as_str().is_empty() {
                    self.draft.project_name = text;
                }
            },
            (Question::Strictness, Reply::Choice(index)) => {
                match Strictness::from_index(index) {
                    Some(level) => {
                        self.draft.strictness = level;
                    },
                    None => {
                        self.stage = Stage::Failed;
                        return Err(ConfigError::InvalidChoice);
                    },
                }
            },
            (Question::Transpiler, Reply::Flag(flag)) => {
                self.draft.is_transpiler = flag;
            },
            (Question::Library, Reply::Flag(flag)) => {
                self.draft.is_library = flag;
            },
            (Question::Monorepo, Reply::Flag(flag)) => {
                self.draft.is_monorepo = flag;
            },
            (Question::Dom, Reply::Flag(flag)) => {
                self.draft.is_dom = flag;
            },
            _ => {
                self.stage = Stage::Failed;
                return Err(ConfigError::UnexpectedReply);
            },
        }
        self.stage = match question.following() {
            Some(next) => Stage::Asking(next),
            None => Stage::Complete,
        };
        Ok(())
    }

    /// The answers, once every question is closed.
    pub fn finish(self) -> (answers: Option<ProjectOptions>)
        ensures
            answers is Some <==> self@.stage is Complete,
            answers matches Some(options) ==> options@ == self@.draft && options@.well_formed(),
    {
        proof {
            use_type_invariant(&self);
        }
        match self.stage {
            Stage::Complete => Some(self.draft),
            _ => None,
        }
    }
}

} // verus!
