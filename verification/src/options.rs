//! The answers that decide what a `tsconfig.json` holds.

use vstd::prelude::*;
use vstd::string::StringExecFns;

verus! {

/// How rigorous the compiler is asked to be, weakest first.
#[derive(Clone, Copy, Debug, PartialEq, Eq, Structural)]
pub enum Strictness {
    Off,
    On,
    Strict,
}

impl Strictness {
    /// The position of a level in the list that is shown to the operator.
    pub open spec fn spec_index(self) -> int {
        match self {
            Strictness::Off => 0,
            Strictness::On => 1,
            Strictness::Strict => 2,
        }
    }

    /// The level at a position of the list, if there is one.
    pub open spec fn spec_from_index(index: int) -> Option<Strictness> {
        if index == 0 {
            Some(Strictness::Off)
        } else if index == 1 {
            Some(Strictness::On)
        } else if index == 2 {
            Some(Strictness::Strict)
        } else {
            None
        }
    }

    /// The position of this level in the list that is shown to the operator.
    pub fn index(self) -> (index: usize)
        ensures
            index == self.spec_index(),
    {
        match self {
            Strictness::Off => 0,
            Strictness::On => 1,
            Strictness::Strict => 2,
        }
    }

    /// The level that the operator picked: position 0 is `Off`, 1 is `On`,
    /// 2 is `Strict`. Any other position names no level and gives `None`;
    /// it is never bent to a level.
    pub fn from_index(index: usize) -> (level: Option<Strictness>)
        ensures
            level == Self::spec_from_index(index as int),
            level is Some <==> index <= 2,
    {
        if index == 0 {
            Some(Strictness::Off)
        } else if index == 1 {
            Some(Strictness::On)
        } else if index == 2 {
            Some(Strictness::Strict)
        } else {
            None
        }
    }

    /// The label under which a level is offered to the operator.
    pub open spec fn spec_label(self) -> Seq<char> {
        match self {
            Strictness::Off => "Relaxed (Few checks)"@,
            Strictness::On => "Balanced (Recommended)"@,
            Strictness::Strict => "Rigorous (Maximum safety)"@,
        }
    }

    /// The label under which this level is offered to the operator.
    pub fn label(self) -> (label: &'static str)
        ensures
            label@ == self.spec_label(),
    {
        match self {
            Strictness::Off => "Relaxed (Few checks)",
            Strictness::On => "Balanced (Recommended)",
            Strictness::Strict => "Rigorous (Maximum safety)",
        }
    }
}

/// The answers of one run, as a mathematical value.
pub struct Answers {
    pub project_name: Seq<char>,
    pub strictness: Strictness,
    pub is_transpiler: bool,
    pub is_library: bool,
    pub is_monorepo: bool,
    pub is_dom: bool,
}

/// The answers of one run.
///
/// `project_name` is a directory below the current one, or `.` for the
/// current directory itself.
#[derive(Clone, Debug)]
pub struct ProjectOptions {
    pub project_name: String,
    pub strictness: Strictness,
    pub is_transpiler: bool,
    pub is_library: bool,
    pub is_monorepo: bool,
    pub is_dom: bool,
}

impl View for ProjectOptions {
    type V = Answers;

    open spec fn view(&self) -> Answers {
        Answers {
            project_name: self.project_name@,
            strictness: self.strictness,
            is_transpiler: self.is_transpiler,
            is_library: self.is_library,
            is_monorepo: self.is_monorepo,
            is_dom: self.is_dom,
        }
    }
}

/// The answers that stand where the operator gives none.
pub open spec fn default_answers() -> Answers {
    Answers {
        project_name: "."@,
        strictness: Strictness::On,
        is_transpiler: true,
        is_library: false,
        is_monorepo: false,
        is_dom: false,
    }
}

impl Answers {
    /// A project has a name.
    pub open spec fn well_formed(self) -> bool {
        self.project_name.len() > 0
    }

    /// The name `.` stands for the current directory.
    pub open spec fn names_current_dir(self) -> bool {
        self.project_name == "."@
    }
}

impl ProjectOptions {
    /// The answers that stand where the operator gives none: the current
    /// directory, the middle level, a project that `tsc` transpiles, and
    /// neither a library, a monorepo nor a browser project.
    pub fn defaults() -> (options: ProjectOptions)
        ensures
            options@ == default_answers(),
            options@.well_formed(),
    {
        proof {
            reveal_strlit(".");
        }
        ProjectOptions {
            project_name: String::from_str("."),
            strictness: Strictness::On,
            is_transpiler: true,
            is_library: false,
            is_monorepo: false,
            is_dom: false,
        }
    }

    /// Whether the project lives in the current directory itself.
    pub fn names_current_dir(&self) -> (current: bool)
        ensures
            current == self@.names_current_dir(),
    {
        let dot = String::from_str(".");
        self.project_name == dot
    }
}

} // verus!
