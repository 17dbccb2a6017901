//! What holds of the compiler options, and of the collector, for all answers.

use vstd::prelude::*;
use crate::collector::{initial, step, verdict, CollectorModel, Question, ReplyModel, Stage};
use crate::document::{
    base_members, compiler_options, dom_members, emit_members, lemma_key_shapes, lib_value,
    library_members, monorepo_members, strictness_members,
};
use crate::error::ConfigError;
use crate::json::{has_key, holds_once, keys_unique, Json};
use crate::options::{default_answers, Answers, Strictness};
use crate::output::rendered;

verus! {

/// No option is set twice, whatever the answers.
pub proof fn law_keys_unique(answers: Answers)
    ensures
        keys_unique(compiler_options(answers)),
{
    lemma_key_shapes();
}

/// The compiler options hold the keys of the six groups and no others.
pub proof fn law_no_other_keys(answers: Answers, key: Seq<char>)
    ensures
        has_key(compiler_options(answers), key) <==> {
            ||| has_key(base_members(), key)
            ||| has_key(strictness_members(answers.strictness), key)
            ||| has_key(emit_members(answers.is_transpiler), key)
            ||| has_key(library_members(answers.is_library), key)
            ||| has_key(monorepo_members(answers.is_monorepo), key)
            ||| has_key(dom_members(answers.is_dom), key)
        },
{
    let base = base_members();
    let strictness = strictness_members(answers.strictness);
    let emit = emit_members(answers.is_transpiler);
    let library = library_members(answers.is_library);
    let monorepo = monorepo_members(answers.is_monorepo);
    let dom = dom_members(answers.is_dom);
    lemma_has_key_concat(base, strictness, key);
    lemma_has_key_concat(base + strictness, emit, key);
    lemma_has_key_concat(base + strictness + emit, library, key);
    lemma_has_key_concat(base + strictness + emit + library, monorepo, key);
    lemma_has_key_concat(base + strictness + emit + library + monorepo, dom, key);
}

/// A key is in a concatenation where it is in one of the two parts.
proof fn lemma_has_key_concat(
    left: Seq<(Seq<char>, Json)>,
    right: Seq<(Seq<char>, Json)>,
    key: Seq<char>,
)
    ensures
        has_key(left + right, key) <==> has_key(left, key) || has_key(right, key),
{
    let both = left + right;
    if has_key(both, key) {
        let i = choose|i: int| 0 <= i < both.len() && (#[trigger] both[i]).0 == key;
        if i < left.len() {
            assert(left[i].0 == key);
        } else {
            assert(right[i - left.len()].0 == key);
        }
    }
    if has_key(left, key) {
        let i = choose|i: int| 0 <= i < left.len() && (#[trigger] left[i]).0 == key;
        assert(both[i].0 == key);
    }
    if has_key(right, key) {
        let i = choose|i: int| 0 <= i < right.len() && (#[trigger] right[i]).0 == key;
        assert(both[left.len() + i].0 == key);
    }
}

/// `strict` is set, to `true`, from the middle level on;
/// `noUncheckedIndexedAccess` and `noImplicitOverride` are set, to `true`, on
/// the highest level alone.
pub proof fn law_strictness_keys(answers: Answers)
    ensures
        answers.strictness is Off ==> {
            &&& !has_key(compiler_options(answers), "strict"@)
            &&& !has_key(compiler_options(answers), "noUncheckedIndexedAccess"@)
            &&& !has_key(compiler_options(answers), "noImplicitOverride"@)
        },
        answers.strictness is On ==> {
            &&& holds_once(compiler_options(answers), "strict"@, Json::Bool(true))
            &&& !has_key(compiler_options(answers), "noUncheckedIndexedAccess"@)
            &&& !has_key(compiler_options(answers), "noImplicitOverride"@)
        },
        answers.strictness is Strict ==> {
            &&& holds_once(compiler_options(answers), "strict"@, Json::Bool(true))
            &&& holds_once(
                compiler_options(answers),
                "noUncheckedIndexedAccess"@,
                Json::Bool(true),
            )
            &&& holds_once(compiler_options(answers), "noImplicitOverride"@, Json::Bool(true))
        },
{
    lemma_key_shapes();
    let options = compiler_options(answers);
    match answers.strictness {
        Strictness::Off => {},
        Strictness::On => {
            assert(options[8] == ("strict"@, Json::Bool(true)));
        },
        Strictness::Strict => {
            assert(options[8] == ("strict"@, Json::Bool(true)));
            assert(options[9] == ("noUncheckedIndexedAccess"@, Json::Bool(true)));
            assert(options[10] == ("noImplicitOverride"@, Json::Bool(true)));
        },
    }
}

/// A higher level of strictness sets every option that a lower one sets.
pub proof fn law_rigor_grows(lower: Strictness, higher: Strictness, key: Seq<char>)
    requires
        lower.spec_index() <= higher.spec_index(),
        has_key(strictness_members(lower), key),
    ensures
        has_key(strictness_members(higher), key),
{
    let low = strictness_members(lower);
    let high = strictness_members(higher);
    let i = choose|i: int| 0 <= i < low.len() && (#[trigger] low[i]).0 == key;
    assert(high[i].0 == key);
}

/// `module` is set exactly once, whatever the answers: to `NodeNext`, with
/// `outDir` and `sourceMap` beside it, where `tsc` transpiles; to `preserve`,
/// with `noEmit` beside it, where it does not. What belongs to one case is
/// absent in the other.
pub proof fn law_module_key(answers: Answers)
    ensures
        answers.is_transpiler ==> {
            &&& holds_once(compiler_options(answers), "module"@, Json::Text("NodeNext"@))
            &&& holds_once(compiler_options(answers), "outDir"@, Json::Text("dist"@))
            &&& holds_once(compiler_options(answers), "sourceMap"@, Json::Bool(true))
            &&& !has_key(compiler_options(answers), "noEmit"@)
        },
        !answers.is_transpiler ==> {
            &&& holds_once(compiler_options(answers), "module"@, Json::Text("preserve"@))
            &&& holds_once(compiler_options(answers), "noEmit"@, Json::Bool(true))
            &&& !has_key(compiler_options(answers), "outDir"@)
            &&& !has_key(compiler_options(answers), "sourceMap"@)
        },
{
    lemma_key_shapes();
    let options = compiler_options(answers);
    let before = base_members() + strictness_members(answers.strictness);
    let at = before.len() as int;
    if answers.is_transpiler {
        assert(options[at] == ("module"@, Json::Text("NodeNext"@)));
        assert(options[at + 1] == ("outDir"@, Json::Text("dist"@)));
        assert(options[at + 2] == ("sourceMap"@, Json::Bool(true)));
    } else {
        assert(options[at] == ("module"@, Json::Text("preserve"@)));
        assert(options[at + 1] == ("noEmit"@, Json::Bool(true)));
    }
}

/// `lib` is set exactly once, whatever the answers: to `es2022` with the two
/// DOM libraries for a browser project, to `es2022` alone for any other.
pub proof fn law_lib_key(answers: Answers)
    ensures
        holds_once(compiler_options(answers), "lib"@, lib_value(answers.is_dom)),
        answers.is_dom ==> lib_value(answers.is_dom) == Json::List(
            seq![Json::Text("es2022"@), Json::Text("dom"@), Json::Text("dom.iterable"@)],
        ),
        !answers.is_dom ==> lib_value(answers.is_dom) == Json::List(seq![Json::Text("es2022"@)]),
{
    lemma_key_shapes();
    let options = compiler_options(answers);
    assert(options[options.len() - 1] == ("lib"@, lib_value(answers.is_dom)));
}

/// `declaration` is set, to `true`, for a library, and is absent for any
/// other project.
pub proof fn law_declaration_key(answers: Answers)
    ensures
        answers.is_library ==> holds_once(
            compiler_options(answers),
            "declaration"@,
            Json::Bool(true),
        ),
        !answers.is_library ==> !has_key(compiler_options(answers), "declaration"@),
{
    lemma_key_shapes();
    let options = compiler_options(answers);
    let before = base_members() + strictness_members(answers.strictness) + emit_members(
        answers.is_transpiler,
    );
    let at = before.len() as int;
    if answers.is_library {
        assert(options[at] == ("declaration"@, Json::Bool(true)));
    }
}

/// `composite` and `declarationMap` are set, to `true`, for a library in a
/// monorepo, and both are absent for any other project.
pub proof fn law_monorepo_keys(answers: Answers)
    ensures
        answers.is_monorepo ==> {
            &&& holds_once(compiler_options(answers), "composite"@, Json::Bool(true))
            &&& holds_once(compiler_options(answers), "declarationMap"@, Json::Bool(true))
        },
        !answers.is_monorepo ==> {
            &&& !has_key(compiler_options(answers), "composite"@)
            &&& !has_key(compiler_options(answers), "declarationMap"@)
        },
{
    lemma_key_shapes();
    let options = compiler_options(answers);
    if answers.is_monorepo {
        assert(options[options.len() - 3] == ("composite"@, Json::Bool(true)));
        assert(options[options.len() - 2] == ("declarationMap"@, Json::Bool(true)));
    }
}

/// Rendering is repeatable: two texts rendered for answers that agree in
/// all but the project's name are the same text.
pub proof fn law_rendering_repeatable(
    first: Answers,
    second: Answers,
    first_text: Seq<char>,
    second_text: Seq<char>,
)
    requires
        first.strictness == second.strictness,
        first.is_transpiler == second.is_transpiler,
        first.is_library == second.is_library,
        first.is_monorepo == second.is_monorepo,
        first.is_dom == second.is_dom,
        first_text == rendered(first),
        second_text == rendered(second),
    ensures
        first_text == second_text,
{
    assert(compiler_options(first) == compiler_options(second));
}

/// Six replies that fit, given in the order of the questions, close every
/// question, and the answers are the ones given.
pub proof fn law_six_replies_complete(
    name: Seq<char>,
    level: Strictness,
    is_transpiler: bool,
    is_library: bool,
    is_monorepo: bool,
    is_dom: bool,
)
    requires
        name.len() > 0,
    ensures
        ({
            let named = step(initial(), ReplyModel::Text(name));
            let levelled = step(named, ReplyModel::Choice(level.spec_index()));
            let emitting = step(levelled, ReplyModel::Flag(is_transpiler));
            let shared = step(emitting, ReplyModel::Flag(is_library));
            let nested = step(shared, ReplyModel::Flag(is_monorepo));
            let end = step(nested, ReplyModel::Flag(is_dom));
            &&& end.stage == Stage::Complete
            &&& end.draft == (Answers {
                project_name: name,
                strictness: level,
                is_transpiler,
                is_library,
                is_monorepo,
                is_dom,
            })
        }),
{
}

/// Without any input the answers are the defaults.
pub proof fn law_no_input_gives_defaults()
    ensures
        ({
            let one = step(initial(), ReplyModel::Default);
            let two = step(one, ReplyModel::Default);
            let three = step(two, ReplyModel::Default);
            let four = step(three, ReplyModel::Default);
            let five = step(four, ReplyModel::Default);
            let end = step(five, ReplyModel::Default);
            &&& end.stage == Stage::Complete
            &&& end.draft == default_answers()
        }),
{
}

/// A reply never takes the project's name away.
pub proof fn law_name_stays(state: CollectorModel, reply: ReplyModel)
    requires
        state.draft.well_formed(),
    ensures
        step(state, reply).draft.well_formed(),
{
}

/// A reply that is not taken ends the run: no question is open afterwards,
/// and a collection that was not complete does not become so.
pub proof fn law_refusal_is_final(state: CollectorModel, reply: ReplyModel)
    requires
        verdict(state, reply) is Err,
    ensures
        !(step(state, reply).stage is Asking),
        step(state, reply).stage is Complete ==> state.stage is Complete,
{
}

/// A position that names no level ends the run at the second question, with
/// no level taken for the answer.
pub proof fn law_invalid_choice_ends_the_run(draft: Answers, index: int)
    requires
        !(0 <= index <= 2),
    ensures
        ({
            let state = CollectorModel { stage: Stage::Asking(Question::Strictness), draft };
            &&& verdict(state, ReplyModel::Choice(index)) == Err::<(), ConfigError>(
                ConfigError::InvalidChoice,
            )
            &&& step(state, ReplyModel::Choice(index)) == (CollectorModel {
                stage: Stage::Failed,
                draft,
            })
        }),
{
}

/// Once no question is open, no reply changes the collector: a run that
/// ended stays ended, and a complete collection stays as it is.
pub proof fn law_closed_stays_closed(state: CollectorModel, reply: ReplyModel)
    requires
        !(state.stage is Asking),
    ensures
        step(state, reply) == state,
        verdict(state, reply) is Err,
{
}

} // verus!
