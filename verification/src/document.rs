//! What a `tsconfig.json` holds for given answers, as a mathematical value.

use vstd::prelude::*;
use crate::json::{keys_unique, lemma_overlay_fresh, overlay, Json, Members};
use crate::options::{Answers, Strictness};

verus! {

/// The options that every project gets.
pub open spec fn base_members() -> Members {
    seq![
        ("esModuleInterop"@, Json::Bool(true)),
        ("skipLibCheck"@, Json::Bool(true)),
        ("target"@, Json::Text("es2022"@)),
        ("allowJs"@, Json::Bool(true)),
        ("resolveJsonModule"@, Json::Bool(true)),
        ("moduleDetection"@, Json::Text("force"@)),
        ("isolatedModules"@, Json::Bool(true)),
        ("verbatimModuleSyntax"@, Json::Bool(true)),
    ]
}

/// The options that a level of strictness adds.
pub open spec fn strictness_members(level: Strictness) -> Members {
    match level {
        Strictness::Off => seq![],
        Strictness::On => seq![("strict"@, Json::Bool(true))],
        Strictness::Strict => seq![
            ("strict"@, Json::Bool(true)),
            ("noUncheckedIndexedAccess"@, Json::Bool(true)),
            ("noImplicitOverride"@, Json::Bool(true)),
        ],
    }
}

/// The options on output: a project that `tsc` transpiles emits modules and
/// source maps into `dist`, any other is only checked.
pub open spec fn emit_members(is_transpiler: bool) -> Members {
    if is_transpiler {
        seq![
            ("module"@, Json::Text("NodeNext"@)),
            ("outDir"@, Json::Text("dist"@)),
            ("sourceMap"@, Json::Bool(true)),
        ]
    } else {
        seq![("module"@, Json::Text("preserve"@)), ("noEmit"@, Json::Bool(true))]
    }
}

/// The option that a library adds.
pub open spec fn library_members(is_library: bool) -> Members {
    if is_library {
        seq![("declaration"@, Json::Bool(true))]
    } else {
        seq![]
    }
}

/// The options that a library in a monorepo adds.
pub open spec fn monorepo_members(is_monorepo: bool) -> Members {
    if is_monorepo {
        seq![("composite"@, Json::Bool(true)), ("declarationMap"@, Json::Bool(true))]
    } else {
        seq![]
    }
}

/// The type libraries of the environment: a browser project also gets the DOM.
pub open spec fn lib_value(is_dom: bool) -> Json {
    if is_dom {
        Json::List(
            seq![Json::Text("es2022"@), Json::Text("dom"@), Json::Text("dom.iterable"@)],
        )
    } else {
        Json::List(seq![Json::Text("es2022"@)])
    }
}

/// The option on the environment.
pub open spec fn dom_members(is_dom: bool) -> Members {
    seq![("lib"@, lib_value(is_dom))]
}

/// The compiler options for `answers`: the base options, then what each
/// answer adds, in the order of the questions.
pub open spec fn compiler_options(answers: Answers) -> Members {
    base_members() + strictness_members(answers.strictness) + emit_members(
        answers.is_transpiler,
    ) + library_members(answers.is_library) + monorepo_members(answers.is_monorepo)
        + dom_members(answers.is_dom)
}

/// The whole document for `answers`: the compiler options under the one key
/// `compilerOptions`.
pub open spec fn tsconfig_doc(answers: Answers) -> Json {
    Json::Object(seq![("compilerOptions"@, Json::Object(compiler_options(answers)))])
}

/// The length and the first letter of each option's name. No two names share
/// both, which is how the names are told apart.
pub proof fn lemma_key_shapes()
    ensures
        "esModuleInterop"@.len() == 15 && "esModuleInterop"@[0] == 'e',
        "skipLibCheck"@.len() == 12 && "skipLibCheck"@[0] == 's',
        "target"@.len() == 6 && "target"@[0] == 't',
        "allowJs"@.len() == 7 && "allowJs"@[0] == 'a',
        "resolveJsonModule"@.len() == 17 && "resolveJsonModule"@[0] == 'r',
        "moduleDetection"@.len() == 15 && "moduleDetection"@[0] == 'm',
        "isolatedModules"@.len() == 15 && "isolatedModules"@[0] == 'i',
        "verbatimModuleSyntax"@.len() == 20 && "verbatimModuleSyntax"@[0] == 'v',
        "strict"@.len() == 6 && "strict"@[0] == 's',
        "noUncheckedIndexedAccess"@.len() == 24 && "noUncheckedIndexedAccess"@[0] == 'n',
        "noImplicitOverride"@.len() == 18 && "noImplicitOverride"@[0] == 'n',
        "module"@.len() == 6 && "module"@[0] == 'm',
        "outDir"@.len() == 6 && "outDir"@[0] == 'o',
        "sourceMap"@.len() == 9 && "sourceMap"@[0] == 's',
        "noEmit"@.len() == 6 && "noEmit"@[0] == 'n',
        "declaration"@.len() == 11 && "declaration"@[0] == 'd',
        "composite"@.len() == 9 && "composite"@[0] == 'c',
        "declarationMap"@.len() == 14 && "declarationMap"@[0] == 'd',
        "lib"@.len() == 3 && "lib"@[0] == 'l',
{
    reveal_strlit("esModuleInterop");
    reveal_strlit("skipLibCheck");
    reveal_strlit("target");
    reveal_strlit("allowJs");
    reveal_strlit("resolveJsonModule");
    reveal_strlit("moduleDetection");
    reveal_strlit("isolatedModules");
    reveal_strlit("verbatimModuleSyntax");
    reveal_strlit("strict");
    reveal_strlit("noUncheckedIndexedAccess");
    reveal_strlit("noImplicitOverride");
    reveal_strlit("module");
    reveal_strlit("outDir");
    reveal_strlit("sourceMap");
    reveal_strlit("noEmit");
    reveal_strlit("declaration");
    reveal_strlit("composite");
    reveal_strlit("declarationMap");
    reveal_strlit("lib");
}

/// The compiler options as the synthesizer builds them: the six groups laid
/// over an empty object, one after the other.
pub open spec fn layered_options(answers: Answers) -> Members {
    let base = overlay(Seq::empty(), base_members());
    let levelled = overlay(base, strictness_members(answers.strictness));
    let emitting = overlay(levelled, emit_members(answers.is_transpiler));
    let shared = overlay(emitting, library_members(answers.is_library));
    let nested = overlay(shared, monorepo_members(answers.is_monorepo));
    overlay(nested, dom_members(answers.is_dom))
}

/// No group sets a key that an earlier one set, so laying the groups over
/// each other only appends them.
pub proof fn lemma_layers_only_append(answers: Answers)
    ensures
        layered_options(answers) == compiler_options(answers),
{
    lemma_key_shapes();
    let empty = Seq::<(Seq<char>, Json)>::empty();
    let base = base_members();
    let strictness = strictness_members(answers.strictness);
    let emit = emit_members(answers.is_transpiler);
    let library = library_members(answers.is_library);
    let monorepo = monorepo_members(answers.is_monorepo);
    let dom = dom_members(answers.is_dom);
    lemma_overlay_fresh(empty, base);
    assert(empty + base =~= base);
    lemma_overlay_fresh(base, strictness);
    lemma_overlay_fresh(base + strictness, emit);
    lemma_overlay_fresh(base + strictness + emit, library);
    lemma_overlay_fresh(base + strictness + emit + library, monorepo);
    lemma_overlay_fresh(base + strictness + emit + library + monorepo, dom);
}

} // verus!
