//! The synthesizer: from answers to the `tsconfig.json` document.

use vstd::prelude::*;
use crate::backend::{
    bool_value, insert_member, json_doc, list_value, new_object, object_members, object_value,
    text_value,
};
use crate::document::{
    base_members, dom_members, emit_members, lemma_layers_only_append, lib_value,
    library_members, monorepo_members, strictness_members, tsconfig_doc,
};
use crate::json::{lemma_overlay_push, overlay, upsert, Json};
use crate::options::{ProjectOptions, Strictness};

verus! {

/// Sets the option `key` to a flag.
fn set_flag(object: &mut serde_json::Map<String, serde_json::Value>, key: &str, flag: bool)
    ensures
        object_members(*final(object)) == upsert(
            object_members(*old(object)),
            key@,
            Json::Bool(flag),
        ),
{
    let value = bool_value(flag);
    insert_member(object, key, value);
}

/// Sets the option `key` to a text.
fn set_text(object: &mut serde_json::Map<String, serde_json::Value>, key: &str, text: &str)
    ensures
        object_members(*final(object)) == upsert(
            object_members(*old(object)),
            key@,
            Json::Text(text@),
        ),
{
    let value = text_value(text);
    insert_member(object, key, value);
}

/// Lays the options that every project gets over `object`.
pub fn apply_base(object: &mut serde_json::Map<String, serde_json::Value>)
    ensures
        object_members(*final(object)) == overlay(object_members(*old(object)), base_members()),
{
    let ghost start = object_members(*object);
    let ghost t0 = Seq::<(Seq<char>, Json)>::empty();
    set_flag(object, "esModuleInterop", true);
    let ghost t1 = t0.push(("esModuleInterop"@, Json::Bool(true)));
    set_flag(object, "skipLibCheck", true);
    let ghost t2 = t1.push(("skipLibCheck"@, Json::Bool(true)));
    set_text(object, "target", "es2022");
    let ghost t3 = t2.push(("target"@, Json::Text("es2022"@)));
    set_flag(object, "allowJs", true);
    let ghost t4 = t3.push(("allowJs"@, Json::Bool(true)));
    set_flag(object, "resolveJsonModule", true);
    let ghost t5 = t4.push(("resolveJsonModule"@, Json::Bool(true)));
    set_text(object, "moduleDetection", "force");
    let ghost t6 = t5.push(("moduleDetection"@, Json::Text("force"@)));
    set_flag(object, "isolatedModules", true);
    let ghost t7 = t6.push(("isolatedModules"@, Json::Bool(true)));
    set_flag(object, "verbatimModuleSyntax", true);
    proof {
        lemma_overlay_push(start, t0, "esModuleInterop"@, Json::Bool(true));
        lemma_overlay_push(start, t1, "skipLibCheck"@, Json::Bool(true));
        lemma_overlay_push(start, t2, "target"@, Json::Text("es2022"@));
        lemma_overlay_push(start, t3, "allowJs"@, Json::Bool(true));
        lemma_overlay_push(start, t4, "resolveJsonModule"@, Json::Bool(true));
        lemma_overlay_push(start, t5, "moduleDetection"@, Json::Text("force"@));
        lemma_overlay_push(start, t6, "isolatedModules"@, Json::Bool(true));
        lemma_overlay_push(start, t7, "verbatimModuleSyntax"@, Json::Bool(true));
        assert(t7.push(("verbatimModuleSyntax"@, Json::Bool(true))) =~= base_members());
    }
}

/// Lays the options of a level of strictness over `object`.
pub fn apply_strictness(
    object: &mut serde_json::Map<String, serde_json::Value>,
    level: Strictness,
)
    ensures
        object_members(*final(object)) == overlay(
            object_members(*old(object)),
            strictness_members(level),
        ),
{
    let ghost start = object_members(*object);
    let ghost t0 = Seq::<(Seq<char>, Json)>::empty();
    match level {
        Strictness::Strict => {
            set_flag(object, "strict", true);
            let ghost t1 = t0.push(("strict"@, Json::Bool(true)));
            set_flag(object, "noUncheckedIndexedAccess", true);
            let ghost t2 = t1.push(("noUncheckedIndexedAccess"@, Json::Bool(true)));
            set_flag(object, "noImplicitOverride", true);
            proof {
                lemma_overlay_push(start, t0, "strict"@, Json::Bool(true));
                lemma_overlay_push(start, t1, "noUncheckedIndexedAccess"@, Json::Bool(true));
                lemma_overlay_push(start, t2, "noImplicitOverride"@, Json::Bool(true));
                assert(t2.push(("noImplicitOverride"@, Json::Bool(true))) =~= strictness_members(
                    level,
                ));
            }
        },
        Strictness::On => {
            set_flag(object, "strict", true);
            proof {
                lemma_overlay_push(start, t0, "strict"@, Json::Bool(true));
            }
        },
        Strictness::Off => {},
    }
}

/// Lays the options on output over `object`.
pub fn apply_emit(object: &mut serde_json::Map<String, serde_json::Value>, is_transpiler: bool)
    ensures
        object_members(*final(object)) == overlay(
            object_members(*old(object)),
            emit_members(is_transpiler),
        ),
{
    let ghost start = object_members(*object);
    let ghost t0 = Seq::<(Seq<char>, Json)>::empty();
    if is_transpiler {
        set_text(object, "module", "NodeNext");
        let ghost t1 = t0.push(("module"@, Json::Text("NodeNext"@)));
        set_text(object, "outDir", "dist");
        let ghost t2 = t1.push(("outDir"@, Json::Text("dist"@)));
        set_flag(object, "sourceMap", true);
        proof {
            lemma_overlay_push(start, t0, "module"@, Json::Text("NodeNext"@));
            lemma_overlay_push(start, t1, "outDir"@, Json::Text("dist"@));
            lemma_overlay_push(start, t2, "sourceMap"@, Json::Bool(true));
            assert(t2.push(("sourceMap"@, Json::Bool(true))) =~= emit_members(is_transpiler));
        }
    } else {
        set_text(object, "module", "preserve");
        let ghost t1 = t0.push(("module"@, Json::Text("preserve"@)));
        set_flag(object, "noEmit", true);
        proof {
            lemma_overlay_push(start, t0, "module"@, Json::Text("preserve"@));
            lemma_overlay_push(start, t1, "noEmit"@, Json::Bool(true));
            assert(t1.push(("noEmit"@, Json::Bool(true))) =~= emit_members(is_transpiler));
        }
    }
}

/// Lays the option of a library over `object`.
pub fn apply_library(object: &mut serde_json::Map<String, serde_json::Value>, is_library: bool)
    ensures
        object_members(*final(object)) == overlay(
            object_members(*old(object)),
            library_members(is_library),
        ),
{
    let ghost start = object_members(*object);
    if is_library {
        set_flag(object, "declaration", true);
        proof {
            lemma_overlay_push(start, Seq::empty(), "declaration"@, Json::Bool(true));
        }
    }
}

/// Lays the options of a library in a monorepo over `object`.
pub fn apply_monorepo(object: &mut serde_json::Map<String, serde_json::Value>, is_monorepo: bool)
    ensures
        object_members(*final(object)) == overlay(
            object_members(*old(object)),
            monorepo_members(is_monorepo),
        ),
{
    let ghost start = object_members(*object);
    let ghost t0 = Seq::<(Seq<char>, Json)>::empty();
    if is_monorepo {
        set_flag(object, "composite", true);
        let ghost t1 = t0.push(("composite"@, Json::Bool(true)));
        set_flag(object, "declarationMap", true);
        proof {
            lemma_overlay_push(start, t0, "composite"@, Json::Bool(true));
            lemma_overlay_push(start, t1, "declarationMap"@, Json::Bool(true));
            assert(t1.push(("declarationMap"@, Json::Bool(true))) =~= monorepo_members(
                is_monorepo,
            ));
        }
    }
}

/// The list of type libraries for the environment.
pub fn lib_list(is_dom: bool) -> (value: serde_json::Value)
    ensures
        json_doc(value) == lib_value(is_dom),
{
    let mut items: Vec<serde_json::Value> = Vec::new();
    items.push(text_value("es2022"));
    if is_dom {
        items.push(text_value("dom"));
        items.push(text_value("dom.iterable"));
    }
    let ghost docs = items@.map_values(|item: serde_json::Value| json_doc(item));
    proof {
        if is_dom {
            assert(docs =~= seq![
                Json::Text("es2022"@),
                Json::Text("dom"@),
                Json::Text("dom.iterable"@),
            ]);
        } else {
            assert(docs =~= seq![Json::Text("es2022"@)]);
        }
    }
    list_value(items)
}

/// Lays the option on the environment over `object`.
pub fn apply_dom(object: &mut serde_json::Map<String, serde_json::Value>, is_dom: bool)
    ensures
        object_members(*final(object)) == overlay(
            object_members(*old(object)),
            dom_members(is_dom),
        ),
{
    let ghost start = object_members(*object);
    let value = lib_list(is_dom);
    insert_member(object, "lib", value);
    proof {
        lemma_overlay_push(start, Seq::empty(), "lib"@, lib_value(is_dom));
    }
}

/// The `tsconfig.json` document for `options`.
///
/// The compiler options are the base options followed by what each answer
/// adds, in the order of the questions; no answer touches an option that
/// another one set. The project's name has no part in the document.
pub fn generate_tsconfig(options: &ProjectOptions) -> (document: serde_json::Value)
    ensures
        json_doc(document) == tsconfig_doc(options@),
{
    let mut settings = new_object();
    apply_base(&mut settings);
    apply_strictness(&mut settings, options.strictness);
    apply_emit(&mut settings, options.is_transpiler);
    apply_library(&mut settings, options.is_library);
    apply_monorepo(&mut settings, options.is_monorepo);
    apply_dom(&mut settings, options.is_dom);
    proof {
        lemma_layers_only_append(options@);
    }
    let mut root = new_object();
    insert_member(&mut root, "compilerOptions", object_value(settings));
    object_value(root)
}

} // verus!
