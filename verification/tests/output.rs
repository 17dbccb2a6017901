use serde_json::Value;
use tsconfig_init::error::ConfigError;
use tsconfig_init::options::{ProjectOptions, Strictness};
use tsconfig_init::output::{
    finish_rendering, plan_output, plan_with, render_tsconfig, resolve_target, TargetDir,
};
use tsconfig_init::synth::generate_tsconfig;

fn balanced(name: &str) -> ProjectOptions {
    ProjectOptions {
        project_name: String::from(name),
        strictness: Strictness::On,
        is_transpiler: true,
        is_library: false,
        is_monorepo: false,
        is_dom: false,
    }
}

const BALANCED_TEXT: &str = r#"{
  "compilerOptions": {
    "esModuleInterop": true,
    "skipLibCheck": true,
    "target": "es2022",
    "allowJs": true,
    "resolveJsonModule": true,
    "moduleDetection": "force",
    "isolatedModules": true,
    "verbatimModuleSyntax": true,
    "strict": true,
    "module": "NodeNext",
    "outDir": "dist",
    "sourceMap": true,
    "lib": [
      "es2022"
    ]
  }
}"#;

const RIGOROUS_TEXT: &str = r#"{
  "compilerOptions": {
    "esModuleInterop": true,
    "skipLibCheck": true,
    "target": "es2022",
    "allowJs": true,
    "resolveJsonModule": true,
    "moduleDetection": "force",
    "isolatedModules": true,
    "verbatimModuleSyntax": true,
    "strict": true,
    "noUncheckedIndexedAccess": true,
    "noImplicitOverride": true,
    "module": "preserve",
    "noEmit": true,
    "declaration": true,
    "composite": true,
    "declarationMap": true,
    "lib": [
      "es2022",
      "dom",
      "dom.iterable"
    ]
  }
}"#;

#[test]
fn render_balanced_project_exactly() {
    let text = render_tsconfig(&balanced(".")).expect("the document renders");
    assert_eq!(text, BALANCED_TEXT);
}

#[test]
fn render_rigorous_project_exactly() {
    let options = ProjectOptions {
        project_name: String::from("lib"),
        strictness: Strictness::Strict,
        is_transpiler: false,
        is_library: true,
        is_monorepo: true,
        is_dom: true,
    };
    let text = render_tsconfig(&options).expect("the document renders");
    assert_eq!(text, RIGOROUS_TEXT);
}

#[test]
fn render_twice_gives_the_same_bytes() {
    for level in [Strictness::Off, Strictness::On, Strictness::Strict] {
        for bits in 0u8..16u8 {
            let options = ProjectOptions {
                project_name: String::from("."),
                strictness: level,
                is_transpiler: bits & 1 != 0,
                is_library: bits & 2 != 0,
                is_monorepo: bits & 4 != 0,
                is_dom: bits & 8 != 0,
            };
            let first = render_tsconfig(&options).expect("the document renders");
            let second = render_tsconfig(&options).expect("the document renders");
            assert_eq!(first.as_bytes(), second.as_bytes());
        }
    }
}

#[test]
fn render_does_not_depend_on_the_name() {
    let here = render_tsconfig(&balanced(".")).expect("the document renders");
    let there = render_tsconfig(&balanced("web")).expect("the document renders");
    assert_eq!(here, there);
}

#[test]
fn rendered_text_parses_back_to_the_document() {
    let options = balanced(".");
    let text = render_tsconfig(&options).expect("the document renders");
    let parsed: Value = serde_json::from_str(&text).expect("the text is JSON");
    assert_eq!(parsed, generate_tsconfig(&options));
}

#[test]
fn finish_rendering_hands_a_text_on() {
    let result = finish_rendering(Ok(String::from("{}")));
    assert!(matches!(result, Ok(text) if text == "{}"));
}

#[test]
fn finish_rendering_reports_serialization() {
    let cause = serde_json::from_str::<Value>("{").expect_err("the text is cut off");
    let message = cause.to_string();
    let result = finish_rendering(Err(cause));
    assert!(matches!(
        result,
        Err(ConfigError::Serialization(kept)) if kept.to_string() == message
    ));
}

#[test]
fn resolve_target_current_directory() {
    assert!(matches!(resolve_target(&balanced(".")), TargetDir::Current));
}

#[test]
fn resolve_target_named_directory() {
    assert!(matches!(
        resolve_target(&balanced("my-app")),
        TargetDir::Child(name) if name == "my-app"
    ));
    assert!(matches!(
        resolve_target(&balanced("./")),
        TargetDir::Child(name) if name == "./"
    ));
}

#[test]
fn path_suffix_of_the_current_directory_is_empty() {
    assert_eq!(TargetDir::Current.path_suffix(), "");
    assert_eq!(resolve_target(&balanced(".")).path_suffix(), "");
}

#[test]
fn path_suffix_puts_a_child_below_the_current_directory() {
    assert_eq!(TargetDir::Child(String::from("app")).path_suffix(), "/app");
    assert_eq!(TargetDir::Child(String::from("a/b")).path_suffix(), "/a/b");
    assert_eq!(TargetDir::Child(String::from("/abs")).path_suffix(), "//abs");
    assert_eq!(resolve_target(&balanced("web")).path_suffix(), "/web");
}

#[test]
fn rendering_succeeds_for_all_answers() {
    for level in [Strictness::Off, Strictness::On, Strictness::Strict] {
        for bits in 0u8..16u8 {
            let options = ProjectOptions {
                project_name: String::from("web"),
                strictness: level,
                is_transpiler: bits & 1 != 0,
                is_library: bits & 2 != 0,
                is_monorepo: bits & 4 != 0,
                is_dom: bits & 8 != 0,
            };
            assert!(render_tsconfig(&options).is_ok());
            assert!(plan_output(&options).is_ok());
        }
    }
}

#[test]
fn plan_with_names_the_file() {
    let plan = plan_with(&balanced("web"), String::from("text"));
    assert!(matches!(plan.dir, TargetDir::Child(name) if name == "web"));
    assert_eq!(plan.file_name, "tsconfig.json");
    assert_eq!(plan.contents, "text");
}

#[test]
fn plan_output_for_current_directory() {
    let plan = plan_output(&balanced(".")).expect("the document renders");
    assert!(matches!(plan.dir, TargetDir::Current));
    assert_eq!(plan.file_name, "tsconfig.json");
    assert_eq!(plan.contents, BALANCED_TEXT);
}

#[test]
fn plan_output_for_named_directory() {
    let options = balanced("packages/core");
    let plan = plan_output(&options).expect("the document renders");
    assert!(matches!(plan.dir, TargetDir::Child(name) if name == "packages/core"));
    assert_eq!(plan.file_name, "tsconfig.json");
    let parsed: Value = serde_json::from_str(&plan.contents).expect("the text is JSON");
    assert_eq!(parsed, generate_tsconfig(&options));
}
