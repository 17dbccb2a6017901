use tsconfig_init::options::{ProjectOptions, Strictness};

#[test]
fn strictness_from_index_maps_the_three_positions() {
    assert_eq!(Strictness::from_index(0), Some(Strictness::Off));
    assert_eq!(Strictness::from_index(1), Some(Strictness::On));
    assert_eq!(Strictness::from_index(2), Some(Strictness::Strict));
}

#[test]
fn strictness_from_index_refuses_other_positions() {
    assert_eq!(Strictness::from_index(3), None);
    assert_eq!(Strictness::from_index(usize::MAX), None);
}

#[test]
fn strictness_index_is_the_inverse_of_from_index() {
    for level in [Strictness::Off, Strictness::On, Strictness::Strict] {
        assert_eq!(Strictness::from_index(level.index()), Some(level));
    }
    assert_eq!(Strictness::Off.index(), 0);
    assert_eq!(Strictness::On.index(), 1);
    assert_eq!(Strictness::Strict.index(), 2);
}

#[test]
fn strictness_labels() {
    assert_eq!(Strictness::Off.label(), "Relaxed (Few checks)");
    assert_eq!(Strictness::On.label(), "Balanced (Recommended)");
    assert_eq!(Strictness::Strict.label(), "Rigorous (Maximum safety)");
}

#[test]
fn defaults_for_every_question() {
    let options = ProjectOptions::defaults();
    assert_eq!(options.project_name, ".");
    assert_eq!(options.strictness, Strictness::On);
    assert!(options.is_transpiler);
    assert!(!options.is_library);
    assert!(!options.is_monorepo);
    assert!(!options.is_dom);
}

#[test]
fn dot_names_the_current_directory() {
    let mut options = ProjectOptions::defaults();
    assert!(options.names_current_dir());
    options.project_name = String::from("app");
    assert!(!options.names_current_dir());
    options.project_name = String::from("./");
    assert!(!options.names_current_dir());
    options.project_name = String::from("..");
    assert!(!options.names_current_dir());
}
