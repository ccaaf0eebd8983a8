use railwind::spacing::{Spacing, Side};
use railwind::table::Tables;
use railwind::warning::WarningType;

fn decl_of(token: &str, tables: &Tables) -> (String, String) {
    let spacing = Spacing::new(token, tables)
        .expect("token should resolve")
        .expect("token should match a category");
    let decl = spacing.to_decl().expect("emission should succeed");
    (decl.property, decl.value)
}

#[test]
fn mt_4_resolves_to_margin_top_1rem() {
    let tables = Tables::new();
    let (property, value) = decl_of("mt-4", &tables);
    assert_eq!(property, "margin-top");
    assert_eq!(value, "1rem");
}

#[test]
fn p_7_is_invalid_arg_with_all_padding_keys() {
    let tables = Tables::new();
    let err = Spacing::new("p-7", &tables).unwrap_err();
    match err {
        WarningType::InvalidArg(received, allowed) => {
            assert_eq!(received, "7");
            let padding_keys = tables.padding.keys_vec();
            assert_eq!(allowed, padding_keys);
            assert!(!allowed.is_empty());
        }
        other => panic!("expected InvalidArg, got {:?}", other),
    }
}

#[test]
fn space_x_bogus_is_blamed_on_space_between() {
    let tables = Tables::new();
    let err = Spacing::new("space-x-bogus", &tables).unwrap_err();
    match err {
        WarningType::InvalidArg(received, allowed) => {
            assert_eq!(received, "bogus");
            assert_eq!(allowed, tables.space_between.keys_vec());
        }
        other => panic!("expected InvalidArg from space-between, got {:?}", other),
    }
}

#[test]
fn too_many_args_is_raised_before_any_category() {
    let tables = Tables::new();
    // a margin name with too many arguments
    match Spacing::new("mt-1-2-3", &tables).unwrap_err() {
        WarningType::TooManyArgs(received, required) => {
            assert_eq!(received, 3);
            assert_eq!(required, 2);
        }
        other => panic!("expected TooManyArgs, got {:?}", other),
    }
    // even a name no category knows is rejected for its argument count first
    match Spacing::new("zz-1-2-3", &tables).unwrap_err() {
        WarningType::TooManyArgs(received, required) => {
            assert_eq!(received, 3);
            assert_eq!(required, 2);
        }
        other => panic!("expected TooManyArgs, got {:?}", other),
    }
}

#[test]
fn unknown_class_yields_no_match_not_an_error() {
    let tables = Tables::new();
    assert!(Spacing::new("flex", &tables).unwrap().is_none());
    assert!(Spacing::new("foo-4", &tables).unwrap().is_none());
    assert!(Spacing::new("hover:grid", &tables).unwrap().is_none());
    assert!(Spacing::new("", &tables).unwrap().is_none());
}

#[test]
fn dispatch_is_deterministic() {
    let tables = Tables::new();
    let first = decl_of("px-2", &tables);
    let second = decl_of("px-2", &tables);
    assert_eq!(first, second);
    assert_eq!(first.0, "padding-inline");
    assert_eq!(first.1, "0.5rem");
}

#[test]
fn padding_sides_map_to_their_properties() {
    let tables = Tables::new();
    assert_eq!(decl_of("p-0", &tables), ("padding".to_string(), "0px".to_string()));
    assert_eq!(decl_of("pt-2", &tables), ("padding-top".to_string(), "0.5rem".to_string()));
    assert_eq!(decl_of("pr-1", &tables), ("padding-right".to_string(), "0.25rem".to_string()));
    assert_eq!(decl_of("pb-px", &tables), ("padding-bottom".to_string(), "1px".to_string()));
    assert_eq!(decl_of("pl-8", &tables), ("padding-left".to_string(), "2rem".to_string()));
    assert_eq!(decl_of("py-96", &tables), ("padding-block".to_string(), "24rem".to_string()));
}

#[test]
fn margin_sides_map_to_their_properties() {
    let tables = Tables::new();
    assert_eq!(decl_of("m-0.5", &tables), ("margin".to_string(), "0.125rem".to_string()));
    assert_eq!(decl_of("mr-12", &tables), ("margin-right".to_string(), "3rem".to_string()));
    assert_eq!(decl_of("mb-3.5", &tables), ("margin-bottom".to_string(), "0.875rem".to_string()));
    assert_eq!(decl_of("ml-64", &tables), ("margin-left".to_string(), "16rem".to_string()));
    assert_eq!(decl_of("my-1.5", &tables), ("margin-block".to_string(), "0.375rem".to_string()));
    assert_eq!(decl_of("mx-auto", &tables), ("margin-inline".to_string(), "auto".to_string()));
}

#[test]
fn margin_accepts_auto_but_padding_does_not() {
    let tables = Tables::new();
    assert_eq!(decl_of("m-auto", &tables), ("margin".to_string(), "auto".to_string()));
    match Spacing::new("p-auto", &tables).unwrap_err() {
        WarningType::InvalidArg(received, _) => assert_eq!(received, "auto"),
        other => panic!("expected InvalidArg, got {:?}", other),
    }
}

#[test]
fn space_between_axes_and_reverse() {
    let tables = Tables::new();
    assert_eq!(decl_of("space-x-4", &tables), ("margin-left".to_string(), "1rem".to_string()));
    assert_eq!(decl_of("space-y-2", &tables), ("margin-top".to_string(), "0.5rem".to_string()));
    assert_eq!(
        decl_of("space-x-reverse", &tables),
        ("--tw-space-x-reverse".to_string(), "1".to_string())
    );
    assert_eq!(
        decl_of("space-y-reverse", &tables),
        ("--tw-space-y-reverse".to_string(), "1".to_string())
    );
}

#[test]
fn unrecognized_axis_is_state_not_found() {
    let tables = Tables::new();
    match Spacing::new("space-z-4", &tables).unwrap_err() {
        WarningType::StateNotFound(state) => assert_eq!(state, "z"),
        other => panic!("expected StateNotFound, got {:?}", other),
    }
}

#[test]
fn recognized_name_without_argument_is_invalid_never_class_not_found() {
    let tables = Tables::new();
    // a claimed token is rejected by its own category; within the dispatcher
    // only Ok(None) means "no category matched"
    match Spacing::new("p", &tables).unwrap_err() {
        WarningType::InvalidArg(received, allowed) => {
            assert_eq!(received, "");
            assert_eq!(allowed, tables.padding.keys_vec());
        }
        other => panic!("expected InvalidArg, got {:?}", other),
    }
    match Spacing::new("space-x", &tables).unwrap_err() {
        WarningType::InvalidArg(received, allowed) => {
            assert_eq!(received, "");
            assert_eq!(allowed, tables.space_between.keys_vec());
        }
        other => panic!("expected InvalidArg, got {:?}", other),
    }
    match Spacing::new("space", &tables).unwrap_err() {
        WarningType::StateNotFound(state) => assert_eq!(state, ""),
        other => panic!("expected StateNotFound, got {:?}", other),
    }
}

#[test]
fn variant_prefixes_are_stripped() {
    let tables = Tables::new();
    assert_eq!(decl_of("hover:mt-4", &tables), ("margin-top".to_string(), "1rem".to_string()));
    assert_eq!(
        decl_of("md:focus:space-x-0", &tables),
        ("margin-left".to_string(), "0px".to_string())
    );
}

#[test]
fn decl_renders_one_stylesheet_line() {
    let tables = Tables::new();
    let spacing = Spacing::new("mt-4", &tables).unwrap().unwrap();
    let decl = spacing.to_decl().unwrap();
    assert_eq!(decl.css_text(), "margin-top: 1rem;");
}
