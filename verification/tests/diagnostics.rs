use railwind::spacing::{resolve_all, Spacing};
use railwind::table::Tables;
use railwind::warning::{Position, Warning, WarningType};

#[test]
fn class_not_found_renders_exactly() {
    let w = Warning::new("foo", &Position::new(1, 2), WarningType::ClassNotFound);
    assert_eq!(w.text(), "Warning on Line: 1, Col: 2; Could not match class 'foo'");
}

#[test]
fn rendered_warning_carries_kind_position_and_offender() {
    let tables = Tables::new();
    let err = Spacing::new("space-x-bogus", &tables).unwrap_err();
    let w = Warning::new("space-x-bogus", &Position::new(3, 57), err);
    let text = w.text();
    assert!(text.contains("Line: 3"));
    assert!(text.contains("Col: 57"));
    assert!(text.contains("space-x-bogus"));
    assert!(text.contains("invalid argument 'bogus'"));
    assert!(text.contains("possible arguments:"));
}

#[test]
fn too_many_args_message_carries_both_counts() {
    let w = Warning::new(
        "mt-1-2-3",
        &Position::new(10, 20),
        WarningType::TooManyArgs(3, 2),
    );
    let text = w.text();
    assert!(text.contains("got '3'"));
    assert!(text.contains("required '2'"));
    assert!(text.contains("mt-1-2-3"));
}

#[test]
fn state_not_found_message_names_the_state() {
    let w = Warning::new(
        "space-z-4",
        &Position::new(4, 8),
        WarningType::StateNotFound("z".to_string()),
    );
    let text = w.text();
    assert!(text.contains("'z' is not a valid state"));
    assert!(text.contains("space-z-4"));
}

#[test]
fn invalid_arg_message_lists_the_allowed_keys() {
    let w = Warning::new(
        "p-7",
        &Position::new(1, 1),
        WarningType::InvalidArg(
            "7".to_string(),
            vec!["0".to_string(), "px".to_string(), "4".to_string()],
        ),
    );
    assert_eq!(
        w.text(),
        "Warning on Line: 1, Col: 1; Could not match class 'p-7', \
         invalid argument '7', possible arguments: '0, px, 4'"
    );
}

#[test]
fn zero_position_renders_as_zero() {
    let w = Warning::new("foo", &Position::new(0, 10), WarningType::ClassNotFound);
    assert_eq!(w.text(), "Warning on Line: 0, Col: 10; Could not match class 'foo'");
}

#[test]
fn positions_compare_and_convert() {
    let a = Position::new(5, 6);
    let b = Position::from((5, 6));
    assert_eq!(a, b);
    assert_eq!(a.line, 5);
    assert_eq!(a.column, 6);
    let w1 = Warning::new("foo", &a, WarningType::ClassNotFound);
    let w2 = Warning::new("foo", &b, WarningType::ClassNotFound);
    assert_eq!(w1, w2);
}

#[test]
fn a_run_always_completes_and_keeps_order() {
    let tables = Tables::new();
    let tokens = vec![
        ("mt-4".to_string(), Position::new(1, 1)),
        ("bogus".to_string(), Position::new(1, 10)),
        ("p-7".to_string(), Position::new(2, 1)),
        ("p-0.5".to_string(), Position::new(2, 9)),
    ];
    let (decls, warnings) = resolve_all(&tokens, &tables);
    assert_eq!(decls.len(), 2);
    assert_eq!(decls[0].property, "margin-top");
    assert_eq!(decls[0].value, "1rem");
    assert_eq!(decls[1].property, "padding");
    assert_eq!(decls[1].value, "0.125rem");
    assert_eq!(warnings.len(), 2);
    assert!(warnings[0].text().contains("Could not match class 'bogus'"));
    assert!(warnings[0].text().contains("Line: 1, Col: 10"));
    assert!(warnings[1].text().contains("invalid argument '7'"));
    assert!(warnings[1].text().contains("Line: 2, Col: 1"));
}
