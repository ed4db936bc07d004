use rs_optimise::{ParseError, Verbosity};

#[test]
fn levels_are_ordered() {
    assert!(Verbosity::Silent < Verbosity::Monosyllabic);
    assert!(Verbosity::Monosyllabic < Verbosity::Chatty);
    assert!(Verbosity::Silent < Verbosity::Chatty);
    assert!(Verbosity::Chatty > Verbosity::Silent);
    assert!(Verbosity::Monosyllabic >= Verbosity::Monosyllabic);
    assert!(!(Verbosity::Chatty < Verbosity::Monosyllabic));
    assert!(!(Verbosity::Silent > Verbosity::Silent));
}

#[test]
fn derived_order_agrees_with_comparison() {
    let mut levels = vec![Verbosity::Chatty, Verbosity::Silent, Verbosity::Monosyllabic];
    levels.sort();
    assert_eq!(
        levels,
        vec![Verbosity::Silent, Verbosity::Monosyllabic, Verbosity::Chatty]
    );
    assert_eq!(
        Verbosity::Silent.partial_cmp(&Verbosity::Chatty),
        Some(Verbosity::Silent.cmp(&Verbosity::Chatty))
    );
    assert_eq!(
        Verbosity::Chatty.partial_cmp(&Verbosity::Monosyllabic),
        Some(Verbosity::Chatty.cmp(&Verbosity::Monosyllabic))
    );
    assert_eq!(
        Verbosity::Monosyllabic.partial_cmp(&Verbosity::Monosyllabic),
        Some(Verbosity::Monosyllabic.cmp(&Verbosity::Monosyllabic))
    );
}

#[test]
fn upgrade_moves_one_level_and_saturates() {
    let mut level = Verbosity::Silent;
    level.upgrade();
    assert_eq!(level, Verbosity::Monosyllabic);
    level.upgrade();
    assert_eq!(level, Verbosity::Chatty);
    level.upgrade();
    assert_eq!(level, Verbosity::Chatty);
}

#[test]
fn downgrade_moves_one_level_and_saturates() {
    let mut level = Verbosity::Chatty;
    level.downgrade();
    assert_eq!(level, Verbosity::Monosyllabic);
    level.downgrade();
    assert_eq!(level, Verbosity::Silent);
    level.downgrade();
    assert_eq!(level, Verbosity::Silent);
}

#[test]
fn setters_set_the_level_at_once() {
    let mut level = Verbosity::Silent;
    level.chatty();
    assert_eq!(level, Verbosity::Chatty);
    level.silent();
    assert_eq!(level, Verbosity::Silent);
    level.monosyllabic();
    assert_eq!(level, Verbosity::Monosyllabic);
    level.monosyllabic();
    assert_eq!(level, Verbosity::Monosyllabic);
}

#[test]
fn levels_have_numbers() {
    assert_eq!(Verbosity::Silent.level(), 0);
    assert_eq!(Verbosity::Monosyllabic.level(), 1);
    assert_eq!(Verbosity::Chatty.level(), 2);
}

#[test]
fn levels_have_names() {
    assert_eq!(Verbosity::Silent.name(), "silent");
    assert_eq!(Verbosity::Monosyllabic.name(), "monosyllabic");
    assert_eq!(Verbosity::Chatty.name(), "chatty");
}

#[test]
fn levels_are_shown_with_number_and_name() {
    assert_eq!(Verbosity::Silent.to_string(), "verbosity level 0 ('silent')");
    assert_eq!(
        Verbosity::Monosyllabic.to_string(),
        "verbosity level 1 ('monosyllabic')"
    );
    assert_eq!(Verbosity::Chatty.to_string(), "verbosity level 2 ('chatty')");
}

#[test]
fn levels_are_read_from_numbers() {
    assert_eq!(Verbosity::from_str("0"), Ok(Verbosity::Silent));
    assert_eq!(Verbosity::from_str("1"), Ok(Verbosity::Monosyllabic));
    assert_eq!(Verbosity::from_str("2"), Ok(Verbosity::Chatty));
}

#[test]
fn levels_are_read_from_names_in_any_case() {
    assert_eq!(Verbosity::from_str("silent"), Ok(Verbosity::Silent));
    assert_eq!(Verbosity::from_str("Monosyllabic"), Ok(Verbosity::Monosyllabic));
    assert_eq!(Verbosity::from_str("CHATTY"), Ok(Verbosity::Chatty));
    assert_eq!(Verbosity::from_str("sIlEnT"), Ok(Verbosity::Silent));
}

#[test]
fn other_texts_are_refused() {
    assert_eq!(Verbosity::from_str(""), Err(ParseError));
    assert_eq!(Verbosity::from_str("3"), Err(ParseError));
    assert_eq!(Verbosity::from_str("-1"), Err(ParseError));
    assert_eq!(Verbosity::from_str("loud"), Err(ParseError));
    assert_eq!(Verbosity::from_str(" chatty"), Err(ParseError));
    assert_eq!(Verbosity::from_str("chatty "), Err(ParseError));
    assert_eq!(Verbosity::from_str("02"), Err(ParseError));
}

#[test]
fn lowercase_reader_does_not_fold_case() {
    assert_eq!(Verbosity::from_lowercase("chatty"), Ok(Verbosity::Chatty));
    assert_eq!(Verbosity::from_lowercase("1"), Ok(Verbosity::Monosyllabic));
    assert_eq!(Verbosity::from_lowercase("Chatty"), Err(ParseError));
    assert_eq!(Verbosity::from_lowercase("SILENT"), Err(ParseError));
}

#[test]
fn names_read_back_as_their_levels() {
    let levels = vec![Verbosity::Silent, Verbosity::Monosyllabic, Verbosity::Chatty];
    for level in levels {
        assert_eq!(Verbosity::from_str(&level.name()), Ok(level));
        assert_eq!(Verbosity::from_str(&format!("{}", level.level())), Ok(level));
    }
}

#[test]
fn parse_error_has_a_message() {
    assert_eq!(
        ParseError.to_string(),
        "the verbosity level cannot be deduced!"
    );
}
