use predator_prey::intake::{choose_number, choose_text, read_text, trim_input};

#[test]
fn empty_text_gives_default() {
    assert_eq!(choose_text("", "Rabbits".to_string()), "Rabbits");
}

#[test]
fn typed_text_replaces_default() {
    assert_eq!(choose_text("Hares", "Rabbits".to_string()), "Hares");
}

#[test]
fn empty_line_gives_text_default() {
    assert_eq!(read_text("", "Wolves".to_string()), "Wolves");
}

#[test]
fn newline_only_gives_text_default() {
    assert_eq!(read_text("\n", "Wolves".to_string()), "Wolves");
}

#[test]
fn blank_line_gives_text_default() {
    assert_eq!(read_text("   \t\n", "Rabbits".to_string()), "Rabbits");
}

#[test]
fn typed_name_is_trimmed() {
    assert_eq!(read_text("  Lynx \n", "Wolves".to_string()), "Lynx");
}

#[test]
fn trim_removes_surrounding_whitespace() {
    assert_eq!(trim_input("  7.5\n"), "7.5");
    assert_eq!(trim_input(""), "");
}

#[test]
fn empty_number_gives_default() {
    let d: f64 = 0.1;
    let r = choose_number("", None, d);
    assert_eq!(r.to_bits(), d.to_bits());
}

#[test]
fn unparsable_number_gives_default() {
    let r = choose_number("abc", None, 50.0_f64);
    assert_eq!(r, 50.0);
}

#[test]
fn parsed_number_replaces_default() {
    let r = choose_number("2.5", Some(2.5_f64), 0.01);
    assert_eq!(r, 2.5);
}

#[test]
fn every_numeric_default_is_kept_on_empty_line() {
    let defaults: Vec<f64> = vec![0.1, 0.1, 0.01, 0.01, 50.0, 10.0, 200.0, 0.1];
    for d in defaults {
        let t = trim_input("\n");
        let parsed = t.parse::<f64>().ok();
        assert_eq!(choose_number(&t, parsed, d).to_bits(), d.to_bits());
    }
}
