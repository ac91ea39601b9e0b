use ouch_error::{Error, FinalError};

const RED: &str = "\u{1b}[38;5;9m";
const YELLOW: &str = "\u{1b}[38;5;11m";
const GREEN: &str = "\u{1b}[38;5;10m";
const RESET: &str = "\u{1b}[39m";

fn sample() -> FinalError {
    FinalError::with_title("bad input").detail("missing field").hint("check the docs")
}

#[test]
fn standard_builder_chain_renders_detail_blank_and_hint() {
    let text = sample().render(false, false);
    assert_eq!(text, "[ERROR] bad input\n - missing field\n\nhint: check the docs");
    let lines: Vec<&str> = text.lines().collect();
    assert_eq!(lines.len(), 4);
    assert_eq!(lines[1], " - missing field");
    assert_eq!(lines[2], "");
    assert_eq!(lines[3], "hint: check the docs");
}

#[test]
fn accessible_builder_chain_uses_plain_prefix_and_one_header() {
    let text = sample().render(true, false);
    assert_eq!(text, "ERROR: bad input\n - missing field\n\nhints:\ncheck the docs");
    assert!(!text.contains("[ERROR]"));
    assert!(!text.contains("hint: "));
}

#[test]
fn colored_standard_rendering_wraps_tags_and_lines() {
    let text = sample().render(false, true);
    let expected = format!(
        "{RED}[ERROR]{RESET} bad input\n - {YELLOW}missing field{RESET}\n\n{GREEN}hint:{RESET} check the docs"
    );
    assert_eq!(text, expected);
}

#[test]
fn colored_accessible_rendering_wraps_tag_and_header() {
    let text = sample().render(true, true);
    let expected = format!(
        "{RED}ERROR{RESET}: bad input\n - {YELLOW}missing field{RESET}\n\n{GREEN}hints:{RESET}\ncheck the docs"
    );
    assert_eq!(text, expected);
}

#[test]
fn title_only_message_is_one_line() {
    assert_eq!(FinalError::with_title("alone").render(false, false), "[ERROR] alone");
    assert_eq!(FinalError::with_title("alone").render(true, false), "ERROR: alone");
}

#[test]
fn default_message_is_empty() {
    assert_eq!(FinalError::default(), FinalError::with_title(""));
    assert_eq!(FinalError::default().render(false, false), "[ERROR] ");
}

#[test]
fn rendering_twice_gives_the_same_text() {
    let m = sample().detail("second").hint("another");
    for accessible in [false, true] {
        for color in [false, true] {
            assert_eq!(m.render(accessible, color), m.render(accessible, color));
        }
    }
    let e = Error::CompressingRootFolder;
    assert_eq!(e.render(true, true), e.render(true, true));
}

#[test]
fn accessible_header_appears_once_with_several_hints() {
    let m = FinalError::with_title("t").hint("first").hint("second").hint("third");
    let text = m.render(true, false);
    assert_eq!(text.matches("hints:").count(), 1);
    assert_eq!(text, "ERROR: t\n\nhints:\nfirst\nsecond\nthird");
}

#[test]
fn standard_label_appears_once_per_hint() {
    let m = FinalError::with_title("t").detail("d").hint("first").hint("second").hint("third");
    for color in [false, true] {
        assert_eq!(m.render(false, color).matches("hint:").count(), 3);
    }
    assert_eq!(FinalError::with_title("t").render(false, false).matches("hint:").count(), 0);
}

#[test]
fn first_line_holds_the_title_in_both_modes() {
    let m = FinalError::with_title("could not open archive").detail("x").hint("y");
    for accessible in [false, true] {
        for color in [false, true] {
            let text = m.render(accessible, color);
            let first = text.lines().next().unwrap();
            assert!(first.ends_with("could not open archive"));
        }
    }
}

#[test]
fn details_keep_their_order() {
    let m = FinalError::with_title("t").detail("D1").detail("D2").detail("D3");
    let text = m.render(false, false);
    assert_eq!(text, "[ERROR] t\n - D1\n - D2\n - D3");
    let a = text.find("D1").unwrap();
    let b = text.find("D2").unwrap();
    let c = text.find("D3").unwrap();
    assert!(a < b && b < c);
}

#[test]
fn hints_keep_their_order() {
    let m = FinalError::with_title("t").hint("H1").hint("H2");
    assert_eq!(m.render(false, false), "[ERROR] t\n\nhint: H1\nhint: H2");
}

#[test]
fn partial_message_can_be_reused() {
    let base = FinalError::with_title("t").detail("shared");
    let a = base.clone().hint("a");
    let b = base.clone().detail("b");
    assert_eq!(base.render(false, false), "[ERROR] t\n - shared");
    assert_eq!(a.render(false, false), "[ERROR] t\n - shared\n\nhint: a");
    assert_eq!(b.render(false, false), "[ERROR] t\n - shared\n - b");
}

#[test]
fn each_mode_shows_only_its_own_label() {
    let m = FinalError::with_title("t").detail("d").hint("first").hint("second");
    for color in [false, true] {
        let accessible = m.render(true, color);
        assert_eq!(accessible.matches("hints:").count(), 1);
        assert_eq!(accessible.matches("hint:").count(), 0);
        let standard = m.render(false, color);
        assert_eq!(standard.matches("hint:").count(), 2);
        assert_eq!(standard.matches("hints:").count(), 0);
    }
}
