use tomb::about::{author, first_author};
use tomb::theme::{parse_rgb_hex, ColorTheme, TombConfig};
use tomb::widgets::{ConfirmationOption, Modal, RGBColorField, SearchBox, TextField};

#[test]
fn test_parse_rgb_hex() {
    assert_eq!(parse_rgb_hex("ffffff"), Some((255, 255, 255)));
    assert_eq!(parse_rgb_hex("#ffffff"), Some((255, 255, 255)));
}

#[test]
fn parse_rgb_hex_finds_the_first_run() {
    assert_eq!(parse_rgb_hex("#4f5d75"), Some((0x4f, 0x5d, 0x75)));
    assert_eq!(parse_rgb_hex("color: #A0b1C2;"), Some((0xa0, 0xb1, 0xc2)));
    assert_eq!(parse_rgb_hex("x12345678"), Some((0x12, 0x34, 0x56)));
    assert_eq!(parse_rgb_hex("#fffff"), None);
    assert_eq!(parse_rgb_hex("blue"), None);
    assert_eq!(parse_rgb_hex(""), None);
}

#[test]
fn modal_edits_its_text() {
    let mut modal = Modal::new("title", "ab");
    assert!(modal.is_active());
    modal.write('c');
    assert_eq!(modal.text, "abc");
    modal.backspace();
    modal.backspace();
    assert_eq!(modal.text, "a");
    modal.backspace();
    modal.backspace();
    assert_eq!(modal.text, "");
    modal.set_title("other");
    modal.set_text("text");
    assert_eq!(modal.title, "other");
    assert_eq!(modal.text, "text");
    modal.deactivate();
    assert!(!modal.is_active());
}

#[test]
fn text_field_edits_its_value() {
    let mut field = TextField::new("id", "Title", String::from("v"), false, true);
    assert_eq!(field.title, Some(String::from("Title")));
    assert!(!field.focused);
    field.write('é');
    assert_eq!(field.value, "vé");
    field.backspace();
    assert_eq!(field.value, "v");
    field.remove_title();
    assert_eq!(field.title, None);
    assert_eq!(field.id, "id");
}

#[test]
fn color_field_starts_unfocused() {
    let mut field = RGBColorField::new("c", "Colour", String::from("#ffffff"), true, false);
    assert!(field.read_only);
    assert!(!field.visible);
    field.remove_title();
    assert!(field.title.is_none());
}

#[test]
fn search_box_keeps_pattern_while_typing() {
    let mut search = SearchBox::new("*");
    assert!(!search.visible);
    search.toggle_visible();
    assert!(search.visible);
    search.write('a');
    assert_eq!(search.tmp, "*a");
    search.backspace();
    search.set_tmp("my-*");
    assert_eq!(search.tmp, "my-*");
    assert_eq!(search.pattern, "*");
    search.set_hidden();
    assert!(!search.visible);
}

#[test]
fn confirmation_toggles() {
    assert_eq!(ConfirmationOption::Yes.toggled(), ConfirmationOption::No);
    assert_eq!(ConfirmationOption::No.toggled(), ConfirmationOption::Yes);
}

#[test]
fn builtin_theme_and_config() {
    let theme = ColorTheme::builtin();
    assert_eq!(theme.default, "#4f5d75");
    assert_eq!(theme.error_bg, "#242423");
    let mut config = TombConfig::new("k", "t", "l", theme.clone());
    assert_eq!(config.version, Some(String::from("0.1.0")));
    assert_eq!(config.key_filename, "k");
    let mut other = theme;
    other.light = String::from("white");
    config.set_colors(other);
    assert_eq!(config.colors.light, "white");
}

#[test]
fn first_author_is_before_the_comma() {
    assert_eq!(first_author("Ann <a@x>,Bo <b@x>"), "Ann <a@x>");
    assert_eq!(first_author("Solo"), "Solo");
    assert_eq!(first_author(""), "");
    assert_eq!(author(), "");
}
