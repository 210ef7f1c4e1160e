use alacritty_config::{
    Config, Dpi, EnvFailure, Error, Field, Font, FontOffset, IoFailure, Node, Platform, Probe,
    ShapeError, Step, YamlError,
};

const FULL: &str = "dpi:
  x: 110.5
  y: 220.0
font:
  family: Fira Code
  style: Retina
  size: 13.5
  offset:
    x: 1.0
    y: -2.0
render_timer: true
";

fn missing() -> IoFailure {
    IoFailure { missing: true, message: String::from("No such file or directory") }
}

fn linux_defaults() -> Config {
    Config::default_for(Platform::Linux)
}

#[test]
fn complete_file_is_taken_as_written() {
    let c = Config::load_from_text(FULL, Platform::Linux).unwrap();
    assert_eq!(c.dpi().x(), "110.5");
    assert_eq!(c.dpi().y(), "220.0");
    assert_eq!(c.font().family(), "Fira Code");
    assert_eq!(c.font().style(), "Retina");
    assert_eq!(c.font().size(), "13.5");
    assert_eq!(c.font().offset().x(), "1.0");
    assert_eq!(c.font().offset().y(), "-2.0");
    assert!(c.render_timer());
}

#[test]
fn sections_in_any_order_with_unknown_keys() {
    let text = "render_timer: false
colors: blue
font:
  offset: {y: 3, x: 4}
  size: 9
  style: Bold
  family: Menlo
  weight: 700
";
    let c = Config::load_from_text(text, Platform::MacOs).unwrap();
    assert_eq!(c.dpi().x(), "96.0");
    assert_eq!(c.font().family(), "Menlo");
    assert_eq!(c.font().size(), "9");
    assert_eq!(c.font().offset().x(), "4");
    assert_eq!(c.font().offset().y(), "3");
    assert!(!c.render_timer());
}

#[test]
fn empty_document_gives_linux_defaults() {
    let c = Config::load_from_text("", Platform::Linux).unwrap();
    assert_eq!(c, linux_defaults());
    assert_eq!(c.dpi().x(), "96.0");
    assert_eq!(c.dpi().y(), "96.0");
    assert_eq!(c.font().family(), "DejaVu Sans Mono");
    assert_eq!(c.font().style(), "Book");
    assert_eq!(c.font().size(), "11.0");
    assert_eq!(c.font().offset().x(), "2.0");
    assert_eq!(c.font().offset().y(), "-7.0");
    assert!(!c.render_timer());
}

#[test]
fn empty_document_gives_macos_defaults() {
    let c = Config::load_from_text("", Platform::MacOs).unwrap();
    assert_eq!(c.font().family(), "Menlo");
    assert_eq!(c.font().style(), "Regular");
    assert_eq!(c.font().size(), "11.0");
    assert_eq!(c.font().offset().x(), "0.0");
    assert_eq!(c.font().offset().y(), "0.0");
    assert_eq!(c.dpi().x(), "96.0");
}

#[test]
fn empty_mapping_gives_defaults() {
    let c = Config::load_from_text("{}", Platform::Linux).unwrap();
    assert_eq!(c, linux_defaults());
}

#[test]
fn font_without_size_is_refused() {
    let text = "font:
  family: Menlo
  style: Regular
  offset:
    x: 0.0
    y: 0.0
";
    let r = Config::load_from_text(text, Platform::Linux);
    assert!(matches!(r, Err(Error::Yaml(YamlError::Shape(ShapeError::MissingField(Field::FontSize))))));
}

#[test]
fn font_without_offset_is_refused() {
    let text = "font: {family: Menlo, style: Regular, size: 11.0}";
    let r = Config::load_from_text(text, Platform::MacOs);
    assert!(matches!(r, Err(Error::Yaml(YamlError::Shape(ShapeError::MissingField(Field::FontOffset))))));
}

#[test]
fn dpi_with_one_coordinate_is_refused() {
    let r = Config::load_from_text("dpi:\n  x: 96\n", Platform::Linux);
    assert!(matches!(r, Err(Error::Yaml(YamlError::Shape(ShapeError::MissingField(Field::DpiY))))));
}

#[test]
fn empty_dpi_section_is_refused() {
    let r = Config::load_from_text("dpi:\n", Platform::Linux);
    assert!(matches!(r, Err(Error::Yaml(YamlError::Shape(ShapeError::MissingField(Field::DpiX))))));
}

#[test]
fn wrong_kinds_of_values_are_refused() {
    let r = Config::load_from_text("render_timer: 3", Platform::Linux);
    assert!(matches!(r, Err(Error::Yaml(YamlError::Shape(ShapeError::InvalidType(Field::RenderTimer))))));
    let r = Config::load_from_text("dpi: {x: fast, y: 1}", Platform::Linux);
    assert!(matches!(r, Err(Error::Yaml(YamlError::Shape(ShapeError::InvalidType(Field::DpiX))))));
    let r = Config::load_from_text("dpi: [1, 2]", Platform::Linux);
    assert!(matches!(r, Err(Error::Yaml(YamlError::Shape(ShapeError::InvalidType(Field::Dpi))))));
    let r = Config::load_from_text("- 1\n- 2\n", Platform::Linux);
    assert!(matches!(r, Err(Error::Yaml(YamlError::Shape(ShapeError::InvalidType(Field::Root))))));
}

#[test]
fn text_that_is_not_yaml_is_a_syntax_failure() {
    let r = Config::load_from_text("font: [unclosed", Platform::Linux);
    assert!(matches!(r, Err(Error::Yaml(YamlError::Syntax(_)))));
    let e = r.unwrap_err();
    assert!(e.message().starts_with("problem with config: "));
    assert!(e.message().len() > "problem with config: ".len());
}

#[test]
fn missing_primary_falls_back_to_dotfile() {
    let first = Config::load_from_read(Err(missing()), Platform::Linux);
    assert!(matches!(first, Err(Error::NotFound)));
    assert!(matches!(Config::after_primary(first), Step::TryFallback));
    let second = Config::load_from_read(Ok(String::from(FULL)), Platform::Linux).unwrap();
    assert_eq!(second.font().family(), "Fira Code");
}

#[test]
fn malformed_primary_is_final() {
    let first = Config::load_from_read(Ok(String::from("dpi: {x: 1")), Platform::Linux);
    match Config::after_primary(first) {
        Step::Done(Err(Error::Yaml(YamlError::Syntax(_)))) => {},
        _ => panic!("a malformed primary file must end the search"),
    }
}

#[test]
fn incomplete_primary_is_final() {
    let first = Config::load_from_read(Ok(String::from("font: {family: Menlo}")), Platform::Linux);
    assert!(matches!(
        Config::after_primary(first),
        Step::Done(Err(Error::Yaml(YamlError::Shape(ShapeError::MissingField(Field::FontStyle)))))
    ));
}

#[test]
fn valid_primary_is_final() {
    let first = Config::load_from_read(Ok(String::from(FULL)), Platform::Linux);
    match Config::after_primary(first) {
        Step::Done(Ok(c)) => assert_eq!(c.dpi().x(), "110.5"),
        _ => panic!("a valid primary file must end the search"),
    }
}

#[test]
fn unreadable_primary_is_final() {
    let denied = IoFailure { missing: false, message: String::from("Permission denied") };
    let first = Config::load_from_read(Err(denied.clone()), Platform::Linux);
    match Config::after_primary(first) {
        Step::Done(Err(Error::Io(f))) => assert_eq!(f, denied),
        _ => panic!("an unreadable primary file must end the search"),
    }
}

#[test]
fn neither_file_exists() {
    let first = Config::load_from_read(Err(missing()), Platform::Linux);
    assert!(matches!(Config::after_primary(first), Step::TryFallback));
    let second = Config::load_from_read(Err(missing()), Platform::Linux);
    assert!(matches!(second, Err(Error::NotFound)));
    assert_eq!(second.unwrap_err().message(), "could not locate config file");
}

#[test]
fn missing_home_fails_before_any_path() {
    let r = Probe::from_home(Err(EnvFailure::NotPresent));
    assert!(matches!(r, Err(Error::ReadingEnvHome(EnvFailure::NotPresent))));
    let e = Probe::from_home(Err(EnvFailure::NotUnicode)).err().unwrap();
    assert_eq!(
        e.message(),
        "could not read $HOME environment variable: environment variable was not valid unicode"
    );
}

#[test]
fn candidate_paths_under_home() {
    let p = Probe::from_home(Ok(String::from("/home/ada"))).ok().unwrap();
    assert_eq!(p.primary(), "/home/ada/.config/alacritty.yml");
    assert_eq!(p.fallback(), "/home/ada/.alacritty.yml");
}

#[test]
fn round_trip_through_a_document() {
    let c = Config::load_from_text(FULL, Platform::Linux).unwrap();
    let doc = c.to_document();
    assert_eq!(Config::from_document(&doc, Platform::MacOs), Ok(c.clone()));
    let d = linux_defaults();
    assert_eq!(Config::from_document(&d.to_document(), Platform::MacOs), Ok(d));
}

#[test]
fn built_configuration_round_trips() {
    let font = Font::new(
        String::from("Hack"),
        String::from("Italic"),
        String::from("12"),
        FontOffset::new(String::from("0.5"), String::from("1")),
    );
    let c = Config::new(Dpi::new(String::from("72"), String::from("72")), font, true);
    assert_eq!(Config::from_document(&c.to_document(), Platform::Linux), Ok(c));
}

#[test]
fn from_document_reads_a_tree() {
    let doc = Node::Entries(vec![(
        Node::Text(String::from("render_timer")),
        Node::Bool(true),
    )]);
    let c = Config::from_document(&doc, Platform::Linux).unwrap();
    assert!(c.render_timer());
    assert_eq!(c.font(), &Font::default_for(Platform::Linux));
    assert_eq!(Config::from_document(&Node::Null, Platform::Linux), Ok(linux_defaults()));
}

#[test]
fn numbers_keep_their_yaml_text() {
    let c = Config::load_from_text("dpi: {x: 96, y: 1.25e2}", Platform::Linux).unwrap();
    assert_eq!(c.dpi().x(), "96");
    assert_eq!(c.dpi().y(), "125.0");
}

#[test]
fn messages_name_the_cause() {
    let io = Error::from_io(IoFailure { missing: false, message: String::from("Permission denied") });
    assert_eq!(io.message(), "error reading config file: Permission denied");
    assert_eq!(io.description(), "Permission denied");
    let shape = Error::from_shape(ShapeError::MissingField(Field::FontOffsetY));
    assert_eq!(shape.message(), "problem with config: missing field font.offset.y");
    let kind = ShapeError::InvalidType(Field::RenderTimer);
    assert_eq!(kind.description(), "invalid type for render_timer");
    assert_eq!(Error::from_env(EnvFailure::NotPresent).description(), "environment variable not found");
}

#[test]
fn default_dpi_is_ninety_six() {
    let d = Dpi::default();
    assert_eq!(d.x(), "96.0");
    assert_eq!(d.y(), "96.0");
    assert_eq!(d, Dpi::default_dpi());
}
