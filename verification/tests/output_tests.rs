use wait_for::output::{
    should_use_color, Color, ColorChoice, ColorOutput, MessageKind, Stream, StreamMode, Style,
};

#[test]
fn always_and_never_decide_by_themselves() {
    for no_color in [false, true] {
        for force_color in [false, true] {
            for terminal in [false, true] {
                assert!(should_use_color(ColorChoice::Always, no_color, force_color, terminal));
                assert!(!should_use_color(ColorChoice::Never, no_color, force_color, terminal));
            }
        }
    }
}

#[test]
fn auto_goes_by_the_environment_then_by_the_terminal() {
    assert!(!should_use_color(ColorChoice::Auto, true, false, false));
    assert!(!should_use_color(ColorChoice::Auto, true, false, true));
    assert!(!should_use_color(ColorChoice::Auto, true, true, false));
    assert!(!should_use_color(ColorChoice::Auto, true, true, true));
    assert!(should_use_color(ColorChoice::Auto, false, true, false));
    assert!(should_use_color(ColorChoice::Auto, false, true, true));
    assert!(should_use_color(ColorChoice::Auto, false, false, true));
    assert!(!should_use_color(ColorChoice::Auto, false, false, false));
}

#[test]
fn streams_and_colours_by_kind() {
    assert_eq!(MessageKind::Info.stream(), Stream::Stdout);
    assert_eq!(MessageKind::Success.stream(), Stream::Stdout);
    assert_eq!(MessageKind::Error.stream(), Stream::Stderr);
    assert_eq!(MessageKind::Warning.stream(), Stream::Stderr);
    assert_eq!(MessageKind::Info.color(), Color::Blue);
    assert_eq!(MessageKind::Success.color(), Color::Green);
    assert_eq!(MessageKind::Error.color(), Color::Red);
    assert_eq!(MessageKind::Warning.color(), Color::Yellow);
}

#[test]
fn styles_with_and_without_colour() {
    let coloured = ColorOutput::new(ColorChoice::Always, false, false, false);
    assert!(coloured.use_color);
    assert_eq!(coloured.stream_mode(), StreamMode::Auto);
    assert_eq!(
        coloured.style(MessageKind::Warning),
        Style { stream: Stream::Stderr, color: Some(Color::Yellow) }
    );
    assert_eq!(
        coloured.style(MessageKind::Info),
        Style { stream: Stream::Stdout, color: Some(Color::Blue) }
    );
    let plain = ColorOutput::new(ColorChoice::Never, false, true, true);
    assert!(!plain.use_color);
    assert_eq!(plain.stream_mode(), StreamMode::Never);
    assert_eq!(
        plain.style(MessageKind::Error),
        Style { stream: Stream::Stderr, color: None }
    );
    assert_eq!(
        plain.style(MessageKind::Success),
        Style { stream: Stream::Stdout, color: None }
    );
}
