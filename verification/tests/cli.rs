use telemetry_overlay::cli::{
    long_switch, short_switch, Action, Args, ArgsError, CommandLine, Event, Given, Switch,
};

fn nothing() -> Given {
    Given {
        input: None,
        output: None,
        max_gap: None,
        cell_count: None,
        rate: None,
        scale: None,
        font: None,
        title_font: None,
        transparent_bg: false,
    }
}

#[test]
fn defaults_are_filled_in() {
    let given = Given {
        input: Some("ride.csv".to_string()),
        font: Some("body.ttf".to_string()),
        ..nothing()
    };
    assert_eq!(
        Args::from_given(given),
        Ok(Args {
            input: "ride.csv".to_string(),
            output: "output.mov".to_string(),
            max_gap: 2_000,
            cell_count: None,
            rate: None,
            scale: 1_000,
            font: "body.ttf".to_string(),
            title_font: "body.ttf".to_string(),
            transparent_bg: false,
        })
    );
}

#[test]
fn given_values_are_kept() {
    let given = Given {
        input: Some("ride.json".to_string()),
        output: Some("ride.mov".to_string()),
        max_gap: Some(500),
        cell_count: Some(15),
        rate: Some(60_000),
        scale: Some(1_500),
        font: Some("body.ttf".to_string()),
        title_font: Some("title.ttf".to_string()),
        transparent_bg: true,
    };
    assert_eq!(
        Args::from_given(given),
        Ok(Args {
            input: "ride.json".to_string(),
            output: "ride.mov".to_string(),
            max_gap: 500,
            cell_count: Some(15),
            rate: Some(60_000),
            scale: 1_500,
            font: "body.ttf".to_string(),
            title_font: "title.ttf".to_string(),
            transparent_bg: true,
        })
    );
}

#[test]
fn input_is_required() {
    assert_eq!(Args::from_given(nothing()), Err(ArgsError::NoInput));
    let given = Given { font: Some("body.ttf".to_string()), ..nothing() };
    assert_eq!(Args::from_given(given), Err(ArgsError::NoInput));
    assert_eq!(ArgsError::NoInput.message(), "no input file specified");
}

#[test]
fn font_is_required() {
    let given = Given { input: Some("ride.csv".to_string()), ..nothing() };
    assert_eq!(Args::from_given(given), Err(ArgsError::NoFont));
    assert_eq!(ArgsError::NoFont.message(), "font is required");
}

#[test]
fn numbers_must_be_numbers() {
    let refused = |switch, value: &str| {
        let mut given = Given::new();
        let result = given.on_value(switch, value.to_string());
        assert_eq!(given, nothing());
        result
    };
    assert_eq!(refused(Switch::Scale, "fast"), Err(ArgsError::Invalid(Switch::Scale)));
    assert_eq!(refused(Switch::Rate, "-30"), Err(ArgsError::Invalid(Switch::Rate)));
    assert_eq!(refused(Switch::CellCount, "15.5"), Err(ArgsError::Invalid(Switch::CellCount)));
    assert_eq!(refused(Switch::CellCount, "256"), Err(ArgsError::Invalid(Switch::CellCount)));
    assert_eq!(refused(Switch::MaxGapSeconds, ""), Err(ArgsError::Invalid(Switch::MaxGapSeconds)));
    assert_eq!(ArgsError::Invalid(Switch::Scale).message(), "invalid scale");
    assert_eq!(ArgsError::Invalid(Switch::Rate).message(), "invalid frame rate");
    assert_eq!(ArgsError::Invalid(Switch::CellCount).message(), "invalid cell count");
    assert_eq!(ArgsError::Invalid(Switch::MaxGapSeconds).message(), "invalid maximum gap");
    assert_eq!(ArgsError::Invalid(Switch::Help).message(), "invalid value");
}

#[test]
fn a_refused_number_leaves_the_one_before() {
    let mut given = Given::new();
    assert_eq!(given.on_value(Switch::Scale, "1.5".to_string()), Ok(()));
    assert_eq!(given.on_value(Switch::Scale, "big".to_string()), Err(ArgsError::Invalid(Switch::Scale)));
    assert_eq!(given, Given { scale: Some(1_500), ..nothing() });
}

#[test]
fn numbers_are_judged_where_they_are_found() {
    assert_eq!(
        Args::parse(words(&["--scale", "x", "--help"])),
        CommandLine::Refused(ArgsError::Invalid(Switch::Scale))
    );
    assert_eq!(Args::parse(words(&["--help", "--scale", "x"])), CommandLine::Help);
    assert_eq!(
        Args::parse(words(&["-r", "y", "-s", "x"])),
        CommandLine::Refused(ArgsError::Invalid(Switch::Rate))
    );
    assert_eq!(
        Args::parse(words(&["-g", "z", "--nonsense"])),
        CommandLine::Refused(ArgsError::Invalid(Switch::MaxGapSeconds))
    );
    assert_eq!(Args::parse(words(&["-g", "3"])), CommandLine::Refused(ArgsError::NoInput));
}

#[test]
fn short_switches() {
    assert_eq!(short_switch('s'), Some(Switch::Scale));
    assert_eq!(short_switch('f'), Some(Switch::Font));
    assert_eq!(short_switch('T'), Some(Switch::Transparent));
    assert_eq!(short_switch('t'), Some(Switch::TitleFont));
    assert_eq!(short_switch('r'), Some(Switch::Rate));
    assert_eq!(short_switch('o'), Some(Switch::Output));
    assert_eq!(short_switch('c'), Some(Switch::CellCount));
    assert_eq!(short_switch('g'), Some(Switch::MaxGapSeconds));
    assert_eq!(short_switch('h'), Some(Switch::Help));
    assert_eq!(short_switch('v'), Some(Switch::Version));
    assert_eq!(short_switch('V'), None);
    assert_eq!(short_switch('x'), None);
}

#[test]
fn long_switches() {
    assert_eq!(long_switch("scale"), Some(Switch::Scale));
    assert_eq!(long_switch("font"), Some(Switch::Font));
    assert_eq!(long_switch("transparent"), Some(Switch::Transparent));
    assert_eq!(long_switch("title-font"), Some(Switch::TitleFont));
    assert_eq!(long_switch("rate"), Some(Switch::Rate));
    assert_eq!(long_switch("output"), Some(Switch::Output));
    assert_eq!(long_switch("cell-count"), Some(Switch::CellCount));
    assert_eq!(long_switch("max-gap-seconds"), Some(Switch::MaxGapSeconds));
    assert_eq!(long_switch("help"), Some(Switch::Help));
    assert_eq!(long_switch("version"), Some(Switch::Version));
    assert_eq!(long_switch("Scale"), None);
    assert_eq!(long_switch("fonts"), None);
    assert_eq!(long_switch(""), None);
}

#[test]
fn switches_with_values() {
    assert!(Switch::Scale.takes_value());
    assert!(Switch::Output.takes_value());
    assert!(Switch::CellCount.takes_value());
    assert!(!Switch::Transparent.takes_value());
    assert!(!Switch::Help.takes_value());
    assert!(!Switch::Version.takes_value());
}

#[test]
fn nothing_is_known_at_the_start() {
    assert_eq!(Given::new(), nothing());
}

#[test]
fn switches_with_values_ask_for_them() {
    let mut given = Given::new();
    assert_eq!(given.on_event(Event::Short('s')), Action::NeedValue(Switch::Scale));
    assert_eq!(
        given.on_event(Event::Long("title-font".to_string())),
        Action::NeedValue(Switch::TitleFont)
    );
    assert_eq!(given.on_event(Event::Short('c')), Action::NeedValue(Switch::CellCount));
    assert_eq!(given, nothing());
}

#[test]
fn transparent_switch_is_a_flag() {
    let mut given = Given::new();
    assert_eq!(given.on_event(Event::Short('T')), Action::Continue);
    assert_eq!(given, Given { transparent_bg: true, ..nothing() });
    assert_eq!(given.on_event(Event::Long("transparent".to_string())), Action::Continue);
    assert_eq!(given, Given { transparent_bg: true, ..nothing() });
}

#[test]
fn help_and_version() {
    let mut given = Given::new();
    assert_eq!(given.on_event(Event::Short('h')), Action::Help);
    assert_eq!(given.on_event(Event::Long("help".to_string())), Action::Help);
    assert_eq!(given.on_event(Event::Short('v')), Action::Version);
    assert_eq!(given.on_event(Event::Long("version".to_string())), Action::Version);
    assert_eq!(given, nothing());
}

#[test]
fn unknown_switches_are_refused() {
    let mut given = Given::new();
    assert_eq!(given.on_event(Event::Short('x')), Action::Usage);
    assert_eq!(given.on_event(Event::Long("speed".to_string())), Action::Usage);
    assert_eq!(given, nothing());
}

#[test]
fn first_value_is_the_input_and_a_second_is_refused() {
    let mut given = Given::new();
    assert_eq!(given.on_event(Event::Value("ride.csv".to_string())), Action::Continue);
    assert_eq!(given.input.as_deref(), Some("ride.csv"));
    assert_eq!(given.on_event(Event::Value("other.csv".to_string())), Action::Usage);
    assert_eq!(given, Given { input: Some("ride.csv".to_string()), ..nothing() });
}

#[test]
fn values_go_to_their_switches() {
    let mut given = Given::new();
    let values = [
        (Switch::Scale, "1.2"),
        (Switch::Font, "body.ttf"),
        (Switch::TitleFont, "title.ttf"),
        (Switch::Rate, "60"),
        (Switch::Output, "ride.mov"),
        (Switch::CellCount, "15"),
        (Switch::MaxGapSeconds, "3"),
        (Switch::Rate, "30"),
        (Switch::Help, "ignored"),
        (Switch::Transparent, "ignored"),
    ];
    for (switch, value) in values {
        assert_eq!(given.on_value(switch, value.to_string()), Ok(()));
    }
    assert_eq!(
        given,
        Given {
            input: None,
            output: Some("ride.mov".to_string()),
            max_gap: Some(3_000),
            cell_count: Some(15),
            rate: Some(30_000),
            scale: Some(1_200),
            font: Some("body.ttf".to_string()),
            title_font: Some("title.ttf".to_string()),
            transparent_bg: false,
        }
    );
}

#[test]
fn a_command_line_from_start_to_end() {
    let mut given = Given::new();
    let line = [
        Event::Long("scale".to_string()),
        Event::Short('f'),
        Event::Short('T'),
        Event::Value("ride.json".to_string()),
        Event::Short('r'),
    ];
    let values = ["1.25", "body.ttf", "", "", "29.97"];
    for (event, value) in line.into_iter().zip(values) {
        if let Action::NeedValue(switch) = given.on_event(event) {
            assert_eq!(given.on_value(switch, value.to_string()), Ok(()));
        }
    }
    let args = Args::from_given(given).unwrap();
    assert_eq!(args.scale, 1_250);
    assert_eq!(args.rate, Some(29_970));
    assert_eq!(args.input, "ride.json");
    assert_eq!(args.title_font, "body.ttf");
    assert!(args.transparent_bg);
    assert_eq!(args.max_gap, 2_000);
}

fn words(line: &[&str]) -> Vec<String> {
    line.iter().map(|w| w.to_string()).collect()
}

#[test]
fn whole_command_line() {
    let line = words(&[
        "--scale", "1.25", "-f", "body.ttf", "-T", "ride.json", "-r29.97", "--max-gap-seconds=3",
        "-c", "15", "-o", "ride.mov", "--title-font", "title.ttf",
    ]);
    assert_eq!(
        Args::parse(line),
        CommandLine::Run(Args {
            input: "ride.json".to_string(),
            output: "ride.mov".to_string(),
            max_gap: 3_000,
            cell_count: Some(15),
            rate: Some(29_970),
            scale: 1_250,
            font: "body.ttf".to_string(),
            title_font: "title.ttf".to_string(),
            transparent_bg: true,
        })
    );
}

#[test]
fn shortest_command_line() {
    match Args::parse(words(&["ride.csv", "-fbody.ttf"])) {
        CommandLine::Run(args) => {
            assert_eq!(args.input, "ride.csv");
            assert_eq!(args.font, "body.ttf");
            assert_eq!(args.title_font, "body.ttf");
            assert_eq!(args.rate, None);
        }
        other => panic!("{:?}", other),
    }
}

#[test]
fn switches_in_one_word() {
    match Args::parse(words(&["-Tf", "body.ttf", "ride.csv"])) {
        CommandLine::Run(args) => {
            assert!(args.transparent_bg);
            assert_eq!(args.font, "body.ttf");
        }
        other => panic!("{:?}", other),
    }
}

#[test]
fn help_and_version_end_the_command_line() {
    assert_eq!(Args::parse(words(&["-h"])), CommandLine::Help);
    assert_eq!(Args::parse(words(&["ride.csv", "--help", "--nonsense"])), CommandLine::Help);
    assert_eq!(Args::parse(words(&["-v"])), CommandLine::Version);
    assert_eq!(Args::parse(words(&["--version"])), CommandLine::Version);
}

#[test]
fn what_is_not_expected_asks_for_usage() {
    assert_eq!(Args::parse(words(&["--nonsense"])), CommandLine::Usage);
    assert_eq!(Args::parse(words(&["-x"])), CommandLine::Usage);
    assert_eq!(Args::parse(words(&["a.csv", "b.csv"])), CommandLine::Usage);
    assert_eq!(Args::parse(words(&["--", "a.csv", "-f"])), CommandLine::Usage);
}

#[test]
fn what_is_missing_is_refused() {
    assert_eq!(Args::parse(Vec::new()), CommandLine::Refused(ArgsError::NoInput));
    assert_eq!(Args::parse(words(&["-f", "body.ttf"])), CommandLine::Refused(ArgsError::NoInput));
    assert_eq!(Args::parse(words(&["ride.csv"])), CommandLine::Refused(ArgsError::NoFont));
    assert_eq!(
        Args::parse(words(&["ride.csv", "-f", "body.ttf", "-s", "big"])),
        CommandLine::Refused(ArgsError::Invalid(Switch::Scale))
    );
}

#[test]
fn a_switch_without_its_value_is_malformed() {
    match Args::parse(words(&["ride.csv", "--font"])) {
        CommandLine::Malformed(text) => assert!(text.contains("--font"), "{}", text),
        other => panic!("{:?}", other),
    }
    match Args::parse(words(&["ride.csv", "--transparent=yes"])) {
        CommandLine::Malformed(text) => assert!(text.contains("transparent"), "{}", text),
        other => panic!("{:?}", other),
    }
}

#[test]
fn empty_words_are_values() {
    assert_eq!(Args::parse(words(&[""])), CommandLine::Refused(ArgsError::NoFont));
    assert_eq!(Args::parse(words(&["", ""])), CommandLine::Usage);
    match Args::parse(words(&["", "-f", ""])) {
        CommandLine::Run(args) => assert_eq!((args.input.as_str(), args.font.as_str()), ("", "")),
        other => panic!("{:?}", other),
    }
}

#[test]
fn long_command_lines_are_read_to_their_end() {
    let mut line = words(&["-TTTTTTTTTTTTTTTTTTTTTTTTTTTTTTTT"; 40]);
    line.push("ride.csv".to_string());
    line.push("-f".to_string());
    line.push("body.ttf".to_string());
    match Args::parse(line) {
        CommandLine::Run(args) => assert_eq!(args.font, "body.ttf"),
        other => panic!("{:?}", other),
    }
}
