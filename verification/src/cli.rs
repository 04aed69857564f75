use vstd::prelude::*;
use vstd::string::*;
use crate::number::{amount, count, parse_amount, parse_count};
use crate::text::same_text;

verus! {

/// What a command-line switch stands for.
#[derive(Clone, Copy, Debug, PartialEq, Eq, Structural)]
pub enum Switch {
    Scale,
    Font,
    Transparent,
    TitleFont,
    Rate,
    Output,
    CellCount,
    MaxGapSeconds,
    Help,
    Version,
}

impl Switch {
    /// Whether the switch is followed by a value.
    pub open spec fn has_value(self) -> bool {
        !(self == Switch::Transparent || self == Switch::Help || self == Switch::Version)
    }

    /// Tells whether the switch is followed by a value.
    pub fn takes_value(&self) -> (res: bool)
        ensures
            res == self.has_value(),
    {
        match self {
            Switch::Transparent | Switch::Help | Switch::Version => false,
            _ => true,
        }
    }
}

/// The switch that a single letter stands for.
pub open spec fn switch_of_letter(letter: char) -> Option<Switch> {
    if letter == 's' {
        Some(Switch::Scale)
    } else if letter == 'f' {
        Some(Switch::Font)
    } else if letter == 'T' {
        Some(Switch::Transparent)
    } else if letter == 't' {
        Some(Switch::TitleFont)
    } else if letter == 'r' {
        Some(Switch::Rate)
    } else if letter == 'o' {
        Some(Switch::Output)
    } else if letter == 'c' {
        Some(Switch::CellCount)
    } else if letter == 'g' {
        Some(Switch::MaxGapSeconds)
    } else if letter == 'h' {
        Some(Switch::Help)
    } else if letter == 'v' {
        Some(Switch::Version)
    } else {
        None
    }
}

/// The switch that a long name stands for.
pub open spec fn switch_of_name(name: Seq<char>) -> Option<Switch> {
    if name == "scale"@ {
        Some(Switch::Scale)
    } else if name == "font"@ {
        Some(Switch::Font)
    } else if name == "transparent"@ {
        Some(Switch::Transparent)
    } else if name == "title-font"@ {
        Some(Switch::TitleFont)
    } else if name == "rate"@ {
        Some(Switch::Rate)
    } else if name == "output"@ {
        Some(Switch::Output)
    } else if name == "cell-count"@ {
        Some(Switch::CellCount)
    } else if name == "max-gap-seconds"@ {
        Some(Switch::MaxGapSeconds)
    } else if name == "help"@ {
        Some(Switch::Help)
    } else if name == "version"@ {
        Some(Switch::Version)
    } else {
        None
    }
}

/// Finds the switch that a single letter stands for, if it is one.
pub fn short_switch(letter: char) -> (res: Option<Switch>)
    ensures
        res == switch_of_letter(letter),
{
    if letter == 's' {
        Some(Switch::Scale)
    } else if letter == 'f' {
        Some(Switch::Font)
    } else if letter == 'T' {
        Some(Switch::Transparent)
    } else if letter == 't' {
        Some(Switch::TitleFont)
    } else if letter == 'r' {
        Some(Switch::Rate)
    } else if letter == 'o' {
        Some(Switch::Output)
    } else if letter == 'c' {
        Some(Switch::CellCount)
    } else if letter == 'g' {
        Some(Switch::MaxGapSeconds)
    } else if letter == 'h' {
        Some(Switch::Help)
    } else if letter == 'v' {
        Some(Switch::Version)
    } else {
        None
    }
}

/// Finds the switch that a long name stands for, if it is one.
pub fn long_switch(name: &str) -> (res: Option<Switch>)
    ensures
        res == switch_of_name(name@),
{
    if same_text(name, "scale") {
        Some(Switch::Scale)
    } else if same_text(name, "font") {
        Some(Switch::Font)
    } else if same_text(name, "transparent") {
        Some(Switch::Transparent)
    } else if same_text(name, "title-font") {
        Some(Switch::TitleFont)
    } else if same_text(name, "rate") {
        Some(Switch::Rate)
    } else if same_text(name, "output") {
        Some(Switch::Output)
    } else if same_text(name, "cell-count") {
        Some(Switch::CellCount)
    } else if same_text(name, "max-gap-seconds") {
        Some(Switch::MaxGapSeconds)
    } else if same_text(name, "help") {
        Some(Switch::Help)
    } else if same_text(name, "version") {
        Some(Switch::Version)
    } else {
        None
    }
}

/// What was found on the command line so far. Numbers are read as they are
/// found: times in milliseconds, the rate in frames per thousand seconds,
/// the scale in thousandths.
#[derive(Clone, Debug, PartialEq, Eq)]
pub struct Given {
    pub input: Option<String>,
    pub output: Option<String>,
    pub max_gap: Option<u32>,
    pub cell_count: Option<u8>,
    pub rate: Option<u32>,
    pub scale: Option<u32>,
    pub font: Option<String>,
    pub title_font: Option<String>,
    pub transparent_bg: bool,
}

pub struct GivenView {
    pub input: Option<Seq<char>>,
    pub output: Option<Seq<char>>,
    pub max_gap: Option<u32>,
    pub cell_count: Option<u8>,
    pub rate: Option<u32>,
    pub scale: Option<u32>,
    pub font: Option<Seq<char>>,
    pub title_font: Option<Seq<char>>,
    pub transparent_bg: bool,
}

/// The text of a setting, where there is one.
pub open spec fn text_of(setting: Option<String>) -> Option<Seq<char>> {
    match setting {
        Some(text) => Some(text@),
        None => None,
    }
}

impl View for Given {
    type V = GivenView;

    open spec fn view(&self) -> GivenView {
        GivenView {
            input: text_of(self.input),
            output: text_of(self.output),
            max_gap: self.max_gap,
            cell_count: self.cell_count,
            rate: self.rate,
            scale: self.scale,
            font: text_of(self.font),
            title_font: text_of(self.title_font),
            transparent_bg: self.transparent_bg,
        }
    }
}

/// One thing found on the command line.
#[derive(Clone, Debug, PartialEq, Eq)]
pub enum Event {
    /// A switch of one letter, without its dash.
    Short(char),
    /// A switch with a long name, without its dashes.
    Long(String),
    /// Something that is no switch.
    Value(String),
}

pub enum EventView {
    Short(char),
    Long(Seq<char>),
    Value(Seq<char>),
}

impl View for Event {
    type V = EventView;

    open spec fn view(&self) -> EventView {
        match *self {
            Event::Short(letter) => EventView::Short(letter),
            Event::Long(name) => EventView::Long(name@),
            Event::Value(value) => EventView::Value(value@),
        }
    }
}

/// What to do after something was found on the command line.
#[derive(Clone, Copy, Debug, PartialEq, Eq, Structural)]
pub enum Action {
    /// Go on with what comes next.
    Continue,
    /// Take what comes next as the value of this switch.
    NeedValue(Switch),
    /// Show the help and end well.
    Help,
    /// Show the version and end well.
    Version,
    /// Show the help and end badly: this was not expected.
    Usage,
}

/// Why the command line is refused.
#[derive(Clone, Copy, Debug, PartialEq, Eq, Structural)]
pub enum ArgsError {
    /// The value of this switch is no number, or is out of range.
    Invalid(Switch),
    NoInput,
    NoFont,
}

impl ArgsError {
    /// What to tell the user.
    pub fn message(&self) -> (res: &'static str)
        ensures
            res@ == match *self {
                ArgsError::Invalid(Switch::Scale) => "invalid scale"@,
                ArgsError::Invalid(Switch::Rate) => "invalid frame rate"@,
                ArgsError::Invalid(Switch::CellCount) => "invalid cell count"@,
                ArgsError::Invalid(Switch::MaxGapSeconds) => "invalid maximum gap"@,
                ArgsError::Invalid(_) => "invalid value"@,
                ArgsError::NoInput => "no input file specified"@,
                ArgsError::NoFont => "font is required"@,
            },
    {
        match self {
            ArgsError::Invalid(Switch::Scale) => "invalid scale",
            ArgsError::Invalid(Switch::Rate) => "invalid frame rate",
            ArgsError::Invalid(Switch::CellCount) => "invalid cell count",
            ArgsError::Invalid(Switch::MaxGapSeconds) => "invalid maximum gap",
            ArgsError::Invalid(_) => "invalid value",
            ArgsError::NoInput => "no input file specified",
            ArgsError::NoFont => "font is required",
        }
    }
}

/// The switch that an event names, if it names one.
pub open spec fn switch_of(event: EventView) -> Option<Switch> {
    match event {
        EventView::Short(letter) => switch_of_letter(letter),
        EventView::Long(name) => switch_of_name(name),
        EventView::Value(_) => None,
    }
}

/// What to do after `event`, when an input file has or has not been found
/// before: a switch with a value asks for it, the first thing that is no
/// switch is the input file, and whatever else is not known is refused.
pub open spec fn action_on(event: EventView, have_input: bool) -> Action {
    match switch_of(event) {
        Some(Switch::Help) => Action::Help,
        Some(Switch::Version) => Action::Version,
        Some(Switch::Transparent) => Action::Continue,
        Some(switch) => Action::NeedValue(switch),
        None => if event is Value && !have_input {
            Action::Continue
        } else {
            Action::Usage
        },
    }
}

impl GivenView {
    /// Nothing was found yet.
    pub open spec fn nothing() -> GivenView {
        GivenView {
            input: None,
            output: None,
            max_gap: None,
            cell_count: None,
            rate: None,
            scale: None,
            font: None,
            title_font: None,
            transparent_bg: false,
        }
    }

    /// What is known after `event`: the switch for a transparent background
    /// is noted, and so is the first thing that is no switch, as the input
    /// file. Nothing else changes what is known.
    pub open spec fn after_event(self, event: EventView) -> GivenView {
        GivenView {
            transparent_bg: self.transparent_bg || switch_of(event) == Some(Switch::Transparent),
            input: if self.input is None && event is Value {
                Some(event->Value_0)
            } else {
                self.input
            },
            ..self
        }
    }

    /// What is known after the value of `switch` was found, or why the
    /// value is refused: a scale, a frame rate and a longest gap must be
    /// decimal numerals that are not negative, a cell count a small whole
    /// numeral. A value found again replaces the one before, and a switch
    /// that has no value changes nothing.
    pub open spec fn with_value(self, switch: Switch, value: Seq<char>) -> Result<
        GivenView,
        ArgsError,
    > {
        match switch {
            Switch::Scale => match amount(value) {
                Some(v) => Ok(GivenView { scale: Some(v), ..self }),
                None => Err(ArgsError::Invalid(switch)),
            },
            Switch::Rate => match amount(value) {
                Some(v) => Ok(GivenView { rate: Some(v), ..self }),
                None => Err(ArgsError::Invalid(switch)),
            },
            Switch::MaxGapSeconds => match amount(value) {
                Some(v) => Ok(GivenView { max_gap: Some(v), ..self }),
                None => Err(ArgsError::Invalid(switch)),
            },
            Switch::CellCount => match count(value) {
                Some(v) => Ok(GivenView { cell_count: Some(v), ..self }),
                None => Err(ArgsError::Invalid(switch)),
            },
            Switch::Font => Ok(GivenView { font: Some(value), ..self }),
            Switch::TitleFont => Ok(GivenView { title_font: Some(value), ..self }),
            Switch::Output => Ok(GivenView { output: Some(value), ..self }),
            _ => Ok(self),
        }
    }
}

impl Given {
    /// Nothing was found yet.
    pub fn new() -> (res: Self)
        ensures
            res == (Given {
                input: None,
                output: None,
                max_gap: None,
                cell_count: None,
                rate: None,
                scale: None,
                font: None,
                title_font: None,
                transparent_bg: false,
            }),
    {
        Given {
            input: None,
            output: None,
            max_gap: None,
            cell_count: None,
            rate: None,
            scale: None,
            font: None,
            title_font: None,
            transparent_bg: false,
        }
    }

    /// Takes note of what was found and says what to do next.
    pub fn on_event(&mut self, event: Event) -> (action: Action)
        ensures
            action == action_on(event@, old(self)@.input is Some),
            final(self)@ == old(self)@.after_event(event@),
    {
        match event {
            Event::Short(letter) => self.on_switch(short_switch(letter)),
            Event::Long(name) => self.on_switch(long_switch(name.as_str())),
            Event::Value(value) => {
                if self.input.is_none() {
                    self.input = Some(value);
                    Action::Continue
                } else {
                    Action::Usage
                }
            },
        }
    }

    fn on_switch(&mut self, switch: Option<Switch>) -> (action: Action)
        ensures
            action == match switch {
                Some(Switch::Help) => Action::Help,
                Some(Switch::Version) => Action::Version,
                Some(Switch::Transparent) => Action::Continue,
                Some(s) => Action::NeedValue(s),
                None => Action::Usage,
            },
            final(self)@ == (GivenView {
                transparent_bg: old(self)@.transparent_bg || switch == Some(Switch::Transparent),
                ..old(self)@
            }),
    {
        match switch {
            Some(Switch::Help) => Action::Help,
            Some(Switch::Version) => Action::Version,
            Some(Switch::Transparent) => {
                self.transparent_bg = true;
                Action::Continue
            },
            Some(s) => Action::NeedValue(s),
            None => Action::Usage,
        }
    }

    /// Takes note of the value of a switch. A number is read at once; where
    /// it is none, the value is refused and what is known stays as it was.
    pub fn on_value(&mut self, switch: Switch, value: String) -> (res: Result<(), ArgsError>)
        ensures
            match old(self)@.with_value(switch, value@) {
                Ok(known) => res is Ok && final(self)@ == known,
                Err(e) => res == Err::<(), ArgsError>(e) && final(self)@ == old(self)@,
            },
    {
        match switch {
            Switch::Scale => match parse_amount(value.as_str()) {
                Some(v) => {
                    self.scale = Some(v);
                },
                None => {
                    return Err(ArgsError::Invalid(switch));
                },
            },
            Switch::Rate => match parse_amount(value.as_str()) {
                Some(v) => {
                    self.rate = Some(v);
                },
                None => {
                    return Err(ArgsError::Invalid(switch));
                },
            },
            Switch::MaxGapSeconds => match parse_amount(value.as_str()) {
                Some(v) => {
                    self.max_gap = Some(v);
                },
                None => {
                    return Err(ArgsError::Invalid(switch));
                },
            },
            Switch::CellCount => match parse_count(value.as_str()) {
                Some(v) => {
                    self.cell_count = Some(v);
                },
                None => {
                    return Err(ArgsError::Invalid(switch));
                },
            },
            Switch::Font => {
                self.font = Some(value);
            },
            Switch::TitleFont => {
                self.title_font = Some(value);
            },
            Switch::Output => {
                self.output = Some(value);
            },
            _ => {},
        }
        Ok(())
    }
}

/// The settings of a run.
#[derive(Clone, Debug, PartialEq, Eq)]
pub struct Args {
    pub input: String,
    pub output: String,
    /// The longest time a frame is held, in milliseconds.
    pub max_gap: u32,
    /// The number of cells of the battery pack, where it was given.
    pub cell_count: Option<u8>,
    /// The frame rate in frames per thousand seconds. Without one, each
    /// frame carries its own time.
    pub rate: Option<u32>,
    /// The factor by which the video is resized, in thousandths.
    pub scale: u32,
    pub font: String,
    pub title_font: String,
    pub transparent_bg: bool,
}

pub struct ArgsView {
    pub input: Seq<char>,
    pub output: Seq<char>,
    pub max_gap: u32,
    pub cell_count: Option<u8>,
    pub rate: Option<u32>,
    pub scale: u32,
    pub font: Seq<char>,
    pub title_font: Seq<char>,
    pub transparent_bg: bool,
}

impl View for Args {
    type V = ArgsView;

    open spec fn view(&self) -> ArgsView {
        ArgsView {
            input: self.input@,
            output: self.output@,
            max_gap: self.max_gap,
            cell_count: self.cell_count,
            rate: self.rate,
            scale: self.scale,
            font: self.font@,
            title_font: self.title_font@,
            transparent_bg: self.transparent_bg,
        }
    }
}

/// The longest gap where none is given: two seconds.
pub const DEFAULT_MAX_GAP: u32 = 2000;

/// The scale where none is given: one.
pub const DEFAULT_SCALE: u32 = 1000;

/// What is missing from what was given, if anything is: an input file must
/// be there, and then a font.
pub open spec fn refusal(given: GivenView) -> Option<ArgsError> {
    if given.input is None {
        Some(ArgsError::NoInput)
    } else if given.font is None {
        Some(ArgsError::NoFont)
    } else {
        None
    }
}

/// The settings that follow from what was given, where nothing is missing:
/// the output defaults to `output.mov`, the longest gap to two seconds, the
/// scale to one, and the title font to the text font. Without a frame rate
/// there is none, and without a cell count neither.
pub open spec fn settings(given: GivenView) -> ArgsView {
    ArgsView {
        input: given.input->0,
        output: match given.output {
            Some(o) => o,
            None => "output.mov"@,
        },
        max_gap: match given.max_gap {
            Some(g) => g,
            None => DEFAULT_MAX_GAP,
        },
        cell_count: given.cell_count,
        rate: given.rate,
        scale: match given.scale {
            Some(s) => s,
            None => DEFAULT_SCALE,
        },
        font: given.font->0,
        title_font: match given.title_font {
            Some(t) => t,
            None => given.font->0,
        },
        transparent_bg: given.transparent_bg,
    }
}

/// What a command line asks for.
#[derive(Clone, Debug, PartialEq, Eq)]
pub enum CommandLine {
    /// A run with these settings.
    Run(Args),
    /// The help, ending well.
    Help,
    /// The version, ending well.
    Version,
    /// The help, ending badly: something on the command line was not
    /// expected.
    Usage,
    /// The help and what is wrong: a setting is missing or no number.
    Refused(ArgsError),
    /// What is wrong with the form of the command line, in words.
    Malformed(String),
}

pub enum CommandLineView {
    Run(ArgsView),
    Help,
    Version,
    Usage,
    Refused(ArgsError),
    Malformed(Seq<char>),
}

impl View for CommandLine {
    type V = CommandLineView;

    open spec fn view(&self) -> CommandLineView {
        match *self {
            CommandLine::Run(args) => CommandLineView::Run(args@),
            CommandLine::Help => CommandLineView::Help,
            CommandLine::Version => CommandLineView::Version,
            CommandLine::Usage => CommandLineView::Usage,
            CommandLine::Refused(e) => CommandLineView::Refused(e),
            CommandLine::Malformed(words) => CommandLineView::Malformed(words@),
        }
    }
}

/// What a command line asks for once its end is found: a run, unless
/// something is missing.
pub open spec fn settled(given: GivenView) -> CommandLineView {
    match refusal(given) {
        Some(e) => CommandLineView::Refused(e),
        None => CommandLineView::Run(settings(given)),
    }
}

/// `lexopt::Parser`, which splits a command line into switches and values.
#[verifier::external_type_specification]
#[verifier::external_body]
pub struct ExParser(lexopt::Parser);

/// What a parser has not read yet, and all else that its next answers
/// depend on. The first entry says where the parser stands: inside a word
/// of short switches, before a value that follows an equals sign, behind
/// the word that ends the switches, and which switch it found last. It is
/// empty for a parser that has read nothing. The entries after it are the
/// words that the parser has not begun.
pub uninterp spec fn unread(parser: lexopt::Parser) -> Seq<Seq<char>>;

/// What `lexopt::Parser::next` finds when this is unread, and what is
/// unread after it. It finds a switch or a value, or the end, or a fault
/// that it puts in words.
pub uninterp spec fn next_of(left: Seq<Seq<char>>) -> (
    Result<Option<EventView>, Seq<char>>,
    Seq<Seq<char>>,
);

/// What `lexopt::Parser::value` finds when this is unread, and what is
/// unread after it. It finds the value of the switch found last, or a fault
/// that it puts in words.
pub uninterp spec fn value_of(left: Seq<Seq<char>>) -> (Result<Seq<char>, Seq<char>>, Seq<Seq<char>>);

/// The texts of the words of a command line, in order.
pub open spec fn word_views(words: Seq<String>) -> Seq<Seq<char>> {
    words.map_values(|w: String| w@)
}

/// What is unread of a command line of which nothing was read.
pub open spec fn fresh(words: Seq<Seq<char>>) -> Seq<Seq<char>> {
    seq![Seq::<char>::empty()] + words
}

/// What was found, by its view.
pub open spec fn found_view(found: Result<Option<Event>, String>) -> Result<
    Option<EventView>,
    Seq<char>,
> {
    match found {
        Ok(Some(event)) => Ok(Some(event@)),
        Ok(None) => Ok(None),
        Err(words) => Err(words@),
    }
}

/// The value that was found, by its view.
pub open spec fn value_view(value: Result<String, String>) -> Result<Seq<char>, Seq<char>> {
    match value {
        Ok(text) => Ok(text@),
        Err(words) => Err(words@),
    }
}

/// Makes a parser for the words that follow the name of the program. This is
/// `lexopt::Parser::from_args`, which is taken to read none of the words:
/// all of them are unread, and the parser stands nowhere.
#[verifier::external_body]
fn parser_from_args(args: Vec<String>) -> (parser: lexopt::Parser)
    ensures
        unread(parser) == fresh(word_views(args@)),
{
    lexopt::Parser::from_args(args)
}

/// Takes the next switch or value off the command line, or finds it ended.
/// This is `lexopt::Parser::next`, with a value made a text by
/// `lexopt::ValueExt::string` and a fault put in words as `lexopt::Error`
/// displays itself. It is taken that what is found and what is unread
/// afterwards depend on what was unread and on nothing else.
#[verifier::external_body]
fn next_event(parser: &mut lexopt::Parser) -> (found: Result<Option<Event>, String>)
    ensures
        found_view(found) == next_of(unread(*old(parser))).0,
        unread(*final(parser)) == next_of(unread(*old(parser))).1,
{
    match parser.next() {
        Ok(Some(lexopt::Arg::Short(letter))) => Ok(Some(Event::Short(letter))),
        Ok(Some(lexopt::Arg::Long(name))) => Ok(Some(Event::Long(name.to_string()))),
        Ok(Some(lexopt::Arg::Value(value))) => match lexopt::ValueExt::string(value) {
            Ok(text) => Ok(Some(Event::Value(text))),
            Err(e) => Err(e.to_string()),
        },
        Ok(None) => Ok(None),
        Err(e) => Err(e.to_string()),
    }
}

/// Takes the value of the switch that was found last off the command line.
/// This is `lexopt::Parser::value`, with the value made a text by
/// `lexopt::ValueExt::string` and a fault put in words as `lexopt::Error`
/// displays itself. It is taken that what is found and what is unread
/// afterwards depend on what was unread and on nothing else.
#[verifier::external_body]
fn next_value(parser: &mut lexopt::Parser) -> (value: Result<String, String>)
    ensures
        value_view(value) == value_of(unread(*old(parser))).0,
        unread(*final(parser)) == value_of(unread(*old(parser))).1,
{
    match parser.value() {
        Ok(value) => match lexopt::ValueExt::string(value) {
            Ok(text) => Ok(text),
            Err(e) => Err(e.to_string()),
        },
        Err(e) => Err(e.to_string()),
    }
}

/// What a command line asks for when this is unread of it, this much is
/// known, and so many steps are left to find its end in. A step finds a
/// switch, with its value if it has one, or a value, or the end. A fault
/// in the form of the command line, a value that is no number, the help,
/// the version and what is not expected each end it at once. Where the
/// steps run out before the end is found, the command line is refused as
/// not expected.
pub open spec fn outcome(left: Seq<Seq<char>>, given: GivenView, steps: nat) -> CommandLineView
    decreases steps,
{
    if steps == 0 {
        CommandLineView::Usage
    } else {
        match next_of(left).0 {
            Err(words) => CommandLineView::Malformed(words),
            Ok(None) => settled(given),
            Ok(Some(event)) => match action_on(event, given.input is Some) {
                Action::Continue => outcome(
                    next_of(left).1,
                    given.after_event(event),
                    (steps - 1) as nat,
                ),
                Action::NeedValue(switch) => match value_of(next_of(left).1).0 {
                    Err(words) => CommandLineView::Malformed(words),
                    Ok(value) => match given.after_event(event).with_value(switch, value) {
                        Ok(known) => outcome(
                            value_of(next_of(left).1).1,
                            known,
                            (steps - 1) as nat,
                        ),
                        Err(e) => CommandLineView::Refused(e),
                    },
                },
                Action::Help => CommandLineView::Help,
                Action::Version => CommandLineView::Version,
                Action::Usage => CommandLineView::Usage,
            },
        }
    }
}

/// The number of steps that the first `count` words of a command line are
/// given: one for each word and one for each of its characters.
pub open spec fn steps_within(words: Seq<Seq<char>>, count: nat) -> nat
    decreases count,
{
    if count == 0 {
        0
    } else {
        steps_within(words, (count - 1) as nat) + words[count - 1].len() + 1
    }
}

/// The number of steps that a command line is given to come to its end:
/// one more than its words are given, and no more than can be counted.
pub open spec fn step_limit(words: Seq<Seq<char>>) -> nat {
    if steps_within(words, words.len()) + 1 < usize::MAX {
        steps_within(words, words.len()) + 1
    } else {
        usize::MAX as nat
    }
}

proof fn lemma_steps_grow(words: Seq<Seq<char>>, low: nat, high: nat)
    requires
        low <= high,
    ensures
        steps_within(words, low) <= steps_within(words, high),
    decreases high,
{
    if low < high {
        lemma_steps_grow(words, low, (high - 1) as nat);
    }
}

fn count_steps(args: &Vec<String>) -> (limit: usize)
    ensures
        limit == step_limit(word_views(args@)),
{
    let ghost words = word_views(args@);
    let mut limit: usize = 1;
    let mut i: usize = 0;
    while i < args.len()
        invariant
            i <= args.len(),
            words == word_views(args@),
            limit == steps_within(words, i as nat) + 1 || (limit == usize::MAX && steps_within(
                words,
                i as nat,
            ) + 1 >= usize::MAX),
        decreases args.len() - i,
    {
        let length = args[i].as_str().unicode_len();
        assert(words[i as int] == args@[i as int]@);
        limit = if length < usize::MAX - limit {
            limit + length + 1
        } else {
            usize::MAX
        };
        i = i + 1;
    }
    limit
}

impl Args {
    /// Reads a command line, given as the words that follow the name of the
    /// program. A command line without words names no input file and is
    /// refused for that; no parser is asked about it. Else switches and
    /// values are taken off it step by step, as `outcome` says, until the
    /// end is found or something ends it before; the steps are limited as
    /// `step_limit` says.
    pub fn parse(args: Vec<String>) -> (res: CommandLine)
        ensures
            res@ == if args@.len() == 0 {
                CommandLineView::Refused(ArgsError::NoInput)
            } else {
                outcome(
                    fresh(word_views(args@)),
                    GivenView::nothing(),
                    step_limit(word_views(args@)),
                )
            },
    {
        if args.len() == 0 {
            return CommandLine::Refused(ArgsError::NoInput);
        }
        let ghost goal = outcome(
            fresh(word_views(args@)),
            GivenView::nothing(),
            step_limit(word_views(args@)),
        );
        let mut steps = count_steps(&args);
        let mut parser = parser_from_args(args);
        let mut given = Given::new();
        while steps > 0
            invariant
                args@.len() > 0,
                goal == outcome(
                    fresh(word_views(args@)),
                    GivenView::nothing(),
                    step_limit(word_views(args@)),
                ),
                goal == outcome(unread(parser), given@, steps as nat),
            decreases steps,
        {
            steps = steps - 1;
            let event = match next_event(&mut parser) {
                Ok(Some(event)) => event,
                Ok(None) => {
                    return match Args::from_given(given) {
                        Ok(settled) => CommandLine::Run(settled),
                        Err(e) => CommandLine::Refused(e),
                    };
                },
                Err(words) => {
                    return CommandLine::Malformed(words);
                },
            };
            match given.on_event(event) {
                Action::Continue => {},
                Action::NeedValue(switch) => match next_value(&mut parser) {
                    Ok(value) => match given.on_value(switch, value) {
                        Ok(()) => {},
                        Err(e) => {
                            return CommandLine::Refused(e);
                        },
                    },
                    Err(words) => {
                        return CommandLine::Malformed(words);
                    },
                },
                Action::Help => {
                    return CommandLine::Help;
                },
                Action::Version => {
                    return CommandLine::Version;
                },
                Action::Usage => {
                    return CommandLine::Usage;
                },
            }
        }
        CommandLine::Usage
    }

    /// Checks that nothing is missing from what was given on the command
    /// line, and fills in the defaults.
    pub fn from_given(given: Given) -> (res: Result<Args, ArgsError>)
        ensures
            match res {
                Ok(args) => refusal(given@) is None && args@ == settings(given@),
                Err(e) => refusal(given@) == Some(e),
            },
    {
        let Given {
            input,
            output,
            max_gap,
            cell_count,
            rate,
            scale,
            font,
            title_font,
            transparent_bg,
        } = given;
        let input = match input {
            Some(i) => i,
            None => {
                return Err(ArgsError::NoInput);
            },
        };
        let font = match font {
            Some(f) => f,
            None => {
                return Err(ArgsError::NoFont);
            },
        };
        let title_font = match title_font {
            Some(t) => t,
            None => font.clone(),
        };
        Ok(
            Args {
                input,
                output: match output {
                    Some(o) => o,
                    None => String::from_str("output.mov"),
                },
                max_gap: match max_gap {
                    Some(g) => g,
                    None => DEFAULT_MAX_GAP,
                },
                cell_count,
                rate,
                scale: match scale {
                    Some(s) => s,
                    None => DEFAULT_SCALE,
                },
                font,
                title_font,
                transparent_bg,
            },
        )
    }
}

} // verus!
