//! What the bytes that the machine sends mean to a terminal: the escape
//! sequences of the monitor as commands for the host's screen.

use vstd::prelude::*;

verus! {

/// A way of showing text.
#[derive(Debug, Clone, Copy, PartialEq, Eq, Structural)]
pub enum Attribute {
    Reset,
    Bold,
    Dim,
    Italic,
    Underlined,
    SlowBlink,
    RapidBlink,
    Reverse,
    Hidden,
    CrossedOut,
    NormalIntensity,
    NoItalic,
    NoUnderline,
    NoBlink,
    NoReverse,
    NoHidden,
    NotCrossedOut,
}

/// A color of the text or of its background.
#[derive(Debug, Clone, Copy, PartialEq, Eq, Structural)]
pub enum TerminalColor {
    Reset,
    Black,
    DarkRed,
    DarkGreen,
    DarkYellow,
    DarkBlue,
    DarkMagenta,
    DarkCyan,
    Grey,
    DarkGrey,
    Red,
    Green,
    Yellow,
    Blue,
    Magenta,
    Cyan,
    White,
    /// One of the 256 colors of the palette.
    AnsiValue(u8),
    Rgb { r: u8, g: u8, b: u8 },
}

/// A part of the screen to clear.
#[derive(Debug, Clone, Copy, PartialEq, Eq, Structural)]
pub enum ClearKind {
    FromCursorDown,
    FromCursorUp,
    All,
    Purge,
    UntilNewLine,
    CurrentLine,
}

/// Something for the host's screen to do.
#[derive(Debug, Clone, Copy, PartialEq, Eq, Structural)]
pub enum TerminalCommand {
    Print(char),
    MoveUp(u16),
    MoveDown(u16),
    MoveRight(u16),
    MoveLeft(u16),
    MoveToNextLine(u16),
    MoveToPreviousLine(u16),
    MoveToColumn(u16),
    MoveTo { column: u16, row: u16 },
    Clear(ClearKind),
    ShowCursor,
    HideCursor,
    SetAttribute(Attribute),
    SetForeground(TerminalColor),
    SetBackground(TerminalColor),
}

/// The commands for a character to show: DEL rubs out the character
/// before the cursor, any other character is printed.
pub open spec fn spec_print(c: char) -> Seq<TerminalCommand> {
    if c == '\x7F' {
        seq![TerminalCommand::MoveLeft(1), TerminalCommand::Clear(ClearKind::UntilNewLine)]
    } else {
        seq![TerminalCommand::Print(c)]
    }
}

pub fn print(c: char) -> (commands: Vec<TerminalCommand>)
    ensures
        commands@ == spec_print(c),
{
    let commands: Vec<TerminalCommand> = if c == '\x7F' {
        vec![TerminalCommand::MoveLeft(1), TerminalCommand::Clear(ClearKind::UntilNewLine)]
    } else {
        vec![TerminalCommand::Print(c)]
    };
    assert(commands@ =~= spec_print(c));
    commands
}

/// The command for a control byte: carriage return, line feed and
/// backspace move the cursor, the others do nothing.
pub open spec fn spec_execute(byte: u8) -> Option<TerminalCommand> {
    if byte == 0x0D {
        Some(TerminalCommand::MoveToColumn(0))
    } else if byte == 0x0A {
        Some(TerminalCommand::MoveDown(1))
    } else if byte == 0x08 {
        Some(TerminalCommand::MoveLeft(1))
    } else {
        None
    }
}

#[verifier::when_used_as_spec(spec_execute)]
pub fn execute(byte: u8) -> (command: Option<TerminalCommand>)
    ensures
        command == spec_execute(byte),
{
    if byte == 0x0D {
        Some(TerminalCommand::MoveToColumn(0))
    } else if byte == 0x0A {
        Some(TerminalCommand::MoveDown(1))
    } else if byte == 0x08 {
        Some(TerminalCommand::MoveLeft(1))
    } else {
        None
    }
}

/// The commands for an escape sequence without parameters: `ESC c`
/// clears the screen and homes the cursor.
pub open spec fn spec_esc_dispatch(ignore: bool, byte: u8) -> Seq<TerminalCommand> {
    if !ignore && byte == 0x63 {
        seq![
            TerminalCommand::Clear(ClearKind::All),
            TerminalCommand::MoveTo { column: 0, row: 0 },
        ]
    } else {
        Seq::empty()
    }
}

pub fn esc_dispatch(ignore: bool, byte: u8) -> (commands: Vec<TerminalCommand>)
    ensures
        commands@ == spec_esc_dispatch(ignore, byte),
{
    let commands: Vec<TerminalCommand> = if !ignore && byte == 0x63 {
        vec![TerminalCommand::Clear(ClearKind::All), TerminalCommand::MoveTo { column: 0, row: 0 }]
    } else {
        Vec::new()
    };
    assert(commands@ =~= spec_esc_dispatch(ignore, byte));
    commands
}

/// The commands that bring the screen back to its first state.
pub open spec fn spec_reset() -> Seq<TerminalCommand> {
    seq![
        TerminalCommand::Clear(ClearKind::All),
        TerminalCommand::Clear(ClearKind::Purge),
        TerminalCommand::ShowCursor,
        TerminalCommand::MoveTo { column: 0, row: 0 },
    ]
}

pub fn reset() -> (commands: Vec<TerminalCommand>)
    ensures
        commands@ == spec_reset(),
{
    let commands: Vec<TerminalCommand> = vec![
        TerminalCommand::Clear(ClearKind::All),
        TerminalCommand::Clear(ClearKind::Purge),
        TerminalCommand::ShowCursor,
        TerminalCommand::MoveTo { column: 0, row: 0 },
    ];
    assert(commands@ =~= spec_reset());
    commands
}

/// The parameters of a sequence, each with its sub-parameters.
pub open spec fn spec_params(params: Seq<Vec<u16>>) -> Seq<Seq<u16>> {
    Seq::new(params.len(), |i: int| params[i]@)
}

/// Part `j` of parameter `i`; 0 if there is none.
pub open spec fn spec_part(params: Seq<Seq<u16>>, i: int, j: int) -> u16 {
    if 0 <= i < params.len() && 0 <= j < params[i].len() {
        params[i][j]
    } else {
        0
    }
}

fn part(params: &Vec<Vec<u16>>, i: usize, j: usize) -> (value: u16)
    ensures
        value == spec_part(spec_params(params@), i as int, j as int),
{
    if i < params.len() {
        assert(spec_params(params@)[i as int] == params@[i as int]@);
        if j < params[i].len() {
            params[i][j]
        } else {
            0
        }
    } else {
        0
    }
}

/// The command that the code `code` of a "select graphic rendition"
/// sequence stands for. The codes 38 and 48 take a color from the
/// parameters that follow and are not among these.
pub open spec fn spec_rendition(code: u16) -> Option<TerminalCommand> {
    match code {
        0 => Some(TerminalCommand::SetAttribute(Attribute::Reset)),
        1 => Some(TerminalCommand::SetAttribute(Attribute::Bold)),
        2 => Some(TerminalCommand::SetAttribute(Attribute::Dim)),
        3 => Some(TerminalCommand::SetAttribute(Attribute::Italic)),
        4 => Some(TerminalCommand::SetAttribute(Attribute::Underlined)),
        5 => Some(TerminalCommand::SetAttribute(Attribute::SlowBlink)),
        6 => Some(TerminalCommand::SetAttribute(Attribute::RapidBlink)),
        7 => Some(TerminalCommand::SetAttribute(Attribute::Reverse)),
        8 => Some(TerminalCommand::SetAttribute(Attribute::Hidden)),
        9 => Some(TerminalCommand::SetAttribute(Attribute::CrossedOut)),
        21 => Some(TerminalCommand::SetAttribute(Attribute::NormalIntensity)),
        22 => Some(TerminalCommand::SetAttribute(Attribute::NormalIntensity)),
        23 => Some(TerminalCommand::SetAttribute(Attribute::NoItalic)),
        24 => Some(TerminalCommand::SetAttribute(Attribute::NoUnderline)),
        25 => Some(TerminalCommand::SetAttribute(Attribute::NoBlink)),
        26 => Some(TerminalCommand::SetAttribute(Attribute::NoBlink)),
        27 => Some(TerminalCommand::SetAttribute(Attribute::NoReverse)),
        28 => Some(TerminalCommand::SetAttribute(Attribute::NoHidden)),
        29 => Some(TerminalCommand::SetAttribute(Attribute::NotCrossedOut)),
        30 => Some(TerminalCommand::SetForeground(TerminalColor::Black)),
        31 => Some(TerminalCommand::SetForeground(TerminalColor::DarkRed)),
        32 => Some(TerminalCommand::SetForeground(TerminalColor::DarkGreen)),
        33 => Some(TerminalCommand::SetForeground(TerminalColor::DarkYellow)),
        34 => Some(TerminalCommand::SetForeground(TerminalColor::DarkBlue)),
        35 => Some(TerminalCommand::SetForeground(TerminalColor::DarkMagenta)),
        36 => Some(TerminalCommand::SetForeground(TerminalColor::DarkCyan)),
        37 => Some(TerminalCommand::SetForeground(TerminalColor::Grey)),
        39 => Some(TerminalCommand::SetForeground(TerminalColor::Reset)),
        40 => Some(TerminalCommand::SetBackground(TerminalColor::Black)),
        41 => Some(TerminalCommand::SetBackground(TerminalColor::DarkRed)),
        42 => Some(TerminalCommand::SetBackground(TerminalColor::DarkGreen)),
        43 => Some(TerminalCommand::SetBackground(TerminalColor::DarkYellow)),
        44 => Some(TerminalCommand::SetBackground(TerminalColor::DarkBlue)),
        45 => Some(TerminalCommand::SetBackground(TerminalColor::DarkMagenta)),
        46 => Some(TerminalCommand::SetBackground(TerminalColor::DarkCyan)),
        47 => Some(TerminalCommand::SetBackground(TerminalColor::Grey)),
        49 => Some(TerminalCommand::SetBackground(TerminalColor::Reset)),
        90 => Some(TerminalCommand::SetForeground(TerminalColor::DarkGrey)),
        91 => Some(TerminalCommand::SetForeground(TerminalColor::Red)),
        92 => Some(TerminalCommand::SetForeground(TerminalColor::Green)),
        93 => Some(TerminalCommand::SetForeground(TerminalColor::Yellow)),
        94 => Some(TerminalCommand::SetForeground(TerminalColor::Blue)),
        95 => Some(TerminalCommand::SetForeground(TerminalColor::Magenta)),
        96 => Some(TerminalCommand::SetForeground(TerminalColor::Cyan)),
        97 => Some(TerminalCommand::SetForeground(TerminalColor::White)),
        100 => Some(TerminalCommand::SetBackground(TerminalColor::DarkGrey)),
        101 => Some(TerminalCommand::SetBackground(TerminalColor::Red)),
        102 => Some(TerminalCommand::SetBackground(TerminalColor::Green)),
        103 => Some(TerminalCommand::SetBackground(TerminalColor::Yellow)),
        104 => Some(TerminalCommand::SetBackground(TerminalColor::Blue)),
        105 => Some(TerminalCommand::SetBackground(TerminalColor::Magenta)),
        106 => Some(TerminalCommand::SetBackground(TerminalColor::Cyan)),
        107 => Some(TerminalCommand::SetBackground(TerminalColor::White)),
        _ => None,
    }
}

#[verifier::when_used_as_spec(spec_rendition)]
pub fn rendition(code: u16) -> (command: Option<TerminalCommand>)
    ensures
        command == spec_rendition(code),
{
    match code {
        0 => Some(TerminalCommand::SetAttribute(Attribute::Reset)),
        1 => Some(TerminalCommand::SetAttribute(Attribute::Bold)),
        2 => Some(TerminalCommand::SetAttribute(Attribute::Dim)),
        3 => Some(TerminalCommand::SetAttribute(Attribute::Italic)),
        4 => Some(TerminalCommand::SetAttribute(Attribute::Underlined)),
        5 => Some(TerminalCommand::SetAttribute(Attribute::SlowBlink)),
        6 => Some(TerminalCommand::SetAttribute(Attribute::RapidBlink)),
        7 => Some(TerminalCommand::SetAttribute(Attribute::Reverse)),
        8 => Some(TerminalCommand::SetAttribute(Attribute::Hidden)),
        9 => Some(TerminalCommand::SetAttribute(Attribute::CrossedOut)),
        21 => Some(TerminalCommand::SetAttribute(Attribute::NormalIntensity)),
        22 => Some(TerminalCommand::SetAttribute(Attribute::NormalIntensity)),
        23 => Some(TerminalCommand::SetAttribute(Attribute::NoItalic)),
        24 => Some(TerminalCommand::SetAttribute(Attribute::NoUnderline)),
        25 => Some(TerminalCommand::SetAttribute(Attribute::NoBlink)),
        26 => Some(TerminalCommand::SetAttribute(Attribute::NoBlink)),
        27 => Some(TerminalCommand::SetAttribute(Attribute::NoReverse)),
        28 => Some(TerminalCommand::SetAttribute(Attribute::NoHidden)),
        29 => Some(TerminalCommand::SetAttribute(Attribute::NotCrossedOut)),
        30 => Some(TerminalCommand::SetForeground(TerminalColor::Black)),
        31 => Some(TerminalCommand::SetForeground(TerminalColor::DarkRed)),
        32 => Some(TerminalCommand::SetForeground(TerminalColor::DarkGreen)),
        33 => Some(TerminalCommand::SetForeground(TerminalColor::DarkYellow)),
        34 => Some(TerminalCommand::SetForeground(TerminalColor::DarkBlue)),
        35 => Some(TerminalCommand::SetForeground(TerminalColor::DarkMagenta)),
        36 => Some(TerminalCommand::SetForeground(TerminalColor::DarkCyan)),
        37 => Some(TerminalCommand::SetForeground(TerminalColor::Grey)),
        39 => Some(TerminalCommand::SetForeground(TerminalColor::Reset)),
        40 => Some(TerminalCommand::SetBackground(TerminalColor::Black)),
        41 => Some(TerminalCommand::SetBackground(TerminalColor::DarkRed)),
        42 => Some(TerminalCommand::SetBackground(TerminalColor::DarkGreen)),
        43 => Some(TerminalCommand::SetBackground(TerminalColor::DarkYellow)),
        44 => Some(TerminalCommand::SetBackground(TerminalColor::DarkBlue)),
        45 => Some(TerminalCommand::SetBackground(TerminalColor::DarkMagenta)),
        46 => Some(TerminalCommand::SetBackground(TerminalColor::DarkCyan)),
        47 => Some(TerminalCommand::SetBackground(TerminalColor::Grey)),
        49 => Some(TerminalCommand::SetBackground(TerminalColor::Reset)),
        90 => Some(TerminalCommand::SetForeground(TerminalColor::DarkGrey)),
        91 => Some(TerminalCommand::SetForeground(TerminalColor::Red)),
        92 => Some(TerminalCommand::SetForeground(TerminalColor::Green)),
        93 => Some(TerminalCommand::SetForeground(TerminalColor::Yellow)),
        94 => Some(TerminalCommand::SetForeground(TerminalColor::Blue)),
        95 => Some(TerminalCommand::SetForeground(TerminalColor::Magenta)),
        96 => Some(TerminalCommand::SetForeground(TerminalColor::Cyan)),
        97 => Some(TerminalCommand::SetForeground(TerminalColor::White)),
        100 => Some(TerminalCommand::SetBackground(TerminalColor::DarkGrey)),
        101 => Some(TerminalCommand::SetBackground(TerminalColor::Red)),
        102 => Some(TerminalCommand::SetBackground(TerminalColor::Green)),
        103 => Some(TerminalCommand::SetBackground(TerminalColor::Yellow)),
        104 => Some(TerminalCommand::SetBackground(TerminalColor::Blue)),
        105 => Some(TerminalCommand::SetBackground(TerminalColor::Magenta)),
        106 => Some(TerminalCommand::SetBackground(TerminalColor::Cyan)),
        107 => Some(TerminalCommand::SetBackground(TerminalColor::White)),
        _ => None,
    }
}

/// The color that follows code 38 or 48 at parameter `at`, and the
/// parameter at which the sequence goes on. The color is given in the
/// sub-parameters of the code or in the parameters after it: 5 and an
/// index into the palette, or 2 and red, green and blue.
pub open spec fn spec_color(params: Seq<Seq<u16>>, at: int) -> (Option<TerminalColor>, int) {
    let (found, next) = spec_color_ahead(params, at);
    (
        found,
        if next <= params.len() {
            next
        } else {
            params.len() as int
        },
    )
}

/// The color and the parameter behind those that give it, which may lie
/// behind the last one.
pub open spec fn spec_color_ahead(params: Seq<Seq<u16>>, at: int) -> (Option<TerminalColor>, int) {
    if params[at].len() > 1 {
        (
            if params[at][1] == 5 {
                Some(TerminalColor::AnsiValue((spec_part(params, at, 2) % 256) as u8))
            } else if params[at][1] == 2 {
                Some(
                    TerminalColor::Rgb {
                        r: (spec_part(params, at, 2) % 256) as u8,
                        g: (spec_part(params, at, 3) % 256) as u8,
                        b: (spec_part(params, at, 4) % 256) as u8,
                    },
                )
            } else {
                None
            },
            at + 1,
        )
    } else if at + 1 < params.len() && params[at + 1].len() == 1 {
        if params[at + 1][0] == 5 {
            (Some(TerminalColor::AnsiValue((spec_part(params, at + 2, 0) % 256) as u8)), at + 3)
        } else if params[at + 1][0] == 2 {
            (
                Some(
                    TerminalColor::Rgb {
                        r: (spec_part(params, at + 2, 0) % 256) as u8,
                        g: (spec_part(params, at + 3, 0) % 256) as u8,
                        b: (spec_part(params, at + 4, 0) % 256) as u8,
                    },
                ),
                at + 5,
            )
        } else {
            (None, at + 2)
        }
    } else {
        (None, at + 2)
    }
}

fn part_ahead(params: &Vec<Vec<u16>>, at: usize, ahead: usize) -> (value: u16)
    requires
        at < params@.len(),
    ensures
        value == spec_part(spec_params(params@), at + ahead, 0),
{
    if ahead < params.len() - at {
        part(params, at + ahead, 0)
    } else {
        0
    }
}

fn clip(params: &Vec<Vec<u16>>, at: usize, ahead: usize) -> (next: usize)
    requires
        at < params@.len(),
        ahead >= 1,
    ensures
        next == if at + ahead <= params@.len() {
            at + ahead
        } else {
            params@.len() as int
        },
        at < next <= params@.len(),
{
    if ahead <= params.len() - at {
        at + ahead
    } else {
        params.len()
    }
}

fn color(params: &Vec<Vec<u16>>, at: usize) -> (r: (Option<TerminalColor>, usize))
    requires
        at < params@.len(),
    ensures
        r.0 == spec_color(spec_params(params@), at as int).0,
        r.1 == spec_color(spec_params(params@), at as int).1,
        at < r.1 <= params@.len(),
{
    let n = params.len();
    assert(spec_params(params@)[at as int] == params@[at as int]@);
    if params[at].len() > 1 {
        let kind = params[at][1];
        (
            if kind == 5 {
                Some(TerminalColor::AnsiValue((part(params, at, 2) % 256) as u8))
            } else if kind == 2 {
                Some(
                    TerminalColor::Rgb {
                        r: (part(params, at, 2) % 256) as u8,
                        g: (part(params, at, 3) % 256) as u8,
                        b: (part(params, at, 4) % 256) as u8,
                    },
                )
            } else {
                None
            },
            clip(params, at, 1),
        )
    } else if 1 < n - at && params[at + 1].len() == 1 {
        assert(spec_params(params@)[at + 1] == params@[at + 1]@);
        let kind = params[at + 1][0];
        if kind == 5 {
            (
                Some(TerminalColor::AnsiValue((part_ahead(params, at, 2) % 256) as u8)),
                clip(params, at, 3),
            )
        } else if kind == 2 {
            (
                Some(
                    TerminalColor::Rgb {
                        r: (part_ahead(params, at, 2) % 256) as u8,
                        g: (part_ahead(params, at, 3) % 256) as u8,
                        b: (part_ahead(params, at, 4) % 256) as u8,
                    },
                ),
                clip(params, at, 5),
            )
        } else {
            (None, clip(params, at, 2))
        }
    } else {
        proof {
            if at + 1 < n {
                assert(spec_params(params@)[at + 1] == params@[at + 1]@);
            }
        }
        (None, clip(params, at, 2))
    }
}

/// The commands of a "select graphic rendition" sequence from parameter
/// `at` on, after `commands`.
pub open spec fn spec_renditions(
    params: Seq<Seq<u16>>,
    at: int,
    commands: Seq<TerminalCommand>,
) -> Seq<TerminalCommand>
    decreases params.len() - at,
{
    if at < 0 || at >= params.len() {
        commands
    } else if params[at].len() == 0 {
        spec_renditions(params, at + 1, commands)
    } else if params[at][0] == 38 || params[at][0] == 48 {
        let (found, next) = spec_color(params, at);
        if next <= at || next > params.len() {
            commands
        } else {
            spec_renditions(
                params,
                next,
                match found {
                    Some(c) => commands.push(
                        if params[at][0] == 38 {
                            TerminalCommand::SetForeground(c)
                        } else {
                            TerminalCommand::SetBackground(c)
                        },
                    ),
                    None => commands,
                },
            )
        }
    } else {
        spec_renditions(
            params,
            at + 1,
            match spec_rendition(params[at][0]) {
                Some(command) => commands.push(command),
                None => commands,
            },
        )
    }
}

fn renditions(params: &Vec<Vec<u16>>) -> (commands: Vec<TerminalCommand>)
    ensures
        commands@ == spec_renditions(spec_params(params@), 0, Seq::empty()),
{
    let mut commands: Vec<TerminalCommand> = Vec::new();
    let mut at: usize = 0;
    while at < params.len()
        invariant
            spec_renditions(spec_params(params@), 0, Seq::empty()) == spec_renditions(
                spec_params(params@),
                at as int,
                commands@,
            ),
        decreases params@.len() - at,
    {
        assert(spec_params(params@)[at as int] == params@[at as int]@);
        if params[at].len() == 0 {
            at += 1;
        } else {
            let code = params[at][0];
            if code == 38 || code == 48 {
                let (found, next) = color(params, at);
                match found {
                    Some(c) => {
                        commands.push(
                            if code == 38 {
                                TerminalCommand::SetForeground(c)
                            } else {
                                TerminalCommand::SetBackground(c)
                            },
                        );
                    },
                    None => {},
                }
                at = next;
            } else {
                match rendition(code) {
                    Some(command) => {
                        commands.push(command);
                    },
                    None => {},
                }
                at += 1;
            }
        }
    }
    commands
}

pub open spec fn spec_at_least_one(n: u16) -> u16 {
    if n == 0 {
        1
    } else {
        n
    }
}

/// The commands for a control sequence with the parameters `params` and
/// the final character `action`. The cursor moves by at least one; `H`
/// and `f` take row and column; `J` and `K` clear; `h` and `l` with 25
/// show and hide the cursor; `m` selects the rendition. A sequence to
/// ignore and an action that is not known give nothing.
pub open spec fn spec_csi_dispatch(params: Seq<Seq<u16>>, ignore: bool, action: char) -> Seq<
    TerminalCommand,
> {
    let first = spec_part(params, 0, 0);
    let second = spec_part(params, 1, 0);
    if ignore {
        Seq::empty()
    } else if action == 'A' {
        seq![TerminalCommand::MoveUp(spec_at_least_one(first))]
    } else if action == 'B' {
        seq![TerminalCommand::MoveDown(spec_at_least_one(first))]
    } else if action == 'C' {
        seq![TerminalCommand::MoveRight(spec_at_least_one(first))]
    } else if action == 'D' {
        seq![TerminalCommand::MoveLeft(spec_at_least_one(first))]
    } else if action == 'E' {
        seq![TerminalCommand::MoveToNextLine(spec_at_least_one(first))]
    } else if action == 'F' {
        seq![TerminalCommand::MoveToPreviousLine(spec_at_least_one(first))]
    } else if action == 'G' {
        seq![TerminalCommand::MoveToColumn(first)]
    } else if action == 'H' || action == 'f' {
        seq![TerminalCommand::MoveTo { column: second, row: first }]
    } else if action == 'J' {
        if first == 0 {
            seq![TerminalCommand::Clear(ClearKind::FromCursorDown)]
        } else if first == 1 {
            seq![TerminalCommand::Clear(ClearKind::FromCursorUp)]
        } else if first == 2 {
            seq![TerminalCommand::Clear(ClearKind::All)]
        } else if first == 3 {
            seq![TerminalCommand::Clear(ClearKind::Purge)]
        } else {
            Seq::empty()
        }
    } else if action == 'K' {
        if first == 0 {
            seq![TerminalCommand::Clear(ClearKind::UntilNewLine)]
        } else if first == 2 {
            seq![TerminalCommand::Clear(ClearKind::CurrentLine)]
        } else {
            Seq::empty()
        }
    } else if action == 'h' {
        if first == 25 {
            seq![TerminalCommand::ShowCursor]
        } else {
            Seq::empty()
        }
    } else if action == 'l' {
        if first == 25 {
            seq![TerminalCommand::HideCursor]
        } else {
            Seq::empty()
        }
    } else if action == 'm' {
        spec_renditions(params, 0, Seq::empty())
    } else {
        Seq::empty()
    }
}

fn one(command: TerminalCommand) -> (commands: Vec<TerminalCommand>)
    ensures
        commands@ == seq![command],
{
    let commands: Vec<TerminalCommand> = vec![command];
    assert(commands@ =~= seq![command]);
    commands
}

pub fn csi_dispatch(params: &Vec<Vec<u16>>, ignore: bool, action: char) -> (commands: Vec<
    TerminalCommand,
>)
    ensures
        commands@ == spec_csi_dispatch(spec_params(params@), ignore, action),
{
    let first = part(params, 0, 0);
    let second = part(params, 1, 0);
    let count: u16 = if first == 0 {
        1
    } else {
        first
    };
    if ignore {
        Vec::new()
    } else if action == 'A' {
        one(TerminalCommand::MoveUp(count))
    } else if action == 'B' {
        one(TerminalCommand::MoveDown(count))
    } else if action == 'C' {
        one(TerminalCommand::MoveRight(count))
    } else if action == 'D' {
        one(TerminalCommand::MoveLeft(count))
    } else if action == 'E' {
        one(TerminalCommand::MoveToNextLine(count))
    } else if action == 'F' {
        one(TerminalCommand::MoveToPreviousLine(count))
    } else if action == 'G' {
        one(TerminalCommand::MoveToColumn(first))
    } else if action == 'H' || action == 'f' {
        one(TerminalCommand::MoveTo { column: second, row: first })
    } else if action == 'J' {
        if first == 0 {
            one(TerminalCommand::Clear(ClearKind::FromCursorDown))
        } else if first == 1 {
            one(TerminalCommand::Clear(ClearKind::FromCursorUp))
        } else if first == 2 {
            one(TerminalCommand::Clear(ClearKind::All))
        } else if first == 3 {
            one(TerminalCommand::Clear(ClearKind::Purge))
        } else {
            Vec::new()
        }
    } else if action == 'K' {
        if first == 0 {
            one(TerminalCommand::Clear(ClearKind::UntilNewLine))
        } else if first == 2 {
            one(TerminalCommand::Clear(ClearKind::CurrentLine))
        } else {
            Vec::new()
        }
    } else if action == 'h' {
        if first == 25 {
            one(TerminalCommand::ShowCursor)
        } else {
            Vec::new()
        }
    } else if action == 'l' {
        if first == 25 {
            one(TerminalCommand::HideCursor)
        } else {
            Vec::new()
        }
    } else if action == 'm' {
        renditions(params)
    } else {
        Vec::new()
    }
}

} // verus!
