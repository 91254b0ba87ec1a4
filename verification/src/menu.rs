//! Reading the user's answers at the menus and prompts, and the text of the
//! messages shown to the user.

use vstd::prelude::*;
use vstd::string::*;
use crate::types::{AdvancedCommand, SystemIssue, menu_issues};
use crate::text::{
    decimal, is_digit, lemma_decimal_digits, lemma_parse_decimal, parse_usize, parsed_usize, str_eq, trim, trim_end,
    trim_start, trimmed, is_white_space,
};

verus! {

/// What a menu answer selects.
#[derive(Debug, Clone, Copy, PartialEq, Eq, Structural)]
pub enum Selection {
    /// The entry `0`: leave this menu (exit, or go back).
    Leave,
    /// The listed entry at this position, counted from zero: the answer `n`
    /// selects position `n - 1`.
    Entry(usize),
}

/// What a menu answer selects: `Leave` for the answer `0`, `Entry(n - 1)` for
/// an answer `n` between 1 and `max_option`, and `None` for anything else.
/// The answer is trimmed and read as `str::parse::<usize>` reads it.
pub open spec fn menu_choice(input: Seq<char>, max_option: usize) -> Option<Selection> {
    match parsed_usize(trimmed(input)) {
        Some(n) => if n == 0 {
            Some(Selection::Leave)
        } else if n <= max_option {
            Some(Selection::Entry((n - 1) as usize))
        } else {
            None
        },
        None => None,
    }
}

/// Reads the user's menu answer: `0` leaves the menu, an entry `n` between 1
/// and `max_option` selects the `n`-th listed entry (position `n - 1`), and
/// anything else gives `None` (an invalid selection).
pub fn parse_menu_choice(input: &str, max_option: usize) -> (r: Option<Selection>)
    ensures
        r == menu_choice(input@, max_option),
{
    match parse_usize(trim(input)) {
        Some(n) => if n == 0 {
            Some(Selection::Leave)
        } else if n <= max_option {
            Some(Selection::Entry(n - 1))
        } else {
            None
        },
        None => None,
    }
}

/// A selected entry never lies outside the menu it was made from.
pub proof fn lemma_choice_in_range(input: Seq<char>, max_option: usize, k: usize)
    requires
        menu_choice(input, max_option) == Some(Selection::Entry(k)),
    ensures
        k < max_option,
{
}

/// Typing `0` leaves the menu.
pub proof fn lemma_zero_leaves(max_option: usize)
    ensures
        menu_choice(decimal(0), max_option) == Some(Selection::Leave),
{
    lemma_digits_read_back(0);
}

/// Typing the number that the menu shows beside an entry selects that entry.
pub proof fn lemma_choice_of_shown_number(n: usize, max_option: usize)
    requires
        1 <= n <= max_option,
    ensures
        menu_choice(decimal(n as nat), max_option) == Some(Selection::Entry((n - 1) as usize)),
{
    lemma_digits_read_back(n);
}

/// The decimal form of a number reads back, untouched by trimming.
proof fn lemma_digits_read_back(n: usize)
    ensures
        parsed_usize(trimmed(decimal(n as nat))) == Some(n),
{
    let d = decimal(n as nat);
    lemma_parse_decimal(n as nat);
    lemma_decimal_digits(n as nat);
    assert(is_digit(d[0]));
    assert(is_digit(d[d.len() - 1]));
    lemma_digits_untrimmed(d);
}

/// A string of digits is unchanged by trimming.
proof fn lemma_digits_untrimmed(s: Seq<char>)
    requires
        s.len() > 0,
        is_digit(s[0]),
        is_digit(s.last()),
    ensures
        trimmed(s) == s,
{
    assert(!is_white_space(s[0]));
    assert(trim_start(s) == s);
    assert(!is_white_space(s.last()));
}

/// Whether an answer to a yes/no prompt is a yes: the trimmed answer is `y`
/// or `Y`, the strings whose lower case is `y`.
pub open spec fn is_yes(input: Seq<char>) -> bool {
    trimmed(input) == "y"@ || trimmed(input) == "Y"@
}

/// Reads the answer to a yes/no prompt; only `y` (in either case, with
/// surrounding white space ignored) confirms.
pub fn is_confirmation(input: &str) -> (r: bool)
    ensures
        r == is_yes(input@),
{
    let answer = trim(input);
    str_eq(answer, "y") || str_eq(answer, "Y")
}

/// The kinds of status line.
#[derive(Debug, Clone, Copy, PartialEq, Eq, Structural)]
pub enum StatusKind {
    /// Something succeeded.
    Success,
    /// Something failed.
    Error,
    /// Something needs attention.
    Warning,
    /// Anything else worth saying.
    Info,
}

/// The kind that a status name selects; a name other than "success",
/// "error" and "warning" selects `Info`.
pub open spec fn status_kind_for(name: Seq<char>) -> StatusKind {
    if name == "success"@ {
        StatusKind::Success
    } else if name == "error"@ {
        StatusKind::Error
    } else if name == "warning"@ {
        StatusKind::Warning
    } else {
        StatusKind::Info
    }
}

/// The icon printed before a status line.
pub open spec fn status_icon(kind: StatusKind) -> Seq<char> {
    match kind {
        StatusKind::Success => "✓"@,
        StatusKind::Error => "✗"@,
        StatusKind::Warning => "⚠"@,
        StatusKind::Info => "ℹ"@,
    }
}

impl StatusKind {
    /// Reads a status name: "success", "error", "warning", or anything else
    /// for information.
    pub fn from_name(name: &str) -> (r: StatusKind)
        ensures
            r == status_kind_for(name@),
    {
        if str_eq(name, "success") {
            StatusKind::Success
        } else if str_eq(name, "error") {
            StatusKind::Error
        } else if str_eq(name, "warning") {
            StatusKind::Warning
        } else {
            StatusKind::Info
        }
    }

    /// The icon printed before a status line of this kind.
    pub fn icon(&self) -> (r: &'static str)
        ensures
            r@ == status_icon(*self),
    {
        match self {
            StatusKind::Success => "✓",
            StatusKind::Error => "✗",
            StatusKind::Warning => "⚠",
            StatusKind::Info => "ℹ",
        }
    }
}

/// The line that reports how an operation ended.
pub open spec fn completion_text(success: bool, message: Seq<char>) -> Seq<char> {
    (if success { "✓ "@ } else { "✗ "@ }) + message
}

/// Writes the line that reports how an operation ended: a check mark for
/// success, a cross for failure, then the message.
pub fn completion_message(success: bool, message: &str) -> (r: String)
    ensures
        r@ == completion_text(success, message@),
{
    broadcast use vstd::string::group_string_axioms;
    let mut out = if success { "✓ ".to_string() } else { "✗ ".to_string() };
    out.append(message);
    out
}

/// Writes the line that shows an error message.
pub fn error_line(error: &str) -> (r: String)
    ensures
        r@ == "Error: "@ + error@,
{
    broadcast use vstd::string::group_string_axioms;
    let mut out = "Error: ".to_string();
    out.append(error);
    out
}

/// Writes the line that shows a warning.
pub fn warning_line(warning: &str) -> (r: String)
    ensures
        r@ == "⚠ Warning: "@ + warning@,
{
    broadcast use vstd::string::group_string_axioms;
    let mut out = "⚠ Warning: ".to_string();
    out.append(warning);
    out
}

/// Writes the lines of an information box: a header with the title, one line
/// per line of text, and a footer.
pub fn info_box_lines(title: &str, lines: &[&str]) -> (r: Vec<String>)
    ensures
        r@.len() == lines@.len() + 2,
        r@[0]@ == "╔═ "@ + title@ + " ═╗"@,
        forall|i: int| 0 <= i < lines@.len() ==> (#[trigger] r@[i + 1])@ == "║ "@ + lines@[i]@ + " "@,
        r@[lines@.len() as int + 1]@ == "╚═══════╝"@,
{
    broadcast use vstd::string::group_string_axioms;
    let mut out: Vec<String> = Vec::new();
    let mut header = "╔═ ".to_string();
    header.append(title);
    header.append(" ═╗");
    out.push(header);
    let mut i: usize = 0;
    while i < lines.len()
        invariant
            i <= lines@.len(),
            out@.len() == i + 1,
            out@[0]@ == "╔═ "@ + title@ + " ═╗"@,
            forall|k: int| 0 <= k < i ==> (#[trigger] out@[k + 1])@ == "║ "@ + lines@[k]@ + " "@,
        decreases lines@.len() - i,
    {
        let mut line = "║ ".to_string();
        line.append(lines[i]);
        line.append(" ");
        out.push(line);
        i = i + 1;
    }
    out.push("╚═══════╝".to_string());
    out
}

/// What the main menu does with an answer.
#[derive(Debug, Clone, Copy, PartialEq, Eq, Structural)]
pub enum MenuAction {
    /// Say goodbye and leave the program.
    Exit,
    /// The answer was not a selection: show the menu again.
    Redisplay,
    /// Open the menu of advanced commands.
    OpenAdvanced,
    /// Repair the selected issue.
    Repair(SystemIssue),
}

/// What the main menu does with an answer: `0` leaves the program, the
/// entry of the advanced commands opens their menu, any other entry is
/// repaired, and an answer that is no selection shows the menu again.
pub open spec fn main_menu_effect(input: Seq<char>) -> MenuAction {
    match menu_choice(input, menu_issues().len() as usize) {
        Some(Selection::Leave) => MenuAction::Exit,
        Some(Selection::Entry(k)) => if menu_issues()[k as int] == SystemIssue::AdvancedCommands {
            MenuAction::OpenAdvanced
        } else {
            MenuAction::Repair(menu_issues()[k as int])
        },
        None => MenuAction::Redisplay,
    }
}

/// Decides what the main menu does with the user's answer.
pub fn main_menu_action(input: &str) -> (r: MenuAction)
    ensures
        r == main_menu_effect(input@),
{
    let issues = SystemIssue::all();
    match parse_menu_choice(input, issues.len()) {
        Some(Selection::Leave) => MenuAction::Exit,
        Some(Selection::Entry(k)) => {
            proof {
                lemma_choice_in_range(input@, issues.len(), k);
            }
            let issue = issues[k];
            match issue {
                SystemIssue::AdvancedCommands => MenuAction::OpenAdvanced,
                _ => MenuAction::Repair(issue),
            }
        },
        None => MenuAction::Redisplay,
    }
}

/// What the menu of advanced commands does with an answer.
#[derive(Debug, Clone, Copy, PartialEq, Eq, Structural)]
pub enum AdvancedAction {
    /// Go back to the main menu.
    Back,
    /// The answer was not a selection: show the menu again.
    Redisplay,
    /// Run the selected command.
    Run(AdvancedCommand),
}

/// What the menu of advanced commands offered as `commands` does with an
/// answer: `0` goes back, an entry runs its command, and an answer that is
/// no selection shows the menu again.
pub open spec fn advanced_menu_effect(input: Seq<char>, commands: Seq<AdvancedCommand>) -> AdvancedAction {
    match menu_choice(input, commands.len() as usize) {
        Some(Selection::Leave) => AdvancedAction::Back,
        Some(Selection::Entry(k)) => AdvancedAction::Run(commands[k as int]),
        None => AdvancedAction::Redisplay,
    }
}

/// Decides what the menu of advanced commands does with the user's answer.
pub fn advanced_menu_action(input: &str, commands: &Vec<AdvancedCommand>) -> (r: AdvancedAction)
    ensures
        r == advanced_menu_effect(input@, commands@),
{
    match parse_menu_choice(input, commands.len()) {
        Some(Selection::Leave) => AdvancedAction::Back,
        Some(Selection::Entry(k)) => {
            proof {
                lemma_choice_in_range(input@, commands@.len() as usize, k);
            }
            AdvancedAction::Run(commands[k])
        },
        None => AdvancedAction::Redisplay,
    }
}

/// At the main menu, typing `0` exits, and typing the number shown beside an
/// entry repairs that issue, or opens the advanced menu for its entry.
pub proof fn lemma_main_menu_selects_shown_entry(n: usize)
    requires
        n <= menu_issues().len(),
    ensures
        n == 0 ==> main_menu_effect(decimal(n as nat)) == MenuAction::Exit,
        n >= 1 && menu_issues()[n - 1] != SystemIssue::AdvancedCommands
            ==> main_menu_effect(decimal(n as nat)) == MenuAction::Repair(menu_issues()[n - 1]),
        n >= 1 && menu_issues()[n - 1] == SystemIssue::AdvancedCommands
            ==> main_menu_effect(decimal(n as nat)) == MenuAction::OpenAdvanced,
{
    if n == 0 {
        lemma_zero_leaves(menu_issues().len() as usize);
    } else {
        lemma_choice_of_shown_number(n, menu_issues().len() as usize);
    }
}

/// At the advanced menu, typing `0` goes back, and typing the number shown
/// beside a command runs that command.
pub proof fn lemma_advanced_menu_selects_shown_entry(n: usize, commands: Seq<AdvancedCommand>)
    requires
        n <= commands.len() <= usize::MAX,
    ensures
        n == 0 ==> advanced_menu_effect(decimal(n as nat), commands) == AdvancedAction::Back,
        n >= 1 ==> advanced_menu_effect(decimal(n as nat), commands) == AdvancedAction::Run(commands[n - 1]),
{
    if n == 0 {
        lemma_zero_leaves(commands.len() as usize);
    } else {
        lemma_choice_of_shown_number(n, commands.len() as usize);
    }
}

/// The main menu is left only by the answer `0`: an answer that is not a
/// number (the empty answer among them) shows the menu again, and so does a
/// number past the last entry; a number between 1 and the number of entries
/// never leaves it.
pub proof fn lemma_main_menu_leaves_only_on_zero(input: Seq<char>)
    ensures
        main_menu_effect(input) == MenuAction::Exit <==> parsed_usize(trimmed(input)) == Some(0usize),
        parsed_usize(trimmed(input)) is None ==> main_menu_effect(input) == MenuAction::Redisplay,
        ({
            let p = parsed_usize(trimmed(input));
            p is Some && p->0 > menu_issues().len() ==> main_menu_effect(input) == MenuAction::Redisplay
        }),
        ({
            let p = parsed_usize(trimmed(input));
            p is Some && 1 <= p->0 <= menu_issues().len()
                ==> (main_menu_effect(input) == MenuAction::OpenAdvanced
                    || main_menu_effect(input) == MenuAction::Repair(menu_issues()[p->0 - 1]))
        }),
{
}

/// The advanced menu is left only by the answer `0`; an answer that is not a
/// number, or a number past the last command, shows the menu again; a number
/// `n` between 1 and the number of commands runs the `n`-th command.
pub proof fn lemma_advanced_menu_leaves_only_on_zero(input: Seq<char>, commands: Seq<AdvancedCommand>)
    requires
        commands.len() <= usize::MAX,
    ensures
        advanced_menu_effect(input, commands) == AdvancedAction::Back
            <==> parsed_usize(trimmed(input)) == Some(0usize),
        parsed_usize(trimmed(input)) is None ==> advanced_menu_effect(input, commands) == AdvancedAction::Redisplay,
        ({
            let p = parsed_usize(trimmed(input));
            p is Some && p->0 > commands.len() ==> advanced_menu_effect(input, commands) == AdvancedAction::Redisplay
        }),
        ({
            let p = parsed_usize(trimmed(input));
            p is Some && 1 <= p->0 <= commands.len()
                ==> advanced_menu_effect(input, commands) == AdvancedAction::Run(commands[p->0 - 1])
        }),
{
}

/// Only a lone `y` or `Y` (white space around it aside) confirms: a confirming
/// answer trims to a single character that is `y` or `Y`, and every such
/// answer confirms. An answer that begins with `n` or `N` never confirms.
pub proof fn lemma_only_y_confirms(input: Seq<char>)
    ensures
        is_yes(input) ==> trimmed(input).len() == 1
            && (trimmed(input)[0] == 'y' || trimmed(input)[0] == 'Y'),
        (trimmed(input).len() == 1 && (trimmed(input)[0] == 'y' || trimmed(input)[0] == 'Y'))
            ==> is_yes(input),
        (trimmed(input).len() > 0 && (trimmed(input)[0] == 'n' || trimmed(input)[0] == 'N'))
            ==> !is_yes(input),
{
    reveal_strlit("y");
    reveal_strlit("Y");
    if trimmed(input).len() == 1 && trimmed(input)[0] == 'y' {
        assert(trimmed(input) =~= "y"@);
    }
    if trimmed(input).len() == 1 && trimmed(input)[0] == 'Y' {
        assert(trimmed(input) =~= "Y"@);
    }
}

/// Each status name selects its own kind, and any other name selects `Info`.
pub proof fn lemma_status_names(name: Seq<char>)
    ensures
        status_kind_for(name) == StatusKind::Success <==> name == "success"@,
        status_kind_for(name) == StatusKind::Error <==> name == "error"@,
        status_kind_for(name) == StatusKind::Warning <==> name == "warning"@,
        (name != "success"@ && name != "error"@ && name != "warning"@)
            ==> status_kind_for(name) == StatusKind::Info,
{
    reveal_strlit("success");
    reveal_strlit("error");
    reveal_strlit("warning");
    assert("success"@[0] != "error"@[0]);
    assert("success"@[0] != "warning"@[0]);
    assert("error"@[0] != "warning"@[0]);
}

/// A completion line ends with its message, and the lines for success and
/// failure differ: success begins with a check mark, failure with a cross.
pub proof fn lemma_completion_lines(message: Seq<char>)
    ensures
        completion_text(true, message)[0] == '✓',
        completion_text(false, message)[0] == '✗',
        completion_text(true, message) != completion_text(false, message),
        completion_text(true, message).subrange(2, completion_text(true, message).len() as int) == message,
        completion_text(false, message).subrange(2, completion_text(false, message).len() as int) == message,
{
    reveal_strlit("✓ ");
    reveal_strlit("✗ ");
    let a = completion_text(true, message);
    let b = completion_text(false, message);
    assert(a[0] != b[0]);
    assert(a.subrange(2, a.len() as int) =~= message);
    assert(b.subrange(2, b.len() as int) =~= message);
}

} // verus!
