//! The command palette: a fixed table of commands, filtered live by fuzzy
//! matching as the user types, and run on Enter.
use crate::focus::{AppModule, AppPopup, AppState};
use crate::key::Key;
use crate::text_input::TextInput;
use nucleo::pattern::{Atom, AtomKind, CaseMatching, Normalization};
use nucleo::Matcher;
use vstd::prelude::*;

verus! {

pub const COMMAND_INPUT_MAX_LENGTH: usize = 50;

#[derive(Clone, Copy, Debug, PartialEq, Eq, Structural)]
pub enum Command {
    Dashboard,
    Help,
    ProjectManagement,
    Quit,
    NoCommand,
}

/// The pane of the palette that takes navigation keys.
#[derive(Clone, Copy, Debug, PartialEq, Eq, Structural)]
pub enum CommandPane {
    Input,
    Options,
}

pub open spec fn text_of(c: Command) -> Seq<char> {
    match c {
        Command::Dashboard => "dashboard"@,
        Command::Help => "help"@,
        Command::ProjectManagement => "project management"@,
        Command::Quit => "quit"@,
        Command::NoCommand => ""@,
    }
}

/// The commands, in the order the palette lists them.
pub open spec fn command_table() -> Seq<Command> {
    seq![Command::Dashboard, Command::Help, Command::ProjectManagement, Command::Quit]
}

pub open spec fn command_texts() -> Seq<Seq<char>> {
    command_table().map_values(|c: Command| text_of(c))
}

pub open spec fn strings_view(s: Seq<String>) -> Seq<Seq<char>> {
    s.map_values(|x: String| x@)
}

/// How the fuzzy matcher ranks `items` against `query`: those that match,
/// best first.
pub uninterp spec fn fuzzy_ranked(query: Seq<char>, items: Seq<Seq<char>>) -> Seq<Seq<char>>;

/// Relies on nucleo's `Atom::match_list` with a fuzzy atom, smart case and
/// smart normalization: it keeps the items that match and sorts them by
/// score, best first, so each one it returns is one of the items.
#[verifier::external_body]
fn fuzzy_match(query: &str, items: &Vec<String>) -> (r: Vec<String>)
    ensures
        strings_view(r@) == fuzzy_ranked(query@, strings_view(items@)),
        r@.len() <= items@.len(),
        forall|i: int| 0 <= i < r@.len() ==> strings_view(items@).contains(#[trigger] r@[i]@),
        strings_view(items@).no_duplicates() ==> strings_view(r@).no_duplicates(),
{
    let atom = Atom::new(query, CaseMatching::Smart, Normalization::Smart, AtomKind::Fuzzy, false);
    let mut matcher = Matcher::default();
    atom.match_list(items.iter(), &mut matcher).into_iter().map(|(s, _)| s.clone()).collect()
}

fn command_text(c: Command) -> (r: &'static str)
    ensures
        r@ == text_of(c),
{
    match c {
        Command::Dashboard => "dashboard",
        Command::Help => "help",
        Command::ProjectManagement => "project management",
        Command::Quit => "quit",
        Command::NoCommand => "",
    }
}

/// The command table with the text of each command.
pub fn command_data() -> (r: Vec<(Command, &'static str)>)
    ensures
        r@.len() == command_table().len(),
        forall|i: int| 0 <= i < r@.len() ==> (#[trigger] r@[i]).0 == command_table()[i] && r@[i].1@ == text_of(command_table()[i]),
{
    let cmds = [Command::Dashboard, Command::Help, Command::ProjectManagement, Command::Quit];
    let mut list: Vec<(Command, &'static str)> = Vec::new();
    let mut i: usize = 0;
    while i < 4
        invariant
            i <= 4,
            cmds@ == command_table(),
            list@.len() == i,
            forall|j: int| 0 <= j < i ==> (#[trigger] list@[j]).0 == command_table()[j] && list@[j].1@ == text_of(command_table()[j]),
        decreases 4 - i,
    {
        let c = cmds[i];
        list.push((c, command_text(c)));
        i += 1;
    }
    list
}

/// The texts of the commands, in table order.
pub fn command_strings() -> (r: Vec<String>)
    ensures
        strings_view(r@) == command_texts(),
{
    let data = command_data();
    let mut out: Vec<String> = Vec::new();
    let mut i: usize = 0;
    while i < data.len()
        invariant
            data@.len() == command_table().len(),
            forall|j: int| 0 <= j < data@.len() ==> (#[trigger] data@[j]).0 == command_table()[j] && data@[j].1@ == text_of(command_table()[j]),
            i <= data@.len(),
            out@.len() == i,
            forall|j: int| 0 <= j < i ==> (#[trigger] out@[j])@ == text_of(command_table()[j]),
        decreases data@.len() - i,
    {
        out.push(data[i].1.to_owned());
        i += 1;
    }
    assert(strings_view(out@) =~= command_texts());
    out
}

proof fn lemma_command_texts_distinct()
    ensures
        command_texts().no_duplicates(),
        command_texts().len() == 4,
{
    reveal_strlit("dashboard");
    reveal_strlit("help");
    reveal_strlit("project management");
    reveal_strlit("quit");
    let t = command_texts();
    assert(t[0] == "dashboard"@ && t[1] == "help"@ && t[2] == "project management"@ && t[3] == "quit"@);
    assert(t[0][0] != t[1][0] && t[0][0] != t[2][0] && t[0][0] != t[3][0]);
    assert(t[1][0] != t[2][0] && t[1][0] != t[3][0] && t[2][0] != t[3][0]);
}

/// The length in characters of the longest command text.
pub open spec fn longest_command() -> nat {
    max_len(command_texts())
}

/// The greatest length among the texts, 0 for none.
pub open spec fn max_len(s: Seq<Seq<char>>) -> nat
    decreases s.len(),
{
    if s.len() == 0 {
        0
    } else {
        let m = max_len(s.drop_last());
        if s.last().len() > m {
            s.last().len()
        } else {
            m
        }
    }
}

/// What the palette lists for this input, given how the matcher ranked the
/// command texts against it: nothing for an input longer than every
/// command, the whole table for an empty one, else the matcher's ranking.
pub open spec fn options_spec(input: Seq<char>, ranked: Seq<Seq<char>>) -> Seq<Seq<char>> {
    if input.len() > longest_command() {
        Seq::empty()
    } else if input.len() == 0 {
        command_texts()
    } else {
        ranked
    }
}

fn longest_command_len() -> (r: usize)
    ensures
        r == longest_command(),
{
    let data = command_data();
    let ghost texts = command_texts();
    let mut best: usize = 0;
    let mut i: usize = 0;
    while i < data.len()
        invariant
            data@.len() == command_table().len(),
            texts == command_texts(),
            forall|j: int| 0 <= j < data@.len() ==> (#[trigger] data@[j]).0 == command_table()[j] && data@[j].1@ == text_of(command_table()[j]),
            i <= data@.len(),
            best == max_len(texts.subrange(0, i as int)),
        decreases data@.len() - i,
    {
        proof {
            assert(texts.subrange(0, i + 1).drop_last() =~= texts.subrange(0, i as int));
            assert(texts[i as int] == data@[i as int].1@);
        }
        let n = data[i].1.unicode_len();
        if n > best {
            best = n;
        }
        i += 1;
    }
    proof {
        assert(texts.subrange(0, i as int) =~= texts);
    }
    best
}

/// The options listed for `input`, with `ranked` the matcher's ranking of
/// the command texts against it.
pub fn options_for(input: &str, ranked: Vec<String>) -> (r: Vec<String>)
    ensures
        strings_view(r@) == options_spec(input@, strings_view(ranked@)),
{
    let n = input.unicode_len();
    if n > longest_command_len() {
        Vec::new()
    } else if n == 0 {
        command_strings()
    } else {
        ranked
    }
}

/// Whether `needle` occurs in `hay` as a run of characters.
pub open spec fn contains_text(hay: Seq<char>, needle: Seq<char>) -> bool {
    exists|i: int| 0 <= i <= hay.len() - needle.len() && #[trigger] hay.subrange(i, i + needle.len()) == needle
}

fn matches_at(hay: &str, needle: &str, i: usize) -> (r: bool)
    requires
        i + needle@.len() <= hay@.len(),
        hay@.len() <= usize::MAX,
    ensures
        r == (hay@.subrange(i as int, i + needle@.len()) == needle@),
{
    let m = needle.unicode_len();
    let mut j: usize = 0;
    while j < m
        invariant
            m == needle@.len(),
            i + m <= hay@.len(),
            hay@.len() <= usize::MAX,
            j <= m,
            forall|k: int| 0 <= k < j ==> hay@[i + k] == needle@[k],
        decreases m - j,
    {
        if hay.get_char(i + j) != needle.get_char(j) {
            assert(hay@.subrange(i as int, i + m)[j as int] != needle@[j as int]);
            return false;
        }
        j += 1;
    }
    assert(hay@.subrange(i as int, i + m) =~= needle@);
    true
}

fn contains(hay: &str, needle: &str) -> (r: bool)
    ensures
        r == contains_text(hay@, needle@),
{
    let n = hay.unicode_len();
    let m = needle.unicode_len();
    if m > n {
        return false;
    }
    let last = n - m;
    let mut i: usize = 0;
    loop
        invariant
            n == hay@.len(),
            m == needle@.len(),
            m <= n,
            last == n - m,
            i <= last,
            forall|k: int| 0 <= k < i ==> #[trigger] hay@.subrange(k, k + m) != needle@,
        decreases last - i,
    {
        if matches_at(hay, needle, i) {
            return true;
        }
        if i == last {
            return false;
        }
        i += 1;
    }
}

/// The first command whose text contains `option`.
pub open spec fn command_for(option: Seq<char>) -> Command {
    if contains_text(text_of(Command::Dashboard), option) {
        Command::Dashboard
    } else if contains_text(text_of(Command::Help), option) {
        Command::Help
    } else if contains_text(text_of(Command::ProjectManagement), option) {
        Command::ProjectManagement
    } else if contains_text(text_of(Command::Quit), option) {
        Command::Quit
    } else {
        Command::NoCommand
    }
}

pub struct CommandHandler {
    pub command: TextInput,
    pub focused_pane: CommandPane,
    pub command_options: Vec<String>,
    pub selected_option: usize,
}

impl CommandHandler {
    pub open spec fn wf(&self) -> bool {
        &&& self.command.wf()
        &&& self.command.max == COMMAND_INPUT_MAX_LENGTH
        &&& (self.command_options@.len() > 0 ==> self.selected_option < self.command_options@.len())
    }

    pub fn init() -> (r: CommandHandler)
        ensures
            r.wf(),
            r.command.input@.len() == 0,
            r.focused_pane == CommandPane::Input,
            strings_view(r.command_options@) == command_texts(),
            r.selected_option == 0,
    {
        CommandHandler {
            command: TextInput::new(COMMAND_INPUT_MAX_LENGTH),
            focused_pane: CommandPane::Input,
            command_options: command_strings(),
            selected_option: 0,
        }
    }

    /// Lists the options for the current input and selects the first.
    pub fn update_options(&mut self)
        requires
            old(self).wf(),
        ensures
            final(self).wf(),
            final(self).command == old(self).command,
            final(self).focused_pane == old(self).focused_pane,
            final(self).selected_option == 0,
            strings_view(final(self).command_options@).no_duplicates(),
            forall|i: int|
                0 <= i < final(self).command_options@.len() ==> command_texts().contains(
                    #[trigger] final(self).command_options@[i]@,
                ),
            old(self).command.input@.len() == 0 ==> strings_view(final(self).command_options@) == command_texts(),
            old(self).command.input@.len() > longest_command() ==> final(self).command_options@.len() == 0,
            0 < old(self).command.input@.len() <= longest_command() ==> strings_view(final(self).command_options@)
                == fuzzy_ranked(old(self).command.input@, command_texts()),
    {
        let input = self.command.input_string();
        let n = input.as_str().unicode_len();
        let ranked = if n > 0 && n <= longest_command_len() {
            fuzzy_match(input.as_str(), &command_strings())
        } else {
            Vec::new()
        };
        proof {
            lemma_command_texts_distinct();
        }
        self.command_options = options_for(input.as_str(), ranked);
        self.selected_option = 0;
        assert(strings_view(self.command_options@).len() == self.command_options@.len());
        assert forall|i: int| 0 <= i < self.command_options@.len() implies command_texts().contains(
            #[trigger] self.command_options@[i]@,
        ) by {
            assert(strings_view(self.command_options@)[i] == self.command_options@[i]@);
            if n == 0 {
                assert(command_texts()[i] == self.command_options@[i]@);
            }
        }
    }

    /// Clears the input, lists every command and gives the input the focus.
    pub fn reset(&mut self)
        requires
            old(self).wf(),
        ensures
            final(self).wf(),
            final(self).command.input@.len() == 0,
            strings_view(final(self).command_options@) == command_texts(),
            final(self).selected_option == 0,
            final(self).focused_pane == CommandPane::Input,
    {
        self.command.reset();
        self.update_options();
        self.focused_pane = CommandPane::Input;
    }

    /// The selected command: the first in the table whose text contains the
    /// selected option.
    pub fn parse_command(&self) -> (r: Command)
        requires
            self.wf(),
        ensures
            self.command_options@.len() == 0 ==> r == Command::NoCommand,
            self.command_options@.len() > 0 ==> r == command_for(self.command_options@[self.selected_option as int]@),
    {
        if self.command_options.len() == 0 {
            return Command::NoCommand;
        }
        let option = self.command_options[self.selected_option].as_str();
        if contains("dashboard", option) {
            Command::Dashboard
        } else if contains("help", option) {
            Command::Help
        } else if contains("project management", option) {
            Command::ProjectManagement
        } else if contains("quit", option) {
            Command::Quit
        } else {
            Command::NoCommand
        }
    }

    /// Runs the selected command, then resets the palette if there was one.
    pub fn execute_command(&mut self, app: &mut AppState)
        requires
            old(self).wf(),
        ensures
            final(self).wf(),
            ({
                let c = if old(self).command_options@.len() == 0 {
                    Command::NoCommand
                } else {
                    command_for(old(self).command_options@[old(self).selected_option as int]@)
                };
                &&& c == Command::Dashboard ==> final(app).module == AppModule::Dashboard && final(app).display
                    == crate::focus::base_display()
                &&& c == Command::ProjectManagement ==> final(app).module == AppModule::ProjectManagement
                    && final(app).display == crate::focus::base_display()
                &&& c == Command::Help ==> final(app).popup == AppPopup::Help && final(app).display
                    == crate::focus::popup_display_of(crate::focus::PopupKind::Viewer)
                &&& c == Command::Quit ==> !final(app).running
                &&& c != Command::NoCommand ==> final(self).command.input@.len() == 0
                    && final(self).focused_pane == CommandPane::Input && strings_view(
                    final(self).command_options@,
                ) == command_texts() && final(self).selected_option == 0
                &&& c == Command::NoCommand ==> *final(app) == *old(app) && *final(self) == *old(self)
            }),
    {
        let command = self.parse_command();
        match command {
            Command::Dashboard => {
                app.reset_display();
                app.module = AppModule::Dashboard;
            },
            Command::Help => {
                app.popup_display();
                app.popup = AppPopup::Help;
            },
            Command::ProjectManagement => {
                app.reset_display();
                app.module = AppModule::ProjectManagement;
            },
            Command::Quit => app.exit(),
            Command::NoCommand => {},
        }
        if command != Command::NoCommand {
            self.reset();
        }
    }

    /// Typing goes to the input while it has the focus and refilters the
    /// options; Enter runs the selected command; `q` closes the palette;
    /// `j` and `k` move between the input and the options.
    pub fn key_event_handler(&mut self, app: &mut AppState, key: Key)
        requires
            old(self).wf(),
        ensures
            final(self).wf(),
            old(app).display.mode == crate::focus::Mode::Navigation ==> {
                &&& key == Key::Char('j') && old(self).focused_pane == CommandPane::Input
                    ==> final(self).focused_pane == CommandPane::Options
                &&& key == Key::Char('k') && old(self).focused_pane == CommandPane::Options
                    ==> final(self).focused_pane == CommandPane::Input
                &&& key == Key::Char('q') ==> final(app).display == crate::focus::base_display()
                    && final(self).command.input@.len() == 0 && final(self).focused_pane
                    == CommandPane::Input
            },
            old(app).display.mode == crate::focus::Mode::Insert && key == Key::Esc ==> if old(self).focused_pane
                == CommandPane::Input {
                final(app).display.mode == crate::focus::Mode::Navigation
            } else {
                final(app).display.view == crate::focus::Screen::Command
            },
    {
        if self.focused_pane == CommandPane::Input {
            self.command.key_event_handler(app, key);
            self.update_options();
        }
        if app.is_normal_mode() {
            match key {
                Key::Enter => self.execute_command(app),
                Key::Char('q') => {
                    app.reset_display();
                    self.reset();
                },
                Key::Char('j') => {
                    if self.focused_pane == CommandPane::Input {
                        self.focused_pane = CommandPane::Options;
                    }
                },
                Key::Char('k') => {
                    if self.focused_pane == CommandPane::Options {
                        self.focused_pane = CommandPane::Input;
                    }
                },
                _ => {},
            }
        } else if app.is_insert_mode() {
            match key {
                Key::Enter => self.execute_command(app),
                Key::Esc => app.command_display(),
                _ => {},
            }
        }
    }
}

} // verus!
