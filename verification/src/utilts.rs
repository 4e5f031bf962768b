//! The browser's command language: what a line typed at the prompt asks for.

use vstd::prelude::*;

use crate::text::{
    all_ascii, ascii_lowercase, lemma_trim_idempotent, lemma_trim_keeps_ascii, lowercase, str_eq, to_lowercase, trim, trim_spec,
};

verus! {

/// A command of the browser.
pub enum Command {
    /// `go <url>`: navigate to a URL.
    Go(String),
    /// `search <query>`: search the web.
    Search(String),
    Back,
    Forward,
    Refresh,
    Links,
    History,
    Bookmarks,
    /// `bookmark <name>`: bookmark the current page.
    Bookmark(String),
    /// `delbookmark <#>`: delete a bookmark by number.
    DelBookmark(String),
    /// `click <#>`: follow a numbered link of the page.
    Click(String),
    Headings,
    Text,
    Source,
    /// `save <file>`: save the page content to a file.
    Save(String),
    Url,
    Home,
    Clear,
    Help,
    Quit,
    /// Anything not understood, with a message for the user.
    Unknown(String),
}

/// The contents of a [`Command`] as plain values.
pub enum CommandView {
    Go(Seq<char>),
    Search(Seq<char>),
    Back,
    Forward,
    Refresh,
    Links,
    History,
    Bookmarks,
    Bookmark(Seq<char>),
    DelBookmark(Seq<char>),
    Click(Seq<char>),
    Headings,
    Text,
    Source,
    Save(Seq<char>),
    Url,
    Home,
    Clear,
    Help,
    Quit,
    Unknown(Seq<char>),
}

impl View for Command {
    type V = CommandView;

    open spec fn view(&self) -> CommandView {
        match self {
            Command::Go(s) => CommandView::Go(s@),
            Command::Search(s) => CommandView::Search(s@),
            Command::Back => CommandView::Back,
            Command::Forward => CommandView::Forward,
            Command::Refresh => CommandView::Refresh,
            Command::Links => CommandView::Links,
            Command::History => CommandView::History,
            Command::Bookmarks => CommandView::Bookmarks,
            Command::Bookmark(s) => CommandView::Bookmark(s@),
            Command::DelBookmark(s) => CommandView::DelBookmark(s@),
            Command::Click(s) => CommandView::Click(s@),
            Command::Headings => CommandView::Headings,
            Command::Text => CommandView::Text,
            Command::Source => CommandView::Source,
            Command::Save(s) => CommandView::Save(s@),
            Command::Url => CommandView::Url,
            Command::Home => CommandView::Home,
            Command::Clear => CommandView::Clear,
            Command::Help => CommandView::Help,
            Command::Quit => CommandView::Quit,
            Command::Unknown(s) => CommandView::Unknown(s@),
        }
    }
}

/// The position of the first `c` in `s`, if there is one.
pub open spec fn find_char(s: Seq<char>, c: char) -> Option<int>
    decreases s.len(),
{
    if s.len() == 0 {
        None
    } else if s[0] == c {
        Some(0)
    } else {
        match find_char(s.drop_first(), c) {
            Some(i) => Some(i + 1),
            None => None,
        }
    }
}

proof fn lemma_find_char(s: Seq<char>, c: char, i: int)
    requires
        0 <= i <= s.len(),
        forall|k: int| 0 <= k < i ==> #[trigger] s[k] != c,
        i < s.len() ==> s[i] == c,
    ensures
        find_char(s, c) == (if i < s.len() { Some(i) } else { None::<int> }),
    decreases i,
{
    if i > 0 {
        lemma_find_char(s.drop_first(), c, i - 1);
    }
}

proof fn lemma_find_char_bound(s: Seq<char>, c: char)
    ensures
        find_char(s, c) matches Some(i) ==> 0 <= i < s.len(),
    decreases s.len(),
{
    if s.len() > 0 {
        lemma_find_char_bound(s.drop_first(), c);
    }
}

/// The first word of a command line: everything before its first space.
pub open spec fn command_word(t: Seq<char>) -> Seq<char> {
    match find_char(t, ' ') {
        Some(i) => t.take(i),
        None => t,
    }
}

/// The argument of a command line: everything after its first space, trimmed.
pub open spec fn command_arg(t: Seq<char>) -> Seq<char> {
    match find_char(t, ' ') {
        Some(i) => trim_spec(t.skip(i + 1)),
        None => Seq::empty(),
    }
}

/// The command that the line `input` asks for.
pub open spec fn command_of(input: Seq<char>) -> CommandView {
    command_for(trim_spec(input), lowercase(command_word(trim_spec(input))))
}

/// The command that the line `input` asks for when it is ASCII text, where
/// lower-casing only turns `A`–`Z` into `a`–`z`.
pub open spec fn ascii_command_of(input: Seq<char>) -> CommandView {
    command_for(trim_spec(input), ascii_lowercase(command_word(trim_spec(input))))
}

/// The command for the trimmed line `t` whose first word, lower-cased, is `cmd`.
pub open spec fn command_for(t: Seq<char>, cmd: Seq<char>) -> CommandView {
    let arg = command_arg(t);
    if cmd == "go"@ || cmd == "g"@ || cmd == "open"@ || cmd == "navigate"@ {
        if arg.len() == 0 {
            CommandView::Unknown("Usage: go <url>"@)
        } else {
            CommandView::Go(arg)
        }
    } else if cmd == "search"@ || cmd == "s"@ || cmd == "find"@ {
        if arg.len() == 0 {
            CommandView::Unknown("Usage: search <query>"@)
        } else {
            CommandView::Search(arg)
        }
    } else if cmd == "click"@ || cmd == "c"@ {
        if arg.len() == 0 {
            CommandView::Unknown("Usage: click <#>"@)
        } else {
            CommandView::Click(arg)
        }
    } else if cmd == "back"@ || cmd == "b"@ {
        CommandView::Back
    } else if cmd == "forward"@ || cmd == "f"@ {
        CommandView::Forward
    } else if cmd == "refresh"@ || cmd == "r"@ {
        CommandView::Refresh
    } else if cmd == "links"@ || cmd == "l"@ {
        CommandView::Links
    } else if cmd == "headings"@ || cmd == "hd"@ {
        CommandView::Headings
    } else if cmd == "text"@ || cmd == "t"@ {
        CommandView::Text
    } else if cmd == "history"@ || cmd == "h"@ {
        CommandView::History
    } else if cmd == "bookmarks"@ || cmd == "bm"@ {
        CommandView::Bookmarks
    } else if cmd == "bookmark"@ {
        if arg.len() == 0 {
            CommandView::Bookmark("Untitled"@)
        } else {
            CommandView::Bookmark(arg)
        }
    } else if cmd == "delbookmark"@ || cmd == "dbm"@ {
        if arg.len() == 0 {
            CommandView::Unknown("Usage: delbookmark <#>"@)
        } else {
            CommandView::DelBookmark(arg)
        }
    } else if cmd == "source"@ || cmd == "src"@ {
        CommandView::Source
    } else if cmd == "save"@ {
        if arg.len() == 0 {
            CommandView::Unknown("Usage: save <file>"@)
        } else {
            CommandView::Save(arg)
        }
    } else if cmd == "url"@ {
        CommandView::Url
    } else if cmd == "home"@ {
        CommandView::Home
    } else if cmd == "clear"@ || cmd == "cls"@ {
        CommandView::Clear
    } else if cmd == "help"@ || cmd == "?"@ {
        CommandView::Help
    } else if cmd == "quit"@ || cmd == "exit"@ || cmd == "q"@ {
        CommandView::Quit
    } else {
        CommandView::Unknown(t)
    }
}

/// Splits a trimmed command line at its first space.
fn split_command(t: &str) -> (r: (&str, &str))
    ensures
        r.0@ == command_word(t@),
        r.1@ == command_arg(t@),
{
    let n = t.unicode_len();
    let mut i: usize = 0;
    while i < n && t.get_char(i) != ' '
        invariant
            n == t@.len(),
            i <= n,
            forall|k: int| 0 <= k < i ==> #[trigger] t@[k] != ' ',
        decreases n - i,
    {
        i = i + 1;
    }
    proof {
        lemma_find_char(t@, ' ', i as int);
    }
    if i < n {
        let word = t.substring_char(0, i);
        let rest = t.substring_char(i + 1, n);
        assert(rest@ == t@.skip(i + 1));
        (word, trim(rest))
    } else {
        assert(t@.subrange(0, n as int) == t@);
        (t, t.substring_char(n, n))
    }
}

/// Reads what the user typed as a command.
pub fn parse_command(input: &str) -> (r: Command)
    ensures
        r@ == command_of(input@),
        all_ascii(input@) ==> r@ == ascii_command_of(input@),
{
    let trimmed = trim(input);
    let (word, arg) = split_command(trimmed);
    proof {
        let t = trim_spec(input@);
        if all_ascii(input@) {
            assert(all_ascii(t)) by {
                lemma_trim_keeps_ascii(input@);
            }
            match find_char(t, ' ') {
                Some(i) => {
                    lemma_find_char_bound(t, ' ');
                    assert(word@ == t.take(i));
                    assert forall|k: int| 0 <= k < word@.len() implies #[trigger] word@[k] <= '\u{7f}' by {
                        assert(word@[k] == t[k]);
                    }
                },
                None => {},
            }
        }
    }
    let cmd = to_lowercase(word);
    let c = cmd.as_str();
    if str_eq(c, "go") || str_eq(c, "g") || str_eq(c, "open") || str_eq(c, "navigate") {
        if arg.unicode_len() == 0 {
            Command::Unknown(String::from_str("Usage: go <url>"))
        } else {
            Command::Go(arg.to_owned())
        }
    } else if str_eq(c, "search") || str_eq(c, "s") || str_eq(c, "find") {
        if arg.unicode_len() == 0 {
            Command::Unknown(String::from_str("Usage: search <query>"))
        } else {
            Command::Search(arg.to_owned())
        }
    } else if str_eq(c, "click") || str_eq(c, "c") {
        if arg.unicode_len() == 0 {
            Command::Unknown(String::from_str("Usage: click <#>"))
        } else {
            Command::Click(arg.to_owned())
        }
    } else if str_eq(c, "back") || str_eq(c, "b") {
        Command::Back
    } else if str_eq(c, "forward") || str_eq(c, "f") {
        Command::Forward
    } else if str_eq(c, "refresh") || str_eq(c, "r") {
        Command::Refresh
    } else if str_eq(c, "links") || str_eq(c, "l") {
        Command::Links
    } else if str_eq(c, "headings") || str_eq(c, "hd") {
        Command::Headings
    } else if str_eq(c, "text") || str_eq(c, "t") {
        Command::Text
    } else if str_eq(c, "history") || str_eq(c, "h") {
        Command::History
    } else if str_eq(c, "bookmarks") || str_eq(c, "bm") {
        Command::Bookmarks
    } else if str_eq(c, "bookmark") {
        if arg.unicode_len() == 0 {
            Command::Bookmark(String::from_str("Untitled"))
        } else {
            Command::Bookmark(arg.to_owned())
        }
    } else if str_eq(c, "delbookmark") || str_eq(c, "dbm") {
        if arg.unicode_len() == 0 {
            Command::Unknown(String::from_str("Usage: delbookmark <#>"))
        } else {
            Command::DelBookmark(arg.to_owned())
        }
    } else if str_eq(c, "source") || str_eq(c, "src") {
        Command::Source
    } else if str_eq(c, "save") {
        if arg.unicode_len() == 0 {
            Command::Unknown(String::from_str("Usage: save <file>"))
        } else {
            Command::Save(arg.to_owned())
        }
    } else if str_eq(c, "url") {
        Command::Url
    } else if str_eq(c, "home") {
        Command::Home
    } else if str_eq(c, "clear") || str_eq(c, "cls") {
        Command::Clear
    } else if str_eq(c, "help") || str_eq(c, "?") {
        Command::Help
    } else if str_eq(c, "quit") || str_eq(c, "exit") || str_eq(c, "q") {
        Command::Quit
    } else {
        Command::Unknown(trimmed.to_owned())
    }
}


/// White space around a command line does not change the command.
pub proof fn lemma_command_ignores_outer_space(input: Seq<char>)
    ensures
        command_of(trim_spec(input)) == command_of(input),
{
    lemma_trim_idempotent(input);
}

/// The argument that a command carries is never empty and has no white space at
/// either end.
pub proof fn lemma_command_argument_trimmed(input: Seq<char>)
    ensures
        match command_of(input) {
            CommandView::Go(a) | CommandView::Search(a) | CommandView::Click(a)
            | CommandView::DelBookmark(a) | CommandView::Save(a) | CommandView::Bookmark(a) => {
                a.len() > 0 && trim_spec(a) == a
            },
            _ => true,
        },
{
    let t = trim_spec(input);
    match find_char(t, ' ') {
        Some(i) => lemma_trim_idempotent(t.skip(i + 1)),
        None => {},
    }
    reveal_strlit("Untitled");
}

proof fn lemma_find_char_found(s: Seq<char>, c: char)
    ensures
        find_char(s, c) matches Some(i) ==> 0 <= i < s.len() && s[i] == c,
    decreases s.len(),
{
    if s.len() > 0 {
        lemma_find_char_found(s.drop_first(), c);
    }
}

/// A line that is one word (with no space in it) once trimmed and lower-cased: the
/// command is that of the word, and there is no argument.
proof fn lemma_single_word(input: Seq<char>, word: Seq<char>)
    requires
        ascii_lowercase(trim_spec(input)) == word,
        forall|k: int| 0 <= k < word.len() ==> #[trigger] word[k] != ' ',
    ensures
        ascii_command_of(input) == command_for(trim_spec(input), word),
        command_arg(trim_spec(input)).len() == 0,
{
    let t = trim_spec(input);
    lemma_find_char_found(t, ' ');
    if let Some(i) = find_char(t, ' ') {
        assert(ascii_lowercase(t)[i] == ' ');
        assert(word[i] == ' ');
    }
}

/// The command for the word `go`.
proof fn lemma_word_0(t: Seq<char>)
    ensures
        command_for(t, "go"@) == (if command_arg(t).len() == 0 { CommandView::Unknown("Usage: go <url>"@) } else { CommandView::Go(command_arg(t)) }),
{
    reveal_strlit("go");
}
/// The command for the word `g`.
proof fn lemma_word_1(t: Seq<char>)
    ensures
        command_for(t, "g"@) == (if command_arg(t).len() == 0 { CommandView::Unknown("Usage: go <url>"@) } else { CommandView::Go(command_arg(t)) }),
{
    reveal_strlit("go");
    reveal_strlit("g");
    assert("g"@.len() != "go"@.len());
    assert("g"@ != "go"@);
}
/// The command for the word `open`.
proof fn lemma_word_2(t: Seq<char>)
    ensures
        command_for(t, "open"@) == (if command_arg(t).len() == 0 { CommandView::Unknown("Usage: go <url>"@) } else { CommandView::Go(command_arg(t)) }),
{
    reveal_strlit("go");
    reveal_strlit("g");
    reveal_strlit("open");
    assert("open"@.len() != "go"@.len());
    assert("open"@ != "go"@);
    assert("open"@.len() != "g"@.len());
    assert("open"@ != "g"@);
}
/// The command for the word `navigate`.
proof fn lemma_word_3(t: Seq<char>)
    ensures
        command_for(t, "navigate"@) == (if command_arg(t).len() == 0 { CommandView::Unknown("Usage: go <url>"@) } else { CommandView::Go(command_arg(t)) }),
{
    reveal_strlit("go");
    reveal_strlit("g");
    reveal_strlit("open");
    reveal_strlit("navigate");
    assert("navigate"@.len() != "go"@.len());
    assert("navigate"@ != "go"@);
    assert("navigate"@.len() != "g"@.len());
    assert("navigate"@ != "g"@);
    assert("navigate"@.len() != "open"@.len());
    assert("navigate"@ != "open"@);
}
/// The command for the word `search`.
proof fn lemma_word_4(t: Seq<char>)
    ensures
        command_for(t, "search"@) == (if command_arg(t).len() == 0 { CommandView::Unknown("Usage: search <query>"@) } else { CommandView::Search(command_arg(t)) }),
{
    reveal_strlit("go");
    reveal_strlit("g");
    reveal_strlit("open");
    reveal_strlit("navigate");
    reveal_strlit("search");
    assert("search"@.len() != "go"@.len());
    assert("search"@ != "go"@);
    assert("search"@.len() != "g"@.len());
    assert("search"@ != "g"@);
    assert("search"@.len() != "open"@.len());
    assert("search"@ != "open"@);
    assert("search"@.len() != "navigate"@.len());
    assert("search"@ != "navigate"@);
}
/// The command for the word `s`.
proof fn lemma_word_5(t: Seq<char>)
    ensures
        command_for(t, "s"@) == (if command_arg(t).len() == 0 { CommandView::Unknown("Usage: search <query>"@) } else { CommandView::Search(command_arg(t)) }),
{
    reveal_strlit("go");
    reveal_strlit("g");
    reveal_strlit("open");
    reveal_strlit("navigate");
    reveal_strlit("search");
    reveal_strlit("s");
    assert("s"@.len() != "go"@.len());
    assert("s"@ != "go"@);
    assert("s"@[0] != "g"@[0]);
    assert("s"@ != "g"@);
    assert("s"@.len() != "open"@.len());
    assert("s"@ != "open"@);
    assert("s"@.len() != "navigate"@.len());
    assert("s"@ != "navigate"@);
    assert("s"@.len() != "search"@.len());
    assert("s"@ != "search"@);
}
/// The command for the word `find`.
proof fn lemma_word_6(t: Seq<char>)
    ensures
        command_for(t, "find"@) == (if command_arg(t).len() == 0 { CommandView::Unknown("Usage: search <query>"@) } else { CommandView::Search(command_arg(t)) }),
{
    reveal_strlit("go");
    reveal_strlit("g");
    reveal_strlit("open");
    reveal_strlit("navigate");
    reveal_strlit("search");
    reveal_strlit("s");
    reveal_strlit("find");
    assert("find"@.len() != "go"@.len());
    assert("find"@ != "go"@);
    assert("find"@.len() != "g"@.len());
    assert("find"@ != "g"@);
    assert("find"@[0] != "open"@[0]);
    assert("find"@ != "open"@);
    assert("find"@.len() != "navigate"@.len());
    assert("find"@ != "navigate"@);
    assert("find"@.len() != "search"@.len());
    assert("find"@ != "search"@);
    assert("find"@.len() != "s"@.len());
    assert("find"@ != "s"@);
}
/// The command for the word `click`.
proof fn lemma_word_7(t: Seq<char>)
    ensures
        command_for(t, "click"@) == (if command_arg(t).len() == 0 { CommandView::Unknown("Usage: click <#>"@) } else { CommandView::Click(command_arg(t)) }),
{
    reveal_strlit("go");
    reveal_strlit("g");
    reveal_strlit("open");
    reveal_strlit("navigate");
    reveal_strlit("search");
    reveal_strlit("s");
    reveal_strlit("find");
    reveal_strlit("click");
    assert("click"@.len() != "go"@.len());
    assert("click"@ != "go"@);
    assert("click"@.len() != "g"@.len());
    assert("click"@ != "g"@);
    assert("click"@.len() != "open"@.len());
    assert("click"@ != "open"@);
    assert("click"@.len() != "navigate"@.len());
    assert("click"@ != "navigate"@);
    assert("click"@.len() != "search"@.len());
    assert("click"@ != "search"@);
    assert("click"@.len() != "s"@.len());
    assert("click"@ != "s"@);
    assert("click"@.len() != "find"@.len());
    assert("click"@ != "find"@);
}
/// The command for the word `c`.
proof fn lemma_word_8(t: Seq<char>)
    ensures
        command_for(t, "c"@) == (if command_arg(t).len() == 0 { CommandView::Unknown("Usage: click <#>"@) } else { CommandView::Click(command_arg(t)) }),
{
    reveal_strlit("go");
    reveal_strlit("g");
    reveal_strlit("open");
    reveal_strlit("navigate");
    reveal_strlit("search");
    reveal_strlit("s");
    reveal_strlit("find");
    reveal_strlit("click");
    reveal_strlit("c");
    assert("c"@.len() != "go"@.len());
    assert("c"@ != "go"@);
    assert("c"@[0] != "g"@[0]);
    assert("c"@ != "g"@);
    assert("c"@.len() != "open"@.len());
    assert("c"@ != "open"@);
    assert("c"@.len() != "navigate"@.len());
    assert("c"@ != "navigate"@);
    assert("c"@.len() != "search"@.len());
    assert("c"@ != "search"@);
    assert("c"@[0] != "s"@[0]);
    assert("c"@ != "s"@);
    assert("c"@.len() != "find"@.len());
    assert("c"@ != "find"@);
    assert("c"@.len() != "click"@.len());
    assert("c"@ != "click"@);
}
/// The command for the word `back`.
proof fn lemma_word_9(t: Seq<char>)
    ensures
        command_for(t, "back"@) == CommandView::Back,
{
    reveal_strlit("go");
    reveal_strlit("g");
    reveal_strlit("open");
    reveal_strlit("navigate");
    reveal_strlit("search");
    reveal_strlit("s");
    reveal_strlit("find");
    reveal_strlit("click");
    reveal_strlit("c");
    reveal_strlit("back");
    assert("back"@.len() != "go"@.len());
    assert("back"@ != "go"@);
    assert("back"@.len() != "g"@.len());
    assert("back"@ != "g"@);
    assert("back"@[0] != "open"@[0]);
    assert("back"@ != "open"@);
    assert("back"@.len() != "navigate"@.len());
    assert("back"@ != "navigate"@);
    assert("back"@.len() != "search"@.len());
    assert("back"@ != "search"@);
    assert("back"@.len() != "s"@.len());
    assert("back"@ != "s"@);
    assert("back"@[0] != "find"@[0]);
    assert("back"@ != "find"@);
    assert("back"@.len() != "click"@.len());
    assert("back"@ != "click"@);
    assert("back"@.len() != "c"@.len());
    assert("back"@ != "c"@);
}
/// The command for the word `b`.
proof fn lemma_word_10(t: Seq<char>)
    ensures
        command_for(t, "b"@) == CommandView::Back,
{
    reveal_strlit("go");
    reveal_strlit("g");
    reveal_strlit("open");
    reveal_strlit("navigate");
    reveal_strlit("search");
    reveal_strlit("s");
    reveal_strlit("find");
    reveal_strlit("click");
    reveal_strlit("c");
    reveal_strlit("back");
    reveal_strlit("b");
    assert("b"@.len() != "go"@.len());
    assert("b"@ != "go"@);
    assert("b"@[0] != "g"@[0]);
    assert("b"@ != "g"@);
    assert("b"@.len() != "open"@.len());
    assert("b"@ != "open"@);
    assert("b"@.len() != "navigate"@.len());
    assert("b"@ != "navigate"@);
    assert("b"@.len() != "search"@.len());
    assert("b"@ != "search"@);
    assert("b"@[0] != "s"@[0]);
    assert("b"@ != "s"@);
    assert("b"@.len() != "find"@.len());
    assert("b"@ != "find"@);
    assert("b"@.len() != "click"@.len());
    assert("b"@ != "click"@);
    assert("b"@[0] != "c"@[0]);
    assert("b"@ != "c"@);
    assert("b"@.len() != "back"@.len());
    assert("b"@ != "back"@);
}
/// The command for the word `forward`.
proof fn lemma_word_11(t: Seq<char>)
    ensures
        command_for(t, "forward"@) == CommandView::Forward,
{
    reveal_strlit("go");
    reveal_strlit("g");
    reveal_strlit("open");
    reveal_strlit("navigate");
    reveal_strlit("search");
    reveal_strlit("s");
    reveal_strlit("find");
    reveal_strlit("click");
    reveal_strlit("c");
    reveal_strlit("back");
    reveal_strlit("b");
    reveal_strlit("forward");
    assert("forward"@.len() != "go"@.len());
    assert("forward"@ != "go"@);
    assert("forward"@.len() != "g"@.len());
    assert("forward"@ != "g"@);
    assert("forward"@.len() != "open"@.len());
    assert("forward"@ != "open"@);
    assert("forward"@.len() != "navigate"@.len());
    assert("forward"@ != "navigate"@);
    assert("forward"@.len() != "search"@.len());
    assert("forward"@ != "search"@);
    assert("forward"@.len() != "s"@.len());
    assert("forward"@ != "s"@);
    assert("forward"@.len() != "find"@.len());
    assert("forward"@ != "find"@);
    assert("forward"@.len() != "click"@.len());
    assert("forward"@ != "click"@);
    assert("forward"@.len() != "c"@.len());
    assert("forward"@ != "c"@);
    assert("forward"@.len() != "back"@.len());
    assert("forward"@ != "back"@);
    assert("forward"@.len() != "b"@.len());
    assert("forward"@ != "b"@);
}
/// The command for the word `f`.
proof fn lemma_word_12(t: Seq<char>)
    ensures
        command_for(t, "f"@) == CommandView::Forward,
{
    reveal_strlit("go");
    reveal_strlit("g");
    reveal_strlit("open");
    reveal_strlit("navigate");
    reveal_strlit("search");
    reveal_strlit("s");
    reveal_strlit("find");
    reveal_strlit("click");
    reveal_strlit("c");
    reveal_strlit("back");
    reveal_strlit("b");
    reveal_strlit("forward");
    reveal_strlit("f");
    assert("f"@.len() != "go"@.len());
    assert("f"@ != "go"@);
    assert("f"@[0] != "g"@[0]);
    assert("f"@ != "g"@);
    assert("f"@.len() != "open"@.len());
    assert("f"@ != "open"@);
    assert("f"@.len() != "navigate"@.len());
    assert("f"@ != "navigate"@);
    assert("f"@.len() != "search"@.len());
    assert("f"@ != "search"@);
    assert("f"@[0] != "s"@[0]);
    assert("f"@ != "s"@);
    assert("f"@.len() != "find"@.len());
    assert("f"@ != "find"@);
    assert("f"@.len() != "click"@.len());
    assert("f"@ != "click"@);
    assert("f"@[0] != "c"@[0]);
    assert("f"@ != "c"@);
    assert("f"@.len() != "back"@.len());
    assert("f"@ != "back"@);
    assert("f"@[0] != "b"@[0]);
    assert("f"@ != "b"@);
    assert("f"@.len() != "forward"@.len());
    assert("f"@ != "forward"@);
}
/// The command for the word `refresh`.
proof fn lemma_word_13(t: Seq<char>)
    ensures
        command_for(t, "refresh"@) == CommandView::Refresh,
{
    reveal_strlit("go");
    reveal_strlit("g");
    reveal_strlit("open");
    reveal_strlit("navigate");
    reveal_strlit("search");
    reveal_strlit("s");
    reveal_strlit("find");
    reveal_strlit("click");
    reveal_strlit("c");
    reveal_strlit("back");
    reveal_strlit("b");
    reveal_strlit("forward");
    reveal_strlit("f");
    reveal_strlit("refresh");
    assert("refresh"@.len() != "go"@.len());
    assert("refresh"@ != "go"@);
    assert("refresh"@.len() != "g"@.len());
    assert("refresh"@ != "g"@);
    assert("refresh"@.len() != "open"@.len());
    assert("refresh"@ != "open"@);
    assert("refresh"@.len() != "navigate"@.len());
    assert("refresh"@ != "navigate"@);
    assert("refresh"@.len() != "search"@.len());
    assert("refresh"@ != "search"@);
    assert("refresh"@.len() != "s"@.len());
    assert("refresh"@ != "s"@);
    assert("refresh"@.len() != "find"@.len());
    assert("refresh"@ != "find"@);
    assert("refresh"@.len() != "click"@.len());
    assert("refresh"@ != "click"@);
    assert("refresh"@.len() != "c"@.len());
    assert("refresh"@ != "c"@);
    assert("refresh"@.len() != "back"@.len());
    assert("refresh"@ != "back"@);
    assert("refresh"@.len() != "b"@.len());
    assert("refresh"@ != "b"@);
    assert("refresh"@[0] != "forward"@[0]);
    assert("refresh"@ != "forward"@);
    assert("refresh"@.len() != "f"@.len());
    assert("refresh"@ != "f"@);
}
/// The command for the word `r`.
proof fn lemma_word_14(t: Seq<char>)
    ensures
        command_for(t, "r"@) == CommandView::Refresh,
{
    reveal_strlit("go");
    reveal_strlit("g");
    reveal_strlit("open");
    reveal_strlit("navigate");
    reveal_strlit("search");
    reveal_strlit("s");
    reveal_strlit("find");
    reveal_strlit("click");
    reveal_strlit("c");
    reveal_strlit("back");
    reveal_strlit("b");
    reveal_strlit("forward");
    reveal_strlit("f");
    reveal_strlit("refresh");
    reveal_strlit("r");
    assert("r"@.len() != "go"@.len());
    assert("r"@ != "go"@);
    assert("r"@[0] != "g"@[0]);
    assert("r"@ != "g"@);
    assert("r"@.len() != "open"@.len());
    assert("r"@ != "open"@);
    assert("r"@.len() != "navigate"@.len());
    assert("r"@ != "navigate"@);
    assert("r"@.len() != "search"@.len());
    assert("r"@ != "search"@);
    assert("r"@[0] != "s"@[0]);
    assert("r"@ != "s"@);
    assert("r"@.len() != "find"@.len());
    assert("r"@ != "find"@);
    assert("r"@.len() != "click"@.len());
    assert("r"@ != "click"@);
    assert("r"@[0] != "c"@[0]);
    assert("r"@ != "c"@);
    assert("r"@.len() != "back"@.len());
    assert("r"@ != "back"@);
    assert("r"@[0] != "b"@[0]);
    assert("r"@ != "b"@);
    assert("r"@.len() != "forward"@.len());
    assert("r"@ != "forward"@);
    assert("r"@[0] != "f"@[0]);
    assert("r"@ != "f"@);
    assert("r"@.len() != "refresh"@.len());
    assert("r"@ != "refresh"@);
}
/// The command for the word `links`.
proof fn lemma_word_15(t: Seq<char>)
    ensures
        command_for(t, "links"@) == CommandView::Links,
{
    reveal_strlit("go");
    reveal_strlit("g");
    reveal_strlit("open");
    reveal_strlit("navigate");
    reveal_strlit("search");
    reveal_strlit("s");
    reveal_strlit("find");
    reveal_strlit("click");
    reveal_strlit("c");
    reveal_strlit("back");
    reveal_strlit("b");
    reveal_strlit("forward");
    reveal_strlit("f");
    reveal_strlit("refresh");
    reveal_strlit("r");
    reveal_strlit("links");
    assert("links"@.len() != "go"@.len());
    assert("links"@ != "go"@);
    assert("links"@.len() != "g"@.len());
    assert("links"@ != "g"@);
    assert("links"@.len() != "open"@.len());
    assert("links"@ != "open"@);
    assert("links"@.len() != "navigate"@.len());
    assert("links"@ != "navigate"@);
    assert("links"@.len() != "search"@.len());
    assert("links"@ != "search"@);
    assert("links"@.len() != "s"@.len());
    assert("links"@ != "s"@);
    assert("links"@.len() != "find"@.len());
    assert("links"@ != "find"@);
    assert("links"@[0] != "click"@[0]);
    assert("links"@ != "click"@);
    assert("links"@.len() != "c"@.len());
    assert("links"@ != "c"@);
    assert("links"@.len() != "back"@.len());
    assert("links"@ != "back"@);
    assert("links"@.len() != "b"@.len());
    assert("links"@ != "b"@);
    assert("links"@.len() != "forward"@.len());
    assert("links"@ != "forward"@);
    assert("links"@.len() != "f"@.len());
    assert("links"@ != "f"@);
    assert("links"@.len() != "refresh"@.len());
    assert("links"@ != "refresh"@);
    assert("links"@.len() != "r"@.len());
    assert("links"@ != "r"@);
}
/// The command for the word `l`.
proof fn lemma_word_16(t: Seq<char>)
    ensures
        command_for(t, "l"@) == CommandView::Links,
{
    reveal_strlit("go");
    reveal_strlit("g");
    reveal_strlit("open");
    reveal_strlit("navigate");
    reveal_strlit("search");
    reveal_strlit("s");
    reveal_strlit("find");
    reveal_strlit("click");
    reveal_strlit("c");
    reveal_strlit("back");
    reveal_strlit("b");
    reveal_strlit("forward");
    reveal_strlit("f");
    reveal_strlit("refresh");
    reveal_strlit("r");
    reveal_strlit("links");
    reveal_strlit("l");
    assert("l"@.len() != "go"@.len());
    assert("l"@ != "go"@);
    assert("l"@[0] != "g"@[0]);
    assert("l"@ != "g"@);
    assert("l"@.len() != "open"@.len());
    assert("l"@ != "open"@);
    assert("l"@.len() != "navigate"@.len());
    assert("l"@ != "navigate"@);
    assert("l"@.len() != "search"@.len());
    assert("l"@ != "search"@);
    assert("l"@[0] != "s"@[0]);
    assert("l"@ != "s"@);
    assert("l"@.len() != "find"@.len());
    assert("l"@ != "find"@);
    assert("l"@.len() != "click"@.len());
    assert("l"@ != "click"@);
    assert("l"@[0] != "c"@[0]);
    assert("l"@ != "c"@);
    assert("l"@.len() != "back"@.len());
    assert("l"@ != "back"@);
    assert("l"@[0] != "b"@[0]);
    assert("l"@ != "b"@);
    assert("l"@.len() != "forward"@.len());
    assert("l"@ != "forward"@);
    assert("l"@[0] != "f"@[0]);
    assert("l"@ != "f"@);
    assert("l"@.len() != "refresh"@.len());
    assert("l"@ != "refresh"@);
    assert("l"@[0] != "r"@[0]);
    assert("l"@ != "r"@);
    assert("l"@.len() != "links"@.len());
    assert("l"@ != "links"@);
}
/// The command for the word `headings`.
proof fn lemma_word_17(t: Seq<char>)
    ensures
        command_for(t, "headings"@) == CommandView::Headings,
{
    reveal_strlit("go");
    reveal_strlit("g");
    reveal_strlit("open");
    reveal_strlit("navigate");
    reveal_strlit("search");
    reveal_strlit("s");
    reveal_strlit("find");
    reveal_strlit("click");
    reveal_strlit("c");
    reveal_strlit("back");
    reveal_strlit("b");
    reveal_strlit("forward");
    reveal_strlit("f");
    reveal_strlit("refresh");
    reveal_strlit("r");
    reveal_strlit("links");
    reveal_strlit("l");
    reveal_strlit("headings");
    assert("headings"@.len() != "go"@.len());
    assert("headings"@ != "go"@);
    assert("headings"@.len() != "g"@.len());
    assert("headings"@ != "g"@);
    assert("headings"@.len() != "open"@.len());
    assert("headings"@ != "open"@);
    assert("headings"@[0] != "navigate"@[0]);
    assert("headings"@ != "navigate"@);
    assert("headings"@.len() != "search"@.len());
    assert("headings"@ != "search"@);
    assert("headings"@.len() != "s"@.len());
    assert("headings"@ != "s"@);
    assert("headings"@.len() != "find"@.len());
    assert("headings"@ != "find"@);
    assert("headings"@.len() != "click"@.len());
    assert("headings"@ != "click"@);
    assert("headings"@.len() != "c"@.len());
    assert("headings"@ != "c"@);
    assert("headings"@.len() != "back"@.len());
    assert("headings"@ != "back"@);
    assert("headings"@.len() != "b"@.len());
    assert("headings"@ != "b"@);
    assert("headings"@.len() != "forward"@.len());
    assert("headings"@ != "forward"@);
    assert("headings"@.len() != "f"@.len());
    assert("headings"@ != "f"@);
    assert("headings"@.len() != "refresh"@.len());
    assert("headings"@ != "refresh"@);
    assert("headings"@.len() != "r"@.len());
    assert("headings"@ != "r"@);
    assert("headings"@.len() != "links"@.len());
    assert("headings"@ != "links"@);
    assert("headings"@.len() != "l"@.len());
    assert("headings"@ != "l"@);
}
/// The command for the word `hd`.
proof fn lemma_word_18(t: Seq<char>)
    ensures
        command_for(t, "hd"@) == CommandView::Headings,
{
    reveal_strlit("go");
    reveal_strlit("g");
    reveal_strlit("open");
    reveal_strlit("navigate");
    reveal_strlit("search");
    reveal_strlit("s");
    reveal_strlit("find");
    reveal_strlit("click");
    reveal_strlit("c");
    reveal_strlit("back");
    reveal_strlit("b");
    reveal_strlit("forward");
    reveal_strlit("f");
    reveal_strlit("refresh");
    reveal_strlit("r");
    reveal_strlit("links");
    reveal_strlit("l");
    reveal_strlit("headings");
    reveal_strlit("hd");
    assert("hd"@[0] != "go"@[0]);
    assert("hd"@ != "go"@);
    assert("hd"@.len() != "g"@.len());
    assert("hd"@ != "g"@);
    assert("hd"@.len() != "open"@.len());
    assert("hd"@ != "open"@);
    assert("hd"@.len() != "navigate"@.len());
    assert("hd"@ != "navigate"@);
    assert("hd"@.len() != "search"@.len());
    assert("hd"@ != "search"@);
    assert("hd"@.len() != "s"@.len());
    assert("hd"@ != "s"@);
    assert("hd"@.len() != "find"@.len());
    assert("hd"@ != "find"@);
    assert("hd"@.len() != "click"@.len());
    assert("hd"@ != "click"@);
    assert("hd"@.len() != "c"@.len());
    assert("hd"@ != "c"@);
    assert("hd"@.len() != "back"@.len());
    assert("hd"@ != "back"@);
    assert("hd"@.len() != "b"@.len());
    assert("hd"@ != "b"@);
    assert("hd"@.len() != "forward"@.len());
    assert("hd"@ != "forward"@);
    assert("hd"@.len() != "f"@.len());
    assert("hd"@ != "f"@);
    assert("hd"@.len() != "refresh"@.len());
    assert("hd"@ != "refresh"@);
    assert("hd"@.len() != "r"@.len());
    assert("hd"@ != "r"@);
    assert("hd"@.len() != "links"@.len());
    assert("hd"@ != "links"@);
    assert("hd"@.len() != "l"@.len());
    assert("hd"@ != "l"@);
    assert("hd"@.len() != "headings"@.len());
    assert("hd"@ != "headings"@);
}
/// The command for the word `text`.
proof fn lemma_word_19(t: Seq<char>)
    ensures
        command_for(t, "text"@) == CommandView::Text,
{
    reveal_strlit("go");
    reveal_strlit("g");
    reveal_strlit("open");
    reveal_strlit("navigate");
    reveal_strlit("search");
    reveal_strlit("s");
    reveal_strlit("find");
    reveal_strlit("click");
    reveal_strlit("c");
    reveal_strlit("back");
    reveal_strlit("b");
    reveal_strlit("forward");
    reveal_strlit("f");
    reveal_strlit("refresh");
    reveal_strlit("r");
    reveal_strlit("links");
    reveal_strlit("l");
    reveal_strlit("headings");
    reveal_strlit("hd");
    reveal_strlit("text");
    assert("text"@.len() != "go"@.len());
    assert("text"@ != "go"@);
    assert("text"@.len() != "g"@.len());
    assert("text"@ != "g"@);
    assert("text"@[0] != "open"@[0]);
    assert("text"@ != "open"@);
    assert("text"@.len() != "navigate"@.len());
    assert("text"@ != "navigate"@);
    assert("text"@.len() != "search"@.len());
    assert("text"@ != "search"@);
    assert("text"@.len() != "s"@.len());
    assert("text"@ != "s"@);
    assert("text"@[0] != "find"@[0]);
    assert("text"@ != "find"@);
    assert("text"@.len() != "click"@.len());
    assert("text"@ != "click"@);
    assert("text"@.len() != "c"@.len());
    assert("text"@ != "c"@);
    assert("text"@[0] != "back"@[0]);
    assert("text"@ != "back"@);
    assert("text"@.len() != "b"@.len());
    assert("text"@ != "b"@);
    assert("text"@.len() != "forward"@.len());
    assert("text"@ != "forward"@);
    assert("text"@.len() != "f"@.len());
    assert("text"@ != "f"@);
    assert("text"@.len() != "refresh"@.len());
    assert("text"@ != "refresh"@);
    assert("text"@.len() != "r"@.len());
    assert("text"@ != "r"@);
    assert("text"@.len() != "links"@.len());
    assert("text"@ != "links"@);
    assert("text"@.len() != "l"@.len());
    assert("text"@ != "l"@);
    assert("text"@.len() != "headings"@.len());
    assert("text"@ != "headings"@);
    assert("text"@.len() != "hd"@.len());
    assert("text"@ != "hd"@);
}
/// The command for the word `t`.
proof fn lemma_word_20(t: Seq<char>)
    ensures
        command_for(t, "t"@) == CommandView::Text,
{
    reveal_strlit("go");
    reveal_strlit("g");
    reveal_strlit("open");
    reveal_strlit("navigate");
    reveal_strlit("search");
    reveal_strlit("s");
    reveal_strlit("find");
    reveal_strlit("click");
    reveal_strlit("c");
    reveal_strlit("back");
    reveal_strlit("b");
    reveal_strlit("forward");
    reveal_strlit("f");
    reveal_strlit("refresh");
    reveal_strlit("r");
    reveal_strlit("links");
    reveal_strlit("l");
    reveal_strlit("headings");
    reveal_strlit("hd");
    reveal_strlit("text");
    reveal_strlit("t");
    assert("t"@.len() != "go"@.len());
    assert("t"@ != "go"@);
    assert("t"@[0] != "g"@[0]);
    assert("t"@ != "g"@);
    assert("t"@.len() != "open"@.len());
    assert("t"@ != "open"@);
    assert("t"@.len() != "navigate"@.len());
    assert("t"@ != "navigate"@);
    assert("t"@.len() != "search"@.len());
    assert("t"@ != "search"@);
    assert("t"@[0] != "s"@[0]);
    assert("t"@ != "s"@);
    assert("t"@.len() != "find"@.len());
    assert("t"@ != "find"@);
    assert("t"@.len() != "click"@.len());
    assert("t"@ != "click"@);
    assert("t"@[0] != "c"@[0]);
    assert("t"@ != "c"@);
    assert("t"@.len() != "back"@.len());
    assert("t"@ != "back"@);
    assert("t"@[0] != "b"@[0]);
    assert("t"@ != "b"@);
    assert("t"@.len() != "forward"@.len());
    assert("t"@ != "forward"@);
    assert("t"@[0] != "f"@[0]);
    assert("t"@ != "f"@);
    assert("t"@.len() != "refresh"@.len());
    assert("t"@ != "refresh"@);
    assert("t"@[0] != "r"@[0]);
    assert("t"@ != "r"@);
    assert("t"@.len() != "links"@.len());
    assert("t"@ != "links"@);
    assert("t"@[0] != "l"@[0]);
    assert("t"@ != "l"@);
    assert("t"@.len() != "headings"@.len());
    assert("t"@ != "headings"@);
    assert("t"@.len() != "hd"@.len());
    assert("t"@ != "hd"@);
    assert("t"@.len() != "text"@.len());
    assert("t"@ != "text"@);
}
/// The command for the word `history`.
proof fn lemma_word_21(t: Seq<char>)
    ensures
        command_for(t, "history"@) == CommandView::History,
{
    reveal_strlit("go");
    reveal_strlit("g");
    reveal_strlit("open");
    reveal_strlit("navigate");
    reveal_strlit("search");
    reveal_strlit("s");
    reveal_strlit("find");
    reveal_strlit("click");
    reveal_strlit("c");
    reveal_strlit("back");
    reveal_strlit("b");
    reveal_strlit("forward");
    reveal_strlit("f");
    reveal_strlit("refresh");
    reveal_strlit("r");
    reveal_strlit("links");
    reveal_strlit("l");
    reveal_strlit("headings");
    reveal_strlit("hd");
    reveal_strlit("text");
    reveal_strlit("t");
    reveal_strlit("history");
    assert("history"@.len() != "go"@.len());
    assert("history"@ != "go"@);
    assert("history"@.len() != "g"@.len());
    assert("history"@ != "g"@);
    assert("history"@.len() != "open"@.len());
    assert("history"@ != "open"@);
    assert("history"@.len() != "navigate"@.len());
    assert("history"@ != "navigate"@);
    assert("history"@.len() != "search"@.len());
    assert("history"@ != "search"@);
    assert("history"@.len() != "s"@.len());
    assert("history"@ != "s"@);
    assert("history"@.len() != "find"@.len());
    assert("history"@ != "find"@);
    assert("history"@.len() != "click"@.len());
    assert("history"@ != "click"@);
    assert("history"@.len() != "c"@.len());
    assert("history"@ != "c"@);
    assert("history"@.len() != "back"@.len());
    assert("history"@ != "back"@);
    assert("history"@.len() != "b"@.len());
    assert("history"@ != "b"@);
    assert("history"@[0] != "forward"@[0]);
    assert("history"@ != "forward"@);
    assert("history"@.len() != "f"@.len());
    assert("history"@ != "f"@);
    assert("history"@[0] != "refresh"@[0]);
    assert("history"@ != "refresh"@);
    assert("history"@.len() != "r"@.len());
    assert("history"@ != "r"@);
    assert("history"@.len() != "links"@.len());
    assert("history"@ != "links"@);
    assert("history"@.len() != "l"@.len());
    assert("history"@ != "l"@);
    assert("history"@.len() != "headings"@.len());
    assert("history"@ != "headings"@);
    assert("history"@.len() != "hd"@.len());
    assert("history"@ != "hd"@);
    assert("history"@.len() != "text"@.len());
    assert("history"@ != "text"@);
    assert("history"@.len() != "t"@.len());
    assert("history"@ != "t"@);
}
/// The command for the word `h`.
proof fn lemma_word_22(t: Seq<char>)
    ensures
        command_for(t, "h"@) == CommandView::History,
{
    reveal_strlit("go");
    reveal_strlit("g");
    reveal_strlit("open");
    reveal_strlit("navigate");
    reveal_strlit("search");
    reveal_strlit("s");
    reveal_strlit("find");
    reveal_strlit("click");
    reveal_strlit("c");
    reveal_strlit("back");
    reveal_strlit("b");
    reveal_strlit("forward");
    reveal_strlit("f");
    reveal_strlit("refresh");
    reveal_strlit("r");
    reveal_strlit("links");
    reveal_strlit("l");
    reveal_strlit("headings");
    reveal_strlit("hd");
    reveal_strlit("text");
    reveal_strlit("t");
    reveal_strlit("history");
    reveal_strlit("h");
    assert("h"@.len() != "go"@.len());
    assert("h"@ != "go"@);
    assert("h"@[0] != "g"@[0]);
    assert("h"@ != "g"@);
    assert("h"@.len() != "open"@.len());
    assert("h"@ != "open"@);
    assert("h"@.len() != "navigate"@.len());
    assert("h"@ != "navigate"@);
    assert("h"@.len() != "search"@.len());
    assert("h"@ != "search"@);
    assert("h"@[0] != "s"@[0]);
    assert("h"@ != "s"@);
    assert("h"@.len() != "find"@.len());
    assert("h"@ != "find"@);
    assert("h"@.len() != "click"@.len());
    assert("h"@ != "click"@);
    assert("h"@[0] != "c"@[0]);
    assert("h"@ != "c"@);
    assert("h"@.len() != "back"@.len());
    assert("h"@ != "back"@);
    assert("h"@[0] != "b"@[0]);
    assert("h"@ != "b"@);
    assert("h"@.len() != "forward"@.len());
    assert("h"@ != "forward"@);
    assert("h"@[0] != "f"@[0]);
    assert("h"@ != "f"@);
    assert("h"@.len() != "refresh"@.len());
    assert("h"@ != "refresh"@);
    assert("h"@[0] != "r"@[0]);
    assert("h"@ != "r"@);
    assert("h"@.len() != "links"@.len());
    assert("h"@ != "links"@);
    assert("h"@[0] != "l"@[0]);
    assert("h"@ != "l"@);
    assert("h"@.len() != "headings"@.len());
    assert("h"@ != "headings"@);
    assert("h"@.len() != "hd"@.len());
    assert("h"@ != "hd"@);
    assert("h"@.len() != "text"@.len());
    assert("h"@ != "text"@);
    assert("h"@[0] != "t"@[0]);
    assert("h"@ != "t"@);
    assert("h"@.len() != "history"@.len());
    assert("h"@ != "history"@);
}
/// The command for the word `bookmarks`.
proof fn lemma_word_23(t: Seq<char>)
    ensures
        command_for(t, "bookmarks"@) == CommandView::Bookmarks,
{
    reveal_strlit("go");
    reveal_strlit("g");
    reveal_strlit("open");
    reveal_strlit("navigate");
    reveal_strlit("search");
    reveal_strlit("s");
    reveal_strlit("find");
    reveal_strlit("click");
    reveal_strlit("c");
    reveal_strlit("back");
    reveal_strlit("b");
    reveal_strlit("forward");
    reveal_strlit("f");
    reveal_strlit("refresh");
    reveal_strlit("r");
    reveal_strlit("links");
    reveal_strlit("l");
    reveal_strlit("headings");
    reveal_strlit("hd");
    reveal_strlit("text");
    reveal_strlit("t");
    reveal_strlit("history");
    reveal_strlit("h");
    reveal_strlit("bookmarks");
    assert("bookmarks"@.len() != "go"@.len());
    assert("bookmarks"@ != "go"@);
    assert("bookmarks"@.len() != "g"@.len());
    assert("bookmarks"@ != "g"@);
    assert("bookmarks"@.len() != "open"@.len());
    assert("bookmarks"@ != "open"@);
    assert("bookmarks"@.len() != "navigate"@.len());
    assert("bookmarks"@ != "navigate"@);
    assert("bookmarks"@.len() != "search"@.len());
    assert("bookmarks"@ != "search"@);
    assert("bookmarks"@.len() != "s"@.len());
    assert("bookmarks"@ != "s"@);
    assert("bookmarks"@.len() != "find"@.len());
    assert("bookmarks"@ != "find"@);
    assert("bookmarks"@.len() != "click"@.len());
    assert("bookmarks"@ != "click"@);
    assert("bookmarks"@.len() != "c"@.len());
    assert("bookmarks"@ != "c"@);
    assert("bookmarks"@.len() != "back"@.len());
    assert("bookmarks"@ != "back"@);
    assert("bookmarks"@.len() != "b"@.len());
    assert("bookmarks"@ != "b"@);
    assert("bookmarks"@.len() != "forward"@.len());
    assert("bookmarks"@ != "forward"@);
    assert("bookmarks"@.len() != "f"@.len());
    assert("bookmarks"@ != "f"@);
    assert("bookmarks"@.len() != "refresh"@.len());
    assert("bookmarks"@ != "refresh"@);
    assert("bookmarks"@.len() != "r"@.len());
    assert("bookmarks"@ != "r"@);
    assert("bookmarks"@.len() != "links"@.len());
    assert("bookmarks"@ != "links"@);
    assert("bookmarks"@.len() != "l"@.len());
    assert("bookmarks"@ != "l"@);
    assert("bookmarks"@.len() != "headings"@.len());
    assert("bookmarks"@ != "headings"@);
    assert("bookmarks"@.len() != "hd"@.len());
    assert("bookmarks"@ != "hd"@);
    assert("bookmarks"@.len() != "text"@.len());
    assert("bookmarks"@ != "text"@);
    assert("bookmarks"@.len() != "t"@.len());
    assert("bookmarks"@ != "t"@);
    assert("bookmarks"@.len() != "history"@.len());
    assert("bookmarks"@ != "history"@);
    assert("bookmarks"@.len() != "h"@.len());
    assert("bookmarks"@ != "h"@);
}
/// The command for the word `bm`.
proof fn lemma_word_24(t: Seq<char>)
    ensures
        command_for(t, "bm"@) == CommandView::Bookmarks,
{
    reveal_strlit("go");
    reveal_strlit("g");
    reveal_strlit("open");
    reveal_strlit("navigate");
    reveal_strlit("search");
    reveal_strlit("s");
    reveal_strlit("find");
    reveal_strlit("click");
    reveal_strlit("c");
    reveal_strlit("back");
    reveal_strlit("b");
    reveal_strlit("forward");
    reveal_strlit("f");
    reveal_strlit("refresh");
    reveal_strlit("r");
    reveal_strlit("links");
    reveal_strlit("l");
    reveal_strlit("headings");
    reveal_strlit("hd");
    reveal_strlit("text");
    reveal_strlit("t");
    reveal_strlit("history");
    reveal_strlit("h");
    reveal_strlit("bookmarks");
    reveal_strlit("bm");
    assert("bm"@[0] != "go"@[0]);
    assert("bm"@ != "go"@);
    assert("bm"@.len() != "g"@.len());
    assert("bm"@ != "g"@);
    assert("bm"@.len() != "open"@.len());
    assert("bm"@ != "open"@);
    assert("bm"@.len() != "navigate"@.len());
    assert("bm"@ != "navigate"@);
    assert("bm"@.len() != "search"@.len());
    assert("bm"@ != "search"@);
    assert("bm"@.len() != "s"@.len());
    assert("bm"@ != "s"@);
    assert("bm"@.len() != "find"@.len());
    assert("bm"@ != "find"@);
    assert("bm"@.len() != "click"@.len());
    assert("bm"@ != "click"@);
    assert("bm"@.len() != "c"@.len());
    assert("bm"@ != "c"@);
    assert("bm"@.len() != "back"@.len());
    assert("bm"@ != "back"@);
    assert("bm"@.len() != "b"@.len());
    assert("bm"@ != "b"@);
    assert("bm"@.len() != "forward"@.len());
    assert("bm"@ != "forward"@);
    assert("bm"@.len() != "f"@.len());
    assert("bm"@ != "f"@);
    assert("bm"@.len() != "refresh"@.len());
    assert("bm"@ != "refresh"@);
    assert("bm"@.len() != "r"@.len());
    assert("bm"@ != "r"@);
    assert("bm"@.len() != "links"@.len());
    assert("bm"@ != "links"@);
    assert("bm"@.len() != "l"@.len());
    assert("bm"@ != "l"@);
    assert("bm"@.len() != "headings"@.len());
    assert("bm"@ != "headings"@);
    assert("bm"@[0] != "hd"@[0]);
    assert("bm"@ != "hd"@);
    assert("bm"@.len() != "text"@.len());
    assert("bm"@ != "text"@);
    assert("bm"@.len() != "t"@.len());
    assert("bm"@ != "t"@);
    assert("bm"@.len() != "history"@.len());
    assert("bm"@ != "history"@);
    assert("bm"@.len() != "h"@.len());
    assert("bm"@ != "h"@);
    assert("bm"@.len() != "bookmarks"@.len());
    assert("bm"@ != "bookmarks"@);
}
/// The command for the word `bookmark`.
proof fn lemma_word_25(t: Seq<char>)
    ensures
        command_for(t, "bookmark"@) == (if command_arg(t).len() == 0 { CommandView::Bookmark("Untitled"@) } else { CommandView::Bookmark(command_arg(t)) }),
{
    reveal_strlit("go");
    reveal_strlit("g");
    reveal_strlit("open");
    reveal_strlit("navigate");
    reveal_strlit("search");
    reveal_strlit("s");
    reveal_strlit("find");
    reveal_strlit("click");
    reveal_strlit("c");
    reveal_strlit("back");
    reveal_strlit("b");
    reveal_strlit("forward");
    reveal_strlit("f");
    reveal_strlit("refresh");
    reveal_strlit("r");
    reveal_strlit("links");
    reveal_strlit("l");
    reveal_strlit("headings");
    reveal_strlit("hd");
    reveal_strlit("text");
    reveal_strlit("t");
    reveal_strlit("history");
    reveal_strlit("h");
    reveal_strlit("bookmarks");
    reveal_strlit("bm");
    reveal_strlit("bookmark");
    assert("bookmark"@.len() != "go"@.len());
    assert("bookmark"@ != "go"@);
    assert("bookmark"@.len() != "g"@.len());
    assert("bookmark"@ != "g"@);
    assert("bookmark"@.len() != "open"@.len());
    assert("bookmark"@ != "open"@);
    assert("bookmark"@[0] != "navigate"@[0]);
    assert("bookmark"@ != "navigate"@);
    assert("bookmark"@.len() != "search"@.len());
    assert("bookmark"@ != "search"@);
    assert("bookmark"@.len() != "s"@.len());
    assert("bookmark"@ != "s"@);
    assert("bookmark"@.len() != "find"@.len());
    assert("bookmark"@ != "find"@);
    assert("bookmark"@.len() != "click"@.len());
    assert("bookmark"@ != "click"@);
    assert("bookmark"@.len() != "c"@.len());
    assert("bookmark"@ != "c"@);
    assert("bookmark"@.len() != "back"@.len());
    assert("bookmark"@ != "back"@);
    assert("bookmark"@.len() != "b"@.len());
    assert("bookmark"@ != "b"@);
    assert("bookmark"@.len() != "forward"@.len());
    assert("bookmark"@ != "forward"@);
    assert("bookmark"@.len() != "f"@.len());
    assert("bookmark"@ != "f"@);
    assert("bookmark"@.len() != "refresh"@.len());
    assert("bookmark"@ != "refresh"@);
    assert("bookmark"@.len() != "r"@.len());
    assert("bookmark"@ != "r"@);
    assert("bookmark"@.len() != "links"@.len());
    assert("bookmark"@ != "links"@);
    assert("bookmark"@.len() != "l"@.len());
    assert("bookmark"@ != "l"@);
    assert("bookmark"@[0] != "headings"@[0]);
    assert("bookmark"@ != "headings"@);
    assert("bookmark"@.len() != "hd"@.len());
    assert("bookmark"@ != "hd"@);
    assert("bookmark"@.len() != "text"@.len());
    assert("bookmark"@ != "text"@);
    assert("bookmark"@.len() != "t"@.len());
    assert("bookmark"@ != "t"@);
    assert("bookmark"@.len() != "history"@.len());
    assert("bookmark"@ != "history"@);
    assert("bookmark"@.len() != "h"@.len());
    assert("bookmark"@ != "h"@);
    assert("bookmark"@.len() != "bookmarks"@.len());
    assert("bookmark"@ != "bookmarks"@);
    assert("bookmark"@.len() != "bm"@.len());
    assert("bookmark"@ != "bm"@);
}
/// The command for the word `delbookmark`.
proof fn lemma_word_26(t: Seq<char>)
    ensures
        command_for(t, "delbookmark"@) == (if command_arg(t).len() == 0 { CommandView::Unknown("Usage: delbookmark <#>"@) } else { CommandView::DelBookmark(command_arg(t)) }),
{
    reveal_strlit("go");
    reveal_strlit("g");
    reveal_strlit("open");
    reveal_strlit("navigate");
    reveal_strlit("search");
    reveal_strlit("s");
    reveal_strlit("find");
    reveal_strlit("click");
    reveal_strlit("c");
    reveal_strlit("back");
    reveal_strlit("b");
    reveal_strlit("forward");
    reveal_strlit("f");
    reveal_strlit("refresh");
    reveal_strlit("r");
    reveal_strlit("links");
    reveal_strlit("l");
    reveal_strlit("headings");
    reveal_strlit("hd");
    reveal_strlit("text");
    reveal_strlit("t");
    reveal_strlit("history");
    reveal_strlit("h");
    reveal_strlit("bookmarks");
    reveal_strlit("bm");
    reveal_strlit("bookmark");
    reveal_strlit("delbookmark");
    assert("delbookmark"@.len() != "go"@.len());
    assert("delbookmark"@ != "go"@);
    assert("delbookmark"@.len() != "g"@.len());
    assert("delbookmark"@ != "g"@);
    assert("delbookmark"@.len() != "open"@.len());
    assert("delbookmark"@ != "open"@);
    assert("delbookmark"@.len() != "navigate"@.len());
    assert("delbookmark"@ != "navigate"@);
    assert("delbookmark"@.len() != "search"@.len());
    assert("delbookmark"@ != "search"@);
    assert("delbookmark"@.len() != "s"@.len());
    assert("delbookmark"@ != "s"@);
    assert("delbookmark"@.len() != "find"@.len());
    assert("delbookmark"@ != "find"@);
    assert("delbookmark"@.len() != "click"@.len());
    assert("delbookmark"@ != "click"@);
    assert("delbookmark"@.len() != "c"@.len());
    assert("delbookmark"@ != "c"@);
    assert("delbookmark"@.len() != "back"@.len());
    assert("delbookmark"@ != "back"@);
    assert("delbookmark"@.len() != "b"@.len());
    assert("delbookmark"@ != "b"@);
    assert("delbookmark"@.len() != "forward"@.len());
    assert("delbookmark"@ != "forward"@);
    assert("delbookmark"@.len() != "f"@.len());
    assert("delbookmark"@ != "f"@);
    assert("delbookmark"@.len() != "refresh"@.len());
    assert("delbookmark"@ != "refresh"@);
    assert("delbookmark"@.len() != "r"@.len());
    assert("delbookmark"@ != "r"@);
    assert("delbookmark"@.len() != "links"@.len());
    assert("delbookmark"@ != "links"@);
    assert("delbookmark"@.len() != "l"@.len());
    assert("delbookmark"@ != "l"@);
    assert("delbookmark"@.len() != "headings"@.len());
    assert("delbookmark"@ != "headings"@);
    assert("delbookmark"@.len() != "hd"@.len());
    assert("delbookmark"@ != "hd"@);
    assert("delbookmark"@.len() != "text"@.len());
    assert("delbookmark"@ != "text"@);
    assert("delbookmark"@.len() != "t"@.len());
    assert("delbookmark"@ != "t"@);
    assert("delbookmark"@.len() != "history"@.len());
    assert("delbookmark"@ != "history"@);
    assert("delbookmark"@.len() != "h"@.len());
    assert("delbookmark"@ != "h"@);
    assert("delbookmark"@.len() != "bookmarks"@.len());
    assert("delbookmark"@ != "bookmarks"@);
    assert("delbookmark"@.len() != "bm"@.len());
    assert("delbookmark"@ != "bm"@);
    assert("delbookmark"@.len() != "bookmark"@.len());
    assert("delbookmark"@ != "bookmark"@);
}
/// The command for the word `dbm`.
proof fn lemma_word_27(t: Seq<char>)
    ensures
        command_for(t, "dbm"@) == (if command_arg(t).len() == 0 { CommandView::Unknown("Usage: delbookmark <#>"@) } else { CommandView::DelBookmark(command_arg(t)) }),
{
    reveal_strlit("go");
    reveal_strlit("g");
    reveal_strlit("open");
    reveal_strlit("navigate");
    reveal_strlit("search");
    reveal_strlit("s");
    reveal_strlit("find");
    reveal_strlit("click");
    reveal_strlit("c");
    reveal_strlit("back");
    reveal_strlit("b");
    reveal_strlit("forward");
    reveal_strlit("f");
    reveal_strlit("refresh");
    reveal_strlit("r");
    reveal_strlit("links");
    reveal_strlit("l");
    reveal_strlit("headings");
    reveal_strlit("hd");
    reveal_strlit("text");
    reveal_strlit("t");
    reveal_strlit("history");
    reveal_strlit("h");
    reveal_strlit("bookmarks");
    reveal_strlit("bm");
    reveal_strlit("bookmark");
    reveal_strlit("delbookmark");
    reveal_strlit("dbm");
    assert("dbm"@.len() != "go"@.len());
    assert("dbm"@ != "go"@);
    assert("dbm"@.len() != "g"@.len());
    assert("dbm"@ != "g"@);
    assert("dbm"@.len() != "open"@.len());
    assert("dbm"@ != "open"@);
    assert("dbm"@.len() != "navigate"@.len());
    assert("dbm"@ != "navigate"@);
    assert("dbm"@.len() != "search"@.len());
    assert("dbm"@ != "search"@);
    assert("dbm"@.len() != "s"@.len());
    assert("dbm"@ != "s"@);
    assert("dbm"@.len() != "find"@.len());
    assert("dbm"@ != "find"@);
    assert("dbm"@.len() != "click"@.len());
    assert("dbm"@ != "click"@);
    assert("dbm"@.len() != "c"@.len());
    assert("dbm"@ != "c"@);
    assert("dbm"@.len() != "back"@.len());
    assert("dbm"@ != "back"@);
    assert("dbm"@.len() != "b"@.len());
    assert("dbm"@ != "b"@);
    assert("dbm"@.len() != "forward"@.len());
    assert("dbm"@ != "forward"@);
    assert("dbm"@.len() != "f"@.len());
    assert("dbm"@ != "f"@);
    assert("dbm"@.len() != "refresh"@.len());
    assert("dbm"@ != "refresh"@);
    assert("dbm"@.len() != "r"@.len());
    assert("dbm"@ != "r"@);
    assert("dbm"@.len() != "links"@.len());
    assert("dbm"@ != "links"@);
    assert("dbm"@.len() != "l"@.len());
    assert("dbm"@ != "l"@);
    assert("dbm"@.len() != "headings"@.len());
    assert("dbm"@ != "headings"@);
    assert("dbm"@.len() != "hd"@.len());
    assert("dbm"@ != "hd"@);
    assert("dbm"@.len() != "text"@.len());
    assert("dbm"@ != "text"@);
    assert("dbm"@.len() != "t"@.len());
    assert("dbm"@ != "t"@);
    assert("dbm"@.len() != "history"@.len());
    assert("dbm"@ != "history"@);
    assert("dbm"@.len() != "h"@.len());
    assert("dbm"@ != "h"@);
    assert("dbm"@.len() != "bookmarks"@.len());
    assert("dbm"@ != "bookmarks"@);
    assert("dbm"@.len() != "bm"@.len());
    assert("dbm"@ != "bm"@);
    assert("dbm"@.len() != "bookmark"@.len());
    assert("dbm"@ != "bookmark"@);
    assert("dbm"@.len() != "delbookmark"@.len());
    assert("dbm"@ != "delbookmark"@);
}
/// The command for the word `source`.
proof fn lemma_word_28(t: Seq<char>)
    ensures
        command_for(t, "source"@) == CommandView::Source,
{
    reveal_strlit("go");
    reveal_strlit("g");
    reveal_strlit("open");
    reveal_strlit("navigate");
    reveal_strlit("search");
    reveal_strlit("s");
    reveal_strlit("find");
    reveal_strlit("click");
    reveal_strlit("c");
    reveal_strlit("back");
    reveal_strlit("b");
    reveal_strlit("forward");
    reveal_strlit("f");
    reveal_strlit("refresh");
    reveal_strlit("r");
    reveal_strlit("links");
    reveal_strlit("l");
    reveal_strlit("headings");
    reveal_strlit("hd");
    reveal_strlit("text");
    reveal_strlit("t");
    reveal_strlit("history");
    reveal_strlit("h");
    reveal_strlit("bookmarks");
    reveal_strlit("bm");
    reveal_strlit("bookmark");
    reveal_strlit("delbookmark");
    reveal_strlit("dbm");
    reveal_strlit("source");
    assert("source"@.len() != "go"@.len());
    assert("source"@ != "go"@);
    assert("source"@.len() != "g"@.len());
    assert("source"@ != "g"@);
    assert("source"@.len() != "open"@.len());
    assert("source"@ != "open"@);
    assert("source"@.len() != "navigate"@.len());
    assert("source"@ != "navigate"@);
    assert("source"@[1] != "search"@[1]);
    assert("source"@ != "search"@);
    assert("source"@.len() != "s"@.len());
    assert("source"@ != "s"@);
    assert("source"@.len() != "find"@.len());
    assert("source"@ != "find"@);
    assert("source"@.len() != "click"@.len());
    assert("source"@ != "click"@);
    assert("source"@.len() != "c"@.len());
    assert("source"@ != "c"@);
    assert("source"@.len() != "back"@.len());
    assert("source"@ != "back"@);
    assert("source"@.len() != "b"@.len());
    assert("source"@ != "b"@);
    assert("source"@.len() != "forward"@.len());
    assert("source"@ != "forward"@);
    assert("source"@.len() != "f"@.len());
    assert("source"@ != "f"@);
    assert("source"@.len() != "refresh"@.len());
    assert("source"@ != "refresh"@);
    assert("source"@.len() != "r"@.len());
    assert("source"@ != "r"@);
    assert("source"@.len() != "links"@.len());
    assert("source"@ != "links"@);
    assert("source"@.len() != "l"@.len());
    assert("source"@ != "l"@);
    assert("source"@.len() != "headings"@.len());
    assert("source"@ != "headings"@);
    assert("source"@.len() != "hd"@.len());
    assert("source"@ != "hd"@);
    assert("source"@.len() != "text"@.len());
    assert("source"@ != "text"@);
    assert("source"@.len() != "t"@.len());
    assert("source"@ != "t"@);
    assert("source"@.len() != "history"@.len());
    assert("source"@ != "history"@);
    assert("source"@.len() != "h"@.len());
    assert("source"@ != "h"@);
    assert("source"@.len() != "bookmarks"@.len());
    assert("source"@ != "bookmarks"@);
    assert("source"@.len() != "bm"@.len());
    assert("source"@ != "bm"@);
    assert("source"@.len() != "bookmark"@.len());
    assert("source"@ != "bookmark"@);
    assert("source"@.len() != "delbookmark"@.len());
    assert("source"@ != "delbookmark"@);
    assert("source"@.len() != "dbm"@.len());
    assert("source"@ != "dbm"@);
}
/// The command for the word `src`.
proof fn lemma_word_29(t: Seq<char>)
    ensures
        command_for(t, "src"@) == CommandView::Source,
{
    reveal_strlit("go");
    reveal_strlit("g");
    reveal_strlit("open");
    reveal_strlit("navigate");
    reveal_strlit("search");
    reveal_strlit("s");
    reveal_strlit("find");
    reveal_strlit("click");
    reveal_strlit("c");
    reveal_strlit("back");
    reveal_strlit("b");
    reveal_strlit("forward");
    reveal_strlit("f");
    reveal_strlit("refresh");
    reveal_strlit("r");
    reveal_strlit("links");
    reveal_strlit("l");
    reveal_strlit("headings");
    reveal_strlit("hd");
    reveal_strlit("text");
    reveal_strlit("t");
    reveal_strlit("history");
    reveal_strlit("h");
    reveal_strlit("bookmarks");
    reveal_strlit("bm");
    reveal_strlit("bookmark");
    reveal_strlit("delbookmark");
    reveal_strlit("dbm");
    reveal_strlit("source");
    reveal_strlit("src");
    assert("src"@.len() != "go"@.len());
    assert("src"@ != "go"@);
    assert("src"@.len() != "g"@.len());
    assert("src"@ != "g"@);
    assert("src"@.len() != "open"@.len());
    assert("src"@ != "open"@);
    assert("src"@.len() != "navigate"@.len());
    assert("src"@ != "navigate"@);
    assert("src"@.len() != "search"@.len());
    assert("src"@ != "search"@);
    assert("src"@.len() != "s"@.len());
    assert("src"@ != "s"@);
    assert("src"@.len() != "find"@.len());
    assert("src"@ != "find"@);
    assert("src"@.len() != "click"@.len());
    assert("src"@ != "click"@);
    assert("src"@.len() != "c"@.len());
    assert("src"@ != "c"@);
    assert("src"@.len() != "back"@.len());
    assert("src"@ != "back"@);
    assert("src"@.len() != "b"@.len());
    assert("src"@ != "b"@);
    assert("src"@.len() != "forward"@.len());
    assert("src"@ != "forward"@);
    assert("src"@.len() != "f"@.len());
    assert("src"@ != "f"@);
    assert("src"@.len() != "refresh"@.len());
    assert("src"@ != "refresh"@);
    assert("src"@.len() != "r"@.len());
    assert("src"@ != "r"@);
    assert("src"@.len() != "links"@.len());
    assert("src"@ != "links"@);
    assert("src"@.len() != "l"@.len());
    assert("src"@ != "l"@);
    assert("src"@.len() != "headings"@.len());
    assert("src"@ != "headings"@);
    assert("src"@.len() != "hd"@.len());
    assert("src"@ != "hd"@);
    assert("src"@.len() != "text"@.len());
    assert("src"@ != "text"@);
    assert("src"@.len() != "t"@.len());
    assert("src"@ != "t"@);
    assert("src"@.len() != "history"@.len());
    assert("src"@ != "history"@);
    assert("src"@.len() != "h"@.len());
    assert("src"@ != "h"@);
    assert("src"@.len() != "bookmarks"@.len());
    assert("src"@ != "bookmarks"@);
    assert("src"@.len() != "bm"@.len());
    assert("src"@ != "bm"@);
    assert("src"@.len() != "bookmark"@.len());
    assert("src"@ != "bookmark"@);
    assert("src"@.len() != "delbookmark"@.len());
    assert("src"@ != "delbookmark"@);
    assert("src"@[0] != "dbm"@[0]);
    assert("src"@ != "dbm"@);
    assert("src"@.len() != "source"@.len());
    assert("src"@ != "source"@);
}
/// The command for the word `save`.
proof fn lemma_word_30(t: Seq<char>)
    ensures
        command_for(t, "save"@) == (if command_arg(t).len() == 0 { CommandView::Unknown("Usage: save <file>"@) } else { CommandView::Save(command_arg(t)) }),
{
    reveal_strlit("go");
    reveal_strlit("g");
    reveal_strlit("open");
    reveal_strlit("navigate");
    reveal_strlit("search");
    reveal_strlit("s");
    reveal_strlit("find");
    reveal_strlit("click");
    reveal_strlit("c");
    reveal_strlit("back");
    reveal_strlit("b");
    reveal_strlit("forward");
    reveal_strlit("f");
    reveal_strlit("refresh");
    reveal_strlit("r");
    reveal_strlit("links");
    reveal_strlit("l");
    reveal_strlit("headings");
    reveal_strlit("hd");
    reveal_strlit("text");
    reveal_strlit("t");
    reveal_strlit("history");
    reveal_strlit("h");
    reveal_strlit("bookmarks");
    reveal_strlit("bm");
    reveal_strlit("bookmark");
    reveal_strlit("delbookmark");
    reveal_strlit("dbm");
    reveal_strlit("source");
    reveal_strlit("src");
    reveal_strlit("save");
    assert("save"@.len() != "go"@.len());
    assert("save"@ != "go"@);
    assert("save"@.len() != "g"@.len());
    assert("save"@ != "g"@);
    assert("save"@[0] != "open"@[0]);
    assert("save"@ != "open"@);
    assert("save"@.len() != "navigate"@.len());
    assert("save"@ != "navigate"@);
    assert("save"@.len() != "search"@.len());
    assert("save"@ != "search"@);
    assert("save"@.len() != "s"@.len());
    assert("save"@ != "s"@);
    assert("save"@[0] != "find"@[0]);
    assert("save"@ != "find"@);
    assert("save"@.len() != "click"@.len());
    assert("save"@ != "click"@);
    assert("save"@.len() != "c"@.len());
    assert("save"@ != "c"@);
    assert("save"@[0] != "back"@[0]);
    assert("save"@ != "back"@);
    assert("save"@.len() != "b"@.len());
    assert("save"@ != "b"@);
    assert("save"@.len() != "forward"@.len());
    assert("save"@ != "forward"@);
    assert("save"@.len() != "f"@.len());
    assert("save"@ != "f"@);
    assert("save"@.len() != "refresh"@.len());
    assert("save"@ != "refresh"@);
    assert("save"@.len() != "r"@.len());
    assert("save"@ != "r"@);
    assert("save"@.len() != "links"@.len());
    assert("save"@ != "links"@);
    assert("save"@.len() != "l"@.len());
    assert("save"@ != "l"@);
    assert("save"@.len() != "headings"@.len());
    assert("save"@ != "headings"@);
    assert("save"@.len() != "hd"@.len());
    assert("save"@ != "hd"@);
    assert("save"@[0] != "text"@[0]);
    assert("save"@ != "text"@);
    assert("save"@.len() != "t"@.len());
    assert("save"@ != "t"@);
    assert("save"@.len() != "history"@.len());
    assert("save"@ != "history"@);
    assert("save"@.len() != "h"@.len());
    assert("save"@ != "h"@);
    assert("save"@.len() != "bookmarks"@.len());
    assert("save"@ != "bookmarks"@);
    assert("save"@.len() != "bm"@.len());
    assert("save"@ != "bm"@);
    assert("save"@.len() != "bookmark"@.len());
    assert("save"@ != "bookmark"@);
    assert("save"@.len() != "delbookmark"@.len());
    assert("save"@ != "delbookmark"@);
    assert("save"@.len() != "dbm"@.len());
    assert("save"@ != "dbm"@);
    assert("save"@.len() != "source"@.len());
    assert("save"@ != "source"@);
    assert("save"@.len() != "src"@.len());
    assert("save"@ != "src"@);
}
/// The command for the word `url`.
proof fn lemma_word_31(t: Seq<char>)
    ensures
        command_for(t, "url"@) == CommandView::Url,
{
    reveal_strlit("go");
    reveal_strlit("g");
    reveal_strlit("open");
    reveal_strlit("navigate");
    reveal_strlit("search");
    reveal_strlit("s");
    reveal_strlit("find");
    reveal_strlit("click");
    reveal_strlit("c");
    reveal_strlit("back");
    reveal_strlit("b");
    reveal_strlit("forward");
    reveal_strlit("f");
    reveal_strlit("refresh");
    reveal_strlit("r");
    reveal_strlit("links");
    reveal_strlit("l");
    reveal_strlit("headings");
    reveal_strlit("hd");
    reveal_strlit("text");
    reveal_strlit("t");
    reveal_strlit("history");
    reveal_strlit("h");
    reveal_strlit("bookmarks");
    reveal_strlit("bm");
    reveal_strlit("bookmark");
    reveal_strlit("delbookmark");
    reveal_strlit("dbm");
    reveal_strlit("source");
    reveal_strlit("src");
    reveal_strlit("save");
    reveal_strlit("url");
    assert("url"@.len() != "go"@.len());
    assert("url"@ != "go"@);
    assert("url"@.len() != "g"@.len());
    assert("url"@ != "g"@);
    assert("url"@.len() != "open"@.len());
    assert("url"@ != "open"@);
    assert("url"@.len() != "navigate"@.len());
    assert("url"@ != "navigate"@);
    assert("url"@.len() != "search"@.len());
    assert("url"@ != "search"@);
    assert("url"@.len() != "s"@.len());
    assert("url"@ != "s"@);
    assert("url"@.len() != "find"@.len());
    assert("url"@ != "find"@);
    assert("url"@.len() != "click"@.len());
    assert("url"@ != "click"@);
    assert("url"@.len() != "c"@.len());
    assert("url"@ != "c"@);
    assert("url"@.len() != "back"@.len());
    assert("url"@ != "back"@);
    assert("url"@.len() != "b"@.len());
    assert("url"@ != "b"@);
    assert("url"@.len() != "forward"@.len());
    assert("url"@ != "forward"@);
    assert("url"@.len() != "f"@.len());
    assert("url"@ != "f"@);
    assert("url"@.len() != "refresh"@.len());
    assert("url"@ != "refresh"@);
    assert("url"@.len() != "r"@.len());
    assert("url"@ != "r"@);
    assert("url"@.len() != "links"@.len());
    assert("url"@ != "links"@);
    assert("url"@.len() != "l"@.len());
    assert("url"@ != "l"@);
    assert("url"@.len() != "headings"@.len());
    assert("url"@ != "headings"@);
    assert("url"@.len() != "hd"@.len());
    assert("url"@ != "hd"@);
    assert("url"@.len() != "text"@.len());
    assert("url"@ != "text"@);
    assert("url"@.len() != "t"@.len());
    assert("url"@ != "t"@);
    assert("url"@.len() != "history"@.len());
    assert("url"@ != "history"@);
    assert("url"@.len() != "h"@.len());
    assert("url"@ != "h"@);
    assert("url"@.len() != "bookmarks"@.len());
    assert("url"@ != "bookmarks"@);
    assert("url"@.len() != "bm"@.len());
    assert("url"@ != "bm"@);
    assert("url"@.len() != "bookmark"@.len());
    assert("url"@ != "bookmark"@);
    assert("url"@.len() != "delbookmark"@.len());
    assert("url"@ != "delbookmark"@);
    assert("url"@[0] != "dbm"@[0]);
    assert("url"@ != "dbm"@);
    assert("url"@.len() != "source"@.len());
    assert("url"@ != "source"@);
    assert("url"@[0] != "src"@[0]);
    assert("url"@ != "src"@);
    assert("url"@.len() != "save"@.len());
    assert("url"@ != "save"@);
}
/// The command for the word `home`.
proof fn lemma_word_32(t: Seq<char>)
    ensures
        command_for(t, "home"@) == CommandView::Home,
{
    reveal_strlit("go");
    reveal_strlit("g");
    reveal_strlit("open");
    reveal_strlit("navigate");
    reveal_strlit("search");
    reveal_strlit("s");
    reveal_strlit("find");
    reveal_strlit("click");
    reveal_strlit("c");
    reveal_strlit("back");
    reveal_strlit("b");
    reveal_strlit("forward");
    reveal_strlit("f");
    reveal_strlit("refresh");
    reveal_strlit("r");
    reveal_strlit("links");
    reveal_strlit("l");
    reveal_strlit("headings");
    reveal_strlit("hd");
    reveal_strlit("text");
    reveal_strlit("t");
    reveal_strlit("history");
    reveal_strlit("h");
    reveal_strlit("bookmarks");
    reveal_strlit("bm");
    reveal_strlit("bookmark");
    reveal_strlit("delbookmark");
    reveal_strlit("dbm");
    reveal_strlit("source");
    reveal_strlit("src");
    reveal_strlit("save");
    reveal_strlit("url");
    reveal_strlit("home");
    assert("home"@.len() != "go"@.len());
    assert("home"@ != "go"@);
    assert("home"@.len() != "g"@.len());
    assert("home"@ != "g"@);
    assert("home"@[0] != "open"@[0]);
    assert("home"@ != "open"@);
    assert("home"@.len() != "navigate"@.len());
    assert("home"@ != "navigate"@);
    assert("home"@.len() != "search"@.len());
    assert("home"@ != "search"@);
    assert("home"@.len() != "s"@.len());
    assert("home"@ != "s"@);
    assert("home"@[0] != "find"@[0]);
    assert("home"@ != "find"@);
    assert("home"@.len() != "click"@.len());
    assert("home"@ != "click"@);
    assert("home"@.len() != "c"@.len());
    assert("home"@ != "c"@);
    assert("home"@[0] != "back"@[0]);
    assert("home"@ != "back"@);
    assert("home"@.len() != "b"@.len());
    assert("home"@ != "b"@);
    assert("home"@.len() != "forward"@.len());
    assert("home"@ != "forward"@);
    assert("home"@.len() != "f"@.len());
    assert("home"@ != "f"@);
    assert("home"@.len() != "refresh"@.len());
    assert("home"@ != "refresh"@);
    assert("home"@.len() != "r"@.len());
    assert("home"@ != "r"@);
    assert("home"@.len() != "links"@.len());
    assert("home"@ != "links"@);
    assert("home"@.len() != "l"@.len());
    assert("home"@ != "l"@);
    assert("home"@.len() != "headings"@.len());
    assert("home"@ != "headings"@);
    assert("home"@.len() != "hd"@.len());
    assert("home"@ != "hd"@);
    assert("home"@[0] != "text"@[0]);
    assert("home"@ != "text"@);
    assert("home"@.len() != "t"@.len());
    assert("home"@ != "t"@);
    assert("home"@.len() != "history"@.len());
    assert("home"@ != "history"@);
    assert("home"@.len() != "h"@.len());
    assert("home"@ != "h"@);
    assert("home"@.len() != "bookmarks"@.len());
    assert("home"@ != "bookmarks"@);
    assert("home"@.len() != "bm"@.len());
    assert("home"@ != "bm"@);
    assert("home"@.len() != "bookmark"@.len());
    assert("home"@ != "bookmark"@);
    assert("home"@.len() != "delbookmark"@.len());
    assert("home"@ != "delbookmark"@);
    assert("home"@.len() != "dbm"@.len());
    assert("home"@ != "dbm"@);
    assert("home"@.len() != "source"@.len());
    assert("home"@ != "source"@);
    assert("home"@.len() != "src"@.len());
    assert("home"@ != "src"@);
    assert("home"@[0] != "save"@[0]);
    assert("home"@ != "save"@);
    assert("home"@.len() != "url"@.len());
    assert("home"@ != "url"@);
}
/// The command for the word `clear`.
proof fn lemma_word_33(t: Seq<char>)
    ensures
        command_for(t, "clear"@) == CommandView::Clear,
{
    reveal_strlit("go");
    reveal_strlit("g");
    reveal_strlit("open");
    reveal_strlit("navigate");
    reveal_strlit("search");
    reveal_strlit("s");
    reveal_strlit("find");
    reveal_strlit("click");
    reveal_strlit("c");
    reveal_strlit("back");
    reveal_strlit("b");
    reveal_strlit("forward");
    reveal_strlit("f");
    reveal_strlit("refresh");
    reveal_strlit("r");
    reveal_strlit("links");
    reveal_strlit("l");
    reveal_strlit("headings");
    reveal_strlit("hd");
    reveal_strlit("text");
    reveal_strlit("t");
    reveal_strlit("history");
    reveal_strlit("h");
    reveal_strlit("bookmarks");
    reveal_strlit("bm");
    reveal_strlit("bookmark");
    reveal_strlit("delbookmark");
    reveal_strlit("dbm");
    reveal_strlit("source");
    reveal_strlit("src");
    reveal_strlit("save");
    reveal_strlit("url");
    reveal_strlit("home");
    reveal_strlit("clear");
    assert("clear"@.len() != "go"@.len());
    assert("clear"@ != "go"@);
    assert("clear"@.len() != "g"@.len());
    assert("clear"@ != "g"@);
    assert("clear"@.len() != "open"@.len());
    assert("clear"@ != "open"@);
    assert("clear"@.len() != "navigate"@.len());
    assert("clear"@ != "navigate"@);
    assert("clear"@.len() != "search"@.len());
    assert("clear"@ != "search"@);
    assert("clear"@.len() != "s"@.len());
    assert("clear"@ != "s"@);
    assert("clear"@.len() != "find"@.len());
    assert("clear"@ != "find"@);
    assert("clear"@[2] != "click"@[2]);
    assert("clear"@ != "click"@);
    assert("clear"@.len() != "c"@.len());
    assert("clear"@ != "c"@);
    assert("clear"@.len() != "back"@.len());
    assert("clear"@ != "back"@);
    assert("clear"@.len() != "b"@.len());
    assert("clear"@ != "b"@);
    assert("clear"@.len() != "forward"@.len());
    assert("clear"@ != "forward"@);
    assert("clear"@.len() != "f"@.len());
    assert("clear"@ != "f"@);
    assert("clear"@.len() != "refresh"@.len());
    assert("clear"@ != "refresh"@);
    assert("clear"@.len() != "r"@.len());
    assert("clear"@ != "r"@);
    assert("clear"@[0] != "links"@[0]);
    assert("clear"@ != "links"@);
    assert("clear"@.len() != "l"@.len());
    assert("clear"@ != "l"@);
    assert("clear"@.len() != "headings"@.len());
    assert("clear"@ != "headings"@);
    assert("clear"@.len() != "hd"@.len());
    assert("clear"@ != "hd"@);
    assert("clear"@.len() != "text"@.len());
    assert("clear"@ != "text"@);
    assert("clear"@.len() != "t"@.len());
    assert("clear"@ != "t"@);
    assert("clear"@.len() != "history"@.len());
    assert("clear"@ != "history"@);
    assert("clear"@.len() != "h"@.len());
    assert("clear"@ != "h"@);
    assert("clear"@.len() != "bookmarks"@.len());
    assert("clear"@ != "bookmarks"@);
    assert("clear"@.len() != "bm"@.len());
    assert("clear"@ != "bm"@);
    assert("clear"@.len() != "bookmark"@.len());
    assert("clear"@ != "bookmark"@);
    assert("clear"@.len() != "delbookmark"@.len());
    assert("clear"@ != "delbookmark"@);
    assert("clear"@.len() != "dbm"@.len());
    assert("clear"@ != "dbm"@);
    assert("clear"@.len() != "source"@.len());
    assert("clear"@ != "source"@);
    assert("clear"@.len() != "src"@.len());
    assert("clear"@ != "src"@);
    assert("clear"@.len() != "save"@.len());
    assert("clear"@ != "save"@);
    assert("clear"@.len() != "url"@.len());
    assert("clear"@ != "url"@);
    assert("clear"@.len() != "home"@.len());
    assert("clear"@ != "home"@);
}
/// The command for the word `cls`.
proof fn lemma_word_34(t: Seq<char>)
    ensures
        command_for(t, "cls"@) == CommandView::Clear,
{
    reveal_strlit("go");
    reveal_strlit("g");
    reveal_strlit("open");
    reveal_strlit("navigate");
    reveal_strlit("search");
    reveal_strlit("s");
    reveal_strlit("find");
    reveal_strlit("click");
    reveal_strlit("c");
    reveal_strlit("back");
    reveal_strlit("b");
    reveal_strlit("forward");
    reveal_strlit("f");
    reveal_strlit("refresh");
    reveal_strlit("r");
    reveal_strlit("links");
    reveal_strlit("l");
    reveal_strlit("headings");
    reveal_strlit("hd");
    reveal_strlit("text");
    reveal_strlit("t");
    reveal_strlit("history");
    reveal_strlit("h");
    reveal_strlit("bookmarks");
    reveal_strlit("bm");
    reveal_strlit("bookmark");
    reveal_strlit("delbookmark");
    reveal_strlit("dbm");
    reveal_strlit("source");
    reveal_strlit("src");
    reveal_strlit("save");
    reveal_strlit("url");
    reveal_strlit("home");
    reveal_strlit("clear");
    reveal_strlit("cls");
    assert("cls"@.len() != "go"@.len());
    assert("cls"@ != "go"@);
    assert("cls"@.len() != "g"@.len());
    assert("cls"@ != "g"@);
    assert("cls"@.len() != "open"@.len());
    assert("cls"@ != "open"@);
    assert("cls"@.len() != "navigate"@.len());
    assert("cls"@ != "navigate"@);
    assert("cls"@.len() != "search"@.len());
    assert("cls"@ != "search"@);
    assert("cls"@.len() != "s"@.len());
    assert("cls"@ != "s"@);
    assert("cls"@.len() != "find"@.len());
    assert("cls"@ != "find"@);
    assert("cls"@.len() != "click"@.len());
    assert("cls"@ != "click"@);
    assert("cls"@.len() != "c"@.len());
    assert("cls"@ != "c"@);
    assert("cls"@.len() != "back"@.len());
    assert("cls"@ != "back"@);
    assert("cls"@.len() != "b"@.len());
    assert("cls"@ != "b"@);
    assert("cls"@.len() != "forward"@.len());
    assert("cls"@ != "forward"@);
    assert("cls"@.len() != "f"@.len());
    assert("cls"@ != "f"@);
    assert("cls"@.len() != "refresh"@.len());
    assert("cls"@ != "refresh"@);
    assert("cls"@.len() != "r"@.len());
    assert("cls"@ != "r"@);
    assert("cls"@.len() != "links"@.len());
    assert("cls"@ != "links"@);
    assert("cls"@.len() != "l"@.len());
    assert("cls"@ != "l"@);
    assert("cls"@.len() != "headings"@.len());
    assert("cls"@ != "headings"@);
    assert("cls"@.len() != "hd"@.len());
    assert("cls"@ != "hd"@);
    assert("cls"@.len() != "text"@.len());
    assert("cls"@ != "text"@);
    assert("cls"@.len() != "t"@.len());
    assert("cls"@ != "t"@);
    assert("cls"@.len() != "history"@.len());
    assert("cls"@ != "history"@);
    assert("cls"@.len() != "h"@.len());
    assert("cls"@ != "h"@);
    assert("cls"@.len() != "bookmarks"@.len());
    assert("cls"@ != "bookmarks"@);
    assert("cls"@.len() != "bm"@.len());
    assert("cls"@ != "bm"@);
    assert("cls"@.len() != "bookmark"@.len());
    assert("cls"@ != "bookmark"@);
    assert("cls"@.len() != "delbookmark"@.len());
    assert("cls"@ != "delbookmark"@);
    assert("cls"@[0] != "dbm"@[0]);
    assert("cls"@ != "dbm"@);
    assert("cls"@.len() != "source"@.len());
    assert("cls"@ != "source"@);
    assert("cls"@[0] != "src"@[0]);
    assert("cls"@ != "src"@);
    assert("cls"@.len() != "save"@.len());
    assert("cls"@ != "save"@);
    assert("cls"@[0] != "url"@[0]);
    assert("cls"@ != "url"@);
    assert("cls"@.len() != "home"@.len());
    assert("cls"@ != "home"@);
    assert("cls"@.len() != "clear"@.len());
    assert("cls"@ != "clear"@);
}
/// The command for the word `help`.
proof fn lemma_word_35(t: Seq<char>)
    ensures
        command_for(t, "help"@) == CommandView::Help,
{
    reveal_strlit("go");
    reveal_strlit("g");
    reveal_strlit("open");
    reveal_strlit("navigate");
    reveal_strlit("search");
    reveal_strlit("s");
    reveal_strlit("find");
    reveal_strlit("click");
    reveal_strlit("c");
    reveal_strlit("back");
    reveal_strlit("b");
    reveal_strlit("forward");
    reveal_strlit("f");
    reveal_strlit("refresh");
    reveal_strlit("r");
    reveal_strlit("links");
    reveal_strlit("l");
    reveal_strlit("headings");
    reveal_strlit("hd");
    reveal_strlit("text");
    reveal_strlit("t");
    reveal_strlit("history");
    reveal_strlit("h");
    reveal_strlit("bookmarks");
    reveal_strlit("bm");
    reveal_strlit("bookmark");
    reveal_strlit("delbookmark");
    reveal_strlit("dbm");
    reveal_strlit("source");
    reveal_strlit("src");
    reveal_strlit("save");
    reveal_strlit("url");
    reveal_strlit("home");
    reveal_strlit("clear");
    reveal_strlit("cls");
    reveal_strlit("help");
    assert("help"@.len() != "go"@.len());
    assert("help"@ != "go"@);
    assert("help"@.len() != "g"@.len());
    assert("help"@ != "g"@);
    assert("help"@[0] != "open"@[0]);
    assert("help"@ != "open"@);
    assert("help"@.len() != "navigate"@.len());
    assert("help"@ != "navigate"@);
    assert("help"@.len() != "search"@.len());
    assert("help"@ != "search"@);
    assert("help"@.len() != "s"@.len());
    assert("help"@ != "s"@);
    assert("help"@[0] != "find"@[0]);
    assert("help"@ != "find"@);
    assert("help"@.len() != "click"@.len());
    assert("help"@ != "click"@);
    assert("help"@.len() != "c"@.len());
    assert("help"@ != "c"@);
    assert("help"@[0] != "back"@[0]);
    assert("help"@ != "back"@);
    assert("help"@.len() != "b"@.len());
    assert("help"@ != "b"@);
    assert("help"@.len() != "forward"@.len());
    assert("help"@ != "forward"@);
    assert("help"@.len() != "f"@.len());
    assert("help"@ != "f"@);
    assert("help"@.len() != "refresh"@.len());
    assert("help"@ != "refresh"@);
    assert("help"@.len() != "r"@.len());
    assert("help"@ != "r"@);
    assert("help"@.len() != "links"@.len());
    assert("help"@ != "links"@);
    assert("help"@.len() != "l"@.len());
    assert("help"@ != "l"@);
    assert("help"@.len() != "headings"@.len());
    assert("help"@ != "headings"@);
    assert("help"@.len() != "hd"@.len());
    assert("help"@ != "hd"@);
    assert("help"@[0] != "text"@[0]);
    assert("help"@ != "text"@);
    assert("help"@.len() != "t"@.len());
    assert("help"@ != "t"@);
    assert("help"@.len() != "history"@.len());
    assert("help"@ != "history"@);
    assert("help"@.len() != "h"@.len());
    assert("help"@ != "h"@);
    assert("help"@.len() != "bookmarks"@.len());
    assert("help"@ != "bookmarks"@);
    assert("help"@.len() != "bm"@.len());
    assert("help"@ != "bm"@);
    assert("help"@.len() != "bookmark"@.len());
    assert("help"@ != "bookmark"@);
    assert("help"@.len() != "delbookmark"@.len());
    assert("help"@ != "delbookmark"@);
    assert("help"@.len() != "dbm"@.len());
    assert("help"@ != "dbm"@);
    assert("help"@.len() != "source"@.len());
    assert("help"@ != "source"@);
    assert("help"@.len() != "src"@.len());
    assert("help"@ != "src"@);
    assert("help"@[0] != "save"@[0]);
    assert("help"@ != "save"@);
    assert("help"@.len() != "url"@.len());
    assert("help"@ != "url"@);
    assert("help"@[1] != "home"@[1]);
    assert("help"@ != "home"@);
    assert("help"@.len() != "clear"@.len());
    assert("help"@ != "clear"@);
    assert("help"@.len() != "cls"@.len());
    assert("help"@ != "cls"@);
}
/// The command for the word `?`.
proof fn lemma_word_36(t: Seq<char>)
    ensures
        command_for(t, "?"@) == CommandView::Help,
{
    reveal_strlit("go");
    reveal_strlit("g");
    reveal_strlit("open");
    reveal_strlit("navigate");
    reveal_strlit("search");
    reveal_strlit("s");
    reveal_strlit("find");
    reveal_strlit("click");
    reveal_strlit("c");
    reveal_strlit("back");
    reveal_strlit("b");
    reveal_strlit("forward");
    reveal_strlit("f");
    reveal_strlit("refresh");
    reveal_strlit("r");
    reveal_strlit("links");
    reveal_strlit("l");
    reveal_strlit("headings");
    reveal_strlit("hd");
    reveal_strlit("text");
    reveal_strlit("t");
    reveal_strlit("history");
    reveal_strlit("h");
    reveal_strlit("bookmarks");
    reveal_strlit("bm");
    reveal_strlit("bookmark");
    reveal_strlit("delbookmark");
    reveal_strlit("dbm");
    reveal_strlit("source");
    reveal_strlit("src");
    reveal_strlit("save");
    reveal_strlit("url");
    reveal_strlit("home");
    reveal_strlit("clear");
    reveal_strlit("cls");
    reveal_strlit("help");
    reveal_strlit("?");
    assert("?"@.len() != "go"@.len());
    assert("?"@ != "go"@);
    assert("?"@[0] != "g"@[0]);
    assert("?"@ != "g"@);
    assert("?"@.len() != "open"@.len());
    assert("?"@ != "open"@);
    assert("?"@.len() != "navigate"@.len());
    assert("?"@ != "navigate"@);
    assert("?"@.len() != "search"@.len());
    assert("?"@ != "search"@);
    assert("?"@[0] != "s"@[0]);
    assert("?"@ != "s"@);
    assert("?"@.len() != "find"@.len());
    assert("?"@ != "find"@);
    assert("?"@.len() != "click"@.len());
    assert("?"@ != "click"@);
    assert("?"@[0] != "c"@[0]);
    assert("?"@ != "c"@);
    assert("?"@.len() != "back"@.len());
    assert("?"@ != "back"@);
    assert("?"@[0] != "b"@[0]);
    assert("?"@ != "b"@);
    assert("?"@.len() != "forward"@.len());
    assert("?"@ != "forward"@);
    assert("?"@[0] != "f"@[0]);
    assert("?"@ != "f"@);
    assert("?"@.len() != "refresh"@.len());
    assert("?"@ != "refresh"@);
    assert("?"@[0] != "r"@[0]);
    assert("?"@ != "r"@);
    assert("?"@.len() != "links"@.len());
    assert("?"@ != "links"@);
    assert("?"@[0] != "l"@[0]);
    assert("?"@ != "l"@);
    assert("?"@.len() != "headings"@.len());
    assert("?"@ != "headings"@);
    assert("?"@.len() != "hd"@.len());
    assert("?"@ != "hd"@);
    assert("?"@.len() != "text"@.len());
    assert("?"@ != "text"@);
    assert("?"@[0] != "t"@[0]);
    assert("?"@ != "t"@);
    assert("?"@.len() != "history"@.len());
    assert("?"@ != "history"@);
    assert("?"@[0] != "h"@[0]);
    assert("?"@ != "h"@);
    assert("?"@.len() != "bookmarks"@.len());
    assert("?"@ != "bookmarks"@);
    assert("?"@.len() != "bm"@.len());
    assert("?"@ != "bm"@);
    assert("?"@.len() != "bookmark"@.len());
    assert("?"@ != "bookmark"@);
    assert("?"@.len() != "delbookmark"@.len());
    assert("?"@ != "delbookmark"@);
    assert("?"@.len() != "dbm"@.len());
    assert("?"@ != "dbm"@);
    assert("?"@.len() != "source"@.len());
    assert("?"@ != "source"@);
    assert("?"@.len() != "src"@.len());
    assert("?"@ != "src"@);
    assert("?"@.len() != "save"@.len());
    assert("?"@ != "save"@);
    assert("?"@.len() != "url"@.len());
    assert("?"@ != "url"@);
    assert("?"@.len() != "home"@.len());
    assert("?"@ != "home"@);
    assert("?"@.len() != "clear"@.len());
    assert("?"@ != "clear"@);
    assert("?"@.len() != "cls"@.len());
    assert("?"@ != "cls"@);
    assert("?"@.len() != "help"@.len());
    assert("?"@ != "help"@);
}
/// The command for the word `quit`.
proof fn lemma_word_37(t: Seq<char>)
    ensures
        command_for(t, "quit"@) == CommandView::Quit,
{
    reveal_strlit("go");
    reveal_strlit("g");
    reveal_strlit("open");
    reveal_strlit("navigate");
    reveal_strlit("search");
    reveal_strlit("s");
    reveal_strlit("find");
    reveal_strlit("click");
    reveal_strlit("c");
    reveal_strlit("back");
    reveal_strlit("b");
    reveal_strlit("forward");
    reveal_strlit("f");
    reveal_strlit("refresh");
    reveal_strlit("r");
    reveal_strlit("links");
    reveal_strlit("l");
    reveal_strlit("headings");
    reveal_strlit("hd");
    reveal_strlit("text");
    reveal_strlit("t");
    reveal_strlit("history");
    reveal_strlit("h");
    reveal_strlit("bookmarks");
    reveal_strlit("bm");
    reveal_strlit("bookmark");
    reveal_strlit("delbookmark");
    reveal_strlit("dbm");
    reveal_strlit("source");
    reveal_strlit("src");
    reveal_strlit("save");
    reveal_strlit("url");
    reveal_strlit("home");
    reveal_strlit("clear");
    reveal_strlit("cls");
    reveal_strlit("help");
    reveal_strlit("?");
    reveal_strlit("quit");
    assert("quit"@.len() != "go"@.len());
    assert("quit"@ != "go"@);
    assert("quit"@.len() != "g"@.len());
    assert("quit"@ != "g"@);
    assert("quit"@[0] != "open"@[0]);
    assert("quit"@ != "open"@);
    assert("quit"@.len() != "navigate"@.len());
    assert("quit"@ != "navigate"@);
    assert("quit"@.len() != "search"@.len());
    assert("quit"@ != "search"@);
    assert("quit"@.len() != "s"@.len());
    assert("quit"@ != "s"@);
    assert("quit"@[0] != "find"@[0]);
    assert("quit"@ != "find"@);
    assert("quit"@.len() != "click"@.len());
    assert("quit"@ != "click"@);
    assert("quit"@.len() != "c"@.len());
    assert("quit"@ != "c"@);
    assert("quit"@[0] != "back"@[0]);
    assert("quit"@ != "back"@);
    assert("quit"@.len() != "b"@.len());
    assert("quit"@ != "b"@);
    assert("quit"@.len() != "forward"@.len());
    assert("quit"@ != "forward"@);
    assert("quit"@.len() != "f"@.len());
    assert("quit"@ != "f"@);
    assert("quit"@.len() != "refresh"@.len());
    assert("quit"@ != "refresh"@);
    assert("quit"@.len() != "r"@.len());
    assert("quit"@ != "r"@);
    assert("quit"@.len() != "links"@.len());
    assert("quit"@ != "links"@);
    assert("quit"@.len() != "l"@.len());
    assert("quit"@ != "l"@);
    assert("quit"@.len() != "headings"@.len());
    assert("quit"@ != "headings"@);
    assert("quit"@.len() != "hd"@.len());
    assert("quit"@ != "hd"@);
    assert("quit"@[0] != "text"@[0]);
    assert("quit"@ != "text"@);
    assert("quit"@.len() != "t"@.len());
    assert("quit"@ != "t"@);
    assert("quit"@.len() != "history"@.len());
    assert("quit"@ != "history"@);
    assert("quit"@.len() != "h"@.len());
    assert("quit"@ != "h"@);
    assert("quit"@.len() != "bookmarks"@.len());
    assert("quit"@ != "bookmarks"@);
    assert("quit"@.len() != "bm"@.len());
    assert("quit"@ != "bm"@);
    assert("quit"@.len() != "bookmark"@.len());
    assert("quit"@ != "bookmark"@);
    assert("quit"@.len() != "delbookmark"@.len());
    assert("quit"@ != "delbookmark"@);
    assert("quit"@.len() != "dbm"@.len());
    assert("quit"@ != "dbm"@);
    assert("quit"@.len() != "source"@.len());
    assert("quit"@ != "source"@);
    assert("quit"@.len() != "src"@.len());
    assert("quit"@ != "src"@);
    assert("quit"@[0] != "save"@[0]);
    assert("quit"@ != "save"@);
    assert("quit"@.len() != "url"@.len());
    assert("quit"@ != "url"@);
    assert("quit"@[0] != "home"@[0]);
    assert("quit"@ != "home"@);
    assert("quit"@.len() != "clear"@.len());
    assert("quit"@ != "clear"@);
    assert("quit"@.len() != "cls"@.len());
    assert("quit"@ != "cls"@);
    assert("quit"@[0] != "help"@[0]);
    assert("quit"@ != "help"@);
    assert("quit"@.len() != "?"@.len());
    assert("quit"@ != "?"@);
}
/// The command for the word `exit`.
proof fn lemma_word_38(t: Seq<char>)
    ensures
        command_for(t, "exit"@) == CommandView::Quit,
{
    reveal_strlit("go");
    reveal_strlit("g");
    reveal_strlit("open");
    reveal_strlit("navigate");
    reveal_strlit("search");
    reveal_strlit("s");
    reveal_strlit("find");
    reveal_strlit("click");
    reveal_strlit("c");
    reveal_strlit("back");
    reveal_strlit("b");
    reveal_strlit("forward");
    reveal_strlit("f");
    reveal_strlit("refresh");
    reveal_strlit("r");
    reveal_strlit("links");
    reveal_strlit("l");
    reveal_strlit("headings");
    reveal_strlit("hd");
    reveal_strlit("text");
    reveal_strlit("t");
    reveal_strlit("history");
    reveal_strlit("h");
    reveal_strlit("bookmarks");
    reveal_strlit("bm");
    reveal_strlit("bookmark");
    reveal_strlit("delbookmark");
    reveal_strlit("dbm");
    reveal_strlit("source");
    reveal_strlit("src");
    reveal_strlit("save");
    reveal_strlit("url");
    reveal_strlit("home");
    reveal_strlit("clear");
    reveal_strlit("cls");
    reveal_strlit("help");
    reveal_strlit("?");
    reveal_strlit("quit");
    reveal_strlit("exit");
    assert("exit"@.len() != "go"@.len());
    assert("exit"@ != "go"@);
    assert("exit"@.len() != "g"@.len());
    assert("exit"@ != "g"@);
    assert("exit"@[0] != "open"@[0]);
    assert("exit"@ != "open"@);
    assert("exit"@.len() != "navigate"@.len());
    assert("exit"@ != "navigate"@);
    assert("exit"@.len() != "search"@.len());
    assert("exit"@ != "search"@);
    assert("exit"@.len() != "s"@.len());
    assert("exit"@ != "s"@);
    assert("exit"@[0] != "find"@[0]);
    assert("exit"@ != "find"@);
    assert("exit"@.len() != "click"@.len());
    assert("exit"@ != "click"@);
    assert("exit"@.len() != "c"@.len());
    assert("exit"@ != "c"@);
    assert("exit"@[0] != "back"@[0]);
    assert("exit"@ != "back"@);
    assert("exit"@.len() != "b"@.len());
    assert("exit"@ != "b"@);
    assert("exit"@.len() != "forward"@.len());
    assert("exit"@ != "forward"@);
    assert("exit"@.len() != "f"@.len());
    assert("exit"@ != "f"@);
    assert("exit"@.len() != "refresh"@.len());
    assert("exit"@ != "refresh"@);
    assert("exit"@.len() != "r"@.len());
    assert("exit"@ != "r"@);
    assert("exit"@.len() != "links"@.len());
    assert("exit"@ != "links"@);
    assert("exit"@.len() != "l"@.len());
    assert("exit"@ != "l"@);
    assert("exit"@.len() != "headings"@.len());
    assert("exit"@ != "headings"@);
    assert("exit"@.len() != "hd"@.len());
    assert("exit"@ != "hd"@);
    assert("exit"@[0] != "text"@[0]);
    assert("exit"@ != "text"@);
    assert("exit"@.len() != "t"@.len());
    assert("exit"@ != "t"@);
    assert("exit"@.len() != "history"@.len());
    assert("exit"@ != "history"@);
    assert("exit"@.len() != "h"@.len());
    assert("exit"@ != "h"@);
    assert("exit"@.len() != "bookmarks"@.len());
    assert("exit"@ != "bookmarks"@);
    assert("exit"@.len() != "bm"@.len());
    assert("exit"@ != "bm"@);
    assert("exit"@.len() != "bookmark"@.len());
    assert("exit"@ != "bookmark"@);
    assert("exit"@.len() != "delbookmark"@.len());
    assert("exit"@ != "delbookmark"@);
    assert("exit"@.len() != "dbm"@.len());
    assert("exit"@ != "dbm"@);
    assert("exit"@.len() != "source"@.len());
    assert("exit"@ != "source"@);
    assert("exit"@.len() != "src"@.len());
    assert("exit"@ != "src"@);
    assert("exit"@[0] != "save"@[0]);
    assert("exit"@ != "save"@);
    assert("exit"@.len() != "url"@.len());
    assert("exit"@ != "url"@);
    assert("exit"@[0] != "home"@[0]);
    assert("exit"@ != "home"@);
    assert("exit"@.len() != "clear"@.len());
    assert("exit"@ != "clear"@);
    assert("exit"@.len() != "cls"@.len());
    assert("exit"@ != "cls"@);
    assert("exit"@[0] != "help"@[0]);
    assert("exit"@ != "help"@);
    assert("exit"@.len() != "?"@.len());
    assert("exit"@ != "?"@);
    assert("exit"@[0] != "quit"@[0]);
    assert("exit"@ != "quit"@);
}
/// The command for the word `q`.
proof fn lemma_word_39(t: Seq<char>)
    ensures
        command_for(t, "q"@) == CommandView::Quit,
{
    reveal_strlit("go");
    reveal_strlit("g");
    reveal_strlit("open");
    reveal_strlit("navigate");
    reveal_strlit("search");
    reveal_strlit("s");
    reveal_strlit("find");
    reveal_strlit("click");
    reveal_strlit("c");
    reveal_strlit("back");
    reveal_strlit("b");
    reveal_strlit("forward");
    reveal_strlit("f");
    reveal_strlit("refresh");
    reveal_strlit("r");
    reveal_strlit("links");
    reveal_strlit("l");
    reveal_strlit("headings");
    reveal_strlit("hd");
    reveal_strlit("text");
    reveal_strlit("t");
    reveal_strlit("history");
    reveal_strlit("h");
    reveal_strlit("bookmarks");
    reveal_strlit("bm");
    reveal_strlit("bookmark");
    reveal_strlit("delbookmark");
    reveal_strlit("dbm");
    reveal_strlit("source");
    reveal_strlit("src");
    reveal_strlit("save");
    reveal_strlit("url");
    reveal_strlit("home");
    reveal_strlit("clear");
    reveal_strlit("cls");
    reveal_strlit("help");
    reveal_strlit("?");
    reveal_strlit("quit");
    reveal_strlit("exit");
    reveal_strlit("q");
    assert("q"@.len() != "go"@.len());
    assert("q"@ != "go"@);
    assert("q"@[0] != "g"@[0]);
    assert("q"@ != "g"@);
    assert("q"@.len() != "open"@.len());
    assert("q"@ != "open"@);
    assert("q"@.len() != "navigate"@.len());
    assert("q"@ != "navigate"@);
    assert("q"@.len() != "search"@.len());
    assert("q"@ != "search"@);
    assert("q"@[0] != "s"@[0]);
    assert("q"@ != "s"@);
    assert("q"@.len() != "find"@.len());
    assert("q"@ != "find"@);
    assert("q"@.len() != "click"@.len());
    assert("q"@ != "click"@);
    assert("q"@[0] != "c"@[0]);
    assert("q"@ != "c"@);
    assert("q"@.len() != "back"@.len());
    assert("q"@ != "back"@);
    assert("q"@[0] != "b"@[0]);
    assert("q"@ != "b"@);
    assert("q"@.len() != "forward"@.len());
    assert("q"@ != "forward"@);
    assert("q"@[0] != "f"@[0]);
    assert("q"@ != "f"@);
    assert("q"@.len() != "refresh"@.len());
    assert("q"@ != "refresh"@);
    assert("q"@[0] != "r"@[0]);
    assert("q"@ != "r"@);
    assert("q"@.len() != "links"@.len());
    assert("q"@ != "links"@);
    assert("q"@[0] != "l"@[0]);
    assert("q"@ != "l"@);
    assert("q"@.len() != "headings"@.len());
    assert("q"@ != "headings"@);
    assert("q"@.len() != "hd"@.len());
    assert("q"@ != "hd"@);
    assert("q"@.len() != "text"@.len());
    assert("q"@ != "text"@);
    assert("q"@[0] != "t"@[0]);
    assert("q"@ != "t"@);
    assert("q"@.len() != "history"@.len());
    assert("q"@ != "history"@);
    assert("q"@[0] != "h"@[0]);
    assert("q"@ != "h"@);
    assert("q"@.len() != "bookmarks"@.len());
    assert("q"@ != "bookmarks"@);
    assert("q"@.len() != "bm"@.len());
    assert("q"@ != "bm"@);
    assert("q"@.len() != "bookmark"@.len());
    assert("q"@ != "bookmark"@);
    assert("q"@.len() != "delbookmark"@.len());
    assert("q"@ != "delbookmark"@);
    assert("q"@.len() != "dbm"@.len());
    assert("q"@ != "dbm"@);
    assert("q"@.len() != "source"@.len());
    assert("q"@ != "source"@);
    assert("q"@.len() != "src"@.len());
    assert("q"@ != "src"@);
    assert("q"@.len() != "save"@.len());
    assert("q"@ != "save"@);
    assert("q"@.len() != "url"@.len());
    assert("q"@ != "url"@);
    assert("q"@.len() != "home"@.len());
    assert("q"@ != "home"@);
    assert("q"@.len() != "clear"@.len());
    assert("q"@ != "clear"@);
    assert("q"@.len() != "cls"@.len());
    assert("q"@ != "cls"@);
    assert("q"@.len() != "help"@.len());
    assert("q"@ != "help"@);
    assert("q"@[0] != "?"@[0]);
    assert("q"@ != "?"@);
    assert("q"@.len() != "quit"@.len());
    assert("q"@ != "quit"@);
    assert("q"@.len() != "exit"@.len());
    assert("q"@ != "exit"@);
}

/// Typed alone, in any ASCII case and with any white space around it, each word of
/// the command table gives its command: the commands that need an argument give
/// their usage message, `bookmark` gives the `Untitled` bookmark, and every other
/// word (or its shortcut) gives the command it names. For ASCII input this is what
/// `parse_command` returns.
pub proof fn lemma_command_words(input: Seq<char>)
    ensures
        ({
            let w = ascii_lowercase(trim_spec(input));
            &&& (w == "go"@ || w == "g"@ || w == "open"@ || w == "navigate"@) ==> ascii_command_of(input) == CommandView::Unknown("Usage: go <url>"@)
            &&& (w == "search"@ || w == "s"@ || w == "find"@) ==> ascii_command_of(input) == CommandView::Unknown("Usage: search <query>"@)
            &&& (w == "click"@ || w == "c"@) ==> ascii_command_of(input) == CommandView::Unknown("Usage: click <#>"@)
            &&& (w == "back"@ || w == "b"@) ==> ascii_command_of(input) == CommandView::Back
            &&& (w == "forward"@ || w == "f"@) ==> ascii_command_of(input) == CommandView::Forward
            &&& (w == "refresh"@ || w == "r"@) ==> ascii_command_of(input) == CommandView::Refresh
            &&& (w == "links"@ || w == "l"@) ==> ascii_command_of(input) == CommandView::Links
            &&& (w == "headings"@ || w == "hd"@) ==> ascii_command_of(input) == CommandView::Headings
            &&& (w == "text"@ || w == "t"@) ==> ascii_command_of(input) == CommandView::Text
            &&& (w == "history"@ || w == "h"@) ==> ascii_command_of(input) == CommandView::History
            &&& (w == "bookmarks"@ || w == "bm"@) ==> ascii_command_of(input) == CommandView::Bookmarks
            &&& (w == "bookmark"@) ==> ascii_command_of(input) == CommandView::Bookmark("Untitled"@)
            &&& (w == "delbookmark"@ || w == "dbm"@) ==> ascii_command_of(input) == CommandView::Unknown("Usage: delbookmark <#>"@)
            &&& (w == "source"@ || w == "src"@) ==> ascii_command_of(input) == CommandView::Source
            &&& (w == "save"@) ==> ascii_command_of(input) == CommandView::Unknown("Usage: save <file>"@)
            &&& (w == "url"@) ==> ascii_command_of(input) == CommandView::Url
            &&& (w == "home"@) ==> ascii_command_of(input) == CommandView::Home
            &&& (w == "clear"@ || w == "cls"@) ==> ascii_command_of(input) == CommandView::Clear
            &&& (w == "help"@ || w == "?"@) ==> ascii_command_of(input) == CommandView::Help
            &&& (w == "quit"@ || w == "exit"@ || w == "q"@) ==> ascii_command_of(input) == CommandView::Quit
        }),
{
    let w = ascii_lowercase(trim_spec(input));
    if w == "go"@ {
        reveal_strlit("go");
        lemma_single_word(input, "go"@);
        lemma_word_0(trim_spec(input));
    }
    if w == "g"@ {
        reveal_strlit("g");
        lemma_single_word(input, "g"@);
        lemma_word_1(trim_spec(input));
    }
    if w == "open"@ {
        reveal_strlit("open");
        lemma_single_word(input, "open"@);
        lemma_word_2(trim_spec(input));
    }
    if w == "navigate"@ {
        reveal_strlit("navigate");
        lemma_single_word(input, "navigate"@);
        lemma_word_3(trim_spec(input));
    }
    if w == "search"@ {
        reveal_strlit("search");
        lemma_single_word(input, "search"@);
        lemma_word_4(trim_spec(input));
    }
    if w == "s"@ {
        reveal_strlit("s");
        lemma_single_word(input, "s"@);
        lemma_word_5(trim_spec(input));
    }
    if w == "find"@ {
        reveal_strlit("find");
        lemma_single_word(input, "find"@);
        lemma_word_6(trim_spec(input));
    }
    if w == "click"@ {
        reveal_strlit("click");
        lemma_single_word(input, "click"@);
        lemma_word_7(trim_spec(input));
    }
    if w == "c"@ {
        reveal_strlit("c");
        lemma_single_word(input, "c"@);
        lemma_word_8(trim_spec(input));
    }
    if w == "back"@ {
        reveal_strlit("back");
        lemma_single_word(input, "back"@);
        lemma_word_9(trim_spec(input));
    }
    if w == "b"@ {
        reveal_strlit("b");
        lemma_single_word(input, "b"@);
        lemma_word_10(trim_spec(input));
    }
    if w == "forward"@ {
        reveal_strlit("forward");
        lemma_single_word(input, "forward"@);
        lemma_word_11(trim_spec(input));
    }
    if w == "f"@ {
        reveal_strlit("f");
        lemma_single_word(input, "f"@);
        lemma_word_12(trim_spec(input));
    }
    if w == "refresh"@ {
        reveal_strlit("refresh");
        lemma_single_word(input, "refresh"@);
        lemma_word_13(trim_spec(input));
    }
    if w == "r"@ {
        reveal_strlit("r");
        lemma_single_word(input, "r"@);
        lemma_word_14(trim_spec(input));
    }
    if w == "links"@ {
        reveal_strlit("links");
        lemma_single_word(input, "links"@);
        lemma_word_15(trim_spec(input));
    }
    if w == "l"@ {
        reveal_strlit("l");
        lemma_single_word(input, "l"@);
        lemma_word_16(trim_spec(input));
    }
    if w == "headings"@ {
        reveal_strlit("headings");
        lemma_single_word(input, "headings"@);
        lemma_word_17(trim_spec(input));
    }
    if w == "hd"@ {
        reveal_strlit("hd");
        lemma_single_word(input, "hd"@);
        lemma_word_18(trim_spec(input));
    }
    if w == "text"@ {
        reveal_strlit("text");
        lemma_single_word(input, "text"@);
        lemma_word_19(trim_spec(input));
    }
    if w == "t"@ {
        reveal_strlit("t");
        lemma_single_word(input, "t"@);
        lemma_word_20(trim_spec(input));
    }
    if w == "history"@ {
        reveal_strlit("history");
        lemma_single_word(input, "history"@);
        lemma_word_21(trim_spec(input));
    }
    if w == "h"@ {
        reveal_strlit("h");
        lemma_single_word(input, "h"@);
        lemma_word_22(trim_spec(input));
    }
    if w == "bookmarks"@ {
        reveal_strlit("bookmarks");
        lemma_single_word(input, "bookmarks"@);
        lemma_word_23(trim_spec(input));
    }
    if w == "bm"@ {
        reveal_strlit("bm");
        lemma_single_word(input, "bm"@);
        lemma_word_24(trim_spec(input));
    }
    if w == "bookmark"@ {
        reveal_strlit("bookmark");
        lemma_single_word(input, "bookmark"@);
        lemma_word_25(trim_spec(input));
    }
    if w == "delbookmark"@ {
        reveal_strlit("delbookmark");
        lemma_single_word(input, "delbookmark"@);
        lemma_word_26(trim_spec(input));
    }
    if w == "dbm"@ {
        reveal_strlit("dbm");
        lemma_single_word(input, "dbm"@);
        lemma_word_27(trim_spec(input));
    }
    if w == "source"@ {
        reveal_strlit("source");
        lemma_single_word(input, "source"@);
        lemma_word_28(trim_spec(input));
    }
    if w == "src"@ {
        reveal_strlit("src");
        lemma_single_word(input, "src"@);
        lemma_word_29(trim_spec(input));
    }
    if w == "save"@ {
        reveal_strlit("save");
        lemma_single_word(input, "save"@);
        lemma_word_30(trim_spec(input));
    }
    if w == "url"@ {
        reveal_strlit("url");
        lemma_single_word(input, "url"@);
        lemma_word_31(trim_spec(input));
    }
    if w == "home"@ {
        reveal_strlit("home");
        lemma_single_word(input, "home"@);
        lemma_word_32(trim_spec(input));
    }
    if w == "clear"@ {
        reveal_strlit("clear");
        lemma_single_word(input, "clear"@);
        lemma_word_33(trim_spec(input));
    }
    if w == "cls"@ {
        reveal_strlit("cls");
        lemma_single_word(input, "cls"@);
        lemma_word_34(trim_spec(input));
    }
    if w == "help"@ {
        reveal_strlit("help");
        lemma_single_word(input, "help"@);
        lemma_word_35(trim_spec(input));
    }
    if w == "?"@ {
        reveal_strlit("?");
        lemma_single_word(input, "?"@);
        lemma_word_36(trim_spec(input));
    }
    if w == "quit"@ {
        reveal_strlit("quit");
        lemma_single_word(input, "quit"@);
        lemma_word_37(trim_spec(input));
    }
    if w == "exit"@ {
        reveal_strlit("exit");
        lemma_single_word(input, "exit"@);
        lemma_word_38(trim_spec(input));
    }
    if w == "q"@ {
        reveal_strlit("q");
        lemma_single_word(input, "q"@);
        lemma_word_39(trim_spec(input));
    }
}

/// A line made of a command word, a space and a non-blank rest carries the trimmed
/// rest as its argument: in any ASCII case, `go`/`g`/`open`/`navigate` navigate to it,
/// `search`/`s`/`find` search for it, `click`/`c` follow it, `bookmark` bookmarks
/// under it, `delbookmark`/`dbm` delete it and `save` saves to it.
pub proof fn lemma_command_with_argument(input: Seq<char>, word: Seq<char>, rest: Seq<char>)
    requires
        trim_spec(input) == word + seq![' '] + rest,
        forall|k: int| 0 <= k < word.len() ==> #[trigger] word[k] != ' ',
        trim_spec(rest).len() > 0,
    ensures
        ({
            let w = ascii_lowercase(word);
            &&& (w == "go"@ || w == "g"@ || w == "open"@ || w == "navigate"@) ==> ascii_command_of(input) == CommandView::Go(trim_spec(rest))
            &&& (w == "search"@ || w == "s"@ || w == "find"@) ==> ascii_command_of(input) == CommandView::Search(trim_spec(rest))
            &&& (w == "click"@ || w == "c"@) ==> ascii_command_of(input) == CommandView::Click(trim_spec(rest))
            &&& (w == "bookmark"@) ==> ascii_command_of(input) == CommandView::Bookmark(trim_spec(rest))
            &&& (w == "delbookmark"@ || w == "dbm"@) ==> ascii_command_of(input) == CommandView::DelBookmark(trim_spec(rest))
            &&& (w == "save"@) ==> ascii_command_of(input) == CommandView::Save(trim_spec(rest))
        }),
{
    let t = trim_spec(input);
    let w = ascii_lowercase(word);
    assert forall|k: int| 0 <= k < word.len() implies #[trigger] t[k] != ' ' by {
        assert(t[k] == word[k]);
    }
    assert(t[word.len() as int] == ' ');
    lemma_find_char(t, ' ', word.len() as int);
    assert(t.take(word.len() as int) =~= word);
    assert(t.skip(word.len() as int + 1) =~= rest);
    assert(command_word(t) == word);
    assert(command_arg(t) == trim_spec(rest));
    assert(ascii_command_of(input) == command_for(t, w));
    if w == "go"@ {
        lemma_word_0(t);
    }
    if w == "g"@ {
        lemma_word_1(t);
    }
    if w == "open"@ {
        lemma_word_2(t);
    }
    if w == "navigate"@ {
        lemma_word_3(t);
    }
    if w == "search"@ {
        lemma_word_4(t);
    }
    if w == "s"@ {
        lemma_word_5(t);
    }
    if w == "find"@ {
        lemma_word_6(t);
    }
    if w == "click"@ {
        lemma_word_7(t);
    }
    if w == "c"@ {
        lemma_word_8(t);
    }
    if w == "bookmark"@ {
        lemma_word_25(t);
    }
    if w == "delbookmark"@ {
        lemma_word_26(t);
    }
    if w == "dbm"@ {
        lemma_word_27(t);
    }
    if w == "save"@ {
        lemma_word_30(t);
    }
}

} // verus!
