use crustbrowser::utilts::{parse_command, Command};

fn arg(c: Command) -> (String, String) {
    match c {
        Command::Go(a) => ("go".into(), a),
        Command::Search(a) => ("search".into(), a),
        Command::Bookmark(a) => ("bookmark".into(), a),
        Command::DelBookmark(a) => ("delbookmark".into(), a),
        Command::Click(a) => ("click".into(), a),
        Command::Save(a) => ("save".into(), a),
        Command::Unknown(a) => ("unknown".into(), a),
        _ => ("other".into(), String::new()),
    }
}

#[test]
fn go_takes_trimmed_url() {
    assert_eq!(arg(parse_command("  go   https://example.com  \n")), ("go".into(), "https://example.com".into()));
    assert_eq!(arg(parse_command("OPEN example.com")), ("go".into(), "example.com".into()));
    assert_eq!(arg(parse_command("navigate a b")), ("go".into(), "a b".into()));
    assert_eq!(arg(parse_command("g x.org")), ("go".into(), "x.org".into()));
}

#[test]
fn missing_arguments_give_usage() {
    assert_eq!(arg(parse_command("go")), ("unknown".into(), "Usage: go <url>".into()));
    assert_eq!(arg(parse_command("search   ")), ("unknown".into(), "Usage: search <query>".into()));
    assert_eq!(arg(parse_command("click")), ("unknown".into(), "Usage: click <#>".into()));
    assert_eq!(arg(parse_command("dbm")), ("unknown".into(), "Usage: delbookmark <#>".into()));
    assert_eq!(arg(parse_command("save")), ("unknown".into(), "Usage: save <file>".into()));
    assert_eq!(arg(parse_command("bookmark")), ("bookmark".into(), "Untitled".into()));
}

#[test]
fn search_and_bookmark_arguments() {
    assert_eq!(arg(parse_command("find rust verus")), ("search".into(), "rust verus".into()));
    assert_eq!(arg(parse_command("s q")), ("search".into(), "q".into()));
    assert_eq!(arg(parse_command("bookmark My Page")), ("bookmark".into(), "My Page".into()));
    assert_eq!(arg(parse_command("c 3")), ("click".into(), "3".into()));
    assert_eq!(arg(parse_command("save page.txt")), ("save".into(), "page.txt".into()));
}

#[test]
fn plain_commands_and_shortcuts() {
    assert!(matches!(parse_command("back"), Command::Back));
    assert!(matches!(parse_command("B"), Command::Back));
    assert!(matches!(parse_command("forward"), Command::Forward));
    assert!(matches!(parse_command("r"), Command::Refresh));
    assert!(matches!(parse_command("links"), Command::Links));
    assert!(matches!(parse_command("hd"), Command::Headings));
    assert!(matches!(parse_command("t"), Command::Text));
    assert!(matches!(parse_command("History"), Command::History));
    assert!(matches!(parse_command("bm"), Command::Bookmarks));
    assert!(matches!(parse_command("src"), Command::Source));
    assert!(matches!(parse_command("url"), Command::Url));
    assert!(matches!(parse_command("home"), Command::Home));
    assert!(matches!(parse_command("cls"), Command::Clear));
    assert!(matches!(parse_command("?"), Command::Help));
    assert!(matches!(parse_command("HELP"), Command::Help));
    assert!(matches!(parse_command("quit"), Command::Quit));
    assert!(matches!(parse_command("exit"), Command::Quit));
    assert!(matches!(parse_command(" q "), Command::Quit));
}

#[test]
fn unknown_command_keeps_trimmed_line() {
    assert_eq!(arg(parse_command("  fly me to the moon ")), ("unknown".into(), "fly me to the moon".into()));
    assert_eq!(arg(parse_command("")), ("unknown".into(), "".into()));
    // Only a plain space separates the command from its argument.
    assert_eq!(arg(parse_command("go\thttps://x.org")), ("unknown".into(), "go\thttps://x.org".into()));
}

#[test]
fn outer_space_does_not_change_command() {
    for line in ["go example.com", "search a  b", "bookmark", "whatever", "q"] {
        let padded = format!(" \t{}\u{a0} \n", line);
        assert_eq!(arg(parse_command(&padded)), arg(parse_command(line)));
    }
}

#[test]
fn ascii_command_words_ignore_case() {
    assert!(matches!(parse_command("HeLp"), Command::Help));
    assert!(matches!(parse_command("BOOKMARKS"), Command::Bookmarks));
    assert_eq!(arg(parse_command("GO Example.COM")), ("go".into(), "Example.COM".into()));
}
