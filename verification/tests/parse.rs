use tiny_cmd::cmd::connect::split_port;
use tiny_cmd::cmd::msg::{is_nick_first_char, split_first_word, split_msg_args};
use tiny_cmd::registry::{cmds, find_cmd, parse_cmd, CmdKind, ParseError, ParsedCmd};
use tiny_cmd::text::{
    decimal_string, is_whitespace, join_strings, pad_to, split_char, split_words, str_eq,
    to_chars, trim_str,
};

#[test]
fn test_parse_cmd() {
    let ParsedCmd { cmd, args } = parse_cmd("msg NickServ identify notMyPassword").unwrap();
    assert_eq!(cmd.name, "msg");
    assert_eq!(args, "NickServ identify notMyPassword");

    let ParsedCmd { cmd, args } = parse_cmd("join #foo").unwrap();
    assert_eq!(cmd.name, "join");
    assert_eq!(args, "#foo");
}

#[test]
fn test_msg_args() {
    assert_eq!(split_msg_args("foo,bar"), None);
    assert_eq!(split_msg_args("foo bar"), Some(("foo", "bar")));
    assert_eq!(split_msg_args("foo, bar"), Some(("foo,", "bar"))); // nick not valid according to RFC but whatever
    assert_eq!(split_msg_args("foo ,bar"), Some(("foo", ",bar")));
    assert_eq!(split_msg_args("#blah blah"), None);
}

#[test]
fn parse_single_word_has_empty_tail() {
    for kind_name in ["away", "close", "connect", "join", "me", "msg", "names", "nick", "help"] {
        let ParsedCmd { cmd, args } = parse_cmd(kind_name).unwrap();
        assert_eq!(cmd.name, kind_name);
        assert_eq!(args, "");
    }
    let ParsedCmd { cmd, args } = parse_cmd("  help \t ").unwrap();
    assert_eq!(cmd.kind, CmdKind::Help);
    assert_eq!(args, "");
}

#[test]
fn parse_keeps_the_tail_as_typed() {
    let ParsedCmd { cmd, args } = parse_cmd("  me   waves  at\tyou  ").unwrap();
    assert_eq!(cmd.kind, CmdKind::Me);
    assert_eq!(args, "waves  at\tyou  ");
    let ParsedCmd { args, .. } = parse_cmd("msg\u{a0}\u{3000}nick, hello,  world").unwrap();
    assert_eq!(args, "nick, hello,  world");
}

#[test]
fn parse_tells_empty_from_unknown() {
    assert_eq!(parse_cmd(""), Err(ParseError::Empty));
    assert_eq!(parse_cmd(" \t\n "), Err(ParseError::Empty));
    assert_eq!(parse_cmd("xyz"), Err(ParseError::NotFound { name: "xyz" }));
    assert_eq!(parse_cmd("  xyz abc"), Err(ParseError::NotFound { name: "xyz" }));
    assert_eq!(parse_cmd("Help"), Err(ParseError::NotFound { name: "Help" }));
    assert_eq!(parse_cmd("helpme"), Err(ParseError::NotFound { name: "helpme" }));
}

#[test]
fn registry_order_and_lookup() {
    let all = cmds();
    let names: Vec<&str> = all.iter().map(|c| c.name).collect();
    assert_eq!(
        names,
        vec!["away", "close", "connect", "join", "me", "msg", "names", "nick", "help"]
    );
    for (i, c) in all.iter().enumerate() {
        assert_eq!(find_cmd(c.name), Some(*c));
        assert_eq!(all.iter().position(|d| d.name == c.name), Some(i));
    }
    assert_eq!(find_cmd("quit"), None);
    assert_eq!(find_cmd(""), None);
    let join = find_cmd("join").unwrap();
    assert_eq!(join.kind, CmdKind::Join);
    assert_eq!(join.description, "Joins a channel");
    assert_eq!(
        join.usage,
        "/join <chan1> [-ignore] [-notify [off|mentions|messages]],<chan2>... | /join"
    );
    assert_eq!(find_cmd("connect").unwrap().usage, "/connect <host>:<port> | /connect");
}

#[test]
fn whitespace_is_what_std_calls_whitespace() {
    let mut n: u32 = 0;
    while n <= 0x10FFFF {
        if let Some(c) = char::from_u32(n) {
            assert_eq!(is_whitespace(c), c.is_whitespace(), "code point {:#x}", n);
        }
        n += 1;
    }
}

#[test]
fn words_are_what_std_splits() {
    for s in [
        "",
        " ",
        "a",
        " a ",
        "irc.example.org:6697",
        "irc.example.org:6697 secret",
        "  a\tb \u{2003} c\n",
        "one two three four",
        "\u{a0}x\u{a0}",
    ] {
        let expected: Vec<&str> = s.split_whitespace().collect();
        assert_eq!(split_words(s), expected, "{:?}", s);
    }
}

#[test]
fn trim_and_split_are_what_std_does() {
    for s in ["", " ", "a", " a ", "\t#a -ignore \n", " , ", "#a,#b", "#a, #b ,", ",,"] {
        assert_eq!(trim_str(s), s.trim(), "{:?}", s);
        let expected: Vec<&str> = s.split(',').collect();
        assert_eq!(split_char(s, ','), expected, "{:?}", s);
    }
    assert_eq!(split_char("", ','), vec![""]);
    assert_eq!(split_char("#a,", ','), vec!["#a", ""]);
}

#[test]
fn text_helpers() {
    assert_eq!(to_chars("a\u{e9}\u{65e5}"), vec!['a', '\u{e9}', '\u{65e5}']);
    assert!(str_eq("abc", "abc"));
    assert!(!str_eq("abc", "abd"));
    assert!(!str_eq("abc", "ab"));
    assert!(str_eq("", ""));
    for n in [0usize, 7, 9, 10, 11, 99, 100, 255, 65535, 1234567890, usize::MAX] {
        assert_eq!(decimal_string(n), n.to_string());
    }
    assert_eq!(pad_to("me", 10), "me        ");
    assert_eq!(pad_to("me", 10), format!("{:<10}", "me"));
    assert_eq!(pad_to("connect", 7), "connect");
    assert_eq!(pad_to("connect", 3), "connect");
    assert_eq!(pad_to("", 2), "  ");
    let nicks = vec!["a".to_string(), "b".to_string(), "c".to_string()];
    assert_eq!(join_strings(&nicks, ", "), "a, b, c");
    assert_eq!(join_strings(&nicks[..1].to_vec(), ", "), "a");
    assert_eq!(join_strings(&Vec::new(), ", "), "");
}

#[test]
fn nick_first_chars() {
    for c in ['a', 'Z', '\u{e9}', '\u{65e5}', '[', '\\', ']', '^', '_', '`', '{', '|', '}'] {
        assert!(is_nick_first_char(c), "{:?}", c);
    }
    for c in ['#', '&', '+', '!', '0', '9', '-', ' ', '@', '~', ':', ','] {
        assert!(!is_nick_first_char(c), "{:?}", c);
    }
}

#[test]
fn msg_args_skip_the_whole_gap() {
    assert_eq!(split_msg_args(""), None);
    assert_eq!(split_msg_args("foo"), None);
    assert_eq!(split_msg_args("foo "), Some(("foo", "")));
    assert_eq!(split_msg_args("foo   "), Some(("foo", "")));
    assert_eq!(split_msg_args("foo   bar  baz "), Some(("foo", "bar  baz ")));
    assert_eq!(split_msg_args("foo\u{a0}bar"), Some(("foo", "bar")));
    assert_eq!(split_msg_args(" foo bar"), None);
    assert_eq!(split_msg_args("[bot] hi"), Some(("[bot]", "hi")));
    assert_eq!(split_msg_args("9lives hi"), None);
    assert_eq!(split_first_word("#blah blah"), Some(("#blah", "blah")));
    assert_eq!(split_first_word(" a b"), Some((" a", "b")));
    assert_eq!(split_first_word(""), None);
}

#[test]
fn host_and_port_split_at_first_colon() {
    assert_eq!(split_port("irc.example.org:6697"), Some(("irc.example.org", "6697")));
    assert_eq!(split_port("irc.example.org"), None);
    assert_eq!(split_port(":"), Some(("", "")));
    assert_eq!(split_port("a:b:c"), Some(("a", "b:c")));
    assert_eq!(split_port(""), None);
}
