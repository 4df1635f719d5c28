use tiny_cmd::source::MsgSource;
use tiny_cmd::tab::{columns_to_width, tab_style, Cell, Colors, Style, Tab, TabStyle, TB_UNDERLINE};

fn colors() -> Colors {
    Colors {
        tab_active: Style { fg: 1, bg: 2 },
        tab_normal: Style { fg: 3, bg: 4 },
        tab_joinpart: Style { fg: 5, bg: 6 },
        tab_new_msg: Style { fg: 7, bg: 8 },
        tab_highlight: Style { fg: 9, bg: 10 },
    }
}

fn tab(name: &str, style: TabStyle, switch: Option<char>) -> Tab<u8> {
    Tab {
        visible_name: name.to_string(),
        widget: 42,
        src: MsgSource::Serv { serv: name.to_string() },
        style,
        switch,
    }
}

#[test]
fn style_follows_the_tab() {
    let c = colors();
    assert_eq!(tab_style(TabStyle::Normal, &c), c.tab_normal);
    assert_eq!(tab_style(TabStyle::JoinOrPart, &c), c.tab_joinpart);
    assert_eq!(tab_style(TabStyle::NewMsg, &c), c.tab_new_msg);
    assert_eq!(tab_style(TabStyle::Highlight, &c), c.tab_highlight);
}

#[test]
fn draw_underlines_the_first_switch_character_only() {
    let t = tab("#tiny-t", TabStyle::NewMsg, Some('t'));
    let cells = t.draw(&colors(), 10, 3, false);
    let expected: Vec<Cell> = "#tiny-t"
        .chars()
        .enumerate()
        .map(|(i, ch)| Cell {
            x: 10 + i as i32,
            y: 3,
            ch,
            fg: if i == 1 { 7 | TB_UNDERLINE } else { 7 },
            bg: 8,
        })
        .collect();
    assert_eq!(cells, expected);
    assert_eq!(TB_UNDERLINE, 0x0200);
    assert_eq!(cells[1].fg, 0x0207);
}

#[test]
fn draw_uses_the_active_style_for_the_active_tab() {
    let t = tab("ab", TabStyle::Highlight, None);
    assert_eq!(
        t.draw(&colors(), -1, 0, true),
        vec![
            Cell { x: -1, y: 0, ch: 'a', fg: 1, bg: 2 },
            Cell { x: 0, y: 0, ch: 'b', fg: 1, bg: 2 },
        ]
    );
    assert_eq!(
        t.draw(&colors(), 0, 7, false),
        vec![
            Cell { x: 0, y: 7, ch: 'a', fg: 9, bg: 10 },
            Cell { x: 1, y: 7, ch: 'b', fg: 9, bg: 10 },
        ]
    );
    assert_eq!(tab("", TabStyle::Normal, Some('a')).draw(&colors(), 0, 0, false), vec![]);
}

#[test]
fn draw_is_case_sensitive_and_takes_one_cell_for_each_character() {
    let t = tab("T\u{65e5}t", TabStyle::Normal, Some('t'));
    let cells = t.draw(&colors(), i32::MAX - 3, 0, false);
    assert_eq!(cells.len(), 3);
    assert_eq!(cells[0].fg, 3);
    assert_eq!(cells[1], Cell { x: i32::MAX - 2, y: 0, ch: '\u{65e5}', fg: 3, bg: 4 });
    assert_eq!(cells[2].fg, 3 | TB_UNDERLINE);
    assert_eq!(cells[2].x, i32::MAX - 1);
    let missing = tab("abc", TabStyle::Normal, Some('x')).draw(&colors(), 0, 0, false);
    assert!(missing.iter().all(|c| c.fg == 3));
}

#[test]
fn width_counts_columns() {
    assert_eq!(tab("#tiny", TabStyle::Normal, None).width(), 5);
    assert_eq!(tab("\u{65e5}\u{672c}", TabStyle::Normal, None).width(), 4);
    assert_eq!(tab("", TabStyle::Normal, None).width(), 0);
    assert_eq!(tab("#tiny", TabStyle::Normal, None).visible_name(), "#tiny");
    assert_eq!(columns_to_width(0), 0);
    assert_eq!(columns_to_width(i32::MAX as usize), i32::MAX);
    assert_eq!(columns_to_width(i32::MAX as usize + 1), i32::MIN);
}

#[test]
fn tab_keeps_its_label_when_its_style_or_source_changes() {
    let mut t = tab("irc.example.org", TabStyle::Normal, Some('i'));
    t.set_style(TabStyle::Highlight);
    assert_eq!(t, tab("irc.example.org", TabStyle::Highlight, Some('i')));
    t.update_source(&|src: &MsgSource| match src {
        MsgSource::Serv { .. } => MsgSource::Serv { serv: "irc.example.net".to_string() },
        other => other.clone(),
    });
    assert_eq!(t.src, MsgSource::Serv { serv: "irc.example.net".to_string() });
    assert_eq!(t.visible_name, "irc.example.org");
    assert_eq!(t.widget, 42);
    assert_eq!(t.style, TabStyle::Highlight);
    assert_eq!(t.switch, Some('i'));
}
