use sysbanner::facts::{Fact, FactSource, Label};
use sysbanner::layout::{
    art_cells, compose_row, gap_of, info_line, info_lines, label_of, pair_columns, render, widest,
    ArtCell,
};

fn fact(label: Label, value: &str) -> Fact {
    Fact { label, value: value.to_string(), source: FactSource::OsQuery }
}

fn lines(items: &[&str]) -> Vec<String> {
    items.iter().map(|s| s.to_string()).collect()
}

#[test]
fn labels_and_gaps_follow_the_table() {
    assert_eq!((label_of(Label::Os), gap_of(Label::Os)), ("OS:", 7));
    assert_eq!((label_of(Label::Kernel), gap_of(Label::Kernel)), ("Kernel:", 3));
    assert_eq!((label_of(Label::Arch), gap_of(Label::Arch)), ("Arch:", 5));
    assert_eq!((label_of(Label::System), gap_of(Label::System)), ("System:", 3));
    assert_eq!((label_of(Label::Terminal), gap_of(Label::Terminal)), ("Terminal:", 1));
    assert_eq!((label_of(Label::Wm), gap_of(Label::Wm)), ("WM:", 7));
    assert_eq!((label_of(Label::Title), gap_of(Label::Title)), ("", 0));
    assert_eq!((label_of(Label::Separator), gap_of(Label::Separator)), ("", 0));
}

#[test]
fn every_value_starts_at_the_same_column() {
    for label in [Label::Os, Label::Kernel, Label::Arch, Label::System, Label::Terminal, Label::Wm] {
        assert_eq!(label_of(label).len() + gap_of(label), 10);
        let row = info_line(&fact(label, "value"), None);
        assert_eq!(row.find("value"), Some(10));
    }
}

#[test]
fn rows_without_colour() {
    assert_eq!(info_line(&fact(Label::Title, "alice@box1"), None), "alice@box1");
    assert_eq!(info_line(&fact(Label::Separator, "-----------"), None), "-----------");
    assert_eq!(info_line(&fact(Label::Os, "Linux"), None), "OS:       Linux");
    assert_eq!(info_line(&fact(Label::Kernel, "6.8.0"), None), "Kernel:   6.8.0");
    assert_eq!(info_line(&fact(Label::Arch, "x86_64"), None), "Arch:     x86_64");
    assert_eq!(info_line(&fact(Label::System, "X570"), None), "System:   X570");
    assert_eq!(info_line(&fact(Label::Terminal, "kitty"), None), "Terminal: kitty");
    assert_eq!(info_line(&fact(Label::Wm, "KDE"), None), "WM:       KDE");
    assert_eq!(info_line(&fact(Label::Wm, ""), None), "WM:       ");
}

#[test]
fn compose_row_keeps_the_pieces_as_given() {
    assert_eq!(compose_row(Label::Os, "<OS:>", "<Linux>"), "<OS:>       <Linux>");
    assert_eq!(compose_row(Label::Terminal, "T", "v"), "T v");
    assert_eq!(compose_row(Label::Title, "ignored", "alice@box1"), "alice@box1");
    assert_eq!(compose_row(Label::Separator, "ignored", "---"), "---");
}

#[test]
fn info_lines_keep_the_order_of_the_facts() {
    let facts = vec![fact(Label::Wm, "KDE"), fact(Label::Title, "a@b"), fact(Label::Os, "Linux")];
    assert_eq!(info_lines(&facts, None), vec!["WM:       KDE", "a@b", "OS:       Linux"]);
    assert_eq!(info_lines(&Vec::new(), None), Vec::<String>::new());
}

#[test]
fn rendering_without_art_is_the_info_lines() {
    let facts = vec![fact(Label::Title, "a@b"), fact(Label::Os, "Linux")];
    assert_eq!(render(&facts, None, None), vec!["a@b", "OS:       Linux"]);
    assert_eq!(render(&Vec::new(), None, None), Vec::<String>::new());
}

#[test]
fn art_longer_than_the_facts() {
    let facts = vec![fact(Label::Title, "a@b")];
    let art = lines(&["###", "#", "##"]);
    assert_eq!(render(&facts, Some(&art), None), vec!["### a@b", "#   ", "##  "]);
}

#[test]
fn facts_longer_than_the_art() {
    let facts = vec![fact(Label::Title, "a@b"), fact(Label::Os, "Linux"), fact(Label::Wm, "KDE")];
    let art = lines(&["#", "###"]);
    assert_eq!(
        render(&facts, Some(&art), None),
        vec!["#   a@b", "### OS:       Linux", "    WM:       KDE"]
    );
}

#[test]
fn row_count_is_that_of_the_longer_column() {
    let facts = vec![fact(Label::Title, "a@b"), fact(Label::Os, "Linux")];
    for n in 0..5usize {
        let art: Vec<String> = (0..n).map(|i| "#".repeat(i)).collect();
        let rows = render(&facts, Some(&art), None);
        assert_eq!(rows.len(), n.max(facts.len()));
    }
    assert_eq!(render(&facts, None, None).len(), 2);
    let art = lines(&["#"]);
    assert_eq!(render(&Vec::new(), Some(&art), None), vec!["# "]);
    assert_eq!(render(&Vec::new(), Some(&Vec::new()), None), Vec::<String>::new());
}

#[test]
fn empty_art_leaves_one_space_before_the_info() {
    let facts = vec![fact(Label::Title, "a@b")];
    assert_eq!(render(&facts, Some(&Vec::new()), None), vec![" a@b"]);
}

#[test]
fn padding_goes_by_display_width_not_by_length() {
    let facts = vec![fact(Label::Title, "one"), fact(Label::Os, "two"), fact(Label::Wm, "three")];
    let art = lines(&["\u{4e16}\u{754c}x", "ab", "e\u{301}"]);
    let rows = render(&facts, Some(&art), None);
    assert_eq!(
        rows,
        vec![
            "\u{4e16}\u{754c}x one",
            "ab    OS:       two",
            "e\u{301}     WM:       three",
        ]
    );
    let info = ["one", "OS:       two", "WM:       three"];
    for (row, info) in rows.iter().zip(info.iter()) {
        assert!(row.ends_with(info));
        let left = &row[..row.len() - info.len()];
        assert_eq!(sysbanner::width::width_of(left), 6);
    }
}

#[test]
fn widest_is_the_largest_width() {
    let cell = |shown: &str, width: usize| ArtCell { shown: shown.to_string(), width };
    assert_eq!(widest(&Vec::new()), 0);
    assert_eq!(widest(&vec![cell("a", 1)]), 1);
    assert_eq!(widest(&vec![cell("a", 1), cell("abc", 3), cell("ab", 2)]), 3);
    assert_eq!(widest(&vec![cell("abc", 3), cell("a", 1)]), 3);
}

#[test]
fn pair_columns_pads_by_the_given_widths() {
    let cell = |shown: &str, width: usize| ArtCell { shown: shown.to_string(), width };
    let cells = vec![cell("<b>ab</b>", 2), cell("<b>abcd</b>", 4)];
    let info = lines(&["x", "y", "z"]);
    assert_eq!(
        pair_columns(&cells, &info),
        vec!["<b>ab</b>   x", "<b>abcd</b> y", "     z"]
    );
    assert_eq!(pair_columns(&cells, &Vec::new()), vec!["<b>ab</b>   ", "<b>abcd</b> "]);
    assert_eq!(pair_columns(&Vec::new(), &info), vec![" x", " y", " z"]);
}

#[test]
fn art_cells_measure_each_line() {
    let art = lines(&["ab", "\u{4e16}\u{754c}", ""]);
    let cells = art_cells(&art, None);
    assert_eq!(
        cells,
        vec![
            ArtCell { shown: "ab".to_string(), width: 2 },
            ArtCell { shown: "\u{4e16}\u{754c}".to_string(), width: 4 },
            ArtCell { shown: String::new(), width: 0 },
        ]
    );
}
