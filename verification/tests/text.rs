use hevy_bridge::layout::{
    push_blank_line, push_dash, push_line, push_row, push_rule_line, set_label_text,
    text_or_default,
};
use hevy_bridge::text::{
    decimal_string, push_int, push_left_aligned, push_nat, push_repeated, push_right_aligned,
    push_spaces, truncate_str,
};

#[test]
fn short_titles_are_left_alone() {
    assert_eq!(truncate_str("Bench Press", 35), "Bench Press");
    assert_eq!(truncate_str("", 35), "");
    assert_eq!(truncate_str("", 0), "");
    let exact = "a".repeat(35);
    assert_eq!(truncate_str(&exact, 35), exact);
}

#[test]
fn forty_character_title_is_cut_to_thirty_five() {
    let title = "0123456789012345678901234567890123456789";
    assert_eq!(title.chars().count(), 40);
    let cut = truncate_str(title, 35);
    assert_eq!(cut, "0123456789012345678901234567890123\u{2026}");
    assert_eq!(cut.chars().count(), 35);
    assert_eq!(cut.chars().take(34).collect::<String>(), &title[..34]);
    assert_eq!(cut.chars().last(), Some('\u{2026}'));
}

#[test]
fn truncation_counts_characters_not_bytes() {
    let title = "\u{e9}".repeat(36);
    let cut = truncate_str(&title, 35);
    assert_eq!(cut.chars().count(), 35);
    assert_eq!(cut, format!("{}\u{2026}", "\u{e9}".repeat(34)));
    let fits = "\u{e9}".repeat(35);
    assert_eq!(truncate_str(&fits, 35), fits);
}

#[test]
fn truncation_to_one_character_is_the_ellipsis() {
    assert_eq!(truncate_str("abc", 1), "\u{2026}");
    assert_eq!(truncate_str("abc", 2), "a\u{2026}");
    assert_eq!(truncate_str("abc", 3), "abc");
}

#[test]
fn alignment_pads_to_the_width() {
    let mut out = String::from(">");
    push_left_aligned(&mut out, "ab", 5);
    out.push('|');
    push_right_aligned(&mut out, "ab", 5);
    out.push('|');
    assert_eq!(out, format!(">{:<5}|{:>5}|", "ab", "ab"));
    assert_eq!(out, ">ab   |   ab|");
}

#[test]
fn alignment_never_cuts() {
    let mut out = String::new();
    push_left_aligned(&mut out, "abcdef", 3);
    push_right_aligned(&mut out, "ghijkl", 3);
    push_left_aligned(&mut out, "xyz", 3);
    push_right_aligned(&mut out, "", 0);
    assert_eq!(out, "abcdefghijklxyz");
}

#[test]
fn alignment_counts_characters_not_bytes() {
    let mut out = String::new();
    push_right_aligned(&mut out, "\u{2014}", 4);
    push_left_aligned(&mut out, "\u{1b}[0m", 6);
    assert_eq!(out, format!("{:>4}{:<6}", "\u{2014}", "\u{1b}[0m"));
    assert_eq!(out, "   \u{2014}\u{1b}[0m  ");
}

#[test]
fn repeats_and_spaces() {
    let mut out = String::from("x");
    push_repeated(&mut out, "\u{2500}", 3);
    push_spaces(&mut out, 2);
    push_repeated(&mut out, "y", 0);
    out.push('.');
    assert_eq!(out, "x\u{2500}\u{2500}\u{2500}  .");
}

#[test]
fn numbers_in_decimal() {
    assert_eq!(decimal_string(0), "0");
    assert_eq!(decimal_string(7), "7");
    assert_eq!(decimal_string(10), "10");
    assert_eq!(decimal_string(-1), "-1");
    assert_eq!(decimal_string(-120), "-120");
    assert_eq!(decimal_string(9_007_199_254_740_993), "9007199254740993");
    assert_eq!(decimal_string(i64::MAX), "9223372036854775807");
    assert_eq!(decimal_string(i64::MIN), "-9223372036854775808");
    for n in -1100i64..=1100 {
        assert_eq!(decimal_string(n), n.to_string());
    }
}

#[test]
fn numbers_are_appended() {
    let mut out = String::from("n=");
    push_nat(&mut out, 0);
    out.push(',');
    push_nat(&mut out, u64::MAX);
    out.push(',');
    push_int(&mut out, -45);
    assert_eq!(out, "n=0,18446744073709551615,-45");
}

#[test]
fn set_labels_count_from_one() {
    assert_eq!(set_label_text(0, &None), "  Set 1");
    assert_eq!(set_label_text(0, &Some("warmup".to_string())), "  Set 1 (warmup)");
    assert_eq!(set_label_text(9, &Some("normal".to_string())), "  Set 10 (normal)");
    assert_eq!(set_label_text(2, &Some(String::new())), "  Set 3 ()");
}

#[test]
fn missing_text_falls_back() {
    assert_eq!(text_or_default(&None, "Unknown Exercise"), "Unknown Exercise");
    assert_eq!(text_or_default(&Some("Squat".to_string()), "Unknown Exercise"), "Squat");
    assert_eq!(text_or_default(&Some(String::new()), "Unknown Exercise"), "");
}

#[test]
fn lines_rules_and_dashes() {
    let mut out = String::new();
    push_blank_line(&mut out);
    push_line(&mut out, "Title");
    push_rule_line(&mut out, 5, 0);
    push_rule_line(&mut out, 1, 2);
    push_dash(&mut out);
    assert_eq!(
        out,
        "\n  Title\n  \u{2500}\u{2500}\u{2500}\u{2500}\u{2500}\n  \u{2500}\u{2500}\u{2500}\n\u{2014}"
    );
}

#[test]
fn rows_follow_the_grid() {
    let mut out = String::new();
    push_row(&mut out, "Bench Press", "3", "220.5", "8-12", "90", "slow", 12, 12);
    push_row(&mut out, "  Set 1", "", "0.0", "\u{2014}", "\u{1b}[32mSucceeded\u{1b}[0m", "", 13, 21);
    let expected = format!(
        "  {:<35} {:>5} {:>18} {:>12} {:>12}   {}\n  {:<35} {:>5} {:>18} {:>13} {:>21}   {}\n",
        "Bench Press",
        "3",
        "220.5",
        "8-12",
        "90",
        "slow",
        "  Set 1",
        "",
        "0.0",
        "\u{2014}",
        "\u{1b}[32mSucceeded\u{1b}[0m",
        ""
    );
    assert_eq!(out, expected);
}

#[test]
fn row_with_wide_cells_is_not_cut() {
    let wide = "w".repeat(40);
    let mut out = String::new();
    push_row(&mut out, &wide, "123456", "x", "y", "z", "notes", 12, 12);
    let expected = format!(
        "  {:<35} {:>5} {:>18} {:>12} {:>12}   {}\n",
        wide, "123456", "x", "y", "z", "notes"
    );
    assert_eq!(out, expected);
}
