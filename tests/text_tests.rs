use dnd_agent_game::repair::parse_candidates;
use dnd_agent_game::text::{
    decimal, extract_json_object, make_prompt_tag, normalize_alias, normalize_display_name,
    normalize_name_with_fallback, normalize_pronouns, strip_fences, trim, truncate,
};

#[test]
fn strip_fences_removes_json_block() {
    let raw = "```json\n{\"a\": 1}\n```\n";
    assert_eq!(strip_fences(raw), "{\"a\": 1}");
}

#[test]
fn strip_fences_keeps_plain_text_trimmed() {
    assert_eq!(strip_fences("  {\"a\":1}  \n"), "{\"a\":1}");
}

#[test]
fn strip_fences_handles_crlf_and_stops_at_closing_fence() {
    let raw = "```\r\nline one\r\nline two\r\n```\r\nafter";
    assert_eq!(strip_fences(raw), "line one\nline two");
}

#[test]
fn strip_fences_without_body_is_empty() {
    assert_eq!(strip_fences("```json"), "");
}

#[test]
fn extract_json_object_finds_first_and_last_brace() {
    assert_eq!(
        extract_json_object("Sure! {\"a\": {\"b\": 2}} done"),
        Some("{\"a\": {\"b\": 2}}")
    );
    assert_eq!(extract_json_object("no braces"), None);
    assert_eq!(extract_json_object("} before {"), None);
}

#[test]
fn parse_candidates_cleaned_then_object() {
    let c = parse_candidates("Here you go: {\"x\":1} thanks");
    assert_eq!(c, vec!["Here you go: {\"x\":1} thanks".to_string(), "{\"x\":1}".to_string()]);
    let only = parse_candidates("```\nplain\n```");
    assert_eq!(only, vec!["plain".to_string()]);
}

#[test]
fn truncate_appends_ellipsis_only_when_cut() {
    assert_eq!(truncate("abcdef", 3), "abc...");
    assert_eq!(truncate("abc", 3), "abc");
    assert_eq!(truncate("ééé", 2), "éé...");
}

#[test]
fn trim_removes_unicode_white_space() {
    assert_eq!(trim("\u{a0}\t hi there \u{3000}\n"), "hi there");
    assert_eq!(trim("   "), "");
}

#[test]
fn normalize_alias_trims_and_lowercases_ascii() {
    assert_eq!(normalize_alias("  Player_AI_1 "), "player_ai_1");
    assert_eq!(normalize_alias("ÉLAN"), "Élan");
}

#[test]
fn display_names_are_capitalised() {
    assert_eq!(normalize_display_name("  luna moon "), "Luna moon");
    assert_eq!(normalize_display_name("   "), "Luna");
    assert_eq!(normalize_display_name("élodie"), "Élodie");
    assert_eq!(normalize_name_with_fallback("", "Player 2"), "Player 2");
    assert_eq!(normalize_name_with_fallback("ßtar", "x"), "SStar");
}

#[test]
fn pronouns_default_when_blank() {
    assert_eq!(normalize_pronouns("  she/her "), "she/her");
    assert_eq!(normalize_pronouns(""), "they/them");
}

#[test]
fn prompt_tag_from_first_word() {
    assert_eq!(make_prompt_tag("luna moon"), "Luna");
    assert_eq!(make_prompt_tag("o'brien smith"), "Obrien");
    assert_eq!(make_prompt_tag("   "), "Player");
    assert_eq!(make_prompt_tag("!!! x"), "Player");
    assert_eq!(make_prompt_tag("_x1"), "_x1");
}

#[test]
fn decimal_renders_numbers() {
    assert_eq!(decimal(0), "0");
    assert_eq!(decimal(2), "2");
    assert_eq!(decimal(1200), "1200");
    assert_eq!(decimal(u64::MAX), "18446744073709551615");
}
