use bolide::ascii::{eq_ignore_ascii_case, str_equal};
use bolide::cmd::unknown_command_reply;
use bolide::invoke::{extract_invocation, normalize_first_token};
use bolide::numfmt::to_decimal;
use bolide::logger::{DebugLevel, LogLevel};
use bolide::term::{CustomPrompt, HistorySearch, SearchStatus};

#[test]
fn case_insensitive_compare() {
    assert!(eq_ignore_ascii_case("AbC", "aBc"));
    assert!(eq_ignore_ascii_case("bolide", "BOLIDE"));
    assert!(!eq_ignore_ascii_case("abc", "abd"));
    assert!(!eq_ignore_ascii_case("abc", "abcd"));
    assert!(eq_ignore_ascii_case("a_b-1", "A_B-1"));
    // only ASCII letters fold
    assert!(!eq_ignore_ascii_case("\u{c4}", "\u{e4}"));
}

#[test]
fn exact_compare() {
    assert!(str_equal("help", "help"));
    assert!(!str_equal("help", "Help"));
    assert!(!str_equal("help", "hel"));
    assert!(str_equal("", ""));
}

#[test]
fn decimal_rendering() {
    assert_eq!(to_decimal(0), "0");
    assert_eq!(to_decimal(42), "42");
    assert_eq!(to_decimal(-42), "-42");
    assert_eq!(to_decimal(1000000007), "1000000007");
    assert_eq!(to_decimal(i64::MAX), "9223372036854775807");
    assert_eq!(to_decimal(i64::MIN), "-9223372036854775808");
}

#[test]
fn mention_matching_bot_is_stripped() {
    assert_eq!(normalize_first_token("cmd@BotName", "botname"), Some("cmd".to_string()));
    assert_eq!(normalize_first_token("cmd@MYBOT", "MyBot"), Some("cmd".to_string()));
}

#[test]
fn mention_for_other_bot_is_rejected() {
    assert_eq!(normalize_first_token("cmd@other", "mybot"), None);
}

#[test]
fn double_mention_is_rejected() {
    assert_eq!(normalize_first_token("cmd@a@b", "a"), None);
}

#[test]
fn token_without_mention_is_unchanged() {
    assert_eq!(normalize_first_token("cmd", "mybot"), Some("cmd".to_string()));
}

#[test]
fn fallback_alias_is_accepted() {
    assert_eq!(normalize_first_token("cmd@Bolide", "mybot"), Some("cmd".to_string()));
}

#[test]
fn empty_mention_sides_are_rejected() {
    assert_eq!(normalize_first_token("cmd@", "mybot"), None);
    assert_eq!(normalize_first_token("@mybot", "mybot"), None);
    assert_eq!(normalize_first_token("@", "mybot"), None);
}

#[test]
fn extraction_splits_quoted_words() {
    let args = extract_invocation("say 'hello world' now", "mybot").unwrap();
    assert_eq!(args, vec!["say".to_string(), "hello world".to_string(), "now".to_string()]);
}

#[test]
fn extraction_normalizes_first_token() {
    let args = extract_invocation("version@MyBot --full", "mybot").unwrap();
    assert_eq!(args, vec!["version".to_string(), "--full".to_string()]);
}

#[test]
fn extraction_rejects_bad_quoting_and_empty() {
    assert_eq!(extract_invocation("say \"unclosed", "mybot"), None);
    assert_eq!(extract_invocation("", "mybot"), None);
    assert_eq!(extract_invocation("   ", "mybot"), None);
}

#[test]
fn unknown_reply_text() {
    assert_eq!(unknown_command_reply("frobnicate"), "No such command `frobnicate`");
}

#[test]
fn prompt_indicators() {
    let prompt = CustomPrompt;
    assert_eq!(prompt.render_prompt_left(), "");
    assert_eq!(prompt.render_prompt_right(), "");
    assert_eq!(prompt.render_prompt_indicator(), "> ");
    assert_eq!(prompt.render_prompt_multiline_indicator(), "::: ");
}

#[test]
fn prompt_history_search_indicator() {
    let prompt = CustomPrompt;
    let passing = HistorySearch { status: SearchStatus::Passing, term: "abc".to_string() };
    assert_eq!(prompt.render_prompt_history_search_indicator(&passing), "(reverse-search: abc) ");
    let failing = HistorySearch { status: SearchStatus::Failing, term: "abc".to_string() };
    assert_eq!(
        prompt.render_prompt_history_search_indicator(&failing),
        "(failing reverse-search: abc) "
    );
}

#[test]
fn debug_default_level() {
    assert_eq!(DebugLevel.default_level(), Some(LogLevel::Debug));
}

#[test]
fn start_time_is_after_epoch() {
    assert!(bolide::init_start_time() > 0);
}
