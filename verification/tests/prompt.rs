use std::str::FromStr;

use rewrite_it::prompt::{
    build_prompt, chat_messages, split_prompt, user_message, PromptError, Style, TemplateOutcome,
    SYSTEM_PROMPT,
};

#[test]
fn style_from_str_round_trips() {
    for name in Style::all_names() {
        let s = Style::from_str(name).expect("style parsing is infallible");
        // Ensure every recognised name maps to something non-default
        // (or is exactly "grammar" which maps to Grammar)
        let _ = s; // just check it doesn't panic
    }
}

#[test]
fn unknown_style_defaults_to_grammar() {
    assert_eq!(
        Style::from_str("nonsense").expect("style parsing is infallible"),
        Style::Grammar
    );
}

#[test]
fn names_parse_to_their_styles() {
    let styles = [
        Style::Grammar,
        Style::Formal,
        Style::Casual,
        Style::Concise,
        Style::Elaborate,
        Style::Creative,
    ];
    assert_eq!(
        Style::all_names().to_vec(),
        vec!["grammar", "formal", "casual", "concise", "elaborate", "creative"]
    );
    for (name, style) in Style::all_names().iter().zip(styles) {
        assert_eq!(Style::parse_lossy(name), style);
        assert_eq!(Style::parse_lossy(&format!("\t {}\n", name.to_uppercase())), style);
    }
}

#[test]
fn style_names_are_lowered_and_trimmed() {
    assert_eq!(Style::parse_lossy("  FoRmAl\u{3000}"), Style::Formal);
    assert_eq!(Style::parse_lossy(""), Style::Grammar);
    assert_eq!(Style::parse_lossy("form al"), Style::Grammar);
    assert_eq!(Style::from_lowercase(" casual "), Style::Casual);
    assert_eq!(Style::from_lowercase("CASUAL"), Style::Grammar);
}

#[test]
fn instructions_are_single_lines() {
    assert_eq!(
        Style::Grammar.instruction(),
        "Fix any grammar, spelling, and punctuation errors. Preserve the original phrasing and tone as much as possible. Return only the corrected text."
    );
    assert_eq!(
        Style::Creative.instruction(),
        "Rewrite creatively with vivid language while preserving the meaning. Return only the rewritten text."
    );
}

#[test]
fn user_message_holds_instruction_and_trimmed_text() {
    assert_eq!(
        user_message("  the cat eat the mouse\n", Style::Casual),
        "Rewrite in a casual, conversational tone. Keep the main ideas. Return only the rewritten text.\n\n---\nthe cat eat the mouse"
    );
}

#[test]
fn chat_has_a_system_and_a_user_message() {
    let messages = chat_messages("hi", Style::Formal);
    assert_eq!(messages.len(), 2);
    assert_eq!(messages[0].role, "system");
    assert_eq!(messages[0].content, SYSTEM_PROMPT);
    assert_eq!(messages[1].role, "user");
    assert_eq!(messages[1].content, user_message("hi", Style::Formal));
    assert_eq!(
        SYSTEM_PROMPT,
        "You are a precise writing assistant. When asked to rewrite text, output only the improved version — no explanations, no preamble, no quotation marks, no markdown."
    );
}

#[test]
fn models_without_template_get_the_phi_format() {
    let prompt = build_prompt(" hi ", Style::Concise, TemplateOutcome::Missing).unwrap();
    let expected = format!(
        "<|system|>\n{}<|end|>\n<|user|>\n{}\n\n---\nhi<|end|>\n<|assistant|>\n",
        SYSTEM_PROMPT,
        Style::Concise.instruction()
    );
    assert_eq!(prompt, expected);
}

#[test]
fn applied_template_is_the_prompt() {
    let outcome = TemplateOutcome::Applied("[system] x [user] y".to_string());
    assert_eq!(build_prompt("y", Style::Formal, outcome), Ok("[system] x [user] y".to_string()));
}

#[test]
fn prompt_failures_are_told_apart() {
    for (outcome, error, message) in [
        (TemplateOutcome::SystemRejected, PromptError::SystemMessage, "building system chat message"),
        (TemplateOutcome::UserRejected, PromptError::UserMessage, "building user chat message"),
        (TemplateOutcome::Failed, PromptError::Template, "applying model chat template"),
    ] {
        assert_eq!(build_prompt("t", Style::Grammar, outcome), Err(error));
        assert_eq!(error.message(), message);
    }
}

#[test]
fn prompts_are_cut_behind_the_first_separator() {
    let (prefix, suffix) = split_prompt("é\n\n---\nfoo\n---\nbar");
    assert_eq!(prefix, "é\n\n---\n");
    assert_eq!(suffix, "foo\n---\nbar");
    let whole = "no separator --- here\n--\n";
    let (prefix, suffix) = split_prompt(whole);
    assert_eq!(prefix, "");
    assert_eq!(suffix, whole);
    for text in ["", "\n---\n", "-\n---", "a\n----\n---\nb"] {
        let (prefix, suffix) = split_prompt(text);
        let end = text.find("\n---\n").map(|i| i + 5).unwrap_or(0);
        assert_eq!(prefix, &text[..end]);
        assert_eq!(suffix, &text[end..]);
    }
}

#[test]
fn prefix_is_the_same_for_all_texts_of_a_style() {
    let one = build_prompt("one", Style::Formal, TemplateOutcome::Missing).unwrap();
    let two = build_prompt("a\n---\nb", Style::Formal, TemplateOutcome::Missing).unwrap();
    let other = build_prompt("one", Style::Casual, TemplateOutcome::Missing).unwrap();
    assert_eq!(split_prompt(&one).0, split_prompt(&two).0);
    assert_ne!(split_prompt(&one).0, split_prompt(&other).0);
    assert_eq!(split_prompt(&two).1, "a\n---\nb<|end|>\n<|assistant|>\n");
}
