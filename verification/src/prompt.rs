//! Rewriting styles and the prompt that asks the model for a rewrite.

use std::convert::Infallible;
use std::str::FromStr;

use vstd::prelude::*;
use vstd::utf8::is_ascii_chars;

use crate::text::{
    ascii_lower, end_of_first, end_of_first_ignores_the_rest, first_occurrence_ends_there,
    is_blank, is_white_space, lowercase, occurs_at, occurs_first_at, same_text, split_after_first, trimmed,
    trimmed_end, trimmed_start, trimming_is_idempotent, trimming_takes_only_white_space,
};

verus! {

/// Rewriting style exposed through the DBus API and CLI.
#[derive(Debug, Clone, Copy, PartialEq, Eq, Structural)]
pub enum Style {
    /// Correct grammar, spelling and punctuation only.
    Grammar,
    /// Elevate to formal / professional register.
    Formal,
    /// Relax to casual / conversational register.
    Casual,
    /// Shorten while preserving meaning.
    Concise,
    /// Expand with richer detail and context.
    Elaborate,
    /// Creative rewrite, same core meaning.
    Creative,
}

pub const GRAMMAR_INSTRUCTION: &'static str = "Fix any grammar, spelling, and punctuation errors. \
    Preserve the original phrasing and tone as much as possible. \
    Return only the corrected text.";

pub const FORMAL_INSTRUCTION: &'static str = "Rewrite in a formal, professional register. \
    Keep the core message intact. \
    Return only the rewritten text.";

pub const CASUAL_INSTRUCTION: &'static str = "Rewrite in a casual, conversational tone. \
    Keep the main ideas. \
    Return only the rewritten text.";

pub const CONCISE_INSTRUCTION: &'static str = "Rewrite more concisely, removing unnecessary words and filler phrases. \
    Preserve all key information. \
    Return only the rewritten text.";

pub const ELABORATE_INSTRUCTION: &'static str = "Expand the text with additional detail, context, and supporting ideas. \
    Return only the elaborated version.";

pub const CREATIVE_INSTRUCTION: &'static str = "Rewrite creatively with vivid language while preserving the meaning. \
    Return only the rewritten text.";

/// The styles in the order in which their names are listed.
pub open spec fn all_styles() -> Seq<Style> {
    seq![
        Style::Grammar,
        Style::Formal,
        Style::Casual,
        Style::Concise,
        Style::Elaborate,
        Style::Creative,
    ]
}

impl Style {
    /// The name under which a caller asks for the style.
    pub open spec fn name(self) -> Seq<char> {
        match self {
            Style::Grammar => "grammar"@,
            Style::Formal => "formal"@,
            Style::Casual => "casual"@,
            Style::Concise => "concise"@,
            Style::Elaborate => "elaborate"@,
            Style::Creative => "creative"@,
        }
    }

    /// The style called `name`; `Grammar` where no style has that name.
    pub open spec fn named(name: Seq<char>) -> Style {
        if exists|s: Style| #[trigger] s.name() == name {
            choose|s: Style| #[trigger] s.name() == name
        } else {
            Style::Grammar
        }
    }

    /// The style that `s` names, in capitals or not, white space around it
    /// ignored. What the lower case of a text is, the Unicode tables say; of an
    /// ASCII text it is each capital replaced by its lower-case letter.
    pub open spec fn is_parsed_from(self, s: Seq<char>) -> bool {
        &&& self == Style::named(trimmed(lowercase(s)))
        &&& is_ascii_chars(s) ==> self == Style::named(
            trimmed(s.map_values(|c: char| ascii_lower(c))),
        )
    }

    /// What the model is told to do.
    pub open spec fn instruction_text(self) -> Seq<char> {
        match self {
            Style::Grammar => GRAMMAR_INSTRUCTION@,
            Style::Formal => FORMAL_INSTRUCTION@,
            Style::Casual => CASUAL_INSTRUCTION@,
            Style::Concise => CONCISE_INSTRUCTION@,
            Style::Elaborate => ELABORATE_INSTRUCTION@,
            Style::Creative => CREATIVE_INSTRUCTION@,
        }
    }

    /// The style that lower-cased text names, white space around it ignored.
    pub fn from_lowercase(lowered: &str) -> (r: Style)
        ensures
            r == Style::named(trimmed(lowered@)),
    {
        let name = lowered.trim();
        proof {
            names_are_distinct();
        }
        if same_text(name, "formal") {
            proof {
                named_inverts_name(Style::Formal);
            }
            Style::Formal
        } else if same_text(name, "casual") {
            proof {
                named_inverts_name(Style::Casual);
            }
            Style::Casual
        } else if same_text(name, "concise") {
            proof {
                named_inverts_name(Style::Concise);
            }
            Style::Concise
        } else if same_text(name, "elaborate") {
            proof {
                named_inverts_name(Style::Elaborate);
            }
            Style::Elaborate
        } else if same_text(name, "creative") {
            proof {
                named_inverts_name(Style::Creative);
            }
            Style::Creative
        } else {
            proof {
                named_inverts_name(Style::Grammar);
            }
            Style::Grammar
        }
    }

    /// The style that `s` names, in capitals or not, white space around it
    /// ignored; `Grammar` for anything else.
    pub fn parse_lossy(s: &str) -> (r: Style)
        ensures
            r.is_parsed_from(s@),
    {
        let lowered = s.to_lowercase();
        Style::from_lowercase(lowered.as_str())
    }

    /// The names of all styles.
    pub fn all_names() -> (r: &'static [&'static str])
        ensures
            r@.len() == all_styles().len(),
            forall|i: int| 0 <= i < r@.len() ==> (#[trigger] r@[i])@ == all_styles()[i].name(),
    {
        &["grammar", "formal", "casual", "concise", "elaborate", "creative"]
    }

    /// What the model is told to do.
    pub fn instruction(self) -> (r: &'static str)
        ensures
            r@ == self.instruction_text(),
    {
        match self {
            Style::Grammar => GRAMMAR_INSTRUCTION,
            Style::Formal => FORMAL_INSTRUCTION,
            Style::Casual => CASUAL_INSTRUCTION,
            Style::Concise => CONCISE_INSTRUCTION,
            Style::Elaborate => ELABORATE_INSTRUCTION,
            Style::Creative => CREATIVE_INSTRUCTION,
        }
    }
}

impl FromStr for Style {
    type Err = Infallible;

    /// As [`Style::parse_lossy`]: every text names a style.
    fn from_str(s: &str) -> (r: Result<Self, Infallible>)
        ensures
            r matches Ok(style) && style.is_parsed_from(s@),
    {
        Ok(Style::parse_lossy(s))
    }
}

// ── Prompt ───────────────────────────────────────────────────────────────────

pub const SYSTEM_PROMPT: &'static str = "You are a precise writing assistant. \
    When asked to rewrite text, output only the improved version — \
    no explanations, no preamble, no quotation marks, no markdown.";

/// The line that parts the instruction from the text of the caller.
pub const SEPARATOR: &'static str = "\n---\n";

/// One message of the chat that is handed to the model.
pub struct ChatMessage {
    pub role: String,
    pub content: String,
}

/// What the caller asks: the instruction of the style, a separator line, and
/// the text without the white space around it.
pub open spec fn user_message_text(text: Seq<char>, style: Style) -> Seq<char> {
    style.instruction_text() + "\n"@ + SEPARATOR@ + trimmed(text)
}

/// The chat in the format of the Phi models.
pub open spec fn phi_prompt_text(user_message: Seq<char>) -> Seq<char> {
    "<|system|>\n"@ + SYSTEM_PROMPT@ + "<|end|>\n<|user|>\n"@ + user_message
        + "<|end|>\n<|assistant|>\n"@
}

/// What the model made of the chat messages.
pub enum TemplateOutcome {
    /// The system message cannot be handed to the model.
    SystemRejected,
    /// The user message cannot be handed to the model.
    UserRejected,
    /// The model has no chat template of its own.
    Missing,
    /// The model has a chat template, and applying it failed.
    Failed,
    /// The model's chat template, applied to the messages.
    Applied(String),
}

/// Why no prompt could be built.
#[derive(Debug, Clone, Copy, PartialEq, Eq, Structural)]
pub enum PromptError {
    SystemMessage,
    UserMessage,
    Template,
}

impl PromptError {
    pub open spec fn text(self) -> Seq<char> {
        match self {
            PromptError::SystemMessage => "building system chat message"@,
            PromptError::UserMessage => "building user chat message"@,
            PromptError::Template => "applying model chat template"@,
        }
    }

    pub fn message(&self) -> (r: &'static str)
        ensures
            r@ == self.text(),
    {
        match self {
            PromptError::SystemMessage => "building system chat message",
            PromptError::UserMessage => "building user chat message",
            PromptError::Template => "applying model chat template",
        }
    }
}

/// The content of the user message.
pub fn user_message(text: &str, style: Style) -> (r: String)
    ensures
        r@ == user_message_text(text@, style),
{
    let mut r = style.instruction().to_owned();
    r.append("\n");
    r.append(SEPARATOR);
    r.append(text.trim());
    r
}

/// The messages that ask for a rewrite of `text`, in order.
pub fn chat_messages(text: &str, style: Style) -> (r: Vec<ChatMessage>)
    ensures
        r@.len() == 2,
        r@[0].role@ == "system"@,
        r@[0].content@ == SYSTEM_PROMPT@,
        r@[1].role@ == "user"@,
        r@[1].content@ == user_message_text(text@, style),
{
    let mut r: Vec<ChatMessage> = Vec::new();
    r.push(ChatMessage { role: "system".to_owned(), content: SYSTEM_PROMPT.to_owned() });
    r.push(ChatMessage { role: "user".to_owned(), content: user_message(text, style) });
    r
}

/// The prompt that a request comes to, by what the model made of its messages.
pub open spec fn prompt_for(
    text: Seq<char>,
    style: Style,
    outcome: TemplateOutcome,
) -> Result<Seq<char>, PromptError> {
    match outcome {
        TemplateOutcome::SystemRejected => Err(PromptError::SystemMessage),
        TemplateOutcome::UserRejected => Err(PromptError::UserMessage),
        TemplateOutcome::Failed => Err(PromptError::Template),
        TemplateOutcome::Missing => Ok(phi_prompt_text(user_message_text(text, style))),
        TemplateOutcome::Applied(prompt) => Ok(prompt@),
    }
}

/// Build the full inference prompt from the model's embedded chat template.
///
/// Falls back to a Phi-3/4 compatible template when the model has no embedded
/// template (e.g. base models).
pub fn build_prompt(text: &str, style: Style, outcome: TemplateOutcome) -> (r: Result<
    String,
    PromptError,
>)
    ensures
        match r {
            Ok(prompt) => prompt_for(text@, style, outcome) == Ok::<Seq<char>, PromptError>(
                prompt@,
            ),
            Err(e) => prompt_for(text@, style, outcome) == Err::<Seq<char>, PromptError>(e),
        },
{
    match outcome {
        TemplateOutcome::SystemRejected => Err(PromptError::SystemMessage),
        TemplateOutcome::UserRejected => Err(PromptError::UserMessage),
        TemplateOutcome::Failed => Err(PromptError::Template),
        TemplateOutcome::Applied(prompt) => Ok(prompt),
        TemplateOutcome::Missing => {
            let mut r = "<|system|>\n".to_owned();
            r.append(SYSTEM_PROMPT);
            r.append("<|end|>\n<|user|>\n");
            r.append(user_message(text, style).as_str());
            r.append("<|end|>\n<|assistant|>\n");
            Ok(r)
        },
    }
}

/// The length of the part of a prompt that ends with the separator line, or 0
/// where the prompt has none.
pub open spec fn prefix_end(prompt: Seq<char>) -> int {
    end_of_first(prompt, SEPARATOR@)
}

/// The prefix lies within the prompt.
pub proof fn prefix_end_in_bounds(prompt: Seq<char>)
    ensures
        0 <= prefix_end(prompt) <= prompt.len(),
{
}

/// Cut a prompt just behind its first separator line.
pub fn split_prompt(prompt: &str) -> (r: (String, String))
    ensures
        r.0@ == prompt@.take(prefix_end(prompt@)),
        r.1@ == prompt@.skip(prefix_end(prompt@)),
{
    proof {
        reveal_strlit("\n---\n");
    }
    split_after_first(prompt, SEPARATOR)
}

// ── Laws ─────────────────────────────────────────────────────────────────────

/// The styles, by the names under which callers ask for them, in the order in
/// which they are listed; each style is listed once.
pub proof fn styles_have_their_names(style: Style)
    ensures
        Style::Grammar.name() == "grammar"@,
        Style::Formal.name() == "formal"@,
        Style::Casual.name() == "casual"@,
        Style::Concise.name() == "concise"@,
        Style::Elaborate.name() == "elaborate"@,
        Style::Creative.name() == "creative"@,
        all_styles().len() == 6,
        all_styles()[0].name() == "grammar"@,
        all_styles()[1].name() == "formal"@,
        all_styles()[2].name() == "casual"@,
        all_styles()[3].name() == "concise"@,
        all_styles()[4].name() == "elaborate"@,
        all_styles()[5].name() == "creative"@,
        exists|i: int| 0 <= i < 6 && #[trigger] all_styles()[i] == style,
{
    let l = all_styles();
    assert(l[0] == style || l[1] == style || l[2] == style || l[3] == style || l[4] == style || l[5]
        == style);
}

/// Whatever the text, the model is told to do what the style stands for: to fix
/// errors, to be formal, casual or concise, to expand, or to be creative. Below
/// that stands a separator line, and then the text and nothing else, but for the
/// white space that was around it.
pub proof fn styles_ask_for_what_they_stand_for(text: Seq<char>)
    ensures
        user_message_text(text, Style::Grammar)
            == "Fix any grammar, spelling, and punctuation errors. Preserve the original phrasing and tone as much as possible. Return only the corrected text."@
            + "\n\n---\n"@ + trimmed(text),
        user_message_text(text, Style::Formal)
            == "Rewrite in a formal, professional register. Keep the core message intact. Return only the rewritten text."@
            + "\n\n---\n"@ + trimmed(text),
        user_message_text(text, Style::Casual)
            == "Rewrite in a casual, conversational tone. Keep the main ideas. Return only the rewritten text."@
            + "\n\n---\n"@ + trimmed(text),
        user_message_text(text, Style::Concise)
            == "Rewrite more concisely, removing unnecessary words and filler phrases. Preserve all key information. Return only the rewritten text."@
            + "\n\n---\n"@ + trimmed(text),
        user_message_text(text, Style::Elaborate)
            == "Expand the text with additional detail, context, and supporting ideas. Return only the elaborated version."@
            + "\n\n---\n"@ + trimmed(text),
        user_message_text(text, Style::Creative)
            == "Rewrite creatively with vivid language while preserving the meaning. Return only the rewritten text."@
            + "\n\n---\n"@ + trimmed(text),
        exists|front: Seq<char>, back: Seq<char>|
            #[trigger] is_blank(front) && #[trigger] is_blank(back) && text == front + trimmed(text)
                + back,
{
    reveal_strlit("\n");
    reveal_strlit("\n---\n");
    reveal_strlit("\n\n---\n");
    lemma_user_message(text, Style::Grammar);
    lemma_user_message(text, Style::Formal);
    lemma_user_message(text, Style::Casual);
    lemma_user_message(text, Style::Concise);
    lemma_user_message(text, Style::Elaborate);
    lemma_user_message(text, Style::Creative);
    trimming_takes_only_white_space(text);
}

proof fn lemma_user_message(text: Seq<char>, style: Style)
    ensures
        user_message_text(text, style) == style.instruction_text() + "\n\n---\n"@ + trimmed(text),
{
    reveal_strlit("\n");
    reveal_strlit("\n---\n");
    reveal_strlit("\n\n---\n");
    assert("\n"@ + SEPARATOR@ =~= "\n\n---\n"@);
    assert(user_message_text(text, style) =~= style.instruction_text() + ("\n"@ + SEPARATOR@)
        + trimmed(text));
}

/// The instruction of each style is its own text.
pub proof fn instructions_are_those_of_their_styles()
    ensures
        Style::Grammar.instruction_text()
            == "Fix any grammar, spelling, and punctuation errors. Preserve the original phrasing and tone as much as possible. Return only the corrected text."@,
        Style::Formal.instruction_text()
            == "Rewrite in a formal, professional register. Keep the core message intact. Return only the rewritten text."@,
        Style::Casual.instruction_text()
            == "Rewrite in a casual, conversational tone. Keep the main ideas. Return only the rewritten text."@,
        Style::Concise.instruction_text()
            == "Rewrite more concisely, removing unnecessary words and filler phrases. Preserve all key information. Return only the rewritten text."@,
        Style::Elaborate.instruction_text()
            == "Expand the text with additional detail, context, and supporting ideas. Return only the elaborated version."@,
        Style::Creative.instruction_text()
            == "Rewrite creatively with vivid language while preserving the meaning. Return only the rewritten text."@,
{
}

/// A prompt is what the model's own template made of the messages, unchanged; a
/// model without a template gets the system prompt and the user message between
/// the tags of the Phi models. A message or a template that fails makes the
/// prompt fail, and nothing else does.
pub proof fn prompts_come_from_the_template_or_the_tags(
    text: Seq<char>,
    style: Style,
    applied: String,
    outcome: TemplateOutcome,
)
    ensures
        prompt_for(text, style, TemplateOutcome::Applied(applied)) == Ok::<Seq<char>, PromptError>(
            applied@,
        ),
        prompt_for(text, style, TemplateOutcome::Missing) == Ok::<Seq<char>, PromptError>(
            "<|system|>\n"@
                + "You are a precise writing assistant. When asked to rewrite text, output only the improved version — no explanations, no preamble, no quotation marks, no markdown."@
                + "<|end|>\n<|user|>\n"@ + user_message_text(text, style)
                + "<|end|>\n<|assistant|>\n"@,
        ),
        prompt_for(text, style, TemplateOutcome::SystemRejected) == Err::<Seq<char>, PromptError>(
            PromptError::SystemMessage,
        ),
        prompt_for(text, style, TemplateOutcome::UserRejected) == Err::<Seq<char>, PromptError>(
            PromptError::UserMessage,
        ),
        prompt_for(text, style, TemplateOutcome::Failed) == Err::<Seq<char>, PromptError>(
            PromptError::Template,
        ),
        prompt_for(text, style, outcome) is Ok <==> outcome is Applied || outcome is Missing,
        SYSTEM_PROMPT@
            == "You are a precise writing assistant. When asked to rewrite text, output only the improved version — no explanations, no preamble, no quotation marks, no markdown."@,
        PromptError::SystemMessage.text() == "building system chat message"@,
        PromptError::UserMessage.text() == "building user chat message"@,
        PromptError::Template.text() == "applying model chat template"@,
{
}

/// A prompt is cut just behind the first line of three hyphens: the part in front
/// ends with it and has no other, nothing is lost, and a prompt without such a
/// line is not cut at all.
pub proof fn prompts_are_cut_behind_the_separator_line(prompt: Seq<char>)
    ensures
        ({
            let n = prefix_end(prompt);
            &&& prompt.take(n) + prompt.skip(n) == prompt
            &&& n > 0 ==> {
                &&& n >= 5
                &&& prompt.subrange(n - 5, n) == seq!['\n', '-', '-', '-', '\n']
                &&& forall|i: int|
                    0 <= i < n - 5 ==> #[trigger] prompt.subrange(i, i + 5) != seq![
                        '\n',
                        '-',
                        '-',
                        '-',
                        '\n',
                    ]
            }
            &&& n == 0 ==> forall|i: int|
                0 <= i <= prompt.len() - 5 ==> #[trigger] prompt.subrange(i, i + 5) != seq![
                    '\n',
                    '-',
                    '-',
                    '-',
                    '\n',
                ]
        }),
{
    reveal_strlit("\n---\n");
    let sep = SEPARATOR@;
    let line = seq!['\n', '-', '-', '-', '\n'];
    assert(sep =~= line);
    let n = prefix_end(prompt);
    prefix_end_in_bounds(prompt);
    assert(prompt.take(n) + prompt.skip(n) =~= prompt);
    if exists|i: int| occurs_first_at(prompt, sep, i) {
        let i = choose|i: int| occurs_first_at(prompt, sep, i);
        first_occurrence_ends_there(prompt, sep, i);
        assert forall|j: int| 0 <= j < n - 5 implies #[trigger] prompt.subrange(j, j + 5) != line by {
            assert(!occurs_at(prompt, sep, j));
        }
    } else {
        assert forall|j: int| 0 <= j <= prompt.len() - 5 implies #[trigger] prompt.subrange(
            j,
            j + 5,
        ) != line by {
            if prompt.subrange(j, j + 5) == line {
                assert(occurs_at(prompt, sep, j));
                end_of_first_ignores_the_rest(prompt, sep, Seq::empty(), j);
            }
        }
    }
}

/// No two styles have the same name.
pub proof fn names_are_distinct()
    ensures
        forall|a: Style, b: Style| #[trigger] a.name() == #[trigger] b.name() ==> a == b,
{
    reveal_strlit("grammar");
    reveal_strlit("formal");
    reveal_strlit("casual");
    reveal_strlit("concise");
    reveal_strlit("elaborate");
    reveal_strlit("creative");
    assert forall|a: Style, b: Style| #[trigger] a.name() == #[trigger] b.name() implies a == b by {
        assert(a.name().len() == b.name().len());
        assert(a.name()[0] == b.name()[0]);
        assert(a.name()[1] == b.name()[1]);
    }
}

/// The name of a style names that style.
pub proof fn named_inverts_name(s: Style)
    ensures
        Style::named(s.name()) == s,
{
    names_are_distinct();
    let k = choose|k: Style| #[trigger] k.name() == s.name();
    assert(k.name() == s.name());
}

proof fn lemma_names_are_lower_case(style: Style)
    ensures
        is_ascii_chars(style.name()),
        style.name().map_values(|c: char| ascii_lower(c)) == style.name(),
        trimmed(style.name()) == style.name(),
{
    reveal_strlit("grammar");
    reveal_strlit("formal");
    reveal_strlit("casual");
    reveal_strlit("concise");
    reveal_strlit("elaborate");
    reveal_strlit("creative");
    assert(style.name().map_values(|c: char| ascii_lower(c)) =~= style.name());
}

/// Each name that is listed parses to its style.
pub proof fn names_parse_to_their_style(style: Style, parsed: Style)
    requires
        parsed.is_parsed_from(style.name()),
    ensures
        parsed == style,
{
    lemma_names_are_lower_case(style);
    named_inverts_name(style);
}

/// Of ASCII texts neither capitals nor the white space around them matter.
pub proof fn case_and_space_do_not_matter(a: Seq<char>, b: Seq<char>, style: Style, other: Style)
    requires
        is_ascii_chars(a),
        is_ascii_chars(b),
        trimmed(a.map_values(|c: char| ascii_lower(c))) == trimmed(
            b.map_values(|c: char| ascii_lower(c)),
        ),
        style.is_parsed_from(a),
        other.is_parsed_from(b),
    ensures
        style == other,
{
}

/// The style of a text is told by its lower case without the white space around
/// it: each style but `Grammar` just by its name, and `Grammar` by all that is no
/// other style's name.
pub proof fn styles_are_told_by_their_names(s: Seq<char>, parsed: Style, style: Style)
    requires
        parsed.is_parsed_from(s),
    ensures
        style != Style::Grammar ==> (parsed == style <==> trimmed(lowercase(s)) == style.name()),
        parsed == Style::Grammar <==> forall|other: Style|
            other != Style::Grammar ==> trimmed(lowercase(s)) != #[trigger] other.name(),
{
    names_are_distinct();
    let k = trimmed(lowercase(s));
    if exists|a: Style| #[trigger] a.name() == k {
        let a = choose|a: Style| #[trigger] a.name() == k;
        named_inverts_name(a);
    }
    if parsed != Style::Grammar {
        assert(k == parsed.name());
    }
}

/// Of an ASCII text it does not matter whether it is trimmed or put in lower case
/// first.
pub proof fn trimming_and_lowering_first_do_not_matter(
    s: Seq<char>,
    style: Style,
    of_trimmed: Style,
    of_lowered: Style,
)
    requires
        is_ascii_chars(s),
        style.is_parsed_from(s),
        of_trimmed.is_parsed_from(trimmed(s)),
        of_lowered.is_parsed_from(s.map_values(|c: char| ascii_lower(c))),
    ensures
        of_trimmed == style,
        of_lowered == style,
{
    let lower = |c: char| ascii_lower(c);
    let lowered = s.map_values(lower);
    lemma_trimmed_lower(s);
    trimming_is_idempotent(lowered);
    assert(is_ascii_chars(trimmed(s)));
    assert(is_ascii_chars(lowered));
    assert(lowered.map_values(lower) =~= lowered);
}

/// Trimming and lowering an ASCII text come to the same in either order.
proof fn lemma_trimmed_lower(s: Seq<char>)
    requires
        is_ascii_chars(s),
    ensures
        is_ascii_chars(trimmed(s)),
        trimmed(s.map_values(|c: char| ascii_lower(c))) == trimmed(s).map_values(
            |c: char| ascii_lower(c),
        ),
{
    lemma_trimmed_start_lower(s);
    lemma_trimmed_end_lower(trimmed_start(s));
}

proof fn lemma_trimmed_start_lower(s: Seq<char>)
    requires
        is_ascii_chars(s),
    ensures
        is_ascii_chars(trimmed_start(s)),
        trimmed_start(s.map_values(|c: char| ascii_lower(c))) == trimmed_start(s).map_values(
            |c: char| ascii_lower(c),
        ),
    decreases s.len(),
{
    let lowered = s.map_values(|c: char| ascii_lower(c));
    if s.len() > 0 {
        assert(lowered[0] == ascii_lower(s[0]));
        assert(is_white_space(lowered[0]) == is_white_space(s[0]));
        if is_white_space(s[0]) {
            lemma_trimmed_start_lower(s.drop_first());
            assert(lowered.drop_first() =~= s.drop_first().map_values(|c: char| ascii_lower(c)));
        }
    }
}

proof fn lemma_trimmed_end_lower(s: Seq<char>)
    requires
        is_ascii_chars(s),
    ensures
        is_ascii_chars(trimmed_end(s)),
        trimmed_end(s.map_values(|c: char| ascii_lower(c))) == trimmed_end(s).map_values(
            |c: char| ascii_lower(c),
        ),
    decreases s.len(),
{
    let lowered = s.map_values(|c: char| ascii_lower(c));
    if s.len() > 0 {
        assert(lowered.last() == ascii_lower(s.last()));
        assert(is_white_space(lowered.last()) == is_white_space(s.last()));
        if is_white_space(s.last()) {
            lemma_trimmed_end_lower(s.drop_last());
            assert(lowered.drop_last() =~= s.drop_last().map_values(|c: char| ascii_lower(c)));
        }
    }
}

/// A text that is no style's name parses to `Grammar`.
pub proof fn unknown_names_mean_grammar(s: Seq<char>, parsed: Style)
    requires
        parsed.is_parsed_from(s),
        forall|style: Style| trimmed(lowercase(s)) != #[trigger] style.name(),
    ensures
        parsed == Style::Grammar,
{
}

/// However a chat template frames the user message, the part of the prompt up
/// to and including the separator line is the same for all texts of a style,
/// is not empty, and reaches no further than the user message's own separator.
pub proof fn prompt_prefix_is_invariant(
    style: Style,
    before: Seq<char>,
    text1: Seq<char>,
    after1: Seq<char>,
    text2: Seq<char>,
    after2: Seq<char>,
)
    ensures
        ({
            let p1 = before + user_message_text(text1, style) + after1;
            let p2 = before + user_message_text(text2, style) + after2;
            let head = before + style.instruction_text() + "\n"@ + SEPARATOR@;
            &&& p1.take(prefix_end(p1)) == p2.take(prefix_end(p2))
            &&& 0 < prefix_end(p1) <= head.len()
            &&& p1.take(prefix_end(p1)) == head.take(prefix_end(p1))
        }),
{
    reveal_strlit("\n---\n");
    let sep = SEPARATOR@;
    let head = before + style.instruction_text() + "\n"@ + sep;
    let at = head.len() - sep.len();
    assert(head.subrange(at, at + sep.len()) =~= sep);
    assert(occurs_at(head, sep, at));
    let p1 = before + user_message_text(text1, style) + after1;
    let p2 = before + user_message_text(text2, style) + after2;
    assert(p1 =~= head + (trimmed(text1) + after1));
    assert(p2 =~= head + (trimmed(text2) + after2));
    end_of_first_ignores_the_rest(head, sep, trimmed(text1) + after1, at);
    end_of_first_ignores_the_rest(head, sep, trimmed(text2) + after2, at);
    assert(p1.take(prefix_end(p1)) =~= head.take(prefix_end(p1)));
    assert(p2.take(prefix_end(p2)) =~= head.take(prefix_end(p1)));
}

/// `s` has no line break.
spec fn one_line(s: Seq<char>) -> bool {
    forall|i: int| 0 <= i < s.len() ==> #[trigger] s[i] != '\n'
}

proof fn lemma_system_prompt()
    ensures
        one_line(SYSTEM_PROMPT@),
        SYSTEM_PROMPT@.len() > 0,
        SYSTEM_PROMPT@[0] == 'Y',
{
    reveal_strlit(
        "You are a precise writing assistant. When asked to rewrite text, output only the improved version — no explanations, no preamble, no quotation marks, no markdown.",
    );
}

proof fn lemma_grammar_instruction()
    ensures
        one_line(GRAMMAR_INSTRUCTION@),
        GRAMMAR_INSTRUCTION@.len() > 0,
        GRAMMAR_INSTRUCTION@[0] == 'F',
{
    reveal_strlit(
        "Fix any grammar, spelling, and punctuation errors. Preserve the original phrasing and tone as much as possible. Return only the corrected text.",
    );
}

proof fn lemma_formal_instruction()
    ensures
        one_line(FORMAL_INSTRUCTION@),
        FORMAL_INSTRUCTION@.len() > 0,
        FORMAL_INSTRUCTION@[0] == 'R',
{
    reveal_strlit(
        "Rewrite in a formal, professional register. Keep the core message intact. Return only the rewritten text.",
    );
}

proof fn lemma_casual_instruction()
    ensures
        one_line(CASUAL_INSTRUCTION@),
        CASUAL_INSTRUCTION@.len() > 0,
        CASUAL_INSTRUCTION@[0] == 'R',
{
    reveal_strlit(
        "Rewrite in a casual, conversational tone. Keep the main ideas. Return only the rewritten text.",
    );
}

proof fn lemma_concise_instruction()
    ensures
        one_line(CONCISE_INSTRUCTION@),
        CONCISE_INSTRUCTION@.len() > 0,
        CONCISE_INSTRUCTION@[0] == 'R',
{
    reveal_strlit(
        "Rewrite more concisely, removing unnecessary words and filler phrases. Preserve all key information. Return only the rewritten text.",
    );
}

proof fn lemma_elaborate_instruction()
    ensures
        one_line(ELABORATE_INSTRUCTION@),
        ELABORATE_INSTRUCTION@.len() > 0,
        ELABORATE_INSTRUCTION@[0] == 'E',
{
    reveal_strlit(
        "Expand the text with additional detail, context, and supporting ideas. Return only the elaborated version.",
    );
}

proof fn lemma_creative_instruction()
    ensures
        one_line(CREATIVE_INSTRUCTION@),
        CREATIVE_INSTRUCTION@.len() > 0,
        CREATIVE_INSTRUCTION@[0] == 'R',
{
    reveal_strlit(
        "Rewrite creatively with vivid language while preserving the meaning. Return only the rewritten text.",
    );
}

proof fn lemma_instructions(style: Style)
    ensures
        one_line(style.instruction_text()),
        style.instruction_text().len() > 0,
        style.instruction_text()[0] != '-',
{
    lemma_grammar_instruction();
    lemma_formal_instruction();
    lemma_casual_instruction();
    lemma_concise_instruction();
    lemma_elaborate_instruction();
    lemma_creative_instruction();
}

/// In the format of the Phi models the prefix of a prompt is all that stands in
/// front of the text of the caller; what is left is that text, without the
/// white space around it, and the closing tags.
pub proof fn phi_prefix_ends_where_the_text_begins(text: Seq<char>, style: Style)
    ensures
        ({
            let prompt = phi_prompt_text(user_message_text(text, style));
            &&& prompt.take(prefix_end(prompt)) == "<|system|>\n"@ + SYSTEM_PROMPT@
                + "<|end|>\n<|user|>\n"@ + style.instruction_text() + "\n"@ + SEPARATOR@
            &&& prompt.skip(prefix_end(prompt)) == trimmed(text) + "<|end|>\n<|assistant|>\n"@
        }),
{
    reveal_strlit("<|system|>\n");
    reveal_strlit("<|end|>\n<|user|>\n");
    reveal_strlit("\n");
    reveal_strlit("\n---\n");
    lemma_system_prompt();
    lemma_instructions(style);
    let a = "<|system|>\n"@;
    let b = SYSTEM_PROMPT@;
    let c = "<|end|>\n<|user|>\n"@;
    let d = style.instruction_text();
    let e = "\n"@;
    let sep = SEPARATOR@;
    let head = a + b + c + d + e + sep;
    let rest = trimmed(text) + "<|end|>\n<|assistant|>\n"@;
    let prompt = phi_prompt_text(user_message_text(text, style));
    let at = head.len() - sep.len();
    assert(prompt =~= head + rest);
    assert(head.subrange(at, at + sep.len()) =~= sep);
    end_of_first_ignores_the_rest(head, sep, rest, at);
    assert forall|j: int| 0 <= j < at implies !occurs_at(head, sep, j) by {
        if occurs_at(head, sep, j) {
            let found = head.subrange(j, j + sep.len());
            assert(found[0] == head[j]);
            assert(found[1] == head[j + 1]);
            assert(head[j] == '\n' && head[j + 1] == '-');
            let n1 = a.len() as int;
            let n2 = n1 + b.len();
            let n3 = n2 + c.len();
            let n4 = n3 + d.len();
            if j < n1 {
                assert(head[j] == a[j]);
                assert(j == n1 - 1);
                assert(head[j + 1] == b[0]);
            } else if j < n2 {
                assert(head[j] == b[j - n1]);
            } else if j < n3 {
                assert(head[j] == c[j - n2]);
                if j < n3 - 1 {
                    assert(head[j + 1] == c[j + 1 - n2]);
                } else {
                    assert(head[j + 1] == d[0]);
                }
            } else if j < n4 {
                assert(head[j] == d[j - n3]);
            } else {
                assert(j == n4);
                assert(head[j + 1] == sep[0]);
            }
        }
    }
    assert(occurs_first_at(head, sep, at));
    first_occurrence_ends_there(head, sep, at);
    assert(prompt.take(prefix_end(prompt)) =~= head);
    assert(prompt.skip(prefix_end(prompt)) =~= rest);
}

} // verus!
