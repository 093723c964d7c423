use crate::text::{contains_text, lemma_contains_within, lemma_occurs_between, occurs_at};
use vstd::prelude::*;
use vstd::string::*;

verus! {

/// The whole answer asked of the model for code that needs no change.
pub const CORRECT_ANSWER: &'static str = "The code is correct.";

/// How the model's answer must begin where the code has an error.
pub const SYNTAX_ERROR_PREFIX: &'static str = "Syntax error: ";

/// How the model's answer must begin where it proposes an improvement.
pub const IMPROVEMENT_PREFIX: &'static str = "Improvement suggestion: ";

/// Opens the fenced block that holds the code.
pub const FENCE_OPEN: &'static str = "```rust\n        ";

/// Closes the fenced block that holds the code.
pub const FENCE_CLOSE: &'static str = "\n        ```";

/// The task, up to the answer for correct code.
pub const TASK_HEAD: &'static str =
    "Analyze the following Rust code and return one of these responses:\n        \n        - ✅ **If the code is correct:** Return exactly this: `";

/// The two other cases of the task, and the heading of the code block.
pub const TASK_TAIL: &'static str =
    "`\n        - ❌ **If there are errors:** Clearly state the error and provide the corrected version.\n        - 🔍 **If improvements can be made:** Suggest improvements but keep the original functionality.\n\n        **Rust Code to Analyze:**\n        ";

/// The heading of the list of answer formats, up to the first format.
pub const FORMATS_HEAD: &'static str =
    "\n        \n        **Your response must be one of these three formats ONLY:**\n        1️⃣ `";

/// Leads from the first answer format to the second.
pub const FORMATS_SECOND: &'static str = "`\n        2️⃣ `";

/// What follows the prefix of the second answer format, up to the third format.
pub const FORMATS_THIRD: &'static str =
    "<explanation>. Corrected code:\n<corrected code>`\n        3️⃣ `";

/// What follows the prefix of the third answer format.
pub const FORMATS_END: &'static str = "<explanation>. Improved code:\n<improved code>`";

/// What the prompt says before the code: the task and its three cases.
pub open spec fn task_text() -> Seq<char> {
    TASK_HEAD@ + CORRECT_ANSWER@ + TASK_TAIL@
}

/// The code inside its fence, unchanged.
pub open spec fn fenced_block(code: Seq<char>) -> Seq<char> {
    FENCE_OPEN@ + code + FENCE_CLOSE@
}

/// What the prompt says behind the code: the three formats an answer may take.
pub open spec fn formats_text() -> Seq<char> {
    FORMATS_HEAD@ + CORRECT_ANSWER@ + FORMATS_SECOND@ + SYNTAX_ERROR_PREFIX@ + FORMATS_THIRD@
        + IMPROVEMENT_PREFIX@ + FORMATS_END@
}

/// The instruction handed to the model for `code`: the task, the fenced code, the formats.
pub open spec fn analysis_prompt_text(code: Seq<char>) -> Seq<char> {
    task_text() + fenced_block(code) + formats_text()
}

/// Where the code starts in the prompt: the same place for every code.
pub open spec fn code_offset() -> int {
    (task_text() + FENCE_OPEN@).len() as int
}

/// Builds the instruction that asks the model to analyse `code`. The code goes into a fenced
/// block as it is, whatever it holds; the text around it is fixed.
pub fn analysis_prompt(code: &str) -> (prompt: String)
    ensures
        prompt@ == analysis_prompt_text(code@),
        occurs_at(prompt@, code@, code_offset()),
        contains_text(prompt@, code@),
        contains_text(prompt@, fenced_block(code@)),
        contains_text(prompt@, CORRECT_ANSWER@),
        contains_text(prompt@, SYNTAX_ERROR_PREFIX@),
        contains_text(prompt@, IMPROVEMENT_PREFIX@),
{
    let mut prompt = String::from_str(TASK_HEAD);
    prompt.append(CORRECT_ANSWER);
    prompt.append(TASK_TAIL);
    prompt.append(FENCE_OPEN);
    prompt.append(code);
    prompt.append(FENCE_CLOSE);
    prompt.append(FORMATS_HEAD);
    prompt.append(CORRECT_ANSWER);
    prompt.append(FORMATS_SECOND);
    prompt.append(SYNTAX_ERROR_PREFIX);
    prompt.append(FORMATS_THIRD);
    prompt.append(IMPROVEMENT_PREFIX);
    prompt.append(FORMATS_END);
    proof {
        assert(prompt@ =~= analysis_prompt_text(code@));
        lemma_prompt_embeds_code(code@);
        lemma_prompt_states_formats(code@);
    }
    prompt
}

/// The prompt holds the code verbatim: inside its fence, at `code_offset()`.
pub proof fn lemma_prompt_embeds_code(code: Seq<char>)
    ensures
        occurs_at(analysis_prompt_text(code), code, code_offset()),
        contains_text(analysis_prompt_text(code), code),
        contains_text(analysis_prompt_text(code), fenced_block(code)),
{
    let whole = analysis_prompt_text(code);
    lemma_occurs_between(task_text(), fenced_block(code), formats_text());
    lemma_occurs_between(task_text() + FENCE_OPEN@, code, FENCE_CLOSE@ + formats_text());
    assert(whole =~= (task_text() + FENCE_OPEN@) + code + (FENCE_CLOSE@ + formats_text()));
}

/// Whatever the code, the prompt names all three answer formats word for word.
pub proof fn lemma_prompt_states_formats(code: Seq<char>)
    ensures
        contains_text(analysis_prompt_text(code), CORRECT_ANSWER@),
        contains_text(analysis_prompt_text(code), SYNTAX_ERROR_PREFIX@),
        contains_text(analysis_prompt_text(code), IMPROVEMENT_PREFIX@),
{
    let formats = formats_text();
    let lead = task_text() + fenced_block(code);
    let none = Seq::<char>::empty();
    assert(analysis_prompt_text(code) =~= lead + formats + none);

    let before_syntax = FORMATS_HEAD@ + CORRECT_ANSWER@ + FORMATS_SECOND@;
    let after_syntax = FORMATS_THIRD@ + IMPROVEMENT_PREFIX@ + FORMATS_END@;
    lemma_occurs_between(before_syntax, SYNTAX_ERROR_PREFIX@, after_syntax);
    assert(formats =~= before_syntax + SYNTAX_ERROR_PREFIX@ + after_syntax);
    lemma_contains_within(lead, formats, none, SYNTAX_ERROR_PREFIX@);

    let before_improvement = before_syntax + SYNTAX_ERROR_PREFIX@ + FORMATS_THIRD@;
    lemma_occurs_between(before_improvement, IMPROVEMENT_PREFIX@, FORMATS_END@);
    assert(formats =~= before_improvement + IMPROVEMENT_PREFIX@ + FORMATS_END@);
    lemma_contains_within(lead, formats, none, IMPROVEMENT_PREFIX@);

    let after_answer = FORMATS_SECOND@ + SYNTAX_ERROR_PREFIX@ + after_syntax;
    lemma_occurs_between(FORMATS_HEAD@, CORRECT_ANSWER@, after_answer);
    assert(formats =~= FORMATS_HEAD@ + CORRECT_ANSWER@ + after_answer);
    lemma_contains_within(lead, formats, none, CORRECT_ANSWER@);
}

/// The prompt depends on the code alone: the same code gives the same prompt, every time.
pub proof fn lemma_prompt_deterministic(first: Seq<char>, second: Seq<char>)
    requires
        first == second,
    ensures
        analysis_prompt_text(first) == analysis_prompt_text(second),
{
}

/// Nothing of the code is lost or rewritten: two prompts agree only where their codes do.
pub proof fn lemma_prompt_keeps_code(first: Seq<char>, second: Seq<char>)
    requires
        analysis_prompt_text(first) == analysis_prompt_text(second),
    ensures
        first == second,
{
    lemma_prompt_embeds_code(first);
    lemma_prompt_embeds_code(second);
    assert(analysis_prompt_text(first).len() == code_offset() + first.len() + FENCE_CLOSE@.len()
        + formats_text().len());
    assert(analysis_prompt_text(second).len() == code_offset() + second.len() + FENCE_CLOSE@.len()
        + formats_text().len());
}

} // verus!
