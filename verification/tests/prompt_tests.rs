use llm_backend::prompt::{FENCE_CLOSE, FENCE_OPEN};
use llm_backend::{analysis_prompt, CORRECT_ANSWER, IMPROVEMENT_PREFIX, SYNTAX_ERROR_PREFIX};

/// The prompt as it must read for `code`, written out in one piece.
fn expected_prompt(code: &str) -> String {
    format!(
        "Analyze the following Rust code and return one of these responses:
        
        - ✅ **If the code is correct:** Return exactly this: `The code is correct.`
        - ❌ **If there are errors:** Clearly state the error and provide the corrected version.
        - 🔍 **If improvements can be made:** Suggest improvements but keep the original functionality.

        **Rust Code to Analyze:**
        ```rust
        {}
        ```
        
        **Your response must be one of these three formats ONLY:**
        1️⃣ `The code is correct.`
        2️⃣ `Syntax error: <explanation>. Corrected code:\n<corrected code>`
        3️⃣ `Improvement suggestion: <explanation>. Improved code:\n<improved code>`",
        code
    )
}

/// Codes of many kinds: empty, plain, with the prompt's own delimiters, with wide characters.
fn sample_codes() -> Vec<String> {
    vec![
        String::new(),
        String::from("fn main() {}"),
        String::from("fn main() {\n    println!(\"hi\");\n}\n"),
        String::from("```"),
        String::from("```rust\n        fn f() {}\n        ```"),
        String::from("{}"),
        String::from("{0} {{ }} \\n"),
        String::from("The code is correct."),
        String::from("Syntax error: Improvement suggestion: "),
        String::from("let s = \"héllo ✅ 🔍 1️⃣\";"),
        String::from("this is not code at all"),
        "x".repeat(5000),
    ]
}

#[test]
fn response_format_literals_have_their_exact_wording() {
    assert_eq!(CORRECT_ANSWER, "The code is correct.");
    assert_eq!(SYNTAX_ERROR_PREFIX, "Syntax error: ");
    assert_eq!(IMPROVEMENT_PREFIX, "Improvement suggestion: ");
}

#[test]
fn fence_literals_have_their_exact_wording() {
    assert_eq!(FENCE_OPEN, "```rust\n        ");
    assert_eq!(FENCE_CLOSE, "\n        ```");
}

#[test]
fn prompt_for_simple_code_reads_exactly_as_the_template() {
    let prompt = analysis_prompt("fn main() {}");
    let expected = "Analyze the following Rust code and return one of these responses:\n        \n        - ✅ **If the code is correct:** Return exactly this: `The code is correct.`\n        - ❌ **If there are errors:** Clearly state the error and provide the corrected version.\n        - 🔍 **If improvements can be made:** Suggest improvements but keep the original functionality.\n\n        **Rust Code to Analyze:**\n        ```rust\n        fn main() {}\n        ```\n        \n        **Your response must be one of these three formats ONLY:**\n        1\u{fe0f}\u{20e3} `The code is correct.`\n        2\u{fe0f}\u{20e3} `Syntax error: <explanation>. Corrected code:\n<corrected code>`\n        3\u{fe0f}\u{20e3} `Improvement suggestion: <explanation>. Improved code:\n<improved code>`";
    assert_eq!(prompt, expected);
}

#[test]
fn prompt_reads_as_the_template_for_every_sample() {
    for code in sample_codes() {
        assert_eq!(analysis_prompt(&code), expected_prompt(&code));
    }
}

#[test]
fn prompt_for_empty_code_is_well_formed() {
    let prompt = analysis_prompt("");
    assert_eq!(prompt, expected_prompt(""));
    assert!(prompt.contains("```rust\n        \n        ```"));
    assert!(prompt.contains("The code is correct."));
    assert!(prompt.contains("Syntax error: "));
    assert!(prompt.contains("Improvement suggestion: "));
}

#[test]
fn prompt_contains_the_code_verbatim() {
    for code in sample_codes() {
        let prompt = analysis_prompt(&code);
        assert!(prompt.contains(code.as_str()));
    }
}

#[test]
fn prompt_holds_the_code_inside_its_fence_at_a_fixed_place() {
    let offset = analysis_prompt("").find("```rust\n        ").unwrap() + "```rust\n        ".len();
    for code in sample_codes() {
        let prompt = analysis_prompt(&code);
        let fenced = format!("{}{}{}", FENCE_OPEN, code, FENCE_CLOSE);
        assert!(prompt.contains(fenced.as_str()));
        assert_eq!(&prompt[offset..offset + code.len()], code.as_str());
        assert!(prompt[offset + code.len()..].starts_with(FENCE_CLOSE));
    }
}

#[test]
fn prompt_names_all_three_response_formats() {
    for code in sample_codes() {
        let prompt = analysis_prompt(&code);
        assert!(prompt.contains(CORRECT_ANSWER));
        assert!(prompt.contains(SYNTAX_ERROR_PREFIX));
        assert!(prompt.contains(IMPROVEMENT_PREFIX));
        assert!(prompt.contains("1️⃣ `The code is correct.`"));
        assert!(prompt.contains("2️⃣ `Syntax error: <explanation>. Corrected code:\n<corrected code>`"));
        assert!(prompt
            .contains("3️⃣ `Improvement suggestion: <explanation>. Improved code:\n<improved code>`"));
    }
}

#[test]
fn prompt_is_the_same_for_the_same_code() {
    for code in sample_codes() {
        let first = analysis_prompt(&code);
        let second = analysis_prompt(&code);
        assert_eq!(first, second);
    }
}

#[test]
fn prompts_differ_where_codes_differ() {
    let codes = sample_codes();
    for (i, a) in codes.iter().enumerate() {
        for (j, b) in codes.iter().enumerate() {
            assert_eq!(analysis_prompt(a) == analysis_prompt(b), i == j);
        }
    }
}

#[test]
fn prompt_does_not_escape_fence_delimiters_in_the_code() {
    let code = "```\nfn f() {}\n```";
    let prompt = analysis_prompt(code);
    assert_eq!(prompt.matches("```").count(), 4);
    assert!(prompt.contains("```rust\n        ```\nfn f() {}\n```\n        ```"));
}

#[test]
fn prompt_length_grows_with_the_code_alone() {
    let base = analysis_prompt("").chars().count();
    for code in sample_codes() {
        assert_eq!(analysis_prompt(&code).chars().count(), base + code.chars().count());
    }
}
