use cargo_readme::{DocTransform, DocTransformer};

fn lines(text: &[&str]) -> Vec<String> {
    text.iter().map(|x| x.to_string()).collect()
}

const INPUT_HIDDEN_LINE: &[&str] = &[
    "```",
    "#[visible]",
    "let visible = \"visible\";",
    "# let hidden = \"hidden\";",
    "```",
];

const EXPECTED_HIDDEN_LINE: &[&str] = &[
    "```rust",
    "#[visible]",
    "let visible = \"visible\";",
    "```",
];

#[test]
fn hide_line_in_rust_code_block() {
    let input = lines(INPUT_HIDDEN_LINE);
    let expected = lines(EXPECTED_HIDDEN_LINE);

    let result: Vec<_> = DocTransformer::new(input, true).collect();

    assert_eq!(result, expected);
}

const INPUT_NOT_HIDDEN_LINE: &[&str] = &[
    "```",
    "let visible = \"visible\";",
    "# let hidden = \"hidden\";",
    "```",
    "",
    "```python",
    "# this line is visible",
    "visible = True",
    "```",
];

const EXPECTED_NOT_HIDDEN_LINE: &[&str] = &[
    "```rust",
    "let visible = \"visible\";",
    "```",
    "",
    "```python",
    "# this line is visible",
    "visible = True",
    "```",
];

#[test]
fn do_not_hide_line_in_code_block() {
    let input = lines(INPUT_NOT_HIDDEN_LINE);
    let expected = lines(EXPECTED_NOT_HIDDEN_LINE);

    let result: Vec<_> = DocTransformer::new(input, true).collect();

    assert_eq!(result, expected);
}

const INPUT_RUST_CODE_BLOCK: &[&str] = &[
    "```",
    "let block = \"simple code block\";",
    "```",
    "",
    "```no_run",
    "let run = false;",
    "```",
    "",
    "```ignore",
    "let ignore = true;",
    "```",
    "",
    "```should_panic",
    "panic!(\"at the disco\");",
    "```",
    "",
    "```C",
    "int i = 0; // no rust code",
    "```",
];

const EXPECTED_RUST_CODE_BLOCK: &[&str] = &[
    "```rust",
    "let block = \"simple code block\";",
    "```",
    "",
    "```rust",
    "let run = false;",
    "```",
    "",
    "```rust",
    "let ignore = true;",
    "```",
    "",
    "```rust",
    "panic!(\"at the disco\");",
    "```",
    "",
    "```C",
    "int i = 0; // no rust code",
    "```",
];

#[test]
fn transform_rust_code_block() {
    let input = lines(INPUT_RUST_CODE_BLOCK);
    let expected = lines(EXPECTED_RUST_CODE_BLOCK);

    let result: Vec<_> = DocTransformer::new(input, true).collect();

    assert_eq!(result, expected);
}

const INPUT_RUST_CODE_BLOCK_RUST_PREFIX: &[&str] = &[
    "```rust",
    "let block = \"simple code block\";",
    "```",
    "",
    "```rust,no_run",
    "let run = false;",
    "```",
    "",
    "```rust,ignore",
    "let ignore = true;",
    "```",
    "",
    "```rust,should_panic",
    "panic!(\"at the disco\");",
    "```",
    "",
    "```C",
    "int i = 0; // no rust code",
    "```",
];

#[test]
fn transform_rust_code_block_with_prefix() {
    let input = lines(INPUT_RUST_CODE_BLOCK_RUST_PREFIX);
    let expected = lines(EXPECTED_RUST_CODE_BLOCK);

    let result: Vec<_> = DocTransformer::new(input, true).collect();

    assert_eq!(result, expected);
}

const INPUT_TEXT_BLOCK: &[&str] = &["```text", "this is text", "```"];

const EXPECTED_TEXT_BLOCK: &[&str] = &["```", "this is text", "```"];

#[test]
fn transform_text_block() {
    let input = lines(INPUT_TEXT_BLOCK);
    let expected = lines(EXPECTED_TEXT_BLOCK);

    let result: Vec<_> = DocTransformer::new(input, true).collect();

    assert_eq!(result, expected);
}

const INPUT_OTHER_CODE_BLOCK_WITH_SYMBOLS: &[&str] = &[
    "```html,django",
    "{% if True %}True{% endif %}",
    "```",
    "",
    "```html+django",
    "{% if True %}True{% endif %}",
    "```",
];

#[test]
fn transform_other_code_block_with_symbols() {
    let input = lines(INPUT_OTHER_CODE_BLOCK_WITH_SYMBOLS);
    let expected = lines(INPUT_OTHER_CODE_BLOCK_WITH_SYMBOLS);

    let result: Vec<_> = DocTransformer::new(input, true).collect();

    assert_eq!(result, expected);
}

const INPUT_INDENT_HEADINGS: &[&str] = &[
    "# heading 1",
    "some text",
    "## heading 2",
    "some other text",
];

const EXPECTED_INDENT_HEADINGS: &[&str] = &[
    "## heading 1",
    "some text",
    "### heading 2",
    "some other text",
];

#[test]
fn indent_markdown_headings() {
    let input = lines(INPUT_INDENT_HEADINGS);
    let expected: Vec<_> = EXPECTED_INDENT_HEADINGS.to_vec();

    let result: Vec<_> = DocTransformer::new(input, true).collect();

    assert_eq!(result, expected);
}

#[test]
fn do_not_indent_markdown_headings() {
    let input = lines(INPUT_INDENT_HEADINGS);
    let expected: Vec<_> = INPUT_INDENT_HEADINGS.to_vec();

    let result: Vec<_> = DocTransformer::new(input, false).collect();

    assert_eq!(result, expected);
}

#[test]
fn canonical_document_is_fixed_point() {
    let doc = lines(&[
        "# crate",
        "```rust",
        "let x = 1;",
        "```",
        "",
        "```python",
        "# comment",
        "```",
    ]);
    let once = DocTransformer::new(doc.clone(), false).collect();
    assert_eq!(once, doc);
    let twice = DocTransformer::new(once.clone(), false).collect();
    assert_eq!(twice, once);
}

#[test]
fn every_rust_fence_spelling_becomes_rust() {
    for fence in [
        "```",
        "```rust",
        "```no_run",
        "```ignore",
        "```should_panic",
        "```rust,no_run",
        "```rust,ignore",
        "```rust,should_panic",
    ] {
        let result = DocTransformer::new(lines(&[fence, "# hidden", "shown", "```"]), true).collect();
        assert_eq!(result, lines(&["```rust", "shown", "```"]), "fence {}", fence);
    }
}

#[test]
fn foreign_fence_passes_through() {
    let input = lines(&["```C", "# define X 1", "int i = 0;", "```"]);
    let result = DocTransformer::new(input.clone(), true).collect();
    assert_eq!(result, input);
}

#[test]
fn fence_with_space_before_tag_is_prose() {
    let input = lines(&["``` rust", "# heading", "``` {.rust}"]);
    let result = DocTransformer::new(input, true).collect();
    assert_eq!(result, lines(&["``` rust", "## heading", "``` {.rust}"]));
}

#[test]
fn non_ascii_word_tag_is_foreign() {
    let input = lines(&["```héllo", "# kept", "```"]);
    let result = DocTransformer::new(input.clone(), true).collect();
    assert_eq!(result, input);
}

#[test]
fn heading_demoted_twice() {
    let once = DocTransformer::new(lines(&["# H1"]), true).collect();
    assert_eq!(once, lines(&["## H1"]));
    let twice = DocTransformer::new(once, true).collect();
    assert_eq!(twice, lines(&["### H1"]));
    let kept = DocTransformer::new(lines(&["# H1"]), false).collect();
    assert_eq!(kept, lines(&["# H1"]));
}

#[test]
fn headings_inside_code_are_kept() {
    let input = lines(&["```python", "# not a heading", "```", "#[attr]"]);
    let result = DocTransformer::new(input, true).collect();
    assert_eq!(result, lines(&["```python", "# not a heading", "```", "##[attr]"]));
}

#[test]
fn text_fence_loses_tag() {
    let result = DocTransformer::new(lines(&["```text", "line", "```"]), true).collect();
    assert_eq!(result, lines(&["```", "line", "```"]));
}

#[test]
fn end_to_end_scenario() {
    let input = lines(&["```", "#[visible]", "let x = 1;", "# let hidden = 2;", "```"]);
    let result = input.transform_doc(true).collect();
    assert_eq!(result, lines(&["```rust", "#[visible]", "let x = 1;", "```"]));
}

#[test]
fn unterminated_fence_stays_open() {
    let result = DocTransformer::new(lines(&["```rust", "let x = 1;"]), true).collect();
    assert_eq!(result, lines(&["```rust", "let x = 1;"]));
}

#[test]
fn trailing_hidden_line_gives_no_output() {
    let mut t = DocTransformer::new(lines(&["```", "# setup();"]), true);
    assert_eq!(t.next(), Some("```rust".to_string()));
    assert_eq!(t.next(), None);
    assert_eq!(t.next(), None);
}

#[test]
fn hidden_lines_before_close_are_skipped() {
    let input = lines(&["```", "# a", "# b", "```", "# Title"]);
    let result = DocTransformer::new(input, true).collect();
    assert_eq!(result, lines(&["```rust", "```", "## Title"]));
}

#[test]
fn empty_document() {
    let result = DocTransformer::new(Vec::new(), true).collect();
    assert!(result.is_empty());
}

#[test]
fn lines_are_produced_one_at_a_time() {
    let mut t = DocTransformer::new(lines(&["# A", "```no_run", "x", "```"]), false);
    assert_eq!(t.next(), Some("# A".to_string()));
    assert_eq!(t.next(), Some("```rust".to_string()));
    assert_eq!(t.next(), Some("x".to_string()));
    assert_eq!(t.next(), Some("```".to_string()));
    assert_eq!(t.next(), None);
}
