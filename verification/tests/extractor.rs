use format_core::block::{extract_code_blocks, CodeBlock};

fn block(language: Option<&str>, code: Option<&str>) -> CodeBlock {
    CodeBlock {
        language: language.map(|s| s.to_string()),
        code: code.map(|s| s.to_string()),
    }
}

#[test]
fn plain_text_yields_nothing() {
    assert_eq!(extract_code_blocks("hello world"), vec![]);
    assert_eq!(extract_code_blocks(""), vec![]);
    assert_eq!(extract_code_blocks("no fences\nanywhere here\n"), vec![]);
}

#[test]
fn single_block() {
    let blocks = extract_code_blocks("```rust\nfn main(){}\n```");
    assert_eq!(blocks, vec![block(Some("rust"), Some("fn main(){}"))]);
}

#[test]
fn block_with_surrounding_prose() {
    let blocks = extract_code_blocks("look at this:\n```js\nlet x = 1;\n```\nnice, right?");
    assert_eq!(blocks, vec![block(Some("js"), Some("let x = 1;"))]);
}

#[test]
fn empty_tag_is_absent() {
    let blocks = extract_code_blocks("```\ncode\n```");
    assert_eq!(blocks, vec![block(None, Some("code"))]);
}

#[test]
fn empty_body_is_absent() {
    let blocks = extract_code_blocks("```rust\n\n```");
    assert_eq!(blocks, vec![block(Some("rust"), None)]);
}

#[test]
fn empty_tag_and_body_are_absent() {
    let blocks = extract_code_blocks("```\n\n```");
    assert_eq!(blocks, vec![block(None, None)]);
}

#[test]
fn unterminated_fence_yields_nothing() {
    assert_eq!(extract_code_blocks("```rust\nfn main(){}"), vec![]);
    assert_eq!(extract_code_blocks("```rust\nfn main(){}\n"), vec![]);
}

#[test]
fn multiline_body_is_kept_whole() {
    let blocks = extract_code_blocks("```rust\nfn main() {\n    go();\n}\n```");
    assert_eq!(blocks, vec![block(Some("rust"), Some("fn main() {\n    go();\n}"))]);
}

#[test]
fn adjacent_blocks_are_separate() {
    let blocks = extract_code_blocks("```a\none\n```\n```b\ntwo\n```");
    assert_eq!(
        blocks,
        vec![block(Some("a"), Some("one")), block(Some("b"), Some("two"))]
    );
}

#[test]
fn matching_is_not_greedy() {
    // The first block must close at the first closing fence, not at the last.
    let blocks = extract_code_blocks("```a\none\n```\nprose\n```b\ntwo\n```");
    assert_eq!(
        blocks,
        vec![block(Some("a"), Some("one")), block(Some("b"), Some("two"))]
    );
}

#[test]
fn delimiter_like_text_inside_body_is_kept() {
    // Three backticks not preceded by a newline do not close the fence.
    let blocks = extract_code_blocks("```md\nuse ``` inline\n```");
    assert_eq!(blocks, vec![block(Some("md"), Some("use ``` inline"))]);
}

#[test]
fn opening_fence_must_start_a_line() {
    assert_eq!(extract_code_blocks("x```rust\ncode\n```"), vec![]);
}

#[test]
fn tag_stops_at_whitespace() {
    // A tag line with trailing content after the tag is not an opening fence.
    assert_eq!(extract_code_blocks("```rust x\ncode\n```"), vec![]);
}

#[test]
fn tag_may_hold_punctuation() {
    let blocks = extract_code_blocks("```c++\nint main();\n```");
    assert_eq!(blocks, vec![block(Some("c++"), Some("int main();"))]);
}

#[test]
fn unterminated_tail_after_complete_block() {
    let blocks = extract_code_blocks("```a\none\n```\n```b\ntwo");
    assert_eq!(blocks, vec![block(Some("a"), Some("one"))]);
}
