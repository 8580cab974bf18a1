use mdmg::markdown::parse;
use mdmg::scaffold::Scaffold;

#[test]
fn parse_is_return_to_one_scaffold() {
    let markdown = r#"
## src/foobar.rs
```rust
use crate::Result;

fn something() -> Result<String> {
    unimplemented!()
}

#[cfg(test)]
mod tests {
    use suepr::*;

    #[test]
    fn test_something() {
    }
}
```
"#;
    let scaffolds = parse(markdown).unwrap();
    let file_body = r#"use crate::Result;

fn something() -> Result<String> {
    unimplemented!()
}

#[cfg(test)]
mod tests {
    use suepr::*;

    #[test]
    fn test_something() {
    }
}
"#
    .to_string();
    assert_eq!(
        scaffolds,
        vec![Scaffold::Complete {
            file_name: "src/foobar.rs".to_string(),
            file_body
        }]
    )
}

#[test]
fn parse_yields_nothing_without_level_two_headings() {
    let markdown = "# top level\n\nplain text body\n\n### deeper heading\n\n```\ncode\n```\n";
    assert_eq!(parse(markdown).unwrap(), vec![]);

    assert_eq!(parse("").unwrap(), vec![]);
    assert_eq!(parse("just a sentence").unwrap(), vec![]);
}

#[test]
fn parse_keeps_an_unmatched_heading_pending() {
    let scaffolds = parse("## src/alone.rs\n\nno code block follows\n").unwrap();
    assert_eq!(
        scaffolds,
        vec![Scaffold::Pending {
            file_name: "src/alone.rs".to_string()
        }]
    );
}

#[test]
fn parse_pairs_a_heading_with_its_code_block() {
    let markdown = "## src/foo.rs\n\n```\nfn main() {}\n```\n";
    let scaffolds = parse(markdown).unwrap();
    assert_eq!(
        scaffolds,
        vec![Scaffold::Complete {
            file_name: "src/foo.rs".to_string(),
            file_body: "fn main() {}\n".to_string()
        }]
    );
}

#[test]
fn parse_handles_two_pairs_in_order() {
    let markdown = "## a.md\n\n```\nfirst\n```\n\n## b.md\n\n```\nsecond\n```\n";
    let scaffolds = parse(markdown).unwrap();
    assert_eq!(
        scaffolds,
        vec![
            Scaffold::Complete {
                file_name: "a.md".to_string(),
                file_body: "first\n".to_string()
            },
            Scaffold::Complete {
                file_name: "b.md".to_string(),
                file_body: "second\n".to_string()
            },
        ]
    );
}

#[test]
fn parse_completes_the_first_pending_heading() {
    let markdown = "## one.md\n\n## two.md\n\n```\nbody\n```\n";
    let scaffolds = parse(markdown).unwrap();
    assert_eq!(
        scaffolds,
        vec![
            Scaffold::Pending {
                file_name: "two.md".to_string()
            },
            Scaffold::Complete {
                file_name: "one.md".to_string(),
                file_body: "body\n".to_string()
            },
        ]
    );
}

#[test]
fn parse_ignores_a_heading_without_text() {
    let markdown = "##\n\n```\nbody\n```\n";
    assert_eq!(parse(markdown).unwrap(), vec![]);
}

#[test]
fn parse_ignores_a_code_block_without_a_heading() {
    let markdown = "```\norphan\n```\n";
    assert_eq!(parse(markdown).unwrap(), vec![]);
}
