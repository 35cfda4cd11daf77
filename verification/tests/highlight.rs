use sandbox_dispatch::highlight::{highlight_arguments, highlighted, highlighter, lexer};
use sandbox_dispatch::{CompileOutput, ExitStatus};

/// What a highlighter would write for a text: the text in one span.
fn written_for(text: &str) -> Vec<u8> {
    format!("<div class=\"highlight\"><pre><span class=\"n\">{}</span>\n</pre></div>\n", text).into_bytes()
}

#[test]
fn pygmentize() {
    assert_eq!(highlighter(), "pygmentize");
    assert_eq!(highlight_arguments(CompileOutput::Llvm), vec!["-l", "llvm", "-f", "html"]);
    let html = highlighted(ExitStatus::from_raw(0), written_for("target triple")).unwrap();
    assert!(html.contains("<span"));
    assert!(html.contains("target triple"));
}

#[test]
fn lexer_goes_by_the_kind_of_output() {
    assert_eq!(lexer(CompileOutput::Asm), "gas");
    assert_eq!(lexer(CompileOutput::Llvm), "llvm");
    assert_eq!(lexer(CompileOutput::Mir), "text");
    assert_eq!(highlight_arguments(CompileOutput::Asm), vec!["-l", "gas", "-f", "html"]);
    assert_eq!(highlight_arguments(CompileOutput::Mir), vec!["-l", "text", "-f", "html"]);
}

#[test]
fn highlighted_text_is_what_was_written() {
    let written = "<pre>\u{e9}\u{4e16}\u{1f600} &amp; more</pre>\n";
    assert_eq!(
        highlighted(ExitStatus::from_raw(0), written.as_bytes().to_vec()),
        Some(String::from(written))
    );
    assert_eq!(highlighted(ExitStatus::from_raw(0), Vec::new()), Some(String::new()));
}

#[test]
fn highlighter_that_failed_gives_nothing() {
    assert_eq!(highlighted(ExitStatus::from_raw(256), written_for("x")), None);
    assert_eq!(highlighted(ExitStatus::from_raw(9), written_for("x")), None);
    assert_eq!(highlighted(ExitStatus::from_raw(-1), Vec::new()), None);
}

#[test]
fn output_that_is_no_utf8_gives_nothing() {
    assert_eq!(highlighted(ExitStatus::from_raw(0), vec![0xff]), None);
    assert_eq!(highlighted(ExitStatus::from_raw(0), vec![b'a', 0xc3]), None);
    assert_eq!(highlighted(ExitStatus::from_raw(0), vec![0xed, 0xa0, 0x80]), None);
    assert_eq!(highlighted(ExitStatus::from_raw(0), vec![0xc0, 0x80]), None);
    assert_eq!(highlighted(ExitStatus::from_raw(0), vec![0xc3, 0xa9]), Some(String::from("\u{e9}")));
}
