//! Highlighting compiler output: which highlighter to start with which
//! arguments, and what to make of what it wrote. Starting it is the caller's
//! work.

use vstd::prelude::*;
use vstd::utf8::{decode_utf8, valid_utf8};

use crate::options::CompileOutput;
use crate::request::ExitStatus;

verus! {

/// The lexer that reads an artifact of the kind: assembly is read as GNU
/// assembler text, LLVM IR as such, and MIR as plain text.
pub open spec fn lexer_name(kind: CompileOutput) -> Seq<char> {
    match kind {
        CompileOutput::Asm => "gas"@,
        CompileOutput::Llvm => "llvm"@,
        CompileOutput::Mir => "text"@,
    }
}

/// The arguments the highlighter is started with: the lexer of the kind and
/// the HTML formatter.
pub open spec fn highlighter_arguments(kind: CompileOutput) -> Seq<Seq<char>> {
    seq!["-l"@, lexer_name(kind), "-f"@, "html"@]
}

/// The HTML that the highlighter produced: what it wrote, read as UTF-8, if
/// it ended with success and wrote valid UTF-8.
pub open spec fn highlighted_text(status: ExitStatus, written: Seq<u8>) -> Option<Seq<char>> {
    if status.raw == 0 && valid_utf8(written) {
        Some(decode_utf8(written))
    } else {
        None
    }
}

/// The program that highlights.
pub fn highlighter() -> (program: &'static str)
    ensures
        program@ == "pygmentize"@,
{
    "pygmentize"
}

/// The lexer that reads an artifact of the kind.
pub fn lexer(kind: CompileOutput) -> (name: &'static str)
    ensures
        name@ == lexer_name(kind),
{
    match kind {
        CompileOutput::Asm => "gas",
        CompileOutput::Llvm => "llvm",
        CompileOutput::Mir => "text",
    }
}

/// The arguments to start the highlighter with for an artifact of the kind.
pub fn highlight_arguments(kind: CompileOutput) -> (arguments: Vec<&'static str>)
    ensures
        arguments.deep_view() == highlighter_arguments(kind),
{
    let mut arguments: Vec<&'static str> = Vec::new();
    arguments.push("-l");
    arguments.push(lexer(kind));
    arguments.push("-f");
    arguments.push("html");
    arguments
}

/// `String::from_utf8`, with the error dropped: the text that the bytes
/// encode, where they are valid UTF-8, and nothing where they are not.
#[verifier::external_body]
fn text_of_utf8(bytes: Vec<u8>) -> (text: Option<String>)
    ensures
        text is Some <==> valid_utf8(bytes@),
        text matches Some(t) ==> t@ == decode_utf8(bytes@),
{
    String::from_utf8(bytes).ok()
}

/// What the highlighter produced, given the status it ended with and what it
/// wrote: nothing if it did not end with success or wrote no valid UTF-8.
pub fn highlighted(status: ExitStatus, written: Vec<u8>) -> (html: Option<String>)
    ensures
        match html {
            Some(text) => highlighted_text(status, written@) == Some(text@),
            None => highlighted_text(status, written@) is None,
        },
{
    if status.success() {
        text_of_utf8(written)
    } else {
        None
    }
}

/// Two kinds with one lexer are the same kind.
pub proof fn lemma_lexers_distinct(a: CompileOutput, b: CompileOutput)
    ensures
        lexer_name(a) == lexer_name(b) ==> a == b,
        highlighter_arguments(a) == highlighter_arguments(b) ==> a == b,
{
    reveal_strlit("gas");
    reveal_strlit("llvm");
    reveal_strlit("text");
    assert("gas"@.len() == 3 && "llvm"@[0] == 'l' && "text"@[0] == 't');
    // The lexer is the second argument.
    assert(highlighter_arguments(a)[1] == lexer_name(a));
}

} // verus!
