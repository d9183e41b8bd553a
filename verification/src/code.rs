//! Buffers of portable source text. The text is laid out by the
//! `code_builder` crate, which indents each line by the braces that came
//! before it.

use vstd::prelude::*;
use code_builder::CodeBuilder;
use vstd::string::StrSliceExecFns;

verus! {

/// `code_builder::CodeBuilder`, a buffer of text with a nesting depth and an
/// indent size. Nothing is claimed of it here; see the names and wrappers
/// below.
#[verifier::external_type_specification]
#[verifier::external_body]
pub struct ExCodeBuilder(CodeBuilder);

/// The text that a `CodeBuilder` holds.
pub uninterp spec fn code_text(b: CodeBuilder) -> Seq<char>;

/// The nesting depth at which a `CodeBuilder` lays out the next line.
pub uninterp spec fn code_depth(b: CodeBuilder) -> int;

/// Number of spaces by which a `CodeBuilder` indents each level of nesting.
pub uninterp spec fn code_indent(b: CodeBuilder) -> int;

/// What `CodeBuilder::add` appends for `code` at the given nesting depth with
/// an indent of two spaces, and the nesting depth after it.
pub uninterp spec fn formatted(depth: int, code: Seq<char>) -> (Seq<char>, int);

/// Upper limit for the number of characters in a buffer. Below it the nesting
/// depth times the indent stays in the range of the builder's counters.
pub const CODE_LIMIT: usize = 0x2000_0000;

/// `CodeBuilder::new`: an empty builder that indents by two spaces.
#[verifier::external_body]
fn code_new() -> (b: CodeBuilder)
    ensures
        code_text(b) == Seq::<char>::empty(),
        code_depth(b) == 0,
        code_indent(b) == 2,
{
    CodeBuilder::new()
}

/// `CodeBuilder::add`: lays out the lines of `code` and appends them. What is
/// appended and the nesting depth afterwards depend on the depth before and
/// on `code` alone. The builder's text and `code` together must stay below
/// `CODE_LIMIT` characters: the builder counts nesting in 32 bits.
#[verifier::external_body]
fn code_add(b: &mut CodeBuilder, code: &str)
    requires
        code_indent(*old(b)) == 2,
        code_text(*old(b)).len() + code@.len() < CODE_LIMIT,
    ensures
        code_text(*final(b)) == code_text(*old(b)) + formatted(code_depth(*old(b)), code@).0,
        code_depth(*final(b)) == formatted(code_depth(*old(b)), code@).1,
        code_indent(*final(b)) == 2,
    no_unwind
{
    b.add(code)
}

/// `CodeBuilder::result`: the text of the builder.
#[verifier::external_body]
fn code_result(b: &CodeBuilder) -> (text: &str)
    ensures
        text@ == code_text(*b),
{
    b.result()
}

/// A buffer of source text, as a mathematical value.
pub struct CodeView {
    pub text: Seq<char>,
    pub depth: int,
}

impl CodeView {
    /// The empty buffer.
    pub open spec fn empty() -> CodeView {
        CodeView { text: Seq::empty(), depth: 0 }
    }

    /// Whether the buffer takes `code`.
    pub open spec fn has_room(self, code: Seq<char>) -> bool {
        self.text.len() + code.len() < CODE_LIMIT
    }

    /// The buffer after `code` was added: the lines of `code`, laid out at the
    /// buffer's nesting depth, follow its text. A buffer that has no room for
    /// `code` stays as it is.
    pub open spec fn add(self, code: Seq<char>) -> CodeView {
        if self.has_room(code) {
            CodeView {
                text: self.text + formatted(self.depth, code).0,
                depth: formatted(self.depth, code).1,
            }
        } else {
            self
        }
    }
}

/// A buffer of source text.
pub struct Code {
    builder: CodeBuilder,
}

impl View for Code {
    type V = CodeView;

    closed spec fn view(&self) -> CodeView {
        CodeView { text: code_text(self.builder), depth: code_depth(self.builder) }
    }
}

impl Code {
    #[verifier::type_invariant]
    spec fn indents_by_two(self) -> bool {
        code_indent(self.builder) == 2
    }

    pub fn new() -> (c: Code)
        ensures
            c@ == CodeView::empty(),
    {
        Code { builder: code_new() }
    }

    /// Adds the lines of `code` to the buffer.
    pub fn add(&mut self, code: &str)
        ensures
            final(self)@ == old(self)@.add(code@),
    {
        proof {
            use_type_invariant(&*self);
        }
        let held = code_result(&self.builder).unicode_len();
        let more = code.unicode_len();
        if held < CODE_LIMIT && more < CODE_LIMIT - held {
            code_add(&mut self.builder, code);
        }
    }

    /// The text of the buffer.
    pub fn result(&self) -> (text: &str)
        ensures
            text@ == self@.text,
    {
        code_result(&self.builder)
    }
}

} // verus!
