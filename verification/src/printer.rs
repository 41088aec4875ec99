//! Writing token trees as the text that the record of a module keeps.
//!
//! The text is laid out as the compiler lays out a token stream: a space
//! stands between two tokens unless the pair is one of a few that are
//! written together, a line holds at most `MARGIN` bytes, and what a
//! pair of curly brackets holds is indented by `INDENT` where it does not
//! fit on the line.

use crate::text::join;
use crate::token::{is_joint, stream_view, Delimiter, Token, TokenTree};
use vstd::prelude::*;
use vstd::string::{StringExecFns, StringSliceAdditionalSpecFns};

verus! {

/// The greatest number of bytes on a line.
pub const MARGIN: u32 = 78;

/// The least number of characters that a line is laid out for, however
/// deep its indentation.
pub const MIN_SPACE: u32 = 60;

/// The indentation of what curly brackets hold.
pub const INDENT: u32 = 4;

/// The word `extern`.
pub open spec fn extern_word() -> Seq<char> {
    "ext"@ + "ern"@
}

/// Whether a name is reserved by the source language.
pub open spec fn is_reserved(name: Seq<char>) -> bool {
    name == "_"@ || name == "as"@ || name == "break"@ || name == "const"@ || name == "continue"@
        || name == "crate"@ || name == "else"@ || name == "enum"@ || name == extern_word() || name
        == "false"@ || name == "fn"@ || name == "for"@ || name == "if"@ || name == "impl"@ || name
        == "in"@ || name == "let"@ || name == "loop"@ || name == "match"@ || name == "mod"@
        || name == "move"@ || name == "mut"@ || name == "pub"@ || name == "ref"@ || name
        == "return"@ || name == "self"@ || name == "Self"@ || name == "static"@ || name
        == "struct"@ || name == "super"@ || name == "trait"@ || name == "true"@ || name == "type"@
        || name == "unsafe"@ || name == "use"@ || name == "where"@ || name == "while"@ || name
        == "async"@ || name == "await"@ || name == "dyn"@ || name == "abstract"@ || name
        == "become"@ || name == "box"@ || name == "do"@ || name == "final"@ || name == "macro"@
        || name == "override"@ || name == "priv"@ || name == "typeof"@ || name == "unsized"@
        || name == "virtual"@ || name == "yield"@ || name == "try"@
}

/// Whether round brackets stand right behind a name: behind every name
/// that is not reserved, and behind `fn`, `Self` and `pub`.
pub open spec fn calls(name: Seq<char>) -> bool {
    !is_reserved(name) || name == "fn"@ || name == "Self"@ || name == "pub"@
}

/// Whether the token is a punctuation character.
pub open spec fn is_mark(token: TokenTree) -> bool {
    token is Punct
}

/// Whether the token is one of the punctuation characters `,`, `;`, `.`.
pub open spec fn closes(token: TokenTree) -> bool {
    match token {
        TokenTree::Punct(c, _) => c == ',' || c == ';' || c == '.',
        _ => false,
    }
}

/// Whether a space stands between two tokens that follow each other. There
/// is none behind a dot or a dollar sign that a name follows, none between
/// a name, literal or group and `,`, `;` or `.`, none between a name and
/// the round brackets of its call, and none between `#` and square
/// brackets.
pub open spec fn space_between(first: TokenTree, second: TokenTree) -> bool {
    match (first, second) {
        (TokenTree::Punct('.', _), second) if !is_mark(second) => false,
        (TokenTree::Punct('$', _), TokenTree::Ident(_)) => false,
        (first, second) if !is_mark(first) && closes(second) => false,
        (TokenTree::Ident(name), TokenTree::Group(Delimiter::Parenthesis, _)) if calls(name) => false,
        (TokenTree::Punct('#', _), TokenTree::Group(Delimiter::Bracket, _)) => false,
        _ => true,
    }
}

/// Whether a space stands behind the token at `index`: the token is not
/// the last, is not joined to the next, and a space stands between the two.
pub open spec fn gap(tokens: Seq<TokenTree>, index: int) -> bool {
    0 <= index && index + 1 < tokens.len() && !is_joint(tokens[index]) && space_between(
        tokens[index],
        tokens[index + 1],
    )
}

/// The number of bytes that a text takes when it is written.
pub open spec fn measure(text: Seq<char>) -> nat {
    vstd::utf8::encode_utf8(text).len()
}

/// The text of a token that is no group.
pub open spec fn word(token: TokenTree) -> Seq<char> {
    match token {
        TokenTree::Ident(name) => name,
        TokenTree::Literal(text) => text,
        TokenTree::Punct(c, _) => seq![c],
        TokenTree::Group(_, _) => seq![],
    }
}

/// The opening bracket of a group.
pub open spec fn opening(delimiter: Delimiter) -> Seq<char> {
    match delimiter {
        Delimiter::Parenthesis => "("@,
        Delimiter::Brace => "{"@,
        Delimiter::Bracket => "["@,
        Delimiter::Invisible => ""@,
    }
}

/// The closing bracket of a group.
pub open spec fn closing(delimiter: Delimiter) -> Seq<char> {
    match delimiter {
        Delimiter::Parenthesis => ")"@,
        Delimiter::Brace => "}"@,
        Delimiter::Bracket => "]"@,
        Delimiter::Invisible => ""@,
    }
}

/// The number of bytes that a token tree takes on one line.
pub open spec fn width(token: TokenTree) -> nat
    decreases token, 0nat,
{
    match token {
        TokenTree::Group(delimiter, inner) => {
            let brackets = measure(opening(delimiter)) + measure(closing(delimiter));
            if delimiter == Delimiter::Brace && inner.len() > 0 {
                brackets + 2 + widths(inner, inner.len())
            } else {
                brackets + widths(inner, inner.len())
            }
        },
        _ => measure(word(token)),
    }
}

/// The number of characters that the first `count` token trees take on one
/// line, with the spaces between them.
pub open spec fn widths(tokens: Seq<TokenTree>, count: nat) -> nat
    decreases tokens, count,
{
    if count == 0 || count > tokens.len() {
        0
    } else {
        widths(tokens, (count - 1) as nat) + width(tokens[count - 1]) + if count >= 2 && gap(
            tokens,
            count - 2,
        ) {
            1nat
        } else {
            0nat
        }
    }
}

/// The number of characters from the token at `from` up to the next space
/// of the sequence; where no space follows, `trailing` is added for what
/// stands behind the sequence.
pub open spec fn chunk(tokens: Seq<TokenTree>, from: int, trailing: nat) -> nat
    decreases tokens.len() - from,
{
    if from < 0 || from >= tokens.len() {
        trailing
    } else if gap(tokens, from) {
        width(tokens[from])
    } else {
        width(tokens[from]) + chunk(tokens, from + 1, trailing)
    }
}

/// How the breaks of a box are written: all as spaces where the box fits on
/// the line; where it does not, all as line ends, or each as a line end
/// only where what follows it does not fit.
#[derive(Clone, Copy, Debug, PartialEq, Eq, Structural)]
pub enum Frame {
    Fits,
    Consistent,
    Inconsistent,
}

/// The text written so far and where the writing stands: the characters
/// left on the line, the indentation of the next line, and the spaces that
/// are due before the next word.
pub struct Layout {
    pub out: Seq<char>,
    pub space: int,
    pub indent: nat,
    pub pending: nat,
}

/// The layout before anything is written.
pub open spec fn start() -> Layout {
    Layout { out: seq![], space: MARGIN as int, indent: 0, pending: 0 }
}

/// A run of spaces.
pub open spec fn spaces(count: nat) -> Seq<char> {
    Seq::new(count, |i: int| ' ')
}

/// The layout with a word written.
pub open spec fn put(layout: Layout, text: Seq<char>) -> Layout {
    Layout {
        out: layout.out + spaces(layout.pending) + text,
        space: layout.space - measure(text),
        indent: layout.indent,
        pending: 0,
    }
}

/// The layout with a break written: a space, or a line end where the frame
/// asks for one. `size` is the number of characters up to the next break;
/// `outdent` is taken off the indentation of the new line.
pub open spec fn put_break(layout: Layout, frame: Frame, size: nat, outdent: nat) -> Layout {
    if frame is Fits || (frame is Inconsistent && size <= layout.space) {
        Layout { space: layout.space - 1, pending: layout.pending + 1, ..layout }
    } else {
        let indent = if layout.indent >= outdent {
            (layout.indent - outdent) as nat
        } else {
            0nat
        };
        Layout {
            out: layout.out.push('\n'),
            space: if MARGIN - indent > MIN_SPACE {
                MARGIN - indent
            } else {
                MIN_SPACE as int
            },
            indent: layout.indent,
            pending: indent,
        }
    }
}

/// The frame of a box of `size` characters that starts inside `frame`.
pub open spec fn frame_of(layout: Layout, frame: Frame, size: nat, broken: Frame) -> Frame {
    if frame is Fits || size <= layout.space {
        Frame::Fits
    } else {
        broken
    }
}

/// The indentation inside curly brackets that do not fit on the line.
pub open spec fn indented(indent: nat) -> nat {
    if indent + INDENT <= u32::MAX {
        (indent + INDENT) as nat
    } else {
        indent
    }
}

/// The layout with one token tree written. `trailing` is the number of
/// characters that stand behind the tree before the next break.
pub open spec fn put_tree(layout: Layout, token: TokenTree, frame: Frame, trailing: nat) -> Layout
    decreases token, 0nat, 0nat,
{
    match token {
        TokenTree::Group(Delimiter::Brace, inner) => {
            let outer = frame_of(layout, frame, width(token) + trailing, Frame::Consistent);
            let inside = if outer is Fits {
                layout.indent
            } else {
                indented(layout.indent)
            };
            let opened = put(Layout { indent: inside, ..layout }, "{"@);
            let filled = if inner.len() == 0 {
                opened
            } else {
                let first = put_break(opened, outer, 0, 0);
                let inner_frame = frame_of(
                    first,
                    outer,
                    widths(inner, inner.len()),
                    Frame::Inconsistent,
                );
                let written = put_from(first, inner, 0, inner_frame, 0);
                put_break(Layout { indent: inside, ..written }, outer, 0, INDENT as nat)
            };
            Layout { indent: layout.indent, ..put(filled, "}"@) }
        },
        TokenTree::Group(delimiter, inner) => {
            let behind = measure(closing(delimiter)) + trailing;
            let opened = put(layout, opening(delimiter));
            let inner_frame = frame_of(
                opened,
                frame,
                widths(inner, inner.len()) + behind,
                Frame::Inconsistent,
            );
            let written = put_from(opened, inner, 0, inner_frame, behind);
            put(Layout { indent: layout.indent, ..written }, closing(delimiter))
        },
        _ => put(layout, word(token)),
    }
}

/// The number of characters behind the token at `index` before the next
/// break.
pub open spec fn behind(tokens: Seq<TokenTree>, index: int, trailing: nat) -> nat {
    if gap(tokens, index) {
        0
    } else {
        chunk(tokens, index + 1, trailing)
    }
}

/// The layout with the token trees from position `from` on written.
pub open spec fn put_from(
    layout: Layout,
    tokens: Seq<TokenTree>,
    from: int,
    frame: Frame,
    trailing: nat,
) -> Layout
    decreases tokens, tokens.len() - from, 1nat,
{
    if from < 0 || from >= tokens.len() {
        layout
    } else {
        let written = put_tree(layout, tokens[from], frame, behind(tokens, from, trailing));
        let spaced = if gap(tokens, from) {
            put_break(written, frame, 1 + chunk(tokens, from + 1, trailing), 0)
        } else {
            written
        };
        put_from(spaced, tokens, from + 1, frame, trailing)
    }
}

/// The text of a sequence of token trees.
pub open spec fn printed_text(tokens: Seq<TokenTree>) -> Seq<char> {
    put_from(start(), tokens, 0, Frame::Inconsistent, 0).out
}

/// The greatest width that is told apart from greater ones: every width
/// above the margin is laid out alike.
pub const WIDE: u32 = 1000;

/// A width, as far as it is told apart.
pub open spec fn capped(width: nat) -> nat {
    if width > WIDE {
        WIDE as nat
    } else {
        width
    }
}

/// The writer of a layout.
struct Printer {
    out: String,
    space: i32,
    indent: u32,
    pending: u64,
}

impl Printer {
    /// Whether the writer stands where the layout stands.
    spec fn at(&self, layout: Layout) -> bool {
        &&& self.out@ == layout.out
        &&& layout.space <= MARGIN
        &&& self.space == if layout.space < -1 {
            -1
        } else {
            layout.space
        }
        &&& self.indent == layout.indent
        &&& self.pending == layout.pending
    }
}

fn reserved(name: &str) -> (found: bool)
    ensures
        found == is_reserved(name@),
{
    name.eq("_") || name.eq("as") || name.eq("break") || name.eq("const") || name.eq("continue")
        || name.eq("crate") || name.eq("else") || name.eq("enum") || name.eq(
        join("ext", "ern").as_str(),
    ) || name.eq("false") || name.eq("fn") || name.eq("for") || name.eq("if") || name.eq("impl")
        || name.eq("in") || name.eq("let") || name.eq("loop") || name.eq("match") || name.eq(
        "mod",
    ) || name.eq("move") || name.eq("mut") || name.eq("pub") || name.eq("ref") || name.eq(
        "return",
    ) || name.eq("self") || name.eq("Self") || name.eq("static") || name.eq("struct") || name.eq(
        "super",
    ) || name.eq("trait") || name.eq("true") || name.eq("type") || name.eq("unsafe") || name.eq(
        "use",
    ) || name.eq("where") || name.eq("while") || name.eq("async") || name.eq("await") || name.eq(
        "dyn",
    ) || name.eq("abstract") || name.eq("become") || name.eq("box") || name.eq("do") || name.eq(
        "final",
    ) || name.eq("macro") || name.eq("override") || name.eq("priv") || name.eq("typeof")
        || name.eq("unsized") || name.eq("virtual") || name.eq("yield") || name.eq("try")
}

fn spaced(first: &Token, second: &Token) -> (found: bool)
    ensures
        found == space_between(first@, second@),
{
    let first_is_mark = match first {
        Token::Punct(_, _) => true,
        _ => false,
    };
    let second_is_mark = match second {
        Token::Punct(_, _) => true,
        _ => false,
    };
    if first.is_punct('.') && !second_is_mark {
        return false;
    }
    let second_is_name = match second {
        Token::Ident(_) => true,
        _ => false,
    };
    if first.is_punct('$') && second_is_name {
        return false;
    }
    if !first_is_mark && (second.is_punct(',') || second.is_punct(';') || second.is_punct('.')) {
        return false;
    }
    match first {
        Token::Ident(name) => {
            if second.is_group(Delimiter::Parenthesis) {
                let name = name.as_str();
                if !reserved(name) || name.eq("fn") || name.eq("Self") || name.eq("pub") {
                    return false;
                }
            }
        },
        _ => {},
    }
    !(first.is_punct('#') && second.is_group(Delimiter::Bracket))
}

fn has_gap(tokens: &Vec<Token>, index: usize) -> (found: bool)
    ensures
        found == gap(stream_view(tokens@), index as int),
{
    if tokens.len() < 2 || index > tokens.len() - 2 {
        return false;
    }
    !tokens[index].is_joint() && spaced(&tokens[index], &tokens[index + 1])
}

fn capped_len(text: &str) -> (len: u32)
    ensures
        len == capped(measure(text@)),
{
    let len = text.as_bytes().len();
    if len > WIDE as usize {
        WIDE
    } else {
        len as u32
    }
}

fn capped_sum(first: u32, second: u32) -> (sum: u32)
    requires
        first <= WIDE,
        second <= WIDE,
    ensures
        sum == capped((first + second) as nat),
{
    if first + second > WIDE {
        WIDE
    } else {
        first + second
    }
}

fn brackets_of(delimiter: Delimiter) -> (brackets: (&'static str, &'static str))
    ensures
        brackets.0@ == opening(delimiter),
        brackets.1@ == closing(delimiter),
{
    match delimiter {
        Delimiter::Parenthesis => ("(", ")"),
        Delimiter::Brace => ("{", "}"),
        Delimiter::Bracket => ("[", "]"),
        Delimiter::Invisible => ("", ""),
    }
}

fn tree_width(token: &Token) -> (len: u32)
    ensures
        len == capped(width(token@)),
    decreases token, 0nat,
{
    match token {
        Token::Ident(name) => capped_len(name.as_str()),
        Token::Literal(text) => capped_len(text.as_str()),
        Token::Punct(c, _) => {
            let mut text = String::new();
            text.push(*c);
            assert(text@ =~= seq![*c]);
            capped_len(text.as_str())
        },
        Token::Group(delimiter, inner) => {
            let (open, close) = brackets_of(*delimiter);
            let brackets = capped_sum(capped_len(open), capped_len(close));
            let inside = stream_width(inner);
            let extra: u32 = match delimiter {
                Delimiter::Brace => if inner.len() > 0 {
                    2
                } else {
                    0
                },
                _ => 0,
            };
            capped_sum(capped_sum(brackets, extra), inside)
        },
    }
}

fn stream_width(tokens: &Vec<Token>) -> (len: u32)
    ensures
        len == capped(widths(stream_view(tokens@), tokens@.len())),
    decreases tokens, 1nat,
{
    let ghost trees = stream_view(tokens@);
    let mut len: u32 = 0;
    let mut i: usize = 0;
    while i < tokens.len()
        invariant
            i <= tokens.len(),
            trees == stream_view(tokens@),
            len == capped(widths(trees, i as nat)),
        decreases tokens.len() - i,
    {
        let one = tree_width(&tokens[i]);
        len = capped_sum(len, one);
        if i >= 1 && has_gap(tokens, i - 1) {
            len = capped_sum(len, 1);
        }
        i = i + 1;
    }
    len
}

fn chunk_width(tokens: &Vec<Token>, from: usize, trailing: u32, Ghost(behind): Ghost<nat>) -> (len:
    u32)
    requires
        trailing == capped(behind),
    ensures
        len == capped(chunk(stream_view(tokens@), from as int, behind)),
{
    let ghost trees = stream_view(tokens@);
    let mut len: u32 = 0;
    let mut sum: Ghost<nat> = Ghost(0);
    let mut i: usize = from;
    while i < tokens.len()
        invariant
            from <= i,
            trees == stream_view(tokens@),
            trailing == capped(behind),
            len == capped(sum@),
            chunk(trees, from as int, behind) == sum@ + chunk(trees, i as int, behind),
        decreases tokens.len() - i,
    {
        let one = tree_width(&tokens[i]);
        len = capped_sum(len, one);
        proof {
            sum@ = sum@ + width(trees[i as int]);
        }
        if has_gap(tokens, i) {
            return len;
        }
        i = i + 1;
    }
    capped_sum(len, trailing)
}

fn write(printer: &mut Printer, text: &str, Ghost(layout): Ghost<Layout>)
    requires
        old(printer).at(layout),
    ensures
        final(printer).at(put(layout, text@)),
        final(printer).pending == 0,
{
    let ghost start = printer.out@;
    let mut left = printer.pending;
    while left > 0
        invariant
            left <= printer.pending,
            printer.pending == layout.pending,
            printer.space == old(printer).space,
            printer.indent == old(printer).indent,
            printer.out@ == start + spaces((layout.pending - left) as nat),
        decreases left,
    {
        printer.out.push(' ');
        left = left - 1;
    }
    printer.pending = 0;
    printer.out.append(text);
    let len = capped_len(text);
    printer.space = if printer.space - (len as i32) < -1 {
        -1
    } else {
        printer.space - (len as i32)
    };
}

fn write_break(
    printer: &mut Printer,
    frame: Frame,
    size: u32,
    outdent: u32,
    Ghost(layout): Ghost<Layout>,
    Ghost(exact): Ghost<nat>,
)
    requires
        old(printer).at(layout),
        old(printer).pending == 0,
        size == capped(exact),
    ensures
        final(printer).at(put_break(layout, frame, exact, outdent as nat)),
{
    let fits = match frame {
        Frame::Fits => true,
        Frame::Consistent => false,
        Frame::Inconsistent => size as i32 <= printer.space,
    };
    if fits {
        printer.pending = 1;
        printer.space = if printer.space - 1 < -1 {
            -1
        } else {
            printer.space - 1
        };
    } else {
        printer.out.push('\n');
        let indent = if printer.indent >= outdent {
            printer.indent - outdent
        } else {
            0
        };
        printer.pending = indent as u64;
        printer.space = if indent < MARGIN - MIN_SPACE {
            (MARGIN - indent) as i32
        } else {
            MIN_SPACE as i32
        };
    }
}

fn frame_for(printer: &Printer, frame: Frame, size: u32, broken: Frame, Ghost(layout): Ghost<
    Layout,
>, Ghost(exact): Ghost<nat>) -> (inner: Frame)
    requires
        printer.at(layout),
        size == capped(exact),
    ensures
        inner == frame_of(layout, frame, exact, broken),
{
    match frame {
        Frame::Fits => Frame::Fits,
        _ => if size as i32 <= printer.space {
            Frame::Fits
        } else {
            broken
        },
    }
}

fn print_tree(
    printer: &mut Printer,
    token: &Token,
    frame: Frame,
    trailing: u32,
    Ghost(layout): Ghost<Layout>,
    Ghost(behind): Ghost<nat>,
)
    requires
        old(printer).at(layout),
        trailing == capped(behind),
    ensures
        final(printer).at(put_tree(layout, token@, frame, behind)),
        final(printer).pending == 0,
    decreases token, 0nat, 0nat,
{
    match token {
        Token::Ident(name) => write(printer, name.as_str(), Ghost(layout)),
        Token::Literal(text) => write(printer, text.as_str(), Ghost(layout)),
        Token::Punct(c, _) => {
            let mut text = String::new();
            text.push(*c);
            write(printer, text.as_str(), Ghost(layout));
        },
        Token::Group(Delimiter::Brace, inner) => {
            let ghost trees = stream_view(inner@);
            let size = capped_sum(tree_width(token), trailing);
            let outer = frame_for(
                printer,
                frame,
                size,
                Frame::Consistent,
                Ghost(layout),
                Ghost(width(token@) + behind),
            );
            let outside = printer.indent;
            let inside = match outer {
                Frame::Fits => outside,
                _ => if outside <= u32::MAX - INDENT {
                    outside + INDENT
                } else {
                    outside
                },
            };
            printer.indent = inside;
            let ghost entered = Layout { indent: inside as nat, ..layout };
            write(printer, "{", Ghost(entered));
            let ghost opened = put(entered, "{"@);
            let ghost filled = opened;
            if inner.len() > 0 {
                write_break(printer, outer, 0, 0, Ghost(opened), Ghost(0));
                let ghost first = put_break(opened, outer, 0, 0);
                let inner_size = stream_width(inner);
                let inner_frame = frame_for(
                    printer,
                    outer,
                    inner_size,
                    Frame::Inconsistent,
                    Ghost(first),
                    Ghost(widths(trees, trees.len())),
                );
                print_stream(printer, inner, inner_frame, 0, Ghost(first), Ghost(0));
                let ghost written = put_from(first, trees, 0, inner_frame, 0);
                printer.indent = inside;
                let ghost closing_at = Layout { indent: inside as nat, ..written };
                write_break(printer, outer, 0, INDENT, Ghost(closing_at), Ghost(0));
                proof {
                    filled = put_break(closing_at, outer, 0, INDENT as nat);
                }
            }
            write(printer, "}", Ghost(filled));
            printer.indent = outside;
        },
        Token::Group(delimiter, inner) => {
            let ghost trees = stream_view(inner@);
            let (open, close) = brackets_of(*delimiter);
            let after = capped_sum(capped_len(close), trailing);
            let ghost after_exact = measure(closing(*delimiter)) + behind;
            let outside = printer.indent;
            write(printer, open, Ghost(layout));
            let ghost opened = put(layout, opening(*delimiter));
            let inner_size = capped_sum(stream_width(inner), after);
            let inner_frame = frame_for(
                printer,
                frame,
                inner_size,
                Frame::Inconsistent,
                Ghost(opened),
                Ghost(widths(trees, trees.len()) + after_exact),
            );
            print_stream(printer, inner, inner_frame, after, Ghost(opened), Ghost(after_exact));
            let ghost written = put_from(opened, trees, 0, inner_frame, after_exact);
            printer.indent = outside;
            write(printer, close, Ghost(Layout { indent: layout.indent, ..written }));
        },
    }
}

fn print_stream(
    printer: &mut Printer,
    tokens: &Vec<Token>,
    frame: Frame,
    trailing: u32,
    Ghost(layout): Ghost<Layout>,
    Ghost(behind_all): Ghost<nat>,
)
    requires
        old(printer).at(layout),
        trailing == capped(behind_all),
    ensures
        final(printer).at(put_from(layout, stream_view(tokens@), 0, frame, behind_all)),
        tokens@.len() > 0 ==> final(printer).pending == 0,
        tokens@.len() == 0 ==> final(printer).pending == old(printer).pending,
    decreases tokens, 1nat, 0nat,
{
    let ghost trees = stream_view(tokens@);
    let ghost mut current = layout;
    let mut i: usize = 0;
    while i < tokens.len()
        invariant
            i <= tokens.len(),
            trees == stream_view(tokens@),
            trailing == capped(behind_all),
            printer.at(current),
            i > 0 ==> printer.pending == 0 || gap(trees, i - 1),
            i == 0 ==> printer.pending == old(printer).pending,
            put_from(layout, trees, 0, frame, behind_all) == put_from(
                current,
                trees,
                i as int,
                frame,
                behind_all,
            ),
        decreases tokens.len() - i,
    {
        let spaced = has_gap(tokens, i);
        let next = chunk_width(tokens, i + 1, trailing, Ghost(behind_all));
        let after = if spaced {
            0
        } else {
            next
        };
        print_tree(
            printer,
            &tokens[i],
            frame,
            after,
            Ghost(current),
            Ghost(behind(trees, i as int, behind_all)),
        );
        proof {
            current = put_tree(current, trees[i as int], frame, behind(trees, i as int, behind_all));
        }
        if spaced {
            write_break(
                printer,
                frame,
                capped_sum(1, next),
                0,
                Ghost(current),
                Ghost(1 + chunk(trees, i + 1, behind_all)),
            );
            proof {
                current = put_break(current, frame, 1 + chunk(trees, i + 1, behind_all), 0);
            }
        }
        i = i + 1;
    }
}

/// Writes token trees as the text that the record of a module keeps.
pub fn print(tokens: &Vec<Token>) -> (text: String)
    ensures
        text@ == printed_text(stream_view(tokens@)),
{
    let mut printer = Printer { out: String::new(), space: MARGIN as i32, indent: 0, pending: 0 };
    print_stream(&mut printer, tokens, Frame::Inconsistent, 0, Ghost(start()), Ghost(0));
    printer.out
}

} // verus!
