//! The token trees that the transpiler reads and writes.

use vstd::prelude::*;

verus! {

/// The bracket kind of a group.
#[derive(Clone, Copy, Debug, PartialEq, Eq, Structural)]
pub enum Delimiter {
    Parenthesis,
    Brace,
    Bracket,
    Invisible,
}

/// One token tree: an identifier, a punctuation character (with a flag that
/// says whether the next punctuation character continues the operator), a
/// literal, or a delimited group of token trees.
#[derive(Debug)]
pub enum Token {
    Ident(String),
    Punct(char, bool),
    Literal(String),
    Group(Delimiter, Vec<Token>),
}

/// The mathematical value of a token tree.
pub enum TokenTree {
    Ident(Seq<char>),
    Punct(char, bool),
    Literal(Seq<char>),
    Group(Delimiter, Seq<TokenTree>),
}

impl View for Token {
    type V = TokenTree;

    open spec fn view(&self) -> TokenTree
        decreases self,
    {
        match self {
            Token::Ident(name) => TokenTree::Ident(name@),
            Token::Punct(c, joint) => TokenTree::Punct(*c, *joint),
            Token::Literal(text) => TokenTree::Literal(text@),
            Token::Group(delimiter, inner) => TokenTree::Group(*delimiter, stream_view(inner@)),
        }
    }
}

/// The values of a sequence of token trees. (Positions outside of the
/// sequence, which nothing reads, hold a space.)
pub open spec fn stream_view(tokens: Seq<Token>) -> Seq<TokenTree>
    decreases tokens,
{
    Seq::new(
        tokens.len(),
        |i: int|
            if 0 <= i < tokens.len() {
                tokens[i]@
            } else {
                TokenTree::Punct(' ', false)
            },
    )
}

/// Whether the token is the punctuation character `c`.
pub open spec fn is_punct(token: TokenTree, c: char) -> bool {
    match token {
        TokenTree::Punct(p, _) => p == c,
        _ => false,
    }
}

/// Whether the token is a punctuation character that the next one
/// continues.
pub open spec fn is_joint(token: TokenTree) -> bool {
    match token {
        TokenTree::Punct(_, joint) => joint,
        _ => false,
    }
}

/// Whether the token is a group in the given brackets.
pub open spec fn is_group(token: TokenTree, delimiter: Delimiter) -> bool {
    match token {
        TokenTree::Group(d, _) => d == delimiter,
        _ => false,
    }
}

/// What stands between the brackets of a group; nothing for other tokens.
pub open spec fn group_contents(token: TokenTree) -> Seq<TokenTree> {
    match token {
        TokenTree::Group(_, contents) => contents,
        _ => seq![],
    }
}

/// The position of the first punctuation character `c` at or after `from`,
/// or the length of the sequence where there is none. Characters inside
/// groups do not count.
pub open spec fn punct_from(tokens: Seq<TokenTree>, c: char, from: int) -> int
    decreases tokens.len() - from,
{
    if from < 0 || from >= tokens.len() {
        tokens.len() as int
    } else if is_punct(tokens[from], c) {
        from
    } else {
        punct_from(tokens, c, from + 1)
    }
}

/// The search result lies between its start and the end of the sequence.
pub proof fn lemma_punct_from_bounds(tokens: Seq<TokenTree>, c: char, from: int)
    requires
        0 <= from <= tokens.len(),
    ensures
        from <= punct_from(tokens, c, from) <= tokens.len(),
    decreases tokens.len() - from,
{
    if from < tokens.len() && !is_punct(tokens[from], c) {
        lemma_punct_from_bounds(tokens, c, from + 1);
    }
}

/// The punctuation character `c`, not joined to what follows.
pub open spec fn punct(c: char) -> TokenTree {
    TokenTree::Punct(c, false)
}

/// A group in round brackets.
pub open spec fn parenthesized(inner: Seq<TokenTree>) -> TokenTree {
    TokenTree::Group(Delimiter::Parenthesis, inner)
}

/// A group in square brackets.
pub open spec fn bracketed(inner: Seq<TokenTree>) -> TokenTree {
    TokenTree::Group(Delimiter::Bracket, inner)
}

/// A group in curly brackets.
pub open spec fn braced(inner: Seq<TokenTree>) -> TokenTree {
    TokenTree::Group(Delimiter::Brace, inner)
}

/// Appending a token tree appends its value.
pub proof fn lemma_stream_view_push(tokens: Seq<Token>, token: Token)
    ensures
        stream_view(tokens.push(token)) == stream_view(tokens).push(token@),
{
}

/// The value of a concatenation is the concatenation of the values.
pub proof fn lemma_stream_view_add(a: Seq<Token>, b: Seq<Token>)
    ensures
        stream_view(a + b) == stream_view(a) + stream_view(b),
{
}

impl Token {
    /// Whether the token is the punctuation character `c`.
    pub fn is_punct(&self, c: char) -> (found: bool)
        ensures
            found == is_punct(self@, c),
    {
        match self {
            Token::Punct(p, _) => *p == c,
            _ => false,
        }
    }

    /// Whether the token is the identifier `name`.
    pub fn is_ident(&self, name: &str) -> (found: bool)
        ensures
            found == (self@ == TokenTree::Ident(name@)),
    {
        match self {
            Token::Ident(text) => text.as_str().eq(name),
            _ => false,
        }
    }

    /// The text of the token where it is an identifier.
    pub fn ident_text(&self) -> (text: Option<&str>)
        ensures
            match text {
                Some(name) => self@ == TokenTree::Ident(name@),
                None => !(self@ is Ident),
            },
    {
        match self {
            Token::Ident(text) => Some(text.as_str()),
            _ => None,
        }
    }

    /// The identifier `name`.
    pub fn ident(name: &str) -> (token: Token)
        ensures
            token@ == TokenTree::Ident(name@),
    {
        Token::Ident(name.to_owned())
    }

    /// Whether the token is a punctuation character that the next one
    /// continues.
    pub fn is_joint(&self) -> (found: bool)
        ensures
            found == is_joint(self@),
    {
        match self {
            Token::Punct(_, joint) => *joint,
            _ => false,
        }
    }

    /// Whether the token is a group in the given brackets.
    pub fn is_group(&self, delimiter: Delimiter) -> (found: bool)
        ensures
            found == is_group(self@, delimiter),
    {
        match self {
            Token::Group(d, _) => *d == delimiter,
            _ => false,
        }
    }

    /// The punctuation character `c`, not joined to what follows.
    pub fn punct(c: char) -> (token: Token)
        ensures
            token@ == punct(c),
    {
        Token::Punct(c, false)
    }
}

impl Clone for Token {
    /// A copy of the token tree.
    fn clone(&self) -> (copy: Token)
        ensures
            copy@ == self@,
        decreases self,
    {
        match self {
            Token::Ident(name) => Token::Ident(name.clone()),
            Token::Punct(c, joint) => Token::Punct(*c, *joint),
            Token::Literal(text) => Token::Literal(text.clone()),
            Token::Group(delimiter, inner) => Token::Group(*delimiter, duplicate_stream(inner)),
        }
    }
}

/// Finds the first punctuation character `c` at or after `from`.
pub fn find_punct(tokens: &Vec<Token>, c: char, from: usize) -> (at: usize)
    ensures
        at == punct_from(stream_view(tokens@), c, from as int),
        at <= tokens.len(),
        from <= tokens.len() ==> from <= at,
        at < tokens.len() ==> is_punct(tokens@[at as int]@, c),
{
    let ghost trees = stream_view(tokens@);
    let mut i: usize = from;
    while i < tokens.len()
        invariant
            trees == stream_view(tokens@),
            from <= i,
            punct_from(trees, c, from as int) == punct_from(trees, c, i as int),
        decreases tokens.len() - i,
    {
        if tokens[i].is_punct(c) {
            return i;
        }
        i = i + 1;
    }
    tokens.len()
}

/// A copy of the tokens from position `from` up to position `to`.
pub(crate) fn duplicate_range(tokens: &Vec<Token>, from: usize, to: usize) -> (copy: Vec<Token>)
    requires
        from <= to <= tokens.len(),
    ensures
        stream_view(copy@) == stream_view(tokens@).subrange(from as int, to as int),
{
    let ghost trees = stream_view(tokens@);
    let mut copy: Vec<Token> = Vec::new();
    let mut i: usize = from;
    while i < to
        invariant
            from <= i <= to <= tokens.len(),
            trees == stream_view(tokens@),
            stream_view(copy@) == trees.subrange(from as int, i as int),
        decreases to - i,
    {
        let token = tokens[i].clone();
        proof {
            lemma_stream_view_push(copy@, token);
        }
        copy.push(token);
        i = i + 1;
    }
    copy
}

/// A copy of a sequence of token trees.
pub fn duplicate_stream(tokens: &Vec<Token>) -> (copy: Vec<Token>)
    ensures
        stream_view(copy@) == stream_view(tokens@),
    decreases tokens,
{
    let mut copy: Vec<Token> = Vec::new();
    let mut i: usize = 0;
    while i < tokens.len()
        invariant
            i <= tokens.len(),
            stream_view(copy@) == stream_view(tokens@.take(i as int)),
        decreases tokens.len() - i,
    {
        let token = tokens[i].clone();
        proof {
            lemma_stream_view_push(copy@, token);
        }
        copy.push(token);
        i = i + 1;
    }
    copy
}

} // verus!
