//! Tokens of an interface signature.
//!
//! The generator's input is an undifferentiated token sequence. The only
//! tokens the generator ever inspects are the angle brackets, which delimit
//! a leading generic-parameter list, and the keyword that introduces a
//! trailing constraint clause; every other token is carried through
//! verbatim as text.

use vstd::prelude::*;

verus! {

/// One input token: an opening or closing angle bracket, the
/// constraint-introducing keyword, or any other token kept as its text.
pub enum Token {
    Lt,
    Gt,
    Where,
    Text(String),
}

/// The mathematical form of a token: as [`Token`], with text taken to its
/// character sequence.
pub enum TokenModel {
    Lt,
    Gt,
    Where,
    Text(Seq<char>),
}

impl View for Token {
    type V = TokenModel;

    open spec fn view(&self) -> TokenModel {
        match self {
            Token::Lt => TokenModel::Lt,
            Token::Gt => TokenModel::Gt,
            Token::Where => TokenModel::Where,
            Token::Text(s) => TokenModel::Text(s@),
        }
    }
}

impl DeepView for Token {
    type V = TokenModel;

    open spec fn deep_view(&self) -> TokenModel {
        self@
    }
}

impl Token {
    /// An exact copy of this token.
    pub fn duplicate(&self) -> (r: Token)
        ensures
            r@ == self@,
    {
        match self {
            Token::Lt => Token::Lt,
            Token::Gt => Token::Gt,
            Token::Where => Token::Where,
            Token::Text(s) => Token::Text(s.clone()),
        }
    }

    /// Whether two tokens carry the same content.
    pub fn matches(&self, other: &Token) -> (r: bool)
        ensures
            r == (self@ == other@),
    {
        match (self, other) {
            (Token::Lt, Token::Lt) => true,
            (Token::Gt, Token::Gt) => true,
            (Token::Where, Token::Where) => true,
            (Token::Text(a), Token::Text(b)) => *a == *b,
            _ => false,
        }
    }
}

/// An exact copy of a token sequence.
pub fn duplicate_tokens(tokens: &Vec<Token>) -> (r: Vec<Token>)
    ensures
        r.deep_view() == tokens.deep_view(),
{
    let mut out: Vec<Token> = Vec::new();
    let mut i: usize = 0;
    while i < tokens.len()
        invariant
            i <= tokens.len(),
            out@.len() == i,
            forall|j: int| 0 <= j < i ==> out@[j]@ == tokens@[j]@,
        decreases tokens.len() - i,
    {
        out.push(tokens[i].duplicate());
        i = i + 1;
    }
    proof {
        assert forall|j: int| 0 <= j < tokens@.len() implies out.deep_view()[j]
            == tokens.deep_view()[j] by {
            assert(out@[j]@ == tokens@[j]@);
        }
        assert(out.deep_view() =~= tokens.deep_view());
    }
    out
}

/// Whether two token sequences carry the same content, token for token.
pub fn tokens_match(a: &Vec<Token>, b: &Vec<Token>) -> (r: bool)
    ensures
        r == (a.deep_view() == b.deep_view()),
{
    if a.len() != b.len() {
        proof {
            assert(a.deep_view().len() == a@.len());
            assert(b.deep_view().len() == b@.len());
        }
        return false;
    }
    let mut i: usize = 0;
    while i < a.len()
        invariant
            i <= a.len(),
            a@.len() == b@.len(),
            forall|j: int| 0 <= j < i ==> a@[j]@ == b@[j]@,
        decreases a.len() - i,
    {
        if !a[i].matches(&b[i]) {
            proof {
                assert(a.deep_view()[i as int] != b.deep_view()[i as int]);
            }
            return false;
        }
        i = i + 1;
    }
    proof {
        assert forall|j: int| 0 <= j < a@.len() implies a.deep_view()[j] == b.deep_view()[j] by {
            assert(a@[j]@ == b@[j]@);
        }
        assert(a.deep_view() =~= b.deep_view());
    }
    true
}

} // verus!
