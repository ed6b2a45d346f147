//! Parsing an interface signature out of a token sequence.
//!
//! The input is an undifferentiated token stream: either an
//! angle-bracket-delimited generic-parameter list followed by an interface
//! path and an optional constraint clause, or the path and optional clause
//! alone. A token-classification pass splits it, tracking nested angle
//! brackets so that only a closing bracket at depth zero ends the generics
//! section, and cutting the path at the first constraint keyword.

use vstd::prelude::*;

use crate::token::Token;
use crate::token::TokenModel;

verus! {

/// A parsed interface signature. Each field holds the corresponding input
/// tokens verbatim: the generic parameters (without their outer brackets),
/// the interface path, and the constraint clause (without its keyword).
pub struct Signature {
    pub generics: Vec<Token>,
    pub path: Vec<Token>,
    pub bound: Vec<Token>,
}

/// The mathematical form of a signature: its three token sections.
pub struct SignatureModel {
    pub generics: Seq<TokenModel>,
    pub path: Seq<TokenModel>,
    pub bound: Seq<TokenModel>,
}

impl View for Signature {
    type V = SignatureModel;

    open spec fn view(&self) -> SignatureModel {
        SignatureModel {
            generics: self.generics.deep_view(),
            path: self.path.deep_view(),
            bound: self.bound.deep_view(),
        }
    }
}

/// Why a token sequence is not a signature: it is empty, its leading
/// generic-parameter list never closes, or no interface path remains once
/// generics and constraint clause are set aside.
pub enum ParseError {
    EmptyInput,
    UnclosedGenerics,
    MissingPath,
}

/// Position of the closing bracket that ends a generics section scanned
/// from `i` at bracket-nesting depth `depth`: the first position whose
/// token is a closing bracket not matched by an opening bracket seen since
/// `i`. `None` when the brackets never close.
pub open spec fn close_position(ts: Seq<TokenModel>, i: int, depth: int) -> Option<int>
    decreases ts.len() - i,
{
    if i < 0 || i >= ts.len() {
        None
    } else if ts[i] is Gt {
        if depth == 0 {
            Some(i)
        } else {
            close_position(ts, i + 1, depth - 1)
        }
    } else if ts[i] is Lt {
        close_position(ts, i + 1, depth + 1)
    } else {
        close_position(ts, i + 1, depth)
    }
}

/// Position of the first constraint keyword at or after `i`.
pub open spec fn where_position(ts: Seq<TokenModel>, i: int) -> Option<int>
    decreases ts.len() - i,
{
    if i < 0 || i >= ts.len() {
        None
    } else if ts[i] is Where {
        Some(i)
    } else {
        where_position(ts, i + 1)
    }
}

/// Whether the input opens with a generic-parameter list.
pub open spec fn opens_generics(ts: Seq<TokenModel>) -> bool {
    ts.len() > 0 && ts[0] is Lt
}

/// Whether the input opens a generic-parameter list that never closes.
pub open spec fn generics_unclosed(ts: Seq<TokenModel>) -> bool {
    opens_generics(ts) && close_position(ts, 1, 0) is None
}

/// Where the interface path begins: right after the generics section when
/// one is present, else at the front.
pub open spec fn path_start(ts: Seq<TokenModel>) -> int {
    if opens_generics(ts) {
        match close_position(ts, 1, 0) {
            Some(c) => c + 1,
            None => ts.len() as int,
        }
    } else {
        0
    }
}

/// Where the interface path ends: at the first constraint keyword after it,
/// else at the end of the input.
pub open spec fn path_end(ts: Seq<TokenModel>) -> int {
    match where_position(ts, path_start(ts)) {
        Some(w) => w,
        None => ts.len() as int,
    }
}

/// Whether the token sequence is a well-formed signature: non-empty, any
/// leading generic-parameter list closed, and a non-empty interface path.
pub open spec fn well_formed(ts: Seq<TokenModel>) -> bool {
    &&& ts.len() > 0
    &&& !generics_unclosed(ts)
    &&& path_start(ts) < path_end(ts)
}

/// The generic-parameter tokens of a well-formed signature, without their
/// outer brackets.
pub open spec fn spec_generics(ts: Seq<TokenModel>) -> Seq<TokenModel> {
    if opens_generics(ts) {
        match close_position(ts, 1, 0) {
            Some(c) => ts.subrange(1, c),
            None => Seq::empty(),
        }
    } else {
        Seq::empty()
    }
}

/// The interface-path tokens of a well-formed signature.
pub open spec fn spec_path(ts: Seq<TokenModel>) -> Seq<TokenModel> {
    ts.subrange(path_start(ts), path_end(ts))
}

/// The constraint-clause tokens of a well-formed signature, without the
/// keyword that introduces them.
pub open spec fn spec_bound(ts: Seq<TokenModel>) -> Seq<TokenModel> {
    match where_position(ts, path_start(ts)) {
        Some(w) => ts.subrange(w + 1, ts.len() as int),
        None => Seq::empty(),
    }
}

/// Split a token sequence into generic parameters, interface path and
/// constraint clause, or say exactly why it cannot be split.
pub fn parse_signature(tokens: &Vec<Token>) -> (r: Result<Signature, ParseError>)
    ensures
        match r {
            Ok(sig) => {
                &&& well_formed(tokens.deep_view())
                &&& sig@.generics == spec_generics(tokens.deep_view())
                &&& sig@.path == spec_path(tokens.deep_view())
                &&& sig@.bound == spec_bound(tokens.deep_view())
            },
            Err(ParseError::EmptyInput) => tokens.deep_view().len() == 0,
            Err(ParseError::UnclosedGenerics) => generics_unclosed(tokens.deep_view()),
            Err(ParseError::MissingPath) => {
                &&& tokens.deep_view().len() > 0
                &&& !generics_unclosed(tokens.deep_view())
                &&& path_start(tokens.deep_view()) == path_end(tokens.deep_view())
            },
        },
{
    let ghost ts = tokens.deep_view();
    let n: usize = tokens.len();
    proof {
        assert(ts.len() == tokens@.len());
    }
    if n == 0 {
        return Err(ParseError::EmptyInput);
    }
    let mut generics: Vec<Token> = Vec::new();
    let mut i: usize = 0;

    let has_generics = match &tokens[0] {
        Token::Lt => true,
        _ => false,
    };
    if has_generics {
        // Generics section: accumulate tokens, tracking bracket depth, until
        // the closing bracket at depth zero.
        let mut depth: usize = 0;
        i = 1;
        loop
            invariant_except_break
                1 <= i <= n,
                n == ts.len(),
                n == tokens@.len(),
                ts == tokens.deep_view(),
                opens_generics(ts),
                depth < i,
                close_position(ts, 1, 0) == close_position(ts, i as int, depth as int),
                generics@.len() == i - 1,
                forall|j: int| 0 <= j < i - 1 ==> generics@[j]@ == tokens@[j + 1]@,
            ensures
                1 <= i < n,
                close_position(ts, 1, 0) == Some(i as int),
                generics@.len() == i - 1,
                forall|j: int| 0 <= j < i - 1 ==> generics@[j]@ == tokens@[j + 1]@,
            decreases n - i,
        {
            if i == n {
                proof {
                    assert(close_position(ts, i as int, depth as int) is None);
                }
                return Err(ParseError::UnclosedGenerics);
            }
            let next = &tokens[i];
            match next {
                Token::Gt => {
                    if depth == 0 {
                        proof {
                            assert(close_position(ts, i as int, 0) == Some(i as int));
                        }
                        break;
                    }
                    depth = depth - 1;
                    generics.push(next.duplicate());
                },
                Token::Lt => {
                    depth = depth + 1;
                    generics.push(next.duplicate());
                },
                _ => {
                    generics.push(next.duplicate());
                },
            }
            i = i + 1;
        }
        i = i + 1;
    }
    // Here the generics section, if any, is closed, and `i` is where the
    // path begins.
    proof {
        assert(i as int == path_start(ts));
        assert(!generics_unclosed(ts));
        assert forall|j: int| 0 <= j < spec_generics(ts).len() implies generics.deep_view()[j]
            == spec_generics(ts)[j] by {
            assert(generics@[j]@ == tokens@[j + 1]@);
        }
        assert(generics.deep_view() =~= spec_generics(ts));
    }
    let ghost start: int = i as int;
    let mut path: Vec<Token> = Vec::new();
    let mut saw_where = false;
    while i < n && !saw_where
        invariant
            start <= i <= n,
            n == ts.len(),
            n == tokens@.len(),
            ts == tokens.deep_view(),
            start == path_start(ts),
            saw_where ==> i < n && where_position(ts, start) == Some(i as int),
            !saw_where ==> where_position(ts, start) == where_position(ts, i as int),
            path@.len() == i - start,
            forall|j: int| 0 <= j < path@.len() ==> path@[j]@ == tokens@[j + start]@,
        decreases n - i + (if saw_where { 0int } else { 1int }),
    {
        let next = &tokens[i];
        match next {
            Token::Where => {
                proof {
                    assert(where_position(ts, i as int) == Some(i as int));
                }
                saw_where = true;
            },
            _ => {
                path.push(next.duplicate());
                i = i + 1;
            },
        }
    }
    proof {
        if saw_where {
            assert(path_end(ts) == i as int);
        } else {
            assert(where_position(ts, start) is None);
            assert(path_end(ts) == n as int);
        }
        assert(path@.len() == path_end(ts) - path_start(ts));
    }
    if path.len() == 0 {
        return Err(ParseError::MissingPath);
    }
    proof {
        assert forall|j: int| 0 <= j < spec_path(ts).len() implies path.deep_view()[j]
            == spec_path(ts)[j] by {
            assert(path@[j]@ == tokens@[j + start]@);
        }
        assert(path.deep_view() =~= spec_path(ts));
    }
    let mut bound: Vec<Token> = Vec::new();
    if saw_where {
        // Everything after the constraint keyword is the constraint clause.
        let ghost wpos: int = i as int;
        i = i + 1;
        while i < n
            invariant
                wpos + 1 <= i <= n,
                n == ts.len(),
                n == tokens@.len(),
                ts == tokens.deep_view(),
                where_position(ts, path_start(ts)) == Some(wpos),
                bound@.len() == i - wpos - 1,
                forall|j: int| 0 <= j < bound@.len() ==> bound@[j]@ == tokens@[j + wpos + 1]@,
            decreases n - i,
        {
            bound.push(tokens[i].duplicate());
            i = i + 1;
        }
        proof {
            assert forall|j: int| 0 <= j < spec_bound(ts).len() implies bound.deep_view()[j]
                == spec_bound(ts)[j] by {
                assert(bound@[j]@ == tokens@[j + wpos + 1]@);
            }
            assert(bound.deep_view() =~= spec_bound(ts));
        }
    } else {
        proof {
            assert(spec_bound(ts) =~= bound.deep_view());
        }
    }
    Ok(Signature { generics, path, bound })
}

} // verus!
