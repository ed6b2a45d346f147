//! Generating the four forwarding implementations.
//!
//! For a parsed interface signature, the generator emits one implementation
//! declaration of the generic hashing capability per marker decoration that
//! an erased reference to the interface might carry: none, the
//! transfer-across-contexts marker, the share-between-contexts marker, and
//! both. Each declaration reuses the signature's generic parameters and
//! constraint clause verbatim, and each body delegates to the adapter
//! operation, as [`crate::hash_erased`] does.

use vstd::prelude::*;

use crate::parse::ParseError;
use crate::parse::Signature;
use crate::parse::SignatureModel;
use crate::parse::parse_signature;
use crate::parse::spec_bound;
use crate::parse::spec_generics;
use crate::parse::spec_path;
use crate::parse::well_formed;
use crate::token::Token;
use crate::token::TokenModel;
use crate::token::duplicate_tokens;
use crate::token::tokens_match;

verus! {

/// One generated implementation declaration: the generic hashing capability
/// for an erased reference to the interface at `path`, decorated with the
/// transfer marker when `send` holds and the share marker when `sync`
/// holds. Its body is fixed: delegate to the adapter operation.
pub struct ImplDecl {
    pub send: bool,
    pub sync: bool,
    pub generics: Vec<Token>,
    pub path: Vec<Token>,
    pub bound: Vec<Token>,
}

/// The mathematical form of a generated declaration.
pub struct ImplDeclModel {
    pub send: bool,
    pub sync: bool,
    pub generics: Seq<TokenModel>,
    pub path: Seq<TokenModel>,
    pub bound: Seq<TokenModel>,
}

impl View for ImplDecl {
    type V = ImplDeclModel;

    open spec fn view(&self) -> ImplDeclModel {
        ImplDeclModel {
            send: self.send,
            sync: self.sync,
            generics: self.generics.deep_view(),
            path: self.path.deep_view(),
            bound: self.bound.deep_view(),
        }
    }
}

impl DeepView for ImplDecl {
    type V = ImplDeclModel;

    open spec fn deep_view(&self) -> ImplDeclModel {
        self@
    }
}

impl ImplDecl {
    /// An exact copy of this declaration.
    pub fn duplicate(&self) -> (r: ImplDecl)
        ensures
            r@ == self@,
    {
        ImplDecl {
            send: self.send,
            sync: self.sync,
            generics: duplicate_tokens(&self.generics),
            path: duplicate_tokens(&self.path),
            bound: duplicate_tokens(&self.bound),
        }
    }
}

/// Whether a generated declaration carries a signature's sections verbatim
/// and the given marker decoration.
pub open spec fn decl_matches(d: ImplDeclModel, sig: SignatureModel, send: bool, sync: bool) -> bool {
    &&& d.send == send
    &&& d.sync == sync
    &&& d.generics == sig.generics
    &&& d.path == sig.path
    &&& d.bound == sig.bound
}

/// Whether two declarations collide: implementations of the one capability
/// for the same interface path under the same marker decoration.
pub open spec fn conflicts(a: ImplDeclModel, b: ImplDeclModel) -> bool {
    &&& a.path == b.path
    &&& a.send == b.send
    &&& a.sync == b.sync
}

fn decl_for(sig: &Signature, send: bool, sync: bool) -> (r: ImplDecl)
    ensures
        decl_matches(r@, sig@, send, sync),
{
    ImplDecl {
        send,
        sync,
        generics: duplicate_tokens(&sig.generics),
        path: duplicate_tokens(&sig.path),
        bound: duplicate_tokens(&sig.bound),
    }
}

/// Emit the four forwarding implementations for a parsed signature: one per
/// marker decoration, each carrying the generic parameters, interface path
/// and constraint clause verbatim. No two of the four collide.
pub fn expand(sig: &Signature) -> (r: Vec<ImplDecl>)
    ensures
        r@.len() == 4,
        decl_matches(r@[0]@, sig@, false, false),
        decl_matches(r@[1]@, sig@, true, false),
        decl_matches(r@[2]@, sig@, false, true),
        decl_matches(r@[3]@, sig@, true, true),
        forall|i: int, j: int| 0 <= i < j < 4 ==> !conflicts(r@[i]@, r@[j]@),
{
    let mut out: Vec<ImplDecl> = Vec::new();
    out.push(decl_for(sig, false, false));
    out.push(decl_for(sig, true, false));
    out.push(decl_for(sig, false, true));
    out.push(decl_for(sig, true, true));
    out
}

/// The whole generator: split the token sequence into a signature and emit
/// the four forwarding implementations for it, or say exactly why the
/// input is malformed.
pub fn hash_trait_object(tokens: &Vec<Token>) -> (r: Result<Vec<ImplDecl>, ParseError>)
    ensures
        match r {
            Ok(decls) => {
                &&& well_formed(tokens.deep_view())
                &&& decls@.len() == 4
                &&& forall|k: int|
                    0 <= k < 4 ==> #[trigger] decls@[k]@.generics == spec_generics(
                        tokens.deep_view(),
                    ) && decls@[k]@.path == spec_path(tokens.deep_view()) && decls@[k]@.bound
                        == spec_bound(tokens.deep_view())
                &&& decls@[0]@.send == false && decls@[0]@.sync == false
                &&& decls@[1]@.send == true && decls@[1]@.sync == false
                &&& decls@[2]@.send == false && decls@[2]@.sync == true
                &&& decls@[3]@.send == true && decls@[3]@.sync == true
            },
            Err(ParseError::EmptyInput) => tokens.deep_view().len() == 0,
            Err(ParseError::UnclosedGenerics) => crate::parse::generics_unclosed(
                tokens.deep_view(),
            ),
            Err(ParseError::MissingPath) => {
                &&& tokens.deep_view().len() > 0
                &&& !crate::parse::generics_unclosed(tokens.deep_view())
                &&& crate::parse::path_start(tokens.deep_view()) == crate::parse::path_end(
                    tokens.deep_view(),
                )
            },
        },
{
    match parse_signature(tokens) {
        Ok(sig) => Ok(expand(&sig)),
        Err(e) => Err(e),
    }
}

/// The implementation declarations in force in one scope, at most one per
/// interface path and marker decoration — the discipline the build enforces
/// when generated declarations are brought into a program.
pub struct Scope {
    decls: Vec<ImplDecl>,
}

/// A colliding declaration: the scope already holds an implementation for
/// this interface path and marker decoration.
pub struct Duplicate {
    pub position: usize,
}

/// Whether the first `upto` incoming declarations are free of collisions,
/// both with the existing ones and among themselves.
pub open spec fn clean_prefix(
    existing: Seq<ImplDeclModel>,
    incoming: Seq<ImplDeclModel>,
    upto: int,
) -> bool {
    &&& forall|i: int, j: int|
        0 <= i < existing.len() && 0 <= j < upto ==> !conflicts(existing[i], incoming[j])
    &&& forall|i: int, j: int| 0 <= i < j < upto ==> !conflicts(incoming[i], incoming[j])
}

/// Whether a batch of incoming declarations can join existing ones: no
/// collision with what is there, and none among themselves.
pub open spec fn compatible(existing: Seq<ImplDeclModel>, incoming: Seq<ImplDeclModel>) -> bool {
    clean_prefix(existing, incoming, incoming.len() as int)
}

/// Whether the incoming declaration at `at` collides with an existing one
/// or with an earlier incoming one.
pub open spec fn collides_at(
    existing: Seq<ImplDeclModel>,
    incoming: Seq<ImplDeclModel>,
    at: int,
) -> bool {
    ||| exists|i: int| 0 <= i < existing.len() && conflicts(existing[i], incoming[at])
    ||| exists|j: int| 0 <= j < at && conflicts(incoming[j], incoming[at])
}

impl Scope {
    /// The declarations this scope holds, in installation order.
    pub closed spec fn decls_model(&self) -> Seq<ImplDeclModel> {
        self.decls.deep_view()
    }

    /// No two declarations in the scope collide.
    pub open spec fn wf(&self) -> bool {
        forall|i: int, j: int|
            0 <= i < j < self.decls_model().len() ==> !conflicts(
                self.decls_model()[i],
                self.decls_model()[j],
            )
    }

    /// A scope with no declarations.
    pub fn new() -> (r: Scope)
        ensures
            r.decls_model() == Seq::<ImplDeclModel>::empty(),
            r.wf(),
    {
        let s = Scope { decls: Vec::new() };
        proof {
            assert(s.decls_model() =~= Seq::<ImplDeclModel>::empty());
        }
        s
    }

    fn conflicts_with(&self, incoming: &Vec<ImplDecl>, upto: usize, d: &ImplDecl) -> (r: bool)
        requires
            upto <= incoming@.len(),
        ensures
            r == ((exists|i: int|
                0 <= i < self.decls_model().len() && conflicts(self.decls_model()[i], d@))
                || (exists|j: int| 0 <= j < upto && conflicts(incoming.deep_view()[j], d@))),
    {
        let mut i: usize = 0;
        while i < self.decls.len()
            invariant
                i <= self.decls@.len(),
                forall|k: int| 0 <= k < i ==> !conflicts(self.decls_model()[k], d@),
            decreases self.decls@.len() - i,
        {
            let e = &self.decls[i];
            if tokens_match(&e.path, &d.path) && e.send == d.send && e.sync == d.sync {
                proof {
                    assert(conflicts(self.decls_model()[i as int], d@));
                }
                return true;
            }
            i = i + 1;
        }
        let mut j: usize = 0;
        while j < upto
            invariant
                j <= upto,
                upto <= incoming@.len(),
                forall|k: int| 0 <= k < self.decls_model().len() ==> !conflicts(
                    self.decls_model()[k],
                    d@,
                ),
                forall|k: int| 0 <= k < j ==> !conflicts(incoming.deep_view()[k], d@),
            decreases upto - j,
        {
            let e = &incoming[j];
            if tokens_match(&e.path, &d.path) && e.send == d.send && e.sync == d.sync {
                proof {
                    assert(conflicts(incoming.deep_view()[j as int], d@));
                }
                return true;
            }
            j = j + 1;
        }
        false
    }

    /// Bring a batch of generated declarations into the scope. The whole
    /// batch joins when none of it collides; a collision rejects the whole
    /// batch and reports the first incoming declaration at fault, leaving
    /// the scope as it was.
    pub fn install(&mut self, incoming: &Vec<ImplDecl>) -> (r: Result<(), Duplicate>)
        requires
            old(self).wf(),
        ensures
            final(self).wf(),
            match r {
                Ok(()) => {
                    &&& compatible(old(self).decls_model(), incoming.deep_view())
                    &&& final(self).decls_model() == old(self).decls_model()
                        + incoming.deep_view()
                },
                Err(d) => {
                    &&& !compatible(old(self).decls_model(), incoming.deep_view())
                    &&& d.position < incoming.deep_view().len()
                    &&& clean_prefix(
                        old(self).decls_model(),
                        incoming.deep_view(),
                        d.position as int,
                    )
                    &&& collides_at(
                        old(self).decls_model(),
                        incoming.deep_view(),
                        d.position as int,
                    )
                    &&& final(self).decls_model() == old(self).decls_model()
                },
            },
    {
        let ghost existing = self.decls_model();
        let ghost inc = incoming.deep_view();
        let mut k: usize = 0;
        while k < incoming.len()
            invariant
                k <= incoming@.len(),
                forall|i: int, j: int|
                    0 <= i < j < existing.len() ==> !conflicts(existing[i], existing[j]),
                forall|i: int, j: int|
                    0 <= i < existing.len() && 0 <= j < k ==> !conflicts(existing[i], inc[j]),
                forall|i: int, j: int| 0 <= i < j < k ==> !conflicts(inc[i], inc[j]),
                existing == self.decls_model(),
                inc == incoming.deep_view(),
            decreases incoming@.len() - k,
        {
            if self.conflicts_with(incoming, k, &incoming[k]) {
                proof {
                    let d = inc[k as int];
                    if exists|i: int| 0 <= i < existing.len() && conflicts(existing[i], d) {
                        let wi: int = choose|i: int|
                            0 <= i < existing.len() && conflicts(existing[i], d);
                        assert(conflicts(existing[wi], inc[k as int]));
                    } else {
                        let wj: int = choose|j: int| 0 <= j < k && conflicts(inc[j], d);
                        assert(conflicts(inc[wj], inc[k as int]));
                    }
                    assert(!compatible(existing, inc));
                    assert(clean_prefix(existing, inc, k as int));
                    assert(collides_at(existing, inc, k as int));
                    assert forall|i: int, j: int|
                        0 <= i < j < self.decls_model().len() implies !conflicts(
                        self.decls_model()[i],
                        self.decls_model()[j],
                    ) by {
                        assert(!conflicts(existing[i], existing[j]));
                    }
                    assert(self.wf());
                }
                return Err(Duplicate { position: k });
            }
            proof {
                assert(forall|i: int|
                    0 <= i < existing.len() ==> !conflicts(existing[i], inc[k as int]));
                assert(forall|i: int| 0 <= i < k ==> !conflicts(inc[i], inc[k as int]));
            }
            k = k + 1;
        }
        let mut m: usize = 0;
        while m < incoming.len()
            invariant
                m <= incoming@.len(),
                inc == incoming.deep_view(),
                self.decls_model().len() == existing.len() + m,
                forall|i: int| 0 <= i < existing.len() ==> self.decls_model()[i] == existing[i],
                forall|i: int|
                    0 <= i < m ==> self.decls_model()[existing.len() + i] == inc[i],
            decreases incoming@.len() - m,
        {
            self.decls.push(incoming[m].duplicate());
            m = m + 1;
        }
        proof {
            assert(self.decls_model() =~= existing + inc);
            assert forall|i: int, j: int|
                0 <= i < j < self.decls_model().len() implies !conflicts(
                self.decls_model()[i],
                self.decls_model()[j],
            ) by {
                if j < existing.len() {
                    assert(!conflicts(existing[i], existing[j]));
                } else if i < existing.len() {
                    assert(!conflicts(existing[i], inc[j - existing.len()]));
                } else {
                    assert(!conflicts(inc[i - existing.len()], inc[j - existing.len()]));
                }
            }
        }
        Ok(())
    }
}

} // verus!
