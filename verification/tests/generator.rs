use dyn_hash::expand::expand;
use dyn_hash::expand::hash_trait_object;
use dyn_hash::expand::ImplDecl;
use dyn_hash::expand::Scope;
use dyn_hash::parse::parse_signature;
use dyn_hash::parse::ParseError;
use dyn_hash::parse::Signature;
use dyn_hash::token::tokens_match;
use dyn_hash::token::Token;

fn text(s: &str) -> Token {
    Token::Text(s.to_string())
}

fn texts(names: &[&str]) -> Vec<Token> {
    let mut out = Vec::new();
    for n in names {
        out.push(text(n));
    }
    out
}

fn assert_same_tokens(actual: &Vec<Token>, expected: &Vec<Token>) {
    assert!(tokens_match(actual, expected));
}

#[test]
fn parse_plain_path() {
    let tokens = vec![text("MyTrait")];
    let sig = parse_signature(&tokens).ok().unwrap();
    assert_same_tokens(&sig.generics, &vec![]);
    assert_same_tokens(&sig.path, &vec![text("MyTrait")]);
    assert_same_tokens(&sig.bound, &vec![]);
}

#[test]
fn parse_dotted_path_with_type_arguments() {
    // A path may carry its own type arguments; they stay in the path.
    let tokens = vec![text("module"), text("::"), text("Difficult"), Token::Lt, text("R"), Token::Gt];
    let sig = parse_signature(&tokens).ok().unwrap();
    assert_same_tokens(&sig.generics, &vec![]);
    assert_same_tokens(&sig.path, &tokens);
    assert_same_tokens(&sig.bound, &vec![]);
}

#[test]
fn parse_generics_and_constraint() {
    // < R >  Difficult < R >  where  R : Read
    let tokens = vec![
        Token::Lt,
        text("R"),
        Token::Gt,
        text("Difficult"),
        Token::Lt,
        text("R"),
        Token::Gt,
        Token::Where,
        text("R"),
        text(":"),
        text("Read"),
    ];
    let sig = parse_signature(&tokens).ok().unwrap();
    assert_same_tokens(&sig.generics, &vec![text("R")]);
    assert_same_tokens(
        &sig.path,
        &vec![text("Difficult"), Token::Lt, text("R"), Token::Gt],
    );
    assert_same_tokens(&sig.bound, &vec![text("R"), text(":"), text("Read")]);
}

#[test]
fn parse_nested_generics() {
    // < K : Into < V > , V >  Lookup
    let tokens = vec![
        Token::Lt,
        text("K"),
        text(":"),
        text("Into"),
        Token::Lt,
        text("V"),
        Token::Gt,
        text(","),
        text("V"),
        Token::Gt,
        text("Lookup"),
    ];
    let sig = parse_signature(&tokens).ok().unwrap();
    assert_same_tokens(
        &sig.generics,
        &vec![
            text("K"),
            text(":"),
            text("Into"),
            Token::Lt,
            text("V"),
            Token::Gt,
            text(","),
            text("V"),
        ],
    );
    assert_same_tokens(&sig.path, &vec![text("Lookup")]);
    assert_same_tokens(&sig.bound, &vec![]);
}

#[test]
fn parse_empty_constraint_clause() {
    let tokens = vec![text("MyTrait"), Token::Where];
    let sig = parse_signature(&tokens).ok().unwrap();
    assert_same_tokens(&sig.path, &vec![text("MyTrait")]);
    assert_same_tokens(&sig.bound, &vec![]);
}

#[test]
fn parse_empty_input_is_rejected() {
    let tokens: Vec<Token> = vec![];
    assert!(matches!(parse_signature(&tokens), Err(ParseError::EmptyInput)));
}

#[test]
fn parse_unclosed_generics_is_rejected() {
    let tokens = vec![Token::Lt, text("R"), text(":"), text("Read")];
    assert!(matches!(
        parse_signature(&tokens),
        Err(ParseError::UnclosedGenerics)
    ));
}

#[test]
fn parse_deeply_unclosed_generics_is_rejected() {
    // The inner close must not end the outer list: < K : Into < V >
    let tokens = vec![
        Token::Lt,
        text("K"),
        text(":"),
        text("Into"),
        Token::Lt,
        text("V"),
        Token::Gt,
    ];
    assert!(matches!(
        parse_signature(&tokens),
        Err(ParseError::UnclosedGenerics)
    ));
}

#[test]
fn parse_leading_constraint_keyword_is_rejected() {
    let tokens = vec![Token::Where, text("R"), text(":"), text("Read")];
    assert!(matches!(parse_signature(&tokens), Err(ParseError::MissingPath)));
}

#[test]
fn parse_generics_without_path_is_rejected() {
    let tokens = vec![Token::Lt, text("R"), Token::Gt];
    assert!(matches!(parse_signature(&tokens), Err(ParseError::MissingPath)));
}

fn check_four_decls(decls: &Vec<ImplDecl>, sig: &Signature) {
    assert_eq!(decls.len(), 4);
    assert!(!decls[0].send && !decls[0].sync);
    assert!(decls[1].send && !decls[1].sync);
    assert!(!decls[2].send && decls[2].sync);
    assert!(decls[3].send && decls[3].sync);
    for d in decls {
        assert_same_tokens(&d.generics, &sig.generics);
        assert_same_tokens(&d.path, &sig.path);
        assert_same_tokens(&d.bound, &sig.bound);
    }
}

#[test]
fn expand_emits_four_marker_combinations() {
    let tokens = vec![text("MyTrait")];
    let sig = parse_signature(&tokens).ok().unwrap();
    let decls = expand(&sig);
    check_four_decls(&decls, &sig);
}

#[test]
fn expand_passes_generics_and_constraint_through_verbatim() {
    let tokens = vec![
        Token::Lt,
        text("R"),
        Token::Gt,
        text("Difficult"),
        Token::Lt,
        text("R"),
        Token::Gt,
        Token::Where,
        text("R"),
        text(":"),
        text("Read"),
    ];
    let sig = parse_signature(&tokens).ok().unwrap();
    let decls = expand(&sig);
    check_four_decls(&decls, &sig);
}

#[test]
fn generator_runs_end_to_end_on_its_own_adapter() {
    // The adapter capability itself is the first interface the generator is
    // applied to, so that erased references to it can be hashed.
    let tokens = vec![text("DynHash")];
    let decls = hash_trait_object(&tokens).ok().unwrap();
    assert_eq!(decls.len(), 4);
    assert_same_tokens(&decls[0].path, &vec![text("DynHash")]);
}

#[test]
fn generator_reports_malformed_input() {
    assert!(matches!(
        hash_trait_object(&vec![]),
        Err(ParseError::EmptyInput)
    ));
    assert!(matches!(
        hash_trait_object(&vec![Token::Lt, text("R")]),
        Err(ParseError::UnclosedGenerics)
    ));
    assert!(matches!(
        hash_trait_object(&vec![Token::Where]),
        Err(ParseError::MissingPath)
    ));
}

#[test]
fn same_input_generates_the_same_declarations() {
    let tokens = vec![Token::Lt, text("R"), Token::Gt, text("J"), Token::Lt, text("R"), Token::Gt];
    let first = hash_trait_object(&tokens).ok().unwrap();
    let second = hash_trait_object(&tokens).ok().unwrap();
    assert_eq!(first.len(), second.len());
    for k in 0..first.len() {
        assert_eq!(first[k].send, second[k].send);
        assert_eq!(first[k].sync, second[k].sync);
        assert_same_tokens(&first[k].generics, &second[k].generics);
        assert_same_tokens(&first[k].path, &second[k].path);
        assert_same_tokens(&first[k].bound, &second[k].bound);
    }
}

#[test]
fn one_generation_per_scope_is_accepted() {
    let decls = hash_trait_object(&vec![text("MyTrait")]).ok().unwrap();
    let mut scope = Scope::new();
    assert!(scope.install(&decls).is_ok());
}

#[test]
fn second_generation_for_the_same_path_is_rejected() {
    // Generating twice for one interface path collides on every marker
    // combination; the collision is reported, not silently kept.
    let decls = hash_trait_object(&vec![text("MyTrait")]).ok().unwrap();
    let mut scope = Scope::new();
    assert!(scope.install(&decls).is_ok());
    let again = hash_trait_object(&vec![text("MyTrait")]).ok().unwrap();
    let rejected = scope.install(&again);
    assert!(rejected.is_err());
    assert_eq!(rejected.err().unwrap().position, 0);
}

#[test]
fn distinct_paths_share_a_scope() {
    let first = hash_trait_object(&vec![text("MyTrait")]).ok().unwrap();
    let second = hash_trait_object(&vec![text("OtherTrait")]).ok().unwrap();
    let mut scope = Scope::new();
    assert!(scope.install(&first).is_ok());
    assert!(scope.install(&second).is_ok());
}

#[test]
fn hand_written_collision_is_rejected() {
    // A hand-written implementation for one marker combination collides
    // with the generated batch for the same path.
    let by_hand = vec![ImplDecl {
        send: true,
        sync: false,
        generics: texts(&[]),
        path: vec![text("MyTrait")],
        bound: texts(&[]),
    }];
    let mut scope = Scope::new();
    assert!(scope.install(&by_hand).is_ok());
    let generated = hash_trait_object(&vec![text("MyTrait")]).ok().unwrap();
    let rejected = scope.install(&generated);
    assert!(rejected.is_err());
    assert_eq!(rejected.err().unwrap().position, 1);
}
