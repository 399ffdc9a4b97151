use anchored::parse::{expand_source, ExpandError};
use anchored::sig::Param;
use anchored::transform::TransformError;

#[test]
fn parses_and_expands_simple() {
    let x = expand_source("async fn simple() {}").unwrap();
    assert!(x.sig.is_async);
    assert_eq!(x.sig.ident, "simple");
    assert_eq!(x.sig.qualifiers, "");
    assert_eq!(x.sig.generics, "");
    assert_eq!(x.sig.where_clause, "");
    assert!(x.sig.params.is_empty());
    assert_eq!(
        x.text,
        "fn __assert_unanchored_simple() { let future = simple(); \
         fn assert<UnanchoredFutureType: anchored::Unanchored>(_: UnanchoredFutureType) {} \
         assert(future); }"
    );
}

#[test]
fn parses_and_expands_with_param() {
    let x = expand_source("async fn with_param(input: usize) -> usize { input }").unwrap();
    assert_eq!(
        x.sig.params,
        vec![Param::Ident {
            name: "input".to_string(),
            text: "input : usize".to_string(),
        }]
    );
    assert_eq!(
        x.text,
        "fn __assert_unanchored_with_param(input : usize) { let future = with_param(input); \
         fn assert<UnanchoredFutureType: anchored::Unanchored>(_: UnanchoredFutureType) {} \
         assert(future); }"
    );
}

#[test]
fn parses_and_expands_with_lifetime() {
    let x = expand_source(
        "async fn with_lifetime<'a, 'b>(input: &'a usize) -> &'b usize where 'a: 'b { input }",
    )
    .unwrap();
    assert_eq!(x.sig.generics, "'a , 'b");
    assert_eq!(x.sig.where_clause, "where 'a : 'b");
    assert_eq!(
        x.text,
        "fn __assert_unanchored_with_lifetime<'a , 'b>(input : & 'a usize) where 'a : 'b \
         { let future = with_lifetime(input); \
         fn assert<UnanchoredFutureType: anchored::Unanchored>(_: UnanchoredFutureType) {} \
         assert(future); }"
    );
}

#[test]
fn parses_and_expands_with_type_param() {
    let x = expand_source(
        "async fn with_type_param<T>(input: T) -> T where T: Send + Sync + 'static { input }",
    )
    .unwrap();
    assert_eq!(x.sig.generics, "T");
    assert_eq!(x.sig.where_clause, "where T : Send + Sync + 'static");
    assert_eq!(
        x.text,
        "fn __assert_unanchored_with_type_param<T>(input : T) where T : Send + Sync + 'static \
         { let future = with_type_param(input); \
         fn assert<UnanchoredFutureType: anchored::Unanchored>(_: UnanchoredFutureType) {} \
         assert(future); }"
    );
}

#[test]
fn parses_and_expands_method_by_ref() {
    let x = expand_source("async fn by_ref(&self, input: usize) -> usize { input }").unwrap();
    assert_eq!(
        x.sig.params[0],
        Param::Receiver {
            text: "& self".to_string(),
        }
    );
    assert_eq!(
        x.text,
        "fn __assert_unanchored_by_ref(& self, input : usize) \
         { let future = self.by_ref(input); \
         fn assert<UnanchoredFutureType: anchored::Unanchored>(_: UnanchoredFutureType) {} \
         assert(future); }"
    );
}

#[test]
fn parses_and_expands_method_by_ref_mut() {
    let x = expand_source("async fn by_ref_mut(&mut self, input: usize) -> usize { input }")
        .unwrap();
    assert_eq!(
        x.sig.params[0],
        Param::Receiver {
            text: "& mut self".to_string(),
        }
    );
    assert!(x.text.contains("self.by_ref_mut(input)"));
}

#[test]
fn parses_and_expands_smart_receiver() {
    let x = expand_source("async fn by_arc(self: Arc<Self>, input: usize) -> usize { input }")
        .unwrap();
    assert_eq!(
        x.sig.params[0],
        Param::Ident {
            name: "self".to_string(),
            text: "self : Arc < Self >".to_string(),
        }
    );
    assert_eq!(
        x.text,
        "fn __assert_unanchored_by_arc(self : Arc < Self >, input : usize) \
         { let future = self.by_arc(input); \
         fn assert<UnanchoredFutureType: anchored::Unanchored>(_: UnanchoredFutureType) {} \
         assert(future); }"
    );
}

#[test]
fn parses_and_expands_smart_receiver_behind_reference() {
    let x = expand_source(
        "async fn by_arc_mut(self: &mut Arc<Self>, input: usize) -> usize { input }",
    )
    .unwrap();
    assert_eq!(
        x.sig.params[0],
        Param::Ident {
            name: "self".to_string(),
            text: "self : & mut Arc < Self >".to_string(),
        }
    );
    assert!(x.text.contains("self.by_arc_mut(input)"));
}

#[test]
fn parses_and_expands_mutable_smart_receiver() {
    let x = expand_source(
        "async fn by_mut_arc(mut self: Arc<Self>, input: usize) -> usize { input }",
    )
    .unwrap();
    assert_eq!(
        x.sig.params[0],
        Param::Ident {
            name: "self".to_string(),
            text: "mut self : Arc < Self >".to_string(),
        }
    );
    assert!(x.text.contains("self.by_mut_arc(input)"));
}

#[test]
fn refuses_a_wildcard_parameter() {
    match expand_source("async fn ignores(_: u8) {}") {
        Err(ExpandError::Refused { sig, error }) => {
            assert!(sig.is_async);
            assert_eq!(
                error,
                TransformError::UnsupportedPattern {
                    index: 0,
                    text: "_ : u8".to_string(),
                }
            );
        }
        other => panic!("expected a refusal, got {:?}", other),
    }
}

#[test]
fn refuses_a_function_that_is_not_async() {
    match expand_source("fn not_async() {}") {
        Err(ExpandError::Refused { sig, error }) => {
            assert!(!sig.is_async);
            assert_eq!(sig.ident, "not_async");
            assert_eq!(error, TransformError::NotAsync);
        }
        other => panic!("expected a refusal, got {:?}", other),
    }
}

#[test]
fn refuses_a_pattern_parameter() {
    match expand_source("async fn takes_pair((a, b): (u8, u8)) {}") {
        Err(ExpandError::Refused { sig, error }) => {
            assert_eq!(sig.ident, "takes_pair");
            assert_eq!(
                error,
                TransformError::UnsupportedPattern {
                    index: 0,
                    text: "(a , b) : (u8 , u8)".to_string(),
                }
            );
        }
        other => panic!("expected a refusal, got {:?}", other),
    }
}

#[test]
fn reports_the_parser_message_on_malformed_input() {
    let r = expand_source("struct NotAFunction;");
    match r {
        Err(ExpandError::Parse { message }) => assert!(!message.is_empty()),
        other => panic!("expected a parse failure, got {:?}", other),
    }
}
