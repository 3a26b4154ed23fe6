use mf_derive::expression::functions::{
    ClosureFunction, CompositeFunction, FunctionDefinition, FunctionSignature, StaticFunction,
};
use mf_derive::expression::parser::{ParserError, ParserResult};

#[test]
fn single_signature_has_one_parameter() {
    let sig = FunctionSignature::single("string", "number");
    assert_eq!(sig.parameters, vec!["string"]);
    assert_eq!(sig.return_type, "number");
}

#[test]
fn static_function_requires_every_parameter() {
    let f = StaticFunction {
        signature: FunctionSignature { parameters: vec!["a", "b", "c"], return_type: "r" },
    };
    assert_eq!(f.required_parameters(), 3);
    assert_eq!(f.optional_parameters(), 0);
}

#[test]
fn composite_function_counts_span_its_overloads() {
    let f = CompositeFunction {
        signatures: vec![
            FunctionSignature { parameters: vec![1, 2, 3], return_type: 0 },
            FunctionSignature { parameters: vec![1], return_type: 0 },
            FunctionSignature { parameters: vec![1, 2], return_type: 0 },
        ],
    };
    assert_eq!(f.required_parameters(), 1);
    assert_eq!(f.optional_parameters(), 2);
}

#[test]
fn composite_function_without_overloads_takes_nothing() {
    let f: CompositeFunction<u8> = CompositeFunction { signatures: vec![] };
    assert_eq!(f.required_parameters(), 0);
    assert_eq!(f.optional_parameters(), 0);
}

#[test]
fn closure_names_are_camel_case_and_round_trip() {
    let names: Vec<&str> = ClosureFunction::all().iter().map(|c| c.as_str()).collect();
    assert_eq!(names, vec!["all", "none", "some", "one", "filter", "map", "flatMap", "count"]);
    for c in ClosureFunction::all() {
        assert_eq!(ClosureFunction::from_name(c.as_str()), Some(c));
    }
    assert_eq!(ClosureFunction::from_name("flat_map"), None);
    assert_eq!(ClosureFunction::from_name("All"), None);
}

#[test]
fn parser_result_reports_incomplete_first() {
    let r = ParserResult { is_complete: false, first_error: Some("bad".to_string()) };
    assert!(matches!(r.error(), Err(ParserError::Incomplete)));
    assert_eq!(ParserError::Incomplete.to_string(), "Incomplete parser output");
}

#[test]
fn parser_result_reports_the_first_error_node() {
    let r = ParserResult { is_complete: true, first_error: Some("unexpected token".to_string()) };
    match r.error() {
        Err(e @ ParserError::NodeError(_)) => assert_eq!(e.to_string(), "unexpected token"),
        other => panic!("unexpected {:?}", other),
    }
    let ok = ParserResult { is_complete: true, first_error: None };
    assert!(ok.error().is_ok());
}

#[test]
fn static_arity_message_names_both_counts() {
    let f = StaticFunction {
        signature: FunctionSignature { parameters: vec!["a", "b"], return_type: "r" },
    };
    assert_eq!(f.check_arity(2), None);
    assert_eq!(f.check_arity(3).as_deref(), Some("期望 `2` 参数, 实际 `3` 参数."));
}

#[test]
fn composite_arity_message_names_the_range() {
    let f = CompositeFunction {
        signatures: vec![
            FunctionSignature { parameters: vec![1], return_type: 0 },
            FunctionSignature { parameters: vec![1, 2, 3], return_type: 0 },
        ],
    };
    assert_eq!(f.check_arity(1), None);
    assert_eq!(f.check_arity(3), None);
    assert_eq!(f.check_arity(0).as_deref(), Some("Expected `1 - 3` arguments, got `0`."));
    assert_eq!(f.check_arity(12).as_deref(), Some("Expected `1 - 3` arguments, got `12`."));
    let none: CompositeFunction<u8> = CompositeFunction { signatures: vec![] };
    assert_eq!(none.check_arity(0).as_deref(), Some("No implementation"));
}
