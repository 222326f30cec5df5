use forge_runner::{
    function_args, is_builtin, ConcreteTypeLongId, Function, FunctionSignature, GenericArg,
    TypeDeclaration,
};
use std::collections::HashMap;

fn declaration(id: u64, generic_id: &str, generic_args: Vec<GenericArg>) -> TypeDeclaration {
    TypeDeclaration {
        id,
        long_id: ConcreteTypeLongId { generic_id: generic_id.to_string(), generic_args },
    }
}

fn function(param_types: Vec<u64>) -> Function {
    Function { id: 0, signature: FunctionSignature { param_types, ret_types: Vec::new() } }
}

fn table(declarations: &[TypeDeclaration]) -> HashMap<u64, &TypeDeclaration> {
    declarations.iter().map(|d| (d.id, d)).collect()
}

#[test]
fn builtins_are_dropped_and_order_is_kept() {
    let declarations = vec![
        declaration(0, "Pedersen", Vec::new()),
        declaration(1, "felt252", Vec::new()),
        declaration(2, "RangeCheck", Vec::new()),
        declaration(3, "Array", vec![GenericArg::Type(1)]),
    ];
    let map = table(&declarations);
    let args = function_args(&function(vec![0, 1, 2, 3]), &map);
    assert_eq!(args, vec![&declarations[1].long_id, &declarations[3].long_id]);
    assert_eq!(args[0].generic_id, "felt252");
    assert_eq!(args[1].generic_id, "Array");
    assert_eq!(args[1].generic_args, vec![GenericArg::Type(1)]);
}

#[test]
fn undeclared_parameter_is_left_out() {
    let declarations = vec![declaration(1, "felt252", Vec::new()), declaration(4, "u8", Vec::new())];
    let map = table(&declarations);
    let args = function_args(&function(vec![1, 77, 4, 78]), &map);
    assert_eq!(args, vec![&declarations[0].long_id, &declarations[1].long_id]);
}

#[test]
fn repeated_parameter_is_kept_each_time() {
    let declarations = vec![declaration(1, "felt252", Vec::new()), declaration(2, "u8", Vec::new())];
    let map = table(&declarations);
    let args = function_args(&function(vec![2, 1, 2]), &map);
    assert_eq!(
        args,
        vec![&declarations[1].long_id, &declarations[0].long_id, &declarations[1].long_id]
    );
}

#[test]
fn empty_signature_has_no_arguments() {
    let declarations = vec![declaration(1, "felt252", Vec::new())];
    let map = table(&declarations);
    assert!(function_args(&function(Vec::new()), &map).is_empty());
    assert!(function_args(&function(vec![1]), &HashMap::new()).is_empty());
}

#[test]
fn every_builtin_is_dropped() {
    let names = [
        "Pedersen",
        "RangeCheck",
        "Bitwise",
        "EcOp",
        "Poseidon",
        "SegmentArena",
        "GasBuiltin",
        "System",
        "RangeCheck96",
        "AddMod",
        "MulMod",
    ];
    let declarations: Vec<TypeDeclaration> = names
        .iter()
        .enumerate()
        .map(|(i, name)| declaration(i as u64, name, Vec::new()))
        .collect();
    let map = table(&declarations);
    let ids: Vec<u64> = (0..names.len() as u64).collect();
    assert!(function_args(&function(ids), &map).is_empty());
    for name in names {
        assert!(is_builtin(name));
    }
}

#[test]
fn near_builtin_names_are_kept() {
    for name in ["pedersen", "RangeCheck9", "RangeCheck960", "", "Felt", "System "] {
        assert!(!is_builtin(name));
    }
    let declarations = vec![declaration(5, "rangecheck", Vec::new())];
    let map = table(&declarations);
    assert_eq!(function_args(&function(vec![5]), &map), vec![&declarations[0].long_id]);
}

#[test]
fn filtering_twice_changes_nothing() {
    let declarations = vec![
        declaration(0, "Pedersen", Vec::new()),
        declaration(1, "felt252", Vec::new()),
        declaration(2, "RangeCheck", Vec::new()),
        declaration(
            3,
            "BoundedInt",
            vec![
                GenericArg::Value("-5".to_string()),
                GenericArg::Value("4294967296".to_string()),
            ],
        ),
    ];
    let map = table(&declarations);
    let once = function_args(&function(vec![0, 1, 9, 2, 3]), &map);
    let kept_ids: Vec<u64> = vec![1, 3];
    let twice = function_args(&function(kept_ids), &map);
    assert_eq!(once, twice);
}
