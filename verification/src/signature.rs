//! The user-meaningful parameters of an entry point: its signature without
//! the builtins that the virtual machine passes along.

use std::collections::HashMap;
use vstd::prelude::*;

verus! {

broadcast use vstd::std_specs::hash::group_hash_axioms;

/// An argument of a generic type. Numbers of any size are held in decimal.
#[derive(Debug, Clone, PartialEq, Eq)]
pub enum GenericArg {
    UserType(String),
    Type(u64),
    Value(String),
    UserFunc(u64),
    Libfunc(u64),
}

/// A concrete type: the generic type it instantiates and the arguments.
#[derive(Debug, Clone, PartialEq, Eq)]
pub struct ConcreteTypeLongId {
    pub generic_id: String,
    pub generic_args: Vec<GenericArg>,
}

/// The declaration of a concrete type under its identifier.
#[derive(Debug, Clone, PartialEq, Eq)]
pub struct TypeDeclaration {
    pub id: u64,
    pub long_id: ConcreteTypeLongId,
}

/// The parameter and return types of a function, by identifier.
#[derive(Debug, Clone, PartialEq, Eq)]
pub struct FunctionSignature {
    pub param_types: Vec<u64>,
    pub ret_types: Vec<u64>,
}

/// An entry point.
#[derive(Debug, Clone, PartialEq, Eq)]
pub struct Function {
    pub id: u64,
    pub signature: FunctionSignature,
}

/// The generic types that are builtins of the virtual machine.
pub open spec fn is_builtin_name(name: Seq<char>) -> bool {
    ||| name == "Pedersen"@
    ||| name == "RangeCheck"@
    ||| name == "Bitwise"@
    ||| name == "EcOp"@
    ||| name == "Poseidon"@
    ||| name == "SegmentArena"@
    ||| name == "GasBuiltin"@
    ||| name == "System"@
    ||| name == "RangeCheck96"@
    ||| name == "AddMod"@
    ||| name == "MulMod"@
}

/// A parameter type is kept when it is declared and no builtin.
pub open spec fn is_user_param(id: u64, declarations: Map<u64, &TypeDeclaration>) -> bool {
    declarations.contains_key(id) && !is_builtin_name(declarations[id].long_id.generic_id@)
}

/// The parameter types that are kept, in the order of the signature.
pub open spec fn user_params(ids: Seq<u64>, declarations: Map<u64, &TypeDeclaration>) -> Seq<u64>
    decreases ids.len(),
{
    if ids.len() == 0 {
        Seq::empty()
    } else {
        let kept = user_params(ids.drop_last(), declarations);
        if is_user_param(ids.last(), declarations) {
            kept.push(ids.last())
        } else {
            kept
        }
    }
}

/// Every parameter type that is kept is declared and no builtin.
pub proof fn lemma_kept_are_user_params(ids: Seq<u64>, declarations: Map<u64, &TypeDeclaration>)
    ensures
        user_params(ids, declarations).len() <= ids.len(),
        forall|i: int|
            0 <= i < user_params(ids, declarations).len() ==> is_user_param(
                #[trigger] user_params(ids, declarations)[i],
                declarations,
            ),
    decreases ids.len(),
{
    if ids.len() > 0 {
        lemma_kept_are_user_params(ids.drop_last(), declarations);
    }
}

/// A signature of user parameters alone is kept as it is.
pub proof fn lemma_user_params_unchanged(ids: Seq<u64>, declarations: Map<u64, &TypeDeclaration>)
    requires
        forall|i: int| 0 <= i < ids.len() ==> is_user_param(#[trigger] ids[i], declarations),
    ensures
        user_params(ids, declarations) == ids,
    decreases ids.len(),
{
    if ids.len() > 0 {
        let front = ids.drop_last();
        assert forall|i: int| 0 <= i < front.len() implies is_user_param(
            #[trigger] front[i],
            declarations,
        ) by {
            assert(front[i] == ids[i]);
        }
        lemma_user_params_unchanged(front, declarations);
        assert(is_user_param(ids[ids.len() - 1], declarations));
        assert(front.push(ids.last()) =~= ids);
    } else {
        assert(ids =~= Seq::empty());
    }
}

/// Filtering is idempotent: what was kept once is kept again, all of it.
pub proof fn lemma_user_params_idempotent(ids: Seq<u64>, declarations: Map<u64, &TypeDeclaration>)
    ensures
        user_params(user_params(ids, declarations), declarations) == user_params(
            ids,
            declarations,
        ),
{
    lemma_kept_are_user_params(ids, declarations);
    lemma_user_params_unchanged(user_params(ids, declarations), declarations);
}

/// Filtering preserves order: the kept parameters of a signature are those
/// of its front part followed by those of its back part.
pub proof fn lemma_user_params_in_order(
    front: Seq<u64>,
    back: Seq<u64>,
    declarations: Map<u64, &TypeDeclaration>,
)
    ensures
        user_params(front + back, declarations) == user_params(front, declarations) + user_params(
            back,
            declarations,
        ),
    decreases back.len(),
{
    if back.len() == 0 {
        assert(front + back =~= front);
        assert(user_params(front, declarations) + user_params(back, declarations)
            =~= user_params(front, declarations));
    } else {
        lemma_user_params_in_order(front, back.drop_last(), declarations);
        assert((front + back).drop_last() =~= front + back.drop_last());
        assert((front + back).last() == back.last());
        let kept_front = user_params(front, declarations);
        let kept_back = user_params(back.drop_last(), declarations);
        assert((kept_front + kept_back).push(back.last()) =~= kept_front + kept_back.push(
            back.last(),
        ));
    }
}

fn same_text(text: &str, other: &str) -> (same: bool)
    ensures
        same == (text@ == other@),
{
    let left = text.to_owned();
    let right = other.to_owned();
    left == right
}

/// Whether `name` is the name of a builtin.
pub fn is_builtin(name: &str) -> (builtin: bool)
    ensures
        builtin == is_builtin_name(name@),
{
    same_text(name, "Pedersen") || same_text(name, "RangeCheck") || same_text(name, "Bitwise")
        || same_text(name, "EcOp") || same_text(name, "Poseidon") || same_text(
        name,
        "SegmentArena",
    ) || same_text(name, "GasBuiltin") || same_text(name, "System") || same_text(
        name,
        "RangeCheck96",
    ) || same_text(name, "AddMod") || same_text(name, "MulMod")
}

/// The types of the parameters of `function` that a user passes: each
/// parameter type that `type_declarations` declares and that is no builtin,
/// in the order of the signature. A parameter type without a declaration is
/// left out.
pub fn function_args<'a>(
    function: &Function,
    type_declarations: &HashMap<u64, &'a TypeDeclaration>,
) -> (args: Vec<&'a ConcreteTypeLongId>)
    ensures
        args@.len() == user_params(function.signature.param_types@, type_declarations@).len(),
        forall|i: int|
            0 <= i < args@.len() ==> *(#[trigger] args@[i]) == type_declarations@[user_params(
                function.signature.param_types@,
                type_declarations@,
            )[i]].long_id,
{
    let ids = &function.signature.param_types;
    let mut args: Vec<&'a ConcreteTypeLongId> = Vec::new();
    let mut i: usize = 0;
    while i < ids.len()
        invariant
            i <= ids.len(),
            ids == &function.signature.param_types,
            args@.len() == user_params(ids@.take(i as int), type_declarations@).len(),
            forall|k: int|
                0 <= k < args@.len() ==> *(#[trigger] args@[k]) == type_declarations@[user_params(
                    ids@.take(i as int),
                    type_declarations@,
                )[k]].long_id,
        decreases ids.len() - i,
    {
        proof {
            assert(ids@.take(i + 1).drop_last() =~= ids@.take(i as int));
        }
        match type_declarations.get(&ids[i]) {
            Some(declaration) => {
                if !is_builtin(declaration.long_id.generic_id.as_str()) {
                    args.push(&declaration.long_id);
                }
            },
            None => {},
        }
        i = i + 1;
    }
    proof {
        assert(ids@.take(i as int) =~= ids@);
    }
    args
}

} // verus!
