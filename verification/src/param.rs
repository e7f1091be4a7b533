use vstd::prelude::*;
use crate::errors::DeclarationError;
use crate::kind::{DeclaredKind, OptionKind, resolve, spec_resolve};
use crate::text::{is_valid_description, is_valid_option_name, trim_of, trimmed_len, valid_description, valid_option_name};

verus! {

/// How many leading declarations of a handler are reserved as implicit
/// dispatch context (the invocation context and the raw payload). They are
/// excluded from the wire schema and from positional binding; this split
/// point is a fixed structural convention.
pub const CONTEXT_PARAMS: usize = 2;

/// The shape of a declared parameter type: the inner semantic type,
/// possibly wrapped in a reference, an optional marker, or both.
#[derive(Clone, Copy, PartialEq, Eq, Structural, Debug)]
pub enum RawType {
    /// A plain type: required, bound by value.
    Plain(DeclaredKind),
    /// A reference to a type: required, bound by reference.
    Reference(DeclaredKind),
    /// An optional of a type: optional, bound by value.
    Optional(DeclaredKind),
    /// An optional of a reference: optional, bound by reference.
    OptionalReference(DeclaredKind),
}

/// The semantic type inside all wrappers.
pub open spec fn raw_inner(t: RawType) -> DeclaredKind {
    match t {
        RawType::Plain(k) => k,
        RawType::Reference(k) => k,
        RawType::Optional(k) => k,
        RawType::OptionalReference(k) => k,
    }
}

/// A declaration is required exactly when no optional wrapper is present.
pub open spec fn raw_required(t: RawType) -> bool {
    t is Plain || t is Reference
}

/// A declaration is bound by reference when a reference wrapper is present.
pub open spec fn raw_by_reference(t: RawType) -> bool {
    t is Reference || t is OptionalReference
}

/// Strips the wrappers off a declared type: the inner semantic type,
/// whether the parameter is required, and whether it is bound by reference.
pub fn unwrap_raw(t: RawType) -> (r: (DeclaredKind, bool, bool))
    ensures
        r.0 == raw_inner(t),
        r.1 == raw_required(t),
        r.2 == raw_by_reference(t),
{
    match t {
        RawType::Plain(k) => (k, true, false),
        RawType::Reference(k) => (k, true, true),
        RawType::Optional(k) => (k, false, false),
        RawType::OptionalReference(k) => (k, false, true),
    }
}

/// One raw parameter declaration, as the declaring code hands it over: a
/// name when one could be determined, the declared type shape, and the
/// description to publish for the option.
#[derive(Debug)]
pub struct RawParam {
    pub name: Option<String>,
    pub ty: RawType,
    pub description: String,
}

/// A validated parameter of a command. The wire kind was resolved once, at
/// declaration time, and is cached here; schema publication and argument
/// binding both read this same field, so the published kind and the kind
/// the payload is checked against can never differ.
#[derive(Debug)]
pub struct Parameter {
    pub name: String,
    pub description: String,
    pub kind: OptionKind,
    pub required: bool,
    pub by_reference: bool,
}

impl Parameter {
    /// A well-formed parameter carries a valid option name and description.
    pub open spec fn wf(self) -> bool {
        valid_option_name(self.name@) && valid_description(self.description@)
    }
}

/// Everything that must hold of one raw declaration for it to pass: a
/// determinable name, a supported inner type, and valid lengths.
pub open spec fn decl_ok(d: RawParam) -> bool {
    &&& d.name is Some
    &&& spec_resolve(raw_inner(d.ty)) is Some
    &&& valid_option_name(d.name->0@)
    &&& valid_description(d.description@)
}

/// The parameter a passing declaration produces.
pub open spec fn decl_param(d: RawParam) -> Parameter
    recommends
        decl_ok(d),
{
    Parameter {
        name: d.name->0,
        description: d.description,
        kind: spec_resolve(raw_inner(d.ty))->0,
        required: raw_required(d.ty),
        by_reference: raw_by_reference(d.ty),
    }
}

/// The error a failing declaration raises, checked in this order: name
/// presence, type support, name length, description length. `idx` is the
/// option's position after the context declarations.
pub open spec fn decl_error(d: RawParam, idx: usize) -> DeclarationError
    recommends
        !decl_ok(d),
{
    if d.name is None {
        DeclarationError::UnnamedParameter { index: idx }
    } else if spec_resolve(raw_inner(d.ty)) is None {
        DeclarationError::UnsupportedParameterType { index: idx }
    } else if !valid_option_name(d.name->0@) {
        DeclarationError::BadOptionName { index: idx, length: trim_of(d.name->0@).len() as usize }
    } else {
        DeclarationError::BadOptionDescription { index: idx, length: trim_of(d.description@).len() as usize }
    }
}

/// Every declaration after the two context slots passes.
pub open spec fn decls_ok(decls: Seq<RawParam>) -> bool {
    forall|i: int| CONTEXT_PARAMS <= i < decls.len() ==> decl_ok(#[trigger] decls[i])
}

/// The ordered parameters a passing declaration list produces: the context
/// slots are dropped, the rest map over in order.
pub open spec fn spec_params(decls: Seq<RawParam>) -> Seq<Parameter> {
    decls.skip(CONTEXT_PARAMS as int).map_values(|d: RawParam| decl_param(d))
}

/// The error of the first failing declaration at or after position `i`.
pub open spec fn first_decl_error(decls: Seq<RawParam>, i: int) -> DeclarationError
    decreases decls.len() - i,
{
    if i < decls.len() {
        if decl_ok(decls[i]) {
            first_decl_error(decls, i + 1)
        } else {
            decl_error(decls[i], (i - CONTEXT_PARAMS) as usize)
        }
    } else {
        arbitrary()
    }
}

proof fn lemma_first_decl_error_skip(decls: Seq<RawParam>, lo: int, i: int)
    requires
        0 <= lo <= i < decls.len(),
        forall|j: int| lo <= j < i ==> decl_ok(#[trigger] decls[j]),
        !decl_ok(decls[i]),
    ensures
        first_decl_error(decls, lo) == decl_error(decls[i], (i - CONTEXT_PARAMS) as usize),
    decreases i - lo,
{
    if lo < i {
        lemma_first_decl_error_skip(decls, lo + 1, i);
    }
}

/// Parses an ordered list of raw parameter declarations into the ordered
/// parameter sequence of a command. The two leading declarations are the
/// implicit dispatch context and are skipped; each remaining declaration
/// must carry a name, unwrap to a supported type, and have a valid name
/// and description. The first offending declaration decides the error.
pub fn parse_params(decls: &Vec<RawParam>) -> (r: Result<Vec<Parameter>, DeclarationError>)
    requires
        decls@.len() >= CONTEXT_PARAMS,
    ensures
        r is Ok <==> decls_ok(decls@),
        r matches Ok(params) ==> params@ == spec_params(decls@),
        r matches Err(e) ==> e == first_decl_error(decls@, CONTEXT_PARAMS as int),
{
    let mut params: Vec<Parameter> = Vec::new();
    let mut i: usize = CONTEXT_PARAMS;
    while i < decls.len()
        invariant
            CONTEXT_PARAMS <= i <= decls@.len(),
            forall|j: int| CONTEXT_PARAMS <= j < i ==> decl_ok(#[trigger] decls@[j]),
            params@.len() == i - CONTEXT_PARAMS,
            forall|j: int| 0 <= j < params@.len()
                ==> params@[j] == decl_param(decls@[j + CONTEXT_PARAMS]),
        decreases decls@.len() - i,
    {
        let d = &decls[i];
        let idx: usize = i - CONTEXT_PARAMS;
        let name: String = match &d.name {
            Some(n) => n.clone(),
            None => {
                proof {
                    lemma_first_decl_error_skip(decls@, CONTEXT_PARAMS as int, i as int);
                }
                return Err(DeclarationError::UnnamedParameter { index: idx });
            },
        };
        let (inner, required, by_reference) = unwrap_raw(d.ty);
        let kind: OptionKind = match resolve(inner) {
            Some(k) => k,
            None => {
                proof {
                    lemma_first_decl_error_skip(decls@, CONTEXT_PARAMS as int, i as int);
                }
                return Err(DeclarationError::UnsupportedParameterType { index: idx });
            },
        };
        if !is_valid_option_name(name.as_str()) {
            let length: usize = trimmed_len(name.as_str());
            proof {
                lemma_first_decl_error_skip(decls@, CONTEXT_PARAMS as int, i as int);
            }
            return Err(DeclarationError::BadOptionName { index: idx, length });
        }
        if !is_valid_description(d.description.as_str()) {
            let length: usize = trimmed_len(d.description.as_str());
            proof {
                lemma_first_decl_error_skip(decls@, CONTEXT_PARAMS as int, i as int);
            }
            return Err(DeclarationError::BadOptionDescription { index: idx, length });
        }
        let p = Parameter {
            name,
            description: d.description.clone(),
            kind,
            required,
            by_reference,
        };
        params.push(p);
        i = i + 1;
    }
    proof {
        assert(params@ =~= spec_params(decls@));
    }
    Ok(params)
}

} // verus!
