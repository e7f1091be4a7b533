use vstd::prelude::*;
use crate::errors::DeclarationError;
use crate::kind::OptionKind;
use crate::param::{CONTEXT_PARAMS, Parameter, RawParam, decl_ok, decl_param, decls_ok, first_decl_error, parse_params, spec_params};
use crate::text::{is_valid_command_name, is_valid_description, is_valid_option_name, trim_of, trimmed_len, valid_command_name, valid_description, valid_option_name};

verus! {

/// An opaque reference to the invocable bound to a command. The embedding
/// application keeps the actual asynchronous callables and maps each
/// reference to one of them; the registry only stores the reference and
/// hands it back at dispatch time.
#[derive(Clone, Copy, PartialEq, Eq, Structural, Debug)]
pub struct HandlerRef {
    pub id: u64,
}

/// A command descriptor: the immutable in-process representation of a
/// declared command. Its ordered `options` sequence is published verbatim
/// as the wire schema and is the same sequence the binder walks at
/// invocation time.
#[derive(Debug)]
pub struct Command {
    pub name: String,
    pub description: String,
    pub options: Vec<Parameter>,
    pub handler: HandlerRef,
}

/// The error raised for an invalid option name or description, checked in
/// that order. `index` is the option's position in the command.
pub open spec fn option_inputs_error(name: Seq<char>, description: Seq<char>, index: usize) -> DeclarationError
    recommends
        !(valid_option_name(name) && valid_description(description)),
{
    if !valid_option_name(name) {
        DeclarationError::BadOptionName { index, length: trim_of(name).len() as usize }
    } else {
        DeclarationError::BadOptionDescription { index, length: trim_of(description).len() as usize }
    }
}

/// The error raised for an invalid command name or description, checked in
/// that order.
pub open spec fn command_inputs_error(name: Seq<char>, description: Seq<char>) -> DeclarationError
    recommends
        !(valid_command_name(name) && valid_description(description)),
{
    if !valid_command_name(name) {
        DeclarationError::EmptyCommandName
    } else {
        DeclarationError::BadDescriptionLength { length: trim_of(description).len() as usize }
    }
}

/// Validates one option's inputs: the name must trim to 1..=32 characters
/// and the description to 1..=100. `index` is the option's position,
/// carried into the error for reporting.
pub fn check_option_inputs(name: &str, description: &str, index: usize) -> (r: Result<(), DeclarationError>)
    ensures
        r is Ok <==> valid_option_name(name@) && valid_description(description@),
        r matches Err(e) ==> e == option_inputs_error(name@, description@, index),
{
    if !is_valid_option_name(name) {
        let length: usize = trimmed_len(name);
        return Err(DeclarationError::BadOptionName { index, length });
    }
    if !is_valid_description(description) {
        let length: usize = trimmed_len(description);
        return Err(DeclarationError::BadOptionDescription { index, length });
    }
    Ok(())
}

impl Command {
    /// A well-formed descriptor: valid command name and description, and
    /// every option well formed.
    pub open spec fn wf(self) -> bool {
        &&& valid_command_name(self.name@)
        &&& valid_description(self.description@)
        &&& forall|i: int| 0 <= i < self.options@.len() ==> (#[trigger] self.options@[i]).wf()
    }

    /// Starts a descriptor with no options yet. The command name must be
    /// non-empty and the description must trim to 1..=100 characters;
    /// otherwise the declaration fails and nothing is built.
    pub fn new(name: String, description: String, handler: HandlerRef) -> (r: Result<Command, DeclarationError>)
        ensures
            r is Ok <==> valid_command_name(name@) && valid_description(description@),
            r matches Ok(c) ==> {
                &&& c.name == name
                &&& c.description == description
                &&& c.options@.len() == 0
                &&& c.handler == handler
                &&& c.wf()
            },
            r matches Err(e) ==> e == command_inputs_error(name@, description@),
    {
        if !is_valid_command_name(name.as_str()) {
            return Err(DeclarationError::EmptyCommandName);
        }
        if !is_valid_description(description.as_str()) {
            let length: usize = trimmed_len(description.as_str());
            return Err(DeclarationError::BadDescriptionLength { length });
        }
        Ok(Command { name, description, options: Vec::new(), handler })
    }

    /// Appends one option to the schema, in declaration order, after
    /// validating its name and description. Options added this way are
    /// bound by value; the declaration parser is the one place a
    /// by-reference option can come from.
    pub fn add_option(self, name: String, description: String, kind: OptionKind, required: bool) -> (r: Result<Command, DeclarationError>)
        ensures
            r is Ok <==> valid_option_name(name@) && valid_description(description@),
            r matches Ok(c) ==> {
                &&& c.name == self.name
                &&& c.description == self.description
                &&& c.handler == self.handler
                &&& c.options@ == self.options@.push(
                    (Parameter { name, description, kind, required, by_reference: false }),
                )
                &&& self.wf() ==> c.wf()
            },
            r matches Err(e) ==> e == option_inputs_error(name@, description@, self.options@.len() as usize),
    {
        let index: usize = self.options.len();
        check_option_inputs(name.as_str(), description.as_str(), index)?;
        let mut c = self;
        c.options.push(Parameter { name, description, kind, required, by_reference: false });
        Ok(c)
    }
}

/// The error a failing declaration raises: the command name and description
/// are checked first, then the parameter declarations in order.
pub open spec fn declare_error(name: Seq<char>, description: Seq<char>, decls: Seq<RawParam>) -> DeclarationError
    recommends
        !(valid_command_name(name) && valid_description(description) && decls_ok(decls)),
{
    if !(valid_command_name(name) && valid_description(description)) {
        command_inputs_error(name, description)
    } else {
        first_decl_error(decls, CONTEXT_PARAMS as int)
    }
}

/// Declares a command in one step, mirroring the declaration-time pipeline:
/// the command name and description are validated, the two leading context
/// declarations are skipped, each remaining declaration is named, resolved
/// to a wire kind and validated, and the descriptor is assembled with its
/// options in declaration order. On any error nothing is built, so a
/// failing declaration can never be published or registered.
pub fn declare_command(name: String, description: String, decls: &Vec<RawParam>, handler: HandlerRef) -> (r: Result<Command, DeclarationError>)
    requires
        decls@.len() >= CONTEXT_PARAMS,
    ensures
        r is Ok <==> valid_command_name(name@) && valid_description(description@) && decls_ok(decls@),
        r matches Ok(c) ==> {
            &&& c.name == name
            &&& c.description == description
            &&& c.options@ == spec_params(decls@)
            &&& c.handler == handler
            &&& c.wf()
        },
        r matches Err(e) ==> e == declare_error(name@, description@, decls@),
{
    let base = Command::new(name, description, handler)?;
    let options = parse_params(decls)?;
    let c = Command {
        name: base.name,
        description: base.description,
        options,
        handler: base.handler,
    };
    proof {
        assert forall|i: int| 0 <= i < c.options@.len() implies (#[trigger] c.options@[i]).wf() by {
            assert(c.options@[i] == decl_param(decls@[i + CONTEXT_PARAMS]));
            assert(decl_ok(decls@[i + CONTEXT_PARAMS]));
        }
    }
    Ok(c)
}

} // verus!
