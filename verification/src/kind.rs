use vstd::prelude::*;

verus! {

/// The semantic type a handler parameter is declared with, after any
/// optional or reference wrapper has been stripped. `Unsupported` stands
/// for every declared type outside the supported set; the resolver rejects
/// it at declaration time.
#[derive(Clone, Copy, PartialEq, Eq, Structural, Debug)]
pub enum DeclaredKind {
    Text,
    Integer,
    Boolean,
    Decimal,
    EntityReference,
    ChannelReference,
    Unsupported,
}

/// The fixed enumeration of option kinds the remote platform's schema
/// format understands. `Str` is the platform's string kind.
#[derive(Clone, Copy, PartialEq, Eq, Structural, Debug)]
pub enum OptionKind {
    Str,
    Integer,
    Boolean,
    Number,
    User,
    Channel,
}

/// The supported mapping from semantic types to wire option kinds;
/// `None` for a type outside the supported set.
pub open spec fn spec_resolve(t: DeclaredKind) -> Option<OptionKind> {
    match t {
        DeclaredKind::Text => Some(OptionKind::Str),
        DeclaredKind::Integer => Some(OptionKind::Integer),
        DeclaredKind::Boolean => Some(OptionKind::Boolean),
        DeclaredKind::Decimal => Some(OptionKind::Number),
        DeclaredKind::EntityReference => Some(OptionKind::User),
        DeclaredKind::ChannelReference => Some(OptionKind::Channel),
        DeclaredKind::Unsupported => None,
    }
}

/// Maps a declared semantic type to the wire option kind published in the
/// schema and checked at binding time; rejects unsupported types. The
/// resolution happens once, at declaration time, and is cached on the
/// parameter, so publication and binding always use the same kind.
pub fn resolve(t: DeclaredKind) -> (r: Option<OptionKind>)
    ensures
        r == spec_resolve(t),
{
    match t {
        DeclaredKind::Text => Some(OptionKind::Str),
        DeclaredKind::Integer => Some(OptionKind::Integer),
        DeclaredKind::Boolean => Some(OptionKind::Boolean),
        DeclaredKind::Decimal => Some(OptionKind::Number),
        DeclaredKind::EntityReference => Some(OptionKind::User),
        DeclaredKind::ChannelReference => Some(OptionKind::Channel),
        DeclaredKind::Unsupported => None,
    }
}

/// One resolved option value as the remote platform delivers it, tagged
/// with its wire kind. Decimal payloads travel as their raw 64-bit
/// encoding and entity and channel references as their numeric ids; the
/// embedding application converts at the edge.
#[derive(PartialEq, Eq, Debug)]
pub enum OptionValue {
    Str(String),
    Integer(i64),
    Boolean(bool),
    Number(u64),
    User(u64),
    Channel(u64),
}

/// The wire kind an option value carries.
pub open spec fn spec_kind_of(v: OptionValue) -> OptionKind {
    match v {
        OptionValue::Str(_) => OptionKind::Str,
        OptionValue::Integer(_) => OptionKind::Integer,
        OptionValue::Boolean(_) => OptionKind::Boolean,
        OptionValue::Number(_) => OptionKind::Number,
        OptionValue::User(_) => OptionKind::User,
        OptionValue::Channel(_) => OptionKind::Channel,
    }
}

/// Reads the wire kind off an option value.
pub fn kind_of(v: &OptionValue) -> (k: OptionKind)
    ensures
        k == spec_kind_of(*v),
{
    match v {
        OptionValue::Str(_) => OptionKind::Str,
        OptionValue::Integer(_) => OptionKind::Integer,
        OptionValue::Boolean(_) => OptionKind::Boolean,
        OptionValue::Number(_) => OptionKind::Number,
        OptionValue::User(_) => OptionKind::User,
        OptionValue::Channel(_) => OptionKind::Channel,
    }
}

} // verus!
