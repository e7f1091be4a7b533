use vstd::prelude::*;
use crate::bind::{bind, bind_ok, first_bind_error, spec_bound_args};
use crate::command::{Command, HandlerRef};
use crate::errors::BindError;
use crate::kind::OptionValue;

verus! {

/// Whether some entry of the table carries this name.
pub open spec fn contains_name(table: Seq<Command>, name: Seq<char>) -> bool {
    exists|i: int| 0 <= i < table.len() && (#[trigger] table[i]).name@ == name
}

/// The registration transition on the table: a no-op when the name is
/// already present, an append otherwise. Idempotency lives here — a
/// registration race on one name resolves to whichever entry got in first,
/// never to an overwrite.
pub open spec fn spec_add(table: Seq<Command>, cmd: Command) -> Seq<Command> {
    if contains_name(table, cmd.name@) {
        table
    } else {
        table.push(cmd)
    }
}

/// The position of the first entry at or after `i` carrying `name`, or the
/// table's length when there is none. In a well-formed table names are
/// unique, so the first match is the only one.
pub open spec fn first_index_of(table: Seq<Command>, name: Seq<char>, i: int) -> int
    decreases table.len() - i,
{
    if i < table.len() {
        if table[i].name@ == name {
            i
        } else {
            first_index_of(table, name, i + 1)
        }
    } else {
        table.len() as int
    }
}

proof fn lemma_first_index_of_skip(table: Seq<Command>, name: Seq<char>, lo: int, i: int)
    requires
        0 <= lo <= i < table.len(),
        forall|j: int| lo <= j < i ==> (#[trigger] table[j]).name@ != name,
        table[i].name@ == name,
    ensures
        first_index_of(table, name, lo) == i,
    decreases i - lo,
{
    if lo < i {
        lemma_first_index_of_skip(table, name, lo + 1, i);
    }
}

/// The entry carrying `name`; meaningful when the table contains the name.
pub open spec fn spec_lookup(table: Seq<Command>, name: Seq<char>) -> Command {
    table[first_index_of(table, name, 0)]
}

/// An invocation payload as the remote platform delivers it: the invoked
/// command's name and the ordered option values, positionally aligned to
/// the published schema. A slot is `None` when the option arrived without
/// a usable value. The payload is consumed once per dispatch.
#[derive(Debug)]
pub struct Payload {
    pub command_name: String,
    pub options: Vec<Option<OptionValue>>,
}

/// What the dispatcher decides for one invocation. The registry performs
/// no I/O itself: the embedding application runs the referenced handler
/// when told to, and only then.
#[derive(PartialEq, Eq, Debug)]
pub enum DispatchOutcome {
    /// The name is not registered. The baseline treats this as a no-op;
    /// a stricter embedding may surface it instead.
    UnknownCommand,
    /// A required parameter failed to bind; the handler must not run.
    Rejected(BindError),
    /// The payload bound: invoke the referenced handler with these
    /// arguments, one slot per declared parameter, in declaration order.
    Invoke(HandlerRef, Vec<Option<OptionValue>>),
}

/// The process-wide command registry: a table from command name to
/// descriptor, with unique names. Entries are only ever added, never
/// replaced or removed.
#[derive(Debug)]
pub struct Framework {
    pub commands: Vec<Command>,
}

impl Framework {
    /// A well-formed registry: every descriptor well formed and every name
    /// unique — registration maintains both.
    pub open spec fn wf(self) -> bool {
        &&& forall|i: int| 0 <= i < self.commands@.len() ==> (#[trigger] self.commands@[i]).wf()
        &&& forall|i: int, j: int|
            0 <= i < j < self.commands@.len()
                ==> self.commands@[i].name@ != self.commands@[j].name@
    }

    pub open spec fn spec_contains(self, name: Seq<char>) -> bool {
        contains_name(self.commands@, name)
    }

    /// An empty registry, as a process starts with.
    pub fn new() -> (fw: Framework)
        ensures
            fw.commands@.len() == 0,
            fw.wf(),
    {
        Framework { commands: Vec::new() }
    }

    /// Whether a command of this name is registered. The embedding
    /// application publishes a schema to the remote catalog only when this
    /// is false, so an already-registered name is never re-published.
    pub fn contains_command(&self, name: &String) -> (r: bool)
        ensures
            r == self.spec_contains(name@),
    {
        let mut i: usize = 0;
        while i < self.commands.len()
            invariant
                0 <= i <= self.commands@.len(),
                forall|j: int| 0 <= j < i ==> (#[trigger] self.commands@[j]).name@ != name@,
            decreases self.commands@.len() - i,
        {
            if self.commands[i].name == *name {
                return true;
            }
            i = i + 1;
        }
        false
    }

    /// Looks the descriptor of `name` up: the first entry of that name —
    /// in a well-formed registry, the only one.
    pub fn get_command(&self, name: &String) -> (r: Option<&Command>)
        ensures
            r is Some <==> self.spec_contains(name@),
            r matches Some(c) ==> {
                &&& c.name@ == name@
                &&& *c == spec_lookup(self.commands@, name@)
            },
    {
        let mut i: usize = 0;
        while i < self.commands.len()
            invariant
                0 <= i <= self.commands@.len(),
                forall|j: int| 0 <= j < i ==> (#[trigger] self.commands@[j]).name@ != name@,
            decreases self.commands@.len() - i,
        {
            if self.commands[i].name == *name {
                proof {
                    assert(contains_name(self.commands@, name@));
                    lemma_first_index_of_skip(self.commands@, name@, 0, i as int);
                }
                return Some(&self.commands[i]);
            }
            i = i + 1;
        }
        None
    }

    /// Registers a descriptor: a no-op when a command of the same name is
    /// already present, an insertion otherwise; an existing entry is never
    /// overwritten. Returns whether the descriptor was inserted. The
    /// embedding application publishes the schema to the remote catalog
    /// first and calls this only on successful acknowledgement, so the
    /// table never holds a descriptor that was not published.
    pub fn add_command(&mut self, cmd: Command) -> (added: bool)
        ensures
            added == !old(self).spec_contains(cmd.name@),
            final(self).commands@ == spec_add(old(self).commands@, cmd),
            final(self).spec_contains(cmd.name@),
            !added ==> *final(self) == *old(self),
            old(self).wf() && cmd.wf() ==> final(self).wf(),
    {
        if self.contains_command(&cmd.name) {
            return false;
        }
        let ghost old_table = self.commands@;
        self.commands.push(cmd);
        proof {
            assert(self.commands@[old_table.len() as int] == cmd);
            if old(self).wf() && cmd.wf() {
                assert forall|i: int, j: int| 0 <= i < j < self.commands@.len()
                    implies self.commands@[i].name@ != self.commands@[j].name@ by {
                    if j == old_table.len() {
                        assert(self.commands@[i] == old_table[i]);
                        assert(!contains_name(old_table, cmd.name@));
                        assert(old_table[i].name@ != cmd.name@);
                    }
                }
            }
        }
        true
    }

    /// Receives one invocation: looks the command up by name, binds the
    /// payload positionally and decides the outcome. An unregistered name
    /// is reported as `UnknownCommand` (a registry/remote desync; the
    /// baseline treats it as a no-op). A binder failure is surfaced and
    /// the handler is not invoked; on success the bound arguments and the
    /// handler reference are handed back for the application to run. No
    /// outcome affects the registry or later invocations.
    pub fn dispatch(&self, payload: Payload) -> (r: DispatchOutcome)
        ensures
            r is UnknownCommand <==> !self.spec_contains(payload.command_name@),
            self.spec_contains(payload.command_name@) ==> ({
                let cmd = spec_lookup(self.commands@, payload.command_name@);
                &&& (r is Invoke <==> bind_ok(cmd.options@, payload.options@))
                &&& (r matches DispatchOutcome::Invoke(h, args) ==> {
                    &&& h == cmd.handler
                    &&& args@ == spec_bound_args(cmd.options@, payload.options@)
                })
                &&& (r matches DispatchOutcome::Rejected(e)
                    ==> e == first_bind_error(cmd.options@, payload.options@, 0))
            }),
    {
        let Payload { command_name, options } = payload;
        match self.get_command(&command_name) {
            None => DispatchOutcome::UnknownCommand,
            Some(cmd) => match bind(&cmd.options, options) {
                Ok(args) => DispatchOutcome::Invoke(cmd.handler, args),
                Err(e) => DispatchOutcome::Rejected(e),
            },
        }
    }
}

/// Law: registration is idempotent. Registering a second descriptor whose
/// name is already in the table leaves the table exactly as it was — its
/// size, its entries and in particular the stored handler reference are
/// unchanged.
pub proof fn lemma_register_idempotent(table: Seq<Command>, c1: Command, c2: Command)
    requires
        c2.name@ == c1.name@,
    ensures
        spec_add(spec_add(table, c1), c2) == spec_add(table, c1),
{
    let t1 = spec_add(table, c1);
    if contains_name(table, c1.name@) {
        assert(contains_name(t1, c2.name@));
    } else {
        assert(t1[table.len() as int] == c1);
        assert(contains_name(t1, c2.name@));
    }
}

/// Law: registering two commands with distinct names, in either order,
/// keeps both in the table — neither registration drops the other's entry.
pub proof fn lemma_register_distinct_keeps_both(table: Seq<Command>, a: Command, b: Command)
    requires
        a.name@ != b.name@,
    ensures
        contains_name(spec_add(spec_add(table, a), b), a.name@),
        contains_name(spec_add(spec_add(table, a), b), b.name@),
{
    let t1 = spec_add(table, a);
    let t2 = spec_add(t1, b);
    if contains_name(table, a.name@) {
        assert(contains_name(t1, a.name@));
    } else {
        assert(t1[table.len() as int] == a);
        assert(contains_name(t1, a.name@));
    }
    let i = choose|i: int| 0 <= i < t1.len() && (#[trigger] t1[i]).name@ == a.name@;
    if contains_name(t1, b.name@) {
        assert(t2 == t1);
    } else {
        assert(t2 == t1.push(b));
        assert(t2[i] == t1[i]);
        assert(contains_name(t2, a.name@));
        assert(t2[t1.len() as int] == b);
    }
}

} // verus!
