//! The table from command names to their native operations.

use vstd::prelude::*;
use crate::commands::CommandId;
use crate::error::BridgeError;

verus! {

/// One registered command.
pub struct CommandEntry {
    pub name: String,
    pub handler: CommandId,
}

/// Command names and their handlers, each name at most once.
pub struct Registry {
    entries: Vec<CommandEntry>,
    table: Ghost<Map<Seq<char>, CommandId>>,
}

/// The registry `m` after registering `handler` under `name`, and the
/// outcome of that registration.
pub open spec fn register_step(m: Map<Seq<char>, CommandId>, name: Seq<char>, handler: CommandId) -> (
    Map<Seq<char>, CommandId>,
    Result<(), BridgeError>,
) {
    if m.contains_key(name) {
        (m, Err(BridgeError::DuplicateCommand))
    } else {
        (m.insert(name, handler), Ok(()))
    }
}

/// What resolving `name` in `m` gives.
pub open spec fn resolve_step(m: Map<Seq<char>, CommandId>, name: Seq<char>) -> Result<CommandId, BridgeError> {
    if m.contains_key(name) {
        Ok(m[name])
    } else {
        Err(BridgeError::UnknownCommand)
    }
}

/// A table of `(name, handler)` pairs as names and handlers.
pub open spec fn table_view(t: Seq<(&str, CommandId)>) -> Seq<(Seq<char>, CommandId)> {
    t.map_values(|p: (&str, CommandId)| (p.0@, p.1))
}

/// The map that registering each pair of `t` in order builds, when no name
/// repeats.
pub open spec fn table_map(t: Seq<(Seq<char>, CommandId)>) -> Map<Seq<char>, CommandId>
    decreases t.len(),
{
    if t.len() == 0 {
        Map::empty()
    } else {
        table_map(t.drop_last()).insert(t.last().0, t.last().1)
    }
}

/// Whether two pairs of `t` share a name.
pub open spec fn has_duplicate_name(t: Seq<(Seq<char>, CommandId)>) -> bool {
    exists|i: int, j: int| 0 <= i < j < t.len() && #[trigger] t[i].0 == #[trigger] t[j].0
}

/// A name is in the map built from `t` exactly when some pair of `t` has it.
pub proof fn lemma_table_map_keys(t: Seq<(Seq<char>, CommandId)>, k: Seq<char>)
    ensures
        table_map(t).contains_key(k) <==> exists|i: int| 0 <= i < t.len() && t[i].0 == k,
    decreases t.len(),
{
    if t.len() > 0 {
        let init = t.drop_last();
        lemma_table_map_keys(init, k);
        if exists|i: int| 0 <= i < init.len() && init[i].0 == k {
            let i = choose|i: int| 0 <= i < init.len() && init[i].0 == k;
            assert(t[i] == init[i]);
        }
        if exists|i: int| 0 <= i < t.len() && t[i].0 == k {
            let i = choose|i: int| 0 <= i < t.len() && t[i].0 == k;
            if i < init.len() {
                assert(t[i] == init[i]);
            }
        }
    }
}

/// Registering a second command under a name already registered fails with
/// `DuplicateCommand` and leaves the table as the first registration made it.
pub proof fn lemma_second_registration_rejected(
    m: Map<Seq<char>, CommandId>,
    name: Seq<char>,
    first: CommandId,
    second: CommandId,
)
    ensures
        ({
            let after_first = register_step(m, name, first).0;
            register_step(after_first, name, second) == (after_first, Err::<(), BridgeError>(
                BridgeError::DuplicateCommand,
            ))
        }),
{
}

impl View for Registry {
    type V = Map<Seq<char>, CommandId>;

    closed spec fn view(&self) -> Map<Seq<char>, CommandId> {
        self.table@
    }
}

impl Registry {
    /// The entries hold exactly the view's pairs, and no name twice.
    pub closed spec fn wf(&self) -> bool {
        &&& forall|k: Seq<char>| #[trigger]
            self.table@.contains_key(k) <==> exists|i: int|
                0 <= i < self.entries@.len() && self.entries@[i].name@ == k
        &&& forall|i: int|
            0 <= i < self.entries@.len() ==> self.table@[#[trigger] self.entries@[i].name@]
                == self.entries@[i].handler
        &&& forall|i: int, j: int|
            0 <= i < j < self.entries@.len() ==> #[trigger] self.entries@[i].name@
                != #[trigger] self.entries@[j].name@
    }

    /// A registry with no commands.
    pub fn new() -> (r: Registry)
        ensures
            r.wf(),
            r@ == Map::<Seq<char>, CommandId>::empty(),
    {
        Registry { entries: Vec::new(), table: Ghost(Map::empty()) }
    }

    /// The position of the entry named `name`, if any.
    fn find(&self, name: &str) -> (r: Option<usize>)
        requires
            self.wf(),
        ensures
            match r {
                Some(i) => i < self.entries@.len() && self.entries@[i as int].name@ == name@,
                None => !self@.contains_key(name@),
            },
    {
        let wanted = name.to_owned();
        let mut i: usize = 0;
        while i < self.entries.len()
            invariant
                0 <= i <= self.entries@.len(),
                wanted@ == name@,
                forall|j: int| 0 <= j < i ==> self.entries@[j].name@ != name@,
            decreases self.entries@.len() - i,
        {
            if self.entries[i].name == wanted {
                return Some(i);
            }
            i = i + 1;
        }
        None
    }

    /// Whether a command is registered under `name`.
    pub fn contains(&self, name: &str) -> (r: bool)
        requires
            self.wf(),
        ensures
            r == self@.contains_key(name@),
    {
        self.find(name).is_some()
    }

    /// Registers `handler` under `name`; fails with `DuplicateCommand`, and
    /// leaves the registry as it was, when the name is already taken.
    pub fn register(&mut self, name: &str, handler: CommandId) -> (r: Result<(), BridgeError>)
        requires
            old(self).wf(),
        ensures
            final(self).wf(),
            (final(self)@, r) == register_step(old(self)@, name@, handler),
    {
        if self.find(name).is_some() {
            return Err(BridgeError::DuplicateCommand);
        }
        let ghost old_entries = self.entries@;
        self.entries.push(CommandEntry { name: name.to_owned(), handler });
        self.table = Ghost(self.table@.insert(name@, handler));
        assert forall|k: Seq<char>| #[trigger]
            self.table@.contains_key(k) <==> exists|i: int|
                0 <= i < self.entries@.len() && self.entries@[i].name@ == k by {
            if self.table@.contains_key(k) && k != name@ {
                let i = choose|i: int| 0 <= i < old_entries.len() && old_entries[i].name@ == k;
                assert(self.entries@[i] == old_entries[i]);
            }
            if k == name@ {
                assert(self.entries@[old_entries.len() as int].name@ == k);
            }
            if exists|i: int| 0 <= i < self.entries@.len() && self.entries@[i].name@ == k {
                let i = choose|i: int| 0 <= i < self.entries@.len() && self.entries@[i].name@ == k;
                if i < old_entries.len() {
                    assert(old_entries[i] == self.entries@[i]);
                }
            }
        }
        assert forall|i: int|
            0 <= i < self.entries@.len() implies self.table@[#[trigger] self.entries@[i].name@]
                == self.entries@[i].handler by {
            if 0 <= i < old_entries.len() {
                assert(old_entries[i] == self.entries@[i]);
            }
        }
        assert forall|i: int, j: int|
            0 <= i < j < self.entries@.len() implies #[trigger] self.entries@[i].name@
                != #[trigger] self.entries@[j].name@ by {
            if j == old_entries.len() {
                assert(old_entries[i] == self.entries@[i]);
            } else {
                assert(old_entries[i] == self.entries@[i]);
                assert(old_entries[j] == self.entries@[j]);
            }
        }
        Ok(())
    }

    /// Registers each pair of `table` in order; fails with
    /// `DuplicateCommand` when two pairs share a name.
    pub fn from_table(table: &[(&str, CommandId)]) -> (r: Result<Registry, BridgeError>)
        ensures
            has_duplicate_name(table_view(table@)) ==> r == Err::<Registry, BridgeError>(
                BridgeError::DuplicateCommand,
            ),
            !has_duplicate_name(table_view(table@)) ==> r is Ok && r->Ok_0.wf() && r->Ok_0@
                == table_map(table_view(table@)),
    {
        let ghost tv = table_view(table@);
        let mut reg = Registry::new();
        let mut i: usize = 0;
        assert(tv.take(0) =~= Seq::<(Seq<char>, CommandId)>::empty());
        while i < table.len()
            invariant
                0 <= i <= table@.len(),
                tv == table_view(table@),
                reg.wf(),
                reg@ == table_map(tv.take(i as int)),
                !has_duplicate_name(tv.take(i as int)),
            decreases table@.len() - i,
        {
            let (name, handler) = table[i];
            assert(tv[i as int] == (name@, handler));
            let ghost prefix = tv.take(i as int);
            proof {
                lemma_table_map_keys(prefix, name@);
            }
            match reg.register(name, handler) {
                Err(e) => {
                    proof {
                        let j = choose|j: int| 0 <= j < prefix.len() && prefix[j].0 == name@;
                        assert(tv[j] == prefix[j]);
                        assert(tv[j].0 == tv[i as int].0);
                    }
                    return Err(e);
                }
                Ok(()) => {},
            }
            let ghost next = tv.take(i + 1);
            assert(next.drop_last() =~= prefix);
            assert forall|a: int, b: int| 0 <= a < b < next.len() implies #[trigger] next[a].0
                != #[trigger] next[b].0 by {
                assert(next[a] == tv[a]);
                assert(next[b] == tv[b]);
                if b < i {
                    assert(prefix[a] == tv[a]);
                    assert(prefix[b] == tv[b]);
                } else {
                    assert(prefix[a] == tv[a]);
                }
            }
            i = i + 1;
        }
        assert(tv.take(table@.len() as int) =~= tv);
        Ok(reg)
    }

    /// The handler registered under `name`; fails with `UnknownCommand` when
    /// there is none.
    pub fn resolve(&self, name: &str) -> (r: Result<CommandId, BridgeError>)
        requires
            self.wf(),
        ensures
            r == resolve_step(self@, name@),
    {
        match self.find(name) {
            Some(i) => Ok(self.entries[i].handler),
            None => Err(BridgeError::UnknownCommand),
        }
    }
}

} // verus!
