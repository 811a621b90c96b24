//! The dataset registry: an immutable, ordered table of registrations keyed
//! by a unique, case-sensitive name, built once at startup.
use vstd::prelude::*;
use crate::text::{same_text, views_of};

verus! {

/// One registered table: its name, the dataset path behind it, and the schema
/// inferred from that dataset.
pub struct TableRegistration<S> {
    pub name: String,
    pub source_path: String,
    pub schema: S,
}

/// Why a registration was refused.
#[derive(Debug, PartialEq, Eq)]
pub enum RegistrationError {
    /// A table of this name is already registered.
    DuplicateName(String),
}

/// The names of a sequence of registrations, in order.
pub open spec fn names_of<S>(regs: Seq<TableRegistration<S>>) -> Seq<Seq<char>> {
    regs.map_values(|r: TableRegistration<S>| r.name@)
}

/// Whether no two registrations share a name.
pub open spec fn unique_names<S>(regs: Seq<TableRegistration<S>>) -> bool {
    forall|i: int, j: int|
        0 <= i < regs.len() && 0 <= j < regs.len() && i != j ==> (#[trigger] regs[i]).name@
            != (#[trigger] regs[j]).name@
}

/// Whether a table of this name is registered.
pub open spec fn has_name<S>(regs: Seq<TableRegistration<S>>, name: Seq<char>) -> bool {
    exists|i: int| 0 <= i < regs.len() && (#[trigger] regs[i]).name@ == name
}

/// The registration of the named table, if any (the last of that name).
pub open spec fn find_table<S>(regs: Seq<TableRegistration<S>>, name: Seq<char>) -> Option<
    TableRegistration<S>,
>
    decreases regs.len(),
{
    if regs.len() == 0 {
        None
    } else if regs.last().name@ == name {
        Some(regs.last())
    } else {
        find_table(regs.drop_last(), name)
    }
}

/// With unique names, the registration found under a name is the one at
/// the position that holds it.
proof fn lemma_find_at<S>(regs: Seq<TableRegistration<S>>, name: Seq<char>, i: int)
    requires
        unique_names(regs),
        0 <= i < regs.len(),
        regs[i].name@ == name,
    ensures
        find_table(regs, name) == Some(regs[i]),
    decreases regs.len(),
{
    if i != regs.len() - 1 {
        assert(regs.last() == regs[regs.len() - 1]);
        assert(regs.drop_last()[i] == regs[i]);
        assert(unique_names(regs.drop_last())) by {
            assert forall|a: int, b: int|
                0 <= a < regs.drop_last().len() && 0 <= b < regs.drop_last().len() && a != b
                implies (#[trigger] regs.drop_last()[a]).name@ != (
            #[trigger] regs.drop_last()[b]).name@ by {
                assert(regs.drop_last()[a] == regs[a]);
                assert(regs.drop_last()[b] == regs[b]);
            }
        }
        lemma_find_at(regs.drop_last(), name, i);
    }
}

/// Where no registration has the name, none is found.
proof fn lemma_find_none<S>(regs: Seq<TableRegistration<S>>, name: Seq<char>)
    requires
        !has_name(regs, name),
    ensures
        find_table(regs, name) is None,
    decreases regs.len(),
{
    if regs.len() > 0 {
        assert(regs.last() == regs[regs.len() - 1]);
        assert(!has_name(regs.drop_last(), name)) by {
            if has_name(regs.drop_last(), name) {
                let k = choose|k: int|
                    0 <= k < regs.drop_last().len() && (#[trigger] regs.drop_last()[k]).name@
                        == name;
                assert(regs[k] == regs.drop_last()[k]);
            }
        }
        lemma_find_none(regs.drop_last(), name);
    }
}

/// Registration then lookup: once a table is registered under a new name,
/// looking that name up finds exactly that registration, names stay unique,
/// and every other name finds what it found before. Registering a name that
/// is taken changes nothing (see `Javelin::register`), so every lookup stays
/// as it was.
pub proof fn lemma_register_then_lookup<S>(
    regs: Seq<TableRegistration<S>>,
    reg: TableRegistration<S>,
    other: Seq<char>,
)
    requires
        unique_names(regs),
        !has_name(regs, reg.name@),
    ensures
        unique_names(regs.push(reg)),
        find_table(regs.push(reg), reg.name@) == Some(reg),
        other != reg.name@ ==> find_table(regs.push(reg), other) == find_table(regs, other),
{
    let r2 = regs.push(reg);
    assert forall|a: int, b: int|
        0 <= a < r2.len() && 0 <= b < r2.len() && a != b implies (#[trigger] r2[a]).name@ != (
    #[trigger] r2[b]).name@ by {
        if a == regs.len() {
            assert(regs[b] == r2[b]);
        } else if b == regs.len() {
            assert(regs[a] == r2[a]);
        } else {
            assert(regs[a] == r2[a]);
            assert(regs[b] == r2[b]);
        }
    }
    assert(r2.drop_last() == regs);
}

/// The service state: the tables it serves, in registration order, each
/// with the schema inferred from its dataset.
pub struct Javelin<S> {
    tables: Vec<TableRegistration<S>>,
}

impl<S> View for Javelin<S> {
    type V = Seq<TableRegistration<S>>;

    closed spec fn view(&self) -> Seq<TableRegistration<S>> {
        self.tables@
    }
}

impl<S> Javelin<S> {
    /// Table names are unique.
    pub open spec fn wf(&self) -> bool {
        unique_names(self@)
    }

    /// A service with no table registered yet.
    pub fn new() -> (r: Self)
        ensures
            r.wf(),
            r@ == Seq::<TableRegistration<S>>::empty(),
    {
        Javelin { tables: Vec::new() }
    }

    /// Registers a table under a new name, after the existing ones. A name
    /// that is already registered is refused and nothing changes.
    pub fn register(&mut self, name: String, source_path: String, schema: S) -> (r: Result<
        (),
        RegistrationError,
    >)
        requires
            old(self).wf(),
        ensures
            final(self).wf(),
            has_name(old(self)@, name@) ==> r == Err::<(), RegistrationError>(
                RegistrationError::DuplicateName(name),
            ) && final(self)@ == old(self)@,
            !has_name(old(self)@, name@) ==> r is Ok && final(self)@ == old(self)@.push(
                (TableRegistration { name: name, source_path: source_path, schema: schema }),
            ),
    {
        let mut i: usize = 0;
        while i < self.tables.len()
            invariant
                self.tables@ == old(self).tables@,
                old(self).wf(),
                i <= self.tables@.len(),
                forall|k: int| 0 <= k < i ==> (#[trigger] self.tables@[k]).name@ != name@,
            decreases self.tables@.len() - i,
        {
            if same_text(self.tables[i].name.as_str(), name.as_str()) {
                return Err(RegistrationError::DuplicateName(name));
            }
            i = i + 1;
        }
        self.tables.push(TableRegistration { name, source_path, schema });
        Ok(())
    }

    /// The registration of the named table, if there is one.
    pub fn lookup(&self, name: &str) -> (r: Option<&TableRegistration<S>>)
        requires
            self.wf(),
        ensures
            r is None <==> !has_name(self@, name@),
            r matches Some(reg) ==> exists|i: int|
                0 <= i < self@.len() && self@[i] == *reg && #[trigger] self@[i].name@ == name@,
            match r {
                Some(reg) => find_table(self@, name@) == Some(*reg),
                None => find_table(self@, name@) is None,
            },
    {
        let mut i: usize = 0;
        while i < self.tables.len()
            invariant
                self.wf(),
                i <= self.tables@.len(),
                forall|k: int| 0 <= k < i ==> (#[trigger] self.tables@[k]).name@ != name@,
            decreases self.tables@.len() - i,
        {
            if same_text(self.tables[i].name.as_str(), name) {
                proof {
                    lemma_find_at(self@, name@, i as int);
                }
                return Some(&self.tables[i]);
            }
            i = i + 1;
        }
        proof {
            lemma_find_none(self@, name@);
        }
        None
    }

    /// The names of the registered tables in registration order (empty
    /// where no table is registered).
    pub fn get_table_names(&self) -> (r: Option<Vec<String>>)
        ensures
            r matches Some(v) && views_of(v@) == names_of(self@),
    {
        let n = self.tables.len();
        let mut out: Vec<String> = Vec::new();
        let mut i: usize = 0;
        while i < n
            invariant
                n == self@.len(),
                i <= n,
                out@.len() == i,
                forall|k: int| 0 <= k < i ==> (#[trigger] out@[k])@ == self@[k].name@,
            decreases n - i,
        {
            out.push(self.tables[i].name.clone());
            i = i + 1;
        }
        assert(views_of(out@) == names_of(self@));
        Some(out)
    }

    /// The schema of the named table, if it is registered.
    pub fn get_arrow_schema(&self, table: &str) -> (r: Option<&S>)
        requires
            self.wf(),
        ensures
            r is None <==> !has_name(self@, table@),
            r matches Some(s) ==> exists|i: int|
                0 <= i < self@.len() && self@[i].schema == *s && #[trigger] self@[i].name@
                    == table@,
    {
        match self.lookup(table) {
            Some(reg) => Some(&reg.schema),
            None => None,
        }
    }
}

} // verus!
