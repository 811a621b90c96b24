//! The catalog: one flight entry per registered table, each with the table's
//! schema, a descriptor path naming it, and a ticket that selects it.
use vstd::prelude::*;
use vstd::utf8::*;
use crate::registry::{Javelin, TableRegistration, has_name, names_of, unique_names};
use crate::service::ServiceError;
use crate::text::{push_char, views_of};

verus! {

/// A table name written as a quoted SQL identifier's body: every `"` doubled.
pub open spec fn quote_ident(name: Seq<char>) -> Seq<char>
    decreases name.len(),
{
    if name.len() == 0 {
        Seq::empty()
    } else {
        let rest = quote_ident(name.drop_last());
        if name.last() == '"' {
            rest + seq!['"', '"']
        } else {
            rest.push(name.last())
        }
    }
}

/// The query a table's ticket carries: every row of the table, the name quoted
/// so that it is matched case-sensitively.
pub open spec fn table_query(name: Seq<char>) -> Seq<char> {
    "SELECT * FROM \""@ + quote_ident(name) + "\""@
}

/// The ticket of a table: its query, encoded as UTF-8.
pub open spec fn ticket_of(name: Seq<char>) -> Seq<u8> {
    encode_utf8(table_query(name))
}

/// One listed flight.
pub struct FlightEntry<S> {
    /// The table's schema, as registered.
    pub schema: S,
    /// The descriptor path: one component, the table's name.
    pub descriptor_path: Vec<String>,
    /// The ticket that fetches the whole table.
    pub ticket: Vec<u8>,
}

/// Whether `e` is the flight entry of registration `reg`.
pub open spec fn entry_of<S: Clone>(reg: TableRegistration<S>, e: FlightEntry<S>) -> bool {
    &&& e.descriptor_path@.len() == 1
    &&& e.descriptor_path@[0]@ == reg.name@
    &&& e.ticket@ == ticket_of(reg.name@)
    &&& cloned::<S>(reg.schema, e.schema)
}

/// The query that selects every row of the named table.
pub fn query_for_table(name: &str) -> (r: String)
    ensures
        r@ == table_query(name@),
{
    let n = name.unicode_len();
    let mut q = String::from_str("SELECT * FROM \"");
    let mut i: usize = 0;
    while i < n
        invariant
            n == name@.len(),
            i <= n,
            q@ == "SELECT * FROM \""@ + quote_ident(name@.subrange(0, i as int)),
        decreases n - i,
    {
        let c = name.get_char(i);
        let ghost pre = name@.subrange(0, i as int);
        assert(name@.subrange(0, i + 1).drop_last() == pre);
        if c == '"' {
            push_char(&mut q, '"');
            push_char(&mut q, '"');
            assert(quote_ident(pre) + seq!['"', '"'] == quote_ident(pre).push('"').push('"'));
        } else {
            push_char(&mut q, c);
        }
        i = i + 1;
    }
    assert(name@.subrange(0, n as int) == name@);
    q.concat("\"")
}

/// The ticket of the named table: its query as UTF-8 bytes.
pub fn table_ticket(name: &str) -> (r: Vec<u8>)
    ensures
        r@ == ticket_of(name@),
{
    let q = query_for_table(name);
    let bytes = q.as_str().as_bytes();
    let mut out: Vec<u8> = Vec::new();
    let mut i: usize = 0;
    while i < bytes.len()
        invariant
            bytes@ == encode_utf8(q@),
            i <= bytes@.len(),
            out@ == bytes@.subrange(0, i as int),
        decreases bytes@.len() - i,
    {
        out.push(bytes[i]);
        assert(bytes@.subrange(0, i + 1) == bytes@.subrange(0, i as int).push(bytes@[i as int]));
        i = i + 1;
    }
    assert(bytes@.subrange(0, bytes@.len() as int) == bytes@);
    out
}

impl<S: Clone> Javelin<S> {
    /// Lists every registered table as a flight, in registration order. With
    /// no table registered the listing fails as unavailable; a table whose
    /// schema cannot be had becomes an error entry of its own.
    pub fn list_flights(&self) -> (r: Result<Vec<Result<FlightEntry<S>, ServiceError>>, ServiceError>)
        requires
            self.wf(),
        ensures
            self@.len() == 0 ==> r == Err::<Vec<Result<FlightEntry<S>, ServiceError>>, ServiceError>(
                ServiceError::CatalogUnavailable,
            ),
            self@.len() > 0 ==> (r matches Ok(v) && v@.len() == self@.len() && forall|i: int|
                0 <= i < v@.len() ==> ((#[trigger] v@[i]) matches Ok(e) && entry_of(self@[i], e))),
    {
        let names = match self.get_table_names() {
            Some(names) => names,
            None => return Err(ServiceError::CatalogUnavailable),
        };
        let n = names.len();
        proof {
            assert(views_of(names@).len() == names_of(self@).len());
            assert forall|k: int| 0 <= k < n implies (#[trigger] names@[k])@ == self@[k].name@ by {
                assert(views_of(names@)[k] == names_of(self@)[k]);
            }
        }
        if n == 0 {
            return Err(ServiceError::CatalogUnavailable);
        }
        let mut out: Vec<Result<FlightEntry<S>, ServiceError>> = Vec::new();
        let mut i: usize = 0;
        while i < n
            invariant
                self.wf(),
                n == self@.len(),
                names@.len() == n,
                forall|k: int| 0 <= k < n ==> (#[trigger] names@[k])@ == self@[k].name@,
                i <= n,
                out@.len() == i,
                forall|k: int| 0 <= k < i ==> ((#[trigger] out@[k]) matches Ok(e) && entry_of(self@[k], e)),
            decreases n - i,
        {
            let t = &names[i];
            assert(names@[i as int]@ == self@[i as int].name@);
            assert(has_name(self@, t@));
            match self.get_arrow_schema(t.as_str()) {
                Some(s) => {
                    proof {
                        let j = choose|j: int| 0 <= j < self@.len() && self@[j].schema == *s && #[trigger] self@[j].name@ == t@;
                        assert(unique_names(self@));
                        assert(j == i);
                    }
                    let mut path: Vec<String> = Vec::new();
                    path.push(t.clone());
                    let entry = FlightEntry { schema: s.clone(), descriptor_path: path, ticket: table_ticket(t.as_str()) };
                    out.push(Ok(entry));
                },
                None => {
                    out.push(Err(ServiceError::SchemaUnavailable(t.clone())));
                },
            }
            i = i + 1;
        }
        Ok(out)
    }
}

/// Listed tickets replay: the ticket of a listed entry is valid UTF-8, so
/// `do_get` accepts it, and the query it yields selects every row of the
/// entry's table, whose schema the entry carries.
pub proof fn lemma_listed_ticket_selects_table<S: Clone>(reg: TableRegistration<S>, e: FlightEntry<S>)
    requires
        entry_of(reg, e),
    ensures
        valid_utf8(e.ticket@),
        decode_utf8(e.ticket@) == table_query(reg.name@),
{
    encode_utf8_valid_utf8(table_query(reg.name@));
    encode_utf8_decode_utf8(table_query(reg.name@));
}

} // verus!
