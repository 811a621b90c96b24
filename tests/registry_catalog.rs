use javelin::catalog::{query_for_table, table_ticket, FlightEntry};
use javelin::registry::{Javelin, RegistrationError};
use javelin::service::{Method, ServiceError, StatusCode};

fn registry_of(tables: &[(&str, &str, u32)]) -> Javelin<u32> {
    let mut j = Javelin::new();
    for (name, path, schema) in tables {
        j.register(name.to_string(), path.to_string(), *schema).unwrap();
    }
    j
}

fn entries(j: &Javelin<u32>) -> Vec<FlightEntry<u32>> {
    j.list_flights()
        .unwrap()
        .into_iter()
        .map(|e| match e {
            Ok(e) => e,
            Err(e) => panic!("unexpected error entry: {:?}", e),
        })
        .collect()
}

#[test]
fn lookup_finds_each_registered_table() {
    let j = registry_of(&[("orders", "/data/orders", 1), ("Users", "/data/users", 2)]);
    let o = j.lookup("orders").unwrap();
    assert_eq!(o.name, "orders");
    assert_eq!(o.source_path, "/data/orders");
    assert_eq!(o.schema, 1);
    let u = j.lookup("Users").unwrap();
    assert_eq!(u.source_path, "/data/users");
    assert_eq!(u.schema, 2);
    assert!(j.lookup("users").is_none());
    assert!(j.lookup("missing").is_none());
    assert_eq!(j.get_arrow_schema("Users"), Some(&2));
    assert_eq!(j.get_arrow_schema("USERS"), None);
}

#[test]
fn duplicate_registration_is_refused_and_keeps_entry() {
    let mut j = registry_of(&[("orders", "/data/orders", 1)]);
    let r = j.register("orders".to_string(), "/other".to_string(), 9);
    assert_eq!(r, Err(RegistrationError::DuplicateName("orders".to_string())));
    let o = j.lookup("orders").unwrap();
    assert_eq!(o.source_path, "/data/orders");
    assert_eq!(o.schema, 1);
    assert_eq!(j.get_table_names(), Some(vec!["orders".to_string()]));
}

#[test]
fn table_names_keep_registration_order() {
    let j = registry_of(&[("b", "/b", 1), ("a", "/a", 2), ("c", "/c", 3)]);
    assert_eq!(
        j.get_table_names(),
        Some(vec!["b".to_string(), "a".to_string(), "c".to_string()])
    );
}

#[test]
fn empty_registry_lists_no_table_names() {
    let j: Javelin<u32> = Javelin::new();
    assert_eq!(j.get_table_names(), Some(Vec::new()));
}

#[test]
fn listing_an_empty_registry_is_unavailable() {
    let j: Javelin<u32> = Javelin::new();
    match j.list_flights() {
        Err(e) => {
            assert_eq!(e, ServiceError::CatalogUnavailable);
            assert_eq!(e.code(), StatusCode::Unavailable);
            assert_eq!(e.message(), "No tables available");
        }
        Ok(v) => panic!("expected a failure, got {} entries", v.len()),
    }
}

#[test]
fn listing_yields_one_entry_per_table() {
    let j = registry_of(&[("orders", "/data/orders", 7), ("users", "/data/users", 8), ("items", "/i", 9)]);
    let es = entries(&j);
    assert_eq!(es.len(), 3);
    let names = ["orders", "users", "items"];
    let schemas = [7, 8, 9];
    for (i, e) in es.iter().enumerate() {
        assert_eq!(e.descriptor_path, vec![names[i].to_string()]);
        assert_eq!(e.schema, schemas[i]);
        let q = format!("SELECT * FROM \"{}\"", names[i]);
        assert_eq!(e.ticket, q.as_bytes().to_vec());
        assert_eq!(j.do_get(&e.ticket), Ok(q));
    }
}

#[test]
fn listed_ticket_replays_to_table_query() {
    let j = registry_of(&[("Mixed Case", "/m", 1)]);
    let es = entries(&j);
    let q = j.do_get(&es[0].ticket).unwrap();
    assert_eq!(q, "SELECT * FROM \"Mixed Case\"");
}

#[test]
fn table_query_doubles_inner_quotes() {
    assert_eq!(query_for_table("orders"), "SELECT * FROM \"orders\"");
    assert_eq!(query_for_table("a\"b"), "SELECT * FROM \"a\"\"b\"");
    assert_eq!(query_for_table(""), "SELECT * FROM \"\"");
    assert_eq!(table_ticket("t\u{e9}").len(), "SELECT * FROM \"t\u{e9}\"".len());
    assert_eq!(table_ticket("t\u{e9}"), "SELECT * FROM \"t\u{e9}\"".as_bytes().to_vec());
}

#[test]
fn unsupported_methods_fail_as_unimplemented_without_effect() {
    let j = registry_of(&[("orders", "/data/orders", 1)]);
    let answers = [
        (j.handshake(), Method::Handshake, "Implement handshake"),
        (j.get_flight_info(), Method::GetFlightInfo, "Implement get_flight_info"),
        (j.poll_flight_info(), Method::PollFlightInfo, "Implement poll_flight_info"),
        (j.get_schema(), Method::GetSchema, "Implement get_schema"),
        (j.do_put(), Method::DoPut, "Implement do_put"),
        (j.do_exchange(), Method::DoExchange, "Implement do_exchange"),
        (j.do_action(), Method::DoAction, "Implement do_action"),
        (j.list_actions(), Method::ListActions, "Implement list_actions"),
    ];
    for (r, m, msg) in answers {
        let e = r.unwrap_err();
        assert_eq!(e, ServiceError::Unimplemented(m));
        assert_eq!(e.code(), StatusCode::Unimplemented);
        assert_eq!(e.message(), msg);
    }
    assert_eq!(j.get_table_names(), Some(vec!["orders".to_string()]));
    assert_eq!(j.lookup("orders").unwrap().schema, 1);
}

#[test]
fn do_put_handshake_do_action_leave_registry_unchanged() {
    let j = registry_of(&[("orders", "/data/orders", 1)]);
    assert_eq!(j.do_put(), Err(ServiceError::Unimplemented(Method::DoPut)));
    assert_eq!(j.handshake(), Err(ServiceError::Unimplemented(Method::Handshake)));
    assert_eq!(j.do_action(), Err(ServiceError::Unimplemented(Method::DoAction)));
    assert_eq!(entries(&j).len(), 1);
    assert_eq!(j.lookup("orders").unwrap().source_path, "/data/orders");
}

#[test]
fn error_codes_and_messages() {
    let cases = [
        (ServiceError::MalformedTicket("bad".to_string()), StatusCode::Internal, "bad"),
        (ServiceError::EngineRejected("no such table".to_string()), StatusCode::Internal, "no such table"),
        (ServiceError::CatalogUnavailable, StatusCode::Unavailable, "No tables available"),
        (
            ServiceError::SchemaUnavailable("t".to_string()),
            StatusCode::Internal,
            "Failed to get schema for table: t",
        ),
        (ServiceError::StreamFailed("io".to_string()), StatusCode::Internal, "io"),
        (ServiceError::Unimplemented(Method::GetSchema), StatusCode::Unimplemented, "Implement get_schema"),
    ];
    for (e, code, msg) in cases {
        assert_eq!(e.code(), code);
        assert_eq!(e.message(), msg);
    }
    assert_eq!(Method::ListFlights.label(), "list_flights");
    assert_eq!(Method::DoGet.label(), "do_get");
}
