use bus_history::directory::RouteDirectory;
use bus_history::error::Error;
use bus_history::model::RouteInfo;
use bus_history::snapshot::RouteSnapshot;

fn route(id: &str, short: &str, long: &str) -> RouteInfo {
    RouteInfo { route_id: id.to_string(), short_name: short.to_string(), long_name: long.to_string() }
}

fn row(cells: &[&str]) -> Vec<String> {
    cells.iter().map(|c| c.to_string()).collect()
}

fn name(s: &str) -> String {
    s.to_string()
}

#[test]
fn new_snapshot_is_empty() {
    let snapshot = RouteSnapshot::new();
    assert!(snapshot.get(&name("212")).is_none());
    assert!(!snapshot.contains(&name("212")));
    assert!(!snapshot.contains(&name("")));
}

#[test]
fn insert_then_get() {
    let mut snapshot = RouteSnapshot::new();
    snapshot.insert(route("4658_98094", "212", "Ringaskiddy - Kent Station"));
    let found = snapshot.get(&name("212")).expect("filed");
    assert_eq!(found.route_id, "4658_98094");
    assert_eq!(found.short_name, "212");
    assert_eq!(found.long_name, "Ringaskiddy - Kent Station");
    assert!(snapshot.contains(&name("212")));
    assert!(snapshot.get(&name("215")).is_none());
    assert!(snapshot.get(&name("4658_98094")).is_none());
}

#[test]
fn insert_replaces_an_entry_of_the_same_short_name() {
    let mut snapshot = RouteSnapshot::new();
    snapshot.insert(route("1", "A", "old"));
    snapshot.insert(route("2", "B", "other"));
    snapshot.insert(route("3", "A", "new"));
    let a = snapshot.get(&name("A")).expect("filed");
    assert_eq!(a.route_id, "3");
    assert_eq!(a.long_name, "new");
    let b = snapshot.get(&name("B")).expect("filed");
    assert_eq!(b.route_id, "2");
    assert_eq!(b.long_name, "other");
}

#[test]
fn snapshot_clone_is_independent() {
    let mut snapshot = RouteSnapshot::new();
    snapshot.insert(route("1", "A", "Route A"));
    let copy = snapshot.clone();
    snapshot.insert(route("9", "A", "changed"));
    snapshot.insert(route("2", "B", "Route B"));
    assert_eq!(copy.get(&name("A")).expect("filed").route_id, "1");
    assert_eq!(copy.get(&name("A")).expect("filed").long_name, "Route A");
    assert!(copy.get(&name("B")).is_none());
}

#[test]
fn from_table_reads_columns_one_three_and_four() {
    let rows = vec![
        row(&["4658_98094", "7778020", "212", "Ringaskiddy - Kent Station", "", "3"]),
        row(&["4658_98097", "7778020", "215", "Mahon Point - Cloghroe", "", "3"]),
    ];
    let snapshot = RouteSnapshot::from_table(&rows).expect("well shaped");
    let r212 = snapshot.get(&name("212")).expect("filed");
    assert_eq!(r212.route_id, "4658_98094");
    assert_eq!(r212.short_name, "212");
    assert_eq!(r212.long_name, "Ringaskiddy - Kent Station");
    let r215 = snapshot.get(&name("215")).expect("filed");
    assert_eq!(r215.route_id, "4658_98097");
    assert_eq!(r215.long_name, "Mahon Point - Cloghroe");
    assert!(snapshot.get(&name("7778020")).is_none());
    assert!(snapshot.get(&name("4658_98094")).is_none());
}

#[test]
fn from_table_of_no_rows_is_the_empty_snapshot() {
    let snapshot = RouteSnapshot::from_table(&Vec::new()).expect("well shaped");
    assert!(snapshot.get(&name("212")).is_none());
}

#[test]
fn from_table_accepts_exactly_four_columns() {
    let rows = vec![row(&["1", "x", "A", "Route A"])];
    let snapshot = RouteSnapshot::from_table(&rows).expect("well shaped");
    assert_eq!(snapshot.get(&name("A")).expect("filed").long_name, "Route A");
}

#[test]
fn from_table_later_row_wins() {
    let rows = vec![
        row(&["1", "x", "A", "first"]),
        row(&["2", "x", "B", "second"]),
        row(&["3", "x", "A", "third"]),
    ];
    let snapshot = RouteSnapshot::from_table(&rows).expect("well shaped");
    assert_eq!(snapshot.get(&name("A")).expect("filed").route_id, "3");
    assert_eq!(snapshot.get(&name("A")).expect("filed").long_name, "third");
    assert_eq!(snapshot.get(&name("B")).expect("filed").route_id, "2");
}

#[test]
fn from_table_rejects_a_short_row() {
    let rows = vec![row(&["1", "x", "A", "Route A"]), row(&["2", "x", "B"])];
    match RouteSnapshot::from_table(&rows) {
        Err(Error::Parse(m)) => assert_eq!(m, "route table row has fewer than four columns"),
        Err(other) => panic!("unexpected {:?}", other),
        Ok(_) => panic!("a short row was accepted"),
    }
}

#[test]
fn from_table_rejects_an_empty_row() {
    let rows = vec![row(&[])];
    assert!(matches!(RouteSnapshot::from_table(&rows), Err(Error::Parse(_))));
}

#[test]
fn new_directory_holds_the_empty_mapping() {
    let directory = RouteDirectory::new();
    assert!(directory.snapshot().get(&name("212")).is_none());
}

#[test]
fn replace_then_snapshot() {
    let mut directory = RouteDirectory::new();
    let mut first = RouteSnapshot::new();
    first.insert(route("1", "A", "Route A"));
    directory.replace(first);
    let seen = directory.snapshot();
    assert_eq!(seen.get(&name("A")).expect("filed").route_id, "1");
}

#[test]
fn a_snapshot_in_hand_is_not_reached_by_a_later_replace() {
    let mut directory = RouteDirectory::new();
    let mut first = RouteSnapshot::new();
    first.insert(route("1", "A", "Route A"));
    first.insert(route("2", "B", "Route B"));
    directory.replace(first);
    let held = directory.snapshot();

    let mut second = RouteSnapshot::new();
    second.insert(route("7", "A", "Route A, rerouted"));
    second.insert(route("3", "C", "Route C"));
    directory.replace(second);

    assert_eq!(held.get(&name("A")).expect("filed").route_id, "1");
    assert_eq!(held.get(&name("B")).expect("filed").route_id, "2");
    assert!(held.get(&name("C")).is_none());

    let now = directory.snapshot();
    assert_eq!(now.get(&name("A")).expect("filed").route_id, "7");
    assert!(now.get(&name("B")).is_none());
    assert_eq!(now.get(&name("C")).expect("filed").route_id, "3");
}

#[test]
fn from_csv_skips_the_header_and_reads_the_rows() {
    let text = "route_id,agency_id,route_short_name,route_long_name,route_desc,route_type\n\
4658_98094,7778020,212,Ringaskiddy - Kent Station,,3\n\
4658_98097,7778020,215,Mahon Point - Cloghroe,,3\n";
    let snapshot = RouteSnapshot::from_csv(text).expect("well shaped");
    let r212 = snapshot.get(&name("212")).expect("filed");
    assert_eq!(r212.route_id, "4658_98094");
    assert_eq!(r212.long_name, "Ringaskiddy - Kent Station");
    let r215 = snapshot.get(&name("215")).expect("filed");
    assert_eq!(r215.route_id, "4658_98097");
    assert_eq!(r215.long_name, "Mahon Point - Cloghroe");
    assert!(snapshot.get(&name("route_short_name")).is_none());
}

#[test]
fn from_csv_reads_quoted_fields() {
    let text = "id,agency,short,long\n1,x,A,\"Airport, via City\"\n";
    let snapshot = RouteSnapshot::from_csv(text).expect("well shaped");
    assert_eq!(snapshot.get(&name("A")).expect("filed").long_name, "Airport, via City");
}

#[test]
fn from_csv_of_a_header_alone_is_the_empty_snapshot() {
    let snapshot = RouteSnapshot::from_csv("id,agency,short,long\n").expect("well shaped");
    assert!(snapshot.get(&name("short")).is_none());
    let nothing = RouteSnapshot::from_csv("").expect("well shaped");
    assert!(nothing.get(&name("")).is_none());
}

#[test]
fn from_csv_later_row_wins() {
    let text = "id,agency,short,long\n1,x,A,first\n2,x,A,second\n";
    let snapshot = RouteSnapshot::from_csv(text).expect("well shaped");
    assert_eq!(snapshot.get(&name("A")).expect("filed").route_id, "2");
    assert_eq!(snapshot.get(&name("A")).expect("filed").long_name, "second");
}

#[test]
fn from_csv_rejects_rows_of_unequal_length() {
    let text = "id,agency,short,long\n1,x,A,Route A\n2,x,B\n";
    match RouteSnapshot::from_csv(text) {
        Err(Error::Parse(m)) => assert!(!m.is_empty()),
        Err(other) => panic!("unexpected {:?}", other),
        Ok(_) => panic!("a ragged table was accepted"),
    }
}

#[test]
fn from_csv_rejects_a_table_of_three_columns() {
    let text = "id,agency,short\n1,x,A\n";
    match RouteSnapshot::from_csv(text) {
        Err(Error::Parse(m)) => assert_eq!(m, "route table row has fewer than four columns"),
        Err(other) => panic!("unexpected {:?}", other),
        Ok(_) => panic!("a short table was accepted"),
    }
}
