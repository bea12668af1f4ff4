//! A snapshot of the route directory: the mapping from a route's short name
//! to what is known of the route.

use crate::error::{Error, ErrorView};
use crate::model::{routes_view, strings_view, RouteInfo, RouteInfoView};
use crate::table::{csv_records, read_records, table_view};
use vstd::prelude::*;
use vstd::string::StringExecFns;

verus! {

/// The mapping from short name to route that one refresh has built. It is
/// built whole and never changed once it is published.
pub struct RouteSnapshot {
    entries: Vec<RouteInfo>,
}

spec fn holds(s: Seq<RouteInfoView>, key: Seq<char>, i: int) -> bool {
    0 <= i < s.len() && s[i].short_name == key
}

spec fn distinct(s: Seq<RouteInfoView>) -> bool {
    forall|i: int, j: int| 0 <= i < j < s.len() ==> s[i].short_name != s[j].short_name
}

spec fn keyed(s: Seq<RouteInfoView>) -> Map<Seq<char>, RouteInfoView> {
    Map::new(
        |k: Seq<char>| exists|i: int| holds(s, k, i),
        |k: Seq<char>| s[choose|i: int| holds(s, k, i)],
    )
}

proof fn lemma_keyed_at(s: Seq<RouteInfoView>, key: Seq<char>, i: int)
    requires
        distinct(s),
        holds(s, key, i),
    ensures
        keyed(s).contains_key(key),
        keyed(s)[key] == s[i],
{
    let c = choose|c: int| holds(s, key, c);
    assert(holds(s, key, c));
    if c < i {
        assert(s[c].short_name != s[i].short_name);
    } else if i < c {
        assert(s[i].short_name != s[c].short_name);
    }
}

proof fn lemma_keyed_push(s: Seq<RouteInfoView>, x: RouteInfoView)
    requires
        distinct(s),
        forall|i: int| !holds(s, x.short_name, i),
    ensures
        distinct(s.push(x)),
        keyed(s.push(x)) == keyed(s).insert(x.short_name, x),
{
    let t = s.push(x);
    assert forall|i: int, j: int| 0 <= i < j < t.len() implies t[i].short_name
        != t[j].short_name by {
        if j == s.len() {
            assert(!holds(s, x.short_name, i));
        }
    }
    assert forall|k: Seq<char>| keyed(t).contains_key(k) <==> keyed(s).insert(
        x.short_name,
        x,
    ).contains_key(k) by {
        if keyed(t).contains_key(k) {
            let i = choose|i: int| holds(t, k, i);
            if i < s.len() {
                assert(holds(s, k, i));
            }
        }
        if keyed(s).contains_key(k) {
            let i = choose|i: int| holds(s, k, i);
            assert(holds(t, k, i));
        }
        if k == x.short_name {
            assert(holds(t, k, s.len() as int));
        }
    }
    assert forall|k: Seq<char>| keyed(t).contains_key(k) implies keyed(t)[k] == keyed(s).insert(
        x.short_name,
        x,
    )[k] by {
        let i = choose|i: int| holds(t, k, i);
        lemma_keyed_at(t, k, i);
        if i < s.len() {
            assert(holds(s, k, i));
            lemma_keyed_at(s, k, i);
        }
    }
    assert(keyed(t) =~= keyed(s).insert(x.short_name, x));
}

proof fn lemma_keyed_update(s: Seq<RouteInfoView>, at: int, x: RouteInfoView)
    requires
        distinct(s),
        holds(s, x.short_name, at),
    ensures
        distinct(s.update(at, x)),
        keyed(s.update(at, x)) == keyed(s).insert(x.short_name, x),
{
    let t = s.update(at, x);
    assert forall|i: int, j: int| 0 <= i < j < t.len() implies t[i].short_name
        != t[j].short_name by {
        assert(s[i].short_name != s[j].short_name);
    }
    assert forall|k: Seq<char>| keyed(t).contains_key(k) <==> keyed(s).insert(
        x.short_name,
        x,
    ).contains_key(k) by {
        if keyed(t).contains_key(k) {
            let i = choose|i: int| holds(t, k, i);
            assert(holds(s, k, i));
        }
        if keyed(s).contains_key(k) {
            let i = choose|i: int| holds(s, k, i);
            assert(holds(t, k, i));
        }
        if k == x.short_name {
            assert(holds(t, k, at));
        }
    }
    assert forall|k: Seq<char>| keyed(t).contains_key(k) implies keyed(t)[k] == keyed(s).insert(
        x.short_name,
        x,
    )[k] by {
        let i = choose|i: int| holds(t, k, i);
        lemma_keyed_at(t, k, i);
        assert(holds(s, k, i));
        lemma_keyed_at(s, k, i);
    }
    assert(keyed(t) =~= keyed(s).insert(x.short_name, x));
}

impl View for RouteSnapshot {
    type V = Map<Seq<char>, RouteInfoView>;

    closed spec fn view(&self) -> Map<Seq<char>, RouteInfoView> {
        keyed(routes_view(self.entries@))
    }
}

impl RouteSnapshot {
    #[verifier::type_invariant]
    spec fn well_formed(self) -> bool {
        distinct(routes_view(self.entries@))
    }

    /// Every entry of a snapshot is filed under its own short name.
    pub proof fn lemma_filed_under_own_name(&self)
        ensures
            forall|k: Seq<char>| self@.contains_key(k) ==> (#[trigger] self@[k]).short_name == k,
    {
        let s = routes_view(self.entries@);
        assert forall|k: Seq<char>| self@.contains_key(k) implies (#[trigger] self@[k]).short_name
            == k by {
            let i = choose|i: int| holds(s, k, i);
            assert(holds(s, k, i));
        }
    }

    /// The empty snapshot.
    pub fn new() -> (snapshot: RouteSnapshot)
        ensures
            snapshot@ == Map::<Seq<char>, RouteInfoView>::empty(),
    {
        let snapshot = RouteSnapshot { entries: Vec::new() };
        assert(snapshot@ =~= Map::<Seq<char>, RouteInfoView>::empty());
        snapshot
    }

    fn find(&self, short_name: &String) -> (found: Option<usize>)
        ensures
            match found {
                Some(i) => holds(routes_view(self.entries@), short_name@, i as int),
                None => forall|i: int| !holds(routes_view(self.entries@), short_name@, i),
            },
    {
        let mut i: usize = 0;
        while i < self.entries.len()
            invariant
                i <= self.entries.len(),
                forall|j: int| 0 <= j < i ==> !holds(routes_view(self.entries@), short_name@, j),
            decreases self.entries.len() - i,
        {
            if self.entries[i].short_name == *short_name {
                return Some(i);
            }
            i = i + 1;
        }
        None
    }

    /// The entry filed under a short name, if there is one.
    pub fn get(&self, short_name: &String) -> (entry: Option<&RouteInfo>)
        ensures
            match entry {
                Some(info) => self@.contains_key(short_name@) && info@ == self@[short_name@],
                None => !self@.contains_key(short_name@),
            },
    {
        proof {
            use_type_invariant(self);
        }
        match self.find(short_name) {
            Some(i) => {
                proof {
                    lemma_keyed_at(routes_view(self.entries@), short_name@, i as int);
                }
                Some(&self.entries[i])
            },
            None => None,
        }
    }

    /// Whether an entry is filed under a short name.
    pub fn contains(&self, short_name: &String) -> (present: bool)
        ensures
            present == self@.contains_key(short_name@),
    {
        self.get(short_name).is_some()
    }

    /// Files an entry under its short name. An entry that was filed under
    /// that name before is replaced.
    pub fn insert(&mut self, info: RouteInfo)
        ensures
            final(self)@ == old(self)@.insert(info.short_name@, info@),
    {
        proof {
            use_type_invariant(&*self);
        }
        let ghost before = routes_view(self.entries@);
        let found = self.find(&info.short_name);
        let mut entries: Vec<RouteInfo> = Vec::new();
        assert(routes_view(entries@) =~= Seq::<RouteInfoView>::empty());
        core::mem::swap(&mut self.entries, &mut entries);
        match found {
            Some(i) => {
                proof {
                    lemma_keyed_update(before, i as int, info@);
                }
                entries.set(i, info);
                assert(routes_view(entries@) =~= before.update(i as int, info@));
            },
            None => {
                proof {
                    lemma_keyed_push(before, info@);
                }
                entries.push(info);
                assert(routes_view(entries@) =~= before.push(info@));
            },
        }
        core::mem::swap(&mut self.entries, &mut entries);
    }
}

impl Clone for RouteSnapshot {
    fn clone(&self) -> (r: Self)
        ensures
            r@ == self@,
    {
        proof {
            use_type_invariant(self);
        }
        let mut entries: Vec<RouteInfo> = Vec::new();
        let mut i: usize = 0;
        while i < self.entries.len()
            invariant
                i <= self.entries.len(),
                entries.len() == i,
                forall|j: int| 0 <= j < i ==> entries@[j]@ == self.entries@[j]@,
            decreases self.entries.len() - i,
        {
            entries.push(self.entries[i].clone());
            i = i + 1;
        }
        assert(routes_view(entries@) =~= routes_view(self.entries@));
        RouteSnapshot { entries }
    }
}

/// The route that a row of the route table describes: the route id in the
/// first column, the short name in the third, the long name in the fourth.
/// The second column is not used.
pub open spec fn route_of_row(row: Seq<Seq<char>>) -> RouteInfoView {
    RouteInfoView { route_id: row[0], short_name: row[2], long_name: row[3] }
}

/// Whether every row of a table has the four columns that a route needs.
pub open spec fn well_shaped(rows: Seq<Seq<Seq<char>>>) -> bool {
    forall|i: int| 0 <= i < rows.len() ==> (#[trigger] rows[i]).len() >= 4
}

/// The mapping that a table describes: each row filed under its short name,
/// in the order of the rows, a later row replacing an earlier one of the same
/// short name.
pub open spec fn routes_of(rows: Seq<Seq<Seq<char>>>) -> Map<Seq<char>, RouteInfoView>
    decreases rows.len(),
{
    if rows.len() == 0 {
        Map::empty()
    } else {
        routes_of(rows.drop_last()).insert(rows.last()[2], route_of_row(rows.last()))
    }
}

/// The message of the failure on a table with a row that is too short.
pub open spec fn short_row_message() -> Seq<char> {
    "route table row has fewer than four columns"@
}

/// Whether row `i` of a table bears a short name.
pub open spec fn names(rows: Seq<Seq<Seq<char>>>, i: int, short_name: Seq<char>) -> bool {
    0 <= i < rows.len() && rows[i][2] == short_name
}

/// Whether row `i` is the last row of a table that bears a short name.
pub open spec fn names_last(rows: Seq<Seq<Seq<char>>>, i: int, short_name: Seq<char>) -> bool {
    names(rows, i, short_name) && forall|j: int| i < j ==> !names(rows, j, short_name)
}

/// The short names that a table files are those that its rows bear.
pub proof fn lemma_routes_of_domain(rows: Seq<Seq<Seq<char>>>, short_name: Seq<char>)
    ensures
        routes_of(rows).contains_key(short_name) <==> exists|i: int| names(rows, i, short_name),
    decreases rows.len(),
{
    if rows.len() > 0 {
        let front = rows.drop_last();
        lemma_routes_of_domain(front, short_name);
        if routes_of(rows).contains_key(short_name) {
            if rows.last()[2] == short_name {
                assert(names(rows, rows.len() - 1, short_name));
            } else {
                let i = choose|i: int| names(front, i, short_name);
                assert(names(rows, i, short_name));
            }
        }
        if exists|i: int| names(rows, i, short_name) {
            let i = choose|i: int| names(rows, i, short_name);
            if i < front.len() {
                assert(names(front, i, short_name));
            }
        }
    }
}

/// A short name is filed under what the last row that bears it says.
pub proof fn lemma_routes_of_entry(rows: Seq<Seq<Seq<char>>>, i: int, short_name: Seq<char>)
    requires
        names_last(rows, i, short_name),
    ensures
        routes_of(rows).contains_key(short_name),
        routes_of(rows)[short_name] == route_of_row(rows[i]),
    decreases rows.len(),
{
    let front = rows.drop_last();
    if i < rows.len() - 1 {
        assert(!names(rows, rows.len() - 1, short_name));
        assert(names(front, i, short_name));
        assert forall|j: int| i < j implies !names(front, j, short_name) by {
            assert(!names(rows, j, short_name));
        }
        lemma_routes_of_entry(front, i, short_name);
    }
}

/// What a table describes: the snapshot of its routes, or the parse failure
/// of a table with a row that is too short.
pub open spec fn described_by(rows: Seq<Seq<Seq<char>>>) -> Result<
    Map<Seq<char>, RouteInfoView>,
    ErrorView,
> {
    if well_shaped(rows) {
        Ok(routes_of(rows))
    } else {
        Err(ErrorView::Parse(short_row_message()))
    }
}

/// The records of the text of a route table: those after its header.
pub open spec fn route_records(text: Seq<char>) -> Result<Seq<Seq<Seq<char>>>, Seq<char>> {
    csv_records(text, true)
}

/// What the outcome of reading a table describes: what the table describes,
/// or the parse failure with the reader's message.
pub open spec fn described_by_read(table: Result<Seq<Seq<Seq<char>>>, Seq<char>>) -> Result<
    Map<Seq<char>, RouteInfoView>,
    ErrorView,
> {
    match table {
        Ok(rows) => described_by(rows),
        Err(m) => Err(ErrorView::Parse(m)),
    }
}

/// The view of the outcome of building a snapshot.
pub open spec fn built_view(built: Result<RouteSnapshot, Error>) -> Result<
    Map<Seq<char>, RouteInfoView>,
    ErrorView,
> {
    match built {
        Ok(snapshot) => Ok(snapshot@),
        Err(e) => Err(e@),
    }
}

impl RouteSnapshot {
    /// Builds the snapshot that a route table describes. The table holds the
    /// rows after the header. A table with a row of fewer than four columns
    /// describes no snapshot.
    pub fn from_table(rows: &Vec<Vec<String>>) -> (built: Result<RouteSnapshot, Error>)
        ensures
            built_view(built) == described_by(table_view(rows@)),
    {
        let ghost table = table_view(rows@);
        let mut snapshot = RouteSnapshot::new();
        let mut i: usize = 0;
        while i < rows.len()
            invariant
                i <= rows.len(),
                table == table_view(rows@),
                forall|j: int| 0 <= j < i ==> (#[trigger] table[j]).len() >= 4,
                snapshot@ == routes_of(table.subrange(0, i as int)),
            decreases rows.len() - i,
        {
            let row = &rows[i];
            assert(table[i as int] == strings_view(row@));
            if row.len() < 4 {
                return Err(
                    Error::Parse(String::from_str("route table row has fewer than four columns")),
                );
            }
            let info = RouteInfo {
                route_id: row[0].clone(),
                short_name: row[2].clone(),
                long_name: row[3].clone(),
            };
            assert(info@ == route_of_row(table[i as int]));
            snapshot.insert(info);
            assert(table.subrange(0, i + 1).drop_last() =~= table.subrange(0, i as int));
            i = i + 1;
        }
        assert(table.subrange(0, i as int) =~= table);
        Ok(snapshot)
    }

    /// Builds the snapshot that the text of a route table describes. The
    /// text is comma-separated, its first record the header. A text that the
    /// reader rejects describes no snapshot.
    pub fn from_csv(text: &str) -> (built: Result<RouteSnapshot, Error>)
        ensures
            built_view(built) == described_by_read(route_records(text@)),
    {
        match read_records(text, true) {
            Ok(rows) => RouteSnapshot::from_table(&rows),
            Err(m) => Err(Error::Parse(m)),
        }
    }
}

} // verus!
