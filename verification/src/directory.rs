use vstd::prelude::*;

verus! {

/// One backend service this gateway fronts: a display name and a routable
/// url. The ordered sequence of entries is the service directory; its order
/// is display order.
pub struct ServiceEntry {
    pub name: String,
    pub url: String,
}

impl DeepView for ServiceEntry {
    type V = (Seq<char>, Seq<char>);

    open spec fn deep_view(&self) -> (Seq<char>, Seq<char>) {
        (self.name@, self.url@)
    }
}

/// What a text parses to as a JSON array of arrays of strings: the rows on
/// success, nothing when the text is not such a document.
pub uninterp spec fn spec_json_rows(s: Seq<char>) -> Option<Seq<Seq<Seq<char>>>>;

/// Relies on serde_json::from_str::<Vec<Vec<String>>>: whether a text parses
/// as a JSON array of arrays of strings, and the rows it parses to, depend on
/// the text alone.
#[verifier::external_body]
fn parse_json_rows(s: &str) -> (r: Option<Vec<Vec<String>>>)
    ensures
        r.deep_view() == spec_json_rows(s@),
{
    serde_json::from_str::<Vec<Vec<String>>>(s).ok()
}

/// Every row of the parsed configuration carries at least a name and a url.
pub open spec fn spec_rows_wellformed(rows: Seq<Seq<Seq<char>>>) -> bool {
    forall|i: int| 0 <= i < rows.len() ==> (#[trigger] rows[i]).len() >= 2
}

/// The directory that well-formed rows denote: the first field of each row is
/// the service name, the second its url; any further fields are ignored.
pub open spec fn spec_directory_of_rows(rows: Seq<Seq<Seq<char>>>) -> Seq<
    (Seq<char>, Seq<char>),
> {
    rows.map_values(|row: Seq<Seq<char>>| (row[0], row[1]))
}

/// The service directory that a raw `SERVICES` configuration text denotes:
/// the (name, url) pairs when the text is a JSON array of such pairs, and the
/// empty directory for any malformed text.
pub open spec fn spec_directory(s: Seq<char>) -> Seq<(Seq<char>, Seq<char>)> {
    match spec_json_rows(s) {
        Option::Some(rows) => if spec_rows_wellformed(rows) {
            spec_directory_of_rows(rows)
        } else {
            Seq::empty()
        },
        Option::None => Seq::empty(),
    }
}

/// Turns parsed rows into the service directory. A row with fewer than two
/// fields marks the whole configuration malformed, which degrades to the
/// empty directory rather than failing the request.
pub fn directory_of_rows(rows: &Vec<Vec<String>>) -> (r: Vec<ServiceEntry>)
    ensures
        r.deep_view() == if spec_rows_wellformed(rows.deep_view()) {
            spec_directory_of_rows(rows.deep_view())
        } else {
            Seq::<(Seq<char>, Seq<char>)>::empty()
        },
{
    let ghost rv: Seq<Seq<Seq<char>>> = rows.deep_view();
    let mut out: Vec<ServiceEntry> = Vec::new();
    let mut i: usize = 0;
    while i < rows.len()
        invariant
            0 <= i <= rows.len(),
            rv == rows.deep_view(),
            rv.len() == rows.len(),
            forall|j: int| 0 <= j < i ==> (#[trigger] rv[j]).len() >= 2,
            out@.len() == i as int,
            forall|j: int| 0 <= j < i ==> (#[trigger] out@[j]).deep_view() == (
                rv[j][0],
                rv[j][1],
            ),
        decreases rows.len() - i,
    {
        let row = &rows[i];
        assert(rv[i as int].len() == row@.len());
        if row.len() < 2 {
            let empty: Vec<ServiceEntry> = Vec::new();
            assert(empty.deep_view() =~= Seq::<(Seq<char>, Seq<char>)>::empty());
            assert(!spec_rows_wellformed(rv));
            return empty;
        }
        let entry = ServiceEntry { name: row[0].clone(), url: row[1].clone() };
        assert(entry.deep_view() == (rv[i as int][0], rv[i as int][1]));
        let ghost out_before: Seq<ServiceEntry> = out@;
        out.push(entry);
        i += 1;
        proof {
            assert forall|j: int| 0 <= j < i implies (#[trigger] out@[j]).deep_view() == (
                rv[j][0],
                rv[j][1],
            ) by {
                if j < i - 1 {
                    assert(out@[j] == out_before[j]);
                } else {
                    assert(out@[j] == entry);
                }
            }
        }
    }
    proof {
        assert(spec_rows_wellformed(rv));
        assert forall|j: int| 0 <= j < rv.len() implies out.deep_view()[j]
            == spec_directory_of_rows(rv)[j] by {
            assert(out@[j].deep_view() == (rv[j][0], rv[j][1]));
        }
        assert(out.deep_view() =~= spec_directory_of_rows(rv));
    }
    out
}

/// Parses a raw `SERVICES` configuration text into the service directory.
/// Malformed text yields the empty directory, never a failure.
pub fn parse_directory(s: &str) -> (r: Vec<ServiceEntry>)
    ensures
        r.deep_view() == spec_directory(s@),
{
    match parse_json_rows(s) {
        Option::Some(rows) => directory_of_rows(&rows),
        Option::None => {
            let empty: Vec<ServiceEntry> = Vec::new();
            assert(empty.deep_view() =~= Seq::<(Seq<char>, Seq<char>)>::empty());
            empty
        },
    }
}

} // verus!
