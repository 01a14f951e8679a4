use vstd::prelude::*;
use vstd::string::StringExecFns;

use crate::directory::ServiceEntry;
use crate::directory::spec_directory;
use crate::directory::spec_json_rows;
use crate::directory::spec_rows_wellformed;

verus! {

/// The list item a directory entry renders to.
pub open spec fn spec_render_entry(name: Seq<char>, url: Seq<char>) -> Seq<char> {
    "<li><a href='http://"@ + url + "'>"@ + name + "</a></li>"@
}

/// The list items of a whole directory, in directory order.
pub open spec fn spec_render_list(d: Seq<(Seq<char>, Seq<char>)>) -> Seq<char>
    decreases d.len(),
{
    if d.len() == 0 {
        Seq::empty()
    } else {
        spec_render_list(d.drop_last()) + spec_render_entry(d.last().0, d.last().1)
    }
}

/// The list items of the entries from index `i` on.
pub open spec fn spec_render_list_from(d: Seq<(Seq<char>, Seq<char>)>, i: int) -> Seq<char>
    decreases d.len() - i,
{
    if i < 0 || i >= d.len() {
        Seq::empty()
    } else {
        spec_render_entry(d[i].0, d[i].1) + spec_render_list_from(d, i + 1)
    }
}

/// Everything the landing page holds before the service list.
pub open spec fn spec_page_head() -> Seq<char> {
    "<!DOCTYPE html>\n<html lang=\"en\">\n<head>\n<meta charset=\"utf-8\">\n<title>Schloss</title>\n</head>\n<body>\n<h1>This is Schloss</h1>\n<h2>Services:</h2>\n<ul>\n"@
}

/// Everything the landing page holds after the service list.
pub open spec fn spec_page_tail() -> Seq<char> {
    "\n</ul>\n</body>\n</html>\n"@
}

/// The landing page a directory renders to: a fixed head, one list item per
/// entry in directory order, and a fixed tail.
pub open spec fn spec_render_page(d: Seq<(Seq<char>, Seq<char>)>) -> Seq<char> {
    spec_page_head() + spec_render_list(d) + spec_page_tail()
}

/// Renders one entry as a hyperlink list item: the href is `http://{url}`,
/// the visible text is the name.
pub fn render_entry(entry: &ServiceEntry) -> (r: String)
    ensures
        r@ == spec_render_entry(entry.name@, entry.url@),
{
    let mut r = String::from_str("<li><a href='http://");
    r.append(entry.url.as_str());
    r.append("'>");
    r.append(entry.name.as_str());
    r.append("</a></li>");
    r
}

/// Renders the directory's list items, one per entry, in directory order.
pub fn render_list(dir: &Vec<ServiceEntry>) -> (r: String)
    ensures
        r@ == spec_render_list(dir.deep_view()),
{
    let ghost dv: Seq<(Seq<char>, Seq<char>)> = dir.deep_view();
    let mut r = String::new();
    let mut i: usize = 0;
    while i < dir.len()
        invariant
            0 <= i <= dir.len(),
            dv == dir.deep_view(),
            dv.len() == dir.len(),
            r@ == spec_render_list(dv.take(i as int)),
        decreases dir.len() - i,
    {
        let item = render_entry(&dir[i]);
        r.append(item.as_str());
        i += 1;
        proof {
            let k = i as int;
            assert(dv.take(k).drop_last() =~= dv.take(k - 1));
            assert(dv.take(k).last() == dv[k - 1]);
        }
    }
    proof {
        assert(dv.take(dv.len() as int) =~= dv);
    }
    r
}

/// Renders the whole landing page for a directory.
pub fn render_page(dir: &Vec<ServiceEntry>) -> (r: String)
    ensures
        r@ == spec_render_page(dir.deep_view()),
{
    let mut r = String::from_str(
        "<!DOCTYPE html>\n<html lang=\"en\">\n<head>\n<meta charset=\"utf-8\">\n<title>Schloss</title>\n</head>\n<body>\n<h1>This is Schloss</h1>\n<h2>Services:</h2>\n<ul>\n",
    );
    let list = render_list(dir);
    r.append(list.as_str());
    r.append("\n</ul>\n</body>\n</html>\n");
    r
}

proof fn lemma_render_list_decompose(d: Seq<(Seq<char>, Seq<char>)>, i: int)
    requires
        0 <= i <= d.len(),
    ensures
        spec_render_list(d) == spec_render_list(d.take(i)) + spec_render_list_from(d, i),
    decreases d.len() - i,
{
    if i == d.len() {
        assert(d.take(i) =~= d);
        assert(spec_render_list(d) + Seq::<char>::empty() =~= spec_render_list(d));
    } else {
        lemma_render_list_decompose(d, i + 1);
        assert(d.take(i + 1).drop_last() =~= d.take(i));
        assert(d.take(i + 1).last() == d[i]);
        assert(spec_render_list(d.take(i)) + spec_render_entry(d[i].0, d[i].1)
            + spec_render_list_from(d, i + 1) =~= spec_render_list(d.take(i)) + (spec_render_entry(
            d[i].0,
            d[i].1,
        ) + spec_render_list_from(d, i + 1)));
    }
}

/// The landing page holds one list item per directory entry, in directory
/// order: for each index, the page is exactly the fixed head, the items of
/// the earlier entries, this entry's item, the items of the later entries,
/// and the fixed tail.
pub proof fn lemma_page_lists_each_entry(d: Seq<(Seq<char>, Seq<char>)>, i: int)
    requires
        0 <= i < d.len(),
    ensures
        spec_render_page(d) == spec_page_head() + spec_render_list(d.take(i)) + spec_render_entry(
            d[i].0,
            d[i].1,
        ) + spec_render_list_from(d, i + 1) + spec_page_tail(),
{
    lemma_render_list_decompose(d, i);
    assert(spec_page_head() + spec_render_list(d.take(i)) + spec_render_entry(d[i].0, d[i].1)
        + spec_render_list_from(d, i + 1) + spec_page_tail() =~= spec_page_head() + (
    spec_render_list(d.take(i)) + (spec_render_entry(d[i].0, d[i].1) + spec_render_list_from(
        d,
        i + 1,
    ))) + spec_page_tail());
}

/// A malformed `SERVICES` text denotes the empty directory, so the rendered
/// page degrades to an empty service list rather than a failure.
pub proof fn lemma_malformed_services_render_empty(s: Seq<char>)
    requires
        !(spec_json_rows(s) matches Option::Some(rows) && spec_rows_wellformed(rows)),
    ensures
        spec_directory(s) == Seq::<(Seq<char>, Seq<char>)>::empty(),
        spec_render_list(spec_directory(s)) == Seq::<char>::empty(),
        spec_render_page(spec_directory(s)) == spec_page_head() + spec_page_tail(),
{
    assert(spec_page_head() + Seq::<char>::empty() + spec_page_tail() =~= spec_page_head()
        + spec_page_tail());
}

} // verus!
