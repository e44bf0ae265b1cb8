use vstd::prelude::*;
use crate::snapshot::{EntryView, Snapshot, value_of};

verus! {

/// Name of the variable that holds the machine's hostname.
pub const HOSTNAME_KEY: &'static str = "HOSTNAME";

/// Name of the variable that holds the machine's local network address.
pub const LOCAL_IP_KEY: &'static str = "LOCAL_IP";

/// Markup up to the page title.
pub const TITLE_OPEN: &'static str = "<!DOCTYPE html>
<html>
<head>
    <title>Welcome ";

/// Markup from the end of the title up to the heading's hostname.
pub const HEADING_OPEN: &'static str = "</title>
    <!-- Add Bootstrap CSS link -->
    <link rel=\"stylesheet\" href=\"https://cdn.jsdelivr.net/npm/bootstrap@5.3.0/dist/css/bootstrap.min.css\">
</head>
<body>
    <div class=\"container text-center\">
        <h1>Welcome to <span class=\"rainbow\">";

/// Markup from the end of the heading up to the local address.
pub const ADDRESS_OPEN: &'static str = "</span></h1>
        <h2 style=\"margin:5px\">Local IP Address</h2>
        <p>";

/// Markup from the end of the local address up to the first table row.
pub const TABLE_OPEN: &'static str = "</p>
    </div>
    <div>
        <h2 style=\"margin:5px\">Environment Variables</h2>
        <table class=\"table\">
            <thead>
                <tr>
                    <th>Key</th>
                    <th>Value</th>
                </tr>
            </thead>
            <tbody>
";

/// Opens a table row and its name cell.
pub const ROW_OPEN: &'static str = "                <tr><td>";

/// Closes the name cell and opens the value cell.
pub const CELL_BREAK: &'static str = "</td><td>";

/// Closes the value cell and the row.
pub const ROW_CLOSE: &'static str = "</td></tr>
";

/// Markup after the last table row: the table's end and the colour-cycling script.
pub const PAGE_CLOSE: &'static str = "            </tbody>
        </table>
    </div>

    <!-- Add Bootstrap JS scripts -->
    <script src=\"https://cdn.jsdelivr.net/npm/bootstrap@5.3.0/dist/js/bootstrap.bundle.min.js\"></script>
</body>
<script>
    // Rainbow text easing
    var colors = ['#FF0000', '#FF7F00', '#FFFF00', '#00FF00', '#0000FF', '#4B0082', '#9400D3'];
    var i = 0;
    setInterval(function() {
        document.querySelector('.rainbow').style.color = colors[i];
        i = (i + 1) % colors.length;
        document.querySelector('.rainbow').style.transition = 'color 2s';
        document.querySelector('.rainbow').style.transitionTimingFunction = 'ease';
        document.querySelector('.rainbow').style.transitionDuration = '2s';
        document.querySelector('.rainbow').style.transitionDelay = '0s';
    }, 1000);

</script>
</html>
";

/// The value, or the empty text where there is none.
pub open spec fn or_empty(v: Option<Seq<char>>) -> Seq<char> {
    match v {
        Some(s) => s,
        None => Seq::empty(),
    }
}

/// The table row of one variable.
pub open spec fn row_of(e: EntryView) -> Seq<char> {
    ROW_OPEN@ + e.0 + CELL_BREAK@ + e.1 + ROW_CLOSE@
}

/// The table rows of all variables, in the snapshot's order.
pub open spec fn rows_of(s: Seq<EntryView>) -> Seq<char>
    decreases s.len(),
{
    if s.len() == 0 {
        Seq::empty()
    } else {
        rows_of(s.drop_last()) + row_of(s.last())
    }
}

/// Everything of the page before the table rows.
pub open spec fn page_head(s: Seq<EntryView>) -> Seq<char> {
    let host = or_empty(value_of(s, HOSTNAME_KEY@));
    let ip = or_empty(value_of(s, LOCAL_IP_KEY@));
    TITLE_OPEN@ + host + HEADING_OPEN@ + host + ADDRESS_OPEN@ + ip + TABLE_OPEN@
}

/// The page that shows the snapshot `s`.
pub open spec fn page_of(s: Seq<EntryView>) -> Seq<char> {
    page_head(s) + rows_of(s) + PAGE_CLOSE@
}

/// The value of `key` in the snapshot, or an empty string.
fn value_or_empty(snap: &Snapshot, key: &str) -> (r: String)
    requires
        snap.wf(),
    ensures
        r@ == or_empty(value_of(snap@, key@)),
{
    let k = String::from_str(key);
    match snap.get(&k) {
        Some(v) => v.clone(),
        None => String::new(),
    }
}

/// Renders the page that shows the snapshot: hostname in the title and the
/// heading, the local address, and one table row per variable.
pub fn render(snap: &Snapshot) -> (r: String)
    requires
        snap.wf(),
    ensures
        r@ == page_of(snap@),
{
    let host = value_or_empty(snap, HOSTNAME_KEY);
    let ip = value_or_empty(snap, LOCAL_IP_KEY);
    let mut out = String::from_str(TITLE_OPEN);
    out.append(host.as_str());
    out.append(HEADING_OPEN);
    out.append(host.as_str());
    out.append(ADDRESS_OPEN);
    out.append(ip.as_str());
    out.append(TABLE_OPEN);
    let ghost head = out@;
    assert(head == page_head(snap@));
    let n = snap.entries.len();
    let mut i: usize = 0;
    while i < n
        invariant
            n == snap.entries.len(),
            i <= n,
            out@ == head + rows_of(snap@.subrange(0, i as int)),
        decreases n - i,
    {
        let ghost before = out@;
        out.append(ROW_OPEN);
        out.append(snap.entries[i].0.as_str());
        out.append(CELL_BREAK);
        out.append(snap.entries[i].1.as_str());
        out.append(ROW_CLOSE);
        proof {
            let s = snap@.subrange(0, i + 1);
            assert(s.drop_last() =~= snap@.subrange(0, i as int));
            assert(s.last() == snap@[i as int]);
            assert(out@ =~= before + row_of(snap@[i as int]));
            assert(out@ =~= head + rows_of(s));
        }
        i = i + 1;
    }
    assert(snap@.subrange(0, n as int) =~= snap@);
    out.append(PAGE_CLOSE);
    out
}

} // verus!
