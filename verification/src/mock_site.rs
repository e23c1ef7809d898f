use vstd::prelude::*;
use vstd::string::StringExecFns;
use crate::text::{decimal, u64_text};

verus! {

/// The start of a page, up to its title's number.
pub const PAGE_START: &'static str = "<!DOCTYPE html>\n<html>\n<head>\n    <title>Mock Page ";

/// From the title's number to the heading's number.
pub const PAGE_AFTER_TITLE: &'static str = "</title>\n    <meta name=\"description\" content=\"This is a mock page for benchmarking scrapy and scrapy-rs\">\n</head>\n<body>\n    <h1>Mock Page ";

/// From the heading's number to the page number in the text.
pub const PAGE_AFTER_HEADING: &'static str = "</h1>\n    <p>This is a generated page for benchmarking scrapy and scrapy-rs.</p>\n    <p>Current page ID: ";

/// From the page number to the page count.
pub const PAGE_AFTER_ID: &'static str = "</p>\n    <p>Total pages: ";

/// From the page count to the list of links.
pub const PAGE_BEFORE_LINKS: &'static str = "</p>\n    <h2>Links</h2>\n    <ul>\n";

/// The end of a page, after the list of links.
pub const PAGE_END: &'static str = "    </ul>\n    <div class=\"content\">\n        <p>Lorem ipsum dolor sit amet, consectetur adipiscing elit. Sed do eiusmod tempor incididunt \n        ut labore et dolore magna aliqua. Ut enim ad minim veniam, quis nostrud exercitation ullamco \n        laboris nisi ut aliquip ex ea commodo consequat.</p>\n    </div>\n</body>\n</html>";

/// The start of a link's list entry, up to the target's number.
pub const LINK_START: &'static str = "        <li><a href=\"/";

/// From the target's number in the address to its number in the text.
pub const LINK_MIDDLE: &'static str = "\">Link to Page ";

/// The end of a link's list entry.
pub const LINK_END: &'static str = "</a></li>\n";

/// The robots file of a site that refuses some pages.
pub const ROBOTS_WITH_FAILURES: &'static str = "User-agent: *\nDisallow: /5\nDisallow: /10\nDisallow: /15";

/// The robots file of a site that allows every page.
pub const ROBOTS_ALLOW_ALL: &'static str = "User-agent: *\nAllow: /";

/// The page the `i`-th link of page `id` leads to: the pages after it in turn, wrapping round
/// the site.
pub open spec fn link_target(id: nat, i: nat, page_count: nat) -> nat {
    (id + i + 1) % page_count
}

/// Every link of a page of a site leads to a page of that site, and, on a site of more pages
/// than a page has links, never back to the page itself.
pub proof fn law_links_stay_on_site(id: nat, i: nat, page_count: nat)
    requires
        page_count > 0,
        id < page_count,
        i + 1 < page_count,
    ensures
        link_target(id, i, page_count) < page_count,
        link_target(id, i, page_count) != id,
{
    let t = id + i + 1;
    if t < page_count {
        assert(t % page_count == t) by (nonlinear_arith)
            requires
                t < page_count,
        ;
    } else {
        assert(t - page_count < page_count);
        assert(t % page_count == t - page_count) by (nonlinear_arith)
            requires
                page_count <= t < 2 * page_count,
        ;
    }
}

/// The list entry of a link to page `target`.
pub open spec fn link_line(target: nat) -> Seq<char> {
    LINK_START@ + decimal(target) + LINK_MIDDLE@ + decimal(target) + LINK_END@
}

/// The list entries of the first `n` links of page `id`.
pub open spec fn link_lines(id: nat, page_count: nat, n: nat) -> Seq<char>
    decreases n,
{
    if n == 0 {
        Seq::empty()
    } else {
        link_lines(id, page_count, (n - 1) as nat) + link_line(link_target(id, (n - 1) as nat, page_count))
    }
}

/// The part of page `id` before its links.
pub open spec fn page_head(id: nat, page_count: nat) -> Seq<char> {
    PAGE_START@ + decimal(id) + PAGE_AFTER_TITLE@ + decimal(id) + PAGE_AFTER_HEADING@ + decimal(id)
        + PAGE_AFTER_ID@ + decimal(page_count) + PAGE_BEFORE_LINKS@
}

/// Page `id` of a site of `page_count` pages with `links_per_page` links on each.
pub open spec fn page_html(id: nat, page_count: nat, links_per_page: nat) -> Seq<char> {
    page_head(id, page_count) + link_lines(id, page_count, links_per_page) + PAGE_END@
}

/// The pages that the links of page `id` lead to, in order.
pub fn page_link_targets(id: usize, page_count: usize, links_per_page: usize) -> (r: Vec<usize>)
    requires
        links_per_page > 0 ==> page_count > 0,
        id + links_per_page <= usize::MAX,
    ensures
        r@.len() == links_per_page,
        forall|i: int| 0 <= i < links_per_page ==> #[trigger] r@[i] == link_target(id as nat, i as nat, page_count as nat),
{
    let mut targets: Vec<usize> = Vec::new();
    let mut i: usize = 0;
    while i < links_per_page
        invariant
            i <= links_per_page,
            links_per_page > 0 ==> page_count > 0,
            id + links_per_page <= usize::MAX,
            targets@.len() == i,
            forall|j: int| 0 <= j < i ==> #[trigger] targets@[j] == link_target(id as nat, j as nat, page_count as nat),
        decreases links_per_page - i,
    {
        targets.push((id + i + 1) % page_count);
        i = i + 1;
    }
    targets
}

/// The list entry of a link to page `target`.
fn link_line_text(target: usize) -> (r: String)
    ensures
        r@ == link_line(target as nat),
{
    let n = u64_text(target as u64);
    let mut line = LINK_START.to_owned();
    line.append(n.as_str());
    line.append(LINK_MIDDLE);
    line.append(n.as_str());
    line.append(LINK_END);
    line
}

/// The page `id` of the mock site: a title and heading with its number, the page count, a
/// list of links to the pages after it in turn (wrapping round the site), and filler text.
pub fn generate_page_html(id: usize, page_count: usize, links_per_page: usize) -> (r: String)
    requires
        links_per_page > 0 ==> page_count > 0,
        id + links_per_page <= usize::MAX,
    ensures
        r@ == page_html(id as nat, page_count as nat, links_per_page as nat),
{
    let id_text = u64_text(id as u64);
    let mut html = PAGE_START.to_owned();
    html.append(id_text.as_str());
    html.append(PAGE_AFTER_TITLE);
    html.append(id_text.as_str());
    html.append(PAGE_AFTER_HEADING);
    html.append(id_text.as_str());
    html.append(PAGE_AFTER_ID);
    html.append(u64_text(page_count as u64).as_str());
    html.append(PAGE_BEFORE_LINKS);
    let ghost head = html@;
    assert(head == page_head(id as nat, page_count as nat));
    let targets = page_link_targets(id, page_count, links_per_page);
    let mut i: usize = 0;
    while i < links_per_page
        invariant
            i <= links_per_page,
            targets@.len() == links_per_page,
            forall|j: int| 0 <= j < links_per_page ==> #[trigger] targets@[j] == link_target(id as nat, j as nat, page_count as nat),
            head == page_head(id as nat, page_count as nat),
            html@ == head + link_lines(id as nat, page_count as nat, i as nat),
        decreases links_per_page - i,
    {
        let line = link_line_text(targets[i]);
        html.append(line.as_str());
        proof {
            assert(html@ =~= head + link_lines(id as nat, page_count as nat, (i + 1) as nat));
        }
        i = i + 1;
    }
    html.append(PAGE_END);
    html
}

/// The robots file of the mock site: some pages refused where failures are simulated, every
/// page allowed otherwise.
pub fn robots_txt(simulate_failures: bool) -> (r: &'static str)
    ensures
        r@ == (if simulate_failures { ROBOTS_WITH_FAILURES@ } else { ROBOTS_ALLOW_ALL@ }),
{
    if simulate_failures {
        ROBOTS_WITH_FAILURES
    } else {
        ROBOTS_ALLOW_ALL
    }
}

} // verus!
