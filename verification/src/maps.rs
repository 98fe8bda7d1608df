//! Map-document (SVG) records: how a saved document is shaped from a
//! request, how stored rows are presented, and the page arithmetic of the
//! listing route.

use vstd::prelude::*;

verus! {

/// The request-scoped shape of one stored document.
#[derive(Debug)]
pub struct SvgInfo {
    pub prefix: String,
    pub name: String,
    pub id: String,
}

/// Body of the save route.
#[derive(Debug)]
pub struct SvgRequest {
    pub name: String,
    pub content: String,
}

/// A stored document row; instants are seconds since the epoch.
#[derive(Debug)]
pub struct SvgItem {
    pub id: String,
    pub name: String,
    pub prefix: String,
    pub content: String,
    pub created_at: u64,
    pub updated_at: u64,
}

/// A document row as handed to the store for insertion.
#[derive(Debug)]
pub struct NewSvgItem {
    pub id: String,
    pub name: String,
    pub prefix: String,
    pub content: String,
}

/// One page of a listing.
#[derive(Debug)]
pub struct PaginatedResponse<T> {
    pub items: Vec<T>,
    pub total_items: i64,
    pub per_page: i64,
    pub current_page: i64,
    pub total_pages: i64,
}

/// The text up to, and without, its first dash; the whole text when it has
/// none.
pub open spec fn prefix_before_dash(s: Seq<char>) -> Seq<char>
    decreases s.len(),
{
    if s.len() == 0 {
        Seq::empty()
    } else if s[0] == '-' {
        Seq::empty()
    } else {
        seq![s[0]] + prefix_before_dash(s.skip(1))
    }
}

proof fn lemma_prefix_before_dash(s: Seq<char>, k: int)
    requires
        0 <= k <= s.len(),
        forall|j: int| 0 <= j < k ==> (#[trigger] s[j]) != '-',
        k == s.len() || s[k] == '-',
    ensures
        prefix_before_dash(s) == s.take(k),
    decreases k,
{
    if s.len() == 0 {
        assert(s.take(k) =~= s);
    } else if s[0] == '-' {
        assert(k == 0);
        assert(s.take(0) =~= Seq::<char>::empty());
    } else {
        assert(k >= 1);
        lemma_prefix_before_dash(s.skip(1), k - 1);
        assert(s.skip(1).take(k - 1) =~= s.take(k).skip(1));
        assert(seq![s[0]] + s.take(k).skip(1) =~= s.take(k));
    }
}

/// The name's segment before its first dash — the document's grouping
/// prefix.
pub fn prefix_of(name: &str) -> (r: String)
    ensures
        r@ == prefix_before_dash(name@),
{
    let n = name.unicode_len();
    let mut k: usize = 0;
    while k < n && name.get_char(k) != '-'
        invariant
            n == name@.len(),
            0 <= k <= n,
            forall|j: int| 0 <= j < k ==> (#[trigger] name@[j]) != '-',
        decreases n - k,
    {
        k = k + 1;
    }
    let piece = name.substring_char(0, k);
    proof {
        lemma_prefix_before_dash(name@, k as int);
        assert(piece@ =~= name@.take(k as int));
    }
    String::from_str(piece)
}

/// Relies on `uuid::Uuid::new_v4` and its hyphenated `Display` form: the
/// value is random, so nothing is assumed of it beyond its fixed written
/// length of 36 characters.
#[verifier::external_body]
fn new_uuid_string() -> (r: String)
    ensures
        r@.len() == 36,
{
    uuid::Uuid::new_v4().to_string()
}

impl NewSvgItem {
    /// A fresh row under a newly drawn identifier.
    pub fn new(name: String, prefix: String, content: String) -> (r: Self)
        ensures
            r.id@.len() == 36,
            r.name == name,
            r.prefix == prefix,
            r.content == content,
    {
        NewSvgItem { id: new_uuid_string(), name, prefix, content }
    }
}

/// The row a save request inserts: a fresh identifier, the request's name
/// and content, and the name's grouping prefix.
pub fn new_svg_item_from_request(data: SvgRequest) -> (r: NewSvgItem)
    ensures
        r.id@.len() == 36,
        r.name@ == data.name@,
        r.prefix@ == prefix_before_dash(data.name@),
        r.content@ == data.content@,
{
    let prefix = prefix_of(data.name.as_str());
    NewSvgItem::new(data.name, prefix, data.content)
}

/// The request-scoped presentation of a stored row.
pub fn svg_info_of(item: &SvgItem) -> (r: SvgInfo)
    ensures
        r.prefix@ == item.prefix@,
        r.name@ == item.name@,
        r.id@ == item.id@,
{
    SvgInfo { prefix: item.prefix.clone(), name: item.name.clone(), id: item.id.clone() }
}

/// The listing page window: the offset of the first row shown and the page
/// count, rounded up.
pub fn paginate(total_items: i64, page_num: i64, items_per_page: i64) -> (r: (i64, i64))
    requires
        total_items >= 0,
        items_per_page >= 1,
        page_num >= 1,
        total_items + items_per_page - 1 <= i64::MAX,
        (page_num - 1) * items_per_page <= i64::MAX,
    ensures
        r.0 == (page_num - 1) * items_per_page,
        r.1 == (total_items + items_per_page - 1) / (items_per_page as int),
{
    let offset = (page_num - 1) * items_per_page;
    let total_pages = (total_items + (items_per_page - 1)) / items_per_page;
    (offset, total_pages)
}

/// One stored page presented for the route's answer: every row shaped as
/// [`SvgInfo`], the window numbers kept.
pub fn map_svg_page(response: PaginatedResponse<SvgItem>) -> (r: PaginatedResponse<SvgInfo>)
    ensures
        r.items@.len() == response.items@.len(),
        forall|i: int|
            0 <= i < response.items@.len() ==> {
                &&& (#[trigger] r.items@[i]).prefix@ == response.items@[i].prefix@
                &&& r.items@[i].name@ == response.items@[i].name@
                &&& r.items@[i].id@ == response.items@[i].id@
            },
        r.total_items == response.total_items,
        r.per_page == response.per_page,
        r.current_page == response.current_page,
        r.total_pages == response.total_pages,
{
    let n = response.items.len();
    let mut out: Vec<SvgInfo> = Vec::new();
    let mut i: usize = 0;
    while i < n
        invariant
            n == response.items@.len(),
            0 <= i <= n,
            out@.len() == i,
            forall|j: int|
                0 <= j < i ==> {
                    &&& (#[trigger] out@[j]).prefix@ == response.items@[j].prefix@
                    &&& out@[j].name@ == response.items@[j].name@
                    &&& out@[j].id@ == response.items@[j].id@
                },
        decreases n - i,
    {
        out.push(svg_info_of(&response.items[i]));
        i = i + 1;
    }
    PaginatedResponse {
        items: out,
        total_items: response.total_items,
        per_page: response.per_page,
        current_page: response.current_page,
        total_pages: response.total_pages,
    }
}

/// What deleting a document answers, given whether the store removed a row.
pub fn delete_svg_outcome(deleted: bool) -> (r: Result<(), String>)
    ensures
        deleted ==> r is Ok,
        !deleted ==> (r matches Err(m) && m@ == "SVG no encontrado"@),
{
    if deleted {
        Ok(())
    } else {
        Err(String::from_str("SVG no encontrado"))
    }
}

} // verus!
