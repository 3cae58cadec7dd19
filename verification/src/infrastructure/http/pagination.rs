//! Paging through the conference history.
//!
//! The history endpoint is read page by page: page `k` is asked for with
//! `skip = k * page_size` and `top = page_size`. Reading stops after
//! `max_pages` pages, after an empty page, or after a page shorter than
//! `page_size`. `HistoryPager` makes these decisions; the caller performs the
//! requests and hands each decoded page back.
use vstd::prelude::*;

use crate::domain::history::{ConferenceHistoryRecord, ConferenceHistoryRecordView};
use crate::infrastructure::http::dto::RawConferenceHistoryRecord;
use crate::infrastructure::parsing::history_mapper::{history_record_of, map_history_record};
use crate::text::{chars_of, decimal, decimal_chars, string_from_chars, trim_end_char, trim_end_char_chars};

verus! {

/// The records of one page, mapped.
pub open spec fn mapped_page(
    raws: Seq<RawConferenceHistoryRecord>,
    base_url: Seq<char>,
) -> Seq<ConferenceHistoryRecordView> {
    raws.map_values(|r: RawConferenceHistoryRecord| history_record_of(r, base_url))
}

/// The request for one page.
#[derive(Debug, Clone, Copy, PartialEq, Eq)]
pub struct PageRequest {
    pub skip: usize,
    pub top: usize,
}

/// What a pager wants next.
#[derive(Debug, Clone, Copy, PartialEq, Eq)]
pub enum PageStep {
    /// Ask for this page.
    Fetch(PageRequest),
    /// Reading is over.
    Finished,
    /// The next page's offset does not fit in a `usize`.
    OffsetOverflow,
}

/// The model of a pager.
pub struct HistoryPagerView {
    pub base_url: Seq<char>,
    pub max_pages: nat,
    pub page_size: nat,
    pub next_page: nat,
    pub finished: bool,
    pub records: Seq<ConferenceHistoryRecordView>,
}

impl HistoryPagerView {
    /// Whether the pager still wants a page.
    pub open spec fn wants_page(self) -> bool {
        !self.finished && self.next_page < self.max_pages
    }

    /// Whether the offset of the next page fits in a `usize`.
    pub open spec fn offset_fits(self) -> bool {
        self.next_page * self.page_size <= usize::MAX
    }

    /// The pager after it received `raws` as its next page.
    pub open spec fn after_page(self, raws: Seq<RawConferenceHistoryRecord>) -> HistoryPagerView {
        HistoryPagerView {
            next_page: self.next_page + 1,
            finished: raws.len() == 0 || raws.len() < self.page_size,
            records: self.records + mapped_page(raws, self.base_url),
            ..self
        }
    }
}

/// The state of a history read.
pub struct HistoryPager {
    base_url: String,
    max_pages: usize,
    page_size: usize,
    next_page: usize,
    finished: bool,
    records: Vec<ConferenceHistoryRecord>,
}

impl View for HistoryPager {
    type V = HistoryPagerView;

    closed spec fn view(&self) -> HistoryPagerView {
        HistoryPagerView {
            base_url: self.base_url@,
            max_pages: self.max_pages as nat,
            page_size: self.page_size as nat,
            next_page: self.next_page as nat,
            finished: self.finished,
            records: self.records.deep_view(),
        }
    }
}

/// The address of the history endpoint under `base_url`.
pub open spec fn history_url(base_url: Seq<char>) -> Seq<char> {
    base_url + "/api/conferenceshistory"@
}

/// `base_url` without its trailing slashes, as the HTTP client keeps it.
pub fn normalize_base_url(base_url: &str) -> (r: String)
    ensures
        r@ == trim_end_char(base_url@, '/'),
{
    let c = chars_of(base_url);
    let t = trim_end_char_chars(&c, '/');
    string_from_chars(t.as_slice())
}

impl HistoryPager {
    /// A pager that reads at most `max_pages` pages of `page_size` records;
    /// recording addresses are built under `base_url`.
    pub fn new(base_url: &str, max_pages: usize, page_size: usize) -> (p: HistoryPager)
        ensures
            p@ == (HistoryPagerView {
                base_url: base_url@,
                max_pages: max_pages as nat,
                page_size: page_size as nat,
                next_page: 0,
                finished: false,
                records: Seq::empty(),
            }),
    {
        let p = HistoryPager {
            base_url: base_url.to_owned(),
            max_pages,
            page_size,
            next_page: 0,
            finished: false,
            records: Vec::new(),
        };
        assert(p.records.deep_view() =~= Seq::<ConferenceHistoryRecordView>::empty());
        p
    }

    /// What to do next: ask for page `next_page` at offset
    /// `next_page * page_size`, stop, or report that this offset overflows.
    pub fn next_request(&self) -> (r: PageStep)
        ensures
            match r {
                PageStep::Finished => !self@.wants_page(),
                PageStep::OffsetOverflow => self@.wants_page() && !self@.offset_fits(),
                PageStep::Fetch(req) => self@.wants_page() && self@.offset_fits() && req.skip
                    == self@.next_page * self@.page_size && req.top == self@.page_size,
            },
    {
        if self.finished || self.next_page >= self.max_pages {
            return PageStep::Finished;
        }
        match self.next_page.checked_mul(self.page_size) {
            Some(skip) => PageStep::Fetch(PageRequest { skip, top: self.page_size }),
            None => PageStep::OffsetOverflow,
        }
    }

    /// The address of the history endpoint.
    pub fn url(&self) -> (u: String)
        ensures
            u@ == history_url(self@.base_url),
    {
        self.base_url.clone().concat("/api/conferenceshistory")
    }

    /// The query parameters of `req`: `skip`, `top` and `includeUnfinished`.
    pub fn query(req: PageRequest) -> (q: Vec<(String, String)>)
        ensures
            q@.len() == 3,
            q@[0].0@ == "skip"@ && q@[0].1@ == decimal(req.skip as nat),
            q@[1].0@ == "top"@ && q@[1].1@ == decimal(req.top as nat),
            q@[2].0@ == "includeUnfinished"@ && q@[2].1@ == "true"@,
    {
        let mut q: Vec<(String, String)> = Vec::new();
        let skip = decimal_chars(req.skip);
        let top = decimal_chars(req.top);
        q.push(("skip".to_owned(), string_from_chars(skip.as_slice())));
        q.push(("top".to_owned(), string_from_chars(top.as_slice())));
        q.push(("includeUnfinished".to_owned(), "true".to_owned()));
        q
    }

    /// Takes the decoded records of the page that `next_request` asked for.
    pub fn accept_page(&mut self, page: Vec<RawConferenceHistoryRecord>)
        requires
            old(self)@.wants_page(),
        ensures
            final(self)@ == old(self)@.after_page(page@),
    {
        let ghost start = self.records.deep_view();
        let ghost raws = page@;
        let ghost before = *self;
        let n = page.len();
        let mut page = page;
        let mut i: usize = 0;
        while page.len() > 0
            invariant
                i + page.len() == n,
                n == raws.len(),
                page@ == raws.skip(i as int),
                self.records.deep_view() == start + mapped_page(raws.take(i as int), self.base_url@),
                self.base_url == before.base_url,
                self.max_pages == before.max_pages,
                self.page_size == before.page_size,
                self.next_page == before.next_page,
                self.finished == before.finished,
                self.next_page < self.max_pages,
            decreases page.len(),
        {
            let raw = page.remove(0);
            let rec = map_history_record(raw, self.base_url.as_str());
            let ghost prev = self.records.deep_view();
            let ghost rv = rec.deep_view();
            self.records.push(rec);
            proof {
                assert(self.records.deep_view() =~= prev.push(rv));
                assert(raws.take(i + 1) =~= raws.take(i as int).push(raws[i as int]));
                assert(mapped_page(raws.take(i + 1), self.base_url@) =~= mapped_page(
                    raws.take(i as int),
                    self.base_url@,
                ).push(history_record_of(raws[i as int], self.base_url@)));
                assert(page@ =~= raws.skip(i + 1));
            }
            i = i + 1;
        }
        assert(raws.take(n as int) =~= raws);
        self.finished = n == 0 || n < self.page_size;
        self.next_page = self.next_page + 1;
    }

    /// The records read so far.
    pub fn records(&self) -> (r: &Vec<ConferenceHistoryRecord>)
        ensures
            r.deep_view() == self@.records,
    {
        &self.records
    }

    /// Ends the read and hands over its records.
    pub fn into_records(self) -> (r: Vec<ConferenceHistoryRecord>)
        ensures
            r.deep_view() == self@.records,
    {
        self.records
    }
}

/// The pager after it was handed `pages` one by one, for as long as it
/// asked for pages (it wanted one and its offset fitted).
pub open spec fn feed(v: HistoryPagerView, pages: Seq<Seq<RawConferenceHistoryRecord>>) -> HistoryPagerView
    decreases pages.len(),
{
    if pages.len() == 0 || !v.wants_page() || !v.offset_fits() {
        v
    } else {
        feed(v.after_page(pages[0]), pages.drop_first())
    }
}

/// The mapped records of `pages`, page after page.
pub open spec fn all_mapped(
    pages: Seq<Seq<RawConferenceHistoryRecord>>,
    base_url: Seq<char>,
) -> Seq<ConferenceHistoryRecordView>
    decreases pages.len(),
{
    if pages.len() == 0 {
        Seq::empty()
    } else {
        mapped_page(pages[0], base_url) + all_mapped(pages.drop_first(), base_url)
    }
}

/// Law: whatever pages come, a read asks for at most `max_pages` pages, uses
/// the pages in the order they came, and its records are the mapped records
/// of the pages it took, in order. When it stops before the pages run out,
/// either it wants no more pages (the page limit was reached, or a page was
/// empty or short) or the offset of the next page overflows. Any page limit
/// and page size are allowed.
pub proof fn law_history_read(v: HistoryPagerView, pages: Seq<Seq<RawConferenceHistoryRecord>>)
    requires
        v.next_page <= v.max_pages,
    ensures
        ({
            let r = feed(v, pages);
            let taken = r.next_page - v.next_page;
            &&& v.next_page <= r.next_page <= r.max_pages
            &&& taken <= pages.len()
            &&& r.max_pages == v.max_pages && r.page_size == v.page_size && r.base_url == v.base_url
            &&& r.records == v.records + all_mapped(pages.take(taken), v.base_url)
            &&& taken < pages.len() ==> !r.wants_page() || !r.offset_fits()
        }),
    decreases pages.len(),
{
    if pages.len() == 0 || !v.wants_page() || !v.offset_fits() {
        assert(pages.take(0) =~= Seq::<Seq<RawConferenceHistoryRecord>>::empty());
        assert(v.records + Seq::<ConferenceHistoryRecordView>::empty() =~= v.records);
    } else {
        let w = v.after_page(pages[0]);
        let rest = pages.drop_first();
        law_history_read(w, rest);
        let r = feed(w, rest);
        let n = r.next_page - w.next_page;
        assert(pages.take(n + 1)[0] == pages[0]);
        assert(pages.take(n + 1).drop_first() =~= rest.take(n));
        assert(all_mapped(pages.take(n + 1), v.base_url) == mapped_page(pages[0], v.base_url)
            + all_mapped(rest.take(n), v.base_url));
        assert(r.records =~= v.records + all_mapped(pages.take(n + 1), v.base_url));
    }
}

/// Law: once a page comes back empty or shorter than `page_size`, nothing
/// more is asked for.
pub proof fn law_history_stop(v: HistoryPagerView, raws: Seq<RawConferenceHistoryRecord>)
    requires
        v.wants_page(),
        raws.len() == 0 || raws.len() < v.page_size,
    ensures
        !v.after_page(raws).wants_page(),
        v.after_page(raws).next_page == v.next_page + 1,
{
}

} // verus!
