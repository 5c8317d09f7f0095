//! The release catalog: what the remote API reports of each published
//! version, and the paging by which the whole catalog is read.

use vstd::prelude::*;
use crate::text::{chars_of, decimal, parse_u32, parsed_u32, push_decimal, push_str, string_of};

verus! {

/// One downloadable file of a release, as the catalog pages list it.
#[derive(Debug)]
pub struct DirectAssetUrl {
    pub direct_asset_url: String,
}

/// The downloadable files attached to a release.
#[derive(Debug)]
pub struct Link {
    pub links: Vec<DirectAssetUrl>,
}

/// One published version of the toolchain.
#[derive(Debug)]
pub struct Release {
    pub tag_name: String,
    pub assets: Link,
}

/// A release as plain values: its tag and the addresses of its files.
pub struct ReleaseView {
    pub tag_name: Seq<char>,
    pub links: Seq<Seq<char>>,
}

impl View for DirectAssetUrl {
    type V = Seq<char>;

    open spec fn view(&self) -> Seq<char> {
        self.direct_asset_url@
    }
}

impl View for Link {
    type V = Seq<Seq<char>>;

    open spec fn view(&self) -> Seq<Seq<char>> {
        Seq::new(self.links@.len(), |i: int| self.links@[i]@)
    }
}

impl View for Release {
    type V = ReleaseView;

    open spec fn view(&self) -> ReleaseView {
        ReleaseView { tag_name: self.tag_name@, links: self.assets@ }
    }
}

/// A list of releases as plain values, in the order of the list.
pub open spec fn catalog(releases: Seq<Release>) -> Seq<ReleaseView> {
    Seq::new(releases.len(), |i: int| releases[i]@)
}

/// The address of the release catalog.
pub const GITLAB_URL: &'static str = "https://gitlab.com/api/v4/projects/18695663/releases";

/// How many releases one catalog page holds at most.
pub const PER_PAGE: u32 = 100;

/// The address of page `page` of the catalog, `per_page` releases a page.
pub open spec fn page_address(page: nat, per_page: nat) -> Seq<char> {
    GITLAB_URL@ + "?page="@ + decimal(page) + "&per_page="@ + decimal(per_page)
}

/// The address of page `page` of the catalog, `per_page` releases a page.
pub fn page_url(page: u32, per_page: u32) -> (url: String)
    ensures
        url@ == page_address(page as nat, per_page as nat),
{
    let mut out: Vec<char> = Vec::new();
    push_str(&mut out, GITLAB_URL);
    push_str(&mut out, "?page=");
    push_decimal(&mut out, page as u64);
    push_str(&mut out, "&per_page=");
    push_decimal(&mut out, per_page as u64);
    assert(out@ =~= page_address(page as nat, per_page as nat));
    string_of(&out)
}

/// The number of releases that the header `x-total` of a page states.
pub fn parse_total(header: &str) -> (total: Option<u32>)
    ensures
        total == parsed_u32(header@),
{
    parse_u32(&chars_of(header))
}

/// Why the catalog could not be read to its end.
#[derive(Clone, Copy, Debug, PartialEq, Eq, Structural)]
pub enum CatalogError {
    /// A page could not be fetched, or what came was no list of releases.
    Page,
    /// A page came without the header that states the total, or the header
    /// states no number.
    Total,
}

/// What the reader of the catalog does next.
#[derive(Debug)]
pub enum PageStep {
    /// The next release of the catalog.
    Yield { release: Release },
    /// The given page has to be requested, and handed over with
    /// `page_received`.
    Fetch { page: u32, per_page: u32 },
    /// The catalog has been read to its end.
    End,
}

/// A reader of the whole catalog, page by page: the releases of the current
/// page not yet handed out, the number of the last page requested, and the
/// total that the last page stated.
pub struct LilypondReleases {
    releases: Vec<Release>,
    page: u32,
    per_page: u32,
    total: u32,
}

impl LilypondReleases {
    /// The releases of the current page not yet handed out.
    pub closed spec fn pending(&self) -> Seq<ReleaseView> {
        catalog(self.releases@)
    }

    /// The number of the last page requested; 0 before the first request.
    pub closed spec fn page(&self) -> nat {
        self.page as nat
    }

    /// How many releases are asked for with each page.
    pub closed spec fn per_page(&self) -> nat {
        self.per_page as nat
    }

    /// The number of releases in the catalog, as the last page stated it.
    pub closed spec fn total(&self) -> nat {
        self.total as nat
    }

    /// A page holds at least one release.
    pub closed spec fn wf(&self) -> bool {
        self.per_page >= 1
    }

    /// The pages requested so far cover the whole catalog.
    pub open spec fn exhausted(&self) -> bool {
        self.page() > 0 && self.page() * self.per_page() >= self.total()
    }

    /// A reader that has requested nothing yet.
    pub fn get() -> (reader: Self)
        ensures
            reader.wf(),
            reader.pending() == Seq::<ReleaseView>::empty(),
            reader.page() == 0,
            reader.per_page() == 100,
            reader.total() == 0,
    {
        let reader = LilypondReleases {
            releases: Vec::new(),
            page: 0,
            per_page: PER_PAGE,
            total: 0,
        };
        assert(reader.pending() =~= Seq::<ReleaseView>::empty());
        reader
    }

    /// The next step of reading the catalog: a release of the current page
    /// while one is left; then the end, once the pages requested cover the
    /// total; otherwise the request for the next page.
    pub fn try_next(&mut self) -> (step: PageStep)
        requires
            old(self).wf(),
        ensures
            final(self).wf(),
            final(self).per_page() == old(self).per_page(),
            final(self).total() == old(self).total(),
            old(self).pending().len() > 0 ==> (step matches PageStep::Yield { release }
                && release@ == old(self).pending()[0]),
            old(self).pending().len() > 0 ==> final(self).pending() == old(self).pending().skip(1)
                && final(self).page() == old(self).page(),
            old(self).pending().len() == 0 && old(self).exhausted() ==> step is End,
            old(self).pending().len() == 0 && !old(self).exhausted() ==> (step matches
            PageStep::Fetch { page, per_page } && page == old(self).page() + 1 && per_page == old(
                self).per_page()),
            old(self).pending().len() == 0 ==> final(self).pending() == old(self).pending(),
            old(self).pending().len() == 0 ==> final(self).page() == (if old(self).exhausted() {
                old(self).page()
            } else {
                old(self).page() + 1
            }),
    {
        if self.releases.len() > 0 {
            let release = self.releases.remove(0);
            assert(catalog(self.releases@) =~= catalog(old(self).releases@).skip(1));
            return PageStep::Yield { release };
        }
        assert(self.page * self.per_page <= 0xffff_ffff * 0xffff_ffff) by (nonlinear_arith)
            requires
                0 <= self.page <= 0xffff_ffff,
                0 <= self.per_page <= 0xffff_ffff,
        ;
        if self.page > 0 && (self.page as u64) * (self.per_page as u64) >= self.total as u64 {
            return PageStep::End;
        }
        assert(self.page < u32::MAX) by (nonlinear_arith)
            requires
                self.per_page >= 1,
                !(self.page > 0 && self.page * self.per_page >= self.total),
                self.total <= u32::MAX,
                self.page <= u32::MAX,
        {
            if self.page == u32::MAX {
                assert(self.page * self.per_page >= self.page);
            }
        }
        self.page = self.page + 1;
        PageStep::Fetch { page: self.page, per_page: self.per_page }
    }

    /// Takes the page that was requested: its releases and the total it
    /// stated. Hands out the first release of the page; `None` where the page
    /// is empty, which ends the catalog.
    pub fn page_received(&mut self, total: u32, releases: Vec<Release>) -> (first: Option<Release>)
        requires
            old(self).wf(),
        ensures
            final(self).wf(),
            final(self).per_page() == old(self).per_page(),
            final(self).page() == old(self).page(),
            final(self).total() == total,
            releases@.len() == 0 ==> first is None && final(self).pending().len() == 0,
            releases@.len() > 0 ==> first is Some && first->Some_0@ == releases@[0]@,
            releases@.len() > 0 ==> final(self).pending() == catalog(releases@).skip(1),
    {
        self.total = total;
        self.releases = releases;
        if self.releases.len() > 0 {
            let release = self.releases.remove(0);
            assert(catalog(self.releases@) =~= catalog(releases@).skip(1));
            Some(release)
        } else {
            None
        }
    }

    /// Takes the answer to the request for a page: the header that states
    /// the total, if the answer had one, and the releases, if the answer
    /// could be read. An answer without releases or without a total ends
    /// the reading with an error, and leaves the reader as it is; any other
    /// answer is taken as `page_received` takes it.
    pub fn page_answered(&mut self, total_header: &Option<String>, releases: Option<Vec<Release>>)
        -> (first: Result<Option<Release>, CatalogError>)
        requires
            old(self).wf(),
        ensures
            final(self).wf(),
            final(self).per_page() == old(self).per_page(),
            final(self).page() == old(self).page(),
            match answered_total(*total_header) {
                None => first == Err::<Option<Release>, CatalogError>(CatalogError::Total)
                    && final(self).total() == old(self).total() && final(self).pending() == old(
                    self).pending(),
                Some(total) => match releases {
                    None => first == Err::<Option<Release>, CatalogError>(CatalogError::Page)
                        && final(self).total() == old(self).total() && final(self).pending()
                        == old(self).pending(),
                    Some(page) => first is Ok && final(self).total() == total && (if page@.len()
                        == 0 {
                        first->Ok_0 is None && final(self).pending().len() == 0
                    } else {
                        first->Ok_0 is Some && first->Ok_0->Some_0@ == page@[0]@ && final(
                            self).pending() == catalog(page@).skip(1)
                    }),
                },
            },
    {
        let total = match total_header {
            Some(header) => match parse_total(header.as_str()) {
                Some(total) => total,
                None => {
                    return Err(CatalogError::Total);
                },
            },
            None => {
                return Err(CatalogError::Total);
            },
        };
        match releases {
            Some(page) => Ok(self.page_received(total, page)),
            None => Err(CatalogError::Page),
        }
    }
}

/// The total that the header of an answer states, if there is a header and
/// it states a number.
pub open spec fn answered_total(total_header: Option<String>) -> Option<u32> {
    match total_header {
        Some(header) => parsed_u32(header@),
        None => None,
    }
}

} // verus!
