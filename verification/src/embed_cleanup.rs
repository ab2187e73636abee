//! The decisions of the stale embed origin cleanup: for each embed origin,
//! what its page check says is done with the row (title update, deletion,
//! nothing), and the tallies that the run's summary reports; and the page
//! title that seeding stores for an origin.
use vstd::prelude::*;
use crate::hart_pdf::opt_group;
use crate::pattern::{captures, regex_captures};
use crate::text::{chars_eq, chars_of, opt_view, string_of, trim, trim_exec};

verus! {

/// What checking an embed origin's page gave.
pub enum CheckResult {
    /// The embed is on the page; the page's title, if it has one.
    Valid(Option<String>),
    /// The page was not found.
    NotFound,
    /// The page is there but the embed is not.
    EmbedNotPresent,
}

/// What is done with an embed origin row.
pub enum OriginAction {
    Keep,
    /// Set the row's page title to this one.
    UpdateTitle(Option<String>),
    Delete,
}

/// The counts and URLs of a cleanup run.
pub struct CleanupTally {
    pub valid_count: usize,
    pub invalid_count: usize,
    pub not_found_count: usize,
    pub error_count: usize,
    pub title_updated_count: usize,
    /// URLs whose page no longer holds the embed.
    pub deleted_urls: Vec<String>,
    /// URLs whose page was not found.
    pub not_found_urls: Vec<String>,
}

/// A title is updated when the page has one that differs from the stored one.
pub open spec fn title_changed(new_title: Option<Seq<char>>, old_title: Option<Seq<char>>) -> bool {
    match (new_title, old_title) {
        (Some(n), Some(o)) => n != o,
        (Some(_), None) => true,
        (None, _) => false,
    }
}

/// Whether the stored page title is to be replaced by the page's title.
pub fn should_update_title(new_title: &Option<String>, old_title: &Option<String>) -> (r: bool)
    ensures
        r == title_changed(opt_view(*new_title), opt_view(*old_title)),
{
    match (new_title, old_title) {
        (Some(n), Some(o)) => !chars_eq(&chars_of(n.as_str()), &chars_of(o.as_str())),
        (Some(_), None) => true,
        (None, _) => false,
    }
}

/// Each counter is below its limit, so that one more can be counted.
pub open spec fn tally_has_room(t: CleanupTally) -> bool {
    &&& t.valid_count < usize::MAX
    &&& t.invalid_count < usize::MAX
    &&& t.not_found_count < usize::MAX
    &&& t.error_count < usize::MAX
    &&& t.title_updated_count < usize::MAX
}

impl CleanupTally {
    /// A tally with nothing counted.
    pub fn new() -> (r: CleanupTally)
        ensures
            r.valid_count == 0,
            r.invalid_count == 0,
            r.not_found_count == 0,
            r.error_count == 0,
            r.title_updated_count == 0,
            r.deleted_urls@.len() == 0,
            r.not_found_urls@.len() == 0,
    {
        CleanupTally {
            valid_count: 0,
            invalid_count: 0,
            not_found_count: 0,
            error_count: 0,
            title_updated_count: 0,
            deleted_urls: Vec::new(),
            not_found_urls: Vec::new(),
        }
    }

    /// Counts the check of the origin at `url` (whose stored title is
    /// `old_title`) and says what to do with its row: a present embed whose
    /// page title changed gets the new title, a missing page or embed is
    /// deleted, a failed check is counted as an error. In a dry run nothing
    /// is done, but everything is counted.
    pub fn record_check(
        &mut self,
        url: &str,
        old_title: &Option<String>,
        check: &Result<CheckResult, String>,
        dry_run: bool,
    ) -> (r: OriginAction)
        requires
            tally_has_room(*old(self)),
        ensures
            match check {
                Ok(CheckResult::Valid(new_title)) => {
                    let changed = title_changed(opt_view(*new_title), opt_view(*old_title));
                    &&& final(self).valid_count == old(self).valid_count + 1
                    &&& final(self).title_updated_count == old(self).title_updated_count + (if changed { 1int } else { 0int })
                    &&& final(self).invalid_count == old(self).invalid_count
                    &&& final(self).not_found_count == old(self).not_found_count
                    &&& final(self).error_count == old(self).error_count
                    &&& final(self).deleted_urls@ == old(self).deleted_urls@
                    &&& final(self).not_found_urls@ == old(self).not_found_urls@
                    &&& (if changed && !dry_run {
                        r matches OriginAction::UpdateTitle(t) && opt_view(t) == opt_view(*new_title)
                    } else {
                        r is Keep
                    })
                },
                Ok(CheckResult::NotFound) => {
                    &&& final(self).not_found_count == old(self).not_found_count + 1
                    &&& final(self).not_found_urls@.len() == old(self).not_found_urls@.len() + 1
                    &&& final(self).not_found_urls@.drop_last() == old(self).not_found_urls@
                    &&& final(self).not_found_urls@.last()@ == url@
                    &&& final(self).valid_count == old(self).valid_count
                    &&& final(self).invalid_count == old(self).invalid_count
                    &&& final(self).error_count == old(self).error_count
                    &&& final(self).title_updated_count == old(self).title_updated_count
                    &&& final(self).deleted_urls@ == old(self).deleted_urls@
                    &&& (if dry_run { r is Keep } else { r is Delete })
                },
                Ok(CheckResult::EmbedNotPresent) => {
                    &&& final(self).invalid_count == old(self).invalid_count + 1
                    &&& final(self).deleted_urls@.len() == old(self).deleted_urls@.len() + 1
                    &&& final(self).deleted_urls@.drop_last() == old(self).deleted_urls@
                    &&& final(self).deleted_urls@.last()@ == url@
                    &&& final(self).valid_count == old(self).valid_count
                    &&& final(self).not_found_count == old(self).not_found_count
                    &&& final(self).error_count == old(self).error_count
                    &&& final(self).title_updated_count == old(self).title_updated_count
                    &&& final(self).not_found_urls@ == old(self).not_found_urls@
                    &&& (if dry_run { r is Keep } else { r is Delete })
                },
                Err(_) => {
                    &&& final(self).error_count == old(self).error_count + 1
                    &&& final(self).valid_count == old(self).valid_count
                    &&& final(self).invalid_count == old(self).invalid_count
                    &&& final(self).not_found_count == old(self).not_found_count
                    &&& final(self).title_updated_count == old(self).title_updated_count
                    &&& final(self).deleted_urls@ == old(self).deleted_urls@
                    &&& final(self).not_found_urls@ == old(self).not_found_urls@
                    &&& r is Keep
                },
            },
    {
        match check {
            Ok(CheckResult::Valid(new_title)) => {
                self.valid_count = self.valid_count + 1;
                if should_update_title(new_title, old_title) {
                    self.title_updated_count = self.title_updated_count + 1;
                    if !dry_run {
                        let t = match new_title {
                            Some(s) => Some(s.clone()),
                            None => None,
                        };
                        return OriginAction::UpdateTitle(t);
                    }
                }
                OriginAction::Keep
            },
            Ok(CheckResult::NotFound) => {
                self.not_found_count = self.not_found_count + 1;
                self.not_found_urls.push(String::from_str(url));
                if dry_run {
                    OriginAction::Keep
                } else {
                    OriginAction::Delete
                }
            },
            Ok(CheckResult::EmbedNotPresent) => {
                self.invalid_count = self.invalid_count + 1;
                self.deleted_urls.push(String::from_str(url));
                if dry_run {
                    OriginAction::Keep
                } else {
                    OriginAction::Delete
                }
            },
            Err(_) => {
                self.error_count = self.error_count + 1;
                OriginAction::Keep
            },
        }
    }

    /// Counts a deletion that failed as an error.
    pub fn record_delete_failure(&mut self)
        requires
            old(self).error_count < usize::MAX,
        ensures
            final(self).error_count == old(self).error_count + 1,
            final(self).valid_count == old(self).valid_count,
            final(self).invalid_count == old(self).invalid_count,
            final(self).not_found_count == old(self).not_found_count,
            final(self).title_updated_count == old(self).title_updated_count,
            final(self).deleted_urls@ == old(self).deleted_urls@,
            final(self).not_found_urls@ == old(self).not_found_urls@,
    {
        self.error_count = self.error_count + 1;
    }

    /// The rows that are (or in a dry run would be) deleted: stale embeds
    /// and pages not found.
    pub fn total_to_delete(&self) -> (r: Option<usize>)
        ensures
            match r {
                Some(n) => n == self.invalid_count + self.not_found_count,
                None => self.invalid_count + self.not_found_count > usize::MAX,
            },
    {
        self.invalid_count.checked_add(self.not_found_count)
    }
}


/// The pattern of a page's title element (any case).
pub const PAGE_TITLE_RE: &'static str = r"(?i)<title>(.*?)</title>";

/// The title stored for an embed origin whose page is `html`: the text of
/// the first title element (opening and closing tags on one line), trimmed;
/// empty where the page has none.
pub open spec fn seeded_title(html: Seq<char>) -> Seq<char> {
    match regex_captures(PAGE_TITLE_RE@, html) {
        Some(g) => match opt_group(g, 1) {
            Some(t) => trim(t),
            None => seq![],
        },
        None => seq![],
    }
}

/// The page title to store for an embed origin, from its page.
pub fn fetched_page_title(html: &str) -> (r: String)
    ensures
        r@ == seeded_title(html@),
{
    match captures(PAGE_TITLE_RE, chars_of(html).as_slice()) {
        Some(g) => {
            if 1 < g.len() {
                match &g[1] {
                    Some(t) => string_of(trim_exec(t).as_slice()),
                    None => String::new(),
                }
            } else {
                String::new()
            }
        },
        None => String::new(),
    }
}

} // verus!
