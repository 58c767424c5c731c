//! The list of recent uploads: walking the storage directory, choosing and
//! ordering what was found, cutting out one page, and describing its
//! entries.

use vstd::prelude::*;
use vstd::string::StringSliceAdditionalSpecFns;
use vstd::utf8::{
    decode_utf8, encode_utf8, encode_utf8_decode_utf8, encode_utf8_first_scalar,
    encode_utf8_valid_utf8, is_char_boundary, pop_first_scalar,
};
use crate::config::Opt;
use crate::entry::{DateFilter, DirectoryEntry, Listed, SortBy};
use crate::helpers::{get_thumbnail_dir, join_path, path_join, spec_thumbnail_dir};
use crate::entry::{key_ge, key_gt};
use crate::order::{
    has_distinct_keys, in_range, is_descending, is_strictly_descending, key_at,
    lemma_distinct_keys_strictly_descending, lemma_same_positions, lemma_strict_order_is_unique,
    sort_positions,
};
use crate::pagination::{build_pagination, PaginationBar};
use crate::text::str_equal;
use crate::thumbnail::{get_thumbnail_url, spec_thumbnail_url};
use crate::time::{format_time, TIMESTAMP_FORMAT};
use crate::THUMBNAIL_SUBDIR;

verus! {

/// The page a client asks for, counted from zero; page zero where it names
/// none.
#[derive(Clone, Copy, Debug, PartialEq, Eq, Structural)]
pub struct Pagination {
    pub page: usize,
}

impl Default for Pagination {
    /// The first page.
    fn default() -> (pagination: Pagination)
        ensures
            pagination.page == 0,
    {
        Pagination { page: 0 }
    }
}

/// One line of the list as it is shown.
#[derive(Clone, Debug, PartialEq, Eq)]
pub struct RecentEntry {
    /// Link to the thumbnail of the file, or to the placeholder.
    pub thumbnail_url: String,
    /// When the file was last changed, as `YYYY-MM-DD HH:MM:SS`.
    pub timestamp: String,
    /// Link to the file: its path below the storage root.
    pub url: String,
}

/// A [`RecentEntry`] as a mathematical value.
pub struct RecentEntryView {
    pub thumbnail_url: Seq<char>,
    pub timestamp: Seq<char>,
    pub url: Seq<char>,
}

impl View for RecentEntry {
    type V = RecentEntryView;

    open spec fn view(&self) -> RecentEntryView {
        RecentEntryView {
            thumbnail_url: self.thumbnail_url@,
            timestamp: self.timestamp@,
            url: self.url@,
        }
    }
}

/// What the page of recent uploads is rendered from.
#[derive(Clone, Debug, PartialEq, Eq)]
pub struct RecentTemplate {
    /// The lines of the list, in the order shown.
    pub recents: Vec<RecentEntry>,
    /// The navigation bar below the list.
    pub pagination: PaginationBar,
}

/// One page cut out of the ordered list of stored files.
#[derive(Debug)]
pub struct RecentPage<'a> {
    /// The position, in the list of files found, of every file that the
    /// filter lets through, in the order of the listing.
    pub order: Vec<usize>,
    /// The files on the page asked for, in the order of the listing.
    pub files: Vec<&'a DirectoryEntry>,
    /// The navigation bar for that page.
    pub pagination: PaginationBar,
}

/// The entries that `refs` point at.
pub open spec fn entries_of<'a>(refs: Seq<&'a DirectoryEntry>) -> Seq<DirectoryEntry> {
    Seq::new(refs.len(), |i: int| *refs[i])
}

/// The lines of `recents` as mathematical values.
pub open spec fn lines_of(recents: Seq<RecentEntry>) -> Seq<RecentEntryView> {
    Seq::new(recents.len(), |i: int| recents[i]@)
}

/// The files among `listing`, in the order they were read.
pub open spec fn listed_files(listing: Seq<Listed>) -> Seq<DirectoryEntry>
    decreases listing.len(),
{
    if listing.len() == 0 {
        Seq::empty()
    } else {
        let before = listed_files(listing.drop_last());
        match listing.last() {
            Listed::File(entry) => before.push(entry),
            Listed::Directory { .. } => before,
        }
    }
}

/// Whether a walk passes over the directory called `name`: it does so for
/// the directory that holds the thumbnails, which is the one called
/// `thumbnails` in the storage root, and for no other.
pub open spec fn is_passed_over(name: Seq<char>, at_root: bool) -> bool {
    at_root && name == THUMBNAIL_SUBDIR@
}

/// The positions in `listing` of the directories to walk into, in the order
/// they were read: every directory, but for the thumbnail directory where
/// the listing is that of the storage root.
pub open spec fn listed_subdirs(listing: Seq<Listed>, at_root: bool) -> Seq<usize>
    decreases listing.len(),
{
    if listing.len() == 0 {
        Seq::empty()
    } else {
        let before = listed_subdirs(listing.drop_last(), at_root);
        match listing.last() {
            Listed::Directory { name } => if is_passed_over(name@, at_root) {
                before
            } else {
                before.push((listing.len() - 1) as usize)
            },
            Listed::File(_) => before,
        }
    }
}

/// Takes in what a walk read in one directory, the storage root where
/// `at_root` says so: adds the files to `files` and returns the positions
/// in `listing` of the directories to walk into next. These are all the
/// directories read, but for the thumbnail directory of the storage root; a
/// directory called `thumbnails` anywhere below the root is walked like any
/// other.
pub fn visit_dirs(listing: Vec<Listed>, at_root: bool, files: &mut Vec<DirectoryEntry>) -> (subdirs:
    Vec<usize>)
    ensures
        final(files)@ == old(files)@ + listed_files(listing@),
        subdirs@ == listed_subdirs(listing@, at_root),
{
    let ghost found = files@;
    let mut subdirs: Vec<usize> = Vec::new();
    let count = listing.len();
    let mut position: usize = 0;
    for item in it: listing
        invariant
            position == it.index(),
            listing@.len() == count,
            files@ == found + listed_files(listing@.take(it.index() as int)),
            subdirs@ == listed_subdirs(listing@.take(it.index() as int), at_root),
    {
        assert(listing@.take(it.index() + 1).drop_last() =~= listing@.take(it.index() as int));
        assert(it.index() < it.seq().len());
        match item {
            Listed::File(entry) => {
                files.push(entry);
            },
            Listed::Directory { name } => {
                let passed_over = at_root && str_equal(name.as_str(), THUMBNAIL_SUBDIR);
                if !passed_over {
                    subdirs.push(position);
                }
            },
        }
        position = position + 1;
    }
    assert(listing@.take(listing@.len() as int) =~= listing@);
    subdirs
}

/// Whether the entry at position `p` of `files` passes `filter`.
pub open spec fn is_shown(files: Seq<DirectoryEntry>, filter: DateFilter, p: int) -> bool {
    0 <= p < files.len() && filter.spec_matches(files[p].modification_time)
}

/// `positions` names the entries of `files` that pass `filter`: each of
/// them, once, and no other.
pub open spec fn is_selection(
    files: Seq<DirectoryEntry>,
    filter: DateFilter,
    positions: Seq<usize>,
) -> bool {
    &&& forall|k: int|
        0 <= k < positions.len() ==> is_shown(files, filter, #[trigger] positions[k] as int)
    &&& forall|p: int| #[trigger] is_shown(files, filter, p) ==> positions.contains(p as usize)
    &&& positions.no_duplicates()
}

/// `order` is the order of a listing of `files`: the entries that pass
/// `filter`, each once, with keys that never grow.
pub open spec fn is_listing_order(
    files: Seq<DirectoryEntry>,
    filter: DateFilter,
    by: SortBy,
    order: Seq<usize>,
) -> bool {
    &&& is_selection(files, filter, order)
    &&& is_descending(files, by, order)
}

/// The positions of the entries of `files` that pass `filter`, in rising
/// order.
pub fn select_positions(files: &Vec<DirectoryEntry>, filter: &DateFilter) -> (positions: Vec<usize>)
    ensures
        is_selection(files@, *filter, positions@),
        forall|a: int, b: int|
            0 <= a < b < positions@.len() ==> #[trigger] positions@[a] < #[trigger] positions@[b],
{
    let mut positions: Vec<usize> = Vec::new();
    let mut i: usize = 0;
    while i < files.len()
        invariant
            i <= files.len(),
            forall|k: int|
                0 <= k < positions@.len() ==> is_shown(
                    files@,
                    *filter,
                    #[trigger] positions@[k] as int,
                ) && positions@[k] < i,
            forall|p: int|
                0 <= p < i && #[trigger] is_shown(files@, *filter, p) ==> positions@.contains(
                    p as usize,
                ),
            forall|a: int, b: int|
                0 <= a < b < positions@.len() ==> #[trigger] positions@[a]
                    < #[trigger] positions@[b],
        decreases files.len() - i,
    {
        if filter.matches(&files[i].modification_time) {
            let ghost before = positions@;
            positions.push(i);
            assert forall|p: int| 0 <= p < i + 1 && #[trigger] is_shown(
                files@,
                *filter,
                p,
            ) implies positions@.contains(p as usize) by {
                if p < i {
                    let k = choose|k: int| 0 <= k < before.len() && before[k] == p as usize;
                    assert(positions@[k] == p as usize);
                } else {
                    assert(positions@[before.len() as int] == p as usize);
                }
            }
        }
        i = i + 1;
    }
    positions
}

/// Puts `files` in the order of a listing: the position of every file that
/// `filter` lets through, once, the largest key first. By date that is the
/// newest file first, and where no two files were changed at the same
/// moment each file is newer than the next; by size no file is larger than
/// the one before it.
pub fn list_order(files: &Vec<DirectoryEntry>, filter: &DateFilter, by: SortBy) -> (order: Vec<
    usize,
>)
    ensures
        is_listing_order(files@, *filter, by, order@),
        has_distinct_keys(files@, by) ==> is_strictly_descending(files@, by, order@),
{
    let selected = select_positions(files, filter);
    let ghost selection = selected@;
    assert(in_range(files@, selection));
    let order = sort_positions(files, by, selected);
    proof {
        lemma_same_positions(selection, order@);
        assert forall|p: int| #[trigger] is_shown(files@, *filter, p) implies order@.contains(
            p as usize,
        ) by {
            assert(selection.contains(p as usize));
        }
        assert forall|k: int| 0 <= k < order@.len() implies is_shown(
            files@,
            *filter,
            #[trigger] order@[k] as int,
        ) by {
            assert(order@.contains(order@[k]));
            assert(selection.contains(order@[k]));
        }
        if has_distinct_keys(files@, by) {
            lemma_distinct_keys_strictly_descending(files@, by, order@);
        }
    }
    order
}

/// Where page `page` begins in a list of `len` entries shown `page_size` at
/// a time.
pub open spec fn window_start(len: int, page: int, page_size: int) -> int {
    if page * page_size < len {
        page * page_size
    } else {
        len
    }
}

/// Where page `page` ends in a list of `len` entries shown `page_size` at a
/// time.
pub open spec fn window_end(len: int, page: int, page_size: int) -> int {
    let start = window_start(len, page, page_size);
    if start + page_size < len {
        start + page_size
    } else {
        len
    }
}

/// Page `page` of `order`, shown `page_size` at a time: `page_size` items
/// from item `page * page_size` on, or as many as are left.
pub open spec fn spec_window(order: Seq<usize>, page: int, page_size: int) -> Seq<usize> {
    order.subrange(
        window_start(order.len() as int, page, page_size),
        window_end(order.len() as int, page, page_size),
    )
}

/// Cuts page `page` out of `order`, `page_size` items to a page.
pub fn select_page(order: &Vec<usize>, page: usize, page_size: usize) -> (window: Vec<usize>)
    ensures
        window@ == spec_window(order@, page as int, page_size as int),
{
    let len = order.len();
    let start: usize = match page.checked_mul(page_size) {
        Some(first) => if first < len { first } else { len },
        None => len,
    };
    let end: usize = if page_size < len - start { start + page_size } else { len };
    let mut window: Vec<usize> = Vec::new();
    let mut i: usize = start;
    while i < end
        invariant
            start <= i <= end <= order.len(),
            window@ == order@.subrange(start as int, i as int),
        decreases end - i,
    {
        window.push(order[i]);
        assert(order@.subrange(start as int, i as int + 1) =~= order@.subrange(
            start as int,
            i as int,
        ).push(order@[i as int]));
        i = i + 1;
    }
    window
}

/// No entry of `entries` has a larger key than one before it.
pub open spec fn is_in_order(entries: Seq<DirectoryEntry>, by: SortBy) -> bool {
    forall|i: int, j: int|
        0 <= i < j < entries.len() ==> key_ge(
            (#[trigger] entries[i]).sort_key(by),
            (#[trigger] entries[j]).sort_key(by),
        )
}

/// Every entry of `entries` has a smaller key than each one before it.
pub open spec fn is_in_strict_order(entries: Seq<DirectoryEntry>, by: SortBy) -> bool {
    forall|i: int, j: int|
        0 <= i < j < entries.len() ==> key_gt(
            (#[trigger] entries[i]).sort_key(by),
            (#[trigger] entries[j]).sort_key(by),
        )
}

/// `first` begins a listing of `files`: it is shown, and no file that
/// `filter` lets through has a larger key.
pub open spec fn is_first_of_listing(
    files: Seq<DirectoryEntry>,
    filter: DateFilter,
    by: SortBy,
    first: DirectoryEntry,
) -> bool {
    forall|p: int| #[trigger]
        is_shown(files, filter, p) ==> key_ge(first.sort_key(by), files[p].sort_key(by))
}

/// One page of a listing, without its navigation bar.
#[derive(Debug)]
pub struct ListedPage<'a> {
    /// The position, in the list of files found, of every file that the
    /// filter lets through, in the order of the listing.
    pub order: Vec<usize>,
    /// The files on the page asked for, in the order of the listing.
    pub files: Vec<&'a DirectoryEntry>,
}

/// Lists one page of `files`, whatever the page and the size of a page:
/// keeps the files that `filter` lets through, orders them by `by`, the
/// largest key first, and cuts out page `page`, counted from zero, at
/// `page_size` entries to a page.
///
/// Down the page no file is newer, or larger, than the one before it, and
/// where no two files have the same key each is older, or smaller, than
/// the one before it. Page zero begins with the newest, or largest, of all
/// the files shown.
pub fn list_page<'a>(
    files: &'a Vec<DirectoryEntry>,
    filter: &DateFilter,
    by: SortBy,
    page: usize,
    page_size: usize,
) -> (listed: ListedPage<'a>)
    ensures
        is_listing_order(files@, *filter, by, listed.order@),
        has_distinct_keys(files@, by) ==> is_strictly_descending(files@, by, listed.order@),
        entries_of(listed.files@) == spec_window(
            listed.order@,
            page as int,
            page_size as int,
        ).map_values(|p: usize| files@[p as int]),
        is_in_order(entries_of(listed.files@), by),
        has_distinct_keys(files@, by) ==> is_in_strict_order(entries_of(listed.files@), by),
        page == 0 && listed.files@.len() > 0 ==> is_first_of_listing(
            files@,
            *filter,
            by,
            entries_of(listed.files@)[0],
        ),
        page == 0 && page_size > 0 && listed.order@.len() > 0 ==> listed.files@.len() > 0,
{
    let order = list_order(files, filter, by);
    assert(in_range(files@, order@));
    let window = select_page(&order, page, page_size);
    let ghost start = window_start(order@.len() as int, page as int, page_size as int);
    let mut shown: Vec<&'a DirectoryEntry> = Vec::new();
    let mut i: usize = 0;
    while i < window.len()
        invariant
            i <= window.len(),
            in_range(files@, order@),
            window@ == spec_window(order@, page as int, page_size as int),
            start == window_start(order@.len() as int, page as int, page_size as int),
            shown@.len() == i,
            forall|k: int| 0 <= k < i ==> *#[trigger] shown@[k] == files@[window@[k] as int],
        decreases window.len() - i,
    {
        assert(window@[i as int] < files@.len()) by {
            assert(window@[i as int] == order@[start + i]);
        }
        shown.push(&files[window[i]]);
        i = i + 1;
    }
    proof {
        let entries = entries_of(shown@);
        assert(entries =~= window@.map_values(|p: usize| files@[p as int]));
        assert forall|k: int| 0 <= k < entries.len() implies #[trigger] entries[k]
            == files@[order@[start + k] as int] by {
            assert(window@[k] == order@[start + k]);
        }
        assert forall|a: int, b: int| 0 <= a < b < entries.len() implies key_ge(
            (#[trigger] entries[a]).sort_key(by),
            (#[trigger] entries[b]).sort_key(by),
        ) by {
            assert(key_ge(
                key_at(files@, by, order@[start + a]),
                key_at(files@, by, order@[start + b]),
            ));
        }
        if has_distinct_keys(files@, by) {
            assert forall|a: int, b: int| 0 <= a < b < entries.len() implies key_gt(
                (#[trigger] entries[a]).sort_key(by),
                (#[trigger] entries[b]).sort_key(by),
            ) by {
                assert(key_gt(
                    key_at(files@, by, order@[start + a]),
                    key_at(files@, by, order@[start + b]),
                ));
            }
        }
        if page == 0 {
            assert((page as int) * (page_size as int) == 0) by (nonlinear_arith)
                requires
                    page == 0,
            ;
        }
        if page == 0 && entries.len() > 0 {
            assert(start == 0);
            assert(entries[0] == files@[order@[0] as int]);
            assert(files@.len() == files.len());
            assert forall|p: int| #[trigger] is_shown(files@, *filter, p) implies key_ge(
                entries[0].sort_key(by),
                files@[p].sort_key(by),
            ) by {
                lemma_first_is_largest(files@, *filter, by, order@, p);
            }
        }
    }
    ListedPage { order, files: shown }
}

/// Lists `files`: keeps those that `filter` lets through, orders them by
/// `by`, the largest key first, and cuts out page `page`, counted from
/// zero, at `opt.recents` entries to a page, as [`list_page`] does. The
/// navigation bar counts the files kept.
pub fn recent<'a>(
    files: &'a Vec<DirectoryEntry>,
    filter: &DateFilter,
    by: SortBy,
    page: usize,
    opt: &Opt,
) -> (listing: RecentPage<'a>)
    requires
        opt.recents > 0,
        page < usize::MAX,
    ensures
        is_listing_order(files@, *filter, by, listing.order@),
        has_distinct_keys(files@, by) ==> is_strictly_descending(files@, by, listing.order@),
        entries_of(listing.files@) == spec_window(
            listing.order@,
            page as int,
            opt.recents as int,
        ).map_values(|p: usize| files@[p as int]),
        is_in_order(entries_of(listing.files@), by),
        has_distinct_keys(files@, by) ==> is_in_strict_order(entries_of(listing.files@), by),
        page == 0 && listing.files@.len() > 0 ==> is_first_of_listing(
            files@,
            *filter,
            by,
            entries_of(listing.files@)[0],
        ),
        listing.pagination@ == PaginationBar::spec_build(
            listing.order@.len() as int,
            opt.recents as int,
            page as int,
        ),
{
    let listed = list_page(files, filter, by, page, opt.recents);
    let pagination = build_pagination(listed.order.len(), opt.recents, page);
    RecentPage { order: listed.order, files: listed.files, pagination }
}

/// Lists `files` for a client that asks for the page in `pagination`.
pub fn recent_pagination<'a>(
    files: &'a Vec<DirectoryEntry>,
    filter: &DateFilter,
    by: SortBy,
    pagination: &Pagination,
    opt: &Opt,
) -> (listing: RecentPage<'a>)
    requires
        opt.recents > 0,
        pagination.page < usize::MAX,
    ensures
        is_listing_order(files@, *filter, by, listing.order@),
        has_distinct_keys(files@, by) ==> is_strictly_descending(files@, by, listing.order@),
        entries_of(listing.files@) == spec_window(
            listing.order@,
            pagination.page as int,
            opt.recents as int,
        ).map_values(|p: usize| files@[p as int]),
        listing.pagination@ == PaginationBar::spec_build(
            listing.order@.len() as int,
            opt.recents as int,
            pagination.page as int,
        ),
{
    recent(files, filter, by, pagination.page, opt)
}

/// What is left of `path` behind its first `prefix_length` bytes, where
/// they end between two characters and not within one.
pub open spec fn spec_relative_url(path: Seq<char>, prefix_length: int) -> Option<Seq<char>> {
    let bytes = encode_utf8(path);
    if is_char_boundary(bytes, prefix_length) {
        Some(decode_utf8(bytes.subrange(prefix_length, bytes.len() as int)))
    } else {
        None
    }
}

/// The path of a stored file below the storage root: `path` without its
/// first `prefix_length` bytes, which are the storage root and the
/// separator behind it. There is none where `path` is shorter than that or
/// the cut would fall within a character.
pub fn relative_url(path: &str, prefix_length: usize) -> (url: Option<&str>)
    ensures
        match url {
            Some(rest) => spec_relative_url(path@, prefix_length as int) == Some(rest@),
            None => spec_relative_url(path@, prefix_length as int) is None,
        },
{
    proof {
        encode_utf8_valid_utf8(path@);
    }
    if path.is_char_boundary(prefix_length) {
        let (_, rest) = path.split_at(prefix_length);
        proof {
            encode_utf8_decode_utf8(rest@);
        }
        Some(rest)
    } else {
        None
    }
}

/// The line shown for `file`, given the length of the prefix to strip from
/// its path and whether it has a thumbnail. A file is shown only if its
/// path is text, the prefix can be stripped from it, and a calendar can
/// express its time.
pub open spec fn spec_recent_entry(
    file: DirectoryEntry,
    prefix_length: int,
    has_thumbnail: bool,
) -> Option<RecentEntryView> {
    match file.path {
        None => None,
        Some(path) => match spec_relative_url(path@, prefix_length) {
            None => None,
            Some(url) => match file.modification_time.spec_text() {
                None => None,
                Some(timestamp) => Some(
                    RecentEntryView {
                        thumbnail_url: spec_thumbnail_url(url, has_thumbnail),
                        timestamp,
                        url,
                    },
                ),
            },
        },
    }
}

/// The line shown for `file`, where it can be shown.
pub fn recent_entry(file: &DirectoryEntry, prefix_length: usize, has_thumbnail: bool) -> (entry:
    Option<RecentEntry>)
    ensures
        match entry {
            Some(line) => spec_recent_entry(*file, prefix_length as int, has_thumbnail) == Some(
                line@,
            ),
            None => spec_recent_entry(*file, prefix_length as int, has_thumbnail) is None,
        },
{
    match &file.path {
        None => None,
        Some(path) => match relative_url(path.as_str(), prefix_length) {
            None => None,
            Some(url) => {
                let time = &file.modification_time;
                match format_time(time.secs, time.nanos, time.utc_offset, TIMESTAMP_FORMAT) {
                    None => None,
                    Some(timestamp) => Some(
                        RecentEntry {
                            thumbnail_url: get_thumbnail_url(url, has_thumbnail),
                            timestamp,
                            url: url.to_owned(),
                        },
                    ),
                }
            },
        },
    }
}

/// The path at which the thumbnail of `file` is stored if it has one: its
/// path below the storage root, joined to the thumbnail directory.
pub fn thumbnail_path(file: &DirectoryEntry, prefix_length: usize, opt: &Opt) -> (path: Option<
    String,
>)
    ensures
        match path {
            Some(text) => file.path matches Some(full) && spec_relative_url(
                full@,
                prefix_length as int,
            ) matches Some(url) && text@ == path_join(spec_thumbnail_dir(opt.base_dir@), url),
            None => file.path is None || spec_relative_url(
                file.path->0@,
                prefix_length as int,
            ) is None,
        },
{
    match &file.path {
        None => None,
        Some(full) => match relative_url(full.as_str(), prefix_length) {
            None => None,
            Some(url) => {
                let dir = get_thumbnail_dir(opt);
                Some(join_path(dir.as_str(), url))
            },
        },
    }
}

/// Whether the file at position `i` is known to have a thumbnail.
pub open spec fn has_thumbnail(thumbnails: Seq<bool>, i: int) -> bool {
    0 <= i < thumbnails.len() && thumbnails[i]
}

/// The lines shown for `files`, in their order; a file that cannot be shown
/// is left out.
pub open spec fn spec_recents(
    files: Seq<DirectoryEntry>,
    prefix_length: int,
    thumbnails: Seq<bool>,
) -> Seq<RecentEntryView>
    decreases files.len(),
{
    if files.len() == 0 {
        Seq::empty()
    } else {
        let before = spec_recents(files.drop_last(), prefix_length, thumbnails);
        match spec_recent_entry(
            files.last(),
            prefix_length,
            has_thumbnail(thumbnails, files.len() - 1),
        ) {
            Some(line) => before.push(line),
            None => before,
        }
    }
}

/// Describes a page of the list for rendering: one line for each of
/// `files` that can be shown, in their order, with `thumbnails` telling for
/// each position whether that file has a thumbnail, and below them the
/// navigation bar `pagination`.
pub fn build_recent_html_page(
    files: &Vec<&DirectoryEntry>,
    prefix_length: usize,
    thumbnails: &Vec<bool>,
    pagination: PaginationBar,
) -> (template: RecentTemplate)
    ensures
        lines_of(template.recents@) == spec_recents(
            entries_of(files@),
            prefix_length as int,
            thumbnails@,
        ),
        template.pagination == pagination,
{
    let mut recents: Vec<RecentEntry> = Vec::new();
    let ghost all = entries_of(files@);
    let mut i: usize = 0;
    while i < files.len()
        invariant
            i <= files.len(),
            all == entries_of(files@),
            lines_of(recents@) == spec_recents(
                all.take(i as int),
                prefix_length as int,
                thumbnails@,
            ),
        decreases files.len() - i,
    {
        let known = i < thumbnails.len() && thumbnails[i];
        let ghost before = recents@;
        proof {
            assert(all.take(i as int + 1).drop_last() =~= all.take(i as int));
            assert(all.take(i as int + 1).last() == *files@[i as int]);
        }
        match recent_entry(files[i], prefix_length, known) {
            Some(line) => {
                recents.push(line);
                assert(lines_of(recents@) =~= lines_of(before).push(line@));
            },
            None => {},
        }
        i = i + 1;
    }
    assert(all.take(files@.len() as int) =~= all);
    RecentTemplate { recents, pagination }
}

/// The bytes of two texts written one behind the other are the bytes of the
/// first followed by the bytes of the second.
pub proof fn lemma_bytes_of_joined_text(a: Seq<char>, b: Seq<char>)
    ensures
        encode_utf8(a + b) == encode_utf8(a) + encode_utf8(b),
    decreases a.len(),
{
    if a.len() == 0 {
        assert(a + b =~= b);
        assert(encode_utf8(a) + encode_utf8(b) =~= encode_utf8(b));
    } else {
        lemma_bytes_of_joined_text(a.drop_first(), b);
        assert((a + b).drop_first() =~= a.drop_first() + b);
        assert(encode_utf8(a + b) =~= encode_utf8(a) + encode_utf8(b));
    }
}

/// In the bytes of two texts written one behind the other, the second
/// begins between two characters.
proof fn lemma_boundary_between_texts(a: Seq<char>, b: Seq<char>)
    ensures
        is_char_boundary(encode_utf8(a + b), encode_utf8(a).len() as int),
    decreases a.len(),
{
    let chars = a + b;
    let bytes = encode_utf8(chars);
    encode_utf8_valid_utf8(chars);
    if a.len() > 0 {
        encode_utf8_first_scalar(chars);
        encode_utf8_first_scalar(a);
        lemma_bytes_of_joined_text(a, b);
        assert(chars.drop_first() =~= a.drop_first() + b);
        assert(pop_first_scalar(bytes) =~= encode_utf8(chars.drop_first()));
        assert(pop_first_scalar(encode_utf8(a)) =~= encode_utf8(a.drop_first()));
        lemma_boundary_between_texts(a.drop_first(), b);
    }
}

/// A path that begins with a prefix loses exactly that prefix: where `path`
/// is `prefix` followed by `rest`, what is left behind the bytes of
/// `prefix` is `rest`. With the storage root and the separator behind it
/// for a prefix, the link to a stored file is its path below the root.
pub proof fn lemma_relative_url_strips_prefix(prefix: Seq<char>, rest: Seq<char>)
    ensures
        spec_relative_url(prefix + rest, encode_utf8(prefix).len() as int) == Some(rest),
{
    let bytes = encode_utf8(prefix + rest);
    let cut = encode_utf8(prefix).len() as int;
    lemma_bytes_of_joined_text(prefix, rest);
    lemma_boundary_between_texts(prefix, rest);
    assert(bytes.subrange(cut, bytes.len() as int) =~= encode_utf8(rest));
    encode_utf8_decode_utf8(rest);
}

/// The pages of a listing hold every entry once and in order: the entry at
/// position `i` of the order stands on page `i / page_size`, as item
/// `i % page_size` of it. No page holds more than `page_size` entries.
pub proof fn lemma_every_entry_on_one_page(order: Seq<usize>, page_size: int, i: int)
    requires
        page_size > 0,
        0 <= i < order.len(),
    ensures
        i % page_size < spec_window(order, i / page_size, page_size).len() <= page_size,
        spec_window(order, i / page_size, page_size)[i % page_size] == order[i],
{
    let page = i / page_size;
    vstd::arithmetic::div_mod::lemma_fundamental_div_mod(i, page_size);
    vstd::arithmetic::div_mod::lemma_div_pos_is_pos(i, page_size);
    assert(page * page_size == page_size * page) by (nonlinear_arith);
    let start = window_start(order.len() as int, page, page_size);
    assert(start == page * page_size);
}

/// A page holds at most `page_size` entries, and none where it begins
/// behind the last entry.
pub proof fn lemma_page_is_bounded(order: Seq<usize>, page: int, page_size: int)
    requires
        page >= 0,
        page_size >= 0,
    ensures
        spec_window(order, page, page_size).len() <= page_size,
        page * page_size >= order.len() ==> spec_window(order, page, page_size).len() == 0,
{
    assert(page * page_size >= 0) by (nonlinear_arith)
        requires
            page >= 0,
            page_size >= 0,
    ;
}

/// Where no two files have the same key, a listing has one order only:
/// whatever is listed twice comes out the same.
pub proof fn lemma_listing_order_is_unique(
    files: Seq<DirectoryEntry>,
    filter: DateFilter,
    by: SortBy,
    a: Seq<usize>,
    b: Seq<usize>,
)
    requires
        is_listing_order(files, filter, by, a),
        is_listing_order(files, filter, by, b),
        has_distinct_keys(files, by),
    ensures
        a == b,
{
    assert(in_range(files, a));
    assert(in_range(files, b));
    lemma_distinct_keys_strictly_descending(files, by, a);
    lemma_distinct_keys_strictly_descending(files, by, b);
    assert forall|p: usize| a.contains(p) <==> b.contains(p) by {
        if a.contains(p) {
            let k = choose|k: int| 0 <= k < a.len() && a[k] == p;
            assert(is_shown(files, filter, a[k] as int));
        }
        if b.contains(p) {
            let k = choose|k: int| 0 <= k < b.len() && b[k] == p;
            assert(is_shown(files, filter, b[k] as int));
        }
    }
    lemma_strict_order_is_unique(files, by, a, b);
}

/// A listing begins with the largest: the first entry of the order is at
/// least as new, or as large, as every entry that the filter lets through,
/// and there is a first entry whenever the filter lets one through.
pub proof fn lemma_first_is_largest(
    files: Seq<DirectoryEntry>,
    filter: DateFilter,
    by: SortBy,
    order: Seq<usize>,
    p: int,
)
    requires
        files.len() <= usize::MAX,
        is_listing_order(files, filter, by, order),
        is_shown(files, filter, p),
    ensures
        order.len() > 0,
        key_ge(key_at(files, by, order[0]), files[p].sort_key(by)),
{
    assert(order.contains(p as usize));
    let k = choose|k: int| 0 <= k < order.len() && order[k] == p as usize;
    assert(key_at(files, by, order[k]) == files[p].sort_key(by));
    if k > 0 {
        assert(key_ge(key_at(files, by, order[0]), key_at(files, by, order[k])));
    }
}

/// Page zero begins where the order begins.
pub proof fn lemma_first_page_begins_the_order(order: Seq<usize>, page_size: int)
    requires
        page_size > 0,
        order.len() > 0,
    ensures
        spec_window(order, 0, page_size).len() > 0,
        spec_window(order, 0, page_size)[0] == order[0],
{
}

/// The pages follow each other in the order of the listing: no entry of a
/// page has a smaller key than an entry of the page behind it, and where
/// the order shrinks at every step each entry of a page has a larger key
/// than every entry of the page behind it.
pub proof fn lemma_pages_follow_each_other(
    files: Seq<DirectoryEntry>,
    by: SortBy,
    order: Seq<usize>,
    page: int,
    page_size: int,
    i: int,
    j: int,
)
    requires
        is_descending(files, by, order),
        page >= 0,
        page_size >= 0,
        0 <= i < spec_window(order, page, page_size).len(),
        0 <= j < spec_window(order, page + 1, page_size).len(),
    ensures
        key_ge(
            key_at(files, by, spec_window(order, page, page_size)[i]),
            key_at(files, by, spec_window(order, page + 1, page_size)[j]),
        ),
        is_strictly_descending(files, by, order) ==> key_gt(
            key_at(files, by, spec_window(order, page, page_size)[i]),
            key_at(files, by, spec_window(order, page + 1, page_size)[j]),
        ),
{
    let len = order.len() as int;
    assert((page + 1) * page_size == page * page_size + page_size) by (nonlinear_arith);
    assert(page * page_size >= 0) by (nonlinear_arith)
        requires
            page >= 0,
            page_size >= 0,
    ;
    let here = window_start(len, page, page_size);
    let there = window_start(len, page + 1, page_size);
    assert(window_end(len, page, page_size) <= there);
    let a = here + i;
    let b = there + j;
    assert(spec_window(order, page, page_size)[i] == order[a]);
    assert(spec_window(order, page + 1, page_size)[j] == order[b]);
    assert(0 <= a < b < order.len());
    assert(key_ge(key_at(files, by, order[a]), key_at(files, by, order[b])));
    if is_strictly_descending(files, by, order) {
        assert(key_gt(key_at(files, by, order[a]), key_at(files, by, order[b])));
    }
}

/// A walk enters exactly the directories it does not pass over: position
/// `i` of a listing is among those to walk into exactly if it holds a
/// directory, and that directory is not the thumbnail directory of the
/// storage root.
pub proof fn lemma_walked_directories(listing: Seq<Listed>, at_root: bool, i: int)
    requires
        listing.len() <= usize::MAX,
        0 <= i <= usize::MAX,
    ensures
        listed_subdirs(listing, at_root).contains(i as usize) <==> (i < listing.len()
            && listing[i] is Directory && !is_passed_over(listing[i]->name@, at_root)),
    decreases listing.len(),
{
    if listing.len() > 0 {
        let rest = listing.drop_last();
        let before = listed_subdirs(rest, at_root);
        let after = listed_subdirs(listing, at_root);
        let last = (listing.len() - 1) as usize;
        lemma_walked_directories(rest, at_root, i);
        if i < rest.len() {
            assert(rest[i] == listing[i]);
        }
        let entered = listing.last() is Directory && !is_passed_over(
            listing.last()->name@,
            at_root,
        );
        if entered {
            assert(after == before.push(last));
            if before.contains(i as usize) {
                let k = choose|k: int| 0 <= k < before.len() && before[k] == i as usize;
                assert(after[k] == i as usize);
            }
            if i == last {
                assert(after[before.len() as int] == last);
            }
            if after.contains(i as usize) {
                let k = choose|k: int| 0 <= k < after.len() && after[k] == i as usize;
                if k < before.len() {
                    assert(before[k] == i as usize);
                }
            }
        } else {
            assert(after == before);
        }
    }
}

} // verus!
