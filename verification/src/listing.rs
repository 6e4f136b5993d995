//! The gallery listing: one linked preview for every file under the storage
//! root.

use vstd::prelude::*;
use vstd::string::StringExecFns;

verus! {

/// An entry of the storage root.
#[derive(Debug, PartialEq, Eq)]
pub struct Entry {
    pub name: String,
    pub is_directory: bool,
}

/// An entry as a mathematical value.
pub struct EntryView {
    pub name: Seq<char>,
    pub is_directory: bool,
}

impl View for Entry {
    type V = EntryView;

    open spec fn view(&self) -> EntryView {
        EntryView { name: self.name@, is_directory: self.is_directory }
    }
}

/// The element that shows one file: its preview, linked to the file itself.
pub open spec fn anchor_of(name: Seq<char>) -> Seq<char> {
    "<a href=\"/static/"@ + name
        + "\" target=\"_blank\"><img style=\"padding: 0.2rem;max-width: calc(100vw - 16px - 0.2rem);max-height: 135px;\" src=\"/static/preview/"@
        + name + "\"/></a>"@
}

/// The names of the entries that are files, in the order of the entries.
pub open spec fn file_names(entries: Seq<EntryView>) -> Seq<Seq<char>>
    decreases entries.len(),
{
    if entries.len() == 0 {
        Seq::empty()
    } else if entries.last().is_directory {
        file_names(entries.drop_last())
    } else {
        file_names(entries.drop_last()).push(entries.last().name)
    }
}

/// The elements of the given files, one after another.
pub open spec fn anchors_of(names: Seq<Seq<char>>) -> Seq<char>
    decreases names.len(),
{
    if names.len() == 0 {
        Seq::empty()
    } else {
        anchors_of(names.drop_last()) + anchor_of(names.last())
    }
}

/// The body of the listing: the element of every entry that is no directory,
/// in the order of the entries.
pub open spec fn listing_of(entries: Seq<EntryView>) -> Seq<char>
    decreases entries.len(),
{
    if entries.len() == 0 {
        Seq::empty()
    } else if entries.last().is_directory {
        listing_of(entries.drop_last())
    } else {
        listing_of(entries.drop_last()) + anchor_of(entries.last().name)
    }
}

/// The views of the entries of a vector.
pub open spec fn entry_views(entries: Seq<Entry>) -> Seq<EntryView> {
    entries.map_values(|entry: Entry| entry@)
}

/// The listing is made of the file names alone: directories add nothing.
pub proof fn law_listing_shows_files_only(entries: Seq<EntryView>)
    ensures
        listing_of(entries) == anchors_of(file_names(entries)),
    decreases entries.len(),
{
    if entries.len() > 0 {
        law_listing_shows_files_only(entries.drop_last());
        if !entries.last().is_directory {
            let names = file_names(entries.drop_last());
            assert(names.push(entries.last().name).drop_last() =~= names);
        }
    }
}

/// Listing twice gives the same body as long as the storage root holds the
/// same files in the same order; directories that came or went between the
/// two do not show.
pub proof fn law_listing_is_repeatable(first: Seq<EntryView>, second: Seq<EntryView>)
    requires
        file_names(first) == file_names(second),
    ensures
        listing_of(first) == listing_of(second),
{
    law_listing_shows_files_only(first);
    law_listing_shows_files_only(second);
}

/// The element that shows the file `name`.
pub fn render_anchor(name: &str) -> (html: String)
    ensures
        html@ == anchor_of(name@),
{
    let mut html = String::from_str("<a href=\"/static/");
    html.append(name);
    html.append(
        "\" target=\"_blank\"><img style=\"padding: 0.2rem;max-width: calc(100vw - 16px - 0.2rem);max-height: 135px;\" src=\"/static/preview/",
    );
    html.append(name);
    html.append("\"/></a>");
    html
}

/// Renders the body of the listing for the entries of the storage root. A
/// file whose preview is missing is listed like any other.
pub fn render_listing(entries: &Vec<Entry>) -> (html: String)
    ensures
        html@ == listing_of(entry_views(entries@)),
{
    let mut html = String::new();
    let mut i: usize = 0;
    while i < entries.len()
        invariant
            i <= entries.len(),
            html@ == listing_of(entry_views(entries@).take(i as int)),
        decreases entries.len() - i,
    {
        proof {
            let views = entry_views(entries@);
            assert(views.take(i + 1).drop_last() =~= views.take(i as int));
            assert(views.take(i + 1).last() == entries[i as int]@);
        }
        if !entries[i].is_directory {
            let anchor = render_anchor(entries[i].name.as_str());
            html.append(anchor.as_str());
        }
        i += 1;
    }
    assert(entry_views(entries@).take(i as int) =~= entry_views(entries@));
    html
}

} // verus!
