//! Where labels come from: one label given field by field, or a list of
//! entries read from a layout file.

use crate::error::{Field, LabelError};
use vstd::prelude::*;

verus! {

/// What is printed on one label, and where its cover art is found. Title,
/// artist and release year are in upper case.
#[derive(Clone, Debug, PartialEq, Eq)]
pub struct LabelDescriptor {
    pub title: String,
    pub artist: String,
    pub release_year: Option<String>,
    pub cover_path: String,
}

/// One entry of a layout file, as written.
#[derive(Clone, Debug, PartialEq, Eq)]
pub struct LabelEntry {
    pub title: String,
    pub artist: String,
    pub release_year: Option<String>,
    pub cover: String,
}

/// What the user asked for: the fields of a single label, each possibly
/// absent, and possibly the path of a layout file.
#[derive(Clone, Debug, PartialEq, Eq)]
pub struct LabelRequest {
    pub cover: Option<String>,
    pub title: Option<String>,
    pub artist: Option<String>,
    pub release_year: Option<String>,
    pub layout: Option<String>,
}

/// The two ways to obtain labels. They are never combined.
#[derive(Clone, Debug, PartialEq, Eq)]
pub enum LabelSource {
    /// The labels are the entries of the layout file at this path.
    Layout(String),
    /// There is exactly this one label.
    Single(LabelDescriptor),
}

/// The text `s` in upper case, as the Unicode standard maps it.
pub uninterp spec fn uppercased(s: Seq<char>) -> Seq<char>;

/// The characters of an optional text.
pub open spec fn text_of(value: Option<String>) -> Option<Seq<char>> {
    match value {
        Some(s) => Some(s@),
        None => None,
    }
}

/// An optional text in upper case.
pub open spec fn uppercased_opt(value: Option<Seq<char>>) -> Option<Seq<char>> {
    match value {
        Some(s) => Some(uppercased(s)),
        None => None,
    }
}

/// A field is present when it is given and not empty.
pub open spec fn present(value: Option<Seq<char>>) -> bool {
    value matches Some(s) && s.len() > 0
}

/// The first required field that is missing, looking at the artist, then the
/// title, then the cover; `None` when all three are present.
pub open spec fn first_missing(
    title: Option<Seq<char>>,
    artist: Option<Seq<char>>,
    cover: Option<Seq<char>>,
) -> Option<Field> {
    if !present(artist) {
        Some(Field::Artist)
    } else if !present(title) {
        Some(Field::Title)
    } else if !present(cover) {
        Some(Field::Cover)
    } else {
        None
    }
}

impl LabelDescriptor {
    /// Whether this descriptor is the given texts brought to upper case,
    /// with the cover path as it was.
    pub open spec fn is_normalized(
        &self,
        title: Seq<char>,
        artist: Seq<char>,
        release_year: Option<Seq<char>>,
        cover: Seq<char>,
    ) -> bool {
        &&& self.title@ == uppercased(title)
        &&& self.artist@ == uppercased(artist)
        &&& text_of(self.release_year) == uppercased_opt(release_year)
        &&& self.cover_path@ == cover
    }

    /// A descriptor of texts that are in upper case already.
    pub fn new(
        title: String,
        artist: String,
        release_year: Option<String>,
        cover_path: String,
    ) -> (d: LabelDescriptor)
        ensures
            d == (LabelDescriptor { title, artist, release_year, cover_path }),
    {
        LabelDescriptor { title, artist, release_year, cover_path }
    }

    /// Builds a descriptor: title, artist and release year are put in upper
    /// case, the cover path is kept.
    pub fn normalized(
        title: &str,
        artist: &str,
        release_year: &Option<String>,
        cover: &str,
    ) -> (d: LabelDescriptor)
        ensures
            d.is_normalized(title@, artist@, text_of(*release_year), cover@),
    {
        let year = match release_year {
            Some(y) => Some(to_uppercase(y.as_str())),
            None => None,
        };
        LabelDescriptor::new(to_uppercase(title), to_uppercase(artist), year, cover.to_owned())
    }
}

/// Trusted: calls `str::to_uppercase` of the standard library. The contract
/// claims only that the result depends on nothing but the text.
#[verifier::external_body]
fn to_uppercase(s: &str) -> (r: String)
    ensures
        r@ == uppercased(s@),
{
    s.to_uppercase()
}

/// The text of a field that is given and not empty.
fn required(value: &Option<String>) -> (r: Option<&String>)
    ensures
        r.is_some() == present(text_of(*value)),
        r matches Some(s) ==> *value == Some(*s),
{
    match value {
        Some(s) => if s.as_str().is_empty() {
            None
        } else {
            Some(s)
        },
        None => None,
    }
}

/// The label that the fields of a request describe.
///
/// Title, artist and cover are required: if one is absent or empty the
/// result is `MissingField`, naming the first one missing among artist,
/// title and cover. Otherwise the result is the descriptor of these fields.
pub fn single_label(
    title: &Option<String>,
    artist: &Option<String>,
    release_year: &Option<String>,
    cover: &Option<String>,
) -> (r: Result<LabelDescriptor, LabelError>)
    ensures
        match first_missing(text_of(*title), text_of(*artist), text_of(*cover)) {
            Some(field) => r == Err::<LabelDescriptor, LabelError>(LabelError::MissingField(field)),
            None => r matches Ok(d) && d.is_normalized(
                title->0@,
                artist->0@,
                text_of(*release_year),
                cover->0@,
            ),
        },
{
    let a = match required(artist) {
        Some(a) => a,
        None => return Err(LabelError::MissingField(Field::Artist)),
    };
    let t = match required(title) {
        Some(t) => t,
        None => return Err(LabelError::MissingField(Field::Title)),
    };
    let c = match required(cover) {
        Some(c) => c,
        None => return Err(LabelError::MissingField(Field::Cover)),
    };
    Ok(LabelDescriptor::normalized(t.as_str(), a.as_str(), release_year, c.as_str()))
}

/// Whether `labels` are the descriptors of `entries`, one for one and in the
/// same order.
pub open spec fn describes(labels: Seq<LabelDescriptor>, entries: Seq<LabelEntry>) -> bool {
    &&& labels.len() == entries.len()
    &&& forall|i: int|
        0 <= i < entries.len() ==> (#[trigger] labels[i]).is_normalized(
            entries[i].title@,
            entries[i].artist@,
            text_of(entries[i].release_year),
            entries[i].cover@,
        )
}

/// The labels of a layout file: one descriptor for each entry, in the order
/// of the file.
pub fn batch_labels(entries: &Vec<LabelEntry>) -> (labels: Vec<LabelDescriptor>)
    ensures
        describes(labels@, entries@),
{
    let mut labels: Vec<LabelDescriptor> = Vec::new();
    let mut i: usize = 0;
    while i < entries.len()
        invariant
            0 <= i <= entries.len(),
            describes(labels@, entries@.subrange(0, i as int)),
        decreases entries.len() - i,
    {
        let e = &entries[i];
        let d = LabelDescriptor::normalized(
            e.title.as_str(),
            e.artist.as_str(),
            &e.release_year,
            e.cover.as_str(),
        );
        labels.push(d);
        i = i + 1;
    }
    assert(entries@.subrange(0, i as int) =~= entries@);
    labels
}

/// Chooses between the two sources. With a layout path the labels come from
/// that file and the single-label fields are ignored; without one the
/// fields must describe a label.
pub fn label_source(request: &LabelRequest) -> (r: Result<LabelSource, LabelError>)
    ensures
        match request.layout {
            Some(path) => r matches Ok(LabelSource::Layout(p)) && p@ == path@,
            None => match first_missing(
                text_of(request.title),
                text_of(request.artist),
                text_of(request.cover),
            ) {
                Some(field) => r == Err::<LabelSource, LabelError>(LabelError::MissingField(field)),
                None => r matches Ok(LabelSource::Single(d)) && d.is_normalized(
                    request.title->0@,
                    request.artist->0@,
                    text_of(request.release_year),
                    request.cover->0@,
                ),
            },
        },
{
    match &request.layout {
        Some(path) => Ok(LabelSource::Layout(path.clone())),
        None => match single_label(
            &request.title,
            &request.artist,
            &request.release_year,
            &request.cover,
        ) {
            Ok(d) => Ok(LabelSource::Single(d)),
            Err(e) => Err(e),
        },
    }
}

/// A single label is produced exactly when title, artist and cover are all
/// present; whether a release year is given plays no part.
pub proof fn lemma_single_label_succeeds(
    title: Option<Seq<char>>,
    artist: Option<Seq<char>>,
    cover: Option<Seq<char>>,
)
    ensures
        first_missing(title, artist, cover).is_none() <==> present(title) && present(artist)
            && present(cover),
{
}

} // verus!
