//! The lines of text of a label and where each one starts.

use crate::layout::Layout;
use vstd::prelude::*;

verus! {

/// A colour: red, green and blue, each from 0 to 255.
#[derive(Clone, Copy, Debug, PartialEq, Eq, Structural)]
pub struct Colour {
    pub red: u8,
    pub green: u8,
    pub blue: u8,
}

/// One line of text to draw on a label: where its top-left corner goes, how
/// high it is in pixels, its colour and its characters.
#[derive(Clone, Debug, PartialEq, Eq)]
pub struct TextLine {
    pub x: i32,
    pub y: i32,
    pub size: u32,
    pub colour: Colour,
    pub text: String,
}

/// The mathematical content of a [`TextLine`].
pub struct LineSpec {
    pub x: int,
    pub y: int,
    pub size: int,
    pub colour: Colour,
    pub text: Seq<char>,
}

impl View for TextLine {
    type V = LineSpec;

    open spec fn view(&self) -> LineSpec {
        LineSpec {
            x: self.x as int,
            y: self.y as int,
            size: self.size as int,
            colour: self.colour,
            text: self.text@,
        }
    }
}

/// The colour of all text: white.
pub open spec fn text_colour() -> Colour {
    Colour { red: 255, green: 255, blue: 255 }
}

/// A line of `text` in row `y`: it starts at the padding, in the layout's
/// text height, in white.
pub open spec fn line_at(l: Layout, y: int, text: Seq<char>) -> LineSpec {
    LineSpec { x: l.text_x(), y, size: l.text_size as int, colour: text_colour(), text }
}

/// The lines of a label from top to bottom: the title, the artist and, if
/// there is one, the release year.
pub open spec fn text_plan(
    l: Layout,
    title: Seq<char>,
    artist: Seq<char>,
    release_year: Option<Seq<char>>,
) -> Seq<LineSpec> {
    let head = seq![line_at(l, l.title_y(), title), line_at(l, l.artist_y(), artist)];
    match release_year {
        Some(year) => head.push(line_at(l, l.year_y(), year)),
        None => head,
    }
}

/// The contents of a vector of lines.
pub open spec fn lines_of(lines: Seq<TextLine>) -> Seq<LineSpec> {
    Seq::new(lines.len(), |i: int| lines[i]@)
}

/// Lays out the text of a label: the title a padding below the cover, the
/// artist below it, and the release year, if given, one line slot further
/// down. Without a release year there are two lines, and they are where they
/// would be with one.
pub fn text_lines(
    l: &Layout,
    title: &str,
    artist: &str,
    release_year: &Option<String>,
) -> (lines: Vec<TextLine>)
    requires
        l.wf(),
    ensures
        lines_of(lines@) == text_plan(
            *l,
            title@,
            artist@,
            match *release_year {
                Some(year) => Some(year@),
                None => None,
            },
        ),
{
    let white = Colour { red: 255, green: 255, blue: 255 };
    let at_title = l.title_position();
    let at_artist = l.artist_position();
    let mut lines: Vec<TextLine> = Vec::new();
    lines.push(
        TextLine { x: at_title.0, y: at_title.1, size: l.text_size, colour: white, text: title.to_owned() },
    );
    lines.push(
        TextLine {
            x: at_artist.0,
            y: at_artist.1,
            size: l.text_size,
            colour: white,
            text: artist.to_owned(),
        },
    );
    match release_year {
        Some(year) => {
            let at_year = l.year_position();
            lines.push(
                TextLine {
                    x: at_year.0,
                    y: at_year.1,
                    size: l.text_size,
                    colour: white,
                    text: year.clone(),
                },
            );
            assert(lines_of(lines@) =~= text_plan(*l, title@, artist@, Some(year@)));
        },
        None => {
            assert(lines_of(lines@) =~= text_plan(*l, title@, artist@, None));
        },
    }
    lines
}

/// Leaving out the release year removes the third line and nothing else:
/// title and artist are the same two lines, at the same places, with or
/// without it.
pub proof fn lemma_year_is_third_line(l: Layout, title: Seq<char>, artist: Seq<char>, year: Seq<char>)
    ensures
        text_plan(l, title, artist, None).len() == 2,
        text_plan(l, title, artist, Some(year)).len() == 3,
        text_plan(l, title, artist, Some(year)).subrange(0, 2) == text_plan(l, title, artist, None),
        text_plan(l, title, artist, Some(year))[2] == line_at(l, l.year_y(), year),
        text_plan(l, title, artist, None)[0] == line_at(l, l.title_y(), title),
        text_plan(l, title, artist, None)[1] == line_at(l, l.artist_y(), artist),
{
    assert(text_plan(l, title, artist, Some(year)).subrange(0, 2) =~= text_plan(
        l,
        title,
        artist,
        None,
    ));
}

} // verus!
