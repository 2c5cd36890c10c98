//! Reports that consist of keys and values.

use vstd::prelude::*;

verus! {

/// A value in a report.
#[derive(Debug, PartialEq, Eq)]
pub enum ReportValue {
    /// A text
    Text(String),
    /// A flag
    Flag(bool),
    /// A number
    Number(u64),
}

/// A line of a report.
#[derive(Debug, PartialEq, Eq)]
pub struct Entry {
    /// The name of the value
    pub key: &'static str,
    /// The value, if there is one
    pub value: Option<ReportValue>,
}

/// A group of lines with a title.
#[derive(Debug, PartialEq, Eq)]
pub struct Section {
    /// The title
    pub title: String,
    /// Whether the values are aligned with those of other sections
    pub aligned: bool,
    /// The lines
    pub entries: Vec<Entry>,
}

/// A group of sections with a title.
#[derive(Debug, PartialEq, Eq)]
pub struct Chapter {
    /// The title
    pub title: String,
    /// The sections
    pub sections: Vec<Section>,
    /// The lines after the sections
    pub entries: Vec<Entry>,
}

/// The mathematical value of a value in a report.
pub enum ValueView {
    Text(Seq<char>),
    Flag(bool),
    Number(u64),
}

/// The mathematical value of a section.
pub struct SectionView {
    pub title: Seq<char>,
    pub aligned: bool,
    pub entries: Seq<(Seq<char>, Option<ValueView>)>,
}

/// The mathematical value of a chapter.
pub struct ChapterView {
    pub title: Seq<char>,
    pub sections: Seq<SectionView>,
    pub entries: Seq<(Seq<char>, Option<ValueView>)>,
}

impl View for ReportValue {
    type V = ValueView;

    open spec fn view(&self) -> ValueView {
        match *self {
            ReportValue::Text(text) => ValueView::Text(text@),
            ReportValue::Flag(flag) => ValueView::Flag(flag),
            ReportValue::Number(n) => ValueView::Number(n),
        }
    }
}

impl View for Entry {
    type V = (Seq<char>, Option<ValueView>);

    open spec fn view(&self) -> (Seq<char>, Option<ValueView>) {
        (
            self.key@,
            match self.value {
                Some(value) => Some(value@),
                None => None,
            },
        )
    }
}

/// The mathematical values of several lines.
pub open spec fn lines(entries: Seq<Entry>) -> Seq<(Seq<char>, Option<ValueView>)> {
    entries.map_values(|entry: Entry| entry@)
}

impl View for Section {
    type V = SectionView;

    open spec fn view(&self) -> SectionView {
        SectionView {
            title: self.title@,
            aligned: self.aligned,
            entries: lines(self.entries@),
        }
    }
}

/// The mathematical values of several sections.
pub open spec fn section_views(sections: Seq<Section>) -> Seq<SectionView> {
    sections.map_values(|section: Section| section@)
}

impl View for Chapter {
    type V = ChapterView;

    open spec fn view(&self) -> ChapterView {
        ChapterView {
            title: self.title@,
            sections: section_views(self.sections@),
            entries: lines(self.entries@),
        }
    }
}

/// The mathematical values of several chapters.
pub open spec fn chapter_views(chapters: Seq<Chapter>) -> Seq<ChapterView> {
    chapters.map_values(|chapter: Chapter| chapter@)
}

/// Makes a line with a text.
pub fn text_entry(key: &'static str, text: String) -> (entry: Entry)
    ensures
        entry@ == (key@, Some(ValueView::Text(text@))),
{
    Entry { key, value: Some(ReportValue::Text(text)) }
}

/// Makes a line with a flag.
pub fn flag_entry(key: &'static str, flag: bool) -> (entry: Entry)
    ensures
        entry@ == (key@, Some(ValueView::Flag(flag))),
{
    Entry { key, value: Some(ReportValue::Flag(flag)) }
}

/// Makes a line with a number, if there is one.
pub fn number_entry(key: &'static str, number: Option<u64>) -> (entry: Entry)
    ensures
        entry@ == (
            key@,
            match number {
                Some(n) => Some(ValueView::Number(n)),
                None => None,
            },
        ),
{
    Entry {
        key,
        value: match number {
            Some(n) => Some(ReportValue::Number(n)),
            None => None,
        },
    }
}

} // verus!
