//! The properties pane: what is known of the document, and the settings.

use crate::document::{DocumentInfo, DocumentMeta};
use crate::outside::{lossy_chars, lossy_text};
use crate::size::{format_size, size_text};
use crate::text::{signed_decimal, signed_numeral};
use crate::viewer::optional_info;
use vstd::prelude::*;

verus! {

/// What stands beside a label.
#[derive(Clone, Debug)]
pub enum Value {
    Text(String),
    Toggle(bool),
}

/// A labelled line.
#[derive(Clone, Debug)]
pub struct Row {
    pub label: String,
    pub value: Value,
}

/// A titled group of lines.
#[derive(Clone, Debug)]
pub struct Section {
    pub title: String,
    pub rows: Vec<Row>,
}

/// What a [`Value`] holds.
pub enum ValueText {
    Text(Seq<char>),
    Toggle(bool),
}

/// What a [`Row`] holds.
pub struct RowText {
    pub label: Seq<char>,
    pub value: ValueText,
}

/// What a [`Section`] holds.
pub struct SectionText {
    pub title: Seq<char>,
    pub rows: Seq<RowText>,
}

impl View for Value {
    type V = ValueText;

    open spec fn view(&self) -> ValueText {
        match self {
            Value::Text(text) => ValueText::Text(text@),
            Value::Toggle(on) => ValueText::Toggle(*on),
        }
    }
}

impl View for Row {
    type V = RowText;

    open spec fn view(&self) -> RowText {
        RowText { label: self.label@, value: self.value@ }
    }
}

/// The views of a list of lines.
pub open spec fn row_texts(rows: Seq<Row>) -> Seq<RowText> {
    rows.map_values(|row: Row| row@)
}

impl View for Section {
    type V = SectionText;

    open spec fn view(&self) -> SectionText {
        SectionText { title: self.title@, rows: row_texts(self.rows@) }
    }
}

/// The views of a list of groups.
pub open spec fn section_texts(sections: Seq<Section>) -> Seq<SectionText> {
    sections.map_values(|section: Section| section@)
}

/// A line of text.
pub open spec fn line(label: Seq<char>, text: Seq<char>) -> RowText {
    RowText { label, value: ValueText::Text(text) }
}

/// A line of text where there is a text, else none.
pub open spec fn optional_line(label: Seq<char>, text: Option<Seq<char>>) -> Seq<RowText> {
    match text {
        Some(t) => seq![line(label, t)],
        None => seq![],
    }
}

/// The group on the file.
pub open spec fn file_section(info: DocumentInfo) -> SectionText {
    SectionText {
        title: "File"@,
        rows: seq![
            line("Path"@, lossy_chars(info.file_path)),
            line("Size"@, size_text(info.file_size as nat)),
        ],
    }
}

/// The group on the document: the number of its pages, then what it says of itself.
pub open spec fn document_section(info: DocumentInfo) -> SectionText {
    SectionText {
        title: "Document"@,
        rows: seq![line("Pages"@, signed_decimal(info.page_count as int))] + optional_line(
            "Title"@,
            info.title,
        ) + optional_line("Author"@, info.author) + optional_line("Subject"@, info.subject)
            + optional_line("Creator"@, info.creator) + optional_line(
            "Producer"@,
            info.producer,
        ),
    }
}

/// The group of settings.
pub open spec fn settings_section(natural_scroll: bool) -> SectionText {
    SectionText {
        title: "Settings"@,
        rows: seq![
            RowText {
                label: "Natural scrolling"@,
                value: ValueText::Toggle(natural_scroll),
            },
        ],
    }
}

/// The groups of the pane: those on the document where there is one, then the settings.
pub open spec fn pane(info: Option<DocumentInfo>, natural_scroll: bool) -> Seq<SectionText> {
    match info {
        Some(i) => seq![
            file_section(i),
            document_section(i),
            settings_section(natural_scroll),
        ],
        None => seq![settings_section(natural_scroll)],
    }
}

fn push_line(rows: &mut Vec<Row>, label: &str, text: String)
    ensures
        row_texts(final(rows)@) == row_texts(old(rows)@).push(line(label@, text@)),
{
    rows.push(Row { label: label.to_owned(), value: Value::Text(text) });
    assert(row_texts(rows@) =~= row_texts(old(rows)@).push(line(label@, text@)));
}

fn push_optional_line(rows: &mut Vec<Row>, label: &str, text: &Option<String>)
    ensures
        row_texts(final(rows)@) == row_texts(old(rows)@) + optional_line(
            label@,
            crate::text::optional_text(*text),
        ),
{
    if let Some(t) = text {
        push_line(rows, label, t.clone());
    }
    assert(row_texts(rows@) =~= row_texts(old(rows)@) + optional_line(
        label@,
        crate::text::optional_text(*text),
    ));
}

fn describe_file(meta: &DocumentMeta) -> (section: Section)
    ensures
        section@ == file_section(meta@),
{
    let mut rows: Vec<Row> = Vec::new();
    push_line(&mut rows, "Path", lossy_text(meta.file_path.as_slice()));
    push_line(&mut rows, "Size", format_size(meta.file_size));
    assert(row_texts(rows@) =~= file_section(meta@).rows);
    Section { title: "File".to_owned(), rows }
}

fn describe_document(meta: &DocumentMeta) -> (section: Section)
    ensures
        section@ == document_section(meta@),
{
    let mut rows: Vec<Row> = Vec::new();
    push_line(&mut rows, "Pages", signed_numeral(meta.page_count));
    push_optional_line(&mut rows, "Title", &meta.title);
    push_optional_line(&mut rows, "Author", &meta.author);
    push_optional_line(&mut rows, "Subject", &meta.subject);
    push_optional_line(&mut rows, "Creator", &meta.creator);
    push_optional_line(&mut rows, "Producer", &meta.producer);
    assert(row_texts(rows@) =~= document_section(meta@).rows);
    Section { title: "Document".to_owned(), rows }
}

fn list_settings(natural_scroll: bool) -> (section: Section)
    ensures
        section@ == settings_section(natural_scroll),
{
    let rows = vec![
        Row { label: "Natural scrolling".to_owned(), value: Value::Toggle(natural_scroll) },
    ];
    assert(row_texts(rows@) =~= settings_section(natural_scroll).rows);
    Section { title: "Settings".to_owned(), rows }
}

/// The groups of the properties pane.
pub fn properties(meta: &Option<DocumentMeta>, natural_scroll: bool) -> (sections: Vec<Section>)
    ensures
        section_texts(sections@) == pane(optional_info(*meta), natural_scroll),
{
    let mut sections: Vec<Section> = Vec::new();
    if let Some(meta) = meta {
        sections.push(describe_file(meta));
        sections.push(describe_document(meta));
    }
    sections.push(list_settings(natural_scroll));
    assert(section_texts(sections@) =~= pane(optional_info(*meta), natural_scroll));
    sections
}

/// One for a text that is there, zero for one that is not.
pub open spec fn present(text: Option<Seq<char>>) -> int {
    if text is Some {
        1
    } else {
        0
    }
}

/// The group on the document gives the number of pages, and below it, in this order, title,
/// author, subject, creator and producer, each under its own label and only where it is known.
pub proof fn each_text_stands_under_its_label(info: DocumentInfo)
    ensures
        ({
            let rows = document_section(info).rows;
            let at_title = 1int;
            let at_author = at_title + present(info.title);
            let at_subject = at_author + present(info.author);
            let at_creator = at_subject + present(info.subject);
            let at_producer = at_creator + present(info.creator);
            &&& document_section(info).title == "Document"@
            &&& rows.len() == at_producer + present(info.producer)
            &&& rows[0] == (RowText {
                label: "Pages"@,
                value: ValueText::Text(signed_decimal(info.page_count as int)),
            })
            &&& info.title matches Some(t) ==> rows[at_title] == (RowText {
                label: "Title"@,
                value: ValueText::Text(t),
            })
            &&& info.author matches Some(t) ==> rows[at_author] == (RowText {
                label: "Author"@,
                value: ValueText::Text(t),
            })
            &&& info.subject matches Some(t) ==> rows[at_subject] == (RowText {
                label: "Subject"@,
                value: ValueText::Text(t),
            })
            &&& info.creator matches Some(t) ==> rows[at_creator] == (RowText {
                label: "Creator"@,
                value: ValueText::Text(t),
            })
            &&& info.producer matches Some(t) ==> rows[at_producer] == (RowText {
                label: "Producer"@,
                value: ValueText::Text(t),
            })
        }),
{
}

/// The group on the file gives its path and then its size.
pub proof fn file_is_told_by_path_and_size(info: DocumentInfo)
    ensures
        ({
            let rows = file_section(info).rows;
            &&& file_section(info).title == "File"@
            &&& rows.len() == 2
            &&& rows[0] == (RowText {
                label: "Path"@,
                value: ValueText::Text(lossy_chars(info.file_path)),
            })
            &&& rows[1] == (RowText {
                label: "Size"@,
                value: ValueText::Text(size_text(info.file_size as nat)),
            })
        }),
{
}

/// The settings come last, and they alone where there is no document. They show which way the
/// wheel scrolls.
pub proof fn settings_come_last(
    meta: Option<DocumentMeta>,
    natural_scroll: bool,
    sections: Vec<Section>,
)
    requires
        call_ensures(properties, (&meta, natural_scroll), sections),
    ensures
        meta is None ==> sections@.len() == 1,
        meta matches Some(m) ==> {
            &&& sections@.len() == 3
            &&& sections@[0]@ == file_section(m@)
            &&& sections@[1]@ == document_section(m@)
        },
        sections@.last().title@ == "Settings"@,
        sections@.last().rows@.len() == 1,
        sections@.last().rows@[0].label@ == "Natural scrolling"@,
        sections@.last().rows@[0].value == Value::Toggle(natural_scroll),
{
    let all = section_texts(sections@);
    assert(all.len() == sections@.len());
    assert forall|i: int| 0 <= i < all.len() implies all[i] == #[trigger] sections@[i]@ by {}
    let last = sections@.last();
    assert(all.last() == last@);
    assert(last@.rows.len() == last.rows@.len());
    assert(last@.rows[0] == last.rows@[0]@);
}

/// The view of a group has its title, and the label and the value of each of its lines.
pub proof fn group_views_are_faithful(section: Section, i: int)
    requires
        0 <= i < section.rows@.len(),
    ensures
        section@.title == section.title@,
        section@.rows.len() == section.rows@.len(),
        section@.rows[i].label == section.rows@[i].label@,
        section.rows@[i].value matches Value::Text(t) ==> section@.rows[i].value
            == ValueText::Text(t@),
        section.rows@[i].value matches Value::Toggle(on) ==> section@.rows[i].value
            == ValueText::Toggle(on),
{
}

} // verus!
