//! The domain model written by the extension handlers: one feed entry and
//! the category and link values extracted onto it.

use vstd::prelude::*;

verus! {

/// Spec-level value of an optional owned string.
pub open spec fn opt_str_view(o: Option<String>) -> Option<Seq<char>> {
    match o {
        Some(s) => Some(s@),
        None => None,
    }
}

/// A category assigned to an entry: a required term, plus an optional
/// classification-scheme URI and an optional human-readable label.
#[derive(Debug, PartialEq, Eq, Clone)]
pub struct Category {
    pub term: String,
    pub scheme: Option<String>,
    pub label: Option<String>,
}

/// Spec-level value of a `Category`.
pub struct CategoryView {
    pub term: Seq<char>,
    pub scheme: Option<Seq<char>>,
    pub label: Option<Seq<char>>,
}

impl View for Category {
    type V = CategoryView;

    open spec fn view(&self) -> CategoryView {
        CategoryView {
            term: self.term@,
            scheme: opt_str_view(self.scheme),
            label: opt_str_view(self.label),
        }
    }
}

/// Spec-level value of an optional `Category`.
pub open spec fn opt_category_view(o: Option<Category>) -> Option<CategoryView> {
    match o {
        Some(c) => Some(c@),
        None => None,
    }
}

impl Category {
    /// A fresh category: the given term and nothing else. A category is
    /// never constructed without a term.
    pub fn new(term: &str) -> (c: Category)
        ensures
            c@ == (CategoryView { term: term@, scheme: None, label: None }),
    {
        Category { term: term.to_owned(), scheme: None, label: None }
    }
}

/// A link carried by an entry: a required href plus optional relation,
/// media type, language, title and content length.
#[derive(Debug, PartialEq, Eq, Clone)]
pub struct Link {
    pub href: String,
    pub rel: Option<String>,
    pub media_type: Option<String>,
    pub href_lang: Option<String>,
    pub title: Option<String>,
    pub length: Option<u64>,
}

/// Spec-level value of a `Link`.
pub struct LinkView {
    pub href: Seq<char>,
    pub rel: Option<Seq<char>>,
    pub media_type: Option<Seq<char>>,
    pub href_lang: Option<Seq<char>>,
    pub title: Option<Seq<char>>,
    pub length: Option<u64>,
}

impl View for Link {
    type V = LinkView;

    open spec fn view(&self) -> LinkView {
        LinkView {
            href: self.href@,
            rel: opt_str_view(self.rel),
            media_type: opt_str_view(self.media_type),
            href_lang: opt_str_view(self.href_lang),
            title: opt_str_view(self.title),
            length: self.length,
        }
    }
}

/// Spec-level value of an optional `Link`.
pub open spec fn opt_link_view(o: Option<Link>) -> Option<LinkView> {
    match o {
        Some(l) => Some(l@),
        None => None,
    }
}

/// The feed entry being built: the metadata fields the arXiv handler may
/// write. Created empty and filled incrementally, one element at a time,
/// with overwrite-on-repeat semantics.
#[derive(Debug, PartialEq, Eq, Clone)]
pub struct Entry {
    pub primary_category: Option<Category>,
    pub comment: Option<String>,
    pub journal_ref: Option<String>,
    pub doi: Option<Link>,
}

/// Spec-level value of an `Entry`.
pub struct EntryView {
    pub primary_category: Option<CategoryView>,
    pub comment: Option<Seq<char>>,
    pub journal_ref: Option<Seq<char>>,
    pub doi: Option<LinkView>,
}

impl View for Entry {
    type V = EntryView;

    open spec fn view(&self) -> EntryView {
        EntryView {
            primary_category: opt_category_view(self.primary_category),
            comment: opt_str_view(self.comment),
            journal_ref: opt_str_view(self.journal_ref),
            doi: opt_link_view(self.doi),
        }
    }
}

impl Entry {
    /// A fresh entry with every field unset.
    pub fn new() -> (e: Entry)
        ensures
            e@ == (EntryView {
                primary_category: None,
                comment: None,
                journal_ref: None,
                doi: None,
            }),
    {
        Entry { primary_category: None, comment: None, journal_ref: None, doi: None }
    }
}

} // verus!
