//! Handler for the arXiv extension namespace: writes category, comment,
//! journal-reference and DOI metadata onto the entry being parsed.

use vstd::prelude::*;
use crate::model::{
    Category, CategoryView, Entry, EntryView, Link, LinkView, opt_category_view, opt_link_view,
};
use crate::parser::ParseFeedResult;
use crate::xml::{
    Element, ElementView, NS, attr_absent, attr_only_at, first_attr, last_attr, lemma_attr_absent,
    lemma_attr_only_at, str_eq,
};

verus! {

/// Where one (namespace, tag) pair routes: to at most one extraction
/// routine.
#[derive(Debug, PartialEq, Eq, Structural, Clone, Copy)]
pub enum Route {
    /// `primary_category`: extract a category from the attributes.
    PrimaryCategory,
    /// `comment`: assign the collapsed child text.
    Comment,
    /// `affiliation`: recognized but not yet mapped; treated as benign.
    Acknowledged,
    /// `journal_ref`: assign the collapsed child text.
    JournalRef,
    /// `doi`: extract a link from the child text.
    Doi,
    /// Anything else: a no-op, for forward compatibility.
    Unmatched,
}

/// The dispatch table as a function of the element's identity.
pub open spec fn spec_route(ns: NS, tag: Seq<char>) -> Route {
    if ns != NS::Arxiv {
        Route::Unmatched
    } else if tag == "primary_category"@ {
        Route::PrimaryCategory
    } else if tag == "comment"@ {
        Route::Comment
    } else if tag == "affiliation"@ {
        Route::Acknowledged
    } else if tag == "journal_ref"@ {
        Route::JournalRef
    } else if tag == "doi"@ {
        Route::Doi
    } else {
        Route::Unmatched
    }
}

/// Routes one (namespace, tag) pair to its handler variant.
pub fn route(ns: NS, tag: &str) -> (r: Route)
    ensures
        r == spec_route(ns, tag@),
{
    if ns != NS::Arxiv {
        Route::Unmatched
    } else if str_eq(tag, "primary_category") {
        Route::PrimaryCategory
    } else if str_eq(tag, "comment") {
        Route::Comment
    } else if str_eq(tag, "affiliation") {
        Route::Acknowledged
    } else if str_eq(tag, "journal_ref") {
        Route::JournalRef
    } else if str_eq(tag, "doi") {
        Route::Doi
    } else {
        Route::Unmatched
    }
}

/// The category a `primary_category` element yields. A term is required;
/// without one there is no value. With one, `scheme` and `label` come from
/// a scan of every attribute in document order, a later occurrence
/// replacing an earlier one; any other attribute is ignored.
pub open spec fn spec_primary_category(e: ElementView) -> Option<CategoryView> {
    match first_attr(e.attributes, "term"@) {
        Some(term) => Some(
            CategoryView {
                term: term,
                scheme: last_attr(e.attributes, "scheme"@),
                label: last_attr(e.attributes, "label"@),
            },
        ),
        None => None,
    }
}

/// The link a `doi` element yields from non-empty child text: the fixed
/// resolver prefix before the raw text (no escaping), a fixed relation,
/// media type and language, the raw text as title, and no length.
pub open spec fn spec_doi_link(text: Seq<char>) -> LinkView {
    LinkView {
        href: "https://dx.doi.org/"@ + text,
        rel: Some("related"@),
        media_type: Some("text/html"@),
        href_lang: Some("en"@),
        title: Some(text),
        length: None,
    }
}

/// What a `doi` element yields: no value when the child text is absent or
/// empty, otherwise the deterministic link built from it.
pub open spec fn spec_doi(e: ElementView) -> Option<LinkView> {
    match e.child_text {
        Some(text) => if text.len() > 0 {
            Some(spec_doi_link(text))
        } else {
            None
        },
        None => None,
    }
}

/// One element's effect on the entry: at most one field is rewritten, and
/// an acknowledged-but-unmapped or unknown tag changes nothing.
pub open spec fn spec_handle_arxiv(entry: EntryView, e: ElementView) -> EntryView {
    match spec_route(e.ns, e.tag) {
        Route::PrimaryCategory => EntryView {
            primary_category: spec_primary_category(e),
            ..entry
        },
        Route::Comment => EntryView { comment: e.child_text, ..entry },
        Route::Acknowledged => entry,
        Route::JournalRef => EntryView { journal_ref: e.child_text, ..entry },
        Route::Doi => EntryView { doi: spec_doi(e), ..entry },
        Route::Unmatched => entry,
    }
}

/// Extracts the optional category from a `primary_category` element.
pub fn handle_primary_category(element: Element) -> (r: Option<Category>)
    ensures
        opt_category_view(r) == spec_primary_category(element@),
{
    // A term is required
    if let Some(term) = element.attr_value("term") {
        let mut category = Category::new(term.as_str());
        let ghost attrs = element@.attributes;
        let n: usize = element.attributes.len();
        let mut i: usize = 0;
        proof {
            assert(attrs.take(0) =~= Seq::<crate::xml::AttributeView>::empty());
        }
        while i < n
            invariant
                n == element.attributes.len(),
                attrs == element@.attributes,
                i <= n,
                category@.term == term@,
                category@.scheme == last_attr(attrs.take(i as int), "scheme"@),
                category@.label == last_attr(attrs.take(i as int), "label"@),
            decreases n - i,
        {
            let a = &element.attributes[i];
            proof {
                assert(attrs[i as int] == a@);
                assert(attrs.take(i as int + 1).drop_last() =~= attrs.take(i as int));
                assert(attrs.take(i as int + 1).last() == attrs[i as int]);
                reveal_strlit("scheme");
                reveal_strlit("label");
                assert("scheme"@.len() == 6);
                assert("label"@.len() == 5);
                assert("scheme"@ != "label"@);
            }
            if str_eq(a.name.as_str(), "scheme") {
                category.scheme = Some(a.value.clone());
            } else if str_eq(a.name.as_str(), "label") {
                category.label = Some(a.value.clone());
            }
            // Unrecognized attributes are ignored without error
            i += 1;
        }
        proof {
            assert(attrs.take(n as int) =~= attrs);
        }
        Some(category)
    } else {
        // A missing term is benign: no category at all
        None
    }
}

/// Extracts the optional DOI link from a `doi` element.
pub fn handle_doi(element: Element) -> (r: Option<Link>)
    ensures
        opt_link_view(r) == spec_doi(element@),
{
    match element.child_as_text() {
        Some(text) => {
            if text.as_str().is_empty() {
                None
            } else {
                let href = "https://dx.doi.org/".to_owned().concat(text.as_str());
                Some(
                    Link {
                        href,
                        rel: Some("related".to_owned()),
                        media_type: Some("text/html".to_owned()),
                        href_lang: Some("en".to_owned()),
                        title: Some(text),
                        length: None,
                    },
                )
            }
        },
        None => None,
    }
}

/// Handles one element on behalf of the arXiv namespace: writes any
/// recognized metadata onto the entry, treats unknown or not-yet-mapped
/// tags as benign no-ops, and never originates an error for malformed
/// extension data.
pub fn handle_arxiv_element(element: Element, entry: &mut Entry) -> (r: ParseFeedResult<()>)
    ensures
        r is Ok,
        final(entry)@ == spec_handle_arxiv(old(entry)@, element@),
{
    let (ns, tag) = element.ns_and_tag();
    let target = route(ns, tag);
    match target {
        Route::PrimaryCategory => {
            entry.primary_category = handle_primary_category(element);
        },
        Route::Comment => {
            entry.comment = element.child_as_text();
        },
        Route::Acknowledged => {
            // Acknowledged, not yet mapped: benign-absent, never a failure.
        },
        Route::JournalRef => {
            entry.journal_ref = element.child_as_text();
        },
        Route::Doi => {
            entry.doi = handle_doi(element);
        },
        Route::Unmatched => {},
    }
    Ok(())
}

/// Every `doi` element with non-empty child text sets the entry's DOI to a
/// link whose href is the fixed resolver prefix followed by the raw text,
/// whose relation, media type and language are fixed, whose title is the
/// raw text, and which carries no length.
pub proof fn lemma_doi_nonempty_text(entry: EntryView, e: ElementView, text: Seq<char>)
    requires
        e.ns == NS::Arxiv,
        e.tag == "doi"@,
        e.child_text == Some(text),
        text.len() > 0,
    ensures
        spec_handle_arxiv(entry, e) == (EntryView { doi: Some(spec_doi_link(text)), ..entry }),
        spec_doi_link(text).href == "https://dx.doi.org/"@ + text,
        spec_doi_link(text).rel == Some("related"@),
        spec_doi_link(text).media_type == Some("text/html"@),
        spec_doi_link(text).href_lang == Some("en"@),
        spec_doi_link(text).title == Some(text),
        spec_doi_link(text).length is None,
{
    lemma_routes_distinct();
}

/// Every `doi` element with empty or absent child text leaves the entry's
/// DOI unset, and changes nothing else.
pub proof fn lemma_doi_empty_text(entry: EntryView, e: ElementView)
    requires
        e.ns == NS::Arxiv,
        e.tag == "doi"@,
        e.child_text matches Some(text) ==> text.len() == 0,
    ensures
        spec_handle_arxiv(entry, e).doi is None,
        spec_handle_arxiv(entry, e) == (EntryView { doi: None, ..entry }),
{
    lemma_routes_distinct();
}

/// Every `primary_category` element without a `term` attribute leaves the
/// entry's primary category unset, and changes nothing else.
pub proof fn lemma_primary_category_needs_term(entry: EntryView, e: ElementView)
    requires
        e.ns == NS::Arxiv,
        e.tag == "primary_category"@,
        attr_absent(e.attributes, "term"@),
    ensures
        spec_handle_arxiv(entry, e).primary_category is None,
        spec_handle_arxiv(entry, e) == (EntryView { primary_category: None, ..entry }),
{
    lemma_attr_absent(e.attributes, "term"@);
}

/// With `term` supplied exactly once, and `scheme` and `label` each
/// supplied at most once, the extracted category carries exactly the
/// supplied values — wherever each of the three stands among the
/// attributes, and whatever unrecognized attributes stand beside them.
pub proof fn lemma_primary_category_exact(e: ElementView, ti: int, si: Option<int>, li: Option<int>)
    requires
        attr_only_at(e.attributes, "term"@, ti),
        match si {
            Some(s) => attr_only_at(e.attributes, "scheme"@, s),
            None => attr_absent(e.attributes, "scheme"@),
        },
        match li {
            Some(l) => attr_only_at(e.attributes, "label"@, l),
            None => attr_absent(e.attributes, "label"@),
        },
    ensures
        spec_primary_category(e) == Some(
            CategoryView {
                term: e.attributes[ti].value,
                scheme: match si {
                    Some(s) => Some(e.attributes[s].value),
                    None => None,
                },
                label: match li {
                    Some(l) => Some(e.attributes[l].value),
                    None => None,
                },
            },
        ),
{
    lemma_attr_only_at(e.attributes, "term"@, ti);
    match si {
        Some(s) => lemma_attr_only_at(e.attributes, "scheme"@, s),
        None => lemma_attr_absent(e.attributes, "scheme"@),
    }
    match li {
        Some(l) => lemma_attr_only_at(e.attributes, "label"@, l),
        None => lemma_attr_absent(e.attributes, "label"@),
    }
}

/// An element of the arXiv namespace whose tag is none of the recognized
/// ones leaves the entry unchanged; with the dispatcher's unconditional
/// success, such markup can never fail the parse.
pub proof fn lemma_unknown_tag_is_no_op(entry: EntryView, e: ElementView)
    requires
        e.tag != "primary_category"@,
        e.tag != "comment"@,
        e.tag != "affiliation"@,
        e.tag != "journal_ref"@,
        e.tag != "doi"@,
    ensures
        spec_handle_arxiv(entry, e) == entry,
{
}

/// An `affiliation` element is acknowledged but not yet mapped: it leaves
/// the entry unchanged instead of aborting the parse.
pub proof fn lemma_affiliation_is_benign(entry: EntryView, e: ElementView)
    requires
        e.tag == "affiliation"@,
    ensures
        spec_handle_arxiv(entry, e) == entry,
{
    lemma_routes_distinct();
}

/// The five recognized tags differ pairwise, so each reaches its own
/// branch of the dispatch table.
proof fn lemma_routes_distinct()
    ensures
        "primary_category"@ != "comment"@,
        "primary_category"@ != "affiliation"@,
        "primary_category"@ != "journal_ref"@,
        "primary_category"@ != "doi"@,
        "comment"@ != "affiliation"@,
        "comment"@ != "journal_ref"@,
        "comment"@ != "doi"@,
        "affiliation"@ != "journal_ref"@,
        "affiliation"@ != "doi"@,
        "journal_ref"@ != "doi"@,
{
    reveal_strlit("primary_category");
    reveal_strlit("comment");
    reveal_strlit("affiliation");
    reveal_strlit("journal_ref");
    reveal_strlit("doi");
    assert("primary_category"@.len() == 16);
    assert("comment"@.len() == 7);
    assert("affiliation"@.len() == 11);
    assert("journal_ref"@.len() == 11);
    assert("doi"@.len() == 3);
    assert("affiliation"@[0] == 'a');
    assert("journal_ref"@[0] == 'j');
}

} // verus!
