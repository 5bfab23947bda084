use feed_rs::model::{Category, Entry, Link};
use feed_rs::parser::arxiv::{handle_arxiv_element, handle_doi, handle_primary_category};
use feed_rs::xml::{Attribute, Element, NS};

fn attr(name: &str, value: &str) -> Attribute {
    Attribute { name: name.to_string(), value: value.to_string() }
}

fn element(ns: NS, tag: &str, attributes: Vec<Attribute>, text: Option<&str>) -> Element {
    Element { ns, tag: tag.to_string(), attributes, child_text: text.map(|t| t.to_string()) }
}

fn filled_entry() -> Entry {
    Entry {
        primary_category: Some(Category {
            term: "cs.LO".to_string(),
            scheme: None,
            label: None,
        }),
        comment: Some("earlier comment".to_string()),
        journal_ref: Some("J. Ex. 1 (2020)".to_string()),
        doi: Some(Link {
            href: "https://dx.doi.org/10.1/old".to_string(),
            rel: Some("related".to_string()),
            media_type: Some("text/html".to_string()),
            href_lang: Some("en".to_string()),
            title: Some("10.1/old".to_string()),
            length: None,
        }),
    }
}

#[test]
fn doi_builds_link() {
    let e = element(NS::Arxiv, "doi", vec![], Some("10.1000/xyz123"));
    let link = handle_doi(e).unwrap();
    assert_eq!(link.href, "https://dx.doi.org/10.1000/xyz123");
    assert_eq!(link.rel, Some("related".to_string()));
    assert_eq!(link.media_type, Some("text/html".to_string()));
    assert_eq!(link.href_lang, Some("en".to_string()));
    assert_eq!(link.title, Some("10.1000/xyz123".to_string()));
    assert_eq!(link.length, None);
}

#[test]
fn doi_written_through_dispatcher() {
    let mut entry = Entry::new();
    let e = element(NS::Arxiv, "doi", vec![], Some("10.1000/xyz123"));
    let r = handle_arxiv_element(e, &mut entry);
    assert!(r.is_ok());
    let link = entry.doi.unwrap();
    assert_eq!(link.href, "https://dx.doi.org/10.1000/xyz123");
    assert_eq!(link.title, Some("10.1000/xyz123".to_string()));
    assert_eq!(entry.comment, None);
    assert_eq!(entry.journal_ref, None);
    assert_eq!(entry.primary_category, None);
}

#[test]
fn doi_empty_text_yields_no_link() {
    let e = element(NS::Arxiv, "doi", vec![], Some(""));
    assert_eq!(handle_doi(e), None);
}

#[test]
fn doi_absent_text_yields_no_link() {
    let e = element(NS::Arxiv, "doi", vec![], None);
    assert_eq!(handle_doi(e), None);
}

#[test]
fn doi_repeated_element_overwrites() {
    let mut entry = Entry::new();
    let first = element(NS::Arxiv, "doi", vec![], Some("10.1/first"));
    let second = element(NS::Arxiv, "doi", vec![], Some("10.2/second"));
    assert!(handle_arxiv_element(first, &mut entry).is_ok());
    assert!(handle_arxiv_element(second, &mut entry).is_ok());
    let link = entry.doi.unwrap();
    assert_eq!(link.href, "https://dx.doi.org/10.2/second");
    assert_eq!(link.title, Some("10.2/second".to_string()));
}

#[test]
fn primary_category_full_attributes() {
    let e = element(
        NS::Arxiv,
        "primary_category",
        vec![
            attr("term", "cs.AI"),
            attr("scheme", "http://arxiv.org/schemas/atom"),
            attr("label", "Artificial Intelligence"),
        ],
        None,
    );
    let category = handle_primary_category(e).unwrap();
    assert_eq!(category.term, "cs.AI");
    assert_eq!(category.scheme, Some("http://arxiv.org/schemas/atom".to_string()));
    assert_eq!(category.label, Some("Artificial Intelligence".to_string()));
}

#[test]
fn primary_category_no_attributes_yields_none() {
    let e = element(NS::Arxiv, "primary_category", vec![], None);
    assert_eq!(handle_primary_category(e), None);
}

#[test]
fn primary_category_without_term_yields_none() {
    let e = element(
        NS::Arxiv,
        "primary_category",
        vec![attr("scheme", "http://arxiv.org/schemas/atom"), attr("label", "AI")],
        None,
    );
    assert_eq!(handle_primary_category(e), None);
}

#[test]
fn primary_category_attribute_order_is_irrelevant() {
    let forward = element(
        NS::Arxiv,
        "primary_category",
        vec![attr("term", "cs.AI"), attr("scheme", "s"), attr("label", "l")],
        None,
    );
    let backward = element(
        NS::Arxiv,
        "primary_category",
        vec![attr("label", "l"), attr("scheme", "s"), attr("term", "cs.AI")],
        None,
    );
    assert_eq!(handle_primary_category(forward), handle_primary_category(backward));
}

#[test]
fn primary_category_scheme_only() {
    let e = element(
        NS::Arxiv,
        "primary_category",
        vec![attr("term", "cs.AI"), attr("scheme", "s")],
        None,
    );
    let category = handle_primary_category(e).unwrap();
    assert_eq!(category.term, "cs.AI");
    assert_eq!(category.scheme, Some("s".to_string()));
    assert_eq!(category.label, None);
}

#[test]
fn primary_category_label_only() {
    let e = element(
        NS::Arxiv,
        "primary_category",
        vec![attr("label", "l"), attr("term", "cs.AI")],
        None,
    );
    let category = handle_primary_category(e).unwrap();
    assert_eq!(category.term, "cs.AI");
    assert_eq!(category.scheme, None);
    assert_eq!(category.label, Some("l".to_string()));
}

#[test]
fn primary_category_ignores_unknown_attributes() {
    let e = element(
        NS::Arxiv,
        "primary_category",
        vec![attr("xmlns", "x"), attr("term", "cs.AI"), attr("rank", "1")],
        None,
    );
    let category = handle_primary_category(e).unwrap();
    assert_eq!(category.term, "cs.AI");
    assert_eq!(category.scheme, None);
    assert_eq!(category.label, None);
}

#[test]
fn primary_category_repeated_scheme_last_wins() {
    let e = element(
        NS::Arxiv,
        "primary_category",
        vec![attr("term", "cs.AI"), attr("scheme", "first"), attr("scheme", "second")],
        None,
    );
    let category = handle_primary_category(e).unwrap();
    assert_eq!(category.scheme, Some("second".to_string()));
}

#[test]
fn primary_category_repeated_term_first_wins() {
    let e = element(
        NS::Arxiv,
        "primary_category",
        vec![attr("term", "first"), attr("term", "second")],
        None,
    );
    let category = handle_primary_category(e).unwrap();
    assert_eq!(category.term, "first");
}

#[test]
fn primary_category_written_through_dispatcher() {
    let mut entry = Entry::new();
    let e = element(NS::Arxiv, "primary_category", vec![attr("term", "cs.AI")], None);
    assert!(handle_arxiv_element(e, &mut entry).is_ok());
    assert_eq!(entry.primary_category.unwrap().term, "cs.AI");
}

#[test]
fn primary_category_without_term_stays_unset() {
    let mut entry = Entry::new();
    let e = element(NS::Arxiv, "primary_category", vec![], None);
    assert!(handle_arxiv_element(e, &mut entry).is_ok());
    assert_eq!(entry.primary_category, None);
}

#[test]
fn comment_assigned_from_child_text() {
    let mut entry = Entry::new();
    let e = element(NS::Arxiv, "comment", vec![], Some("Accepted at X"));
    assert!(handle_arxiv_element(e, &mut entry).is_ok());
    assert_eq!(entry.comment, Some("Accepted at X".to_string()));
}

#[test]
fn comment_repeated_element_overwrites() {
    let mut entry = Entry::new();
    let first = element(NS::Arxiv, "comment", vec![], Some("first"));
    let second = element(NS::Arxiv, "comment", vec![], Some("second"));
    assert!(handle_arxiv_element(first, &mut entry).is_ok());
    assert!(handle_arxiv_element(second, &mut entry).is_ok());
    assert_eq!(entry.comment, Some("second".to_string()));
}

#[test]
fn journal_ref_assigned_from_child_text() {
    let mut entry = Entry::new();
    let e = element(NS::Arxiv, "journal_ref", vec![], Some("Phys. Rev. 47 (1935) 777"));
    assert!(handle_arxiv_element(e, &mut entry).is_ok());
    assert_eq!(entry.journal_ref, Some("Phys. Rev. 47 (1935) 777".to_string()));
}

#[test]
fn unknown_tag_is_a_successful_no_op() {
    let mut entry = filled_entry();
    let before = entry.clone();
    let e = element(NS::Arxiv, "license", vec![attr("term", "x")], Some("text"));
    let r = handle_arxiv_element(e, &mut entry);
    assert!(r.is_ok());
    assert_eq!(entry, before);
}

#[test]
fn affiliation_is_acknowledged_without_crashing() {
    let mut entry = filled_entry();
    let before = entry.clone();
    let e = element(NS::Arxiv, "affiliation", vec![], Some("Example University"));
    let r = handle_arxiv_element(e, &mut entry);
    assert!(r.is_ok());
    assert_eq!(entry, before);
}

#[test]
fn other_namespace_is_a_no_op() {
    let mut entry = filled_entry();
    let before = entry.clone();
    let e = element(NS::Atom, "comment", vec![], Some("not for this handler"));
    assert!(handle_arxiv_element(e, &mut entry).is_ok());
    assert_eq!(entry, before);
}

#[test]
fn entry_starts_empty() {
    let entry = Entry::new();
    assert_eq!(entry.primary_category, None);
    assert_eq!(entry.comment, None);
    assert_eq!(entry.journal_ref, None);
    assert_eq!(entry.doi, None);
}

#[test]
fn category_starts_with_term_only() {
    let category = Category::new("cs.AI");
    assert_eq!(category.term, "cs.AI");
    assert_eq!(category.scheme, None);
    assert_eq!(category.label, None);
}

#[test]
fn attr_value_returns_first_match() {
    let e = element(
        NS::Arxiv,
        "primary_category",
        vec![attr("a", "1"), attr("term", "t1"), attr("term", "t2")],
        None,
    );
    assert_eq!(e.attr_value("term"), Some("t1".to_string()));
    assert_eq!(e.attr_value("missing"), None);
}

#[test]
fn child_as_text_returns_collapsed_text() {
    let with_text = element(NS::Arxiv, "comment", vec![], Some("hello"));
    let without = element(NS::Arxiv, "comment", vec![], None);
    assert_eq!(with_text.child_as_text(), Some("hello".to_string()));
    assert_eq!(without.child_as_text(), None);
}
