use chalmers_thesis::document::html_document_ops;
use chalmers_thesis::document::latex_document_ops;
use chalmers_thesis::document::merge_imports;
use chalmers_thesis::notes::Note;
use chalmers_thesis::notes::encode_note_payload;
use chalmers_thesis::notes::note_label_ops;
use chalmers_thesis::notes::note_number;
use chalmers_thesis::notes::note_ops;
use chalmers_thesis::notes::parse_note_payload;
use chalmers_thesis::ops::HostOp;
use chalmers_thesis::ops::OutputFormat;
use chalmers_thesis::pages::create_abstract;
use chalmers_thesis::pages::create_acknowledgements;
use chalmers_thesis::pages::create_coverpage;
use chalmers_thesis::pages::create_imprint_page;
use chalmers_thesis::pages::create_titlepage;
use chalmers_thesis::pages::get_template_imports;
use chalmers_thesis::settings::DocSettings;
use chalmers_thesis::strutil::escape_quotes;
use chalmers_thesis::strutil::join_strings;
use chalmers_thesis::strutil::parse_u64_dec;
use chalmers_thesis::strutil::tilde_name;
use chalmers_thesis::strutil::u64_to_dec;

fn empty_settings() -> DocSettings {
    DocSettings {
        authors: Vec::new(),
        title: None,
        subtitle: None,
        department: None,
        supervisor: None,
        supervisor_department: None,
        examiner: None,
        examiner_department: None,
        course_examiner: None,
        course_examiner_department: None,
        cover_art: None,
        cover_art_description: None,
        abstract_content: None,
        sammandrag: None,
        keywords: None,
        acknowledgements_content: None,
        subject: None,
        sources: None,
    }
}

#[test]
fn numbers_render_in_decimal() {
    assert_eq!(u64_to_dec(0), "0");
    assert_eq!(u64_to_dec(7), "7");
    assert_eq!(u64_to_dec(10), "10");
    assert_eq!(u64_to_dec(1234567890), "1234567890");
    assert_eq!(u64_to_dec(u64::MAX), "18446744073709551615");
}

#[test]
fn decimal_strings_parse_back() {
    assert_eq!(parse_u64_dec("0"), Some(0));
    assert_eq!(parse_u64_dec("42"), Some(42));
    assert_eq!(parse_u64_dec("007"), Some(7));
    assert_eq!(parse_u64_dec("18446744073709551615"), Some(u64::MAX));
    assert_eq!(parse_u64_dec("18446744073709551616"), None);
    assert_eq!(parse_u64_dec(""), None);
    assert_eq!(parse_u64_dec("12a"), None);
    assert_eq!(parse_u64_dec("-3"), None);
}

#[test]
fn quotes_escape_to_percent_form() {
    assert_eq!(escape_quotes("plain"), "plain");
    assert_eq!(escape_quotes("a\"b\"c"), "a%22b%22c");
    assert_eq!(escape_quotes(""), "");
}

#[test]
fn spaces_turn_into_tildes() {
    assert_eq!(tilde_name("John Doe"), "John~Doe");
    assert_eq!(tilde_name("One Two Three"), "One~Two~Three");
    assert_eq!(tilde_name("NoSpace"), "NoSpace");
}

#[test]
fn joining_puts_the_separator_between() {
    let items: Vec<String> = vec!["a".to_string(), "b".to_string(), "c".to_string()];
    assert_eq!(join_strings(&items, ", "), "a, b, c");
    let one: Vec<String> = vec!["a".to_string()];
    assert_eq!(join_strings(&one, ", "), "a");
    let none: Vec<String> = Vec::new();
    assert_eq!(join_strings(&none, ", "), "");
}

#[test]
fn note_payload_round_trips() {
    assert_eq!(encode_note_payload(7, "x"), "7:x");
    let p = encode_note_payload(12, "some:text with \"stuff\"");
    let note = parse_note_payload(&p).unwrap();
    assert_eq!(note.id, 12);
    assert_eq!(note.text, "some:text with \"stuff\"");
}

#[test]
fn malformed_note_payloads_are_refused() {
    assert!(parse_note_payload("no colon").is_none());
    assert!(parse_note_payload("abc:text").is_none());
    assert!(parse_note_payload(":text").is_none());
}

#[test]
fn note_in_latex_is_a_footnote() {
    let ops = note_ops(1, "the note", OutputFormat::Latex);
    assert_eq!(ops.len(), 3);
    assert!(matches!(&ops[0], HostOp::Text(s) if s == "\\footnote{"));
    assert!(matches!(&ops[1], HostOp::InlineContent(s) if s == "the note"));
    assert!(matches!(&ops[2], HostOp::Text(s) if s == "}"));
}

#[test]
fn note_in_html_registers_payload_and_mark() {
    let ops = note_ops(5, "hello", OutputFormat::Html);
    assert_eq!(ops.len(), 2);
    assert!(matches!(&ops[0], HostOp::PushNote(s) if s == "5:hello"));
    assert!(matches!(&ops[1], HostOp::NoteLabel(5)));
}

#[test]
fn note_numbers_follow_registration_order() {
    let ids: Vec<u64> = vec![10, 20, 30];
    assert_eq!(note_number(&ids, 10), Some(1));
    assert_eq!(note_number(&ids, 20), Some(2));
    assert_eq!(note_number(&ids, 30), Some(3));
    assert_eq!(note_number(&ids, 99), None);
}

#[test]
fn note_mark_links_note_and_backlink() {
    let ops = note_label_ops(5, 2);
    assert_eq!(ops.len(), 1);
    assert!(matches!(
        &ops[0],
        HostOp::Text(s) if s
            == "<a id=\"note-backlink:5\"></a><a href=\"#note:5\"><sup>2</sup></a>"
    ));
}

#[test]
fn missing_title_gets_a_placeholder() {
    let s = empty_settings();
    assert_eq!(s.get_title(), "Missing title");
    let mut t = empty_settings();
    t.title = Some("On Things".to_string());
    assert_eq!(t.get_title(), "On Things");
}

#[test]
fn template_imports_are_the_expected_packages() {
    let imports = get_template_imports();
    assert_eq!(imports.len(), 22);
    assert_eq!(imports[0], "\\usepackage[top=3cm,bottom=3cm,inner=3cm,outer=3cm]{geometry}");
    assert!(imports.contains(
        &"\\usepackage[backend=biber,style=ieee,urldate=comp,block=ragged]{biblatex}".to_string()
    ));
    assert_eq!(imports[21], "\\usepackage{xpatch}");
}

#[test]
fn merging_imports_skips_those_present() {
    let base: Vec<String> = vec!["a".to_string(), "b".to_string()];
    let extra: Vec<String> = vec!["b".to_string(), "c".to_string(), "a".to_string()];
    assert_eq!(merge_imports(base, &extra), vec!["a".to_string(), "b".to_string(), "c".to_string()]);
}

#[test]
fn coverpage_shows_title_subject_and_authors() {
    let mut s = empty_settings();
    s.title = Some("On Things".to_string());
    s.subject = Some("Computer Science".to_string());
    s.authors = vec!["Alice A".to_string(), "Bob B".to_string()];
    let page = create_coverpage(&s);
    assert!(page.contains("\\textbf{\\Huge On Things}"));
    assert!(page.contains("Bachelor's thesis in Computer Science"));
    assert!(page.contains(" {\\Large Alice A} \\setlength{\\parskip}{2.9cm}\\\\[1ex]\n {\\Large Bob B}"));
    assert!(page.contains("\\begin{titlepage}"));
    assert!(page.ends_with("\\mbox{}"));
}

#[test]
fn coverpage_without_cover_art_has_no_figure() {
    let page = create_coverpage(&empty_settings());
    assert!(!page.contains("\\includegraphics"));
    assert!(page.contains("\\textbf{\\Huge Missing title}"));
    let mut s = empty_settings();
    s.cover_art = Some("art.png".to_string());
    let with_art = create_coverpage(&s);
    assert!(with_art.contains("\\includegraphics[width=\\linewidth]{art.png}"));
}

#[test]
fn titlepage_lists_authors_in_large_type() {
    let mut s = empty_settings();
    s.title = Some("On Things".to_string());
    s.authors = vec!["Alice A".to_string()];
    let page = create_titlepage(&s);
    assert!(page.contains("\\textbf{\\Large On Things} \\\\[1cm]"));
    assert!(page.contains(" {\\large Alice A}"));
    assert!(page.contains("\\end{center}"));
}

#[test]
fn imprint_page_uppercases_the_copyright_names() {
    let mut s = empty_settings();
    s.authors = vec!["john doe".to_string(), "jane roe".to_string()];
    let page = create_imprint_page(&s);
    assert!(page.contains("john~doe \\setlength{\\parskip}{1cm}"));
    assert!(page.contains("\\copyright ~ JOHN~DOE, JANE~ROE \\the\\year."));
}

#[test]
fn imprint_page_lists_the_people_involved() {
    let mut s = empty_settings();
    s.supervisor = Some("S. Uper".to_string());
    s.supervisor_department = Some("CSE".to_string());
    s.examiner = Some("E. Xaminer".to_string());
    let page = create_imprint_page(&s);
    assert!(page.contains("Supervisor (handledare): S. Uper, CSE\\\\\n"));
    assert!(page.contains("Graded by teacher (r\u{e4}ttande l\u{e4}rare): E. Xaminer, \\\\\n"));
    assert!(!page.contains("Examiners:"));
}

#[test]
fn abstract_ops_are_empty_without_content() {
    assert_eq!(create_abstract(&empty_settings()).len(), 0);
}

#[test]
fn abstract_ops_carry_the_content_blocks() {
    let mut s = empty_settings();
    s.title = Some("On Things".to_string());
    s.abstract_content = Some("We study things.".to_string());
    s.sammandrag = Some("Vi studerar saker.".to_string());
    s.keywords = Some("things, stuff".to_string());
    let ops = create_abstract(&s);
    assert!(ops.iter().any(|op| matches!(op, HostOp::BlockContent(s) if s == "We study things.")));
    assert!(ops.iter().any(|op| matches!(op, HostOp::Text(s) if s == "\\section*{Sammanfattning}")));
    assert!(ops.iter().any(|op| matches!(op, HostOp::BlockContent(s) if s == "Vi studerar saker.")));
    assert!(ops.iter().any(
        |op| matches!(op, HostOp::Text(s) if s == "\n    \\vfill\n    Keywords: things, stuff")
    ));
}

#[test]
fn acknowledgements_ops_are_empty_without_content() {
    assert_eq!(create_acknowledgements(&empty_settings()).len(), 0);
}

#[test]
fn acknowledgements_ops_sign_off_with_the_authors() {
    let mut s = empty_settings();
    s.acknowledgements_content = Some("Thanks all.".to_string());
    s.authors = vec!["Alice A".to_string(), "Bob B".to_string()];
    let ops = create_acknowledgements(&s);
    assert!(matches!(
        &ops[0],
        HostOp::Text(t) if t == "\\newpage\n\\thispagestyle{plain}\n\n\\section*{Acknowledgements}"
    ));
    assert!(matches!(&ops[1], HostOp::BlockContent(t) if t == "Thanks all."));
    assert!(ops.iter().any(|op| matches!(op, HostOp::Text(t) if t == "Alice~A, Bob~B")));
}

#[test]
fn latex_document_wraps_children_and_bibliography() {
    let mut s = empty_settings();
    s.sources = Some("refs.bib".to_string());
    let extra: Vec<String> = vec!["\\usepackage{tikz}".to_string()];
    let ops = latex_document_ops(&s, &extra, "% preamble\n");
    assert!(matches!(
        &ops[0],
        HostOp::Text(t) if t == "\\documentclass[12pt,a4paper,twoside,openright]{report}\n"
    ));
    assert!(matches!(&ops[1], HostOp::Text(t) if t.contains("\\usepackage{tikz}")));
    assert!(matches!(&ops[2], HostOp::Text(t) if t == "% preamble\n"));
    assert!(ops.iter().any(|op| matches!(op, HostOp::Text(t) if t == "\\addbibresource{refs.bib}\n")));
    assert!(ops.iter().any(|op| matches!(op, HostOp::SpliceChildren)));
    assert!(ops.iter().any(|op| matches!(op, HostOp::Text(t) if t.contains("\\printbibliography"))));
    assert!(matches!(ops.last().unwrap(), HostOp::Text(t) if t == "\\end{document}"));
}

#[test]
fn latex_document_without_sources_has_no_bibliography() {
    let ops = latex_document_ops(&empty_settings(), &Vec::new(), "");
    assert!(!ops.iter().any(|op| matches!(op, HostOp::Text(t) if t.contains("\\printbibliography"))));
    assert!(!ops.iter().any(|op| matches!(op, HostOp::Text(t) if t.contains("\\addbibresource"))));
}

#[test]
fn html_document_carries_notes_section_when_notes_exist() {
    let mut s = empty_settings();
    s.title = Some("On Things".to_string());
    let notes = vec![Note { id: 5, text: "a note".to_string() }];
    let ops = html_document_ops(&s, &notes, "body {}");
    assert!(matches!(&ops[0], HostOp::Raw(t) if t.contains("<title>On Things</title>")));
    assert!(matches!(&ops[1], HostOp::SpliceImports));
    assert!(ops.iter().any(|op| matches!(op, HostOp::Raw(t) if t == "body {}")));
    assert!(ops.iter().any(|op| matches!(op, HostOp::Raw(t) if t == "<h2>Footnotes</h2>")));
    assert!(ops.iter().any(|op| matches!(op, HostOp::Raw(t) if t == "<li><a id=\"note:5\"></a>")));
    assert!(ops.iter().any(|op| matches!(op, HostOp::InlineContent(t) if t == "a note")));
    assert!(matches!(ops.last().unwrap(), HostOp::Raw(t) if t == "</article></body></html>"));
}

#[test]
fn html_document_without_notes_has_no_footnote_block() {
    let ops = html_document_ops(&empty_settings(), &Vec::new(), "");
    assert!(!ops.iter().any(|op| matches!(op, HostOp::Raw(t) if t == "<h2>Footnotes</h2>")));
    assert!(!ops.iter().any(|op| matches!(op, HostOp::Raw(t) if t == "<div class=\"preamble\">")));
}

#[test]
fn html_document_preamble_appears_with_an_abstract() {
    let mut s = empty_settings();
    s.abstract_content = Some("We study things.".to_string());
    let ops = html_document_ops(&s, &Vec::new(), "");
    assert!(ops.iter().any(|op| matches!(op, HostOp::Raw(t) if t == "<div class=\"preamble\">")));
    assert!(ops.iter().any(|op| matches!(op, HostOp::Raw(t) if t == "<h2>Abstract</h2>")));
}
