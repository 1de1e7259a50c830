use chalmers_thesis::dispatch::ElementKind;
use chalmers_thesis::dispatch::element_kind;
use chalmers_thesis::dispatch::parse_level;
use chalmers_thesis::emit::big_table_ops;
use chalmers_thesis::emit::cite_ops;
use chalmers_thesis::emit::figure_ops;
use chalmers_thesis::emit::heading_ops;
use chalmers_thesis::emit::label_ops;
use chalmers_thesis::emit::latex_command_ops;
use chalmers_thesis::emit::reference_ops;
use chalmers_thesis::emit::table_ops;
use chalmers_thesis::events::StructureEvent;
use chalmers_thesis::events::encode_event;
use chalmers_thesis::events::parse_event;
use chalmers_thesis::ops::HostOp;
use chalmers_thesis::ops::OutputFormat;
use chalmers_thesis::ops::TransformError;

fn text_of(op: &HostOp) -> &str {
    match op {
        HostOp::Text(s) => s,
        _ => panic!("expected a text op"),
    }
}

fn raw_of(op: &HostOp) -> &str {
    match op {
        HostOp::Raw(s) => s,
        _ => panic!("expected a raw op"),
    }
}

fn push_of(op: &HostOp) -> &str {
    match op {
        HostOp::PushStructure(s) => s,
        _ => panic!("expected a structure push"),
    }
}

#[test]
fn events_encode_to_their_entries() {
    assert_eq!(encode_event(&StructureEvent::Heading(3)), "h3");
    assert_eq!(encode_event(&StructureEvent::FigurePlaced), "fig");
    assert_eq!(encode_event(&StructureEvent::TablePlaced), "tab");
    assert_eq!(encode_event(&StructureEvent::Label("pic".to_string())), "label/pic");
}

#[test]
fn entries_parse_back_to_their_events() {
    assert!(matches!(parse_event("h3"), Some(StructureEvent::Heading(3))));
    assert!(matches!(parse_event("h6"), Some(StructureEvent::Heading(6))));
    assert!(matches!(parse_event("fig"), Some(StructureEvent::FigurePlaced)));
    assert!(matches!(parse_event("tab"), Some(StructureEvent::TablePlaced)));
    match parse_event("label/pic") {
        Some(StructureEvent::Label(name)) => assert_eq!(name, "pic"),
        _ => panic!("expected a label event"),
    }
    assert!(parse_event("h0").is_none());
    assert!(parse_event("h7").is_none());
    assert!(parse_event("h12").is_none());
    assert!(parse_event("labelx").is_none());
    assert!(parse_event("").is_none());
}

#[test]
fn citation_without_key_is_refused() {
    assert!(matches!(cite_ops("", "p. 7", OutputFormat::Latex), Err(TransformError::MissingKey)));
    assert!(matches!(cite_ops("", "", OutputFormat::Html), Err(TransformError::MissingKey)));
}

#[test]
fn citation_in_latex_wraps_the_key() {
    let ops = cite_ops("knuth84", "", OutputFormat::Latex).unwrap();
    assert_eq!(ops.len(), 1);
    assert_eq!(raw_of(&ops[0]), "\\cite{knuth84}");
    let ops = cite_ops("knuth84", "p. 7", OutputFormat::Latex).unwrap();
    assert_eq!(raw_of(&ops[0]), "\\cite[p. 7]{knuth84}");
}

#[test]
fn citation_in_html_renders_a_span() {
    let ops = cite_ops("knuth84", "p. 7", OutputFormat::Html).unwrap();
    assert_eq!(ops.len(), 1);
    let html = raw_of(&ops[0]);
    assert!(html.starts_with("<span style=\""));
    assert!(html.ends_with(">knuth84 p. 7</span>"));
}

#[test]
fn logo_macro_must_not_consume_input() {
    assert!(matches!(
        latex_command_ops("TeX", Some("stray"), OutputFormat::Latex),
        Err(TransformError::ConsumedInput)
    ));
    assert!(matches!(
        latex_command_ops("TeX", None, OutputFormat::Html),
        Err(TransformError::ConsumedInput)
    ));
}

#[test]
fn logo_macro_renders_word_or_macro() {
    let ops = latex_command_ops("TeX", Some(""), OutputFormat::Html).unwrap();
    assert_eq!(ops.len(), 1);
    assert_eq!(text_of(&ops[0]), "TeX");
    let ops = latex_command_ops("LaTeX", Some(""), OutputFormat::Latex).unwrap();
    assert_eq!(text_of(&ops[0]), "\\LaTeX{}");
}

#[test]
fn heading_level_outside_range_is_refused() {
    assert!(matches!(heading_ops(0, OutputFormat::Html), Err(TransformError::HeadingLevel(0))));
    assert!(matches!(heading_ops(7, OutputFormat::Latex), Err(TransformError::HeadingLevel(7))));
}

#[test]
fn heading_in_html_logs_and_wraps_children() {
    let ops = heading_ops(2, OutputFormat::Html).unwrap();
    assert_eq!(ops.len(), 4);
    assert_eq!(push_of(&ops[0]), "h2");
    assert_eq!(text_of(&ops[1]), "<h2>");
    assert!(matches!(ops[2], HostOp::SpliceChildren));
    assert_eq!(text_of(&ops[3]), "</h2>");
}

#[test]
fn heading_in_latex_uses_the_sectioning_command() {
    let ops = heading_ops(1, OutputFormat::Latex).unwrap();
    assert_eq!(ops.len(), 3);
    assert_eq!(text_of(&ops[0]), "\\chapter{");
    assert!(matches!(ops[1], HostOp::SpliceChildren));
    assert_eq!(text_of(&ops[2]), "}");
    let ops = heading_ops(6, OutputFormat::Latex).unwrap();
    assert_eq!(text_of(&ops[0]), "\\subparagraph{");
}

#[test]
fn label_in_html_registers_and_anchors() {
    let ops = label_ops("sec:intro", OutputFormat::Html);
    assert_eq!(ops.len(), 2);
    assert_eq!(push_of(&ops[0]), "label/sec:intro");
    assert_eq!(text_of(&ops[1]), "<span id=\"sec:intro\"></span>");
}

#[test]
fn label_in_latex_does_not_touch_the_log() {
    let ops = label_ops("a\"b", OutputFormat::Latex);
    assert_eq!(ops.len(), 1);
    assert_eq!(text_of(&ops[0]), "\\label{a%22b}");
}

#[test]
fn label_in_other_format_renders_nothing() {
    assert_eq!(label_ops("x", OutputFormat::Other).len(), 0);
}

#[test]
fn reference_in_html_links_an_element_number() {
    let ops = reference_ops("fig:one", OutputFormat::Html);
    assert_eq!(ops.len(), 3);
    assert_eq!(raw_of(&ops[0]), "<a href=\"#fig:one\">");
    match &ops[1] {
        HostOp::InlineContent(s) => assert_eq!(s, "[element-number](fig:one)"),
        _ => panic!("expected inline content"),
    }
    assert_eq!(raw_of(&ops[2]), "</a>");
}

#[test]
fn reference_in_latex_uses_ref() {
    let ops = reference_ops("fig\"q", OutputFormat::Latex);
    assert_eq!(ops.len(), 1);
    assert_eq!(raw_of(&ops[0]), "\\ref{fig%22q}");
}

#[test]
fn figure_wrapper_places_marker_before_label() {
    let ops = figure_ops("alt text", "A boat.", "fig:boat", "0.5", "false", "center", "boat.png", OutputFormat::Latex);
    assert_eq!(ops.len(), 3);
    assert_eq!(push_of(&ops[0]), "fig");
    assert_eq!(push_of(&ops[1]), "label/fig:boat");
    match &ops[2] {
        HostOp::BlockContent(s) => assert_eq!(
            s,
            "[image \"alt text\" \"A boat.\" \"fig:boat\" \"0.5\" \"false\" \"center\"](((\nboat.png\n)))"
        ),
        _ => panic!("expected block content"),
    }
}

#[test]
fn figure_caption_in_html_carries_its_number() {
    let ops = figure_ops("a", "A boat.", "fig:boat", "1", "false", "center", "d", OutputFormat::Html);
    match &ops[2] {
        HostOp::BlockContent(s) => {
            assert!(s.contains("\"**Figure [element-number](fig:boat):** A boat.\""));
        },
        _ => panic!("expected block content"),
    }
}

#[test]
fn table_wrapper_places_marker_before_label() {
    let ops = table_ops("Caption.", "tab:x", "bold", "left", "all", "|", "true", "a|b", OutputFormat::Latex);
    assert_eq!(ops.len(), 3);
    assert_eq!(push_of(&ops[0]), "tab");
    assert_eq!(push_of(&ops[1]), "label/tab:x");
    match &ops[2] {
        HostOp::BlockContent(s) => assert_eq!(
            s,
            "[table \"Caption.\" \"tab:x\" \"bold\" \"left\" \"all\" \"|\" \"true\"](((\na|b\n)))"
        ),
        _ => panic!("expected block content"),
    }
}

#[test]
fn big_table_wrapper_places_marker_before_label() {
    let ops = big_table_ops("C.", "tab:y", "left", "outer", "[next-column]", "[next-row]", "cell", OutputFormat::Html);
    assert_eq!(ops.len(), 3);
    assert_eq!(push_of(&ops[0]), "tab");
    assert_eq!(push_of(&ops[1]), "label/tab:y");
    match &ops[2] {
        HostOp::BlockContent(s) => assert_eq!(
            s,
            "[big-table \"**Table [element-number](tab:y):** C.\" \"tab:y\" \"left\" \"outer\" \"[next-column]\" \"[next-row]\"](((\ncell\n)))"
        ),
        _ => panic!("expected block content"),
    }
}

#[test]
fn element_names_map_to_their_kinds() {
    assert_eq!(element_kind("cite"), Some(ElementKind::Cite));
    assert_eq!(element_kind("__document"), Some(ElementKind::Document));
    assert_eq!(element_kind("__heading"), Some(ElementKind::Heading));
    assert_eq!(element_kind("tex"), Some(ElementKind::TexLogo));
    assert_eq!(element_kind("Tex"), Some(ElementKind::TexLogo));
    assert_eq!(element_kind("latex"), Some(ElementKind::LatexLogo));
    assert_eq!(element_kind("Latex"), Some(ElementKind::LatexLogo));
    assert_eq!(element_kind("note"), Some(ElementKind::Note));
    assert_eq!(element_kind("note-label"), Some(ElementKind::NoteLabel));
    assert_eq!(element_kind("label"), Some(ElementKind::Label));
    assert_eq!(element_kind("reference"), Some(ElementKind::Reference));
    assert_eq!(element_kind("fancy-image"), Some(ElementKind::FancyImage));
    assert_eq!(element_kind("fancy-table"), Some(ElementKind::FancyTable));
    assert_eq!(element_kind("fancy-big-table"), Some(ElementKind::FancyBigTable));
    assert_eq!(element_kind("element-number"), Some(ElementKind::ElementNumber));
    assert_eq!(element_kind("unknown"), None);
}

#[test]
fn level_argument_reads_as_decimal() {
    assert_eq!(parse_level("1"), Some(1));
    assert_eq!(parse_level("6"), Some(6));
    assert_eq!(parse_level("007"), Some(7));
    assert_eq!(parse_level("255"), Some(255));
    assert_eq!(parse_level("256"), None);
    assert_eq!(parse_level(""), None);
    assert_eq!(parse_level("two"), None);
    assert_eq!(parse_level("-1"), None);
}

#[test]
fn format_names_map_to_formats() {
    assert_eq!(OutputFormat::from_name("html"), OutputFormat::Html);
    assert_eq!(OutputFormat::from_name("latex"), OutputFormat::Latex);
    assert_eq!(OutputFormat::from_name("markdown"), OutputFormat::Other);
}
