//! The whole-document transforms: they assemble the LaTeX or HTML
//! document around the host-rendered children, from the settings, the
//! import fragments other packages registered, and (for HTML) the
//! registered footnotes.

use vstd::prelude::*;

use crate::notes::Note;
use crate::ops::HostOp;
use crate::ops::OpView;
use crate::pages::get_template_imports;
use crate::pages::spec_abstract_ops;
use crate::pages::spec_acknowledgements_ops;
use crate::pages::spec_coverpage;
use crate::pages::spec_imprint_page;
use crate::pages::spec_template_imports;
use crate::pages::spec_titlepage;
use crate::pages::create_abstract;
use crate::pages::create_acknowledgements;
use crate::pages::create_coverpage;
use crate::pages::create_imprint_page;
use crate::pages::create_titlepage;
use crate::settings::DocSettings;
use crate::settings::spec_title;
use crate::strutil::dec_digits;
use crate::strutil::join_strings;
use crate::strutil::spec_join;
use crate::strutil::str_equal;
use crate::strutil::u64_to_dec;

verus! {

/// The entries of the second list appended to the first, in order,
/// leaving out those already present: how import lines from other
/// packages are merged with the template's own.
pub open spec fn add_missing(base: Seq<Seq<char>>, extra: Seq<Seq<char>>) -> Seq<Seq<char>>
    decreases extra.len(),
{
    if extra.len() == 0 {
        base
    } else {
        add_missing(
            if base.contains(extra[0]) {
                base
            } else {
                base.push(extra[0])
            },
            extra.drop_first(),
        )
    }
}

/// Whether the list holds the string.
fn vec_contains_string(v: &Vec<String>, s: &str) -> (r: bool)
    ensures
        r == v.deep_view().contains(s@),
{
    let mut i: usize = 0;
    while i < v.len()
        invariant
            i <= v.len(),
            forall|j: int| 0 <= j < i ==> v.deep_view()[j] != s@,
        decreases v.len() - i,
    {
        if str_equal(v[i].as_str(), s) {
            proof {
                assert(v.deep_view()[i as int] == s@);
            }
            return true;
        }
        i = i + 1;
    }
    proof {
        if v.deep_view().contains(s@) {
            let j = choose|j: int| 0 <= j < v.deep_view().len() && v.deep_view()[j] == s@;
            assert(v.deep_view()[j] != s@);
        }
    }
    false
}

/// Appends the extra entries that are not present yet, keeping order.
pub fn merge_imports(base: Vec<String>, extra: &Vec<String>) -> (r: Vec<String>)
    ensures
        r.deep_view() == add_missing(base.deep_view(), extra.deep_view()),
{
    let ghost base_dv = base.deep_view();
    let ghost extra_dv = extra.deep_view();
    let mut cur = base;
    let mut i: usize = 0;
    proof {
        assert(extra_dv.skip(0) =~= extra_dv);
    }
    while i < extra.len()
        invariant
            i <= extra.len(),
            extra_dv == extra.deep_view(),
            extra_dv.len() == extra.len(),
            add_missing(cur.deep_view(), extra_dv.skip(i as int)) == add_missing(
                base_dv,
                extra_dv,
            ),
        decreases extra.len() - i,
    {
        proof {
            assert(extra_dv.skip(i as int).drop_first() =~= extra_dv.skip(i as int + 1));
            assert(extra_dv.skip(i as int)[0] == extra_dv[i as int]);
        }
        let ghost prev = cur.deep_view();
        if !vec_contains_string(&cur, extra[i].as_str()) {
            cur.push(extra[i].clone());
            proof {
                assert(cur.deep_view() =~~= prev.push(extra_dv[i as int]));
            }
        }
        i = i + 1;
    }
    proof {
        assert(extra_dv.skip(extra.len() as int) =~= Seq::<Seq<char>>::empty());
    }
    cur
}

/// Pushes one operation onto the list.
fn push_op(ops: &mut Vec<HostOp>, op: HostOp)
    ensures
        final(ops).deep_view() == old(ops).deep_view().push(op@),
{
    let ghost prev = ops.deep_view();
    let ghost opv = op@;
    ops.push(op);
    proof {
        assert(ops.deep_view() =~~= prev.push(opv));
    }
}

/// Pushes every operation of the part onto the list, in order.
fn push_all(ops: &mut Vec<HostOp>, part: Vec<HostOp>)
    ensures
        final(ops).deep_view() == old(ops).deep_view() + part.deep_view(),
{
    let ghost part_dv = part.deep_view();
    let ghost start_dv = old(ops).deep_view();
    let mut part = part;
    ops.append(&mut part);
    proof {
        assert(ops.deep_view() =~~= start_dv + part_dv);
    }
}

/// The table-of-contents block that opens the main matter.
pub open spec fn spec_toc_block() -> Seq<char> {
    r"
\newpage
\tableofcontents

\cleardoublepage
\setcounter{page}{1}
\pagenumbering{arabic}
\setlength{\parskip}{0.5 \baselineskip plus 2pt}
"@
}

/// The bibliography block that closes the main matter when sources were
/// configured.
pub open spec fn spec_bibliography_block() -> Seq<char> {
    "\n\\cleardoublepage    \n\\addcontentsline{toc}{chapter}{Bibliography}\n\\printbibliography\n"@
}

/// The operations of the whole LaTeX document: class, merged imports,
/// the caller-supplied preamble, the bibliography resource when
/// configured, the front-matter pages, the children, the bibliography
/// and the end of the document.
pub open spec fn spec_latex_document_ops(
    s: DocSettings,
    extra_imports: Seq<Seq<char>>,
    preamble: Seq<char>,
) -> Seq<OpView> {
    seq![
        OpView::Text("\\documentclass[12pt,a4paper,twoside,openright]{report}\n"@),
        OpView::Text(spec_join(add_missing(spec_template_imports(), extra_imports), "\n"@)),
        OpView::Text(preamble),
    ] + (match s.sources {
        Some(src) => seq![OpView::Text("\\addbibresource{"@ + src@ + "}\n"@)],
        None => Seq::<OpView>::empty(),
    }) + seq![
        OpView::Text("\\begin{document}\n"@),
        OpView::Text(spec_coverpage(s)),
        OpView::Text(spec_titlepage(s)),
        OpView::Text(spec_imprint_page(s)),
    ] + spec_abstract_ops(s) + spec_acknowledgements_ops(s) + seq![
        OpView::Text(spec_toc_block()),
        OpView::SpliceChildren,
    ] + (match s.sources {
        Some(_) => seq![OpView::Text(spec_bibliography_block())],
        None => Seq::<OpView>::empty(),
    }) + seq![OpView::Text("\\end{document}"@)]
}

/// Assembles the LaTeX document. The preamble is the settings text the
/// deployment ships beside the plugin; the extra imports come from the
/// host's import list.
pub fn latex_document_ops(
    settings: &DocSettings,
    extra_imports: &Vec<String>,
    preamble: &str,
) -> (r: Vec<HostOp>)
    ensures
        r.deep_view() == spec_latex_document_ops(*settings, extra_imports.deep_view(), preamble@),
{
    let mut ops: Vec<HostOp> = Vec::new();
    push_op(&mut ops, HostOp::Text("\\documentclass[12pt,a4paper,twoside,openright]{report}\n".to_owned()));
    let merged = merge_imports(get_template_imports(), extra_imports);
    let joined = join_strings(&merged, "\n");
    push_op(&mut ops, HostOp::Text(joined));
    push_op(&mut ops, HostOp::Text(preamble.to_owned()));
    match &settings.sources {
        Some(sources) => {
            let mut b: String = "\\addbibresource{".to_owned();
            b.append(sources.as_str());
            b.append("}\n");
            push_op(&mut ops, HostOp::Text(b));
        },
        None => {
        },
    }
    push_op(&mut ops, HostOp::Text("\\begin{document}\n".to_owned()));
    push_op(&mut ops, HostOp::Text(create_coverpage(settings)));
    push_op(&mut ops, HostOp::Text(create_titlepage(settings)));
    push_op(&mut ops, HostOp::Text(create_imprint_page(settings)));
    push_all(&mut ops, create_abstract(settings));
    push_all(&mut ops, create_acknowledgements(settings));
    push_op(&mut ops, 
        HostOp::Text(
            r"
\newpage
\tableofcontents

\cleardoublepage
\setcounter{page}{1}
\pagenumbering{arabic}
\setlength{\parskip}{0.5 \baselineskip plus 2pt}
".to_owned(),
        ),
    );
    push_op(&mut ops, HostOp::SpliceChildren);
    match &settings.sources {
        Some(_) => {
            push_op(&mut ops, 
                HostOp::Text(
                    "\n\\cleardoublepage    \n\\addcontentsline{toc}{chapter}{Bibliography}\n\\printbibliography\n".to_owned(),
                ),
            );
        },
        None => {
        },
    }
    push_op(&mut ops, HostOp::Text("\\end{document}".to_owned()));
    proof {
        assert(ops.deep_view() =~~= spec_latex_document_ops(
            *settings,
            extra_imports.deep_view(),
            preamble@,
        ));
    }
    ops
}

/// The footnote block entries of the HTML document, three operations
/// for each registered note, in registration order.
pub open spec fn spec_notes_ops(notes: Seq<(u64, Seq<char>)>) -> Seq<OpView>
    decreases notes.len(),
{
    if notes.len() == 0 {
        Seq::empty()
    } else {
        spec_notes_ops(notes.drop_last()) + seq![
            OpView::Raw("<li><a id=\"note:"@ + dec_digits(notes.last().0 as nat) + "\"></a>"@),
            OpView::InlineContent(notes.last().1),
            OpView::Raw(
                " <a href=\"#note-backlink:"@ + dec_digits(notes.last().0 as nat)
                    + "\">(back)</a></li>"@,
            ),
        ]
    }
}

/// Renders the footnote list entries.
fn notes_list_ops(notes: &Vec<Note>) -> (r: Vec<HostOp>)
    ensures
        r.deep_view() == spec_notes_ops(notes.deep_view()),
{
    let mut r: Vec<HostOp> = Vec::new();
    let mut i: usize = 0;
    while i < notes.len()
        invariant
            i <= notes.len(),
            r.deep_view() == spec_notes_ops(notes.deep_view().take(i as int)),
        decreases notes.len() - i,
    {
        let id_dec = u64_to_dec(notes[i].id);
        let mut open_tag: String = "<li><a id=\"note:".to_owned();
        open_tag.append(id_dec.as_str());
        open_tag.append("\"></a>");
        push_op(&mut r, HostOp::Raw(open_tag));
        push_op(&mut r, HostOp::InlineContent(notes[i].text.clone()));
        let mut close_tag: String = " <a href=\"#note-backlink:".to_owned();
        close_tag.append(id_dec.as_str());
        close_tag.append("\">(back)</a></li>");
        push_op(&mut r, HostOp::Raw(close_tag));
        proof {
            assert(notes.deep_view().take(i as int + 1).drop_last() =~= notes.deep_view().take(
                i as int,
            ));
            assert(notes.deep_view().take(i as int + 1).last() == notes.deep_view()[i as int]);
            assert(r.deep_view() =~~= spec_notes_ops(notes.deep_view().take(i as int + 1)));
        }
        i = i + 1;
    }
    proof {
        assert(notes.deep_view().take(notes.len() as int) =~= notes.deep_view());
    }
    r
}

/// The author list of the HTML cover.
pub open spec fn spec_html_authors(names: Seq<Seq<char>>) -> Seq<char> {
    spec_join(names.map_values(|n: Seq<char>| "<li>"@ + n + "</li>"@), "\n"@)
}

/// Whether the document carries a preamble block: any of abstract,
/// Swedish abstract or acknowledgements is configured.
pub open spec fn spec_has_preamble(s: DocSettings) -> bool {
    s.abstract_content is Some || s.sammandrag is Some || s.acknowledgements_content is Some
}

/// The operations of the whole HTML document: head with title, the
/// import fragments, the stylesheet, the cover block, the preamble
/// sections, the children and the footnotes.
pub open spec fn spec_html_document_ops(
    s: DocSettings,
    notes: Seq<(u64, Seq<char>)>,
    css: Seq<char>,
) -> Seq<OpView> {
    seq![
        OpView::Raw(
            r#"
<!DOCTYPE html>
<html>
<head>
<title>"#@ + spec_title(s) + "</title>\n<meta charset=\"UTF-8\">\n"@,
        ),
        OpView::SpliceImports,
        OpView::Raw("<style>"@),
        OpView::Raw(css),
        OpView::Raw(
            r#"
</style>
</head>
<body>
<article>
<div class="cover">
"#@,
        ),
    ] + (match s.cover_art {
        Some(c) => seq![OpView::Raw("<img alt=\"Cover photo\" src=\""@ + c@ + "\"/>"@)],
        None => Seq::<OpView>::empty(),
    }) + seq![OpView::Raw("<h1 class=\"title\">"@ + spec_title(s) + "</h1>"@)] + (
    match s.subtitle {
        Some(sub) => seq![OpView::Raw("<div class=\"subtitle\">"@ + sub@ + "</div>"@)],
        None => Seq::<OpView>::empty(),
    }) + seq![
        OpView::Raw("<ul class=\"authors\">"@),
        OpView::Raw(spec_html_authors(s.authors.deep_view())),
        OpView::Raw("</ul>"@),
        OpView::Raw("</div>"@),
    ] + (if spec_has_preamble(s) {
        seq![OpView::Raw("<div class=\"preamble\">"@)]
    } else {
        Seq::<OpView>::empty()
    }) + (match s.abstract_content {
        Some(abs) => seq![OpView::Raw("<h2>Abstract</h2>"@), OpView::BlockContent(abs@)],
        None => Seq::<OpView>::empty(),
    }) + (match s.sammandrag {
        Some(sam) => seq![OpView::Raw("<h2>Sammanfattning</h2>"@), OpView::BlockContent(sam@)],
        None => Seq::<OpView>::empty(),
    }) + (match s.acknowledgements_content {
        Some(ack) => seq![OpView::Raw("<h2>Acknowledgements</h2>"@), OpView::BlockContent(ack@)],
        None => Seq::<OpView>::empty(),
    }) + (if spec_has_preamble(s) {
        seq![OpView::Raw("</div>"@)]
    } else {
        Seq::<OpView>::empty()
    }) + seq![OpView::SpliceChildren] + (if notes.len() > 0 {
        seq![
            OpView::Raw("<div class=\"footnotes\">"@),
            OpView::Raw("<h2>Footnotes</h2>"@),
            OpView::Raw("<ol>"@),
        ] + spec_notes_ops(notes) + seq![OpView::Raw("</ol>"@), OpView::Raw("</div>"@)]
    } else {
        Seq::<OpView>::empty()
    }) + seq![OpView::Raw("</article></body></html>"@)]
}

/// Assembles the HTML document. The stylesheet text is shipped beside
/// the plugin and handed in by the caller; the notes are the registered
/// footnotes in order.
#[verifier::rlimit(100)]
pub fn html_document_ops(settings: &DocSettings, notes: &Vec<Note>, css: &str) -> (r: Vec<HostOp>)
    ensures
        r.deep_view() == spec_html_document_ops(*settings, notes.deep_view(), css@),
{
    let mut ops: Vec<HostOp> = Vec::new();
    let title = settings.get_title();
    let mut head: String = r#"
<!DOCTYPE html>
<html>
<head>
<title>"#.to_owned();
    head.append(title.as_str());
    head.append("</title>\n<meta charset=\"UTF-8\">\n");
    push_op(&mut ops, HostOp::Raw(head));
    push_op(&mut ops, HostOp::SpliceImports);
    push_op(&mut ops, HostOp::Raw("<style>".to_owned()));
    push_op(&mut ops, HostOp::Raw(css.to_owned()));
    push_op(
        &mut ops,
        HostOp::Raw(
            r#"
</style>
</head>
<body>
<article>
<div class="cover">
"#.to_owned(),
        ),
    );
    match &settings.cover_art {
        Some(cover) => {
            let mut img: String = "<img alt=\"Cover photo\" src=\"".to_owned();
            img.append(cover.as_str());
            img.append("\"/>");
            push_op(&mut ops, HostOp::Raw(img));
        },
        None => {
        },
    }
    let mut h1: String = "<h1 class=\"title\">".to_owned();
    h1.append(title.as_str());
    h1.append("</h1>");
    push_op(&mut ops, HostOp::Raw(h1));
    match &settings.subtitle {
        Some(subtitle) => {
            let mut sub: String = "<div class=\"subtitle\">".to_owned();
            sub.append(subtitle.as_str());
            sub.append("</div>");
            push_op(&mut ops, HostOp::Raw(sub));
        },
        None => {
        },
    }
    push_op(&mut ops, HostOp::Raw("<ul class=\"authors\">".to_owned()));
    let decorated = crate::pages::authors_decorated(&settings.authors, "<li>", "</li>");
    let joined = join_strings(&decorated, "\n");
    proof {
        assert(decorated.deep_view() =~~= settings.authors.deep_view().map_values(
            (|n: Seq<char>| "<li>"@ + n + "</li>"@),
        ));
    }
    push_op(&mut ops, HostOp::Raw(joined));
    push_op(&mut ops, HostOp::Raw("</ul>".to_owned()));
    push_op(&mut ops, HostOp::Raw("</div>".to_owned()));
    let has_preamble = settings.abstract_content.is_some() || settings.sammandrag.is_some()
        || settings.acknowledgements_content.is_some();
    if has_preamble {
        push_op(&mut ops, HostOp::Raw("<div class=\"preamble\">".to_owned()));
    }
    match &settings.abstract_content {
        Some(abstract_content) => {
            push_op(&mut ops, HostOp::Raw("<h2>Abstract</h2>".to_owned()));
            push_op(&mut ops, HostOp::BlockContent(abstract_content.clone()));
        },
        None => {
        },
    }
    match &settings.sammandrag {
        Some(sammandrag) => {
            push_op(&mut ops, HostOp::Raw("<h2>Sammanfattning</h2>".to_owned()));
            push_op(&mut ops, HostOp::BlockContent(sammandrag.clone()));
        },
        None => {
        },
    }
    match &settings.acknowledgements_content {
        Some(acknowledgements) => {
            push_op(&mut ops, HostOp::Raw("<h2>Acknowledgements</h2>".to_owned()));
            push_op(&mut ops, HostOp::BlockContent(acknowledgements.clone()));
        },
        None => {
        },
    }
    if has_preamble {
        push_op(&mut ops, HostOp::Raw("</div>".to_owned()));
    }
    push_op(&mut ops, HostOp::SpliceChildren);
    if notes.len() > 0 {
        push_op(&mut ops, HostOp::Raw("<div class=\"footnotes\">".to_owned()));
        push_op(&mut ops, HostOp::Raw("<h2>Footnotes</h2>".to_owned()));
        push_op(&mut ops, HostOp::Raw("<ol>".to_owned()));
        push_all(&mut ops, notes_list_ops(notes));
        push_op(&mut ops, HostOp::Raw("</ol>".to_owned()));
        push_op(&mut ops, HostOp::Raw("</div>".to_owned()));
    }
    push_op(&mut ops, HostOp::Raw("</article></body></html>".to_owned()));
    proof {
        assert(ops.deep_view() =~~= spec_html_document_ops(
            *settings,
            notes.deep_view(),
            css@,
        ));
    }
    ops
}

} // verus!
