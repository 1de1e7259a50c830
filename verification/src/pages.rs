//! The front-matter page templates of the thesis: cover page, title
//! page, imprint page, abstract and acknowledgements, and the LaTeX
//! package imports they rest on. All of them are pure string builders
//! over the document settings.

use vstd::prelude::*;

use crate::settings::DocSettings;
use crate::settings::spec_title;
use crate::strutil::join_strings;
use crate::strutil::spec_join;
use crate::strutil::spec_tilde;
use crate::strutil::tilde_name;
use crate::strutil::to_upper;
use crate::strutil::upper_of;
use crate::ops::HostOp;
use crate::ops::OpView;

verus! {

/// Each author name wrapped between the two given pieces.
pub(crate) fn authors_decorated(names: &Vec<String>, pre: &str, post: &str) -> (r: Vec<String>)
    ensures
        r@.len() == names@.len(),
        forall|j: int|
            0 <= j < names@.len() ==> r.deep_view()[j] == pre@ + names.deep_view()[j] + post@,
{
    let mut r: Vec<String> = Vec::new();
    let mut i: usize = 0;
    while i < names.len()
        invariant
            i <= names.len(),
            r@.len() == i,
            forall|j: int| 0 <= j < i ==> r.deep_view()[j] == pre@ + names.deep_view()[j] + post@,
        decreases names.len() - i,
    {
        let ghost prev = r.deep_view();
        let mut s: String = pre.to_owned();
        s.append(names[i].as_str());
        s.append(post);
        r.push(s);
        proof {
            assert forall|j: int|
                0 <= j < i + 1 implies r.deep_view()[j] == pre@ + names.deep_view()[j]
                + post@ by {
                if j < i {
                    assert(prev[j] == pre@ + names.deep_view()[j] + post@);
                    assert(r.deep_view()[j] == prev[j]);
                } else {
                    assert(r.deep_view()[j] == s@);
                }
            }
        }
        i = i + 1;
    }
    r
}

/// Each author name with tildes for spaces.
fn authors_tilde(names: &Vec<String>) -> (r: Vec<String>)
    ensures
        r@.len() == names@.len(),
        forall|j: int|
            0 <= j < names@.len() ==> r.deep_view()[j] == spec_tilde(names.deep_view()[j]),
{
    let mut r: Vec<String> = Vec::new();
    let mut i: usize = 0;
    while i < names.len()
        invariant
            i <= names.len(),
            r@.len() == i,
            forall|j: int| 0 <= j < i ==> r.deep_view()[j] == spec_tilde(names.deep_view()[j]),
        decreases names.len() - i,
    {
        let ghost prev = r.deep_view();
        let s = tilde_name(names[i].as_str());
        r.push(s);
        proof {
            assert forall|j: int|
                0 <= j < i + 1 implies r.deep_view()[j] == spec_tilde(names.deep_view()[j]) by {
                if j < i {
                    assert(prev[j] == spec_tilde(names.deep_view()[j]));
                    assert(r.deep_view()[j] == prev[j]);
                } else {
                    assert(r.deep_view()[j] == s@);
                }
            }
        }
        i = i + 1;
    }
    r
}

/// Each author name with tildes for spaces, in uppercase.
fn authors_tilde_upper(names: &Vec<String>) -> (r: Vec<String>)
    ensures
        r@.len() == names@.len(),
        forall|j: int|
            0 <= j < names@.len() ==> r.deep_view()[j] == upper_of(
                spec_tilde(names.deep_view()[j]),
            ),
{
    let mut r: Vec<String> = Vec::new();
    let mut i: usize = 0;
    while i < names.len()
        invariant
            i <= names.len(),
            r@.len() == i,
            forall|j: int|
                0 <= j < i ==> r.deep_view()[j] == upper_of(spec_tilde(names.deep_view()[j])),
        decreases names.len() - i,
    {
        let ghost prev = r.deep_view();
        let t = tilde_name(names[i].as_str());
        let s = to_upper(t.as_str());
        r.push(s);
        proof {
            assert forall|j: int|
                0 <= j < i + 1 implies r.deep_view()[j] == upper_of(
                spec_tilde(names.deep_view()[j]),
            ) by {
                if j < i {
                    assert(prev[j] == upper_of(spec_tilde(names.deep_view()[j])));
                    assert(r.deep_view()[j] == prev[j]);
                } else {
                    assert(r.deep_view()[j] == s@);
                }
            }
        }
        i = i + 1;
    }
    r
}

/// The LaTeX packages the template itself needs, in declaration order.
pub open spec fn spec_template_imports() -> Seq<Seq<char>> {
    seq![
        "\\usepackage[top=3cm,bottom=3cm,inner=3cm,outer=3cm]{geometry}"@,
        "\\usepackage{parskip}"@,
        "\\usepackage{textcomp}"@,
        "\\usepackage{lmodern}"@,
        "\\usepackage{helvet}"@,
        "\\usepackage[T1]{fontenc}"@,
        "\\usepackage[utf8]{inputenc}"@,
        "\\usepackage[english]{babel}"@,
        "\\usepackage{graphicx}"@,
        "\\usepackage{float}"@,
        "\\usepackage[hidelinks]{hyperref}"@,
        "\\usepackage[normalem]{ulem}"@,
        "\\usepackage{svg}"@,
        "\\usepackage{adjustbox}"@,
        "\\usepackage{datetime}"@,
        "\\usepackage{csquotes}"@,
        "\\usepackage[backend=biber,style=ieee,urldate=comp,block=ragged]{biblatex}"@,
        "\\usepackage{titlesec}"@,
        "\\usepackage{eso-pic}"@,
        "\\usepackage[labelfont=bf,textfont=normal,justification=justified,singlelinecheck=false]{caption}"@,
        "\\usepackage{fancyhdr}"@,
        "\\usepackage{xpatch}"@,
    ]
}

/// The imports of the thesis template, each a `\usepackage` line. Kept
/// in declaration order so the emitted preamble is reproducible.
pub fn get_template_imports() -> (r: Vec<String>)
    ensures
        r.deep_view() == spec_template_imports(),
{
    let mut r: Vec<String> = Vec::new();
    r.push("\\usepackage[top=3cm,bottom=3cm,inner=3cm,outer=3cm]{geometry}".to_owned());
    r.push("\\usepackage{parskip}".to_owned());
    r.push("\\usepackage{textcomp}".to_owned());
    r.push("\\usepackage{lmodern}".to_owned());
    r.push("\\usepackage{helvet}".to_owned());
    r.push("\\usepackage[T1]{fontenc}".to_owned());
    r.push("\\usepackage[utf8]{inputenc}".to_owned());
    r.push("\\usepackage[english]{babel}".to_owned());
    r.push("\\usepackage{graphicx}".to_owned());
    r.push("\\usepackage{float}".to_owned());
    r.push("\\usepackage[hidelinks]{hyperref}".to_owned());
    r.push("\\usepackage[normalem]{ulem}".to_owned());
    r.push("\\usepackage{svg}".to_owned());
    r.push("\\usepackage{adjustbox}".to_owned());
    r.push("\\usepackage{datetime}".to_owned());
    r.push("\\usepackage{csquotes}".to_owned());
    r.push("\\usepackage[backend=biber,style=ieee,urldate=comp,block=ragged]{biblatex}".to_owned());
    r.push("\\usepackage{titlesec}".to_owned());
    r.push("\\usepackage{eso-pic}".to_owned());
    r.push(
        "\\usepackage[labelfont=bf,textfont=normal,justification=justified,singlelinecheck=false]{caption}".to_owned(),
    );
    r.push("\\usepackage{fancyhdr}".to_owned());
    r.push("\\usepackage{xpatch}".to_owned());
    proof {
        assert(r.deep_view() =~~= spec_template_imports());
    }
    r
}

/// The author block of the cover page.
pub open spec fn spec_cover_authors(names: Seq<Seq<char>>) -> Seq<char> {
    spec_join(
        names.map_values(|n: Seq<char>| " {\\Large "@ + n + "} \\setlength{\\parskip}{2.9cm}"@),
        "\\\\[1ex]\n"@,
    )
}

/// The whole cover page.
pub open spec fn spec_coverpage(s: DocSettings) -> Seq<char> {
    r#"
\pagenumbering{roman}	
\begin{titlepage}
    \newgeometry{top=3cm, bottom=3cm, left=2.25 cm, right=2.25cm}	% Temporarily change margins
    \AddToShipoutPicture*{\put(55,150){\includesvg{coverpage.svg}}}
    \addtolength{\voffset}{2cm}"#@ + (match s.cover_art {
        Some(c) => r#"
    
    % Cover art		
    \begin{figure}[H]
        \centering 
        \includegraphics[width=\linewidth]{"#@ + c@ + r#"}
    \end{figure}"#@,
        None => Seq::<char>::empty(),
    }) + r#"
    
    % Cover text
    \mbox{}
    \vfill
    \renewcommand{\familydefault}{\sfdefault} \normalfont % Set cover page font"#@ + "\n    \\textbf{\\Huge "@
        + spec_title(s) + "}\n"@ + (match s.subtitle {
        Some(sub) => "\n    {\\Large "@ + sub@ + "}\\\\[0.3cm]\n"@,
        None => Seq::<char>::empty(),
    }) + "\n    Bachelor's thesis"@ + (match s.subject {
        Some(subject) => " in "@ + subject@,
        None => Seq::<char>::empty(),
    }) + " \\setlength{\\parskip}{0.5cm}"@ + "\n\n"@ + spec_cover_authors(s.authors.deep_view())
        + "\n\n"@ + (match s.department {
        Some(d) => d@ + "\\\\\n"@,
        None => Seq::<char>::empty(),
    }) + r"\textsc{Chalmers University of Technology} \\
    \textsc{University of Gothenburg} \\
    Gothenburg, Sweden \the\year
    
    \renewcommand{\familydefault}{\rmdefault} \normalfont % Reset standard font
\end{titlepage}
    
\newpage
\restoregeometry
\thispagestyle{empty}
\mbox{}"@
}

/// Builds the cover page: cover art if any, title and subtitle, subject
/// line, authors, and the institutional footer.
pub fn create_coverpage(settings: &DocSettings) -> (r: String)
    ensures
        r@ == spec_coverpage(*settings),
{
    let mut content = String::new();
    content.append(
        r#"
\pagenumbering{roman}	
\begin{titlepage}
    \newgeometry{top=3cm, bottom=3cm, left=2.25 cm, right=2.25cm}	% Temporarily change margins
    \AddToShipoutPicture*{\put(55,150){\includesvg{coverpage.svg}}}
    \addtolength{\voffset}{2cm}"#,
    );
    match &settings.cover_art {
        Some(cover_art) => {
            content.append(
                r#"
    
    % Cover art		
    \begin{figure}[H]
        \centering 
        \includegraphics[width=\linewidth]{"#,
            );
            content.append(cover_art.as_str());
            content.append(
                r#"}
    \end{figure}"#,
            );
        },
        None => {
        },
    }
    content.append(
        r#"
    
    % Cover text
    \mbox{}
    \vfill
    \renewcommand{\familydefault}{\sfdefault} \normalfont % Set cover page font"#,
    );
    let title = settings.get_title();
    content.append("\n    \\textbf{\\Huge ");
    content.append(title.as_str());
    content.append("}\n");
    match &settings.subtitle {
        Some(subtitle) => {
            content.append("\n    {\\Large ");
            content.append(subtitle.as_str());
            content.append("}\\\\[0.3cm]\n");
        },
        None => {
        },
    }
    content.append("\n    Bachelor's thesis");
    match &settings.subject {
        Some(subject) => {
            content.append(" in ");
            content.append(subject.as_str());
        },
        None => {
        },
    }
    content.append(" \\setlength{\\parskip}{0.5cm}");
    content.append("\n\n");
    let decorated = authors_decorated(
        &settings.authors,
        " {\\Large ",
        "} \\setlength{\\parskip}{2.9cm}",
    );
    let joined = join_strings(&decorated, "\\\\[1ex]\n");
    content.append(joined.as_str());
    proof {
        assert(decorated.deep_view() =~~= settings.authors.deep_view().map_values(
            |n: Seq<char>| " {\\Large "@ + n + "} \\setlength{\\parskip}{2.9cm}"@,
        ));
    }
    content.append("\n\n");
    match &settings.department {
        Some(department) => {
            content.append(department.as_str());
            content.append("\\\\\n");
        },
        None => {
        },
    }
    content.append(
        r"\textsc{Chalmers University of Technology} \\
    \textsc{University of Gothenburg} \\
    Gothenburg, Sweden \the\year
    
    \renewcommand{\familydefault}{\rmdefault} \normalfont % Reset standard font
\end{titlepage}
    
\newpage
\restoregeometry
\thispagestyle{empty}
\mbox{}",
    );
    proof {
        assert(content@ =~= spec_coverpage(*settings));
    }
    content
}


/// The author block of the title page.
pub open spec fn spec_titlepage_authors(names: Seq<Seq<char>>) -> Seq<char> {
    spec_join(names.map_values(|n: Seq<char>| " {\\large "@ + n + "}"@), "\\\\[1ex]\n"@)
}

/// The whole title page.
pub open spec fn spec_titlepage(s: DocSettings) -> Seq<char> {
    r"
\newpage
\thispagestyle{empty}
\begin{center}

\textsc{\large Bachelor's thesis \the\year}\\[4cm]
"@ + "\n    \\textbf{\\Large "@ + spec_title(s) + "} \\\\[1cm]\n"@ + (match s.subtitle {
        Some(sub) => "\n    {\\large "@ + sub@ + "}\\\\[1cm]\n"@,
        None => Seq::<char>::empty(),
    }) + spec_titlepage_authors(s.authors.deep_view()) + "  \\vfill"@ + r"
\begin{figure}[H]
    \centering
    \includesvg[width=0.25\pdfpagewidth]{guandchalmerslogo}
\end{figure} \vspace{5mm}	
	
    "@ + (match s.department {
        Some(d) => d@,
        None => Seq::<char>::empty(),
    }) + "\\"@ + r"
	\textsc{Chalmers University of Technology} \\
	\textsc{University of Gothenburg} \\
	Gothenburg, Sweden \the\year \\
\end{center}"@
}

/// Builds the title page: heading line, title and subtitle, authors,
/// the university logo and the institutional footer.
pub fn create_titlepage(settings: &DocSettings) -> (r: String)
    ensures
        r@ == spec_titlepage(*settings),
{
    let mut content = String::new();
    content.append(
        r"
\newpage
\thispagestyle{empty}
\begin{center}

\textsc{\large Bachelor's thesis \the\year}\\[4cm]
",
    );
    let title = settings.get_title();
    content.append("\n    \\textbf{\\Large ");
    content.append(title.as_str());
    content.append("} \\\\[1cm]\n");
    match &settings.subtitle {
        Some(subtitle) => {
            content.append("\n    {\\large ");
            content.append(subtitle.as_str());
            content.append("}\\\\[1cm]\n");
        },
        None => {
        },
    }
    let decorated = authors_decorated(&settings.authors, " {\\large ", "}");
    let joined = join_strings(&decorated, "\\\\[1ex]\n");
    proof {
        assert(decorated.deep_view() =~~= settings.authors.deep_view().map_values(
            (|n: Seq<char>| " {\\large "@ + n + "}"@),
        ));
    }
    content.append(joined.as_str());
    content.append("  \\vfill");
    content.append(
        r"
\begin{figure}[H]
    \centering
    \includesvg[width=0.25\pdfpagewidth]{guandchalmerslogo}
\end{figure} \vspace{5mm}	
	
    ",
    );
    match &settings.department {
        Some(department) => {
            content.append(department.as_str());
        },
        None => {
        },
    }
    content.append("\\");
    content.append(
        r"
	\textsc{Chalmers University of Technology} \\
	\textsc{University of Gothenburg} \\
	Gothenburg, Sweden \the\year \\
\end{center}",
    );
    proof {
        assert(content@ =~= spec_titlepage(*settings));
    }
    content
}

/// The author block of the imprint page.
pub open spec fn spec_imprint_authors(names: Seq<Seq<char>>) -> Seq<char> {
    spec_join(
        names.map_values(|n: Seq<char>| spec_tilde(n) + " \\setlength{\\parskip}{1cm}"@),
        "\n"@,
    )
}

/// The copyright line's author list: tilded names in uppercase.
pub open spec fn spec_copyright_authors(names: Seq<Seq<char>>) -> Seq<char> {
    spec_join(names.map_values(|n: Seq<char>| upper_of(spec_tilde(n))), ", "@)
}

/// The top of the imprint page: title, subtitle, authors, copyright.
pub open spec fn spec_imprint_top(s: DocSettings) -> Seq<char> {
    r"
\newpage
\thispagestyle{plain}
\vspace*{4.5cm}"@ + "\\textbf{"@ + spec_title(s) + "}\\\\\n"@ + (match s.subtitle {
        Some(sub) => sub@ + "\\\\\n"@,
        None => Seq::<char>::empty(),
    }) + spec_imprint_authors(s.authors.deep_view()) + "\n\n"@ + "\\copyright ~ "@
        + spec_copyright_authors(s.authors.deep_view())
        + " \\the\\year. \\setlength{\\parskip}{1cm}"@ + "\n\n"@
}

/// The middle of the imprint page: the people involved, each line only
/// when the person was configured.
pub open spec fn spec_imprint_people(s: DocSettings) -> Seq<char> {
    (match s.supervisor {
        Some(sup) => "Supervisor (handledare): "@ + sup@ + ", "@ + (match s.supervisor_department {
            Some(d) => d@,
            None => Seq::<char>::empty(),
        }) + "\\\\\n"@,
        None => Seq::<char>::empty(),
    }) + (match s.course_examiner {
        Some(ce) => "Examiners: "@ + ce@ + ", "@ + (match s.course_examiner_department {
            Some(d) => d@,
            None => Seq::<char>::empty(),
        }) + "\\\\\n"@,
        None => Seq::<char>::empty(),
    }) + (match s.examiner {
        Some(ex) => "Graded by teacher (r\u{e4}ttande l\u{e4}rare): "@ + ex@ + ", "@ + (
        match s.examiner_department {
            Some(d) => d@,
            None => Seq::<char>::empty(),
        }) + "\\\\\n"@,
        None => Seq::<char>::empty(),
    })
}

/// The bottom of the imprint page: address block, cover description and
/// colophon.
pub open spec fn spec_imprint_bottom(s: DocSettings) -> Seq<char> {
    "\n\n"@ + "\\setlength{\\parskip}{1cm}"@ + "\n\n"@ + "Bachelor's Thesis \\the\\year\\\\"@ + (
    match s.department {
        Some(d) => d@,
        None => Seq::<char>::empty(),
    }) + r"
Chalmers University of Technology and University of Gothenburg\\
SE-412 96 Gothenburg\\
Telephone +46 31 772 1000 \setlength{\parskip}{0.5cm}

\vfill

"@ + (match s.cover_art_description {
        Some(desc) => "Cover: "@ + desc@ + "\n"@,
        None => Seq::<char>::empty(),
    }) + "\n\n"@ + r"
\includesvg[width=5cm]{modmark}\\
Typeset using \LaTeX \\
Gothenburg, Sweden \the\year"@
}

/// The whole imprint page.
pub open spec fn spec_imprint_page(s: DocSettings) -> Seq<char> {
    spec_imprint_top(s) + spec_imprint_people(s) + spec_imprint_bottom(s)
}

fn imprint_top(settings: &DocSettings) -> (r: String)
    ensures
        r@ == spec_imprint_top(*settings),
{
    let mut content = String::new();
    content.append(
        r"
\newpage
\thispagestyle{plain}
\vspace*{4.5cm}",
    );
    let title = settings.get_title();
    content.append("\\textbf{");
    content.append(title.as_str());
    content.append("}\\\\\n");
    match &settings.subtitle {
        Some(subtitle) => {
            content.append(subtitle.as_str());
            content.append("\\\\\n");
        },
        None => {
        },
    }
    let tilded = authors_tilde(&settings.authors);
    let decorated = authors_decorated(&tilded, "", " \\setlength{\\parskip}{1cm}");
    let joined = join_strings(&decorated, "\n");
    proof {
        reveal_strlit("");
        assert(decorated.deep_view() =~~= settings.authors.deep_view().map_values(
            (|n: Seq<char>| spec_tilde(n) + " \\setlength{\\parskip}{1cm}"@),
        ));
    }
    content.append(joined.as_str());
    content.append("\n\n");
    content.append("\\copyright ~ ");
    let uppered = authors_tilde_upper(&settings.authors);
    let cr_joined = join_strings(&uppered, ", ");
    proof {
        assert(uppered.deep_view() =~~= settings.authors.deep_view().map_values(
            (|n: Seq<char>| upper_of(spec_tilde(n))),
        ));
    }
    content.append(cr_joined.as_str());
    content.append(" \\the\\year. \\setlength{\\parskip}{1cm}");
    content.append("\n\n");
    proof {
        assert(content@ =~= spec_imprint_top(*settings));
    }
    content
}

fn imprint_people(settings: &DocSettings) -> (r: String)
    ensures
        r@ == spec_imprint_people(*settings),
{
    let mut content = String::new();
    match &settings.supervisor {
        Some(supervisor) => {
            content.append("Supervisor (handledare): ");
            content.append(supervisor.as_str());
            content.append(", ");
            match &settings.supervisor_department {
                Some(d) => content.append(d.as_str()),
                None => {
                },
            }
            content.append("\\\\\n");
        },
        None => {
        },
    }
    match &settings.course_examiner {
        Some(course_examiner) => {
            content.append("Examiners: ");
            content.append(course_examiner.as_str());
            content.append(", ");
            match &settings.course_examiner_department {
                Some(d) => content.append(d.as_str()),
                None => {
                },
            }
            content.append("\\\\\n");
        },
        None => {
        },
    }
    match &settings.examiner {
        Some(examiner) => {
            content.append("Graded by teacher (r\u{e4}ttande l\u{e4}rare): ");
            content.append(examiner.as_str());
            content.append(", ");
            match &settings.examiner_department {
                Some(d) => content.append(d.as_str()),
                None => {
                },
            }
            content.append("\\\\\n");
        },
        None => {
        },
    }
    proof {
        assert(content@ =~= spec_imprint_people(*settings));
    }
    content
}

fn imprint_bottom(settings: &DocSettings) -> (r: String)
    ensures
        r@ == spec_imprint_bottom(*settings),
{
    let mut content = String::new();
    content.append("\n\n");
    content.append("\\setlength{\\parskip}{1cm}");
    content.append("\n\n");
    content.append("Bachelor's Thesis \\the\\year\\\\");
    match &settings.department {
        Some(department) => {
            content.append(department.as_str());
        },
        None => {
        },
    }
    content.append(
        r"
Chalmers University of Technology and University of Gothenburg\\
SE-412 96 Gothenburg\\
Telephone +46 31 772 1000 \setlength{\parskip}{0.5cm}

\vfill

",
    );
    match &settings.cover_art_description {
        Some(desc) => {
            content.append("Cover: ");
            content.append(desc.as_str());
            content.append("\n");
        },
        None => {
        },
    }
    content.append("\n\n");
    content.append(
        r"
\includesvg[width=5cm]{modmark}\\
Typeset using \LaTeX \\
Gothenburg, Sweden \the\year",
    );
    proof {
        assert(content@ =~= spec_imprint_bottom(*settings));
    }
    content
}

/// Builds the imprint page: title, authors, copyright, the people
/// involved, the address block and the colophon.
pub fn create_imprint_page(settings: &DocSettings) -> (r: String)
    ensures
        r@ == spec_imprint_page(*settings),
{
    let mut content = imprint_top(settings);
    let people = imprint_people(settings);
    content.append(people.as_str());
    let bottom = imprint_bottom(settings);
    content.append(bottom.as_str());
    content
}

/// The author list as it stands on the abstract and acknowledgement
/// pages: tilded names joined by commas.
pub open spec fn spec_comma_authors(names: Seq<Seq<char>>) -> Seq<char> {
    spec_join(names.map_values(|n: Seq<char>| spec_tilde(n)), ", "@)
}

/// The operations of the abstract pages: nothing when no abstract was
/// configured, else the English abstract, the Swedish one and the
/// keywords when present, each abstract body compiled by the host.
pub open spec fn spec_abstract_ops(s: DocSettings) -> Seq<OpView> {
    match s.abstract_content {
        None => Seq::empty(),
        Some(abs) => seq![
            OpView::Text("\\newpage\n"@),
            OpView::Text("\\textbf{"@ + spec_title(s) + "}"@),
            OpView::Text("\\\\ \n"@),
        ] + (match s.subtitle {
            Some(sub) => seq![OpView::Text(sub@ + "\\\\ \n"@)],
            None => Seq::<OpView>::empty(),
        }) + seq![
            OpView::Text("\n\n\\parbox{0.8\\textwidth}{\n\\begin{flushleft}"@),
            OpView::Text(spec_comma_authors(s.authors.deep_view())),
            OpView::Text("\n\\end{flushleft}\n} \\\\ \n\n"@),
        ] + (match s.department {
            Some(d) => seq![OpView::Text(d@ + " \\\\"@)],
            None => Seq::<OpView>::empty(),
        }) + seq![
            OpView::Text(
                r"
Chalmers University of Technology and University of Gothenburg\setlength{\parskip}{0.5cm}

\thispagestyle{plain}
\setlength{\parskip}{0pt plus 1.0pt}
\section*{Abstract}
"@,
            ),
            OpView::BlockContent(abs@),
        ] + (match s.sammandrag {
            Some(sam) => seq![
                OpView::Text("\\section*{Sammanfattning}"@),
                OpView::BlockContent(sam@),
            ],
            None => Seq::<OpView>::empty(),
        }) + (match s.keywords {
            Some(kw) => seq![OpView::Text("\n    \\vfill\n    Keywords: "@ + kw@)],
            None => Seq::<OpView>::empty(),
        }) + seq![
            OpView::Text(
                r"
\newpage
\thispagestyle{empty}
\mbox{}"@,
            ),
        ],
    }
}

/// Builds the abstract pages.
#[verifier::rlimit(100)]
pub fn create_abstract(settings: &DocSettings) -> (r: Vec<HostOp>)
    ensures
        r.deep_view() == spec_abstract_ops(*settings),
{
    let mut ops: Vec<HostOp> = Vec::new();
    match &settings.abstract_content {
        None => {
            proof {
                assert(ops.deep_view() =~~= spec_abstract_ops(*settings));
            }
            ops
        },
        Some(abstract_content) => {
            ops.push(HostOp::Text("\\newpage\n".to_owned()));
            let title = settings.get_title();
            let mut t: String = "\\textbf{".to_owned();
            t.append(title.as_str());
            t.append("}");
            ops.push(HostOp::Text(t));
            ops.push(HostOp::Text("\\\\ \n".to_owned()));
            match &settings.subtitle {
                Some(subtitle) => {
                    let mut st: String = subtitle.clone();
                    st.append("\\\\ \n");
                    ops.push(HostOp::Text(st));
                },
                None => {
                },
            }
            ops.push(HostOp::Text("\n\n\\parbox{0.8\\textwidth}{\n\\begin{flushleft}".to_owned()));
            let tilded = authors_tilde(&settings.authors);
            let joined = join_strings(&tilded, ", ");
            proof {
                assert(tilded.deep_view() =~~= settings.authors.deep_view().map_values(
                    (|n: Seq<char>| spec_tilde(n)),
                ));
            }
            ops.push(HostOp::Text(joined));
            ops.push(HostOp::Text("\n\\end{flushleft}\n} \\\\ \n\n".to_owned()));
            match &settings.department {
                Some(department) => {
                    let mut d: String = department.clone();
                    d.append(" \\\\");
                    ops.push(HostOp::Text(d));
                },
                None => {
                },
            }
            ops.push(
                HostOp::Text(
                    r"
Chalmers University of Technology and University of Gothenburg\setlength{\parskip}{0.5cm}

\thispagestyle{plain}
\setlength{\parskip}{0pt plus 1.0pt}
\section*{Abstract}
".to_owned(),
                ),
            );
            ops.push(HostOp::BlockContent(abstract_content.clone()));
            match &settings.sammandrag {
                Some(sammandrag) => {
                    ops.push(HostOp::Text("\\section*{Sammanfattning}".to_owned()));
                    ops.push(HostOp::BlockContent(sammandrag.clone()));
                },
                None => {
                },
            }
            match &settings.keywords {
                Some(keywords) => {
                    let mut k: String = "\n    \\vfill\n    Keywords: ".to_owned();
                    k.append(keywords.as_str());
                    ops.push(HostOp::Text(k));
                },
                None => {
                },
            }
            ops.push(
                HostOp::Text(
                    r"
\newpage
\thispagestyle{empty}
\mbox{}".to_owned(),
                ),
            );
            proof {
                assert(ops.deep_view() =~~= spec_abstract_ops(*settings));
            }
            ops
        },
    }
}

/// The operations of the acknowledgement pages: nothing when no text
/// was configured, else the section with the text compiled by the host
/// and the authors signing off.
pub open spec fn spec_acknowledgements_ops(s: DocSettings) -> Seq<OpView> {
    match s.acknowledgements_content {
        None => Seq::empty(),
        Some(ack) => seq![
            OpView::Text("\\newpage\n\\thispagestyle{plain}\n\n\\section*{Acknowledgements}"@),
            OpView::BlockContent(ack@),
            OpView::Text(
                r"\vspace{1.5cm}
\hfill
\begin{flushright}"@,
            ),
            OpView::Text(spec_comma_authors(s.authors.deep_view())),
            OpView::Text(
                r"
Gothenburg, \monthname \space \the\year
\end{flushright}
    
\newpage				% Create empty back of side
\thispagestyle{empty}
\mbox{}"@,
            ),
        ],
    }
}

/// Builds the acknowledgement pages.
pub fn create_acknowledgements(settings: &DocSettings) -> (r: Vec<HostOp>)
    ensures
        r.deep_view() == spec_acknowledgements_ops(*settings),
{
    let mut ops: Vec<HostOp> = Vec::new();
    match &settings.acknowledgements_content {
        None => {
            proof {
                assert(ops.deep_view() =~~= spec_acknowledgements_ops(*settings));
            }
            ops
        },
        Some(acknowledgements) => {
            ops.push(
                HostOp::Text("\\newpage\n\\thispagestyle{plain}\n\n\\section*{Acknowledgements}".to_owned()),
            );
            ops.push(HostOp::BlockContent(acknowledgements.clone()));
            ops.push(
                HostOp::Text(
                    r"\vspace{1.5cm}
\hfill
\begin{flushright}".to_owned(),
                ),
            );
            let tilded = authors_tilde(&settings.authors);
            let joined = join_strings(&tilded, ", ");
            proof {
                assert(tilded.deep_view() =~~= settings.authors.deep_view().map_values(
                    (|n: Seq<char>| spec_tilde(n)),
                ));
            }
            ops.push(HostOp::Text(joined));
            ops.push(
                HostOp::Text(
                    r"
Gothenburg, \monthname \space \the\year
\end{flushright}
    
\newpage				% Create empty back of side
\thispagestyle{empty}
\mbox{}".to_owned(),
                ),
            );
            proof {
                assert(ops.deep_view() =~~= spec_acknowledgements_ops(*settings));
            }
            ops
        },
    }
}

} // verus!
