//! The Markdown digest report for one inbox item.
use vstd::prelude::*;

use crate::text::{
    contains_seq, copy_str, has_prefix, has_suffix, lemma_contains_after, lemma_contains_split,
    lemma_lacks_first, occurs_at, opt_view,
};

verus! {

/// The optional line of `prefix`, `name` and a newline.
pub open spec fn name_line(prefix: Seq<char>, name: Option<Seq<char>>) -> Seq<char> {
    match name {
        Some(n) => prefix + n + "\n"@,
        None => Seq::empty(),
    }
}

/// The optional section with the raw enrichment JSON: present when the item
/// was enriched and its JSON value is not null.
pub open spec fn raw_json_section(enriched: bool, json: Option<Seq<char>>) -> Seq<char> {
    match json {
        Some(j) => if enriched {
            "\n## Enrichment (raw JSON)\n\n```json\n"@ + j + "\n```\n"@
        } else {
            Seq::empty()
        },
        None => Seq::empty(),
    }
}

/// The API section's line.
pub open spec fn api_line(api_pushed: bool) -> Seq<char> {
    if api_pushed {
        "- Task pushed to task-orchestrator API\n\n"@
    } else {
        "- Skipped (no API configured)\n\n"@
    }
}

/// The report: front matter tagged `digest` and the project, a link to
/// the source item, the item's text, the project routing, the action type,
/// the API outcome, the rendered enrichment, and the raw enrichment JSON.
pub open spec fn report_spec(
    task_content: Seq<char>,
    source_stem: Seq<char>,
    project_kind: Seq<char>,
    project_name: Option<Seq<char>>,
    classification_method: Seq<char>,
    action_type: Seq<char>,
    action_type_method: Seq<char>,
    enrichment_rendered: Seq<char>,
    enriched: bool,
    enrichment_json: Option<Seq<char>>,
    api_pushed: bool,
) -> Seq<char> {
    "---\ntags:\n  - digest\n"@ + name_line("  - "@, project_name) + "source: \"[["@ + source_stem
        + "]]\"\n"@ + "---\n\n"@ + "Source: [["@ + source_stem + "]]\n\n"@ + task_content
        + "\n\n---\n\n"@ + "## Project Routing\n\n"@ + "- **Kind:** "@ + project_kind + "\n"@
        + name_line("- **Project:** "@, project_name) + "- **Method:** "@ + classification_method
        + "\n\n"@ + "## Action Type\n\n"@ + "- **Type:** "@ + action_type + "\n"@
        + "- **Method:** "@ + action_type_method + "\n\n"@ + "## API\n\n"@ + api_line(api_pushed)
        + enrichment_rendered + raw_json_section(enriched, enrichment_json)
}

/// The view of an optional string slice.
pub open spec fn opt_str_view(o: Option<&str>) -> Option<Seq<char>> {
    match o {
        Some(s) => Some(s@),
        None => None,
    }
}

/// Builds the digest report.  `enrichment_json` is the pretty-printed JSON
/// of the enrichment, `None` when that value is null.
#[verifier::rlimit(40)]
pub fn build_report(
    task_content: &str,
    source_stem: &str,
    project_kind: &str,
    project_name: Option<&str>,
    classification_method: &str,
    action_type: &str,
    action_type_method: &str,
    enrichment_rendered: &str,
    enriched: bool,
    enrichment_json: &Option<String>,
    api_pushed: bool,
) -> (r: String)
    ensures
        r@ == report_spec(
            task_content@,
            source_stem@,
            project_kind@,
            opt_str_view(project_name),
            classification_method@,
            action_type@,
            action_type_method@,
            enrichment_rendered@,
            enriched,
            opt_view(*enrichment_json),
            api_pushed,
        ),
{
    let mut report = copy_str("---\ntags:\n  - digest\n");
    if let Some(name) = project_name {
        report.append("  - ");
        report.append(name);
        report.append("\n");
    }
    let ghost front = report@;
    assert(front =~= "---\ntags:\n  - digest\n"@ + name_line("  - "@, opt_str_view(project_name)));
    report.append("source: \"[[");
    report.append(source_stem);
    report.append("]]\"\n");
    report.append("---\n\n");
    report.append("Source: [[");
    report.append(source_stem);
    report.append("]]\n\n");
    report.append(task_content);
    report.append("\n\n---\n\n");
    report.append("## Project Routing\n\n");
    report.append("- **Kind:** ");
    report.append(project_kind);
    report.append("\n");
    let ghost before_name = report@;
    if let Some(name) = project_name {
        report.append("- **Project:** ");
        report.append(name);
        report.append("\n");
    }
    assert(report@ =~= before_name + name_line("- **Project:** "@, opt_str_view(project_name)));
    report.append("- **Method:** ");
    report.append(classification_method);
    report.append("\n\n");
    report.append("## Action Type\n\n");
    report.append("- **Type:** ");
    report.append(action_type);
    report.append("\n");
    report.append("- **Method:** ");
    report.append(action_type_method);
    report.append("\n\n");
    report.append("## API\n\n");
    if api_pushed {
        report.append("- Task pushed to task-orchestrator API\n\n");
    } else {
        report.append("- Skipped (no API configured)\n\n");
    }
    report.append(enrichment_rendered);
    let ghost before_json = report@;
    if enriched {
        if let Some(json) = enrichment_json {
            report.append("\n## Enrichment (raw JSON)\n\n```json\n");
            report.append(json.as_str());
            report.append("\n```\n");
        }
    }
    assert(report@ =~= before_json + raw_json_section(enriched, opt_view(*enrichment_json)));
    report
}

} // verus!

verus! {

/// The heading of the raw enrichment JSON section.
pub open spec fn raw_json_heading() -> Seq<char> {
    "## Enrichment (raw JSON)"@
}

/// `a + b` has no heading when neither has one and no heading can
/// straddle them.
proof fn lemma_join(a: Seq<char>, b: Seq<char>)
    requires
        !contains_seq(a, raw_json_heading()),
        !contains_seq(b, raw_json_heading()),
        (a.len() > 0 && !raw_json_heading().contains(a.last())) || (b.len() > 0
            && !raw_json_heading().contains(b[0])),
    ensures
        !contains_seq(a + b, raw_json_heading()),
{
    reveal_strlit("## Enrichment (raw JSON)");
    lemma_contains_split(a, b, raw_json_heading());
}

/// `(a + label) + b` has no heading when `a` and `b` have none, `a` ends
/// with a character the heading lacks and `label` has no `#`.
proof fn lemma_join_labelled(a: Seq<char>, label: Seq<char>, b: Seq<char>)
    requires
        !contains_seq(a, raw_json_heading()),
        !contains_seq(b, raw_json_heading()),
        a.len() > 0 && !raw_json_heading().contains(a.last()),
        !label.contains('#'),
    ensures
        !contains_seq((a + label) + b, raw_json_heading()),
{
    let m = raw_json_heading();
    reveal_strlit("## Enrichment (raw JSON)");
    assert((a + label) + b =~= a + (label + b));
    lemma_contains_after(label, b, m);
    lemma_contains_split(a, label + b, m);
}

/// A text without `#` has no heading.
proof fn lemma_plain(s: Seq<char>)
    requires
        !s.contains('#'),
    ensures
        !contains_seq(s, raw_json_heading()),
{
    reveal_strlit("## Enrichment (raw JSON)");
    lemma_lacks_first(s, raw_json_heading());
}

/// A text shorter than the heading has no heading.
proof fn lemma_short(s: Seq<char>)
    requires
        s.len() < 24,
    ensures
        !contains_seq(s, raw_json_heading()),
{
    reveal_strlit("## Enrichment (raw JSON)");
}

/// An optional line `label + name + "\n"` has no heading when the name
/// has none and the label has no `#`.
proof fn lemma_name_line(label: Seq<char>, name: Option<Seq<char>>)
    requires
        !label.contains('#'),
        name matches Some(n) ==> !contains_seq(n, raw_json_heading()),
    ensures
        !contains_seq(name_line(label, name), raw_json_heading()),
        name_line(label, name).len() > 0 ==> name_line(label, name).last() == '\n',
{
    let m = raw_json_heading();
    reveal_strlit("## Enrichment (raw JSON)");
    reveal_strlit("\n");
    match name {
        Some(n) => {
            lemma_contains_after(label, n, m);
            lemma_plain("\n"@);
            lemma_contains_split(label + n, "\n"@, m);
        },
        None => {
            lemma_short(Seq::empty());
        },
    }
}

/// The report's layout: it starts with the front matter tagged `digest`
/// and the project; the item's text, the `## Project Routing` section, the
/// action type line, the API line and the rendered enrichment follow in
/// this order; and the raw JSON section comes last, present exactly when
/// the item was enriched and has JSON (when no text put into the report
/// holds that section's heading itself).
#[verifier::rlimit(80)]
pub proof fn law_report_layout(
    task_content: Seq<char>,
    source_stem: Seq<char>,
    project_kind: Seq<char>,
    project_name: Option<Seq<char>>,
    classification_method: Seq<char>,
    action_type: Seq<char>,
    action_type_method: Seq<char>,
    enrichment_rendered: Seq<char>,
    enriched: bool,
    enrichment_json: Option<Seq<char>>,
    api_pushed: bool,
)
    ensures
        ({
            let r = report_spec(
                task_content,
                source_stem,
                project_kind,
                project_name,
                classification_method,
                action_type,
                action_type_method,
                enrichment_rendered,
                enriched,
                enrichment_json,
                api_pushed,
            );
            &&& has_prefix(r, "---\ntags:\n  - digest\n"@ + name_line("  - "@, project_name))
            &&& exists|i: int, j: int, k: int, l: int, n: int|
                #![trigger occurs_at(r, task_content, i), occurs_at(r, "## Project Routing"@, j), occurs_at(r, "- **Type:** "@ + action_type, k), occurs_at(r, api_line(api_pushed), l), occurs_at(r, enrichment_rendered, n)]
                {
                    &&& occurs_at(r, task_content, i)
                    &&& occurs_at(r, "## Project Routing"@, j)
                    &&& occurs_at(r, "- **Type:** "@ + action_type, k)
                    &&& occurs_at(r, api_line(api_pushed), l)
                    &&& occurs_at(r, enrichment_rendered, n)
                    &&& i + task_content.len() < j
                    &&& j + 18 < k
                    &&& k + 12 + action_type.len() < l
                    &&& l + api_line(api_pushed).len() == n
                    &&& n + enrichment_rendered.len() + raw_json_section(enriched, enrichment_json).len()
                        == r.len()
                }
            &&& has_suffix(r, raw_json_section(enriched, enrichment_json))
            &&& (enriched && enrichment_json is Some) ==> contains_seq(r, raw_json_heading())
            &&& (!(enriched && enrichment_json is Some) && !contains_seq(
                task_content,
                raw_json_heading(),
            ) && !contains_seq(source_stem, raw_json_heading()) && !contains_seq(
                project_kind,
                raw_json_heading(),
            ) && (project_name matches Some(p) ==> !contains_seq(p, raw_json_heading()))
                && !contains_seq(classification_method, raw_json_heading()) && !contains_seq(
                action_type,
                raw_json_heading(),
            ) && !contains_seq(action_type_method, raw_json_heading()) && !contains_seq(
                enrichment_rendered,
                raw_json_heading(),
            )) ==> !contains_seq(r, raw_json_heading())
        }),
{
    let m = raw_json_heading();
    reveal_strlit("## Enrichment (raw JSON)");
    let pn = project_name;
    let x1 = "---\ntags:\n  - digest\n"@;
    let x2 = x1 + name_line("  - "@, pn);
    let x3 = x2 + "source: \"[["@;
    let x4 = x3 + source_stem;
    let x5 = x4 + "]]\"\n"@;
    let x6 = x5 + "---\n\n"@;
    let x7 = x6 + "Source: [["@;
    let x8 = x7 + source_stem;
    let x9 = x8 + "]]\n\n"@;
    let x10 = x9 + task_content;
    let x11 = x10 + "\n\n---\n\n"@;
    let x12 = x11 + "## Project Routing\n\n"@;
    let x13 = x12 + "- **Kind:** "@;
    let x14 = x13 + project_kind;
    let x15 = x14 + "\n"@;
    let x16 = x15 + name_line("- **Project:** "@, pn);
    let x17 = x16 + "- **Method:** "@;
    let x18 = x17 + classification_method;
    let x19 = x18 + "\n\n"@;
    let x20 = x19 + "## Action Type\n\n"@;
    let x21 = x20 + "- **Type:** "@;
    let x22 = x21 + action_type;
    let x23 = x22 + "\n"@;
    let x24 = x23 + "- **Method:** "@;
    let x25 = x24 + action_type_method;
    let x26 = x25 + "\n\n"@;
    let x27 = x26 + "## API\n\n"@;
    let x28 = x27 + api_line(api_pushed);
    let x29 = x28 + enrichment_rendered;
    let raw = raw_json_section(enriched, enrichment_json);
    let r = x29 + raw;
    reveal_strlit("---\ntags:\n  - digest\n");
    reveal_strlit("source: \"[[");
    reveal_strlit("]]\"\n");
    reveal_strlit("---\n\n");
    reveal_strlit("Source: [[");
    reveal_strlit("]]\n\n");
    reveal_strlit("\n\n---\n\n");
    reveal_strlit("## Project Routing\n\n");
    reveal_strlit("## Project Routing");
    reveal_strlit("- **Kind:** ");
    reveal_strlit("\n");
    reveal_strlit("- **Method:** ");
    reveal_strlit("\n\n");
    reveal_strlit("## Action Type\n\n");
    reveal_strlit("- **Type:** ");
    reveal_strlit("## API\n\n");
    reveal_strlit("- Task pushed to task-orchestrator API\n\n");
    reveal_strlit("- Skipped (no API configured)\n\n");
    reveal_strlit("  - ");
    reveal_strlit("- **Project:** ");
    reveal_strlit("\n## Enrichment (raw JSON)\n\n```json\n");
    reveal_strlit("\n```\n");
    assert(r == report_spec(
        task_content,
        source_stem,
        project_kind,
        project_name,
        classification_method,
        action_type,
        action_type_method,
        enrichment_rendered,
        enriched,
        enrichment_json,
        api_pushed,
    ));
    // Front matter.
    assert(r.take(x2.len() as int) =~= x2);
    // Positions of the parts, in order.
    let i = x9.len() as int;
    let j = x11.len() as int;
    let k = x20.len() as int;
    let l = x27.len() as int;
    let n = x28.len() as int;
    assert(r.subrange(i, i + task_content.len()) =~= task_content);
    assert(r.subrange(j, j + 18) =~= "## Project Routing"@);
    assert(r.subrange(k, k + 12 + action_type.len()) =~= "- **Type:** "@ + action_type);
    assert(r.subrange(l, l + api_line(api_pushed).len()) =~= api_line(api_pushed));
    assert(r.subrange(n, n + enrichment_rendered.len()) =~= enrichment_rendered);
    assert(occurs_at(r, task_content, i));
    assert(occurs_at(r, "## Project Routing"@, j));
    assert(occurs_at(r, "- **Type:** "@ + action_type, k));
    assert(occurs_at(r, api_line(api_pushed), l));
    assert(occurs_at(r, enrichment_rendered, n));
    // The raw section ends the report.
    assert(r.skip(r.len() - raw.len()) =~= raw);
    if enriched && enrichment_json is Some {
        let h: int = x29.len() as int + 1;
        assert(r.subrange(h, h + 24) =~= m);
        assert(occurs_at(r, m, h));
    }
    if !(enriched && enrichment_json is Some) && !contains_seq(task_content, m) && !contains_seq(
        source_stem,
        m,
    ) && !contains_seq(project_kind, m) && (pn matches Some(p) ==> !contains_seq(p, m))
        && !contains_seq(classification_method, m) && !contains_seq(action_type, m)
        && !contains_seq(action_type_method, m) && !contains_seq(enrichment_rendered, m) {
        lemma_plain(x1);
        lemma_name_line("  - "@, pn);
        if name_line("  - "@, pn).len() > 0 {
            lemma_join(x1, name_line("  - "@, pn));
        } else {
            assert(x2 =~= x1);
        }
        lemma_plain("source: \"[["@);
        lemma_join(x2, "source: \"[["@);
        lemma_join(x3, source_stem);
        lemma_plain("]]\"\n"@);
        lemma_join(x4, "]]\"\n"@);
        lemma_plain("---\n\n"@);
        lemma_join(x5, "---\n\n"@);
        lemma_plain("Source: [["@);
        lemma_join(x6, "Source: [["@);
        lemma_join(x7, source_stem);
        lemma_plain("]]\n\n"@);
        lemma_join(x8, "]]\n\n"@);
        lemma_join(x9, task_content);
        lemma_plain("\n\n---\n\n"@);
        lemma_join(x10, "\n\n---\n\n"@);
        lemma_short("## Project Routing\n\n"@);
        lemma_join(x11, "## Project Routing\n\n"@);
        lemma_join_labelled(x12, "- **Kind:** "@, project_kind);
        assert(x14 == (x12 + "- **Kind:** "@) + project_kind);
        lemma_plain("\n"@);
        lemma_join(x14, "\n"@);
        lemma_name_line("- **Project:** "@, pn);
        if name_line("- **Project:** "@, pn).len() > 0 {
            lemma_join(x15, name_line("- **Project:** "@, pn));
        } else {
            assert(x16 =~= x15);
        }
        assert(x16.last() == '\n');
        lemma_join_labelled(x16, "- **Method:** "@, classification_method);
        lemma_plain("\n\n"@);
        lemma_join(x18, "\n\n"@);
        lemma_short("## Action Type\n\n"@);
        lemma_join(x19, "## Action Type\n\n"@);
        lemma_join_labelled(x20, "- **Type:** "@, action_type);
        lemma_join(x22, "\n"@);
        lemma_join_labelled(x23, "- **Method:** "@, action_type_method);
        lemma_join(x25, "\n\n"@);
        lemma_short("## API\n\n"@);
        lemma_join(x26, "## API\n\n"@);
        lemma_plain(api_line(api_pushed));
        lemma_join(x27, api_line(api_pushed));
        if enrichment_rendered.len() > 0 {
            lemma_join(x28, enrichment_rendered);
        } else {
            assert(x29 =~= x28);
        }
        assert(r =~= x29);
    }
}

/// The report names the source item twice and then holds its text; its
/// routing section gives the project kind, the project when there is one,
/// and the routing method; its action section gives the action type and the
/// action-type method, right before the API section, the API line and the
/// rendered enrichment.
#[verifier::rlimit(60)]
pub proof fn law_report_fields(
    task_content: Seq<char>,
    source_stem: Seq<char>,
    project_kind: Seq<char>,
    project_name: Option<Seq<char>>,
    classification_method: Seq<char>,
    action_type: Seq<char>,
    action_type_method: Seq<char>,
    enrichment_rendered: Seq<char>,
    enriched: bool,
    enrichment_json: Option<Seq<char>>,
    api_pushed: bool,
)
    ensures
        ({
            let r = report_spec(
                task_content,
                source_stem,
                project_kind,
                project_name,
                classification_method,
                action_type,
                action_type_method,
                enrichment_rendered,
                enriched,
                enrichment_json,
                api_pushed,
            );
            &&& contains_seq(
                r,
                "source: \"[["@ + source_stem + "]]\"\n---\n\nSource: [["@ + source_stem
                    + "]]\n\n"@ + task_content + "\n\n---\n\n## Project Routing\n\n"@,
            )
            &&& contains_seq(
                r,
                "## Project Routing\n\n- **Kind:** "@ + project_kind + "\n"@ + name_line(
                    "- **Project:** "@,
                    project_name,
                ) + "- **Method:** "@ + classification_method + "\n\n## Action Type\n\n"@,
            )
            &&& contains_seq(
                r,
                "- **Type:** "@ + action_type + "\n- **Method:** "@ + action_type_method
                    + "\n\n## API\n\n"@ + api_line(api_pushed) + enrichment_rendered,
            )
        }),
{
    let pn = project_name;
    let x1 = "---\ntags:\n  - digest\n"@;
    let x2 = x1 + name_line("  - "@, pn);
    let x11 = x2 + "source: \"[["@ + source_stem + "]]\"\n"@ + "---\n\n"@ + "Source: [["@
        + source_stem + "]]\n\n"@ + task_content + "\n\n---\n\n"@;
    let x20 = x11 + "## Project Routing\n\n"@ + "- **Kind:** "@ + project_kind + "\n"@ + name_line(
        "- **Project:** "@,
        pn,
    ) + "- **Method:** "@ + classification_method + "\n\n"@ + "## Action Type\n\n"@;
    let x29 = x20 + "- **Type:** "@ + action_type + "\n"@ + "- **Method:** "@ + action_type_method
        + "\n\n"@ + "## API\n\n"@ + api_line(api_pushed) + enrichment_rendered;
    let r = x29 + raw_json_section(enriched, enrichment_json);
    reveal_strlit("]]\"\n");
    reveal_strlit("---\n\n");
    reveal_strlit("]]\"\n---\n\nSource: [[");
    reveal_strlit("Source: [[");
    reveal_strlit("]]\n\n");
    reveal_strlit("\n\n---\n\n");
    reveal_strlit("\n\n---\n\n## Project Routing\n\n");
    reveal_strlit("## Project Routing\n\n");
    reveal_strlit("- **Kind:** ");
    reveal_strlit("## Project Routing\n\n- **Kind:** ");
    reveal_strlit("\n");
    reveal_strlit("- **Method:** ");
    reveal_strlit("\n\n");
    reveal_strlit("## Action Type\n\n");
    reveal_strlit("\n\n## Action Type\n\n");
    reveal_strlit("- **Type:** ");
    reveal_strlit("\n- **Method:** ");
    reveal_strlit("## API\n\n");
    reveal_strlit("\n\n## API\n\n");
    assert(r == report_spec(
        task_content,
        source_stem,
        project_kind,
        project_name,
        classification_method,
        action_type,
        action_type_method,
        enrichment_rendered,
        enriched,
        enrichment_json,
        api_pushed,
    ));
    let s1 = "source: \"[["@ + source_stem + "]]\"\n---\n\nSource: [["@ + source_stem + "]]\n\n"@
        + task_content + "\n\n---\n\n## Project Routing\n\n"@;
    let s2 = "## Project Routing\n\n- **Kind:** "@ + project_kind + "\n"@ + name_line(
        "- **Project:** "@,
        project_name,
    ) + "- **Method:** "@ + classification_method + "\n\n## Action Type\n\n"@;
    let s3 = "- **Type:** "@ + action_type + "\n- **Method:** "@ + action_type_method
        + "\n\n## API\n\n"@ + api_line(api_pushed) + enrichment_rendered;
    let i1 = x2.len() as int;
    let i2 = x11.len() as int;
    let i3 = x20.len() as int;
    assert(r.subrange(i1, i1 + s1.len()) =~= s1);
    assert(r.subrange(i2, i2 + s2.len()) =~= s2);
    assert(r.subrange(i3, i3 + s3.len()) =~= s3);
    assert(occurs_at(r, s1, i1));
    assert(occurs_at(r, s2, i2));
    assert(occurs_at(r, s3, i3));
}

} // verus!
