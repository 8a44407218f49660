//! Properties of the rendering that hold for every document.

use vstd::prelude::*;

use crate::transform::{
    is_fence_close, is_heading, is_hidden_line, is_other_fence, is_rust_fence, is_text_fence,
    rendered, section_after, step, transform, Section,
};

verus! {

/// A document already in the form that rendering without heading demotion produces:
/// every rust sample opens with "```rust", no block opens with "```text", and no
/// rust sample holds a hidden line.
pub open spec fn canonical_from(section: Section, lines: Seq<Seq<char>>) -> bool
    decreases lines.len(),
{
    lines.len() == 0 || {
        let line = lines[0];
        &&& section == Section::NoCode ==> !is_text_fence(line) && (is_rust_fence(line) ==> line
            == "```rust"@)
        &&& section == Section::RustCode ==> !is_hidden_line(line)
        &&& canonical_from(step(section, false, line).0, lines.drop_first())
    }
}

/// A canonical document, read from prose.
pub open spec fn is_canonical(doc: Seq<Seq<char>>) -> bool {
    canonical_from(Section::NoCode, doc)
}

/// The characters of a bare fence.
proof fn lemma_fence_chars()
    ensures
        "```"@ == seq!['`', '`', '`'],
{
    reveal_strlit("```");
    assert("```"@ =~= seq!['`', '`', '`']);
}

/// Rendering reads a document in one pass: the output for two parts read in turn is the
/// output of the first, then that of the second read from where the first left off.
pub proof fn lemma_transform_append(
    section: Section,
    indent_headings: bool,
    a: Seq<Seq<char>>,
    b: Seq<Seq<char>>,
)
    ensures
        transform(section, indent_headings, a + b) == transform(section, indent_headings, a)
            + transform(section_after(section, indent_headings, a), indent_headings, b),
    decreases a.len(),
{
    if a.len() == 0 {
        assert(a + b =~= b);
        assert(transform(section, indent_headings, a) =~= seq![]);
    } else {
        assert((a + b).drop_first() =~= a.drop_first() + b);
        assert((a + b)[0] == a[0]);
        if section == Section::RustCode && is_hidden_line(a[0]) {
            lemma_transform_append(section, indent_headings, a.drop_first(), b);
        } else {
            let next = step(section, indent_headings, a[0]).0;
            lemma_transform_append(next, indent_headings, a.drop_first(), b);
            let out = seq![step(section, indent_headings, a[0]).1];
            assert(out + transform(next, indent_headings, a.drop_first() + b) =~= out + transform(
                next,
                indent_headings,
                a.drop_first(),
            ) + transform(section_after(section, indent_headings, a), indent_headings, b));
        }
    }
}

/// Each input line gives at most one output line.
pub proof fn lemma_output_no_longer(section: Section, indent_headings: bool, lines: Seq<Seq<char>>)
    ensures
        transform(section, indent_headings, lines).len() <= lines.len(),
    decreases lines.len(),
{
    if lines.len() > 0 {
        if section == Section::RustCode && is_hidden_line(lines[0]) {
            lemma_output_no_longer(section, indent_headings, lines.drop_first());
        } else {
            lemma_output_no_longer(
                step(section, indent_headings, lines[0]).0,
                indent_headings,
                lines.drop_first(),
            );
        }
    }
}

proof fn lemma_canonical_fixed(section: Section, lines: Seq<Seq<char>>)
    requires
        canonical_from(section, lines),
    ensures
        transform(section, false, lines) == lines,
    decreases lines.len(),
{
    if lines.len() > 0 {
        lemma_canonical_fixed(step(section, false, lines[0]).0, lines.drop_first());
        assert(lines =~= seq![lines[0]] + lines.drop_first());
    }
}

/// Rendering a canonical document without heading demotion gives it back unchanged,
/// so rendering it again changes nothing either.
pub proof fn lemma_canonical_is_fixed_point(doc: Seq<Seq<char>>)
    requires
        is_canonical(doc),
    ensures
        rendered(doc, false) == doc,
        rendered(rendered(doc, false), false) == rendered(doc, false),
{
    lemma_canonical_fixed(Section::NoCode, doc);
}

/// A line starting with "# " is dropped where it stands in a rust sample, and kept as it
/// is where it stands in a block of another kind.
pub proof fn lemma_hidden_lines_only_in_rust(doc: Seq<Seq<char>>, indent_headings: bool, i: int)
    requires
        0 <= i < doc.len(),
        is_hidden_line(doc[i]),
    ensures
        section_after(Section::NoCode, indent_headings, doc.take(i)) == Section::RustCode
            ==> rendered(doc, indent_headings) == rendered(doc.remove(i), indent_headings),
        section_after(Section::NoCode, indent_headings, doc.take(i)) == Section::OtherCode
            ==> rendered(doc, indent_headings) == rendered(doc.take(i), indent_headings) + seq![
            doc[i],
        ] + transform(Section::OtherCode, indent_headings, doc.skip(i + 1)),
{
    let before = doc.take(i);
    let after = doc.skip(i + 1);
    let here = section_after(Section::NoCode, indent_headings, before);
    assert(doc =~= before + doc.skip(i));
    assert(doc.remove(i) =~= before + after);
    assert(doc.skip(i).drop_first() =~= after);
    assert(doc.skip(i)[0] == doc[i]);
    lemma_transform_append(Section::NoCode, indent_headings, before, doc.skip(i));
    lemma_transform_append(Section::NoCode, indent_headings, before, after);
    if here == Section::OtherCode {
        lemma_fence_chars();
        assert(!is_fence_close(doc[i]));
        assert(transform(here, indent_headings, doc.skip(i)) == seq![doc[i]] + transform(
            here,
            indent_headings,
            after,
        ));
        assert(rendered(doc, indent_headings) =~= rendered(before, indent_headings) + seq![doc[i]]
            + transform(Section::OtherCode, indent_headings, after));
    }
}

/// A fence that opens a rust sample, bare or annotated, is rendered as "```rust" and
/// opens a rust sample.
pub proof fn lemma_rust_fence_canonical(
    fence: Seq<char>,
    rest: Seq<Seq<char>>,
    indent_headings: bool,
)
    requires
        is_rust_fence(fence),
    ensures
        rendered(seq![fence] + rest, indent_headings) == seq!["```rust"@] + transform(
            Section::RustCode,
            indent_headings,
            rest,
        ),
{
    reveal_strlit("```");
    reveal_strlit("```rust");
    reveal_strlit("```no_run");
    reveal_strlit("```ignore");
    reveal_strlit("```should_panic");
    reveal_strlit("```rust,no_run");
    reveal_strlit("```rust,ignore");
    reveal_strlit("```rust,should_panic");
    assert(fence[0] == '`');
    assert(!is_heading(fence));
    assert((seq![fence] + rest).drop_first() =~= rest);
}

/// Inside a block of another kind, lines other than a closing fence pass through unchanged.
proof fn lemma_other_body(body: Seq<Seq<char>>, rest: Seq<Seq<char>>, indent_headings: bool)
    requires
        forall|j: int| 0 <= j < body.len() ==> !is_fence_close(#[trigger] body[j]),
    ensures
        transform(Section::OtherCode, indent_headings, body + rest) == body + transform(
            Section::OtherCode,
            indent_headings,
            rest,
        ),
    decreases body.len(),
{
    if body.len() > 0 {
        assert((body + rest).drop_first() =~= body.drop_first() + rest);
        assert((body + rest)[0] == body[0]);
        assert(!is_fence_close(body[0]));
        lemma_other_body(body.drop_first(), rest, indent_headings);
        assert(body =~= seq![body[0]] + body.drop_first());
        assert(seq![body[0]] + (body.drop_first() + transform(
            Section::OtherCode,
            indent_headings,
            rest,
        )) =~= body + transform(Section::OtherCode, indent_headings, rest));
    }
}

/// A block of another language passes through unchanged, fences included.
pub proof fn lemma_foreign_block_passthrough(
    fence: Seq<char>,
    body: Seq<Seq<char>>,
    indent_headings: bool,
)
    requires
        is_other_fence(fence),
        !is_rust_fence(fence),
        !is_text_fence(fence),
        forall|j: int| 0 <= j < body.len() ==> !is_fence_close(#[trigger] body[j]),
    ensures
        rendered(seq![fence] + body + seq!["```"@], indent_headings) == seq![fence] + body
            + seq!["```"@],
{
    lemma_fence_chars();
    assert(fence[0] == fence.take(3)[0]);
    let doc = seq![fence] + body + seq!["```"@];
    assert(doc.drop_first() =~= body + seq!["```"@]);
    assert(doc[0] == fence);
    lemma_other_body(body, seq!["```"@], indent_headings);
    let close = seq!["```"@];
    assert(close.drop_first() =~= Seq::<Seq<char>>::empty());
    assert(close[0] == "```"@);
    assert(transform(Section::NoCode, indent_headings, close.drop_first()) =~= seq![]);
    assert(transform(Section::OtherCode, indent_headings, close) =~= close);
    assert(doc =~= seq![fence] + (body + close));
}

/// A text block loses its "text" tag and is otherwise unchanged.
pub proof fn lemma_text_block_detagged(body: Seq<Seq<char>>, indent_headings: bool)
    requires
        forall|j: int| 0 <= j < body.len() ==> !is_fence_close(#[trigger] body[j]),
    ensures
        rendered(seq!["```text"@] + body + seq!["```"@], indent_headings) == seq!["```"@] + body
            + seq!["```"@],
{
    lemma_fence_chars();
    reveal_strlit("```text");
    reveal_strlit("```rust");
    reveal_strlit("```no_run");
    reveal_strlit("```ignore");
    reveal_strlit("```should_panic");
    reveal_strlit("```rust,no_run");
    reveal_strlit("```rust,ignore");
    reveal_strlit("```rust,should_panic");
    let doc = seq!["```text"@] + body + seq!["```"@];
    assert(doc.drop_first() =~= body + seq!["```"@]);
    assert(doc[0] == "```text"@);
    assert(!is_heading("```text"@));
    assert("```text"@[3] != "```rust"@[3]);
    assert(!is_rust_fence("```text"@));
    lemma_other_body(body, seq!["```"@], indent_headings);
    let close = seq!["```"@];
    assert(close.drop_first() =~= Seq::<Seq<char>>::empty());
    assert(close[0] == "```"@);
    assert(transform(Section::NoCode, indent_headings, close.drop_first()) =~= seq![]);
    assert(transform(Section::OtherCode, indent_headings, close) =~= close);
    assert(seq!["```"@] + (body + close) =~= seq!["```"@] + body + close);
}

/// Outside code, a heading gains one level when headings are demoted and is kept as it is
/// otherwise; demoting twice adds two levels.
pub proof fn lemma_heading_demotion(heading: Seq<char>, rest: Seq<Seq<char>>)
    requires
        is_heading(heading),
    ensures
        rendered(seq![heading] + rest, true) == seq![seq!['#'] + heading] + rendered(rest, true),
        rendered(seq![heading] + rest, false) == seq![heading] + rendered(rest, false),
        rendered(rendered(seq![heading], true), true) == seq![seq!['#', '#'] + heading],
{
    reveal_strlit("```");
    reveal_strlit("```rust");
    reveal_strlit("```no_run");
    reveal_strlit("```ignore");
    reveal_strlit("```should_panic");
    reveal_strlit("```rust,no_run");
    reveal_strlit("```rust,ignore");
    reveal_strlit("```rust,should_panic");
    reveal_strlit("```text");
    assert((seq![heading] + rest).drop_first() =~= rest);
    assert((seq![heading] + rest)[0] == heading);
    assert(!is_rust_fence(heading));
    assert(!is_text_fence(heading));
    if heading.len() >= 4 {
        assert(heading.take(3)[0] == heading[0]);
    }
    assert(!is_other_fence(heading));
    let once = seq!['#'] + heading;
    assert(is_heading(once));
    assert(seq![heading].drop_first() =~= Seq::<Seq<char>>::empty());
    assert(transform(Section::NoCode, true, seq![heading].drop_first()) =~= seq![]);
    assert(rendered(seq![heading], true) =~= seq![once]);
    assert(transform(Section::NoCode, true, seq![once].drop_first()) =~= seq![]);
    assert(seq![once].drop_first() =~= Seq::<Seq<char>>::empty());
    assert(seq!['#'] + once =~= seq!['#', '#'] + heading);
}

} // verus!
