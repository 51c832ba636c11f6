//! The template renderer.
//!
//! A template is a byte document with substitution tags: `{{ name }}` (spaces
//! optional) stands for the page context's display name.  Rendering copies
//! every literal byte and replaces each tag with the field's value; an
//! unclosed tag or an unknown field name is a render error.

use vstd::prelude::*;

use crate::text::ascii_bytes;
use crate::text::contains_seq;
use crate::text::lemma_contains_prepend;
use crate::text::lemma_prefix_contains;
use crate::text::append_bytes;

verus! {

/// Why rendering a page failed.
#[derive(Debug, Clone, Copy, PartialEq, Eq)]
pub enum TemplateError {
    /// The template resource was not there to load.
    Missing,
    /// An opening `{{` has no matching `}}`.
    UnclosedTag,
    /// A tag names a field the page context does not have.
    UnknownField,
}

/// The one substitution point a page context offers.
pub open spec fn field_name() -> Seq<u8> {
    ascii_bytes("name"@)
}

/// An opening delimiter `{{` sits at position `i` of `t`.
pub open spec fn tag_opens_at(t: Seq<u8>, i: int) -> bool {
    0 <= i && i + 2 <= t.len() && t[i] == '{' as u8 && t[i + 1] == '{' as u8
}

/// A closing delimiter `}}` sits at position `i` of `t`.
pub open spec fn tag_closes_at(t: Seq<u8>, i: int) -> bool {
    0 <= i && i + 2 <= t.len() && t[i] == '}' as u8 && t[i + 1] == '}' as u8
}

/// Tag content with its spaces removed, so that `{{ name }}` and `{{name}}`
/// name the same field.
pub open spec fn despaced(s: Seq<u8>) -> Seq<u8>
    decreases s.len(),
{
    if s.len() == 0 {
        seq![]
    } else if s[0] == ' ' as u8 {
        despaced(s.drop_first())
    } else {
        seq![s[0]] + despaced(s.drop_first())
    }
}

/// Rendering from position `i` onward, outside of any tag: literal bytes are
/// copied, and `{{` starts a tag.
pub open spec fn render_text(t: Seq<u8>, value: Seq<u8>, i: int) -> Result<Seq<u8>, TemplateError>
    decreases t.len() - i, 1int,
{
    if i < 0 || i >= t.len() {
        Ok(seq![])
    } else if tag_opens_at(t, i) {
        render_tag(t, value, i + 2, seq![])
    } else {
        match render_text(t, value, i + 1) {
            Ok(rest) => Ok(seq![t[i]] + rest),
            Err(e) => Err(e),
        }
    }
}

/// Rendering from position `i` inside a tag whose content so far is
/// `content`: `}}` closes the tag and substitutes the field's value.
pub open spec fn render_tag(
    t: Seq<u8>,
    value: Seq<u8>,
    i: int,
    content: Seq<u8>,
) -> Result<Seq<u8>, TemplateError>
    decreases t.len() - i, 0int,
{
    if i < 0 || i >= t.len() {
        Err(TemplateError::UnclosedTag)
    } else if tag_closes_at(t, i) {
        if despaced(content) == field_name() {
            match render_text(t, value, i + 2) {
                Ok(rest) => Ok(value + rest),
                Err(e) => Err(e),
            }
        } else {
            Err(TemplateError::UnknownField)
        }
    } else {
        render_tag(t, value, i + 1, content.push(t[i]))
    }
}

/// What rendering a whole template against the `name` field's value yields.
pub open spec fn spec_render(t: Seq<u8>, value: Seq<u8>) -> Result<Seq<u8>, TemplateError> {
    render_text(t, value, 0)
}

/// Prefixes `p` onto a successful rendering; errors pass through.
pub open spec fn with_prefix(p: Seq<u8>, r: Result<Seq<u8>, TemplateError>) -> Result<
    Seq<u8>,
    TemplateError,
> {
    match r {
        Ok(s) => Ok(p + s),
        Err(e) => Err(e),
    }
}

/// Removing spaces commutes with adding one byte at the end.
proof fn lemma_despaced_push(s: Seq<u8>, b: u8)
    ensures
        despaced(s.push(b)) == if b == ' ' as u8 {
            despaced(s)
        } else {
            despaced(s).push(b)
        },
    decreases s.len(),
{
    if s.len() == 0 {
        assert(s.push(b).drop_first() =~= seq![]);
        if b != ' ' as u8 {
            assert(seq![b] + despaced(seq![]) =~= despaced(s).push(b));
        }
    } else {
        lemma_despaced_push(s.drop_first(), b);
        assert(s.push(b).drop_first() =~= s.drop_first().push(b));
        if s[0] != ' ' as u8 {
            if b == ' ' as u8 {
                assert(despaced(s.push(b)) == seq![s[0]] + despaced(s.drop_first()));
            } else {
                assert(seq![s[0]] + despaced(s.drop_first()).push(b) =~= (seq![s[0]] + despaced(
                    s.drop_first(),
                )).push(b));
            }
        }
    }
}

/// True when the collected tag content names the `name` field.
fn names_field(content: &Vec<u8>) -> (r: bool)
    ensures
        r == (content@ == field_name()),
{
    proof {
        reveal_strlit("name");
    }
    if content.len() != 4 {
        return false;
    }
    let r = content[0] == 'n' as u8 && content[1] == 'a' as u8 && content[2] == 'm' as u8
        && content[3] == 'e' as u8;
    proof {
        if r {
            assert(content@ =~= field_name());
        }
    }
    r
}

/// Renders `template` against `value` for the `name` field: literal bytes
/// are copied and each `{{ ... }}` tag becomes `value`.
pub fn render_template(template: &Vec<u8>, value: &Vec<u8>) -> (r: Result<Vec<u8>, TemplateError>)
    ensures
        r matches Ok(o) ==> spec_render(template@, value@) == Ok::<Seq<u8>, TemplateError>(o@),
        r matches Err(e) ==> spec_render(template@, value@) == Err::<Seq<u8>, TemplateError>(e),
{
    let mut out: Vec<u8> = Vec::new();
    let mut i: usize = 0;
    let mut in_tag: bool = false;
    let mut content: Vec<u8> = Vec::new();
    let ghost mut raw: Seq<u8> = seq![];
    loop
        invariant
            i <= template@.len(),
            !in_tag ==> spec_render(template@, value@) == with_prefix(
                out@,
                render_text(template@, value@, i as int),
            ),
            in_tag ==> spec_render(template@, value@) == with_prefix(
                out@,
                render_tag(template@, value@, i as int, raw),
            ),
            in_tag ==> content@ == despaced(raw),
        decreases template@.len() - i,
    {
        if !in_tag {
            if i < template.len() && i + 1 < template.len() && template[i] == '{' as u8 && template[i
                + 1] == '{' as u8 {
                proof {
                    assert(render_text(template@, value@, i as int) == render_tag(
                        template@,
                        value@,
                        i + 2,
                        seq![],
                    ));
                    raw = seq![];
                }
                i = i + 2;
                in_tag = true;
                content = Vec::new();
            } else if i < template.len() {
                let c: u8 = template[i];
                proof {
                    let step = render_text(template@, value@, i + 1);
                    assert(render_text(template@, value@, i as int) == match step {
                        Ok(rest) => Ok::<Seq<u8>, TemplateError>(seq![template@[i as int]] + rest),
                        Err(e) => Err::<Seq<u8>, TemplateError>(e),
                    });
                    if step is Ok {
                        assert(out@ + (seq![template@[i as int]] + step->Ok_0) =~= (out@.push(c))
                            + step->Ok_0);
                    }
                }
                out.push(c);
                i = i + 1;
            } else {
                proof {
                    assert(out@ + Seq::<u8>::empty() =~= out@);
                }
                return Ok(out);
            }
        } else {
            if i < template.len() && i + 1 < template.len() && template[i] == '}' as u8 && template[i
                + 1] == '}' as u8 {
                proof {
                    assert(tag_closes_at(template@, i as int));
                }
                if names_field(&content) {
                    proof {
                        let step = render_text(template@, value@, i + 2);
                        assert(render_tag(template@, value@, i as int, raw) == match step {
                            Ok(rest) => Ok::<Seq<u8>, TemplateError>(value@ + rest),
                            Err(e) => Err::<Seq<u8>, TemplateError>(e),
                        });
                        if step is Ok {
                            assert(out@ + (value@ + step->Ok_0) =~= (out@ + value@) + step->Ok_0);
                        }
                    }
                    append_bytes(&mut out, value);
                    i = i + 2;
                    in_tag = false;
                    content = Vec::new();
                } else {
                    proof {
                        assert(render_tag(template@, value@, i as int, raw) == Err::<
                            Seq<u8>,
                            TemplateError,
                        >(TemplateError::UnknownField));
                    }
                    return Err(TemplateError::UnknownField);
                }
            } else if i < template.len() {
                let c: u8 = template[i];
                proof {
                    lemma_despaced_push(raw, c);
                    assert(render_tag(template@, value@, i as int, raw) == render_tag(
                        template@,
                        value@,
                        i + 1,
                        raw.push(c),
                    ));
                }
                if c != ' ' as u8 {
                    content.push(c);
                }
                proof {
                    raw = raw.push(c);
                }
                i = i + 1;
            } else {
                return Err(TemplateError::UnclosedTag);
            }
        }
    }
}

/// If the template opens a tag at or after `i` and rendering from `i`
/// succeeds, the output holds the substituted value.
proof fn lemma_render_text_contains(t: Seq<u8>, value: Seq<u8>, i: int)
    requires
        0 <= i,
        render_text(t, value, i) is Ok,
        exists|j: int| i <= j && #[trigger] tag_opens_at(t, j),
    ensures
        contains_seq(render_text(t, value, i)->Ok_0, value),
    decreases t.len() - i, 1int,
{
    let j = choose|j: int| i <= j && #[trigger] tag_opens_at(t, j);
    if i >= t.len() {
        assert(false);
    } else if tag_opens_at(t, i) {
        lemma_render_tag_contains(t, value, i + 2, seq![]);
    } else {
        assert(i + 1 <= j);
        lemma_render_text_contains(t, value, i + 1);
        lemma_contains_prepend(seq![t[i]], render_text(t, value, i + 1)->Ok_0, value);
    }
}

/// A tag that closes successfully substitutes the value, so rendering from
/// inside a tag always puts it in the output.
proof fn lemma_render_tag_contains(t: Seq<u8>, value: Seq<u8>, i: int, content: Seq<u8>)
    requires
        0 <= i,
        render_tag(t, value, i, content) is Ok,
    ensures
        contains_seq(render_tag(t, value, i, content)->Ok_0, value),
    decreases t.len() - i, 0int,
{
    if i >= t.len() {
        assert(false);
    } else if tag_closes_at(t, i) {
        lemma_prefix_contains(value, render_text(t, value, i + 2)->Ok_0);
    } else {
        lemma_render_tag_contains(t, value, i + 1, content.push(t[i]));
    }
}

/// A successfully rendered page shows the substituted value wherever the
/// template opens at least one tag.
pub proof fn lemma_rendered_page_contains_value(t: Seq<u8>, value: Seq<u8>)
    requires
        spec_render(t, value) is Ok,
        exists|j: int| #[trigger] tag_opens_at(t, j),
    ensures
        contains_seq(spec_render(t, value)->Ok_0, value),
{
    let j = choose|j: int| #[trigger] tag_opens_at(t, j);
    assert(0 <= j && tag_opens_at(t, j));
    lemma_render_text_contains(t, value, 0);
}

} // verus!
