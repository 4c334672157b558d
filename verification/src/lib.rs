//! A small generator for Unity shader source text.
//!
//! A [`ShaderGenerator`] holds a shader name, an ordered list of property
//! declarations and two free-text code blocks, and renders them into one
//! fixed-structure text document. Every field is opaque text and is inserted
//! verbatim; nothing is validated and no operation can fail.

use vstd::prelude::*;
use vstd::string::StringExecFns;

verus! {

/// One shader property declaration: a name, a free-text type tag and a
/// free-text default value expression. None of the fields is validated.
pub struct ShaderProperty {
    pub name: String,
    pub property_type: String,
    pub default_value: String,
}

/// The mathematical view of a [`ShaderProperty`]: its three fields as
/// character sequences.
#[verifier::ext_equal]
pub struct ShaderPropertyView {
    pub name: Seq<char>,
    pub property_type: Seq<char>,
    pub default_value: Seq<char>,
}

impl View for ShaderProperty {
    type V = ShaderPropertyView;

    open spec fn view(&self) -> ShaderPropertyView {
        ShaderPropertyView {
            name: self.name@,
            property_type: self.property_type@,
            default_value: self.default_value@,
        }
    }
}

/// A shader document under construction: a name, the properties in insertion
/// order, and the vertex and fragment code blocks.
pub struct ShaderGenerator {
    pub name: String,
    pub properties: Vec<ShaderProperty>,
    pub vertex_code: String,
    pub fragment_code: String,
}

/// The mathematical view of a [`ShaderGenerator`]: every field as a character
/// sequence, and the properties as a sequence of property views.
#[verifier::ext_equal]
pub struct ShaderGeneratorView {
    pub name: Seq<char>,
    pub properties: Seq<ShaderPropertyView>,
    pub vertex_code: Seq<char>,
    pub fragment_code: Seq<char>,
}

impl View for ShaderGenerator {
    type V = ShaderGeneratorView;

    open spec fn view(&self) -> ShaderGeneratorView {
        ShaderGeneratorView {
            name: self.name@,
            properties: self.properties@.map_values(|p: ShaderProperty| p@),
            vertex_code: self.vertex_code@,
            fragment_code: self.fragment_code@,
        }
    }
}

/// The view of the document that `add_property` produces: the same document
/// with one more property at the end of the list.
pub open spec fn append_property_spec(
    g: ShaderGeneratorView,
    p: ShaderPropertyView,
) -> ShaderGeneratorView {
    ShaderGeneratorView { properties: g.properties.push(p), ..g }
}

/// The one line that the `Properties` block devotes to a property: the name
/// twice (once bare, once quoted), the type tag and the default value, all
/// verbatim.
pub open spec fn property_line(p: ShaderPropertyView) -> Seq<char> {
    "        "@ + p.name + " (\""@ + p.name + "\", "@ + p.property_type + ") = "@
        + p.default_value + "\n"@
}

/// The body of the `Properties` block: one line per property, in the order of
/// the sequence.
pub open spec fn property_lines(ps: Seq<ShaderPropertyView>) -> Seq<char>
    decreases ps.len(),
{
    if ps.len() == 0 {
        Seq::<char>::empty()
    } else {
        property_line(ps[0]) + property_lines(ps.drop_first())
    }
}

/// Everything the rendered document holds before the property lines: the
/// header line with the shader's name and the opening of the `Properties`
/// block.
pub open spec fn render_before_properties(name: Seq<char>) -> Seq<char> {
    "Shader \""@ + name + "\"\n{\n"@ + "    Properties\n    {\n"@
}

/// Everything the rendered document holds after the property lines: the close
/// of the `Properties` block, the fixed `SubShader`/`Pass` boilerplate, the
/// two code blocks verbatim, and the closing markers.
pub open spec fn render_after_properties(vertex: Seq<char>, fragment: Seq<char>) -> Seq<char> {
    "    }\n\n"@ + "    SubShader\n    {\n"@ + "        Tags { \"RenderType\"=\"Opaque\" }\n"@
        + "        LOD 100\n\n"@ + "        Pass\n        {\n"@ + "            PROGRAM\n"@
        + "            #pragma vertex vert\n"@ + "            #pragma fragment frag\n\n"@
        + vertex + "\n\n"@ + fragment + "\n\n"@ + "            ENDCG\n"@ + "        }\n"@
        + "    }\n"@ + "}\n"@
}

/// The whole rendered document: header and `Properties` opening, one line per
/// property in insertion order, then the fixed tail around the two code
/// blocks.
pub open spec fn render_spec(g: ShaderGeneratorView) -> Seq<char> {
    render_before_properties(g.name) + property_lines(g.properties)
        + render_after_properties(g.vertex_code, g.fragment_code)
}

/// Appending a property to the list appends exactly that property's line at
/// the end of the `Properties` block body: the block lists properties in
/// insertion order.
pub proof fn lemma_property_lines_push(ps: Seq<ShaderPropertyView>, p: ShaderPropertyView)
    ensures
        property_lines(ps.push(p)) == property_lines(ps) + property_line(p),
    decreases ps.len(),
{
    if ps.len() == 0 {
        assert(ps.push(p)[0] == p);
        assert(ps.push(p).drop_first() =~= Seq::<ShaderPropertyView>::empty());
        assert(property_lines(Seq::<ShaderPropertyView>::empty()) == Seq::<char>::empty());
        assert(property_lines(ps.push(p)) =~= property_lines(ps) + property_line(p));
    } else {
        assert(ps.push(p).drop_first() =~= ps.drop_first().push(p));
        lemma_property_lines_push(ps.drop_first(), p);
        assert(property_lines(ps.push(p)) =~= property_lines(ps) + property_line(p));
    }
}

/// The number of occurrences of `c` in `s` from index `i` on.
pub open spec fn count_char_from(s: Seq<char>, c: char, i: int) -> nat
    decreases s.len() - i,
{
    if i < 0 || i >= s.len() {
        0
    } else {
        (if s[i] == c {
            1nat
        } else {
            0nat
        }) + count_char_from(s, c, i + 1)
    }
}

/// The number of occurrences of `c` in `s`.
pub open spec fn count_char(s: Seq<char>, c: char) -> nat {
    count_char_from(s, c, 0)
}

proof fn lemma_count_from_offset(a: Seq<char>, b: Seq<char>, c: char, j: int)
    requires
        0 <= j <= b.len(),
    ensures
        count_char_from(a + b, c, a.len() + j) == count_char_from(b, c, j),
    decreases b.len() - j,
{
    if j < b.len() {
        assert((a + b)[a.len() + j] == b[j]);
        lemma_count_from_offset(a, b, c, j + 1);
    }
}

proof fn lemma_count_from_concat(a: Seq<char>, b: Seq<char>, c: char, i: int)
    requires
        0 <= i <= a.len(),
    ensures
        count_char_from(a + b, c, i) == count_char_from(a, c, i) + count_char(b, c),
    decreases a.len() - i,
{
    if i == a.len() {
        lemma_count_from_offset(a, b, c, 0);
    } else {
        assert((a + b)[i] == a[i]);
        lemma_count_from_concat(a, b, c, i + 1);
    }
}

/// Counting a character distributes over concatenation.
pub broadcast proof fn lemma_count_char_concat(a: Seq<char>, b: Seq<char>, c: char)
    ensures
        #[trigger] count_char(a + b, c) == count_char(a, c) + count_char(b, c),
{
    lemma_count_from_concat(a, b, c, 0);
}

proof fn lemma_header_literal_counts()
    ensures
        count_char("Shader \""@, '{') == 0,
        count_char("Shader \""@, '}') == 0,
        count_char("\"\n{\n"@, '{') == 1,
        count_char("\"\n{\n"@, '}') == 0,
        count_char("    Properties\n    {\n"@, '{') == 1,
        count_char("    Properties\n    {\n"@, '}') == 0,
{
    reveal_strlit("Shader \"");
    reveal_strlit("\"\n{\n");
    reveal_strlit("    Properties\n    {\n");
    reveal_with_fuel(count_char_from, 25);
}

proof fn lemma_property_literal_counts(c: char)
    requires
        c == '{' || c == '}',
    ensures
        count_char("        "@, c) == 0,
        count_char(" (\""@, c) == 0,
        count_char("\", "@, c) == 0,
        count_char(") = "@, c) == 0,
        count_char("\n"@, c) == 0,
{
    reveal_strlit("        ");
    reveal_strlit(" (\"");
    reveal_strlit("\", ");
    reveal_strlit(") = ");
    reveal_strlit("\n");
    reveal_with_fuel(count_char_from, 12);
}

proof fn lemma_tail_literal_counts()
    ensures
        count_char("    }\n\n"@, '{') == 0,
        count_char("    }\n\n"@, '}') == 1,
        count_char("    SubShader\n    {\n"@, '{') == 1,
        count_char("    SubShader\n    {\n"@, '}') == 0,
        count_char("        Tags { \"RenderType\"=\"Opaque\" }\n"@, '{') == 1,
        count_char("        Tags { \"RenderType\"=\"Opaque\" }\n"@, '}') == 1,
        count_char("        LOD 100\n\n"@, '{') == 0,
        count_char("        LOD 100\n\n"@, '}') == 0,
        count_char("        Pass\n        {\n"@, '{') == 1,
        count_char("        Pass\n        {\n"@, '}') == 0,
        count_char("            PROGRAM\n"@, '{') == 0,
        count_char("            PROGRAM\n"@, '}') == 0,
        count_char("            #pragma vertex vert\n"@, '{') == 0,
        count_char("            #pragma vertex vert\n"@, '}') == 0,
        count_char("            #pragma fragment frag\n\n"@, '{') == 0,
        count_char("            #pragma fragment frag\n\n"@, '}') == 0,
        count_char("\n\n"@, '{') == 0,
        count_char("\n\n"@, '}') == 0,
        count_char("            ENDCG\n"@, '{') == 0,
        count_char("            ENDCG\n"@, '}') == 0,
        count_char("        }\n"@, '{') == 0,
        count_char("        }\n"@, '}') == 1,
        count_char("    }\n"@, '{') == 0,
        count_char("    }\n"@, '}') == 1,
        count_char("}\n"@, '{') == 0,
        count_char("}\n"@, '}') == 1,
{
    reveal_strlit("    }\n\n");
    reveal_strlit("    SubShader\n    {\n");
    reveal_strlit("        Tags { \"RenderType\"=\"Opaque\" }\n");
    reveal_strlit("        LOD 100\n\n");
    reveal_strlit("        Pass\n        {\n");
    reveal_strlit("            PROGRAM\n");
    reveal_strlit("            #pragma vertex vert\n");
    reveal_strlit("            #pragma fragment frag\n\n");
    reveal_strlit("\n\n");
    reveal_strlit("            ENDCG\n");
    reveal_strlit("        }\n");
    reveal_strlit("    }\n");
    reveal_strlit("}\n");
    reveal_with_fuel(count_char_from, 41);
}

/// No field of the property holds an opening or closing brace character.
pub open spec fn property_brace_free(p: ShaderPropertyView) -> bool {
    &&& count_char(p.name, '{') == 0
    &&& count_char(p.name, '}') == 0
    &&& count_char(p.property_type, '{') == 0
    &&& count_char(p.property_type, '}') == 0
    &&& count_char(p.default_value, '{') == 0
    &&& count_char(p.default_value, '}') == 0
}

proof fn lemma_property_line_count_zero(p: ShaderPropertyView, c: char)
    requires
        c == '{' || c == '}',
        property_brace_free(p),
    ensures
        count_char(property_line(p), c) == 0,
{
    broadcast use lemma_count_char_concat;

    lemma_property_literal_counts(c);
}

proof fn lemma_property_lines_count_zero(ps: Seq<ShaderPropertyView>, c: char)
    requires
        c == '{' || c == '}',
        forall|i: int| 0 <= i < ps.len() ==> property_brace_free(#[trigger] ps[i]),
    ensures
        count_char(property_lines(ps), c) == 0,
    decreases ps.len(),
{
    broadcast use lemma_count_char_concat;

    if ps.len() > 0 {
        lemma_property_line_count_zero(ps[0], c);
        lemma_property_lines_count_zero(ps.drop_first(), c);
    }
}

/// The braces in the rendered text are exactly those of the fixed template:
/// one opening and one closing brace each for the `Shader`, `Properties`,
/// `SubShader` and `Pass` blocks, and one pair on the `Tags` line — five
/// pairs in all. This holds whenever the name, the property fields and the
/// two code blocks hold no brace characters of their own; a brace in a field
/// is inserted verbatim and would add to the count.
pub proof fn lemma_render_brace_pairs(g: ShaderGeneratorView)
    requires
        count_char(g.name, '{') == 0,
        count_char(g.name, '}') == 0,
        forall|i: int| 0 <= i < g.properties.len() ==> property_brace_free(
            #[trigger] g.properties[i],
        ),
        count_char(g.vertex_code, '{') == 0,
        count_char(g.vertex_code, '}') == 0,
        count_char(g.fragment_code, '{') == 0,
        count_char(g.fragment_code, '}') == 0,
    ensures
        count_char(render_spec(g), '{') == 5,
        count_char(render_spec(g), '}') == 5,
{
    broadcast use lemma_count_char_concat;

    lemma_header_literal_counts();
    lemma_tail_literal_counts();
    lemma_property_lines_count_zero(g.properties, '{');
    lemma_property_lines_count_zero(g.properties, '}');
}

/// Rendering lists properties in insertion order: however the document was
/// built, its text is the fixed prefix, then the lines of the properties in
/// the order they were appended, then the fixed tail; and appending one more
/// property appends exactly its line at the end of the block body, leaving
/// everything before it unchanged.
pub proof fn lemma_render_insertion_order(g: ShaderGeneratorView, p: ShaderPropertyView)
    ensures
        render_spec(g) == render_before_properties(g.name) + property_lines(g.properties)
            + render_after_properties(g.vertex_code, g.fragment_code),
        render_spec(append_property_spec(g, p)) == render_before_properties(g.name) + (
        property_lines(g.properties) + property_line(p)) + render_after_properties(
            g.vertex_code,
            g.fragment_code,
        ),
{
    lemma_property_lines_push(g.properties, p);
    assert(render_spec(append_property_spec(g, p)) =~= render_before_properties(g.name) + (
    property_lines(g.properties) + property_line(p)) + render_after_properties(
        g.vertex_code,
        g.fragment_code,
    ));
}

/// The document after a whole sequence of `add_property` calls, made in the
/// order of the sequence.
pub open spec fn append_properties_spec(
    g: ShaderGeneratorView,
    ps: Seq<ShaderPropertyView>,
) -> ShaderGeneratorView
    decreases ps.len(),
{
    if ps.len() == 0 {
        g
    } else {
        append_properties_spec(append_property_spec(g, ps[0]), ps.drop_first())
    }
}

/// For every sequence of `add_property` calls: the calls leave the name and
/// the code blocks alone and extend the property list by exactly the calls'
/// arguments in call order, so the rendered text lists exactly those
/// properties' lines, in that order.
pub proof fn lemma_append_properties_in_order(g: ShaderGeneratorView, ps: Seq<ShaderPropertyView>)
    ensures
        append_properties_spec(g, ps).name == g.name,
        append_properties_spec(g, ps).vertex_code == g.vertex_code,
        append_properties_spec(g, ps).fragment_code == g.fragment_code,
        append_properties_spec(g, ps).properties == g.properties + ps,
        render_spec(append_properties_spec(g, ps)) == render_before_properties(g.name)
            + property_lines(g.properties + ps) + render_after_properties(
            g.vertex_code,
            g.fragment_code,
        ),
    decreases ps.len(),
{
    if ps.len() == 0 {
        assert(g.properties + ps =~= g.properties);
    } else {
        lemma_append_properties_in_order(append_property_spec(g, ps[0]), ps.drop_first());
        assert(g.properties.push(ps[0]) + ps.drop_first() =~= g.properties + ps);
    }
}

/// Rendering is deterministic and idempotent: two renderings of the same
/// unmodified document are equal, character for character.
pub proof fn lemma_render_deterministic(g: ShaderGeneratorView, r1: Seq<char>, r2: Seq<char>)
    requires
        r1 == render_spec(g),
        r2 == render_spec(g),
    ensures
        r1 == r2,
{
}

/// A document with no properties still renders: its `Properties` block has no
/// property lines, so the block's opening is immediately followed by its
/// closing and the rest of the document is unchanged.
pub proof fn lemma_render_empty_properties(g: ShaderGeneratorView)
    requires
        g.properties.len() == 0,
    ensures
        render_spec(g) == render_before_properties(g.name) + render_after_properties(
            g.vertex_code,
            g.fragment_code,
        ),
{
    assert(property_lines(g.properties) == Seq::<char>::empty());
    assert(render_spec(g) =~= render_before_properties(g.name) + render_after_properties(
        g.vertex_code,
        g.fragment_code,
    ));
}

impl ShaderGenerator {
    /// A new document with the given name, no properties and empty code
    /// blocks. The name is not validated.
    pub fn new(name: &str) -> (r: Self)
        ensures
            r@.name == name@,
            r@.properties == Seq::<ShaderPropertyView>::empty(),
            r@.vertex_code == Seq::<char>::empty(),
            r@.fragment_code == Seq::<char>::empty(),
    {
        let r = ShaderGenerator {
            name: name.to_owned(),
            properties: Vec::new(),
            vertex_code: String::new(),
            fragment_code: String::new(),
        };
        proof {
            assert(r@.properties =~= Seq::<ShaderPropertyView>::empty());
        }
        r
    }

    /// Appends one property declaration at the end of the list. Duplicate
    /// names are kept; nothing is validated.
    pub fn add_property(&mut self, name: &str, prop_type: &str, default: &str)
        ensures
            final(self)@ == append_property_spec(
                old(self)@,
                ShaderPropertyView {
                    name: name@,
                    property_type: prop_type@,
                    default_value: default@,
                },
            ),
    {
        self.properties.push(ShaderProperty {
            name: name.to_owned(),
            property_type: prop_type.to_owned(),
            default_value: default.to_owned(),
        });
        proof {
            assert(self@.properties =~= append_property_spec(
                old(self)@,
                ShaderPropertyView {
                    name: name@,
                    property_type: prop_type@,
                    default_value: default@,
                },
            ).properties);
        }
    }

    /// Renders the document to its full text: the header with the name, the
    /// `Properties` block with one line per property in insertion order, the
    /// fixed boilerplate, and the two code blocks verbatim. Total: no input is
    /// rejected, and the result is exactly [`render_spec`] of the document.
    pub fn generate_unity_shader(&self) -> (r: String)
        ensures
            r@ == render_spec(self@),
    {
        let mut shader = String::new();
        shader.append("Shader \"");
        shader.append(self.name.as_str());
        shader.append("\"\n{\n");

        shader.append("    Properties\n    {\n");
        let mut i: usize = 0;
        while i < self.properties.len()
            invariant
                i <= self.properties.len(),
                shader@ == render_before_properties(self@.name) + property_lines(
                    self@.properties.take(i as int),
                ),
            decreases self.properties.len() - i,
        {
            let p = &self.properties[i];
            shader.append("        ");
            shader.append(p.name.as_str());
            shader.append(" (\"");
            shader.append(p.name.as_str());
            shader.append("\", ");
            shader.append(p.property_type.as_str());
            shader.append(") = ");
            shader.append(p.default_value.as_str());
            shader.append("\n");
            proof {
                assert(self@.properties[i as int] == p@);
                assert(self@.properties.take(i + 1) =~= self@.properties.take(
                    i as int,
                ).push(p@));
                lemma_property_lines_push(self@.properties.take(i as int), p@);
                assert(shader@ =~= render_before_properties(self@.name) + property_lines(
                    self@.properties.take(i + 1),
                ));
            }
            i = i + 1;
        }
        proof {
            assert(self@.properties.take(self.properties.len() as int) =~= self@.properties);
        }
        shader.append("    }\n\n");

        shader.append("    SubShader\n    {\n");
        shader.append("        Tags { \"RenderType\"=\"Opaque\" }\n");
        shader.append("        LOD 100\n\n");

        shader.append("        Pass\n        {\n");
        shader.append("            PROGRAM\n");
        shader.append("            #pragma vertex vert\n");
        shader.append("            #pragma fragment frag\n\n");

        shader.append(self.vertex_code.as_str());
        shader.append("\n\n");

        shader.append(self.fragment_code.as_str());
        shader.append("\n\n");

        shader.append("            ENDCG\n");
        shader.append("        }\n");
        shader.append("    }\n");
        shader.append("}\n");

        proof {
            assert(shader@ =~= render_spec(self@));
        }
        shader
    }
}

} // verus!
