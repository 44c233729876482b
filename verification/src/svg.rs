//! The vector document: an ordered list of path elements and the fixed
//! wrapper around them.

use vstd::prelude::*;
use visioncortex::Color;
use crate::engine::Rgba;

verus! {

/// What stays the same in a document while paths are added to it.
#[allow(non_snake_case)]
pub struct SvgOptions {
    /// The factor of the group-level scale transform, as it is to be written.
    pub scale: String,
    /// The background color; white where none is given.
    pub backgroundColor: Option<String>,
    /// A fill that replaces the color of every path.
    pub pathFill: Option<String>,
    /// Further attributes of the outer element, written as they are.
    pub attributes: Option<String>,
}

/// The outline of one region as a tracer hands it over: the path data in
/// the document's path syntax, and the offset by which the path is moved.
pub struct TracedPath {
    pub data: String,
    pub offset_x: String,
    pub offset_y: String,
}

/// A vector document under construction.
pub struct Svg {
    pub paths: Vec<String>,
    pub options: SvgOptions,
}

/// The digit that stands for a value below sixteen.
pub open spec fn hex_digit(value: int) -> char {
    if value == 0 {
        '0'
    } else if value == 1 {
        '1'
    } else if value == 2 {
        '2'
    } else if value == 3 {
        '3'
    } else if value == 4 {
        '4'
    } else if value == 5 {
        '5'
    } else if value == 6 {
        '6'
    } else if value == 7 {
        '7'
    } else if value == 8 {
        '8'
    } else if value == 9 {
        '9'
    } else if value == 10 {
        'A'
    } else if value == 11 {
        'B'
    } else if value == 12 {
        'C'
    } else if value == 13 {
        'D'
    } else if value == 14 {
        'E'
    } else {
        'F'
    }
}

/// A color as a number sign and six digits, two for each of red, green and
/// blue. The opacity is not written.
pub open spec fn hex_color(color: Rgba) -> Seq<char> {
    seq![
        '#',
        hex_digit(color.r as int / 16),
        hex_digit(color.r as int % 16),
        hex_digit(color.g as int / 16),
        hex_digit(color.g as int % 16),
        hex_digit(color.b as int / 16),
        hex_digit(color.b as int % 16),
    ]
}

/// The fill of a path: the override where the options give one, else the
/// region's own color.
pub open spec fn fill_of(options: &SvgOptions, color: Rgba) -> Seq<char> {
    match options.pathFill {
        Some(fill) => fill@,
        None => hex_color(color),
    }
}

/// One path element: its data, its translation and its fill.
pub open spec fn path_element(path: &TracedPath, fill: Seq<char>) -> Seq<char> {
    "<path d=\""@ + path.data@ + "\" transform=\"translate("@ + path.offset_x@ + ","@
        + path.offset_y@ + ")\" style=\"fill: "@ + fill + ";\"/>"@
}

/// All the texts of a list, one after the other.
pub open spec fn joined(parts: Seq<Seq<char>>) -> Seq<char>
    decreases parts.len(),
{
    if parts.len() == 0 {
        Seq::empty()
    } else {
        joined(parts.drop_last()) + parts.last()
    }
}

/// What the outer element says before the first path.
pub open spec fn document_head(options: &SvgOptions) -> Seq<char> {
    let background = match options.backgroundColor {
        Some(color) => color@,
        None => "white"@,
    };
    let attributes = match options.attributes {
        Some(text) => text@,
        None => Seq::empty(),
    };
    "<svg xmlns=\"http://www.w3.org/2000/svg\" style=\"background-color: "@ + background + ";\" "@
        + attributes + "><g transform=\"scale("@ + options.scale@ + ")\">"@
}

/// The whole document: the head, the path elements in their order, and the
/// end of the group and of the outer element.
pub open spec fn document_text(options: &SvgOptions, elements: Seq<Seq<char>>) -> Seq<char> {
    document_head(options) + joined(elements) + "</g></svg>"@
}

/// The elements of a document after each of `added` was put before all the
/// others, one by one in the order of `added`.
pub open spec fn prepended(elements: Seq<Seq<char>>, added: Seq<Seq<char>>) -> Seq<Seq<char>>
    decreases added.len(),
{
    if added.len() == 0 {
        elements
    } else {
        seq![added.last()] + prepended(elements, added.drop_last())
    }
}

/// Paths that are put in front one by one stand in the document in the
/// reverse of the order in which they came, before all that was there.
pub proof fn lemma_prepending_reverses(elements: Seq<Seq<char>>, added: Seq<Seq<char>>)
    ensures
        prepended(elements, added) == added.reverse() + elements,
        prepended(Seq::empty(), added) == added.reverse(),
    decreases added.len(),
{
    if added.len() == 0 {
        assert(added.reverse() + elements =~= elements);
        assert(prepended(Seq::<Seq<char>>::empty(), added) =~= added.reverse());
    } else {
        lemma_prepending_reverses(elements, added.drop_last());
        lemma_prepending_reverses(Seq::empty(), added.drop_last());
        assert(added.reverse() =~= seq![added.last()] + added.drop_last().reverse());
        assert(prepended(elements, added) =~= added.reverse() + elements);
        assert(prepended(Seq::<Seq<char>>::empty(), added) =~= added.reverse());
    }
}

/// `Color::to_hex_string` of `visioncortex`, on a color made of the four
/// channels by `Color::new_rgba`: a number sign and the red, green and blue
/// channels as two upper-case hexadecimal digits each.
#[verifier::external_body]
fn hex_string(color: &Rgba) -> (text: String)
    ensures
        text@ == hex_color(*color),
{
    Color::new_rgba(color.r, color.g, color.b, color.a).to_hex_string()
}

impl Svg {
    /// The texts of the path elements, first to last.
    pub open spec fn elements(&self) -> Seq<Seq<char>> {
        self.paths@.map_values(|path: String| path@)
    }

    /// An empty document with these options.
    pub fn new(options: SvgOptions) -> (svg: Svg)
        ensures
            svg.options == options,
            svg.paths@.len() == 0,
            svg.elements() == Seq::<Seq<char>>::empty(),
    {
        let svg = Svg { paths: Vec::new(), options };
        assert(svg.elements() =~= Seq::<Seq<char>>::empty());
        svg
    }

    /// Puts the path of one region before all the paths that the document
    /// holds. The options stay as they are.
    pub fn prepend_path(&mut self, path: &TracedPath, color: &Rgba)
        ensures
            final(self).options == old(self).options,
            final(self).elements() == seq![
                path_element(path, fill_of(&old(self).options, *color)),
            ] + old(self).elements(),
    {
        let fill = match &self.options.pathFill {
            Some(fill) => fill.clone(),
            None => hex_string(color),
        };
        let mut element = String::from_str("<path d=\"");
        element.append(path.data.as_str());
        element.append("\" transform=\"translate(");
        element.append(path.offset_x.as_str());
        element.append(",");
        element.append(path.offset_y.as_str());
        element.append(")\" style=\"fill: ");
        element.append(fill.as_str());
        element.append(";\"/>");
        self.paths.insert(0, element);
        assert(self.elements() =~= seq![
            path_element(path, fill_of(&old(self).options, *color)),
        ] + old(self).elements());
    }

    /// Writes the document out. The document itself is not changed, so the
    /// same text comes out as long as no path is added.
    pub fn get_svg_string(&self) -> (text: String)
        ensures
            text@ == document_text(&self.options, self.elements()),
    {
        let mut text = String::from_str(
            "<svg xmlns=\"http://www.w3.org/2000/svg\" style=\"background-color: ",
        );
        match &self.options.backgroundColor {
            Some(color) => text.append(color.as_str()),
            None => text.append("white"),
        }
        text.append(";\" ");
        match &self.options.attributes {
            Some(attributes) => text.append(attributes.as_str()),
            None => {},
        }
        text.append("><g transform=\"scale(");
        text.append(self.options.scale.as_str());
        text.append(")\">");
        assert(text@ =~= document_head(&self.options));
        let mut i: usize = 0;
        while i < self.paths.len()
            invariant
                i <= self.paths@.len(),
                text@ == document_head(&self.options) + joined(self.elements().take(i as int)),
            decreases self.paths@.len() - i,
        {
            proof {
                let before = self.elements().take(i as int);
                let after = self.elements().take(i + 1);
                assert(after.drop_last() =~= before);
                assert(after.last() == self.paths@[i as int]@);
            }
            text.append(self.paths[i].as_str());
            i += 1;
        }
        assert(self.elements().take(i as int) =~= self.elements());
        text.append("</g></svg>");
        text
    }
}

} // verus!
