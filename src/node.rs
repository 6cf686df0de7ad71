//! The fragment that a widget renders: a label that wraps an input and a text.
use vstd::prelude::*;

verus! {

/// An attribute of an element: its name and its value.
pub struct Attribute {
    pub name: String,
    pub value: String,
}

impl View for Attribute {
    type V = (Seq<char>, Seq<char>);

    open spec fn view(&self) -> (Seq<char>, Seq<char>) {
        (self.name@, self.value@)
    }
}

/// Builds an attribute from its name and value.
pub fn attribute(name: &str, value: &str) -> (r: Attribute)
    ensures
        r@ == (name@, value@),
{
    Attribute { name: String::from_str(name), value: String::from_str(value) }
}

/// An `input` element, which listens to clicks.
pub struct Input {
    pub attributes: Vec<Attribute>,
    pub checked: bool,
}

/// The abstract content of an [`Input`].
pub struct InputView {
    pub attributes: Seq<(Seq<char>, Seq<char>)>,
    pub checked: bool,
}

impl View for Input {
    type V = InputView;

    open spec fn view(&self) -> InputView {
        InputView { attributes: self.attributes@.map_values(|a: Attribute| a@), checked: self.checked }
    }
}

/// A `label` element holding an [`Input`] followed by a text node.
pub struct Fragment {
    pub attributes: Vec<Attribute>,
    pub input: Input,
    pub text: String,
}

/// The abstract content of a [`Fragment`].
pub struct FragmentView {
    pub attributes: Seq<(Seq<char>, Seq<char>)>,
    pub input: InputView,
    pub text: Seq<char>,
}

impl View for Fragment {
    type V = FragmentView;

    open spec fn view(&self) -> FragmentView {
        FragmentView {
            attributes: self.attributes@.map_values(|a: Attribute| a@),
            input: self.input@,
            text: self.text@,
        }
    }
}

/// The markup of one attribute: a space, the name, `=` and the quoted value.
pub open spec fn attribute_markup(a: (Seq<char>, Seq<char>)) -> Seq<char> {
    " "@ + a.0 + "=\""@ + a.1 + "\""@
}

/// The markup of a list of attributes, in order.
pub open spec fn attributes_markup(s: Seq<(Seq<char>, Seq<char>)>) -> Seq<char>
    decreases s.len(),
{
    if s.len() == 0 {
        Seq::empty()
    } else {
        attributes_markup(s.drop_last()) + attribute_markup(s.last())
    }
}

impl InputView {
    /// `<input` with the attributes, then ` checked` when checked, then `/>`.
    pub open spec fn markup(self) -> Seq<char> {
        "<input"@ + attributes_markup(self.attributes) + (if self.checked {
            " checked"@
        } else {
            Seq::empty()
        }) + "/>"@
    }
}

impl FragmentView {
    /// `<label` with the attributes, `>`, the input, the text, `</label>`.
    pub open spec fn markup(self) -> Seq<char> {
        "<label"@ + attributes_markup(self.attributes) + ">"@ + self.input.markup() + self.text
            + "</label>"@
    }
}

fn append_attributes(out: &mut String, attributes: &Vec<Attribute>)
    ensures
        final(out)@ == old(out)@ + attributes_markup(attributes@.map_values(|a: Attribute| a@)),
{
    let ghost start = out@;
    let ghost views = attributes@.map_values(|a: Attribute| a@);
    let mut i: usize = 0;
    while i < attributes.len()
        invariant
            0 <= i <= attributes@.len(),
            views == attributes@.map_values(|a: Attribute| a@),
            out@ == start + attributes_markup(views.take(i as int)),
        decreases attributes@.len() - i,
    {
        let a = &attributes[i];
        out.append(" ");
        out.append(a.name.as_str());
        out.append("=\"");
        out.append(a.value.as_str());
        out.append("\"");
        proof {
            let t = views.take(i + 1);
            assert(t.drop_last() =~= views.take(i as int));
            assert(t.last() == a@);
        }
        i = i + 1;
    }
    assert(views.take(attributes@.len() as int) =~= views);
}

impl Input {
    /// Writes the input as markup.
    pub fn markup(&self) -> (r: String)
        ensures
            r@ == self@.markup(),
    {
        let mut out = String::from_str("<input");
        append_attributes(&mut out, &self.attributes);
        if self.checked {
            out.append(" checked");
        }
        out.append("/>");
        out
    }
}

impl Fragment {
    /// Writes the fragment as markup.
    pub fn markup(&self) -> (r: String)
        ensures
            r@ == self@.markup(),
    {
        let mut out = String::from_str("<label");
        append_attributes(&mut out, &self.attributes);
        out.append(">");
        out.append(self.input.markup().as_str());
        out.append(self.text.as_str());
        out.append("</label>");
        out
    }
}

} // verus!
