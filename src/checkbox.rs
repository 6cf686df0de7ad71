//! A box that can be checked.
use std::rc::Rc;
use vstd::prelude::*;

use crate::css::{length, length_css, lemma_with_rule_idempotent, with_rule, Css, Length, Rule};
use crate::node::{attribute, attribute_markup, attributes_markup, Attribute, Fragment, FragmentView, Input, InputView};

verus! {

/// The space, in pixels, between the box and its label.
pub const SPACING: u16 = 5;

/// A box that can be checked.
///
/// `F` turns the new state into a message when the box is clicked; `S` is the
/// style that the box carries for the renderer.
pub struct Checkbox<F, S> {
    is_checked: bool,
    on_toggle: Rc<F>,
    label: String,
    id: String,
    width: Length,
    style: S,
}

/// The rendered configuration of a [`Checkbox`].
pub struct CheckboxView {
    pub is_checked: bool,
    pub label: Seq<char>,
    pub id: Seq<char>,
    pub width: Length,
}

impl CheckboxView {
    pub open spec fn with_width(self, width: Length) -> CheckboxView {
        CheckboxView { width, ..self }
    }

    pub open spec fn with_id(self, id: Seq<char>) -> CheckboxView {
        CheckboxView { id, ..self }
    }

    /// The class attribute: the row class and the spacing class.
    pub open spec fn class(self) -> Seq<char> {
        Rule::Row.class_spec() + " "@ + Rule::Spacing(SPACING).class_spec()
    }

    /// The fragment that a checkbox with this configuration renders.
    pub open spec fn fragment(self) -> FragmentView {
        FragmentView {
            attributes: seq![
                ("for"@, self.id),
                ("class"@, self.class()),
                ("style"@, "width: "@ + length_css(self.width) + "; align-items: center"@),
            ],
            input: InputView {
                attributes: seq![("type"@, "checkbox"@), ("id"@, self.id)],
                checked: self.is_checked,
            },
            text: self.label,
        }
    }
}

/// The rules that rendering a checkbox registers, applied to `rules`.
pub open spec fn checkbox_rules(rules: Seq<Rule>) -> Seq<Rule> {
    with_rule(with_rule(rules, Rule::Row), Rule::Spacing(SPACING))
}

impl<F, S> View for Checkbox<F, S> {
    type V = CheckboxView;

    closed spec fn view(&self) -> CheckboxView {
        CheckboxView { is_checked: self.is_checked, label: self.label@, id: self.id@, width: self.width }
    }
}

impl<F, S> Checkbox<F, S> {
    /// The function called with the new state on a click.
    pub closed spec fn on_toggle(&self) -> F {
        *self.on_toggle
    }

    /// The style carried for the renderer.
    pub closed spec fn style_spec(&self) -> S {
        self.style
    }

    /// Creates a checkbox, checked or not, with a label and the function that
    /// turns its new state into a message. Its id is empty, its width shrinks
    /// to fit, and its style is the default one.
    pub fn new<M>(is_checked: bool, label: &str, f: F) -> (r: Self)
        where
            F: Fn(bool) -> M,
            S: Default,
        ensures
            r@ == (CheckboxView { is_checked, label: label@, id: Seq::empty(), width: Length::Shrink }),
            r.on_toggle() == f,
            call_ensures(S::default, (), r.style_spec()),
    {
        Checkbox {
            is_checked,
            on_toggle: Rc::new(f),
            label: String::from_str(label),
            id: String::new(),
            width: Length::Shrink,
            style: S::default(),
        }
    }

    /// Sets the width.
    pub fn width(self, width: Length) -> (r: Self)
        ensures
            r@ == self@.with_width(width),
            r.on_toggle() == self.on_toggle(),
            r.style_spec() == self.style_spec(),
    {
        Checkbox { width, ..self }
    }

    /// Sets the style.
    pub fn style(self, style: S) -> (r: Self)
        ensures
            r@ == self@,
            r.on_toggle() == self.on_toggle(),
            r.style_spec() == style,
    {
        Checkbox { style, ..self }
    }

    /// Sets the id.
    pub fn id(self, id: &str) -> (r: Self)
        ensures
            r@ == self@.with_id(id@),
            r.on_toggle() == self.on_toggle(),
            r.style_spec() == self.style_spec(),
    {
        Checkbox { id: String::from_str(id), ..self }
    }

    /// Tells whether the box is checked.
    pub fn is_checked(&self) -> (r: bool)
        ensures
            r == self@.is_checked,
    {
        self.is_checked
    }

    /// The style carried for the renderer.
    pub fn style_sheet(&self) -> (r: &S)
        ensures
            *r == self.style_spec(),
    {
        &self.style
    }

    /// Renders the box: registers the row and spacing rules in `css` and builds
    /// the label that wraps the input and the label text.
    pub fn node(&self, css: &mut Css) -> (r: Fragment)
        requires
            old(css).wf(),
        ensures
            final(css).wf(),
            final(css)@ == checkbox_rules(old(css)@),
            r@ == self@.fragment(),
    {
        let row_class = css.insert(Rule::Row);
        let spacing_class = css.insert(Rule::Spacing(SPACING));
        let mut class = row_class;
        class.append(" ");
        class.append(spacing_class.as_str());
        let mut style = String::from_str("width: ");
        style.append(length(self.width).as_str());
        style.append("; align-items: center");
        let attributes = vec![
            attribute("for", self.id.as_str()),
            Attribute { name: String::from_str("class"), value: class },
            Attribute { name: String::from_str("style"), value: style },
        ];
        let input_attributes = vec![attribute("type", "checkbox"), attribute("id", self.id.as_str())];
        let r = Fragment {
            attributes,
            input: Input { attributes: input_attributes, checked: self.is_checked },
            text: self.label.clone(),
        };
        assert(r@.attributes =~= self@.fragment().attributes);
        assert(r@.input.attributes =~= self@.fragment().input.attributes);
        r
    }

    /// The click handler of the rendered input: it calls the function with
    /// the opposite of the current state.
    pub fn on_click(&self) -> (r: Toggle<F>)
        ensures
            r.next() == !self@.is_checked,
            r.on_toggle() == self.on_toggle(),
    {
        Toggle { on_toggle: self.on_toggle.clone(), next: !self.is_checked }
    }
}

/// What a click on a rendered checkbox does: call the function with `next`.
/// It shares the function with the checkbox, so it outlives it.
pub struct Toggle<F> {
    on_toggle: Rc<F>,
    next: bool,
}

impl<F> Toggle<F> {
    /// The state that a click passes on.
    pub closed spec fn next(&self) -> bool {
        self.next
    }

    /// The function called on a click.
    pub closed spec fn on_toggle(&self) -> F {
        *self.on_toggle
    }

    /// Produces the message of one click.
    pub fn fire<M>(&self) -> (r: M)
        where
            F: Fn(bool) -> M,
        requires
            self.on_toggle().requires((self.next(),)),
        ensures
            self.on_toggle().ensures((self.next(),), r),
    {
        (self.on_toggle)(self.next)
    }
}

} // verus!

verus! {

/// Rendering a checkbox again registers no rule twice: the registry that one
/// rendering left is left as it is by the next, and the class names, which
/// depend on the rules alone, are the same.
pub proof fn lemma_render_twice_registers_once(rules: Seq<Rule>)
    ensures
        checkbox_rules(checkbox_rules(rules)) == checkbox_rules(rules),
        rules.no_duplicates() ==> checkbox_rules(rules).no_duplicates(),
{
    let once = checkbox_rules(rules);
    let with_row = with_rule(rules, Rule::Row);
    lemma_with_rule_idempotent(rules, Rule::Row);
    lemma_with_rule_idempotent(with_row, Rule::Spacing(SPACING));
    assert(once.contains(Rule::Row));
    assert(once.contains(Rule::Spacing(SPACING)));
    assert(with_rule(once, Rule::Row) == once);
    if rules.no_duplicates() && !rules.contains(Rule::Row) {
        assert(rules.push(Rule::Row).no_duplicates()) by {
            assert forall|i: int, j: int|
                0 <= i < j < rules.len() + 1 implies rules.push(Rule::Row)[i] != rules.push(
                Rule::Row,
            )[j] by {
                if j == rules.len() {
                    assert(rules[i] == rules.push(Rule::Row)[i]);
                }
            }
        }
    }
    if with_row.no_duplicates() && !with_row.contains(Rule::Spacing(SPACING)) {
        let s = Rule::Spacing(SPACING);
        assert(with_row.push(s).no_duplicates()) by {
            assert forall|i: int, j: int|
                0 <= i < j < with_row.len() + 1 implies with_row.push(s)[i] != with_row.push(
                s,
            )[j] by {
                if j == with_row.len() {
                    assert(with_row[i] == with_row.push(s)[i]);
                }
            }
        }
    }
}

/// Two checkboxes with the same configuration render the same markup.
pub proof fn lemma_same_configuration_same_markup<F, S>(a: &Checkbox<F, S>, b: &Checkbox<F, S>)
    requires
        a@ == b@,
    ensures
        a@.fragment().markup() == b@.fragment().markup(),
{
}

/// The input of a rendered checkbox carries the `checked` attribute exactly
/// when the box is checked.
pub proof fn lemma_checked_attribute(v: CheckboxView)
    ensures
        v.fragment().input.markup() == "<input type=\"checkbox\" id=\""@ + v.id + "\""@ + (
        if v.is_checked {
            " checked"@
        } else {
            Seq::empty()
        }) + "/>"@,
{
    let attrs = v.fragment().input.attributes;
    reveal_strlit("<input type=\"checkbox\" id=\"");
    reveal_strlit("<input");
    reveal_strlit(" ");
    reveal_strlit("=\"");
    reveal_strlit("\"");
    reveal_strlit("type");
    reveal_strlit("id");
    reveal_strlit("checkbox");
    let first = attrs.drop_last();
    assert(first.drop_last() =~= Seq::<(Seq<char>, Seq<char>)>::empty());
    assert(attributes_markup(first.drop_last()) == Seq::<char>::empty());
    assert(first.last() == attrs[0]);
    assert(attributes_markup(first) =~= attribute_markup(attrs[0]));
    assert(attributes_markup(attrs) =~= attribute_markup(attrs[0]) + attribute_markup(attrs[1]));
    assert("<input"@ + attributes_markup(attrs) =~= "<input type=\"checkbox\" id=\""@ + v.id
        + "\""@);
}

/// The message that a click publishes is the function's result on the
/// opposite of the state the box was made with: `t` is what `on_click` gave
/// for `c`, and `m` what `fire` gave for `t`.
pub proof fn lemma_click_publishes_toggled<F, S, M>(c: &Checkbox<F, S>, t: &Toggle<F>, m: M)
    where
        F: Fn(bool) -> M,
    requires
        t.next() == !c@.is_checked,
        t.on_toggle() == c.on_toggle(),
        t.on_toggle().ensures((t.next(),), m),
    ensures
        c.on_toggle().ensures((!c@.is_checked,), m),
        t.next() != c@.is_checked,
{
}

/// Setting the width and the id gives the same checkbox in either order.
pub proof fn lemma_width_id_commute(v: CheckboxView, width: Length, id: Seq<char>)
    ensures
        v.with_width(width).with_id(id) == v.with_id(id).with_width(width),
{
}

} // verus!
