//! A circular button representing a choice.
use vstd::laws_eq::obeys_concrete_eq;
use vstd::prelude::*;
use vstd::std_specs::cmp::PartialEqSpec;

use crate::node::{attribute, Fragment, FragmentView, Input, InputView};

verus! {

/// A circular button representing a choice.
///
/// It holds the message that a click publishes, computed when the button is
/// made; `S` is the style that the button carries for the renderer.
pub struct Radio<M, S> {
    is_selected: bool,
    on_click: M,
    label: String,
    id: String,
    name: String,
    style: S,
}

/// The rendered configuration of a [`Radio`].
pub struct RadioView {
    pub is_selected: bool,
    pub label: Seq<char>,
    pub id: Seq<char>,
    pub name: Seq<char>,
}

/// Whether `value` is the selected one, by the equality of `V`.
pub open spec fn selection<V: PartialEq>(value: V, selected: Option<V>) -> bool {
    match selected {
        Some(s) => value.eq_spec(&s),
        None => false,
    }
}

impl RadioView {
    pub open spec fn with_name(self, name: Seq<char>) -> RadioView {
        RadioView { name, ..self }
    }

    pub open spec fn with_id(self, id: Seq<char>) -> RadioView {
        RadioView { id, ..self }
    }

    /// The fragment that a radio button with this configuration renders.
    pub open spec fn fragment(self) -> FragmentView {
        FragmentView {
            attributes: seq![("style"@, "display: block; font-size: 20px"@), ("for"@, self.id)],
            input: InputView {
                attributes: seq![
                    ("type"@, "radio"@),
                    ("id"@, self.id),
                    ("name"@, self.name),
                    ("style"@, "margin-right: 10px"@),
                ],
                checked: self.is_selected,
            },
            text: self.label,
        }
    }
}

impl<M, S> View for Radio<M, S> {
    type V = RadioView;

    closed spec fn view(&self) -> RadioView {
        RadioView { is_selected: self.is_selected, label: self.label@, id: self.id@, name: self.name@ }
    }
}

impl<M, S> Radio<M, S> {
    /// The message that a click publishes.
    pub closed spec fn message(&self) -> M {
        self.on_click
    }

    /// The style carried for the renderer.
    pub closed spec fn style_spec(&self) -> S {
        self.style
    }

    /// Creates a radio button for `value`, with a label, the currently
    /// selected value, and the function that makes the message of `value`.
    /// The message is made here, once.
    pub fn new<V, F>(value: V, label: &str, selected: Option<V>, f: F) -> (r: Self)
        where
            V: Eq + Copy,
            F: Fn(V) -> M,
            S: Default,
        requires
            f.requires((value,)),
        ensures
            V::obeys_eq_spec() ==> r@.is_selected == selection(value, selected),
            r@.label == label@,
            r@.id == Seq::<char>::empty(),
            r@.name == Seq::<char>::empty(),
            f.ensures((value,), r.message()),
            call_ensures(S::default, (), r.style_spec()),
    {
        let is_selected = match selected {
            Some(s) => value == s,
            None => false,
        };
        Radio {
            is_selected,
            on_click: f(value),
            label: String::from_str(label),
            id: String::new(),
            name: String::new(),
            style: S::default(),
        }
    }

    /// Sets the style.
    pub fn style(self, style: S) -> (r: Self)
        ensures
            r@ == self@,
            r.message() == self.message(),
            r.style_spec() == style,
    {
        Radio { style, ..self }
    }

    /// Sets the name, which groups the buttons of one choice.
    pub fn name(self, name: &str) -> (r: Self)
        ensures
            r@ == self@.with_name(name@),
            r.message() == self.message(),
            r.style_spec() == self.style_spec(),
    {
        Radio { name: String::from_str(name), ..self }
    }

    /// Sets the id.
    pub fn id(self, id: &str) -> (r: Self)
        ensures
            r@ == self@.with_id(id@),
            r.message() == self.message(),
            r.style_spec() == self.style_spec(),
    {
        Radio { id: String::from_str(id), ..self }
    }

    /// Tells whether the button is the selected one.
    pub fn is_selected(&self) -> (r: bool)
        ensures
            r == self@.is_selected,
    {
        self.is_selected
    }

    /// The style carried for the renderer.
    pub fn style_sheet(&self) -> (r: &S)
        ensures
            *r == self.style_spec(),
    {
        &self.style
    }

    /// Renders the button: a label that wraps the input and the label text.
    pub fn node(&self) -> (r: Fragment)
        ensures
            r@ == self@.fragment(),
    {
        let attributes = vec![
            attribute("style", "display: block; font-size: 20px"),
            attribute("for", self.id.as_str()),
        ];
        let input_attributes = vec![
            attribute("type", "radio"),
            attribute("id", self.id.as_str()),
            attribute("name", self.name.as_str()),
            attribute("style", "margin-right: 10px"),
        ];
        let r = Fragment {
            attributes,
            input: Input { attributes: input_attributes, checked: self.is_selected },
            text: self.label.clone(),
        };
        assert(r@.attributes =~= self@.fragment().attributes);
        assert(r@.input.attributes =~= self@.fragment().input.attributes);
        r
    }

    /// The message that a click on the rendered input publishes.
    pub fn on_click(&self) -> (r: &M)
        ensures
            *r == self.message(),
    {
        &self.on_click
    }
}

/// Where equality on `V` is `==`, a radio button is selected exactly when the
/// selected value is `Some(value)`.
pub proof fn lemma_selected_iff_equal<V: PartialEq>(value: V, selected: Option<V>)
    requires
        obeys_concrete_eq::<V>(),
    ensures
        V::obeys_eq_spec(),
        selection(value, selected) == (selected == Some(value)),
{
    reveal(obeys_concrete_eq);
}

} // verus!

verus! {

/// A click publishes the message made from the value when the button was
/// made, whatever was set on it since: `r` is what `new` gave for `value` and
/// `f`, and `b` what the setters made of `r`.
pub proof fn lemma_click_publishes_constructed<M, S, V, F>(
    f: F,
    value: V,
    r: &Radio<M, S>,
    b: &Radio<M, S>,
)
    where
        F: Fn(V) -> M,
    requires
        f.ensures((value,), r.message()),
        b.message() == r.message(),
    ensures
        f.ensures((value,), b.message()),
{
}

/// Two radio buttons with the same configuration render the same markup.
pub proof fn lemma_same_configuration_same_markup<M, S>(a: &Radio<M, S>, b: &Radio<M, S>)
    requires
        a@ == b@,
    ensures
        a@.fragment().markup() == b@.fragment().markup(),
{
}

/// Setting the name and the id gives the same radio button in either order.
pub proof fn lemma_name_id_commute(v: RadioView, name: Seq<char>, id: Seq<char>)
    ensures
        v.with_name(name).with_id(id) == v.with_id(id).with_name(name),
{
}

} // verus!
