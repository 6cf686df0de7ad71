use iced_web::css::{decimal_string, length};
use iced_web::{Checkbox, Css, Length, Radio, Rule};

#[derive(Debug, Clone, Copy, PartialEq, Eq)]
enum Message {
    Toggled(bool),
    Selected(Choice),
}

#[derive(Debug, Clone, Copy, PartialEq, Eq)]
enum Choice {
    A,
    B,
}

fn toggled(b: bool) -> Message {
    Message::Toggled(b)
}

#[test]
fn checkbox_checked_markup() {
    let mut css = Css::new();
    let c: Checkbox<_, ()> = Checkbox::new(true, "Toggle me!", toggled)
        .id("cb")
        .width(Length::Units(120));
    let markup = c.node(&mut css).markup();
    assert_eq!(
        markup,
        "<label for=\"cb\" class=\"r s-5\" style=\"width: 120px; align-items: center\"><input type=\"checkbox\" id=\"cb\" checked/>Toggle me!</label>"
    );
}

#[test]
fn checkbox_unchecked_markup() {
    let mut css = Css::new();
    let c: Checkbox<_, ()> = Checkbox::new(false, "Off", toggled);
    let fragment = c.node(&mut css);
    assert!(!fragment.input.checked);
    assert_eq!(
        fragment.markup(),
        "<label for=\"\" class=\"r s-5\" style=\"width: auto; align-items: center\"><input type=\"checkbox\" id=\"\"/>Off</label>"
    );
}

#[test]
fn checkbox_checked_attribute_follows_state() {
    for c in [false, true] {
        let mut css = Css::new();
        let cb: Checkbox<_, ()> = Checkbox::new(c, "x", toggled);
        let input = cb.node(&mut css).input.markup();
        assert_eq!(input.contains(" checked"), c);
    }
}

#[test]
fn checkbox_click_publishes_opposite_state() {
    let c: Checkbox<_, ()> = Checkbox::new(false, "x", toggled);
    assert_eq!(c.on_click().fire(), Message::Toggled(true));
    let c: Checkbox<_, ()> = Checkbox::new(true, "x", toggled);
    assert_eq!(c.on_click().fire(), Message::Toggled(false));
}

#[test]
fn checkbox_click_outlives_checkbox() {
    let toggle = {
        let c: Checkbox<_, ()> = Checkbox::new(false, "x", |b: bool| Message::Toggled(b));
        c.on_click()
    };
    assert_eq!(toggle.fire(), Message::Toggled(true));
    assert_eq!(toggle.fire(), Message::Toggled(true));
}

#[test]
fn checkbox_same_configuration_same_markup() {
    let mut css = Css::new();
    let a: Checkbox<_, ()> = Checkbox::new(true, "L", toggled).id("i").width(Length::Fill);
    let b: Checkbox<_, ()> = Checkbox::new(true, "L", toggled).id("i").width(Length::Fill);
    assert_eq!(a.node(&mut css).markup(), b.node(&mut css).markup());
}

#[test]
fn checkbox_render_twice_registers_once() {
    let mut css = Css::new();
    let c: Checkbox<_, ()> = Checkbox::new(true, "L", toggled);
    let first = c.node(&mut css);
    assert_eq!(css.rules().clone(), vec![Rule::Row, Rule::Spacing(5)]);
    let second = c.node(&mut css);
    assert_eq!(css.rules().clone(), vec![Rule::Row, Rule::Spacing(5)]);
    assert_eq!(first.attributes[1].value, "r s-5");
    assert_eq!(first.attributes[1].value, second.attributes[1].value);
}

#[test]
fn checkbox_builders_commute() {
    let mut css = Css::new();
    let a: Checkbox<_, ()> = Checkbox::new(false, "L", toggled).width(Length::Units(7)).id("q");
    let b: Checkbox<_, ()> = Checkbox::new(false, "L", toggled).id("q").width(Length::Units(7));
    assert_eq!(a.node(&mut css).markup(), b.node(&mut css).markup());
    assert_eq!(a.is_checked(), b.is_checked());
}

#[test]
fn checkbox_style_is_kept() {
    let c: Checkbox<_, u32> = Checkbox::new(false, "L", toggled);
    assert_eq!(*c.style_sheet(), 0);
    let c = c.style(9).id("z");
    assert_eq!(*c.style_sheet(), 9);
}

#[test]
fn radio_selected_when_equal() {
    let a: Radio<Message, ()> = Radio::new(Choice::A, "This is A", Some(Choice::A), Message::Selected);
    let b: Radio<Message, ()> = Radio::new(Choice::B, "This is B", Some(Choice::A), Message::Selected);
    let n: Radio<Message, ()> = Radio::new(Choice::A, "None", None, Message::Selected);
    assert!(a.is_selected());
    assert!(!b.is_selected());
    assert!(!n.is_selected());
}

#[test]
fn radio_click_publishes_constructed_message() {
    let b: Radio<Message, ()> = Radio::new(Choice::B, "This is B", Some(Choice::A), Message::Selected)
        .name("group")
        .id("b");
    assert_eq!(*b.on_click(), Message::Selected(Choice::B));
    let _ = b.node();
    assert_eq!(*b.on_click(), Message::Selected(Choice::B));
}

#[test]
fn radio_message_made_once() {
    let calls = std::cell::Cell::new(0u32);
    let r: Radio<Message, ()> = Radio::new(Choice::A, "A", None, |v| {
        calls.set(calls.get() + 1);
        Message::Selected(v)
    });
    assert_eq!(calls.get(), 1);
    assert_eq!(*r.on_click(), Message::Selected(Choice::A));
    assert_eq!(*r.on_click(), Message::Selected(Choice::A));
    assert_eq!(calls.get(), 1);
}

#[test]
fn radio_markup() {
    let a: Radio<Message, ()> = Radio::new(Choice::A, "This is A", Some(Choice::A), Message::Selected)
        .name("choice")
        .id("a");
    assert_eq!(
        a.node().markup(),
        "<label style=\"display: block; font-size: 20px\" for=\"a\"><input type=\"radio\" id=\"a\" name=\"choice\" style=\"margin-right: 10px\" checked/>This is A</label>"
    );
    let b: Radio<Message, ()> = Radio::new(Choice::B, "This is B", Some(Choice::A), Message::Selected);
    assert_eq!(
        b.node().markup(),
        "<label style=\"display: block; font-size: 20px\" for=\"\"><input type=\"radio\" id=\"\" name=\"\" style=\"margin-right: 10px\"/>This is B</label>"
    );
}

#[test]
fn radio_same_configuration_same_markup() {
    let a: Radio<Message, ()> = Radio::new(Choice::B, "B", Some(Choice::B), Message::Selected).id("x").name("n");
    let b: Radio<Message, ()> = Radio::new(Choice::B, "B", Some(Choice::B), Message::Selected).id("x").name("n");
    assert_eq!(a.node().markup(), b.node().markup());
}

#[test]
fn radio_builders_commute() {
    let a: Radio<Message, ()> = Radio::new(Choice::A, "A", None, Message::Selected).name("n").id("i");
    let b: Radio<Message, ()> = Radio::new(Choice::A, "A", None, Message::Selected).id("i").name("n");
    assert_eq!(a.node().markup(), b.node().markup());
}

#[test]
fn radio_style_is_kept() {
    let r: Radio<Message, u8> = Radio::new(Choice::A, "A", None, Message::Selected);
    assert_eq!(*r.style_sheet(), 0);
    assert_eq!(*r.style(3).style_sheet(), 3);
}

#[test]
fn length_literals() {
    assert_eq!(length(Length::Fill), "100%");
    assert_eq!(length(Length::FillPortion(3)), "100%");
    assert_eq!(length(Length::Shrink), "auto");
    assert_eq!(length(Length::Units(0)), "0px");
    assert_eq!(length(Length::Units(120)), "120px");
    assert_eq!(length(Length::Units(65535)), "65535px");
}

#[test]
fn decimal_notation() {
    assert_eq!(decimal_string(0), "0");
    assert_eq!(decimal_string(9), "9");
    assert_eq!(decimal_string(10), "10");
    assert_eq!(decimal_string(305), "305");
}

#[test]
fn rule_classes() {
    assert_eq!(Rule::Row.class(), "r");
    assert_eq!(Rule::Spacing(5).class(), "s-5");
    assert_eq!(Rule::Spacing(12).class(), "s-12");
}

#[test]
fn css_holds_each_rule_once() {
    let mut css = Css::new();
    assert!(css.rules().is_empty());
    assert_eq!(css.insert(Rule::Spacing(3)), "s-3");
    assert_eq!(css.insert(Rule::Row), "r");
    assert_eq!(css.insert(Rule::Spacing(3)), "s-3");
    assert_eq!(css.rules().clone(), vec![Rule::Spacing(3), Rule::Row]);
    assert!(css.contains(Rule::Row));
    assert!(!css.contains(Rule::Spacing(4)));
}
