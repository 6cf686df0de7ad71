//! Style rules, their class names, and a registry that holds each rule once.
use vstd::prelude::*;

verus! {

/// The strategy used to fill space in one dimension.
#[derive(Debug, Clone, Copy, PartialEq, Eq, Structural)]
pub enum Length {
    /// Fills all the remaining space.
    Fill,
    /// Fills a portion of the remaining space, relative to other elements.
    FillPortion(u16),
    /// Fills the least amount of space.
    Shrink,
    /// Fills a fixed number of pixels.
    Units(u16),
}

/// The character of a decimal digit.
pub open spec fn digit_char(d: nat) -> char {
    if d == 0 { '0' }
    else if d == 1 { '1' }
    else if d == 2 { '2' }
    else if d == 3 { '3' }
    else if d == 4 { '4' }
    else if d == 5 { '5' }
    else if d == 6 { '6' }
    else if d == 7 { '7' }
    else if d == 8 { '8' }
    else { '9' }
}

/// The decimal notation of `n`, without leading zeros.
pub open spec fn decimal(n: nat) -> Seq<char>
    decreases n,
{
    if n < 10 {
        seq![digit_char(n)]
    } else {
        decimal(n / 10).push(digit_char(n % 10))
    }
}

fn digit_str(d: u16) -> (r: &'static str)
    requires
        d < 10,
    ensures
        r@ == seq![digit_char(d as nat)],
{
    proof {
        reveal_strlit("0");
        reveal_strlit("1");
        reveal_strlit("2");
        reveal_strlit("3");
        reveal_strlit("4");
        reveal_strlit("5");
        reveal_strlit("6");
        reveal_strlit("7");
        reveal_strlit("8");
        reveal_strlit("9");
    }
    match d {
        0 => "0",
        1 => "1",
        2 => "2",
        3 => "3",
        4 => "4",
        5 => "5",
        6 => "6",
        7 => "7",
        8 => "8",
        _ => "9",
    }
}

/// Writes `n` in decimal.
pub fn decimal_string(n: u16) -> (r: String)
    ensures
        r@ == decimal(n as nat),
    decreases n,
{
    if n < 10 {
        String::from_str(digit_str(n))
    } else {
        let mut s = decimal_string(n / 10);
        s.append(digit_str(n % 10));
        s
    }
}

/// The CSS length literal of a [`Length`].
pub open spec fn length_css(l: Length) -> Seq<char> {
    match l {
        Length::Shrink => "auto"@,
        Length::Units(px) => decimal(px as nat) + "px"@,
        Length::Fill | Length::FillPortion(_) => "100%"@,
    }
}

/// Converts a [`Length`] into a CSS length literal.
pub fn length(l: Length) -> (r: String)
    ensures
        r@ == length_css(l),
{
    match l {
        Length::Shrink => String::from_str("auto"),
        Length::Units(px) => {
            let mut s = decimal_string(px);
            s.append("px");
            s
        },
        Length::Fill | Length::FillPortion(_) => String::from_str("100%"),
    }
}

/// A style rule that widgets register to obtain a class name.
#[derive(Debug, Clone, Copy, PartialEq, Eq, Structural)]
pub enum Rule {
    /// Lays children out in a row.
    Row,
    /// Leaves a fixed space, in pixels, between children.
    Spacing(u16),
}

impl Rule {
    /// The class name under which the rule is registered.
    pub open spec fn class_spec(self) -> Seq<char> {
        match self {
            Rule::Row => "r"@,
            Rule::Spacing(n) => "s-"@ + decimal(n as nat),
        }
    }

    /// Returns the class name of the rule.
    pub fn class(&self) -> (r: String)
        ensures
            r@ == self.class_spec(),
    {
        match self {
            Rule::Row => String::from_str("r"),
            Rule::Spacing(n) => {
                let mut s = String::from_str("s-");
                s.append(decimal_string(*n).as_str());
                s
            },
        }
    }
}

/// The rules held after registering `rule` in `rules`.
pub open spec fn with_rule(rules: Seq<Rule>, rule: Rule) -> Seq<Rule> {
    if rules.contains(rule) {
        rules
    } else {
        rules.push(rule)
    }
}

/// Registering a rule that is held already changes nothing.
pub proof fn lemma_with_rule_idempotent(rules: Seq<Rule>, rule: Rule)
    ensures
        with_rule(rules, rule).contains(rule),
        with_rule(with_rule(rules, rule), rule) == with_rule(rules, rule),
        forall|x: Rule| rules.contains(x) ==> #[trigger] with_rule(rules, rule).contains(x),
{
    if !rules.contains(rule) {
        assert(rules.push(rule)[rules.len() as int] == rule);
        assert forall|x: Rule| rules.contains(x) implies #[trigger] rules.push(rule).contains(x) by {
            let j = choose|j: int| 0 <= j < rules.len() && rules[j] == x;
            assert(rules.push(rule)[j] == x);
        }
    }
}

/// A registry of style rules, each held once, in order of first registration.
pub struct Css {
    rules: Vec<Rule>,
}

impl View for Css {
    type V = Seq<Rule>;

    closed spec fn view(&self) -> Seq<Rule> {
        self.rules@
    }
}

impl Css {
    /// No rule is held twice.
    pub open spec fn wf(&self) -> bool {
        self@.no_duplicates()
    }

    /// Creates an empty registry.
    pub fn new() -> (r: Css)
        ensures
            r@ == Seq::<Rule>::empty(),
            r.wf(),
    {
        Css { rules: Vec::new() }
    }

    /// Tells whether `rule` is registered.
    pub fn contains(&self, rule: Rule) -> (r: bool)
        ensures
            r == self@.contains(rule),
    {
        let mut i: usize = 0;
        while i < self.rules.len()
            invariant
                0 <= i <= self.rules@.len(),
                forall|j: int| 0 <= j < i ==> self.rules@[j] != rule,
            decreases self.rules@.len() - i,
        {
            if self.rules[i] == rule {
                return true;
            }
            i = i + 1;
        }
        false
    }

    /// The registered rules, in order of first registration.
    pub fn rules(&self) -> (r: &Vec<Rule>)
        ensures
            r@ == self@,
    {
        &self.rules
    }

    /// Registers `rule`, unless it is held already, and returns its class name.
    pub fn insert(&mut self, rule: Rule) -> (r: String)
        requires
            old(self).wf(),
        ensures
            final(self).wf(),
            final(self)@ == with_rule(old(self)@, rule),
            r@ == rule.class_spec(),
    {
        if !self.contains(rule) {
            self.rules.push(rule);
        }
        rule.class()
    }
}

} // verus!
