//! Which of the texts that a window's controls report is meant.

use vstd::prelude::*;

use super::text::trim_chars;
#[allow(unused_imports)]
use super::text::trimmed;
use crate::strings::{chars_of, same_text};

verus! {

/// What a control reports.
#[derive(Debug)]
pub struct Control {
    /// The name by which it is addressed.
    pub id: Option<String>,
    /// Its value, where it has one.
    pub value: Option<String>,
    /// The document that it shows, where it shows one.
    pub document: Option<String>,
}

impl Control {
    /// What a control holds: its value, or else the document that it shows.
    pub open spec fn text(self) -> Option<Seq<char>> {
        match self.value {
            Some(value) => Some(value@),
            None => match self.document {
                Some(document) => Some(document@),
                None => None,
            },
        }
    }

    /// Whether a control holds more than whitespace.
    pub open spec fn is_filled(self) -> bool {
        self.text() is Some && trimmed(self.text()->0).len() > 0
    }

    fn filled_text(&self) -> (text: Option<String>)
        ensures
            match text {
                Some(text) => self.is_filled() && self.text() == Some(text@),
                None => !self.is_filled(),
            },
    {
        let text = match &self.value {
            Some(value) => value.clone(),
            None => match &self.document {
                Some(document) => document.clone(),
                None => {
                    return None;
                },
            },
        };
        if trim_chars(&chars_of(&text)).len() > 0 {
            Some(text)
        } else {
            None
        }
    }
}

/// What the first control holds that holds more than whitespace.
pub open spec fn first_text(controls: Seq<Control>) -> Option<Seq<char>>
    decreases controls.len(),
{
    if controls.len() == 0 {
        None
    } else if controls[0].is_filled() {
        controls[0].text()
    } else {
        first_text(controls.skip(1))
    }
}

/// The text of a window: what the first of its controls holds that holds more
/// than whitespace.
pub fn text_of(controls: &[Control]) -> (text: Option<String>)
    ensures
        match text {
            Some(text) => first_text(controls@) == Some(text@),
            None => first_text(controls@) is None,
        },
{
    let mut i: usize = 0;
    assert(controls@.skip(0) =~= controls@);
    while i < controls.len()
        invariant
            i <= controls.len(),
            first_text(controls@.skip(i as int)) == first_text(controls@),
        decreases controls.len() - i,
    {
        assert(controls@.skip(i as int)[0] == controls@[i as int]);
        assert(controls@.skip(i as int).skip(1) =~= controls@.skip(i + 1));
        let text = controls[i].filled_text();
        if text.is_some() {
            return text;
        }
        i += 1;
    }
    assert(controls@.skip(i as int) =~= Seq::empty());
    None
}

/// The value of the first control with a name; empty where it has none.
pub open spec fn value_with_id(controls: Seq<Control>, id: Seq<char>) -> Option<Seq<char>>
    decreases controls.len(),
{
    if controls.len() == 0 {
        None
    } else if controls[0].id is Some && controls[0].id->0@ == id {
        match controls[0].value {
            Some(value) => Some(value@),
            None => Some(Seq::empty()),
        }
    } else {
        value_with_id(controls.skip(1), id)
    }
}

/// The value of the control with a name.
pub fn value_by_automation_id(controls: &[Control], id: &str) -> (value: Option<String>)
    ensures
        match value {
            Some(value) => value_with_id(controls@, id@) == Some(value@),
            None => value_with_id(controls@, id@) is None,
        },
{
    let mut i: usize = 0;
    assert(controls@.skip(0) =~= controls@);
    while i < controls.len()
        invariant
            i <= controls.len(),
            value_with_id(controls@.skip(i as int), id@) == value_with_id(controls@, id@),
        decreases controls.len() - i,
    {
        assert(controls@.skip(i as int)[0] == controls@[i as int]);
        assert(controls@.skip(i as int).skip(1) =~= controls@.skip(i + 1));
        let meant = match &controls[i].id {
            Some(found) => same_text(found, id),
            None => false,
        };
        if meant {
            return Some(
                match &controls[i].value {
                    Some(value) => value.clone(),
                    None => String::new(),
                },
            );
        }
        i += 1;
    }
    assert(controls@.skip(i as int) =~= Seq::empty());
    None
}

/// The text of a window is that of the first control that holds more than
/// whitespace: those before it do not matter, and neither do those after it.
pub proof fn an_empty_control_is_passed_over(first: Control, rest: Seq<Control>)
    ensures
        !first.is_filled() ==> first_text(seq![first] + rest) == first_text(rest),
        first.is_filled() ==> first_text(seq![first] + rest) == first.text(),
        first.value is Some ==> first.text() == Some(first.value->0@),
        first.value is None && first.document is Some ==> first.text() == Some(
            first.document->0@,
        ),
        first.value is None && first.document is None ==> first.text() is None,
{
    let controls = seq![first] + rest;
    assert(controls.skip(1) =~= rest);
    assert(controls[0] == first);
}

/// The value of a control is that of the first one with the name.
pub proof fn the_first_control_with_a_name_is_meant(
    first: Control,
    rest: Seq<Control>,
    id: Seq<char>,
)
    ensures
        first.id is Some && first.id->0@ == id && first.value is Some ==> value_with_id(
            seq![first] + rest,
            id,
        ) == Some(first.value->0@),
        first.id is None || first.id->0@ != id ==> value_with_id(seq![first] + rest, id)
            == value_with_id(rest, id),
{
    let controls = seq![first] + rest;
    assert(controls.skip(1) =~= rest);
    assert(controls[0] == first);
}

} // verus!
