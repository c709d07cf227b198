//! Same-named trait methods, associated functions on traits, an outline
//! printer built on a supertrait-like text method, and the newtype pattern.

use crate::text::int_digits;
use crate::text::join_strings;
use crate::text::joined;
use crate::text::repeat_str;
use crate::text::repeated;
use crate::text::views_of;
use vstd::prelude::*;
use vstd::string::StrSliceExecFns;
use vstd::string::StringExecFns;

verus! {

/// Flying as a pilot does it.
pub trait Pilot {
    /// What this flyer announces when flying as a pilot.
    spec fn pilot_line(&self) -> Seq<char>;

    /// The announcement itself.
    fn fly(&self) -> (r: String)
        ensures
            r@ == self.pilot_line(),
    ;
}

/// Flying as a wizard does it.
pub trait Wizard {
    /// What this flyer utters when flying as a wizard.
    spec fn wizard_line(&self) -> Seq<char>;

    /// The utterance itself.
    fn fly(&self) -> (r: String)
        ensures
            r@ == self.wizard_line(),
    ;
}

/// Someone who can fly in three different capacities.
pub struct Human;

impl Human {
    /// Flying the human way.
    pub fn fly(&self) -> (r: String)
        ensures
            r@ == "*waving arms furiously*"@,
    {
        String::from_str("*waving arms furiously*")
    }
}

impl Pilot for Human {
    open spec fn pilot_line(&self) -> Seq<char> {
        "This is your captain speaking."@
    }

    fn fly(&self) -> (r: String) {
        String::from_str("This is your captain speaking.")
    }
}

impl Wizard for Human {
    open spec fn wizard_line(&self) -> Seq<char> {
        "Up!"@
    }

    fn fly(&self) -> (r: String) {
        String::from_str("Up!")
    }
}

/// An animal species names its young.
pub trait Animal {
    /// What the species calls its young.
    spec fn species_baby_name() -> Seq<char>;

    /// That name, as text.
    fn baby_name() -> (r: String)
        ensures
            r@ == Self::species_baby_name(),
    ;
}

/// A dog, which also has a name of its own for its puppy.
pub struct Dog;

impl Dog {
    /// This particular dog's baby is called Spot.
    pub fn baby_name() -> (r: String)
        ensures
            r@ == "Spot"@,
    {
        String::from_str("Spot")
    }
}

impl Animal for Dog {
    open spec fn species_baby_name() -> Seq<char> {
        "puppy"@
    }

    fn baby_name() -> (r: String) {
        String::from_str("puppy")
    }
}

/// The five lines of an outline: a frame of asterisks around the text.
pub open spec fn outline_of(t: Seq<char>) -> Seq<Seq<char>> {
    seq![
        repeated("*"@, (t.len() + 4) as nat),
        seq!['*'] + repeated(" "@, (t.len() + 2) as nat) + seq!['*'],
        "* "@ + t + " *"@,
        seq!['*'] + repeated(" "@, (t.len() + 2) as nat) + seq!['*'],
        repeated("*"@, (t.len() + 4) as nat),
    ]
}

/// Anything with a textual form can be shown inside a frame of asterisks.
pub trait OutlinePrint {
    /// The text to be framed.
    spec fn outline_text(&self) -> Seq<char>;

    /// The framed text, line by line.
    fn outline_print(&self) -> (r: Vec<String>)
        requires
            self.outline_text().len() + 4 <= usize::MAX,
        ensures
            views_of(r@) == outline_of(self.outline_text()),
    ;
}

/// Builds the frame that `OutlinePrint` promises.
pub fn outline_lines(output: &str) -> (r: Vec<String>)
    requires
        output@.len() + 4 <= usize::MAX,
    ensures
        views_of(r@) == outline_of(output@),
{
    let len = output.unicode_len();
    let stars = repeat_str("*", len + 4);
    let mut border = String::from_str("*");
    let blanks = repeat_str(" ", len + 2);
    border.append(blanks.as_str());
    border.append("*");
    let mut middle = String::from_str("* ");
    middle.append(output);
    middle.append(" *");
    let mut r: Vec<String> = Vec::new();
    r.push(stars.clone());
    r.push(border.clone());
    r.push(middle);
    r.push(border);
    r.push(stars);
    proof {
        reveal_strlit("*");
        assert("*"@ =~= seq!['*']);
        assert(views_of(r@) =~= outline_of(output@));
    }
    r
}

/// A point in the plane with a coordinate notation of its own.
pub struct Point {
    pub x: i32,
    pub y: i32,
}

/// The point in coordinate notation.
pub open spec fn point_text(p: Point) -> Seq<char> {
    seq!['('] + int_digits(p.x as int) + ", "@ + int_digits(p.y as int) + seq![')']
}

impl Point {
    /// The coordinate notation, as text.
    pub fn to_text(&self) -> (r: String)
        ensures
            r@ == point_text(*self),
    {
        let mut s = String::from_str("(");
        let x_digits = crate::text::i32_to_decimal(self.x);
        s.append(x_digits.as_str());
        s.append(", ");
        let y_digits = crate::text::i32_to_decimal(self.y);
        s.append(y_digits.as_str());
        s.append(")");
        proof {
            reveal_strlit("(");
            reveal_strlit(")");
            assert("("@ =~= seq!['(']);
            assert(")"@ =~= seq![')']);
            assert(s@ =~= point_text(*self));
        }
        s
    }
}

impl OutlinePrint for Point {
    open spec fn outline_text(&self) -> Seq<char> {
        point_text(*self)
    }

    fn outline_print(&self) -> (r: Vec<String>) {
        let t = self.to_text();
        outline_lines(t.as_str())
    }
}

/// A newtype around a list of strings, with a bracketed notation of its own.
pub struct Wrapper(pub Vec<String>);

impl Wrapper {
    /// The items in bracketed, comma-separated notation.
    pub fn to_text(&self) -> (r: String)
        ensures
            r@ == seq!['['] + joined(views_of(self.0@), ", "@) + seq![']'],
    {
        let mut s = String::from_str("[");
        let body = join_strings(&self.0, ", ");
        s.append(body.as_str());
        s.append("]");
        proof {
            reveal_strlit("[");
            reveal_strlit("]");
            assert("["@ =~= seq!['[']);
            assert("]"@ =~= seq![']']);
            assert(s@ =~= seq!['['] + joined(views_of(self.0@), ", "@) + seq![']']);
        }
        s
    }
}

} // verus!
