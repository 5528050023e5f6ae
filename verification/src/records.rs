//! A handful of record shapes, each with a hand-written human-oriented
//! ("display") rendering and a structural ("debug") rendering.
//!
//! The two renderings of a value are independent: a type may carry one,
//! both, or neither, and wrapping a value in a new type never makes the
//! wrapper render like the value it holds unless the wrapper says so.

use vstd::prelude::*;

use crate::digits::digit_char;
use crate::digits::digit_str;
use crate::digits::digits;
use crate::digits::render_i64;
use crate::digits::render_u64;
use crate::digits::signed_digits;

verus! {

/// A pair of signed integers, shown positionally as a tuple.
pub struct MinMax(pub i64, pub i64);

/// Display form of a `MinMax`: `(low, high)`.
pub open spec fn minmax_display(low: i64, high: i64) -> Seq<char> {
    "("@ + signed_digits(low as int) + ", "@ + signed_digits(high as int) + ")"@
}

/// Debug form of a `MinMax`: `MinMax(low, high)`.
pub open spec fn minmax_debug(low: i64, high: i64) -> Seq<char> {
    "MinMax("@ + signed_digits(low as int) + ", "@ + signed_digits(high as int) + ")"@
}

impl MinMax {
    /// Human-oriented rendering, a parenthesised tuple.
    pub fn display_string(&self) -> (r: String)
        ensures
            r@ == minmax_display(self.0, self.1),
    {
        let r = "(".to_owned()
            .concat(render_i64(self.0).as_str())
            .concat(", ")
            .concat(render_i64(self.1).as_str())
            .concat(")");
        r
    }

    /// Structural rendering, exposing the type name and both fields.
    pub fn debug_string(&self) -> (r: String)
        ensures
            r@ == minmax_debug(self.0, self.1),
    {
        let r = "MinMax(".to_owned()
            .concat(render_i64(self.0).as_str())
            .concat(", ")
            .concat(render_i64(self.1).as_str())
            .concat(")");
        r
    }
}

/// A signed fixed-point number with one fractional digit, held as a
/// count of tenths: `33` tenths is the value `3.3`.
pub struct Decimal {
    pub tenths: i64,
}

/// The text of a non-negative count of tenths: whole part in decimal,
/// a point, then the single fractional digit (`33` gives `3.3`,
/// `5` gives `0.5`).
pub open spec fn tenths_digits(m: nat) -> Seq<char> {
    digits(m / 10, 10) + "."@ + seq![digit_char(m % 10)]
}

/// The text of a `Decimal`, with a leading `-` when it is negative.
pub open spec fn decimal_chars(t: int) -> Seq<char> {
    if t < 0 {
        seq!['-'] + tenths_digits((-t) as nat)
    } else {
        tenths_digits(t as nat)
    }
}

/// Renders a non-negative count of tenths as `whole.fraction`.
fn render_tenths(m: u64) -> (r: String)
    ensures
        r@ == tenths_digits(m as nat),
{
    let r = render_u64(m / 10, 10).concat(".").concat(digit_str(m % 10));
    r
}

impl Decimal {
    /// The fixed-point value itself, e.g. `3.3` or `-0.5`.
    pub fn display_string(&self) -> (r: String)
        ensures
            r@ == decimal_chars(self.tenths as int),
    {
        if self.tenths < 0 {
            let wide: i128 = -(self.tenths as i128);
            let magnitude: u64 = wide as u64;
            proof {
                reveal_strlit("-");
                assert("-"@ =~= seq!['-']);
            }
            let r = "-".to_owned().concat(render_tenths(magnitude).as_str());
            r
        } else {
            render_tenths(self.tenths as u64)
        }
    }
}

/// A point with two named fixed-point coordinates.
pub struct Point2D {
    pub x: Decimal,
    pub y: Decimal,
}

/// Display form of a `Point2D`: `x: <v>, y: <v>`.
pub open spec fn point2d_display(x: int, y: int) -> Seq<char> {
    "x: "@ + decimal_chars(x) + ", y: "@ + decimal_chars(y)
}

/// Debug form of a `Point2D`: `Point2D { x: <v>, y: <v> }`.
pub open spec fn point2d_debug(x: int, y: int) -> Seq<char> {
    "Point2D { x: "@ + decimal_chars(x) + ", y: "@ + decimal_chars(y) + " }"@
}

impl Point2D {
    /// Named-field rendering of the two coordinates.
    pub fn display_string(&self) -> (r: String)
        ensures
            r@ == point2d_display(self.x.tenths as int, self.y.tenths as int),
    {
        let r = "x: ".to_owned()
            .concat(self.x.display_string().as_str())
            .concat(", y: ")
            .concat(self.y.display_string().as_str());
        r
    }

    /// Structural rendering with the type name and both field names.
    pub fn debug_string(&self) -> (r: String)
        ensures
            r@ == point2d_debug(self.x.tenths as int, self.y.tenths as int),
    {
        let r = "Point2D { x: ".to_owned()
            .concat(self.x.display_string().as_str())
            .concat(", y: ")
            .concat(self.y.display_string().as_str())
            .concat(" }");
        r
    }
}

/// A complex-number-like pair of real and imaginary fixed-point parts.
pub struct Complex {
    pub re: Decimal,
    pub im: Decimal,
}

/// Display form of a `Complex`: the symbolic `<re> + <im>i`.
pub open spec fn complex_display(re: int, im: int) -> Seq<char> {
    decimal_chars(re) + " + "@ + decimal_chars(im) + "i"@
}

/// Debug form of a `Complex`: `Complex { re: <v>, im: <v> }`.
pub open spec fn complex_debug(re: int, im: int) -> Seq<char> {
    "Complex { re: "@ + decimal_chars(re) + ", im: "@ + decimal_chars(im) + " }"@
}

/// Pretty debug form of a `Complex`: the multi-line, indented variant.
pub open spec fn complex_debug_pretty(re: int, im: int) -> Seq<char> {
    "Complex {\n    re: "@ + decimal_chars(re) + ",\n    im: "@ + decimal_chars(im) + ",\n}"@
}

impl Complex {
    /// Domain-specific symbolic rendering, `a + bi`.
    pub fn display_string(&self) -> (r: String)
        ensures
            r@ == complex_display(self.re.tenths as int, self.im.tenths as int),
    {
        let r = self.re.display_string()
            .concat(" + ")
            .concat(self.im.display_string().as_str())
            .concat("i");
        r
    }

    /// Structural rendering on a single line.
    pub fn debug_string(&self) -> (r: String)
        ensures
            r@ == complex_debug(self.re.tenths as int, self.im.tenths as int),
    {
        let r = "Complex { re: ".to_owned()
            .concat(self.re.display_string().as_str())
            .concat(", im: ")
            .concat(self.im.display_string().as_str())
            .concat(" }");
        r
    }

    /// Structural rendering in the multi-line, indented variant.
    pub fn debug_string_pretty(&self) -> (r: String)
        ensures
            r@ == complex_debug_pretty(self.re.tenths as int, self.im.tenths as int),
    {
        let r = "Complex {\n    re: ".to_owned()
            .concat(self.re.display_string().as_str())
            .concat(",\n    im: ")
            .concat(self.im.display_string().as_str())
            .concat(",\n}");
        r
    }
}

/// A wrapper holding a single integer. It renders structurally only:
/// no human-oriented form is defined for it.
pub struct Structure(pub i32);

/// Debug form of a `Structure`: `Structure(<v>)`.
pub open spec fn structure_debug(v: i32) -> Seq<char> {
    "Structure("@ + signed_digits(v as int) + ")"@
}

impl Structure {
    /// Structural rendering of the wrapped integer.
    pub fn debug_string(&self) -> (r: String)
        ensures
            r@ == structure_debug(self.0),
    {
        let r = "Structure(".to_owned().concat(render_i64(self.0 as i64).as_str()).concat(")");
        r
    }
}

/// A wrapper around `Structure`. Its structural rendering nests the
/// inner structural rendering; it gains no human-oriented form from
/// the value it wraps.
pub struct Deep(pub Structure);

/// Debug form of a `Deep`: `Deep(Structure(<v>))`.
pub open spec fn deep_debug(v: i32) -> Seq<char> {
    "Deep("@ + structure_debug(v) + ")"@
}

impl Deep {
    /// Structural rendering, nesting the inner wrapper's rendering.
    pub fn debug_string(&self) -> (r: String)
        ensures
            r@ == deep_debug(self.0.0),
    {
        let r = "Deep(".to_owned().concat(self.0.debug_string().as_str()).concat(")");
        r
    }
}

/// A record with a name, a family name, a job title and an age.
pub struct Person {
    pub name: String,
    pub fam: String,
    pub job: String,
    pub age: u8,
}

/// A string field as the structural rendering quotes it.
pub open spec fn quoted(s: Seq<char>) -> Seq<char> {
    seq!['"'] + s + seq!['"']
}

/// Pretty debug form of a `Person`: one indented line per field,
/// each field line ending in a comma.
pub open spec fn person_debug_pretty(name: Seq<char>, fam: Seq<char>, job: Seq<char>, age: u8) -> Seq<
    char,
> {
    "Person {\n    name: "@ + quoted(name) + ",\n    fam: "@ + quoted(fam) + ",\n    job: "@
        + quoted(job) + ",\n    age: "@ + digits(age as nat, 10) + ",\n}"@
}

/// Quotes a string as the structural renderings do.
fn quote(s: &str) -> (r: String)
    ensures
        r@ == quoted(s@),
{
    proof {
        reveal_strlit("\"");
        assert("\""@ =~= seq!['"']);
    }
    let r = "\"".to_owned().concat(s).concat("\"");
    r
}

impl Person {
    /// Structural rendering in the multi-line, indented variant.
    pub fn debug_string_pretty(&self) -> (r: String)
        ensures
            r@ == person_debug_pretty(self.name@, self.fam@, self.job@, self.age),
    {
        let r = "Person {\n    name: ".to_owned()
            .concat(quote(self.name.as_str()).as_str())
            .concat(",\n    fam: ")
            .concat(quote(self.fam.as_str()).as_str())
            .concat(",\n    job: ")
            .concat(quote(self.job.as_str()).as_str())
            .concat(",\n    age: ")
            .concat(render_u64(self.age as u64, 10).as_str())
            .concat(",\n}");
        r
    }
}

} // verus!
