//! Element-type requirements of the container.
//!
//! An element type supplies a default value, used to pre-fill unused or
//! newly grown storage slots, and optionally a textual rendering, used by
//! the container's string form.

use vstd::prelude::*;

verus! {

use vstd::string::StringExecFns;

/// An element type that supplies a default value for pre-filling slots.
pub trait DefaultValue: Sized {
    /// The default value, as a mathematical object.
    spec fn spec_default() -> Self;

    /// Produces the default value.
    fn default_value() -> (r: Self)
        ensures
            r == Self::spec_default(),
    ;
}

impl DefaultValue for u64 {
    open spec fn spec_default() -> u64 {
        0u64
    }

    fn default_value() -> u64 {
        0
    }
}

impl DefaultValue for i64 {
    open spec fn spec_default() -> i64 {
        0i64
    }

    fn default_value() -> i64 {
        0
    }
}

impl DefaultValue for usize {
    open spec fn spec_default() -> usize {
        0usize
    }

    fn default_value() -> usize {
        0
    }
}

impl DefaultValue for bool {
    open spec fn spec_default() -> bool {
        false
    }

    fn default_value() -> bool {
        false
    }
}

/// An element type that supplies a textual rendering of its values, for
/// the container's string form.
pub trait Render: Sized {
    /// The rendering, as a sequence of characters.
    spec fn spec_render(&self) -> Seq<char>;

    /// Produces the rendering.
    fn render(&self) -> (r: String)
        ensures
            r@ == self.spec_render(),
    ;
}

/// The character for a single decimal digit.
pub open spec fn spec_digit_char(d: nat) -> char {
    if d == 0 {
        '0'
    } else if d == 1 {
        '1'
    } else if d == 2 {
        '2'
    } else if d == 3 {
        '3'
    } else if d == 4 {
        '4'
    } else if d == 5 {
        '5'
    } else if d == 6 {
        '6'
    } else if d == 7 {
        '7'
    } else if d == 8 {
        '8'
    } else {
        '9'
    }
}

/// The decimal rendering of a natural number: most significant digit
/// first, no leading zeros (a lone zero for 0).
pub open spec fn spec_decimal(n: nat) -> Seq<char>
    decreases n,
{
    if n < 10 {
        seq![spec_digit_char(n)]
    } else {
        spec_decimal(n / 10).push(spec_digit_char(n % 10))
    }
}

/// The one-character string for a single decimal digit.
fn digit_str(d: u64) -> (r: &'static str)
    requires
        d < 10,
    ensures
        r@ == seq![spec_digit_char(d as nat)],
{
    proof {
        reveal_strlit("0");
        reveal_strlit("1");
        reveal_strlit("2");
        reveal_strlit("3");
        reveal_strlit("4");
        reveal_strlit("5");
        reveal_strlit("6");
        reveal_strlit("7");
        reveal_strlit("8");
        reveal_strlit("9");
    }
    let r: &'static str = if d == 0 {
        "0"
    } else if d == 1 {
        "1"
    } else if d == 2 {
        "2"
    } else if d == 3 {
        "3"
    } else if d == 4 {
        "4"
    } else if d == 5 {
        "5"
    } else if d == 6 {
        "6"
    } else if d == 7 {
        "7"
    } else if d == 8 {
        "8"
    } else {
        "9"
    };
    proof {
        assert(r@ =~= seq![spec_digit_char(d as nat)]);
    }
    r
}

/// The decimal rendering of `n`, most significant digit first.
pub fn decimal_str(n: u64) -> (r: String)
    ensures
        r@ == spec_decimal(n as nat),
    decreases n,
{
    if n < 10 {
        String::from_str(digit_str(n))
    } else {
        let mut r = decimal_str(n / 10);
        r.append(digit_str(n % 10));
        proof {
            assert(r@ =~= spec_decimal(n as nat));
        }
        r
    }
}

impl Render for u64 {
    open spec fn spec_render(&self) -> Seq<char> {
        spec_decimal(*self as nat)
    }

    fn render(&self) -> (r: String) {
        decimal_str(*self)
    }
}

impl Render for usize {
    open spec fn spec_render(&self) -> Seq<char> {
        spec_decimal(*self as nat)
    }

    fn render(&self) -> (r: String) {
        decimal_str(*self as u64)
    }
}

impl Render for i64 {
    open spec fn spec_render(&self) -> Seq<char> {
        if *self >= 0 {
            spec_decimal(*self as nat)
        } else {
            seq!['-'] + spec_decimal((-(*self as int)) as nat)
        }
    }

    fn render(&self) -> (r: String) {
        if *self >= 0 {
            decimal_str(*self as u64)
        } else {
            let wide: i128 = *self as i128;
            proof {
                assert(0 <= -wide <= u64::MAX);
            }
            let magnitude: u64 = (-wide) as u64;
            let mut r = String::from_str("-");
            r.append(decimal_str(magnitude).as_str());
            proof {
                reveal_strlit("-");
                assert(r@ =~= self.spec_render());
            }
            r
        }
    }
}

} // verus!
