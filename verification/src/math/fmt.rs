//! Textual rendering of the geometry types.
//!
//! Vectors, points and sizes render as labeled maps (`{x: 1, y: 2}`),
//! matrices as nested lists (`[[1, 2], [3, 4]]`), with scalars in decimal.

use vstd::prelude::*;
use vstd::string::StringExecFns;

use super::{Mat2, Point2, Size2, Vec2};

verus! {

/// The decimal digit character for one digit value.
pub open spec fn spec_digit_char(d: nat) -> char {
    if d == 0 {
        '0'
    } else if d == 1 {
        '1'
    } else if d == 2 {
        '2'
    } else if d == 3 {
        '3'
    } else if d == 4 {
        '4'
    } else if d == 5 {
        '5'
    } else if d == 6 {
        '6'
    } else if d == 7 {
        '7'
    } else if d == 8 {
        '8'
    } else {
        '9'
    }
}

/// The decimal rendering of a natural number, most significant digit
/// first, without leading zeros (except for zero itself).
pub open spec fn spec_decimal_nat(n: nat) -> Seq<char>
    decreases n,
{
    if n < 10 {
        seq![spec_digit_char(n)]
    } else {
        spec_decimal_nat(n / 10).push(spec_digit_char(n % 10))
    }
}

/// The decimal rendering of an integer: a minus sign for negative values,
/// then the digits of the magnitude.
pub open spec fn spec_decimal_int(v: int) -> Seq<char> {
    if v < 0 {
        seq!['-'] + spec_decimal_nat((-v) as nat)
    } else {
        spec_decimal_nat(v as nat)
    }
}

/// One decimal digit as a string.
fn digit_str(d: u64) -> (r: &'static str)
    requires
        d < 10,
    ensures
        r@ == seq![spec_digit_char(d as nat)],
{
    match d {
        0 => {
            proof {
                reveal_strlit("0");
            }
            "0"
        },
        1 => {
            proof {
                reveal_strlit("1");
            }
            "1"
        },
        2 => {
            proof {
                reveal_strlit("2");
            }
            "2"
        },
        3 => {
            proof {
                reveal_strlit("3");
            }
            "3"
        },
        4 => {
            proof {
                reveal_strlit("4");
            }
            "4"
        },
        5 => {
            proof {
                reveal_strlit("5");
            }
            "5"
        },
        6 => {
            proof {
                reveal_strlit("6");
            }
            "6"
        },
        7 => {
            proof {
                reveal_strlit("7");
            }
            "7"
        },
        8 => {
            proof {
                reveal_strlit("8");
            }
            "8"
        },
        _ => {
            proof {
                reveal_strlit("9");
            }
            "9"
        },
    }
}

/// Appends the decimal rendering of `n`.
fn push_decimal_u64(n: u64, out: &mut String)
    ensures
        final(out)@ == old(out)@ + spec_decimal_nat(n as nat),
    decreases n,
{
    if n < 10 {
        out.append(digit_str(n));
    } else {
        push_decimal_u64(n / 10, out);
        out.append(digit_str(n % 10));

        proof {
            assert(out@ =~= old(out)@ + spec_decimal_nat(n as nat));
        }
    }
}

/// Returns the decimal rendering of `v`.
pub fn decimal_string(v: i64) -> (r: String)
    ensures
        r@ == spec_decimal_int(v as int),
{
    let mut out = String::new();

    if v < 0 {
        proof {
            reveal_strlit("-");
        }

        out.append("-");

        let magnitude = (-(v as i128)) as u64;

        push_decimal_u64(magnitude, &mut out);

        proof {
            assert(out@ =~= spec_decimal_int(v as int));
        }
    } else {
        push_decimal_u64(v as u64, &mut out);
    }

    out
}

/// The rendering of a [`Vec2`] over `i64`.
pub open spec fn spec_vec2_debug(v: Vec2<i64>) -> Seq<char> {
    "{x: "@ + spec_decimal_int(v.x as int) + ", y: "@ + spec_decimal_int(v.y as int) + "}"@
}

/// The rendering of a [`Point2`] over `i64`.
pub open spec fn spec_point2_debug(p: Point2<i64>) -> Seq<char> {
    "{x: "@ + spec_decimal_int(p.x as int) + ", y: "@ + spec_decimal_int(p.y as int) + "}"@
}

/// The rendering of a [`Size2`] over `i64`.
pub open spec fn spec_size2_debug(s: Size2<i64>) -> Seq<char> {
    "{w: "@ + spec_decimal_int(s.w as int) + ", h: "@ + spec_decimal_int(s.h as int) + "}"@
}

/// The rendering of a [`Mat2`] over `i64`.
pub open spec fn spec_mat2_debug(m: Mat2<i64>) -> Seq<char> {
    "[["@ + spec_decimal_int(m.x.x as int) + ", "@ + spec_decimal_int(m.x.y as int) + "], ["@
        + spec_decimal_int(m.y.x as int) + ", "@ + spec_decimal_int(m.y.y as int) + "]]"@
}

impl Vec2<i64> {
    /// Renders this vector as a labeled map, such as `{x: 1, y: 2}`.
    pub fn debug_string(&self) -> (r: String)
        ensures
            r@ == spec_vec2_debug(*self),
    {
        let mut out = String::new();

        out.append("{x: ");
        out.append(decimal_string(self.x).as_str());
        out.append(", y: ");
        out.append(decimal_string(self.y).as_str());
        out.append("}");

        proof {
            assert(out@ =~= spec_vec2_debug(*self));
        }

        out
    }
}

impl Point2<i64> {
    /// Renders this point as a labeled map, such as `{x: 1, y: 2}`.
    pub fn debug_string(&self) -> (r: String)
        ensures
            r@ == spec_point2_debug(*self),
    {
        let mut out = String::new();

        out.append("{x: ");
        out.append(decimal_string(self.x).as_str());
        out.append(", y: ");
        out.append(decimal_string(self.y).as_str());
        out.append("}");

        proof {
            assert(out@ =~= spec_point2_debug(*self));
        }

        out
    }
}

impl Size2<i64> {
    /// Renders this size as a labeled map, such as `{w: 1, h: 2}`.
    pub fn debug_string(&self) -> (r: String)
        ensures
            r@ == spec_size2_debug(*self),
    {
        let mut out = String::new();

        out.append("{w: ");
        out.append(decimal_string(self.w).as_str());
        out.append(", h: ");
        out.append(decimal_string(self.h).as_str());
        out.append("}");

        proof {
            assert(out@ =~= spec_size2_debug(*self));
        }

        out
    }
}

impl Mat2<i64> {
    /// Renders this matrix as a list of its columns, such as
    /// `[[1, 2], [3, 4]]`.
    pub fn debug_string(&self) -> (r: String)
        ensures
            r@ == spec_mat2_debug(*self),
    {
        let mut out = String::new();

        out.append("[[");
        out.append(decimal_string(self.x.x).as_str());
        out.append(", ");
        out.append(decimal_string(self.x.y).as_str());
        out.append("], [");
        out.append(decimal_string(self.y.x).as_str());
        out.append(", ");
        out.append(decimal_string(self.y.y).as_str());
        out.append("]]");

        proof {
            assert(out@ =~= spec_mat2_debug(*self));
        }

        out
    }
}

} // verus!
