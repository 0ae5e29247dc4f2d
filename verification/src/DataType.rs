//! DataType: the fixed catalog of C data types, with inclusive ranges and a
//! total rank used to order cross-type pairs.

use vstd::prelude::*;
use vstd::string::StringExecFns;

use crate::text::str_eq;

verus! {

/// The C data types the catalog knows. Only the types up to `UnsignedInt`
/// carry a usable range; the rest are declared but unsupported.
#[derive(Clone, Copy, PartialEq, Eq, Structural, Debug)]
pub enum CDataTypes {
    Char,
    SignedChar,
    UnsignedChar,
    Short,
    UnsignedShort,
    Int,
    UnsignedInt,
    Long,
    UnsignedLong,
    LongLong,
    UnsignedLongLong,
    Float,
    Double,
    LongDouble,
}

/// The subset of the catalog for which a range is defined. Looking up the
/// range of any other type is a contract violation, not a recoverable error.
pub open spec fn is_supported(t: CDataTypes) -> bool {
    match t {
        CDataTypes::Char => true,
        CDataTypes::SignedChar => true,
        CDataTypes::UnsignedChar => true,
        CDataTypes::Short => true,
        CDataTypes::UnsignedShort => true,
        CDataTypes::Int => true,
        CDataTypes::UnsignedInt => true,
        _ => false,
    }
}

/// Inclusive lower bound of a supported type's range.
pub open spec fn spec_min(t: CDataTypes) -> int {
    match t {
        CDataTypes::Char => 0,
        CDataTypes::SignedChar => -128,
        CDataTypes::UnsignedChar => 0,
        CDataTypes::Short => -32768,
        CDataTypes::UnsignedShort => 0,
        CDataTypes::Int => -2147483648,
        CDataTypes::UnsignedInt => 0,
        _ => 0,
    }
}

/// Inclusive upper bound of a supported type's range.
pub open spec fn spec_max(t: CDataTypes) -> int {
    match t {
        CDataTypes::Char => 255,
        CDataTypes::SignedChar => 127,
        CDataTypes::UnsignedChar => 255,
        CDataTypes::Short => 32767,
        CDataTypes::UnsignedShort => 65535,
        CDataTypes::Int => 2147483647,
        CDataTypes::UnsignedInt => 4294967295,
        _ => 0,
    }
}

/// The arithmetic middle of a supported type's range, rounded toward
/// negative infinity; the pivot around which boundary intervals are built.
pub open spec fn spec_midpoint(t: CDataTypes) -> int {
    (spec_min(t) + spec_max(t)) / 2
}

/// C source text of a type name.
pub open spec fn spec_type_text(t: CDataTypes) -> Seq<char> {
    match t {
        CDataTypes::Char => "char"@,
        CDataTypes::SignedChar => "signed char"@,
        CDataTypes::UnsignedChar => "unsigned char"@,
        CDataTypes::Short => "short"@,
        CDataTypes::UnsignedShort => "unsigned short"@,
        CDataTypes::Int => "int"@,
        CDataTypes::UnsignedInt => "unsigned int"@,
        CDataTypes::Long => "long"@,
        CDataTypes::UnsignedLong => "unsigned long"@,
        CDataTypes::LongLong => "long long"@,
        CDataTypes::UnsignedLongLong => "unsigned long long"@,
        CDataTypes::Float => "float"@,
        CDataTypes::Double => "double"@,
        CDataTypes::LongDouble => "long double"@,
    }
}

/// The type a piece of C source text names, if any. `"signed int"` and
/// `"int"` both name `Int`; unknown text yields `None`, never a default.
pub open spec fn spec_type_of_text(s: Seq<char>) -> Option<CDataTypes> {
    if s == "char"@ {
        Some(CDataTypes::Char)
    } else if s == "signed char"@ {
        Some(CDataTypes::SignedChar)
    } else if s == "unsigned char"@ {
        Some(CDataTypes::UnsignedChar)
    } else if s == "short"@ {
        Some(CDataTypes::Short)
    } else if s == "unsigned short"@ {
        Some(CDataTypes::UnsignedShort)
    } else if s == "int"@ {
        Some(CDataTypes::Int)
    } else if s == "signed int"@ {
        Some(CDataTypes::Int)
    } else if s == "unsigned int"@ {
        Some(CDataTypes::UnsignedInt)
    } else if s == "long"@ {
        Some(CDataTypes::Long)
    } else if s == "unsigned long"@ {
        Some(CDataTypes::UnsignedLong)
    } else if s == "long long"@ {
        Some(CDataTypes::LongLong)
    } else if s == "unsigned long long"@ {
        Some(CDataTypes::UnsignedLongLong)
    } else if s == "float"@ {
        Some(CDataTypes::Float)
    } else if s == "double"@ {
        Some(CDataTypes::Double)
    } else if s == "long double"@ {
        Some(CDataTypes::LongDouble)
    } else {
        None
    }
}

/// Position of a type in the catalog's total order; injective over the
/// catalog, and used to decide which member of a cross-type pair is lower.
pub open spec fn spec_rank(t: CDataTypes) -> int {
    match t {
        CDataTypes::Char => 0,
        CDataTypes::SignedChar => 1,
        CDataTypes::UnsignedChar => 2,
        CDataTypes::Short => 3,
        CDataTypes::UnsignedShort => 4,
        CDataTypes::Int => 5,
        CDataTypes::UnsignedInt => 6,
        CDataTypes::Long => 7,
        CDataTypes::UnsignedLong => 8,
        CDataTypes::LongLong => 9,
        CDataTypes::UnsignedLongLong => 10,
        CDataTypes::Float => 11,
        CDataTypes::Double => 12,
        CDataTypes::LongDouble => 13,
    }
}

impl CDataTypes {
    /// Look a type up by its C source text; `None` when the text names no
    /// catalog member.
    pub fn getType(dtype: &str) -> (r: Option<CDataTypes>)
        ensures
            r == spec_type_of_text(dtype@),
    {
        if str_eq(dtype, "char") {
            Some(CDataTypes::Char)
        } else if str_eq(dtype, "signed char") {
            Some(CDataTypes::SignedChar)
        } else if str_eq(dtype, "unsigned char") {
            Some(CDataTypes::UnsignedChar)
        } else if str_eq(dtype, "short") {
            Some(CDataTypes::Short)
        } else if str_eq(dtype, "unsigned short") {
            Some(CDataTypes::UnsignedShort)
        } else if str_eq(dtype, "int") {
            Some(CDataTypes::Int)
        } else if str_eq(dtype, "signed int") {
            Some(CDataTypes::Int)
        } else if str_eq(dtype, "unsigned int") {
            Some(CDataTypes::UnsignedInt)
        } else if str_eq(dtype, "long") {
            Some(CDataTypes::Long)
        } else if str_eq(dtype, "unsigned long") {
            Some(CDataTypes::UnsignedLong)
        } else if str_eq(dtype, "long long") {
            Some(CDataTypes::LongLong)
        } else if str_eq(dtype, "unsigned long long") {
            Some(CDataTypes::UnsignedLongLong)
        } else if str_eq(dtype, "float") {
            Some(CDataTypes::Float)
        } else if str_eq(dtype, "double") {
            Some(CDataTypes::Double)
        } else if str_eq(dtype, "long double") {
            Some(CDataTypes::LongDouble)
        } else {
            None
        }
    }

    /// Inclusive `(min, max)` range of a supported type.
    pub fn getRange(&self) -> (r: (i64, i64))
        requires
            is_supported(*self),
        ensures
            r.0 as int == spec_min(*self),
            r.1 as int == spec_max(*self),
            r.0 <= r.1,
    {
        match self {
            CDataTypes::Char => (0, 255),
            CDataTypes::SignedChar => (-128, 127),
            CDataTypes::UnsignedChar => (0, 255),
            CDataTypes::Short => (-32768, 32767),
            CDataTypes::UnsignedShort => (0, 65535),
            CDataTypes::Int => (-2147483648, 2147483647),
            CDataTypes::UnsignedInt => (0, 4294967295),
            _ => vstd::pervasive::unreached(),
        }
    }

    /// C source text of this type's name.
    pub fn render(&self) -> (r: String)
        ensures
            r@ == spec_type_text(*self),
    {
        match self {
            CDataTypes::Char => String::from_str("char"),
            CDataTypes::SignedChar => String::from_str("signed char"),
            CDataTypes::UnsignedChar => String::from_str("unsigned char"),
            CDataTypes::Short => String::from_str("short"),
            CDataTypes::UnsignedShort => String::from_str("unsigned short"),
            CDataTypes::Int => String::from_str("int"),
            CDataTypes::UnsignedInt => String::from_str("unsigned int"),
            CDataTypes::Long => String::from_str("long"),
            CDataTypes::UnsignedLong => String::from_str("unsigned long"),
            CDataTypes::LongLong => String::from_str("long long"),
            CDataTypes::UnsignedLongLong => String::from_str("unsigned long long"),
            CDataTypes::Float => String::from_str("float"),
            CDataTypes::Double => String::from_str("double"),
            CDataTypes::LongDouble => String::from_str("long double"),
        }
    }

    /// Rank of this type in the catalog's total order.
    pub fn rank(&self) -> (r: u8)
        ensures
            r as int == spec_rank(*self),
    {
        match self {
            CDataTypes::Char => 0,
            CDataTypes::SignedChar => 1,
            CDataTypes::UnsignedChar => 2,
            CDataTypes::Short => 3,
            CDataTypes::UnsignedShort => 4,
            CDataTypes::Int => 5,
            CDataTypes::UnsignedInt => 6,
            CDataTypes::Long => 7,
            CDataTypes::UnsignedLong => 8,
            CDataTypes::LongLong => 9,
            CDataTypes::UnsignedLongLong => 10,
            CDataTypes::Float => 11,
            CDataTypes::Double => 12,
            CDataTypes::LongDouble => 13,
        }
    }

    /// The midpoint of a supported type's range, computed with shifts so
    /// that no intermediate sum can leave the representable range.
    pub fn midpoint(&self) -> (m: i64)
        requires
            is_supported(*self),
        ensures
            m as int == spec_midpoint(*self),
    {
        let (lo, hi) = self.getRange();
        proof {
            assert(-4611686018427387904i64 <= (lo >> 1) && (lo >> 1) <= 4611686018427387903i64)
                by (bit_vector);
            assert(-4611686018427387904i64 <= (hi >> 1) && (hi >> 1) <= 4611686018427387903i64)
                by (bit_vector);
            assert(0i64 <= (lo & 1) && (lo & 1) <= 1i64) by (bit_vector);
            assert(0i64 <= (hi & 1) && (hi & 1) <= 1i64) by (bit_vector);
        }
        let a: i64 = lo >> 1;
        let b: i64 = hi >> 1;
        let c: i64 = (lo & 1) + (hi & 1);
        proof {
            assert((0i64 <= c && c <= 2i64) ==> (0i64 <= (c >> 1) && (c >> 1) <= 1i64))
                by (bit_vector);
        }
        let d: i64 = c >> 1;
        let m: i64 = a + b + d;
        proof {
            let t = *self;
            assert((lo == 0i64 && hi == 255i64) ==> (lo >> 1) + (hi >> 1) + ((((lo & 1) + (hi & 1)) as i64) >> 1) == 127i64) by (bit_vector);
            assert((lo == -128i64 && hi == 127i64) ==> (lo >> 1) + (hi >> 1) + ((((lo & 1) + (hi & 1)) as i64) >> 1) == -1i64) by (bit_vector);
            assert((lo == -32768i64 && hi == 32767i64) ==> (lo >> 1) + (hi >> 1) + ((((lo & 1) + (hi & 1)) as i64) >> 1) == -1i64) by (bit_vector);
            assert((lo == 0i64 && hi == 65535i64) ==> (lo >> 1) + (hi >> 1) + ((((lo & 1) + (hi & 1)) as i64) >> 1) == 32767i64) by (bit_vector);
            assert((lo == -2147483648i64 && hi == 2147483647i64) ==> (lo >> 1) + (hi >> 1) + ((((lo & 1) + (hi & 1)) as i64) >> 1) == -1i64) by (bit_vector);
            assert((lo == 0i64 && hi == 4294967295i64) ==> (lo >> 1) + (hi >> 1) + ((((lo & 1) + (hi & 1)) as i64) >> 1) == 2147483647i64) by (bit_vector);
            match t {
                CDataTypes::Char => {
                    assert(spec_midpoint(t) == 127);
                },
                CDataTypes::SignedChar => {
                    assert(spec_midpoint(t) == -1);
                },
                CDataTypes::UnsignedChar => {
                    assert(spec_midpoint(t) == 127);
                },
                CDataTypes::Short => {
                    assert(spec_midpoint(t) == -1);
                },
                CDataTypes::UnsignedShort => {
                    assert(spec_midpoint(t) == 32767);
                },
                CDataTypes::Int => {
                    assert(spec_midpoint(t) == -1);
                },
                CDataTypes::UnsignedInt => {
                    assert(spec_midpoint(t) == 2147483647);
                },
                _ => {},
            }
        }
        m
    }
}

/// A value `x` lies in the inclusive interval `[lo, hi]`.
pub open spec fn in_interval(x: int, lo: int, hi: int) -> bool {
    lo <= x && x <= hi
}

/// Range sanity of the catalog: every supported type's minimum is at most
/// its maximum, the midpoint lies inside the range, and the whole range
/// fits comfortably inside 64 bits.
pub proof fn lemma_range_midpoint()
    ensures
        forall|t: CDataTypes| #[trigger]
            is_supported(t) ==> spec_min(t) <= spec_max(t) && spec_min(t) <= spec_midpoint(t)
                && spec_midpoint(t) <= spec_max(t) && -2147483648 <= spec_min(t) && spec_max(t)
                <= 4294967295,
{
    assert forall|t: CDataTypes| #[trigger]
        is_supported(t) implies spec_min(t) <= spec_max(t) && spec_min(t) <= spec_midpoint(t)
        && spec_midpoint(t) <= spec_max(t) && -2147483648 <= spec_min(t) && spec_max(t)
        <= 4294967295 by {
        match t {
            CDataTypes::Char => {
                assert(spec_midpoint(t) == 127);
            },
            CDataTypes::SignedChar => {
                assert(spec_midpoint(t) == -1);
            },
            CDataTypes::UnsignedChar => {
                assert(spec_midpoint(t) == 127);
            },
            CDataTypes::Short => {
                assert(spec_midpoint(t) == -1);
            },
            CDataTypes::UnsignedShort => {
                assert(spec_midpoint(t) == 32767);
            },
            CDataTypes::Int => {
                assert(spec_midpoint(t) == -1);
            },
            CDataTypes::UnsignedInt => {
                assert(spec_midpoint(t) == 2147483647);
            },
            _ => {},
        }
    }
}

/// The two boundary sub-intervals around a supported type's midpoint,
/// `[M-3, M-1]` and `[M+1, M+3]`, are disjoint and both lie inside the
/// type's range whenever they fit, that is whenever `min <= M-3` and
/// `M+3 <= max`.
pub proof fn lemma_boundary_intervals(t: CDataTypes)
    requires
        is_supported(t),
        spec_min(t) <= spec_midpoint(t) - 3,
        spec_midpoint(t) + 3 <= spec_max(t),
    ensures
        forall|x: int| #[trigger]
            in_interval(x, spec_midpoint(t) - 3, spec_midpoint(t) - 1) ==> !in_interval(
                x,
                spec_midpoint(t) + 1,
                spec_midpoint(t) + 3,
            ),
        forall|x: int| #[trigger]
            in_interval(x, spec_midpoint(t) - 3, spec_midpoint(t) - 1) ==> in_interval(
                x,
                spec_min(t),
                spec_max(t),
            ),
        forall|x: int| #[trigger]
            in_interval(x, spec_midpoint(t) + 1, spec_midpoint(t) + 3) ==> in_interval(
                x,
                spec_min(t),
                spec_max(t),
            ),
{
}


/// The catalog texts of the supported types parse back to those types.
pub proof fn lemma_type_name_facts()
    ensures
        spec_type_of_text("char"@) == Some(CDataTypes::Char),
        spec_type_of_text("signed char"@) == Some(CDataTypes::SignedChar),
        spec_type_of_text("unsigned char"@) == Some(CDataTypes::UnsignedChar),
        spec_type_of_text("short"@) == Some(CDataTypes::Short),
        spec_type_of_text("unsigned short"@) == Some(CDataTypes::UnsignedShort),
        spec_type_of_text("int"@) == Some(CDataTypes::Int),
        spec_type_of_text("signed int"@) == Some(CDataTypes::Int),
        spec_type_of_text("unsigned int"@) == Some(CDataTypes::UnsignedInt),
{
    broadcast use vstd::string::group_string_axioms;

    reveal_strlit("char");
    reveal_strlit("signed char");
    reveal_strlit("unsigned char");
    reveal_strlit("short");
    reveal_strlit("unsigned short");
    reveal_strlit("int");
    reveal_strlit("signed int");
    reveal_strlit("unsigned int");
    assert("char"@.len() == 4);
    assert("signed char"@.len() == 11);
    assert("unsigned char"@.len() == 13);
    assert("short"@.len() == 5);
    assert("unsigned short"@.len() == 14);
    assert("int"@.len() == 3);
    assert("signed int"@.len() == 10);
    assert("unsigned int"@.len() == 12);
}

} // verus!
