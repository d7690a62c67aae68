//! Parsing canonical type display strings back into the field-type algebra,
//! and the round-trip law that ties the two together.

use vstd::prelude::*;
use vstd::string::StrSliceExecFns;
use crate::field_type::{GqlScalar, ScalarView, TypeView, UserDefinedFieldType, scalar_display, scalar_of_name, type_display};

verus! {

/// A character that may stand in a plain type name: anything but the list
/// brackets and the non-null mark.
pub open spec fn plain_name_char(c: char) -> bool {
    c != '[' && c != ']' && c != '!'
}

/// A plain type name: non-empty, without brackets or non-null marks.
pub open spec fn plain_name(s: Seq<char>) -> bool {
    s.len() > 0 && forall|i: int| 0 <= i < s.len() ==> plain_name_char(s[i])
}

/// The type a display string parses to: a trailing `!` reads as a non-null
/// wrapper, an enclosing `[...]` as a list, and a plain name as a scalar.
pub open spec fn parse_type(s: Seq<char>) -> Option<TypeView>
    decreases s.len(),
{
    if s.len() == 0 {
        None
    } else if s.last() == '!' {
        match parse_type(s.drop_last()) {
            Some(t) => Some(TypeView::NonNull(Box::new(t))),
            None => None,
        }
    } else if s[0] == '[' && s.last() == ']' {
        match parse_type(s.subrange(1, s.len() - 1)) {
            Some(t) => Some(TypeView::List(Box::new(t))),
            None => None,
        }
    } else if plain_name(s) {
        Some(TypeView::Single(scalar_of_name(s)))
    } else {
        None
    }
}

impl UserDefinedFieldType {
    /// Parses a canonical display string back into a type.
    pub fn from_display(s: &str) -> (r: Option<UserDefinedFieldType>)
        ensures
            match r {
                Option::Some(t) => parse_type(s@) == Some(t@),
                Option::None => parse_type(s@) is None,
            },
        decreases s@.len(),
    {
        let n = s.unicode_len();
        if n == 0 {
            return None;
        }
        let last = s.get_char(n - 1);
        if last == '!' {
            let prefix = s.substring_char(0, n - 1);
            proof {
                assert(prefix@ =~= s@.drop_last());
            }
            match Self::from_display(prefix) {
                Some(t) => Some(UserDefinedFieldType::NonNullType(Box::new(t))),
                None => None,
            }
        } else if s.get_char(0) == '[' && last == ']' {
            let middle = s.substring_char(1, n - 1);
            proof {
                assert(middle@ =~= s@.subrange(1, s@.len() - 1));
            }
            match Self::from_display(middle) {
                Some(t) => Some(UserDefinedFieldType::ListType(Box::new(t))),
                None => None,
            }
        } else {
            let mut i: usize = 0;
            while i < n
                invariant
                    n == s@.len(),
                    0 <= i <= n,
                    s@.len() > 0,
                    s@.last() != '!',
                    !(s@[0] == '[' && s@.last() == ']'),
                    forall|j: int| 0 <= j < i ==> plain_name_char(s@[j]),
                decreases n - i,
            {
                let c = s.get_char(i);
                if c == '[' || c == ']' || c == '!' {
                    proof {
                        assert(!plain_name_char(s@[i as int]));
                        assert(!plain_name(s@));
                    }
                    return None;
                }
                i += 1;
            }
            Some(UserDefinedFieldType::Single(GqlScalar::from_str(s)))
        }
    }
}

/// A scalar whose display name parses back to itself: built-in scalars
/// always do; a custom name must be a plain name and not shadow a built-in
/// scalar name.
pub open spec fn scalar_name_parseable(sc: ScalarView) -> bool {
    match sc {
        ScalarView::Custom(n) => plain_name(n) && scalar_of_name(n) == ScalarView::Custom(n),
        _ => true,
    }
}

/// A type whose display string parses back to itself: every custom name in
/// it is a plain, non-shadowing name.
pub open spec fn display_parseable(t: TypeView) -> bool
    decreases t,
{
    match t {
        TypeView::Single(sc) => scalar_name_parseable(sc),
        TypeView::List(inner) => display_parseable(*inner),
        TypeView::NonNull(inner) => display_parseable(*inner),
    }
}

/// The display name of a parseable scalar is a plain name, and parses back
/// to the scalar.
proof fn lemma_scalar_display_round_trip(sc: ScalarView)
    requires
        scalar_name_parseable(sc),
    ensures
        plain_name(scalar_display(sc)),
        scalar_of_name(scalar_display(sc)) == sc,
{
    reveal_strlit("ID");
    reveal_strlit("String");
    reveal_strlit("Int");
    reveal_strlit("Float");
    reveal_strlit("Boolean");
    reveal_strlit("BigInt");
    reveal_strlit("Bytes");
    assert("ID"@.len() == 2);
    assert("String"@.len() == 6);
    assert("Int"@.len() == 3);
    assert("Float"@.len() == 5);
    assert("Boolean"@.len() == 7);
    assert("BigInt"@.len() == 6);
    assert("Bytes"@.len() == 5);
    assert("BigInt"@[0] == 'B' && "String"@[0] == 'S');
    assert("BigInt"@ != "String"@);
    assert("Bytes"@[0] == 'B' && "Float"@[0] == 'F');
    assert("Bytes"@ != "Float"@);
    match sc {
        ScalarView::Id => {
            assert(plain_name("ID"@));
        },
        ScalarView::Str => {
            assert(plain_name("String"@));
        },
        ScalarView::Int => {
            assert(plain_name("Int"@));
        },
        ScalarView::Float => {
            assert(plain_name("Float"@));
        },
        ScalarView::Boolean => {
            assert(plain_name("Boolean"@));
        },
        ScalarView::BigInt => {
            assert(plain_name("BigInt"@));
        },
        ScalarView::Bytes => {
            assert(plain_name("Bytes"@));
        },
        ScalarView::Custom(n) => {},
    }
}

/// Round-trip law: for every type whose custom names are plain and do not
/// shadow a built-in scalar name, parsing the canonical display string
/// reproduces the type itself.
pub proof fn lemma_display_round_trip(t: TypeView)
    requires
        display_parseable(t),
    ensures
        parse_type(type_display(t)) == Some(t),
        type_display(t).len() > 0,
    decreases t,
{
    reveal_strlit("!");
    reveal_strlit("[");
    reveal_strlit("]");
    match t {
        TypeView::Single(sc) => {
            lemma_scalar_display_round_trip(sc);
            let d = type_display(t);
            assert(d == scalar_display(sc));
            assert(d.last() != '!');
            assert(d[0] != '[');
            assert(parse_type(d) == Some(TypeView::Single(scalar_of_name(d))));
        },
        TypeView::NonNull(inner) => {
            lemma_display_round_trip(*inner);
            let di = type_display(*inner);
            let d = type_display(t);
            assert(d == di + "!"@);
            assert(d.len() == di.len() + 1);
            assert(d.last() == '!');
            assert(d.drop_last() =~= di);
            assert(parse_type(d) == Some(TypeView::NonNull(Box::new(*inner))));
            assert(t == TypeView::NonNull(Box::new(*inner)));
        },
        TypeView::List(inner) => {
            lemma_display_round_trip(*inner);
            let di = type_display(*inner);
            let d = type_display(t);
            assert(d == "["@ + di + "]"@);
            assert(d.len() == di.len() + 2);
            assert(d.last() == ']');
            assert(d.last() != '!');
            assert(d[0] == '[');
            assert(d.subrange(1, d.len() - 1) =~= di);
            assert(parse_type(d) == Some(TypeView::List(Box::new(*inner))));
            assert(t == TypeView::List(Box::new(*inner)));
        },
    }
}

} // verus!
