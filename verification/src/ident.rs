//! Identifier and name checks: string equality, the storage-identifier
//! grammar, folder names.

use vstd::prelude::*;
use vstd::string::StrSliceExecFns;

verus! {

/// Compares two string slices character by character.
pub fn str_eq(a: &str, b: &str) -> (r: bool)
    ensures
        r == (a@ == b@),
{
    let na = a.unicode_len();
    let nb = b.unicode_len();
    if na != nb {
        assert(a@ != b@) by {
            assert(a@.len() != b@.len());
        }
        return false;
    }
    let mut i: usize = 0;
    while i < na
        invariant
            na == a@.len(),
            na == b@.len(),
            0 <= i <= na,
            forall|j: int| 0 <= j < i ==> a@[j] == b@[j],
        decreases na - i,
    {
        if a.get_char(i) != b.get_char(i) {
            return false;
        }
        i += 1;
    }
    proof {
        assert(a@ =~= b@);
    }
    true
}

/// The characters that a folder name may not contain.
pub open spec fn folder_name_char_ok(c: char) -> bool {
    c != '/' && c != '\\' && c != ':' && c != '*' && c != '?' && c != '"' && c != '<' && c != '>'
        && c != '|'
}

/// A folder name is acceptable when it is non-empty and avoids the special
/// characters that file systems refuse.
pub open spec fn valid_folder_name(s: Seq<char>) -> bool {
    s.len() > 0 && forall|i: int| 0 <= i < s.len() ==> folder_name_char_ok(s[i])
}

pub fn is_valid_folder_name(name: &str) -> (r: bool)
    ensures
        r == valid_folder_name(name@),
{
    let n = name.unicode_len();
    if n == 0 {
        return false;
    }
    let mut i: usize = 0;
    while i < n
        invariant
            n == name@.len(),
            0 <= i <= n,
            forall|j: int| 0 <= j < i ==> folder_name_char_ok(name@[j]),
        decreases n - i,
    {
        let c = name.get_char(i);
        if c == '/' || c == '\\' || c == ':' || c == '*' || c == '?' || c == '"' || c == '<'
            || c == '>' || c == '|' {
            return false;
        }
        i += 1;
    }
    true
}


/// A character that may open a storage identifier: a letter or an
/// underscore.
pub open spec fn ident_start_char(c: char) -> bool {
    ('a' as u32 <= c as u32 && c as u32 <= 'z' as u32) || ('A' as u32 <= c as u32 && c as u32
        <= 'Z' as u32) || c == '_'
}

/// A character that may continue a storage identifier: a letter, a digit or
/// an underscore.
pub open spec fn ident_char(c: char) -> bool {
    ident_start_char(c) || ('0' as u32 <= c as u32 && c as u32 <= '9' as u32)
}

/// The storage-identifier grammar: opens with a letter or underscore, goes
/// on with letters, digits and underscores, and holds at most 63
/// characters.
pub open spec fn valid_postgres_name(s: Seq<char>) -> bool {
    1 <= s.len() <= 63 && ident_start_char(s[0]) && (forall|i: int|
        1 <= i < s.len() ==> ident_char(s[i]))
}

fn is_ident_start_char(c: char) -> (r: bool)
    ensures
        r == ident_start_char(c),
{
    let u = c as u32;
    (97 <= u && u <= 122) || (65 <= u && u <= 90) || c == '_'
}

fn is_ident_char(c: char) -> (r: bool)
    ensures
        r == ident_char(c),
{
    let u = c as u32;
    is_ident_start_char(c) || (48 <= u && u <= 57)
}

pub fn is_valid_postgres_db_name(name: &str) -> (r: bool)
    ensures
        r == valid_postgres_name(name@),
{
    let n = name.unicode_len();
    if n == 0 || n > 63 {
        return false;
    }
    if !is_ident_start_char(name.get_char(0)) {
        return false;
    }
    let mut i: usize = 1;
    while i < n
        invariant
            n == name@.len(),
            1 <= i <= n,
            forall|j: int| 1 <= j < i ==> ident_char(name@[j]),
        decreases n - i,
    {
        if !is_ident_char(name.get_char(i)) {
            return false;
        }
        i += 1;
    }
    true
}

/// The reserved words: identifiers that generated code or the storage
/// engine claims for itself, so user schemas may not use them.
pub open spec fn is_reserved(w: Seq<char>) -> bool {
    w == "abstract"@
        || w == "arguments"@
        || w == "await"@
        || w == "boolean"@
        || w == "break"@
        || w == "byte"@
        || w == "case"@
        || w == "catch"@
        || w == "char"@
        || w == "class"@
        || w == "const"@
        || w == "continue"@
        || w == "debugger"@
        || w == "default"@
        || w == "delete"@
        || w == "do"@
        || w == "double"@
        || w == "else"@
        || w == "enum"@
        || w == "eval"@
        || w == "export"@
        || w == "extends"@
        || w == "false"@
        || w == "finally"@
        || w == "float"@
        || w == "for"@
        || w == "function"@
        || w == "goto"@
        || w == "if"@
        || w == "implements"@
        || w == "import"@
        || w == "in"@
        || w == "instanceof"@
        || w == "int"@
        || w == "interface"@
        || w == "let"@
        || w == "long"@
        || w == "native"@
        || w == "new"@
        || w == "null"@
        || w == "package"@
        || w == "private"@
        || w == "protected"@
        || w == "public"@
        || w == "return"@
        || w == "short"@
        || w == "static"@
        || w == "super"@
        || w == "switch"@
        || w == "synchronized"@
        || w == "this"@
        || w == "throw"@
        || w == "throws"@
        || w == "transient"@
        || w == "true"@
        || w == "try"@
        || w == "typeof"@
        || w == "var"@
        || w == "void"@
        || w == "volatile"@
        || w == "while"@
        || w == "with"@
        || w == "yield"@
        || w == "and"@
        || w == "as"@
        || w == "begin"@
        || w == "constraint"@
        || w == "done"@
        || w == "downto"@
        || w == "exception"@
        || w == "fun"@
        || w == "functor"@
        || w == "inherit"@
        || w == "lazy"@
        || w == "match"@
        || w == "method"@
        || w == "mod"@
        || w == "module"@
        || w == "mutable"@
        || w == "nonrec"@
        || w == "object"@
        || w == "of"@
        || w == "or"@
        || w == "rec"@
        || w == "sig"@
        || w == "struct"@
        || w == "to"@
        || w == "type"@
        || w == "val"@
        || w == "virtual"@
        || w == "when"@
}

/// Decides whether one word is reserved.
pub fn is_reserved_word(w: &str) -> (r: bool)
    ensures
        r == is_reserved(w@),
{
    str_eq(w, "abstract")
        || str_eq(w, "arguments")
        || str_eq(w, "await")
        || str_eq(w, "boolean")
        || str_eq(w, "break")
        || str_eq(w, "byte")
        || str_eq(w, "case")
        || str_eq(w, "catch")
        || str_eq(w, "char")
        || str_eq(w, "class")
        || str_eq(w, "const")
        || str_eq(w, "continue")
        || str_eq(w, "debugger")
        || str_eq(w, "default")
        || str_eq(w, "delete")
        || str_eq(w, "do")
        || str_eq(w, "double")
        || str_eq(w, "else")
        || str_eq(w, "enum")
        || str_eq(w, "eval")
        || str_eq(w, "export")
        || str_eq(w, "extends")
        || str_eq(w, "false")
        || str_eq(w, "finally")
        || str_eq(w, "float")
        || str_eq(w, "for")
        || str_eq(w, "function")
        || str_eq(w, "goto")
        || str_eq(w, "if")
        || str_eq(w, "implements")
        || str_eq(w, "import")
        || str_eq(w, "in")
        || str_eq(w, "instanceof")
        || str_eq(w, "int")
        || str_eq(w, "interface")
        || str_eq(w, "let")
        || str_eq(w, "long")
        || str_eq(w, "native")
        || str_eq(w, "new")
        || str_eq(w, "null")
        || str_eq(w, "package")
        || str_eq(w, "private")
        || str_eq(w, "protected")
        || str_eq(w, "public")
        || str_eq(w, "return")
        || str_eq(w, "short")
        || str_eq(w, "static")
        || str_eq(w, "super")
        || str_eq(w, "switch")
        || str_eq(w, "synchronized")
        || str_eq(w, "this")
        || str_eq(w, "throw")
        || str_eq(w, "throws")
        || str_eq(w, "transient")
        || str_eq(w, "true")
        || str_eq(w, "try")
        || str_eq(w, "typeof")
        || str_eq(w, "var")
        || str_eq(w, "void")
        || str_eq(w, "volatile")
        || str_eq(w, "while")
        || str_eq(w, "with")
        || str_eq(w, "yield")
        || str_eq(w, "and")
        || str_eq(w, "as")
        || str_eq(w, "begin")
        || str_eq(w, "constraint")
        || str_eq(w, "done")
        || str_eq(w, "downto")
        || str_eq(w, "exception")
        || str_eq(w, "fun")
        || str_eq(w, "functor")
        || str_eq(w, "inherit")
        || str_eq(w, "lazy")
        || str_eq(w, "match")
        || str_eq(w, "method")
        || str_eq(w, "mod")
        || str_eq(w, "module")
        || str_eq(w, "mutable")
        || str_eq(w, "nonrec")
        || str_eq(w, "object")
        || str_eq(w, "of")
        || str_eq(w, "or")
        || str_eq(w, "rec")
        || str_eq(w, "sig")
        || str_eq(w, "struct")
        || str_eq(w, "to")
        || str_eq(w, "type")
        || str_eq(w, "val")
        || str_eq(w, "virtual")
        || str_eq(w, "when")
}

/// The enum type names that the framework itself declares; a user enum may
/// not take one of them.
pub open spec fn is_reserved_enum_name(w: Seq<char>) -> bool {
    w == "ContractType"@ || w == "EntityType"@
}

/// Decides whether one enum type name is framework-internal.
pub fn is_reserved_enum_name_word(w: &str) -> (r: bool)
    ensures
        r == is_reserved_enum_name(w@),
{
    str_eq(w, "ContractType") || str_eq(w, "EntityType")
}

} // verus!
