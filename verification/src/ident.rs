//! The grammar of table names that may be written into a query.
//!
//! A name is accepted when it is an ASCII letter or underscore followed by
//! ASCII letters, digits and underscores, at most [`MAX_IDENTIFIER_LEN`]
//! characters in all. Nothing else is ever placed in SQL text.

use crate::text::chars_of;
use vstd::prelude::*;

verus! {

/// The longest identifier PostgreSQL keeps without truncating it.
pub const MAX_IDENTIFIER_LEN: usize = 63;

/// `c` may begin an identifier.
pub open spec fn is_ident_start(c: char) -> bool {
    ||| 'a' <= c <= 'z'
    ||| 'A' <= c <= 'Z'
    ||| c == '_'
}

/// `c` may stand inside an identifier.
pub open spec fn is_ident_part(c: char) -> bool {
    is_ident_start(c) || '0' <= c <= '9'
}

/// `name` is an identifier of the grammar.
pub open spec fn valid_identifier(name: Seq<char>) -> bool {
    &&& 0 < name.len() <= MAX_IDENTIFIER_LEN
    &&& is_ident_start(name[0])
    &&& forall|i: int| 0 <= i < name.len() ==> is_ident_part(#[trigger] name[i])
}

fn ident_start(c: char) -> (ok: bool)
    ensures
        ok == is_ident_start(c),
{
    ('a' <= c && c <= 'z') || ('A' <= c && c <= 'Z') || c == '_'
}

fn ident_part(c: char) -> (ok: bool)
    ensures
        ok == is_ident_part(c),
{
    ident_start(c) || ('0' <= c && c <= '9')
}

/// Whether `name` is an identifier of the grammar.
pub fn is_valid_identifier(name: &str) -> (ok: bool)
    ensures
        ok == valid_identifier(name@),
{
    let chars = chars_of(name);
    if chars.len() == 0 || chars.len() > MAX_IDENTIFIER_LEN {
        return false;
    }
    if !ident_start(chars[0]) {
        return false;
    }
    let mut k: usize = 0;
    while k < chars.len()
        invariant
            k <= chars.len(),
            chars@ == name@,
            forall|i: int| 0 <= i < k ==> is_ident_part(#[trigger] chars@[i]),
        decreases chars.len() - k,
    {
        if !ident_part(chars[k]) {
            return false;
        }
        k += 1;
    }
    true
}

/// An identifier holds no quote, no separator and no white space: none of the
/// characters by which text could leave the place it was written into.
pub proof fn lemma_identifier_is_inert(name: Seq<char>, i: int)
    requires
        valid_identifier(name),
        0 <= i < name.len(),
    ensures
        name[i] != '"',
        name[i] != '\'',
        name[i] != ';',
        name[i] != ' ',
        name[i] != '\\',
        name[i] != '-',
        name[i] != '\0',
{
}

} // verus!
