//! Form-field validation: required fields, and the login form's email
//! shape. An email is accepted when it reads as one or more non-space
//! characters, an at sign, one or more non-space characters, a dot, and a
//! two- or three-letter lowercase ending — the whole string, nothing more.

use vstd::prelude::*;

verus! {

/// Is `c` a lowercase ASCII letter?
pub open spec fn is_lower(c: char) -> bool {
    'a' <= c && c <= 'z'
}

/// Does `s` read as `[^ ]+ '@' [^ ]+ '.'` followed by exactly `tl`
/// lowercase letters?
pub open spec fn email_shape(s: Seq<char>, tl: int) -> bool {
    let d = s.len() - tl - 1;
    &&& s.len() >= tl + 4
    &&& s[d] == '.'
    &&& forall|k: int| d < k < s.len() ==> is_lower(s[k])
    &&& forall|k: int| 0 <= k < d ==> s[k] != ' '
    &&& exists|a: int| 1 <= a <= d - 2 && s[a] == '@'
}

/// The login form's email shape: the ending has two or three letters.
pub open spec fn is_valid_email(s: Seq<char>) -> bool {
    email_shape(s, 2) || email_shape(s, 3)
}

/// A required field holds at least one character.
pub fn validate_input(field: String) -> (r: bool)
    ensures
        r == (field@.len() > 0),
{
    field.as_str().unicode_len() > 0
}

/// A name is required.
pub fn validate_name(field: String) -> (r: bool)
    ensures
        r == (field@.len() > 0),
{
    field.as_str().unicode_len() > 0
}

/// A password is required.
pub fn validate_password(field: String) -> (r: bool)
    ensures
        r == (field@.len() > 0),
{
    field.as_str().unicode_len() > 0
}

/// Check one ending length of the email shape.
fn email_shape_check(s: &str, tl: usize) -> (r: bool)
    requires
        tl == 2 || tl == 3,
    ensures
        r == email_shape(s@, tl as int),
{
    let n = s.unicode_len();
    if n < tl + 4 {
        return false;
    }
    let d = n - tl - 1;
    if s.get_char(d) != '.' {
        return false;
    }
    let mut k = d + 1;
    while k < n
        invariant
            d < k <= n,
            n == s@.len(),
            n >= tl + 4,
            d == n - tl - 1,
            forall|x: int| d < x < k ==> is_lower(s@[x]),
        decreases n - k,
    {
        let c = s.get_char(k);
        if !('a' <= c && c <= 'z') {
            return false;
        }
        k += 1;
    }
    let mut k2: usize = 0;
    while k2 < d
        invariant
            0 <= k2 <= d < n,
            n == s@.len(),
            n >= tl + 4,
            d == n - tl - 1,
            forall|x: int| d < x < n ==> is_lower(s@[x]),
            s@[d as int] == '.',
            forall|x: int| 0 <= x < k2 ==> s@[x] != ' ',
        decreases d - k2,
    {
        if s.get_char(k2) == ' ' {
            return false;
        }
        k2 += 1;
    }
    if d < 3 {
        return false;
    }
    let mut a: usize = 1;
    while a <= d - 2
        invariant
            1 <= a <= d - 1,
            3 <= d < n,
            n == s@.len(),
            n >= tl + 4,
            d == n - tl - 1,
            s@[d as int] == '.',
            forall|x: int| d < x < n ==> is_lower(s@[x]),
            forall|x: int| 0 <= x < d ==> s@[x] != ' ',
            forall|x: int| 1 <= x < a ==> s@[x] != '@',
        decreases d - a,
    {
        if s.get_char(a) == '@' {
            return true;
        }
        a += 1;
    }
    false
}

/// Validate the login form's email field.
pub fn validate_email(email: String) -> (r: bool)
    ensures
        r == is_valid_email(email@),
{
    email_shape_check(email.as_str(), 2) || email_shape_check(email.as_str(), 3)
}

} // verus!
