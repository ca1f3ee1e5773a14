//! Roles a domain owner defines and assigns to end users.
use vstd::prelude::*;
use vstd::utf8::encode_utf8;
use crate::app_error::AppError;
use crate::text::{chars_of, concat3, to_lowercase, trim, trim_ws, unicode_lowercase};

verus! {

/// A role defined for a domain.
#[derive(Debug, Clone)]
pub struct DomainRole {
    pub id: u128,
    pub domain_id: u128,
    pub name: String,
    pub created_at: Option<i128>,
}

/// The characters a role name may continue with.
pub open spec fn role_char(c: char) -> bool {
    ('a' <= c && c <= 'z') || ('0' <= c && c <= '9') || c == '-'
}

/// The role name rules: 1 to 50 bytes, a lowercase ASCII letter first, then
/// lowercase ASCII letters, digits or hyphens.
pub open spec fn role_name_valid(name: Seq<char>) -> bool {
    &&& name.len() > 0
    &&& encode_utf8(name).len() <= 50
    &&& 'a' <= name[0] && name[0] <= 'z'
    &&& forall|i: int| 1 <= i < name.len() ==> role_char(#[trigger] name[i])
}

/// Validate role name: lowercase alphanumeric with hyphens, start with letter, max 50 chars
pub fn is_valid_role_name(name: &str) -> (r: bool)
    ensures
        r == role_name_valid(name@),
{
    if name.is_empty() || name.as_bytes().len() > 50 {
        return false;
    }
    let v: Vec<char> = chars_of(name);
    // First character must be a lowercase letter
    let first: char = v[0];
    if !('a' <= first && first <= 'z') {
        return false;
    }
    // Rest must be lowercase letters, digits, or hyphens
    let mut i: usize = 1;
    while i < v.len()
        invariant
            v@ == name@,
            1 <= i <= v@.len(),
            forall|k: int| 1 <= k < i ==> role_char(#[trigger] name@[k]),
        decreases v@.len() - i,
    {
        let c: char = v[i];
        if !(('a' <= c && c <= 'z') || ('0' <= c && c <= '9') || c == '-') {
            return false;
        }
        i = i + 1;
    }
    true
}

/// The form a new role name is stored in: trimmed, then lowercased.
pub open spec fn normalized_role_name(name: Seq<char>) -> Seq<char> {
    unicode_lowercase(trim_ws(name))
}

/// The message given for a role name that breaks the rules.
pub open spec fn role_name_message() -> Seq<char> {
    "Role name must be lowercase alphanumeric with hyphens, start with a letter, max 50 chars"@
}

/// Create a new role for a domain: the name is normalized and must follow the
/// rules, and the domain must not have the role yet (`exists` reports whether it
/// has a role of the normalized name).
pub fn check_new_role(name: &str, exists: bool) -> (r: Result<String, AppError>)
    ensures
        !role_name_valid(normalized_role_name(name@)) ==> (r matches Err(AppError::InvalidInput(m))
            && m@ == role_name_message()),
        role_name_valid(normalized_role_name(name@)) && exists ==> (r matches Err(AppError::InvalidInput(m))
            && m@ == "Role already exists"@),
        role_name_valid(normalized_role_name(name@)) && !exists ==> (r matches Ok(n) && n@
            == normalized_role_name(name@)),
{
    let normalized: String = normalize_role_name(name);
    if !is_valid_role_name(normalized.as_str()) {
        return Err(AppError::InvalidInput(
            "Role name must be lowercase alphanumeric with hyphens, start with a letter, max 50 chars".to_owned(),
        ));
    }
    if exists {
        return Err(AppError::InvalidInput("Role already exists".to_owned()));
    }
    Ok(normalized)
}

/// The normalized form of a role name.
pub fn normalize_role_name(name: &str) -> (r: String)
    ensures
        r@ == normalized_role_name(name@),
{
    let t: String = trim(name);
    to_lowercase(t.as_str())
}

/// Delete a role: it must exist.
pub fn check_role_exists(exists: bool) -> (r: Result<(), AppError>)
    ensures
        exists ==> r is Ok,
        !exists ==> r == Err::<(), AppError>(AppError::NotFound),
{
    if !exists {
        return Err(AppError::NotFound);
    }
    Ok(())
}

/// The message given when assigning a role the domain does not have.
pub open spec fn missing_role_message(role_name: Seq<char>) -> Seq<char> {
    "Role '"@ + role_name + "' does not exist"@
}

/// A role can be assigned only when the domain has it.
pub fn check_assignable_role(role_name: &str, exists: bool) -> (r: Result<(), AppError>)
    ensures
        exists ==> r is Ok,
        !exists ==> (r matches Err(AppError::InvalidInput(m)) && m@ == missing_role_message(role_name@)),
{
    if !exists {
        return Err(AppError::InvalidInput(concat3("Role '", role_name, "' does not exist")));
    }
    Ok(())
}

/// Set roles for a user: every role must exist in the domain; the first one that
/// does not is reported. `exists[i]` tells whether the domain has `roles[i]`.
pub fn check_assignable_roles(roles: &Vec<String>, exists: &Vec<bool>) -> (r: Result<(), AppError>)
    requires
        roles@.len() == exists@.len(),
    ensures
        (forall|i: int| 0 <= i < roles@.len() ==> #[trigger] exists@[i]) ==> r is Ok,
        forall|i: int|
            0 <= i < roles@.len() && !#[trigger] exists@[i] && (forall|k: int| 0 <= k < i ==> exists@[k])
                ==> (r matches Err(AppError::InvalidInput(m)) && m@ == missing_role_message(roles@[i]@)),
{
    let mut i: usize = 0;
    while i < roles.len()
        invariant
            roles@.len() == exists@.len(),
            i <= roles@.len(),
            forall|k: int| 0 <= k < i ==> exists@[k],
        decreases roles@.len() - i,
    {
        match check_assignable_role(roles[i].as_str(), exists[i]) {
            Ok(()) => {},
            Err(e) => return Err(e),
        }
        i = i + 1;
    }
    Ok(())
}

} // verus!
