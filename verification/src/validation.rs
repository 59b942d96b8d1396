//! Validation of user-entered names.

use vstd::prelude::*;
use vstd::string::StrSliceExecFns;

use crate::models::Category;
use crate::text::{all_whitespace, is_whitespace_char, whitespace_char};

verus! {

/// Validation result with an error message.
pub type ValidationResult = Result<(), &'static str>;

/// Whether some existing category already carries this name.
pub open spec fn category_name_taken(existing: Seq<Category>, name: Seq<char>) -> bool {
    exists|i: int| 0 <= i < existing.len() && existing[i].name@ == name
}

/// Validate that a session name is not blank: it must hold at least one
/// character that is not white space.
pub fn validate_session_name(name: &str) -> (r: bool)
    ensures
        r == !all_whitespace(name@),
{
    let n = name.unicode_len();
    let mut i: usize = 0;
    while i < n
        invariant
            i <= n,
            n == name@.len(),
            forall|k: int| 0 <= k < i ==> whitespace_char(name@[k]),
        decreases n - i,
    {
        let c = name.get_char(i);
        if !is_whitespace_char(c) {
            assert(!whitespace_char(name@[i as int]));
            return true;
        }
        i = i + 1;
    }
    false
}

/// Look the name up among the existing categories.
fn name_exists(name: &str, existing: &Vec<Category>) -> (r: bool)
    ensures
        r == category_name_taken(existing@, name@),
{
    let owned: String = name.to_owned();
    let mut i: usize = 0;
    while i < existing.len()
        invariant
            i <= existing@.len(),
            owned@ == name@,
            forall|k: int| 0 <= k < i ==> existing@[k].name@ != name@,
        decreases existing@.len() - i,
    {
        if existing[i].name == owned {
            assert(existing@[i as int].name@ == name@);
            return true;
        }
        i = i + 1;
    }
    false
}

/// Validate a category name for creation: it must not be blank and must
/// not collide with an existing category. `Ok` exactly when both hold;
/// otherwise the message says which check failed, the blank check first.
pub fn validate_new_category_name(name: &str, existing: &Vec<Category>) -> (r: ValidationResult)
    ensures
        r is Ok <==> (!all_whitespace(name@) && !category_name_taken(existing@, name@)),
        all_whitespace(name@) ==> (r matches Err(m) && m@ == "Category name cannot be empty"@),
        !all_whitespace(name@) && category_name_taken(existing@, name@) ==> (r matches Err(m)
            && m@ == "Category already exists"@),
{
    if !validate_session_name(name) {
        return Err("Category name cannot be empty");
    }
    if name_exists(name, existing) {
        return Err("Category already exists");
    }
    Ok(())
}

/// Validate a category name for update: as for creation, except that the
/// category may keep its current name.
pub fn validate_update_category_name(
    name: &str,
    existing: &Vec<Category>,
    current_name: &str,
) -> (r: ValidationResult)
    ensures
        r is Ok <==> (!all_whitespace(name@) && (name@ == current_name@ || !category_name_taken(
            existing@,
            name@,
        ))),
        all_whitespace(name@) ==> (r matches Err(m) && m@ == "Category name cannot be empty"@),
        !all_whitespace(name@) && name@ != current_name@ && category_name_taken(existing@, name@)
            ==> (r matches Err(m) && m@ == "Category already exists"@),
{
    if !validate_session_name(name) {
        return Err("Category name cannot be empty");
    }
    let owned: String = name.to_owned();
    let current: String = current_name.to_owned();
    let keeps_name = owned == current;
    if !keeps_name && name_exists(name, existing) {
        return Err("Category already exists");
    }
    Ok(())
}

} // verus!
