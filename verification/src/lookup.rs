//! Locating the main window among the open windows.
//!
//! The shell's window may come up under different labels depending on how
//! it was configured, so the lookup probes candidate labels in order:
//! `"main"` first, then `"pluely"`, and as a last resort the first open
//! window of any label. Only an empty window set is a failure.

use vstd::prelude::*;

use crate::errors::WindowError;

verus! {

/// Some label in `labels` reads `name`.
pub open spec fn contains_label(labels: Seq<String>, name: Seq<char>) -> bool {
    exists|i: int| 0 <= i < labels.len() && labels[i]@ == name
}

/// `i` is the position of the first label in `labels` that reads `name`.
pub open spec fn first_label_match(labels: Seq<String>, name: Seq<char>, i: int) -> bool {
    &&& 0 <= i < labels.len()
    &&& labels[i]@ == name
    &&& forall|j: int| 0 <= j < i ==> labels[j]@ != name
}

/// Position of the first label equal to `name`, if any.
fn find_label(labels: &Vec<String>, name: &String) -> (r: Option<usize>)
    ensures
        r matches Some(i) ==> first_label_match(labels@, name@, i as int),
        r is None ==> !contains_label(labels@, name@),
{
    let mut i: usize = 0;
    while i < labels.len()
        invariant
            i <= labels.len(),
            forall|j: int| 0 <= j < i ==> labels@[j]@ != name@,
        decreases labels.len() - i,
    {
        if labels[i] == *name {
            return Some(i);
        }
        i = i + 1;
    }
    None
}

/// Picks the window to control, given the labels of the open windows in
/// their enumeration order: the first window labeled `"main"` if one
/// exists, else the first labeled `"pluely"`, else the first window of
/// all, and `WindowNotFound` only when no window is open.
pub fn pick_window_label(labels: &Vec<String>) -> (r: Result<usize, WindowError>)
    ensures
        r matches Ok(i) ==> i < labels@.len(),
        contains_label(labels@, "main"@) ==> (r matches Ok(i) && first_label_match(
            labels@,
            "main"@,
            i as int,
        )),
        !contains_label(labels@, "main"@) && contains_label(labels@, "pluely"@) ==> (r matches Ok(i)
            && first_label_match(labels@, "pluely"@, i as int)),
        !contains_label(labels@, "main"@) && !contains_label(labels@, "pluely"@) && labels@.len()
            > 0 ==> r == Ok::<usize, WindowError>(0),
        labels@.len() == 0 ==> r == Err::<usize, WindowError>(WindowError::WindowNotFound),
{
    let main_label = String::from_str("main");
    if let Some(i) = find_label(labels, &main_label) {
        return Ok(i);
    }
    let fallback_label = String::from_str("pluely");
    if let Some(i) = find_label(labels, &fallback_label) {
        return Ok(i);
    }
    if labels.len() > 0 {
        Ok(0)
    } else {
        Err(WindowError::WindowNotFound)
    }
}

} // verus!
