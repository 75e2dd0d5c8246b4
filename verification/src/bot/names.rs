use vstd::prelude::*;

use crate::codec::string::str_equal;

verus! {

/// Whether no name in the list is the given one.
pub fn username_is_unique(usernames: &Vec<String>, username: &str) -> (res: bool)
    ensures
        res == forall|i: int| 0 <= i < usernames@.len() ==> #[trigger] usernames@[i]@ != username@,
{
    let mut i: usize = 0;
    while i < usernames.len()
        invariant
            i <= usernames@.len(),
            forall|j: int| 0 <= j < i ==> #[trigger] usernames@[j]@ != username@,
        decreases usernames@.len() - i,
    {
        if str_equal(username, usernames[i].as_str()) {
            return false;
        }
        i = i + 1;
    }
    true
}

} // verus!
