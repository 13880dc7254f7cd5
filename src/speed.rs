use vstd::prelude::*;
use vstd::string::{StrSliceExecFns, StringExecFns};

verus! {

/// `text` cut to at most `max_len` characters, the last three of which
/// are dots when it had to be cut.
pub open spec fn ellipsized(text: Seq<char>, max_len: nat) -> Seq<char> {
    if text.len() > max_len {
        text.take(max_len - 3) + seq!['.', '.', '.']
    } else {
        text
    }
}

/// Shortens `text` to fit a column of `max_len` characters.
pub fn ellipsize(text: &str, max_len: usize) -> (r: String)
    requires
        text@.len() > max_len ==> max_len >= 3,
    ensures
        r@ == ellipsized(text@, max_len as nat),
        r@.len() <= max_len || r@ == text@,
{
    let n = text.unicode_len();
    if n > max_len {
        let mut r = String::from_str(text.substring_char(0, max_len - 3));
        r.append("...");
        proof {
            reveal_strlit("...");
        }
        assert(r@ =~= ellipsized(text@, max_len as nat));
        r
    } else {
        String::from_str(text)
    }
}

/// Shortening a text that was already shortened for the same column changes
/// nothing more.
pub proof fn lemma_ellipsize_twice(text: Seq<char>, max_len: nat)
    requires
        text.len() > max_len ==> max_len >= 3,
    ensures
        ellipsized(ellipsized(text, max_len), max_len) == ellipsized(text, max_len),
        ellipsized(text, max_len).len() <= max_len || ellipsized(text, max_len) == text,
{
}

} // verus!
