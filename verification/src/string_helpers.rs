use vstd::prelude::*;
use vstd::string::StrSliceExecFns;

verus! {

/// The first `num_visible_chars` characters of a text; all of a shorter text.
pub open spec fn spec_limit_str_right(s: Seq<char>, num_visible_chars: nat) -> Seq<char> {
    if num_visible_chars < s.len() {
        s.take(num_visible_chars as int)
    } else {
        s
    }
}

/// A text without its first `num_visible_chars` characters; a text that has no more
/// than that stays whole.
pub open spec fn spec_cut_str_left(s: Seq<char>, num_visible_chars: nat) -> Seq<char> {
    if num_visible_chars < s.len() {
        s.skip(num_visible_chars as int)
    } else {
        s
    }
}

/// Cuts a text off on the right, so that no more than `num_visible_chars` characters
/// are left.
pub fn limit_str_right(s: &str, num_visible_chars: usize) -> (limited: &str)
    ensures
        limited@ == spec_limit_str_right(s@, num_visible_chars as nat),
{
    if num_visible_chars < s.unicode_len() {
        let limited = s.substring_char(0, num_visible_chars);
        assert(limited@ =~= s@.take(num_visible_chars as int));
        limited
    } else {
        s
    }
}

/// Cuts the first `num_visible_chars` characters off a text that has more than that.
pub fn cut_str_left(s: &str, num_visible_chars: usize) -> (cut: &str)
    ensures
        cut@ == spec_cut_str_left(s@, num_visible_chars as nat),
{
    let len = s.unicode_len();
    if num_visible_chars < len {
        let cut = s.substring_char(num_visible_chars, len);
        assert(cut@ =~= s@.skip(num_visible_chars as int));
        cut
    } else {
        s
    }
}

} // verus!
