//! Character-sequence rules that the URL handling rests on.

use vstd::prelude::*;

verus! {

/// The part of `s` that follows its last `/`; all of `s` where it holds none.
pub open spec fn last_segment(s: Seq<char>) -> Seq<char>
    decreases s.len(),
{
    if s.len() == 0 {
        Seq::empty()
    } else if s.last() == '/' {
        Seq::empty()
    } else {
        last_segment(s.drop_last()).push(s.last())
    }
}

/// Whether `s` splits at `start` into a head that is empty or ends in `/` and
/// a tail that holds no `/`.
pub open spec fn splits_at_last_slash(s: Seq<char>, start: int) -> bool {
    &&& 0 <= start <= s.len()
    &&& start == 0 || s[start - 1] == '/'
    &&& forall|i: int| start <= i < s.len() ==> s[i] != '/'
}

/// The tail behind the last `/` is the last segment.
pub proof fn lemma_last_segment_is_tail(s: Seq<char>, start: int)
    requires
        splits_at_last_slash(s, start),
    ensures
        last_segment(s) == s.subrange(start, s.len() as int),
    decreases s.len(),
{
    if s.len() == 0 || start == s.len() {
        assert(s.subrange(start, s.len() as int) =~= Seq::<char>::empty());
    } else {
        let front = s.drop_last();
        lemma_last_segment_is_tail(front, start);
        assert(s.subrange(start, s.len() as int) =~= front.subrange(
            start,
            front.len() as int,
        ).push(s.last()));
    }
}

/// The last segment holds no `/`, is a suffix of the text, and what stands
/// before it is empty or ends in `/`.
pub proof fn lemma_last_segment_shape(s: Seq<char>)
    ensures
        last_segment(s).len() <= s.len(),
        !last_segment(s).contains('/'),
        splits_at_last_slash(s, s.len() - last_segment(s).len()),
        last_segment(s) == s.subrange(s.len() - last_segment(s).len(), s.len() as int),
    decreases s.len(),
{
    if s.len() == 0 || s.last() == '/' {
        assert(last_segment(s) =~= s.subrange(s.len() as int, s.len() as int));
    } else {
        let front = s.drop_last();
        lemma_last_segment_shape(front);
        let start = s.len() - last_segment(s).len();
        assert(start == front.len() - last_segment(front).len());
        assert forall|i: int| start <= i < s.len() implies s[i] != '/' by {
            if i < front.len() {
                assert(front[i] == s[i]);
            }
        }
        if start > 0 {
            assert(front[start - 1] == s[start - 1]);
        }
        lemma_last_segment_is_tail(s, start);
        assert forall|i: int| 0 <= i < last_segment(s).len() implies last_segment(s)[i]
            != '/' by {
            assert(last_segment(s)[i] == s[start + i]);
        }
    }
}

/// A text that ends in a separator-free `tail` right behind a `/` has `tail`
/// as its last segment.
pub proof fn lemma_last_segment_of_join(head: Seq<char>, tail: Seq<char>)
    requires
        head.len() == 0 || head.last() == '/',
        !tail.contains('/'),
    ensures
        last_segment(head + tail) == tail,
{
    let s = head + tail;
    assert forall|i: int| head.len() <= i < s.len() implies s[i] != '/' by {
        assert(s[i] == tail[i - head.len()]);
        assert(tail.contains(tail[i - head.len()]));
    }
    if head.len() > 0 {
        assert(s[head.len() - 1] == head.last());
    }
    lemma_last_segment_is_tail(s, head.len() as int);
    assert(s.subrange(head.len() as int, s.len() as int) =~= tail);
}

/// The part of `text` that follows its last `/`, or all of it where it holds
/// none.
pub fn last_segment_of(text: &str) -> (segment: String)
    ensures
        segment@ == last_segment(text@),
{
    let len: usize = text.unicode_len();
    let mut start: usize = len;
    while start > 0 && text.get_char(start - 1) != '/'
        invariant
            start <= len,
            len == text@.len(),
            forall|i: int| start <= i < len ==> text@[i] != '/',
        decreases start,
    {
        start -= 1;
    }
    proof {
        lemma_last_segment_is_tail(text@, start as int);
    }
    String::from_str(text.substring_char(start, len))
}

/// What follows `prefix` in `text`, where `text` begins with it.
pub open spec fn spec_without_prefix(text: Seq<char>, prefix: Seq<char>) -> Option<Seq<char>> {
    if prefix.is_prefix_of(text) {
        Some(text.subrange(prefix.len() as int, text.len() as int))
    } else {
        None
    }
}

/// What follows `prefix` in `text`; nothing where `text` does not begin with
/// `prefix`.
pub fn without_prefix(text: &str, prefix: &str) -> (rest: Option<String>)
    ensures
        match rest {
            Some(tail) => spec_without_prefix(text@, prefix@) == Some(tail@),
            None => spec_without_prefix(text@, prefix@) is None,
        },
{
    let text_len: usize = text.unicode_len();
    let prefix_len: usize = prefix.unicode_len();
    if text_len < prefix_len {
        return None;
    }
    let head = String::from_str(text.substring_char(0, prefix_len));
    if head == String::from_str(prefix) {
        assert(prefix@ =~= text@.subrange(0, prefix_len as int));
        Some(String::from_str(text.substring_char(prefix_len, text_len)))
    } else {
        assert(prefix@.is_prefix_of(text@) ==> prefix@ =~= text@.subrange(0, prefix_len as int));
        None
    }
}

/// Whether `list` holds a string equal to `wanted`.
pub open spec fn holds_text(list: Seq<Seq<char>>, wanted: Seq<char>) -> bool {
    exists|i: int| 0 <= i < list.len() && list[i] == wanted
}

/// The character sequences of a list of strings, in order.
pub open spec fn texts(list: Seq<String>) -> Seq<Seq<char>> {
    Seq::new(list.len(), |i: int| list[i]@)
}

/// Whether `list` holds a string equal to `wanted`.
pub fn contains_text(list: &Vec<String>, wanted: &String) -> (found: bool)
    ensures
        found == holds_text(texts(list@), wanted@),
{
    let mut i: usize = 0;
    while i < list.len()
        invariant
            i <= list.len(),
            forall|j: int| 0 <= j < i ==> list@[j]@ != wanted@,
        decreases list.len() - i,
    {
        if list[i] == *wanted {
            assert(texts(list@)[i as int] == wanted@);
            return true;
        }
        i += 1;
    }
    assert forall|j: int| 0 <= j < texts(list@).len() implies texts(list@)[j] != wanted@ by {
        assert(texts(list@)[j] == list@[j]@);
    }
    false
}

} // verus!
