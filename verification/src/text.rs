//! Topic strings: splitting on `/`, joining with `/`.
use vstd::prelude::*;

verus! {

/// `String::push` appends one character.
pub assume_specification[ std::string::String::push ](string: &mut std::string::String, ch: char)
    ensures
        final(string)@ == old(string)@.push(ch),
;

/// The pieces of `s` between the `/` separators, as `str::split('/')` yields them.
pub open spec fn split_slash(s: Seq<char>) -> Seq<Seq<char>>
    decreases s.len(),
{
    if s.len() == 0 {
        seq![Seq::<char>::empty()]
    } else {
        let parts = split_slash(s.drop_last());
        if s.last() == '/' {
            parts.push(Seq::<char>::empty())
        } else {
            parts.update(parts.len() - 1, parts.last().push(s.last()))
        }
    }
}

/// Splitting always yields at least one piece.
pub proof fn lemma_split_nonempty(s: Seq<char>)
    ensures
        split_slash(s).len() >= 1,
    decreases s.len(),
{
    if s.len() > 0 {
        lemma_split_nonempty(s.drop_last());
    }
}

/// Splits `s` on every `/`.
pub fn split_topic(s: &str) -> (parts: Vec<String>)
    ensures
        parts.deep_view() == split_slash(s@),
{
    broadcast use vstd::string::group_string_axioms;
    let mut parts: Vec<String> = Vec::new();
    let mut current = String::new();
    proof {
        assert(s@.take(0) =~= Seq::<char>::empty());
    }
    for c in it: s.chars()
        invariant
            it.seq() == s@,
            parts.deep_view().push(current@) == split_slash(s@.take(it.index() as int)),
    {
        proof {
            lemma_split_nonempty(s@.take(it.index() as int));
            assert(s@.take(it.index() + 1).drop_last() =~= s@.take(it.index() as int));
        }
        if c == '/' {
            let ghost before = parts.deep_view().push(current@);
            let done = current;
            parts.push(done);
            current = String::new();
            assert(parts.deep_view().push(current@) =~= before.push(Seq::<char>::empty()));
        } else {
            let ghost before = parts.deep_view().push(current@);
            current.push(c);
            assert(parts.deep_view().push(current@) =~= before.update(before.len() - 1, before.last().push(c)));
        }
    }
    proof {
        assert(s@.take(s@.len() as int) =~= s@);
    }
    parts.push(current);
    parts
}


/// `str` equality compares the characters.
pub assume_specification[ <str as PartialEq>::eq ](a: &str, b: &str) -> (equal: bool)
    ensures
        equal == (a@ == b@),
;

/// Index of the first piece of `s` equal to `x`, or -1 when there is none.
pub open spec fn index_of(s: Seq<Seq<char>>, x: Seq<char>) -> int
    decreases s.len(),
{
    if s.len() == 0 {
        -1
    } else if s[0] == x {
        0
    } else {
        let r = index_of(s.drop_first(), x);
        if r < 0 {
            -1
        } else {
            r + 1
        }
    }
}

/// `index_of` is the position of the first occurrence, and -1 exactly when `x` is absent.
pub proof fn lemma_index_of(s: Seq<Seq<char>>, x: Seq<char>)
    ensures
        -1 <= index_of(s, x) < s.len(),
        index_of(s, x) >= 0 ==> s[index_of(s, x)] == x,
        forall|j: int| 0 <= j < index_of(s, x) ==> s[j] != x,
        index_of(s, x) < 0 <==> !s.contains(x),
    decreases s.len(),
{
    if s.len() > 0 && s[0] != x {
        lemma_index_of(s.drop_first(), x);
        let r = index_of(s.drop_first(), x);
        assert forall|j: int| 0 <= j < index_of(s, x) implies s[j] != x by {
            if j > 0 {
                assert(s[j] == s.drop_first()[j - 1]);
            }
        }
        if r < 0 {
            if s.contains(x) {
                let j = choose|j: int| 0 <= j < s.len() && s[j] == x;
                assert(s.drop_first()[j - 1] == x);
            }
        } else {
            assert(s.contains(x));
        }
    } else if s.len() > 0 {
        assert(s.contains(x));
    }
}

/// A position whose piece equals `x` and that no earlier piece equals is `index_of`.
pub proof fn lemma_index_of_first(s: Seq<Seq<char>>, x: Seq<char>, k: int)
    requires
        0 <= k < s.len(),
        s[k] == x,
        forall|j: int| 0 <= j < k ==> s[j] != x,
    ensures
        index_of(s, x) == k,
    decreases s.len(),
{
    if k > 0 {
        assert forall|j: int| 0 <= j < k - 1 implies s.drop_first()[j] != x by {
            assert(s.drop_first()[j] == s[j + 1]);
        }
        lemma_index_of_first(s.drop_first(), x, k - 1);
    }
}

/// Pieces joined with `/` between consecutive pieces, as `join("/")` does.
pub open spec fn join_slash(parts: Seq<Seq<char>>) -> Seq<char>
    decreases parts.len(),
{
    if parts.len() == 0 {
        Seq::<char>::empty()
    } else if parts.len() == 1 {
        parts[0]
    } else {
        join_slash(parts.drop_last()) + seq!['/'] + parts.last()
    }
}

/// Joins the pieces `parts[from..to]` with `/`.
pub fn join_topic(parts: &Vec<String>, from: usize, to: usize) -> (joined: String)
    requires
        from <= to <= parts.len(),
    ensures
        joined@ == join_slash(parts.deep_view().subrange(from as int, to as int)),
{
    let mut joined = String::new();
    let mut i = from;
    while i < to
        invariant
            from <= i <= to <= parts.len(),
            joined@ == join_slash(parts.deep_view().subrange(from as int, i as int)),
        decreases to - i,
    {
        let ghost before = joined@;
        if i > from {
            joined.push('/');
        }
        joined.append(parts[i].as_str());
        proof {
            let sub = parts.deep_view().subrange(from as int, i + 1);
            assert(sub.drop_last() =~= parts.deep_view().subrange(from as int, i as int));
            if i > from {
                assert(joined@ =~= before + seq!['/'] + sub.last());
            } else {
                assert(joined@ =~= sub[0]);
            }
        }
        i = i + 1;
    }
    joined
}

/// `parent/name`, the topic of a child below `parent`.
pub open spec fn child_topic_view(parent: Seq<char>, name: Seq<char>) -> Seq<char> {
    parent + seq!['/'] + name
}

/// Builds the topic `parent/name`.
pub fn child_topic(parent: &str, name: &str) -> (topic: String)
    ensures
        topic@ == child_topic_view(parent@, name@),
{
    let mut topic = String::from_str(parent);
    topic.push('/');
    topic.append(name);
    topic
}

} // verus!
