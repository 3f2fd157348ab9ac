use vstd::prelude::*;
use vstd::string::StrSliceExecFns;
use vstd::string::StringExecFns;

verus! {

/// The characters this library treats as blank when it formats message
/// contents and splits them into words.
pub open spec fn is_space_char(c: char) -> bool {
    c == ' ' || c == '\t' || c == '\n' || c == '\r'
}

pub fn is_space(c: char) -> (r: bool)
    ensures
        r == is_space_char(c),
{
    c == ' ' || c == '\t' || c == '\n' || c == '\r'
}

/// Character-for-character string equality.
pub fn str_eq(a: &str, b: &str) -> (r: bool)
    ensures
        r == (a@ == b@),
{
    let na = a.unicode_len();
    let nb = b.unicode_len();
    if na != nb {
        return false;
    }
    let mut i: usize = 0;
    while i < na
        invariant
            na == a@.len(),
            nb == b@.len(),
            na == nb,
            0 <= i <= na,
            forall|j: int| 0 <= j < i ==> a@[j] == b@[j],
        decreases na - i,
    {
        if a.get_char(i) != b.get_char(i) {
            return false;
        }
        i += 1;
    }
    proof {
        assert(a@ =~= b@);
    }
    true
}

/// The view of every string in a list, in order.
pub open spec fn views_of(vs: Seq<String>) -> Seq<Seq<char>> {
    vs.map_values(|w: String| w@)
}

proof fn lemma_views_of_push(vs: Seq<String>, w: String)
    ensures
        views_of(vs.push(w)) == views_of(vs).push(w@),
{
    assert(views_of(vs.push(w)) =~= views_of(vs).push(w@));
}

/// A string with the ship signature character `~` put in front.
pub fn prepend_sig(s: &str) -> (r: String)
    ensures
        r@ == seq!['~'] + s@,
{
    let mut r = String::from_str("~");
    proof {
        reveal_strlit("~");
    }
    r.append(s);
    proof {
        assert(r@ =~= seq!['~'] + s@);
    }
    r
}

pub open spec fn trim_left_spec(s: Seq<char>) -> Seq<char>
    decreases s.len(),
{
    if s.len() > 0 && is_space_char(s[0]) {
        trim_left_spec(s.drop_first())
    } else {
        s
    }
}

pub open spec fn trim_right_spec(s: Seq<char>) -> Seq<char>
    decreases s.len(),
{
    if s.len() > 0 && is_space_char(s.last()) {
        trim_right_spec(s.drop_last())
    } else {
        s
    }
}

/// A string with blank characters removed from both ends.
pub open spec fn trim_spec(s: Seq<char>) -> Seq<char> {
    trim_left_spec(trim_right_spec(s))
}

proof fn lemma_trim_right_to(s: Seq<char>, b: int)
    requires
        0 <= b <= s.len(),
        forall|j: int| b <= j < s.len() ==> is_space_char(s[j]),
    ensures
        trim_right_spec(s) == trim_right_spec(s.take(b)),
    decreases s.len() - b,
{
    if b == s.len() {
        assert(s.take(b) =~= s);
    } else {
        assert(is_space_char(s.last()));
        assert(s.drop_last() =~= s.take(s.len() - 1));
        lemma_trim_right_to(s.take(s.len() - 1), b);
        assert(s.take(s.len() - 1).take(b) =~= s.take(b));
    }
}

proof fn lemma_trim_left_to(s: Seq<char>, a: int)
    requires
        0 <= a <= s.len(),
        forall|j: int| 0 <= j < a ==> is_space_char(s[j]),
    ensures
        trim_left_spec(s) == trim_left_spec(s.skip(a)),
    decreases a,
{
    if a > 0 {
        assert(is_space_char(s[0]));
        lemma_trim_left_to(s.drop_first(), a - 1);
        assert(s.drop_first().skip(a - 1) =~= s.skip(a));
    } else {
        assert(s.skip(0) =~= s);
    }
}

/// A copy of `s` with blank characters removed from both ends.
pub fn trim_str(s: &str) -> (r: String)
    ensures
        r@ == trim_spec(s@),
{
    let n = s.unicode_len();
    let mut seen = false;
    let mut a: usize = 0;
    let mut b: usize = 0;
    let mut i: usize = 0;
    while i < n
        invariant
            n == s@.len(),
            0 <= i <= n,
            !seen ==> forall|j: int| 0 <= j < i ==> is_space_char(s@[j]),
            seen ==> 0 <= a <= i && a < b <= i,
            seen ==> !is_space_char(s@[a as int]) && !is_space_char(s@[b - 1]),
            seen ==> forall|j: int| 0 <= j < a ==> is_space_char(s@[j]),
            seen ==> forall|j: int| b <= j < i ==> is_space_char(s@[j]),
        decreases n - i,
    {
        if !is_space(s.get_char(i)) {
            if !seen {
                a = i;
                seen = true;
            }
            b = i + 1;
        }
        i += 1;
    }
    if !seen {
        proof {
            lemma_trim_right_to(s@, 0);
            assert(s@.take(0) =~= Seq::<char>::empty());
        }
        String::new()
    } else {
        let w = s.substring_char(a, b);
        proof {
            lemma_trim_right_to(s@, b as int);
            let t = s@.take(b as int);
            assert(t.last() == s@[b - 1]);
            assert(trim_right_spec(t) == t);
            lemma_trim_left_to(t, a as int);
            assert(trim_left_spec(t.skip(a as int)) == t.skip(a as int));
            assert(t.skip(a as int) =~= s@.subrange(a as int, b as int));
        }
        w.to_owned()
    }
}

/// One step of splitting on blanks: `cur` is the word being read, `acc` the
/// words already produced.  Runs of blanks produce no empty words.
pub open spec fn words_rec(s: Seq<char>, cur: Seq<char>, acc: Seq<Seq<char>>) -> Seq<Seq<char>>
    decreases s.len(),
{
    if s.len() == 0 {
        if cur.len() == 0 {
            acc
        } else {
            acc.push(cur)
        }
    } else if is_space_char(s[0]) {
        if cur.len() == 0 {
            words_rec(s.drop_first(), cur, acc)
        } else {
            words_rec(s.drop_first(), Seq::empty(), acc.push(cur))
        }
    } else {
        words_rec(s.drop_first(), cur.push(s[0]), acc)
    }
}

/// The blank-separated words of a string, with empty words dropped.
pub open spec fn words_of(s: Seq<char>) -> Seq<Seq<char>> {
    words_rec(s, Seq::empty(), Seq::empty())
}

/// Splits a string at blank characters, dropping empty pieces.
pub fn split_words(s: &str) -> (r: Vec<String>)
    ensures
        views_of(r@) == words_of(s@),
{
    let n = s.unicode_len();
    let mut acc: Vec<String> = Vec::new();
    let mut start: usize = 0;
    let mut i: usize = 0;
    proof {
        assert(s@.skip(0) =~= s@);
        assert(s@.subrange(0, 0) =~= Seq::<char>::empty());
        assert(views_of(acc@) =~= Seq::<Seq<char>>::empty());
    }
    while i < n
        invariant
            n == s@.len(),
            0 <= start <= i <= n,
            forall|j: int| start <= j < i ==> !is_space_char(s@[j]),
            words_rec(s@.skip(i as int), s@.subrange(start as int, i as int), views_of(acc@))
                == words_of(s@),
        decreases n - i,
    {
        let c = s.get_char(i);
        proof {
            assert(s@.skip(i as int)[0] == s@[i as int]);
            assert(s@.skip(i as int).drop_first() =~= s@.skip(i as int + 1));
        }
        if is_space(c) {
            if start < i {
                let w = s.substring_char(start, i).to_owned();
                proof {
                    lemma_views_of_push(acc@, w);
                }
                acc.push(w);
            }
            proof {
                assert(s@.subrange(i as int + 1, i as int + 1) =~= Seq::<char>::empty());
                assert(s@.subrange(start as int, i as int).len() == i - start);
                if start == i {
                    assert(s@.subrange(start as int, i as int) =~= Seq::<char>::empty());
                }
            }
            start = i + 1;
        } else {
            proof {
                assert(s@.subrange(start as int, i as int + 1) =~= s@.subrange(
                    start as int,
                    i as int,
                ).push(s@[i as int]));
            }
        }
        i += 1;
    }
    proof {
        assert(s@.skip(n as int) =~= Seq::<char>::empty());
    }
    if start < n {
        let w = s.substring_char(start, n).to_owned();
        proof {
            lemma_views_of_push(acc@, w);
        }
        acc.push(w);
    } else {
        proof {
            assert(s@.subrange(start as int, n as int).len() == 0);
        }
    }
    acc
}

/// One step of splitting on a separator character; empty pieces are kept.
pub open spec fn split_rec(s: Seq<char>, sep: char, cur: Seq<char>, acc: Seq<Seq<char>>) -> Seq<
    Seq<char>,
>
    decreases s.len(),
{
    if s.len() == 0 {
        acc.push(cur)
    } else if s[0] == sep {
        split_rec(s.drop_first(), sep, Seq::empty(), acc.push(cur))
    } else {
        split_rec(s.drop_first(), sep, cur.push(s[0]), acc)
    }
}

/// The pieces of a string around a separator character, empty pieces kept,
/// as `str::split` produces them.
pub open spec fn split_spec(s: Seq<char>, sep: char) -> Seq<Seq<char>> {
    split_rec(s, sep, Seq::empty(), Seq::empty())
}

/// Splits a string at every occurrence of `sep`, keeping empty pieces.
pub fn split_char(s: &str, sep: char) -> (r: Vec<String>)
    ensures
        views_of(r@) == split_spec(s@, sep),
{
    let n = s.unicode_len();
    let mut acc: Vec<String> = Vec::new();
    let mut start: usize = 0;
    let mut i: usize = 0;
    proof {
        assert(s@.skip(0) =~= s@);
        assert(s@.subrange(0, 0) =~= Seq::<char>::empty());
        assert(views_of(acc@) =~= Seq::<Seq<char>>::empty());
    }
    while i < n
        invariant
            n == s@.len(),
            0 <= start <= i <= n,
            forall|j: int| start <= j < i ==> s@[j] != sep,
            split_rec(s@.skip(i as int), sep, s@.subrange(start as int, i as int), views_of(acc@))
                == split_spec(s@, sep),
        decreases n - i,
    {
        let c = s.get_char(i);
        proof {
            assert(s@.skip(i as int)[0] == s@[i as int]);
            assert(s@.skip(i as int).drop_first() =~= s@.skip(i as int + 1));
        }
        if c == sep {
            let w = s.substring_char(start, i).to_owned();
            proof {
                lemma_views_of_push(acc@, w);
                assert(s@.subrange(i as int + 1, i as int + 1) =~= Seq::<char>::empty());
            }
            acc.push(w);
            start = i + 1;
        } else {
            proof {
                assert(s@.subrange(start as int, i as int + 1) =~= s@.subrange(
                    start as int,
                    i as int,
                ).push(s@[i as int]));
            }
        }
        i += 1;
    }
    proof {
        assert(s@.skip(n as int) =~= Seq::<char>::empty());
    }
    let w = s.substring_char(start, n).to_owned();
    proof {
        lemma_views_of_push(acc@, w);
    }
    acc.push(w);
    acc
}

} // verus!
