//! Splitting a command line into words.
use vstd::prelude::*;

verus! {

/// Characters that separate words on a command line.
pub open spec fn is_blank(c: char) -> bool {
    c == ' ' || c == '\t' || c == '\n' || c == '\r'
}

/// The words completed within the first `n` characters of `s`, and the
/// word still being read at that point.
pub open spec fn scan(s: Seq<char>, n: nat) -> (Seq<Seq<char>>, Seq<char>)
    decreases n,
{
    if n == 0 || n > s.len() {
        (Seq::empty(), Seq::empty())
    } else {
        let prev = scan(s, (n - 1) as nat);
        let c = s[n - 1];
        if is_blank(c) {
            if prev.1.len() > 0 {
                (prev.0.push(prev.1), Seq::empty())
            } else {
                prev
            }
        } else {
            (prev.0, prev.1.push(c))
        }
    }
}

/// The non-empty runs of non-blank characters of `s`, in order.
pub open spec fn words(s: Seq<char>) -> Seq<Seq<char>> {
    let last = scan(s, s.len());
    if last.1.len() > 0 {
        last.0.push(last.1)
    } else {
        last.0
    }
}

/// What a sequence of strings holds, as character sequences.
pub open spec fn texts(v: Seq<String>) -> Seq<Seq<char>> {
    v.map_values(|t: String| t@)
}

/// Whether `c` separates words.
pub fn blank(c: char) -> (r: bool)
    ensures
        r == is_blank(c),
{
    c == ' ' || c == '\t' || c == '\n' || c == '\r'
}

/// The words of `line`.
pub fn tokenize(line: &str) -> (r: Vec<String>)
    ensures
        texts(r@) == words(line@),
{
    let n = line.unicode_len();
    let mut done: Vec<String> = Vec::new();
    let mut cur = String::new();
    let mut i: usize = 0;
    assert(texts(done@) =~= Seq::<Seq<char>>::empty());
    while i < n
        invariant
            i <= n,
            n == line@.len(),
            (texts(done@), cur@) == scan(line@, i as nat),
        decreases n - i,
    {
        let c = line.get_char(i);
        if blank(c) {
            if cur.unicode_len() > 0 {
                done.push(cur);
                cur = String::new();
                assert(texts(done@) =~= scan(line@, (i + 1) as nat).0);
            }
        } else {
            cur.append(line.substring_char(i, i + 1));
            assert(line@.subrange(i as int, i + 1) =~= seq![c]);
        }
        i = i + 1;
    }
    if cur.unicode_len() > 0 {
        done.push(cur);
        assert(texts(done@) =~= words(line@));
    }
    done
}

/// Whether the word `t` is exactly `w`.
pub fn is_word(t: &String, w: &str) -> (r: bool)
    ensures
        r == (t@ == w@),
{
    t.eq(&String::from_str(w))
}

} // verus!
