use vstd::prelude::*;

verus! {

/// Whether `c` is white space, as Unicode's `White_Space` property has it.
pub open spec fn is_space(c: char) -> bool {
    ('\u{9}' <= c && c <= '\u{d}') || c == ' ' || c == '\u{85}' || c == '\u{a0}' || c
        == '\u{1680}' || ('\u{2000}' <= c && c <= '\u{200a}') || c == '\u{2028}' || c
        == '\u{2029}' || c == '\u{202f}' || c == '\u{205f}' || c == '\u{3000}'
}

/// Reading `s` left to right and cutting it at each newline: the lines
/// completed so far, and the line still open.
pub open spec fn line_state(s: Seq<char>) -> (Seq<Seq<char>>, Seq<char>)
    decreases s.len(),
{
    if s.len() == 0 {
        (Seq::empty(), Seq::empty())
    } else {
        let (done, open) = line_state(s.drop_last());
        if s.last() == '\n' {
            (done.push(open), Seq::empty())
        } else {
            (done, open.push(s.last()))
        }
    }
}

/// The lines of `s`: the pieces between newlines, the empty ones included.
pub open spec fn lines(s: Seq<char>) -> Seq<Seq<char>> {
    line_state(s).0.push(line_state(s).1)
}

/// Reading `s` left to right and cutting it at white space: the words
/// completed so far, and the word still open (empty between words).
pub open spec fn word_state(s: Seq<char>) -> (Seq<Seq<char>>, Seq<char>)
    decreases s.len(),
{
    if s.len() == 0 {
        (Seq::empty(), Seq::empty())
    } else {
        let (done, open) = word_state(s.drop_last());
        if is_space(s.last()) {
            (if open.len() > 0 {
                done.push(open)
            } else {
                done
            }, Seq::empty())
        } else {
            (done, open.push(s.last()))
        }
    }
}

/// The words of `s`: its maximal runs of characters that are not white space.
pub open spec fn words(s: Seq<char>) -> Seq<Seq<char>> {
    if word_state(s).1.len() > 0 {
        word_state(s).0.push(word_state(s).1)
    } else {
        word_state(s).0
    }
}

/// Whether `c` is white space, as Unicode's `White_Space` property has it.
pub fn is_space_char(c: char) -> (r: bool)
    ensures
        r == is_space(c),
{
    ('\u{9}' <= c && c <= '\u{d}') || c == ' ' || c == '\u{85}' || c == '\u{a0}' || c
        == '\u{1680}' || ('\u{2000}' <= c && c <= '\u{200a}') || c == '\u{2028}' || c
        == '\u{2029}' || c == '\u{202f}' || c == '\u{205f}' || c == '\u{3000}'
}

/// The characters of `s`, in order.
pub fn chars_of(s: &str) -> (r: Vec<char>)
    ensures
        r@ == s@,
{
    let mut r: Vec<char> = Vec::new();
    for c in it: s.chars()
        invariant
            r@ == it.seq().take(it.index() as int),
    {
        r.push(c);
    }
    r
}

/// Cuts `s` at each newline.
pub fn split_lines(s: &Vec<char>) -> (r: Vec<Vec<char>>)
    ensures
        r.deep_view() == lines(s@),
{
    let mut done: Vec<Vec<char>> = Vec::new();
    let mut open: Vec<char> = Vec::new();
    let mut i: usize = 0;
    while i < s.len()
        invariant
            i <= s.len(),
            done.deep_view() == line_state(s@.take(i as int)).0,
            open@ == line_state(s@.take(i as int)).1,
        decreases s.len() - i,
    {
        let ghost before = done.deep_view();
        assert(s@.take(i + 1).drop_last() =~= s@.take(i as int));
        if s[i] == '\n' {
            let ghost line = open@;
            assert(open.deep_view() =~= line);
            done.push(open);
            open = Vec::new();
            assert(done.deep_view() =~= before.push(line));
        } else {
            open.push(s[i]);
        }
        i += 1;
    }
    let ghost before = done.deep_view();
    let ghost line = open@;
    assert(open.deep_view() =~= line);
    done.push(open);
    assert(s@.take(s.len() as int) =~= s@);
    assert(done.deep_view() =~= before.push(line));
    done
}

/// Cuts `s` into its words.
pub fn split_words(s: &Vec<char>) -> (r: Vec<Vec<char>>)
    ensures
        r.deep_view() == words(s@),
{
    let mut done: Vec<Vec<char>> = Vec::new();
    let mut open: Vec<char> = Vec::new();
    let mut i: usize = 0;
    while i < s.len()
        invariant
            i <= s.len(),
            done.deep_view() == word_state(s@.take(i as int)).0,
            open@ == word_state(s@.take(i as int)).1,
        decreases s.len() - i,
    {
        let ghost before = done.deep_view();
        assert(s@.take(i + 1).drop_last() =~= s@.take(i as int));
        if is_space_char(s[i]) {
            if open.len() > 0 {
                let ghost word = open@;
                assert(open.deep_view() =~= word);
                done.push(open);
                open = Vec::new();
                assert(done.deep_view() =~= before.push(word));
            }
        } else {
            open.push(s[i]);
        }
        i += 1;
    }
    assert(s@.take(s.len() as int) =~= s@);
    if open.len() > 0 {
        let ghost before = done.deep_view();
        let ghost word = open@;
        assert(open.deep_view() =~= word);
        done.push(open);
        assert(done.deep_view() =~= before.push(word));
    }
    done
}

} // verus!
