use vstd::prelude::*;
use vstd::string::StringExecFns;

verus! {

/// Whether two string slices hold the same characters.
pub fn same_text(a: &str, b: &str) -> (r: bool)
    ensures
        r == (a@ == b@),
{
    let x = String::from_str(a);
    let y = String::from_str(b);
    x == y
}

/// The characters with the Unicode `White_Space` property.
pub open spec fn is_white_space(c: char) -> bool {
    let n = c as u32;
    (0x09 <= n <= 0x0d) || n == 0x20 || n == 0x85 || n == 0xa0 || n == 0x1680 || (0x2000 <= n
        <= 0x200a) || n == 0x2028 || n == 0x2029 || n == 0x202f || n == 0x205f || n == 0x3000
}

/// Whether `c` is a white-space character.
pub fn is_white_space_char(c: char) -> (r: bool)
    ensures
        r == is_white_space(c),
{
    let n = c as u32;
    (0x09 <= n && n <= 0x0d) || n == 0x20 || n == 0x85 || n == 0xa0 || n == 0x1680 || (0x2000
        <= n && n <= 0x200a) || n == 0x2028 || n == 0x2029 || n == 0x202f || n == 0x205f || n
        == 0x3000
}

/// `s` without its leading white space.
pub open spec fn trim_start(s: Seq<char>) -> Seq<char>
    decreases s.len(),
{
    if s.len() > 0 && is_white_space(s[0]) {
        trim_start(s.drop_first())
    } else {
        s
    }
}

/// `s` without its trailing white space.
pub open spec fn trim_end(s: Seq<char>) -> Seq<char>
    decreases s.len(),
{
    if s.len() > 0 && is_white_space(s.last()) {
        trim_end(s.drop_last())
    } else {
        s
    }
}

/// `s` without leading and trailing white space.
pub open spec fn trimmed(s: Seq<char>) -> Seq<char> {
    trim_end(trim_start(s))
}

/// Relies on `str::trim`: it removes leading and trailing characters with the
/// Unicode `White_Space` property and keeps the rest.
#[verifier::external_body]
fn trim_text(s: &str) -> (r: String)
    ensures
        r@ == trimmed(s@),
{
    s.trim().to_string()
}

/// Relies on `String::push`: it appends one character.
#[verifier::external_body]
fn push_char(s: &mut String, c: char)
    ensures
        final(s)@ == old(s)@.push(c),
{
    s.push(c)
}

/// The text of standard input that can stand as a prompt: its content with
/// surrounding white space removed.
pub fn trim_stdin_input(raw: &str) -> (r: String)
    ensures
        r@ == trimmed(raw@),
{
    trim_text(raw)
}

/// The pieces of a text laid end to end.
pub open spec fn concat_all(parts: Seq<Seq<char>>) -> Seq<char>
    decreases parts.len(),
{
    if parts.len() == 0 {
        Seq::empty()
    } else {
        concat_all(parts.drop_last()) + parts.last()
    }
}

/// The characters of each string in turn.
pub open spec fn views_of(v: Seq<String>) -> Seq<Seq<char>> {
    v.map_values(|s: String| s@)
}

/// Whether position `i` of `s` starts a word.
pub open spec fn starts_word(s: Seq<char>, i: int) -> bool {
    !is_white_space(s[i]) && (i == 0 || is_white_space(s[i - 1]))
}

/// The number of words in `s`.
pub open spec fn word_count(s: Seq<char>) -> nat
    decreases s.len(),
{
    if s.len() == 0 {
        0
    } else {
        word_count(s.drop_last()) + if starts_word(s, s.len() - 1) {
            1nat
        } else {
            0nat
        }
    }
}

/// Most words that one chunk of a streamed text holds.
pub const WORDS_PER_CHUNK: usize = 3;

/// Splits `s` into successive non-empty chunks of at most three words each.
/// White space stays with the word before it (leading white space with the
/// first chunk), so the chunks laid end to end give `s` back exactly.
pub fn split_into_chunks(s: &str) -> (r: Vec<String>)
    ensures
        concat_all(views_of(r@)) == s@,
        forall|i: int| 0 <= i < r.len() ==> r[i]@.len() > 0,
        forall|i: int| 0 <= i < r.len() ==> word_count(#[trigger] r[i]@) <= WORDS_PER_CHUNK,
{
    let mut chunks: Vec<String> = Vec::new();
    let mut cur = String::new();
    let mut words: usize = 0;
    let mut prev_ws = true;
    let ghost mut seen: Seq<char> = Seq::empty();
    for c in it: s.chars()
        invariant
            it.seq() == s@,
            seen == s@.take(it.index() as int),
            concat_all(views_of(chunks@)) + cur@ == seen,
            forall|i: int| 0 <= i < chunks.len() ==> chunks[i]@.len() > 0,
            forall|i: int|
                0 <= i < chunks.len() ==> word_count(#[trigger] chunks[i]@) <= WORDS_PER_CHUNK,
            word_count(cur@) == words,
            cur@.len() == 0 ==> seen.len() == 0,
            words <= WORDS_PER_CHUNK,
            words > 0 ==> cur@.len() > 0,
            prev_ws == (seen.len() == 0 || is_white_space(seen.last())),
    {
        let ws = is_white_space_char(c);
        if !ws && prev_ws {
            if words == WORDS_PER_CHUNK {
                let ghost before = chunks@;
                chunks.push(cur);
                proof {
                    assert(views_of(chunks@).drop_last() =~= views_of(before));
                }
                cur = String::new();
                words = 0;
            }
            words = words + 1;
        }
        let ghost old_cur = cur@;
        push_char(&mut cur, c);
        proof {
            assert(cur@.drop_last() =~= old_cur);
            if old_cur.len() > 0 {
                assert((concat_all(views_of(chunks@)) + old_cur).last() == old_cur.last());
                assert(cur@[old_cur.len() - 1] == old_cur.last());
            }
            assert(starts_word(cur@, old_cur.len() as int) == (!ws && prev_ws));
            assert(word_count(cur@) == word_count(old_cur) + if starts_word(
                cur@,
                old_cur.len() as int,
            ) {
                1nat
            } else {
                0nat
            });
        }
        prev_ws = ws;
        proof {
            seen = seen.push(c);
        }
    }
    if !cur.as_str().is_empty() {
        let ghost before = chunks@;
        chunks.push(cur);
        proof {
            assert(views_of(chunks@).drop_last() =~= views_of(before));
        }
    }
    chunks
}

} // verus!
