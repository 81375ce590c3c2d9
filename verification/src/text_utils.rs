//! Truncation helpers used by the transcript, pickers and prompts.

use crate::text::{chars_of, push_char, slice_vec, string_of, trim, trim_vec};
use vstd::prelude::*;
use vstd::string::StringSliceAdditionalSpecFns;
use vstd::utf8::{encode_scalar, encode_utf8};

verus! {

/// `t`, cut to at most `max` characters with a trailing `…` when it is longer (nothing at
/// all when `max` is 0).
pub open spec fn ellipsize(t: Seq<char>, max: nat) -> Seq<char> {
    if t.len() <= max {
        t
    } else if max == 0 {
        seq![]
    } else {
        t.take(max - 1).push('…')
    }
}

/// `t`, cut to its first `max - 1` characters and a trailing `…` when it is longer than
/// `max` (a lone `…` when `max` is 0).
pub open spec fn cut_to(t: Seq<char>, max: nat) -> Seq<char> {
    if t.len() <= max {
        t
    } else {
        t.take(if max >= 1 { max - 1 } else { 0 }).push('…')
    }
}

fn ellipsize_vec(t: &[char], max: usize) -> (r: String)
    ensures
        r@ == ellipsize(t@, max as nat),
{
    if t.len() <= max {
        string_of(t)
    } else if max == 0 {
        String::new()
    } else {
        let keep = max - 1;
        let mut r = string_of(&slice_vec(t, 0, keep));
        push_char(&mut r, '…');
        assert(t@.subrange(0, keep as int) =~= t@.take(keep as int));
        r
    }
}

/// Truncate a string to at most `max` characters (Unicode-aware), trimming white space
/// first; appends `…` when truncated.
pub fn truncate(s: &str, max: usize) -> (r: String)
    ensures
        r@ == ellipsize(trim(s@), max as nat),
{
    let v = chars_of(s);
    let t = trim_vec(&v);
    ellipsize_vec(&t, max)
}

/// Cut `s` to `max` characters, the last of them `…`, when it is longer (see [`cut_to`]).
pub fn truncate_chars(s: &str, max: usize) -> (r: String)
    ensures
        r@ == cut_to(s@, max as nat),
{
    let v = chars_of(s);
    if v.len() <= max {
        string_of(&v)
    } else {
        let keep = if max >= 1 {
            max - 1
        } else {
            0
        };
        let mut r = string_of(&slice_vec(&v, 0, keep));
        push_char(&mut r, '…');
        assert(v@.subrange(0, keep as int) =~= v@.take(keep as int));
        r
    }
}

/// Fit a sidebar label into `max_chars` characters (trimmed, `…` when cut).
pub fn sidebar_fit(s: &str, max_chars: usize) -> (r: String)
    ensures
        r@ == ellipsize(trim(s@), max_chars as nat),
{
    truncate(s, max_chars)
}

/// `t` cut to `max` characters with `...` appended when anything was cut.
pub open spec fn cut_with_dots(t: Seq<char>, max: nat) -> Seq<char> {
    if t.len() <= max {
        t
    } else {
        t.take(max as int) + seq!['.', '.', '.']
    }
}

/// Keep the first `max_chars` characters of `value`, appending `...` when more follow.
pub fn truncate_with_dots(value: &str, max_chars: usize) -> (r: String)
    ensures
        r@ == cut_with_dots(value@, max_chars as nat),
{
    let v = chars_of(value);
    if v.len() <= max_chars {
        string_of(&v)
    } else {
        let mut r = string_of(&slice_vec(&v, 0, max_chars));
        r.append("...");
        proof {
            reveal_strlit("...");
            assert(v@.subrange(0, max_chars as int) =~= v@.take(max_chars as int));
        }
        r
    }
}

/// The last `max_chars` characters of `text`, prefixed by `...`, when `text` is longer.
pub open spec fn path_suffix(text: Seq<char>, max: nat) -> Seq<char> {
    if text.len() <= max {
        text
    } else {
        let keep: int = if max >= 3 { max - 3 } else { 0 };
        seq!['.', '.', '.'] + text.skip(text.len() - keep)
    }
}

/// Shorten a displayed path to its tail, `...`-prefixed, when it exceeds `max_chars`.
pub fn format_path_suffix(path: &str, max_chars: usize) -> (r: String)
    ensures
        r@ == path_suffix(path@, max_chars as nat),
{
    let v = chars_of(path);
    if v.len() <= max_chars {
        return string_of(&v);
    }
    let keep = if max_chars >= 3 {
        max_chars - 3
    } else {
        0
    };
    let mut r = String::from_str("...");
    let tail = string_of(&slice_vec(&v, v.len() - keep, v.len()));
    r.append(tail.as_str());
    proof {
        reveal_strlit("...");
        assert(v@.subrange(v@.len() - keep, v@.len() as int) =~= v@.skip(v@.len() - keep));
    }
    r
}

/// The first eight characters of `id`, or the whole id when shorter.
pub open spec fn short_id(id: Seq<char>) -> Seq<char> {
    if id.len() <= 8 {
        id
    } else {
        id.take(8)
    }
}

/// The first eight characters of a session id, or the whole id when shorter.
pub fn short_session_prefix(id: &str) -> (r: &str)
    ensures
        r@ == short_id(id@),
{
    let n = id.unicode_len();
    if n > 8 {
        let head = id.substring_char(0, 8);
        assert(id@.subrange(0, 8) =~= id@.take(8));
        head
    } else {
        id
    }
}

/// The UTF-8 encoding of `a + b` is that of `a` followed by that of `b`.
proof fn lemma_encode_utf8_concat(a: Seq<char>, b: Seq<char>)
    ensures
        encode_utf8(a + b) == encode_utf8(a) + encode_utf8(b),
    decreases a.len(),
{
    if a.len() == 0 {
        assert(a + b =~= b);
        assert(encode_utf8(a) + encode_utf8(b) =~= encode_utf8(b));
    } else {
        lemma_encode_utf8_concat(a.drop_first(), b);
        assert((a + b).drop_first() =~= a.drop_first() + b);
        assert(encode_utf8(a + b) =~= encode_scalar(a[0] as u32) + encode_utf8(a.drop_first() + b));
    }
}

/// How many bytes the UTF-8 encoding of `c` takes.
fn utf8_width(c: char) -> (r: usize)
    ensures
        r == encode_utf8(seq![c]).len(),
{
    proof {
        vstd::utf8::char_is_scalar(c);
        assert(seq![c].drop_first() =~= Seq::<char>::empty());
        assert(encode_utf8(Seq::<char>::empty()) =~= Seq::<u8>::empty());
        assert(encode_utf8(seq![c]) =~= encode_scalar(c as u32));
    }
    let u = c as u32;
    if u <= 0x7F {
        1
    } else if u <= 0x7FF {
        2
    } else if u <= 0xFFFF {
        3
    } else {
        4
    }
}

/// The byte offset in `line` of the character at `cursor_char_idx`, or the byte length
/// of `line` when the cursor stands past its last character.
pub fn cursor_byte_index(line: &str, cursor_char_idx: usize) -> (r: usize)
    ensures
        r == encode_utf8(line@.take(
            if cursor_char_idx <= line@.len() {
                cursor_char_idx as int
            } else {
                line@.len() as int
            },
        )).len(),
{
    let bytes = line.as_bytes();
    let total = bytes.len();
    let cs = chars_of(line);
    let n = if cursor_char_idx <= cs.len() {
        cursor_char_idx
    } else {
        cs.len()
    };
    let mut r: usize = 0;
    let mut i: usize = 0;
    proof {
        assert(cs@.take(0) =~= Seq::<char>::empty());
    }
    while i < n
        invariant
            i <= n <= cs@.len(),
            cs@ == line@,
            bytes@ == encode_utf8(line@),
            bytes@.len() == total,
            r == encode_utf8(cs@.take(i as int)).len(),
        decreases n - i,
    {
        let w = utf8_width(cs[i]);
        proof {
            assert(cs@.take(i + 1) =~= cs@.take(i as int) + seq![cs@[i as int]]);
            lemma_encode_utf8_concat(cs@.take(i as int), seq![cs@[i as int]]);
            assert(cs@ =~= cs@.take(i + 1) + cs@.skip(i + 1));
            lemma_encode_utf8_concat(cs@.take(i + 1), cs@.skip(i + 1));
            assert(encode_utf8(cs@.take(i + 1)).len() <= bytes@.len());
        }
        r = r + w;
        i = i + 1;
    }
    r
}


/// The first `n` bytes of the UTF-8 text `s` end between two characters, or `s` is no
/// longer than `n` bytes.
pub open spec fn cuts_at_boundary(s: Seq<char>, n: nat) -> bool {
    encode_utf8(s).len() <= n || exists|k: int|
        0 <= k <= s.len() && #[trigger] encode_utf8(s.take(k)).len() == n
}

/// The characters that the first `n` bytes of the UTF-8 text `s` encode (all of `s` when it
/// is no longer than that).
pub open spec fn byte_head(s: Seq<char>, n: nat) -> Seq<char> {
    if encode_utf8(s).len() <= n {
        s
    } else {
        s.take(choose|k: int| 0 <= k <= s.len() && #[trigger] encode_utf8(s.take(k)).len() == n)
    }
}

/// Each longer prefix of `s` takes more bytes.
proof fn lemma_prefix_bytes_grow(s: Seq<char>, a: int, b: int)
    requires
        0 <= a < b <= s.len(),
    ensures
        encode_utf8(s.take(a)).len() < encode_utf8(s.take(b)).len(),
{
    let mid = s.subrange(a, b);
    assert(s.take(b) =~= s.take(a) + mid);
    lemma_encode_utf8_concat(s.take(a), mid);
    assert(mid.len() > 0);
    assert(encode_utf8(mid).len() >= 1);
}

/// The session id as the status bar shows it: its first eight bytes, or the whole id when
/// shorter (see [`byte_head`]).
pub fn session_id_head(id: &str) -> (r: String)
    requires
        cuts_at_boundary(id@, 8),
    ensures
        r@ == byte_head(id@, 8),
{
    let cs = chars_of(id);
    let mut bytes: usize = 0;
    let mut i: usize = 0;
    proof {
        assert(cs@.take(0) =~= Seq::<char>::empty());
    }
    while i < cs.len() && bytes < 8
        invariant
            i <= cs@.len(),
            cs@ == id@,
            bytes == encode_utf8(cs@.take(i as int)).len(),
            bytes <= 8,
            cuts_at_boundary(id@, 8),
        decreases cs@.len() - i,
    {
        let w = utf8_width(cs[i]);
        proof {
            assert(cs@.take(i + 1) =~= cs@.take(i as int) + seq![cs@[i as int]]);
            lemma_encode_utf8_concat(cs@.take(i as int), seq![cs@[i as int]]);
            if bytes + w > 8 {
                if encode_utf8(id@).len() <= 8 {
                    assert(cs@.take(cs@.len() as int) =~= cs@);
                    if i + 1 < cs@.len() {
                        lemma_prefix_bytes_grow(cs@, i + 1, cs@.len() as int);
                    }
                } else {
                    let k = choose|k: int|
                        0 <= k <= id@.len() && #[trigger] encode_utf8(id@.take(k)).len() == 8;
                    if k < i {
                        lemma_prefix_bytes_grow(cs@, k, i as int);
                    } else if k > i + 1 {
                        lemma_prefix_bytes_grow(cs@, i + 1, k);
                    }
                }
            }
        }
        bytes = bytes + w;
        i = i + 1;
    }
    proof {
        assert(cs@.take(cs@.len() as int) =~= cs@);
        if i < cs@.len() {
            lemma_prefix_bytes_grow(cs@, i as int, cs@.len() as int);
            let k = choose|k: int| 0 <= k <= id@.len() && #[trigger] encode_utf8(id@.take(k)).len() == 8;
            assert(encode_utf8(id@.take(i as int)).len() == 8);
            if k < i {
                lemma_prefix_bytes_grow(cs@, k, i as int);
            } else if k > i {
                lemma_prefix_bytes_grow(cs@, i as int, k);
            }
            assert(k == i);
        }
    }
    let head = slice_vec(&cs, 0, i);
    proof {
        assert(head@ =~= cs@.take(i as int));
    }
    string_of(&head)
}

} // verus!
