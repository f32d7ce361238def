//! The configuration store's text format. `CONFIG.TXT` holds `key=value`
//! lines, keys matched without regard to ASCII case; a value that is not a
//! short line of ASCII text goes to a binary file `/CONFIG/<key>.BIN`
//! instead, and the key `boot` names the boot image.
use vstd::prelude::*;

verus! {

/// A byte with ASCII capitals turned into small letters.
pub open spec fn ascii_lower(b: u8) -> u8 {
    if 65 <= b <= 90 {
        (b + 32) as u8
    } else {
        b
    }
}

/// A byte string with ASCII capitals turned into small letters.
pub open spec fn lower(s: Seq<u8>) -> Seq<u8> {
    Seq::new(s.len(), |i: int| ascii_lower(s[i]))
}

/// `s` with ASCII capitals turned into small letters.
pub fn to_ascii_lowercase(s: &[u8]) -> (r: Vec<u8>)
    ensures
        r@ == lower(s@),
{
    let mut out: Vec<u8> = Vec::new();
    let mut i: usize = 0;
    while i < s.len()
        invariant
            i <= s.len(),
            out@ == lower(s@.subrange(0, i as int)),
        decreases s.len() - i,
    {
        let b = s[i];
        let c = if 65 <= b && b <= 90 { b + 32 } else { b };
        out.push(c);
        i = i + 1;
        assert(out@ =~= lower(s@.subrange(0, i as int)));
    }
    assert(s@.subrange(0, s@.len() as int) =~= s@);
    out
}

/// The start of a key's line: the key and `=`, in small letters.
pub open spec fn key_prefix(key: Seq<u8>) -> Seq<u8> {
    lower(key.push(61u8))
}

/// The value a line gives for a key: the rest of the line, in small
/// letters, when the line (in small letters) starts with the key's prefix.
pub open spec fn line_value(key: Seq<u8>, line: Seq<u8>) -> Option<Seq<u8>> {
    let l = lower(line);
    let p = key_prefix(key);
    if p.len() <= l.len() && l.subrange(0, p.len() as int) == p {
        Some(l.subrange(p.len() as int, l.len() as int))
    } else {
        None
    }
}

/// Whether `p` starts `s`.
fn starts_with(s: &Vec<u8>, p: &Vec<u8>) -> (r: bool)
    ensures
        r == (p@.len() <= s@.len() && s@.subrange(0, p@.len() as int) == p@),
{
    if p.len() > s.len() {
        return false;
    }
    let mut i: usize = 0;
    while i < p.len()
        invariant
            p@.len() <= s@.len(),
            i <= p.len(),
            forall|k: int| 0 <= k < i ==> s@[k] == p@[k],
        decreases p.len() - i,
    {
        if s[i] != p[i] {
            assert(s@.subrange(0, p@.len() as int)[i as int] != p@[i as int]);
            return false;
        }
        i = i + 1;
    }
    assert(s@.subrange(0, p@.len() as int) =~= p@);
    true
}

fn key_prefix_of(key: &[u8]) -> (r: Vec<u8>)
    ensures
        r@ == key_prefix(key@),
{
    let kb = key;
    let mut k: Vec<u8> = Vec::new();
    let mut i: usize = 0;
    while i < kb.len()
        invariant
            i <= kb@.len(),
            k@ == kb@.subrange(0, i as int),
        decreases kb.len() - i,
    {
        k.push(kb[i]);
        i = i + 1;
        assert(k@ =~= kb@.subrange(0, i as int));
    }
    assert(k@ =~= kb@);
    k.push(61u8);
    to_ascii_lowercase(k.as_slice())
}

/// The value `line` gives for `key`, if it is the key's line.
pub fn config_line_value(key: &[u8], line: &[u8]) -> (r: Option<Vec<u8>>)
    ensures
        r matches Some(v) ==> line_value(key@, line@) == Some(v@),
        r is None ==> line_value(key@, line@) is None,
{
    let p = key_prefix_of(key);
    let l = to_ascii_lowercase(line);
    if starts_with(&l, &p) {
        let mut v: Vec<u8> = Vec::new();
        let mut i: usize = p.len();
        while i < l.len()
            invariant
                p@.len() <= i <= l@.len(),
                v@ == l@.subrange(p@.len() as int, i as int),
            decreases l.len() - i,
        {
            v.push(l[i]);
            i = i + 1;
            assert(v@ =~= l@.subrange(p@.len() as int, i as int));
        }
        Some(v)
    } else {
        None
    }
}

/// The length of the first line of `s`: the bytes before the first newline.
pub open spec fn line_end(s: Seq<u8>) -> nat
    decreases s.len(),
{
    if s.len() == 0 {
        0
    } else if s[0] == 10 {
        0
    } else {
        1 + line_end(s.drop_first())
    }
}

/// The lines of a text: split at each newline, a carriage return before
/// a newline dropped, and no empty line after a final newline.
pub open spec fn text_lines(s: Seq<u8>) -> Seq<Seq<u8>>
    decreases s.len(),
{
    if s.len() == 0 {
        Seq::empty()
    } else {
        let e = line_end(s) as int;
        let raw = s.subrange(0, e);
        if e < s.len() {
            let line = if raw.len() > 0 && raw.last() == 13 { raw.drop_last() } else { raw };
            seq![line] + text_lines(s.subrange(e + 1, s.len() as int))
        } else {
            seq![raw]
        }
    }
}

proof fn lemma_line_end(s: Seq<u8>, j: int)
    requires
        0 <= j <= s.len(),
        forall|k: int| 0 <= k < j ==> s[k] != 10,
        j == s.len() || s[j] == 10,
    ensures
        line_end(s) == j,
    decreases j,
{
    if j > 0 {
        lemma_line_end(s.drop_first(), j - 1);
    }
}

/// The lines of `text`, as `lines()` gives them.
pub fn split_lines(text: &[u8]) -> (r: Vec<Vec<u8>>)
    ensures
        r@.len() == text_lines(text@).len(),
        forall|i: int| 0 <= i < r@.len() ==> #[trigger] r@[i]@ == text_lines(text@)[i],
{
    let n = text.len();
    let mut out: Vec<Vec<u8>> = Vec::new();
    let ghost mut done: Seq<Seq<u8>> = Seq::empty();
    let mut start: usize = 0;
    assert(text@.subrange(0, n as int) =~= text@);
    while start < n
        invariant
            n == text@.len(),
            start <= n,
            out@.len() == done.len(),
            forall|i: int| 0 <= i < out@.len() ==> #[trigger] out@[i]@ == done[i],
            done + text_lines(text@.subrange(start as int, n as int)) == text_lines(text@),
        decreases n - start,
    {
        let ghost rest = text@.subrange(start as int, n as int);
        let mut j: usize = start;
        while j < n && text[j] != 10
            invariant
                start <= j <= n,
                n == text@.len(),
                forall|k: int| start <= k < j ==> text@[k] != 10,
            decreases n - j,
        {
            j = j + 1;
        }
        proof {
            lemma_line_end(rest, j - start);
        }
        let mut line: Vec<u8> = Vec::new();
        let mut end = j;
        if j < n && j > start && text[j - 1] == 13 {
            end = j - 1;
        }
        let mut k: usize = start;
        while k < end
            invariant
                start <= k <= end <= n,
                n == text@.len(),
                line@ == text@.subrange(start as int, k as int),
            decreases end - k,
        {
            line.push(text[k]);
            k = k + 1;
            assert(line@ =~= text@.subrange(start as int, k as int));
        }
        proof {
            let e = (j - start) as int;
            let raw = rest.subrange(0, e);
            assert(raw =~= text@.subrange(start as int, j as int));
            if j < n {
                let next = rest.subrange(e + 1, rest.len() as int);
                assert(next =~= text@.subrange(j + 1, n as int));
                if raw.len() > 0 && raw.last() == 13 {
                    assert(raw.drop_last() =~= line@);
                } else {
                    assert(raw =~= line@);
                }
                assert(text_lines(rest) == seq![line@] + text_lines(next));
            } else {
                assert(raw =~= line@);
                assert(text_lines(rest) == seq![line@]);
                assert(text@.subrange(n as int, n as int) =~= Seq::<u8>::empty());
            }
            done = done.push(line@);
        }
        out.push(line);
        start = if j < n { j + 1 } else { n };
        proof {
            assert(done + text_lines(text@.subrange(start as int, n as int)) =~= text_lines(text@));
        }
    }
    proof {
        assert(text@.subrange(n as int, n as int) =~= Seq::<u8>::empty());
        assert(done =~= text_lines(text@));
    }
    out
}

/// The value the first line of `lines` for `key` gives.
pub open spec fn first_value(key: Seq<u8>, lines: Seq<Seq<u8>>) -> Option<Seq<u8>>
    decreases lines.len(),
{
    if lines.len() == 0 {
        None
    } else if line_value(key, lines[0]) is Some {
        line_value(key, lines[0])
    } else {
        first_value(key, lines.drop_first())
    }
}

/// The value of `key` in the text of `CONFIG.TXT`: what follows `key=` on
/// the first line that starts with it (case aside), in small letters;
/// `None` when no line does.
pub fn parse_config(key: &[u8], text: &[u8]) -> (r: Option<Vec<u8>>)
    ensures
        r matches Some(v) ==> first_value(key@, text_lines(text@)) == Some(v@),
        r is None ==> first_value(key@, text_lines(text@)) is None,
{
    let lines = split_lines(text);
    let ghost all = text_lines(text@);
    let mut i: usize = 0;
    assert(all.skip(0) =~= all);
    while i < lines.len()
        invariant
            all == text_lines(text@),
            lines@.len() == all.len(),
            forall|k: int| 0 <= k < lines@.len() ==> #[trigger] lines@[k]@ == all[k],
            i <= lines@.len(),
            first_value(key@, all) == first_value(key@, all.skip(i as int)),
        decreases lines.len() - i,
    {
        assert(all.skip(i as int)[0] == all[i as int]);
        assert(all.skip(i as int).drop_first() =~= all.skip(i + 1));
        match config_line_value(key, lines[i].as_slice()) {
            Some(v) => {
                return Some(v);
            },
            None => {},
        }
        i = i + 1;
    }
    None
}

/// The lines kept when `key` is removed: the nonempty lines that are not
/// the key's, each followed by a newline.
pub open spec fn kept_text(key: Seq<u8>, lines: Seq<Seq<u8>>) -> Seq<u8>
    decreases lines.len(),
{
    if lines.len() == 0 {
        Seq::empty()
    } else {
        let rest = kept_text(key, lines.drop_first());
        if lines[0].len() > 0 && line_value(key, lines[0]) is None {
            lines[0].push(10u8) + rest
        } else {
            rest
        }
    }
}

/// The text of `CONFIG.TXT` with `key` removed: every nonempty line that is
/// not the key's, each ended by a newline.
pub fn remove_entries(key: &[u8], text: &[u8]) -> (r: Vec<u8>)
    ensures
        r@ == kept_text(key@, text_lines(text@)),
{
    let lines = split_lines(text);
    let ghost all = text_lines(text@);
    let mut out: Vec<u8> = Vec::new();
    let mut i: usize = lines.len();
    assert(all.skip(all.len() as int) =~= Seq::<Seq<u8>>::empty());
    while i > 0
        invariant
            all == text_lines(text@),
            lines@.len() == all.len(),
            forall|k: int| 0 <= k < lines@.len() ==> #[trigger] lines@[k]@ == all[k],
            i <= lines@.len(),
            out@ == kept_text(key@, all.skip(i as int)),
        decreases i,
    {
        i = i - 1;
        assert(all.skip(i as int)[0] == all[i as int]);
        assert(all.skip(i as int).drop_first() =~= all.skip(i + 1));
        let line = &lines[i];
        if line.len() > 0 && config_line_value(key, line.as_slice()).is_none() {
            let mut entry: Vec<u8> = Vec::new();
            let mut k: usize = 0;
            while k < line.len()
                invariant
                    k <= line@.len(),
                    entry@ == line@.subrange(0, k as int),
                decreases line.len() - k,
            {
                entry.push(line[k]);
                k = k + 1;
                assert(entry@ =~= line@.subrange(0, k as int));
            }
            entry.push(10u8);
            let mut m: usize = 0;
            let ghost before = entry@;
            while m < out.len()
                invariant
                    m <= out@.len(),
                    entry@ == before + out@.subrange(0, m as int),
                decreases out.len() - m,
            {
                entry.push(out[m]);
                m = m + 1;
                assert(entry@ =~= before + out@.subrange(0, m as int));
            }
            assert(line@.subrange(0, line@.len() as int) =~= line@);
            assert(out@.subrange(0, out@.len() as int) =~= out@);
            out = entry;
        }
    }
    assert(all.skip(0) =~= all);
    out
}

/// A value stored as a line of `CONFIG.TXT`: at most 100 bytes of ASCII
/// with no newline.
pub open spec fn is_text_value(value: Seq<u8>) -> bool {
    &&& value.len() <= 100
    &&& forall|i: int| 0 <= i < value.len() ==> value[i] < 128
    &&& forall|i: int| 0 <= i < value.len() ==> value[i] != 10
}

/// Whether `value` is stored as a line of `CONFIG.TXT`.
pub fn is_str(value: &[u8]) -> (r: bool)
    ensures
        r == is_text_value(value@),
{
    if value.len() > 100 {
        return false;
    }
    let mut i: usize = 0;
    while i < value.len()
        invariant
            i <= value@.len(),
            forall|k: int| 0 <= k < i ==> value@[k] < 128 && value@[k] != 10,
        decreases value.len() - i,
    {
        if value[i] >= 128 || value[i] == 10 {
            return false;
        }
        i = i + 1;
    }
    true
}

/// Where a written value goes.
#[derive(Clone, Copy, Debug, PartialEq, Eq, Structural)]
pub enum WriteTarget {
    /// The boot image `/BOOT.BIN`, replaced whole.
    BootImage,
    /// A `key=value` line appended to `CONFIG.TXT`.
    TextLine,
    /// The file `/CONFIG/<key>.BIN`.
    BinaryFile,
}

/// Where a write of `value` to `key` goes: the key `boot` is the boot
/// image; other keys go to a line of `CONFIG.TXT` when the value is short
/// ASCII text, else to a binary file (the key's old entry removed first
/// in both cases).
pub open spec fn write_target_spec(key: Seq<u8>, value: Seq<u8>) -> WriteTarget {
    if key == seq![98u8, 111u8, 111u8, 116u8] {
        WriteTarget::BootImage
    } else if is_text_value(value) {
        WriteTarget::TextLine
    } else {
        WriteTarget::BinaryFile
    }
}

pub fn write_target(key: &[u8], value: &[u8]) -> (r: WriteTarget)
    ensures
        r == write_target_spec(key@, value@),
{
    let is_boot = key.len() == 4 && key[0] == 98 && key[1] == 111 && key[2] == 111 && key[3] == 116;
    proof {
        if key@.len() == 4 {
            assert(is_boot == (key@ =~= seq![98u8, 111u8, 111u8, 116u8]));
        } else {
            assert(key@.len() != seq![98u8, 111u8, 111u8, 116u8].len());
        }
    }
    if is_boot {
        WriteTarget::BootImage
    } else if is_str(value) {
        WriteTarget::TextLine
    } else {
        WriteTarget::BinaryFile
    }
}

/// The line appended to `CONFIG.TXT` for `key` and `value`: `key=value`
/// and a newline.
pub fn config_line(key: &[u8], value: &[u8]) -> (r: Vec<u8>)
    ensures
        r@ == key@.push(61u8) + value@.push(10u8),
{
    let mut out: Vec<u8> = Vec::new();
    let mut i: usize = 0;
    while i < key.len()
        invariant
            i <= key@.len(),
            out@ == key@.subrange(0, i as int),
        decreases key.len() - i,
    {
        out.push(key[i]);
        i = i + 1;
        assert(out@ =~= key@.subrange(0, i as int));
    }
    out.push(61u8);
    let ghost head = out@;
    let mut j: usize = 0;
    while j < value.len()
        invariant
            j <= value@.len(),
            out@ == head + value@.subrange(0, j as int),
        decreases value.len() - j,
    {
        out.push(value[j]);
        j = j + 1;
        assert(out@ =~= head + value@.subrange(0, j as int));
    }
    out.push(10u8);
    assert(key@.subrange(0, key@.len() as int) =~= key@);
    assert(value@.subrange(0, value@.len() as int) =~= value@);
    assert(out@ =~= key@.push(61u8) + value@.push(10u8));
    out
}

/// A byte string without a newline.
pub open spec fn no_newline(s: Seq<u8>) -> bool {
    forall|k: int| 0 <= k < s.len() ==> s[k] != 10
}

proof fn lemma_line_end_bytes(s: Seq<u8>)
    ensures
        line_end(s) <= s.len(),
        forall|k: int| 0 <= k < line_end(s) ==> s[k] != 10,
        line_end(s) < s.len() ==> s[line_end(s) as int] == 10,
    decreases s.len(),
{
    if s.len() > 0 && s[0] != 10 {
        lemma_line_end_bytes(s.drop_first());
        assert forall|k: int| 0 <= k < line_end(s) implies s[k] != 10 by {
            if k > 0 {
                assert(s[k] == s.drop_first()[k - 1]);
            }
        }
    }
}

/// No line of a text holds a newline.
proof fn lemma_text_lines_no_newline(s: Seq<u8>)
    ensures
        forall|i: int| 0 <= i < text_lines(s).len() ==> no_newline(#[trigger] text_lines(s)[i]),
    decreases s.len(),
{
    if s.len() > 0 {
        lemma_line_end_bytes(s);
        let e = line_end(s) as int;
        if e < s.len() {
            let rest = s.subrange(e + 1, s.len() as int);
            lemma_text_lines_no_newline(rest);
            let raw = s.subrange(0, e);
            let line = if raw.len() > 0 && raw.last() == 13 { raw.drop_last() } else { raw };
            assert(no_newline(line));
            assert forall|i: int| 0 <= i < text_lines(s).len() implies no_newline(#[trigger] text_lines(s)[i]) by {
                if i > 0 {
                    assert(text_lines(s)[i] == text_lines(rest)[i - 1]);
                }
            }
        }
    }
}

/// A line that does not start with the key's prefix does not once a final
/// carriage return is dropped.
proof fn lemma_no_match_shorter(key: Seq<u8>, l: Seq<u8>)
    requires
        l.len() > 0,
        line_value(key, l) is None,
    ensures
        line_value(key, l.drop_last()) is None,
{
    let p = key_prefix(key);
    if p.len() <= l.drop_last().len() && lower(l.drop_last()).subrange(0, p.len() as int) == p {
        assert(lower(l).subrange(0, p.len() as int) =~= lower(l.drop_last()).subrange(0, p.len() as int));
    }
}

/// Reading after the kept lines finds what reading the tail alone finds.
proof fn lemma_first_value_after_kept(key: Seq<u8>, lines: Seq<Seq<u8>>, tail: Seq<u8>)
    requires
        forall|i: int| 0 <= i < lines.len() ==> no_newline(#[trigger] lines[i]),
    ensures
        first_value(key, text_lines(kept_text(key, lines) + tail)) == first_value(key, text_lines(tail)),
    decreases lines.len(),
{
    if lines.len() == 0 {
        assert(kept_text(key, lines) + tail =~= tail);
    } else {
        let l = lines[0];
        let more = lines.drop_first();
        assert forall|i: int| 0 <= i < more.len() implies no_newline(#[trigger] more[i]) by {
            assert(more[i] == lines[i + 1]);
        }
        lemma_first_value_after_kept(key, more, tail);
        let k = kept_text(key, more);
        if l.len() > 0 && line_value(key, l) is None {
            assert(no_newline(lines[0]));
            let s = l.push(10u8) + k + tail;
            assert(kept_text(key, lines) + tail =~= s);
            lemma_line_end(s, l.len() as int);
            let raw = s.subrange(0, l.len() as int);
            assert(raw =~= l);
            assert(s.subrange(l.len() as int + 1, s.len() as int) =~= k + tail);
            let line = if raw.len() > 0 && raw.last() == 13 { raw.drop_last() } else { raw };
            assert(text_lines(s) == seq![line] + text_lines(k + tail));
            if raw.len() > 0 && raw.last() == 13 {
                lemma_no_match_shorter(key, l);
            }
            assert((seq![line] + text_lines(k + tail))[0] == line);
            assert((seq![line] + text_lines(k + tail)).drop_first() =~= text_lines(k + tail));
        } else {
            assert(kept_text(key, lines) == k);
        }
    }
}

/// Writing a text value to a key of `CONFIG.TXT` (its old lines removed, the
/// new line appended) and reading the key back gives the value, in small
/// letters, for a key without a newline and a value that does not end in
/// a carriage return.
pub proof fn lemma_write_then_read(key: Seq<u8>, text: Seq<u8>, value: Seq<u8>)
    requires
        no_newline(key),
        is_text_value(value),
        value.len() > 0 ==> value.last() != 13,
    ensures
        first_value(
            key,
            text_lines(kept_text(key, text_lines(text)) + (key.push(61u8) + value.push(10u8))),
        ) == Some(lower(value)),
{
    let tail = key.push(61u8) + value.push(10u8);
    lemma_text_lines_no_newline(text);
    lemma_first_value_after_kept(key, text_lines(text), tail);
    let line = key.push(61u8) + value;
    assert(tail =~= line.push(10u8));
    lemma_line_end(tail, line.len() as int);
    assert(tail.subrange(0, line.len() as int) =~= line);
    assert(tail.subrange(line.len() as int + 1, tail.len() as int) =~= Seq::<u8>::empty());
    assert(text_lines(Seq::<u8>::empty()) =~= Seq::<Seq<u8>>::empty());
    if line.len() > 0 && line.last() == 13 {
        assert(line.last() == value.last());
    }
    assert(text_lines(tail) =~= seq![line]);
    let p = key_prefix(key);
    assert(lower(line).subrange(0, p.len() as int) =~= p);
    assert(lower(line).subrange(p.len() as int, lower(line).len() as int) =~= lower(value));
    assert(seq![line].drop_first() =~= Seq::<Seq<u8>>::empty());
}

/// After a key is removed from `CONFIG.TXT`, reading it finds nothing.
pub proof fn lemma_remove_then_read(key: Seq<u8>, text: Seq<u8>)
    ensures
        first_value(key, text_lines(kept_text(key, text_lines(text)))) is None,
{
    let k = kept_text(key, text_lines(text));
    lemma_text_lines_no_newline(text);
    lemma_first_value_after_kept(key, text_lines(text), Seq::empty());
    assert(k + Seq::<u8>::empty() =~= k);
    assert(text_lines(Seq::<u8>::empty()) =~= Seq::<Seq<u8>>::empty());
}

} // verus!
