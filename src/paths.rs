//! Path text: file name, extension and parent of a `/`-separated path, and
//! the joining of a directory and a name. Trailing separators are ignored, as
//! `std::path::Path` ignores them.
use vstd::prelude::*;
use crate::text::{chars_of, push_char};

verus! {

/// The index of the last `c` in `s`, or -1.
pub open spec fn last_index_of(s: Seq<char>, c: char) -> int
    decreases s.len(),
{
    if s.len() == 0 {
        -1
    } else if s.last() == c {
        s.len() - 1
    } else {
        last_index_of(s.drop_last(), c)
    }
}

/// `s` without the separators at its end.
pub open spec fn trim_trailing_slashes(s: Seq<char>) -> Seq<char>
    decreases s.len(),
{
    if s.len() > 0 && s.last() == '/' {
        trim_trailing_slashes(s.drop_last())
    } else {
        s
    }
}

/// The last component of the path.
pub open spec fn file_name_of(path: Seq<char>) -> Seq<char> {
    let t = trim_trailing_slashes(path);
    t.skip(last_index_of(t, '/') + 1)
}

/// The extension of the path: what follows the last `.` of its file name,
/// where that `.` is not the name's first character; none for `..`.
pub open spec fn extension_of(path: Seq<char>) -> Option<Seq<char>> {
    let name = file_name_of(path);
    let d = last_index_of(name, '.');
    if name == seq!['.', '.'] || d <= 0 {
        None
    } else {
        Some(name.skip(d + 1))
    }
}

/// The directory that holds the path's last component: empty for a bare
/// name, `/` for a name right under the root.
pub open spec fn parent_of(path: Seq<char>) -> Seq<char> {
    let t = trim_trailing_slashes(path);
    let k = last_index_of(t, '/');
    if k < 0 {
        Seq::<char>::empty()
    } else if k == 0 {
        seq!['/']
    } else {
        t.take(k)
    }
}

/// `name` inside the directory `dir`.
pub open spec fn join_path(dir: Seq<char>, name: Seq<char>) -> Seq<char> {
    if dir.len() == 0 {
        name
    } else if dir.last() == '/' {
        dir + name
    } else {
        dir + seq!['/'] + name
    }
}

/// The path with its extension `ext` replaced by `new_ext`.
pub open spec fn with_extension(path: Seq<char>, ext: Seq<char>, new_ext: Seq<char>) -> Seq<char> {
    let t = trim_trailing_slashes(path);
    t.take(t.len() - ext.len()) + new_ext
}

proof fn lemma_last_index_bounds(s: Seq<char>, c: char)
    ensures
        -1 <= last_index_of(s, c) < s.len(),
        last_index_of(s, c) >= 0 ==> s[last_index_of(s, c)] == c,
    decreases s.len(),
{
    if s.len() > 0 && s.last() != c {
        lemma_last_index_bounds(s.drop_last(), c);
    }
}

/// An extension is shorter than the path, separators at the end aside.
pub proof fn lemma_extension_within(path: Seq<char>)
    ensures
        extension_of(path) is Some ==> extension_of(path)->0.len() < trim_trailing_slashes(
            path,
        ).len(),
{
    let t = trim_trailing_slashes(path);
    lemma_last_index_bounds(t, '/');
    let name = file_name_of(path);
    lemma_last_index_bounds(name, '.');
}

/// The characters `chars[from..to]` as a string.
pub fn string_of(chars: &Vec<char>, from: usize, to: usize) -> (r: String)
    requires
        from <= to <= chars@.len(),
    ensures
        r@ == chars@.subrange(from as int, to as int),
{
    let mut s = String::new();
    let mut i: usize = from;
    while i < to
        invariant
            from <= i <= to,
            to <= chars@.len(),
            s@ == chars@.subrange(from as int, i as int),
        decreases to - i,
    {
        push_char(&mut s, chars[i]);
        proof {
            assert(s@ =~= chars@.subrange(from as int, i as int + 1));
        }
        i += 1;
    }
    s
}

/// The index of the last `c` among the first `n` characters, or `n` when there
/// is none.
fn last_index_exec(chars: &Vec<char>, n: usize, c: char) -> (r: usize)
    requires
        n <= chars@.len(),
    ensures
        r <= n,
        r == n <==> last_index_of(chars@.take(n as int), c) == -1,
        r < n ==> r as int == last_index_of(chars@.take(n as int), c),
{
    let mut k: usize = n;
    while k > 0
        invariant
            k <= n <= chars@.len(),
            last_index_of(chars@.take(k as int), c) == last_index_of(chars@.take(n as int), c),
        decreases k,
    {
        let ghost t = chars@.take(k as int);
        proof {
            assert(t.drop_last() =~= chars@.take(k as int - 1));
            assert(t.last() == chars@[k as int - 1]);
        }
        if chars[k - 1] == c {
            return k - 1;
        }
        k -= 1;
    }
    n
}

/// The number of characters left once the trailing separators are gone.
fn trimmed_len(chars: &Vec<char>) -> (r: usize)
    ensures
        r <= chars@.len(),
        chars@.take(r as int) == trim_trailing_slashes(chars@),
{
    let mut k: usize = chars.len();
    proof {
        assert(chars@.take(k as int) =~= chars@);
    }
    while k > 0 && chars[k - 1] == '/'
        invariant
            k <= chars@.len(),
            trim_trailing_slashes(chars@.take(k as int)) == trim_trailing_slashes(chars@),
        decreases k,
    {
        proof {
            assert(chars@.take(k as int).drop_last() =~= chars@.take(k as int - 1));
        }
        k -= 1;
    }
    k
}

/// The extension of `path`, as `extension_of` gives it.
pub fn file_extension(path: &str) -> (r: Option<String>)
    ensures
        match r {
            Some(e) => extension_of(path@) == Some(e@),
            None => extension_of(path@) is None,
        },
{
    let chars = chars_of(path);
    let t = trimmed_len(&chars);
    let ghost tv = chars@.take(t as int);
    let slash = last_index_exec(&chars, t, '/');
    let start: usize = if slash == t {
        0
    } else {
        slash + 1
    };
    proof {
        lemma_last_index_bounds(tv, '/');
        assert(file_name_of(path@) == tv.skip(start as int));
    }
    let name = string_of(&chars, start, t);
    let name_chars = chars_of(name.as_str());
    let ghost nv = name_chars@;
    proof {
        assert(nv =~= tv.skip(start as int));
    }
    let nl = name_chars.len();
    let dot = last_index_exec(&name_chars, nl, '.');
    proof {
        assert(name_chars@.take(nl as int) =~= nv);
        lemma_last_index_bounds(nv, '.');
    }
    let dotdot = nl == 2 && name_chars[0] == '.' && name_chars[1] == '.';
    proof {
        if dotdot {
            assert(nv =~= seq!['.', '.']);
        } else {
            assert(nv != seq!['.', '.']);
        }
    }
    if dotdot || dot == nl || dot == 0 {
        None
    } else {
        Some(string_of(&name_chars, dot + 1, nl))
    }
}

/// The decimal digit `d`.
pub open spec fn digit_char(d: nat) -> char {
    if d == 0 {
        '0'
    } else if d == 1 {
        '1'
    } else if d == 2 {
        '2'
    } else if d == 3 {
        '3'
    } else if d == 4 {
        '4'
    } else if d == 5 {
        '5'
    } else if d == 6 {
        '6'
    } else if d == 7 {
        '7'
    } else if d == 8 {
        '8'
    } else {
        '9'
    }
}

/// The decimal notation of `n`, without leading zeros.
pub open spec fn decimal(n: nat) -> Seq<char>
    decreases n,
{
    if n < 10 {
        seq![digit_char(n)]
    } else {
        decimal(n / 10).push(digit_char(n % 10))
    }
}

fn digit(d: u64) -> (c: char)
    requires
        d < 10,
    ensures
        c == digit_char(d as nat),
{
    if d == 0 {
        '0'
    } else if d == 1 {
        '1'
    } else if d == 2 {
        '2'
    } else if d == 3 {
        '3'
    } else if d == 4 {
        '4'
    } else if d == 5 {
        '5'
    } else if d == 6 {
        '6'
    } else if d == 7 {
        '7'
    } else if d == 8 {
        '8'
    } else {
        '9'
    }
}

/// The decimal notation of `n`.
pub fn decimal_string(n: u64) -> (r: String)
    ensures
        r@ == decimal(n as nat),
    decreases n,
{
    if n < 10 {
        let mut s = String::new();
        push_char(&mut s, digit(n));
        proof {
            assert(s@ =~= seq![digit_char(n as nat)]);
        }
        s
    } else {
        let mut s = decimal_string(n / 10);
        push_char(&mut s, digit(n % 10));
        s
    }
}

/// The last component of `path`, as `file_name_of` gives it.
pub fn file_name(path: &str) -> (r: String)
    ensures
        r@ == file_name_of(path@),
{
    let chars = chars_of(path);
    let t = trimmed_len(&chars);
    let ghost tv = chars@.take(t as int);
    let slash = last_index_exec(&chars, t, '/');
    let start: usize = if slash == t {
        0
    } else {
        slash + 1
    };
    proof {
        lemma_last_index_bounds(tv, '/');
    }
    let r = string_of(&chars, start, t);
    proof {
        assert(r@ =~= tv.skip(start as int));
    }
    r
}

/// The directory holding `path`, as `parent_of` gives it.
pub fn parent(path: &str) -> (r: String)
    ensures
        r@ == parent_of(path@),
{
    let chars = chars_of(path);
    let t = trimmed_len(&chars);
    let ghost tv = chars@.take(t as int);
    let slash = last_index_exec(&chars, t, '/');
    proof {
        lemma_last_index_bounds(tv, '/');
    }
    if slash == t {
        String::new()
    } else if slash == 0 {
        let mut s = String::new();
        push_char(&mut s, '/');
        proof {
            assert(s@ =~= seq!['/']);
        }
        s
    } else {
        let r = string_of(&chars, 0, slash);
        proof {
            assert(r@ =~= tv.take(slash as int));
        }
        r
    }
}

/// `name` inside the directory `dir`, as `join_path` gives it.
pub fn join(dir: &str, name: &str) -> (r: String)
    ensures
        r@ == join_path(dir@, name@),
{
    let dchars = chars_of(dir);
    let n = dchars.len();
    let mut s = dir.to_string();
    if n == 0 {
        return name.to_string();
    }
    if dchars[n - 1] != '/' {
        push_char(&mut s, '/');
    }
    s.append(name);
    s
}

/// `path` with its extension, `ext_len` characters long, replaced by
/// `new_ext`.
pub fn replace_extension(path: &str, ext_len: usize, new_ext: &str) -> (r: String)
    requires
        ext_len <= trim_trailing_slashes(path@).len(),
    ensures
        r@ == trim_trailing_slashes(path@).take(trim_trailing_slashes(path@).len() - ext_len)
            + new_ext@,
{
    let chars = chars_of(path);
    let t = trimmed_len(&chars);
    let mut s = string_of(&chars, 0, t - ext_len);
    s.append(new_ext);
    proof {
        assert(chars@.subrange(0, t - ext_len) =~= chars@.take(t as int).take(t - ext_len));
    }
    s
}

} // verus!
