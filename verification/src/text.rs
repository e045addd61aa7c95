use vstd::prelude::*;

verus! {

/// `String::push` appends one character at the end of the string.
pub assume_specification[ String::push ](s: &mut String, ch: char)
    ensures
        final(s)@ == old(s)@.push(ch),
;

/// `p` occurs in `s` starting at position `i`.
pub open spec fn occurs_at(s: Seq<char>, p: Seq<char>, i: int) -> bool {
    0 <= i && i + p.len() <= s.len() && s.subrange(i, i + p.len()) == p
}

/// `p` occurs somewhere in `s` (the empty pattern occurs in every text).
pub open spec fn has_substring(s: Seq<char>, p: Seq<char>) -> bool {
    exists|i: int| occurs_at(s, p, i)
}

/// `s` with every occurrence of the non-empty pattern `p` replaced by `r`,
/// matches taken from left to right without overlap.
pub open spec fn replaced(s: Seq<char>, p: Seq<char>, r: Seq<char>) -> Seq<char>
    decreases s.len(),
{
    if p.len() == 0 || s.len() < p.len() {
        s
    } else if s.take(p.len() as int) == p {
        r + replaced(s.skip(p.len() as int), p, r)
    } else {
        seq![s[0]] + replaced(s.skip(1), p, r)
    }
}

/// The characters of `s`, in order.
pub fn chars_of(s: &str) -> (v: Vec<char>)
    ensures
        v@ == s@,
{
    let mut v: Vec<char> = Vec::new();
    for c in it: s.chars()
        invariant
            v@ == it.seq().take(it.index() as int),
    {
        v.push(c);
    }
    v
}

/// A string holding exactly the characters of `v`.
pub fn string_from_chars(v: &[char]) -> (s: String)
    ensures
        s@ == v@,
{
    let mut s = String::new();
    let mut i: usize = 0;
    while i < v.len()
        invariant
            i <= v@.len(),
            s@ == v@.take(i as int),
        decreases v@.len() - i,
    {
        s.push(v[i]);
        i = i + 1;
        assert(v@.take(i as int) == v@.take((i - 1) as int).push(v@[i - 1]));
    }
    assert(v@.take(v@.len() as int) == v@);
    s
}

/// Appends the characters of `src` to `dst`.
pub fn push_all(dst: &mut Vec<char>, src: &[char])
    ensures
        final(dst)@ == old(dst)@ + src@,
{
    let mut i: usize = 0;
    while i < src.len()
        invariant
            i <= src@.len(),
            dst@ == old(dst)@ + src@.take(i as int),
        decreases src@.len() - i,
    {
        dst.push(src[i]);
        i = i + 1;
        assert(src@.take(i as int) == src@.take((i - 1) as int).push(src@[i - 1]));
    }
    assert(src@.take(src@.len() as int) == src@);
}

/// Two strings hold the same characters.
pub fn str_eq(a: &str, b: &str) -> (r: bool)
    ensures
        r == (a@ == b@),
{
    let x = a.to_owned();
    let y = b.to_owned();
    x == y
}

/// Whether `p` occurs in `s` at position `i`.
fn matches_at(s: &[char], p: &[char], i: usize) -> (r: bool)
    requires
        i <= s@.len(),
    ensures
        r == occurs_at(s@, p@, i as int),
{
    let n = s.len();
    if p.len() > n - i {
        return false;
    }
    let mut k: usize = 0;
    while k < p.len()
        invariant
            n == s@.len(),
            i + p@.len() <= s@.len(),
            i <= s@.len(),
            k <= p@.len(),
            forall|j: int| 0 <= j < k ==> s@[i + j] == p@[j],
        decreases p@.len() - k,
    {
        if s[i + k] != p[k] {
            assert(s@.subrange(i as int, i + p@.len())[k as int] != p@[k as int]);
            return false;
        }
        k = k + 1;
    }
    assert(s@.subrange(i as int, i + p@.len()) =~= p@);
    true
}

/// Whether `pattern` occurs in `s`.
pub fn contains(s: &str, pattern: &str) -> (r: bool)
    ensures
        r == has_substring(s@, pattern@),
{
    let sc = chars_of(s);
    let pc = chars_of(pattern);
    let mut i: usize = 0;
    while i < sc.len()
        invariant
            sc@ == s@,
            pc@ == pattern@,
            i <= sc@.len(),
            forall|j: int| 0 <= j < i ==> !occurs_at(s@, pattern@, j),
        decreases sc@.len() - i,
    {
        if matches_at(&sc, &pc, i) {
            return true;
        }
        i = i + 1;
    }
    matches_at(&sc, &pc, i)
}

proof fn lemma_replaced_step(s: Seq<char>, p: Seq<char>, r: Seq<char>, i: int)
    requires
        0 <= i < s.len(),
        p.len() > 0,
    ensures
        occurs_at(s, p, i) ==> replaced(s.skip(i), p, r) == r + replaced(s.skip(i + p.len()), p, r),
        !occurs_at(s, p, i) ==> replaced(s.skip(i), p, r) == seq![s[i]] + replaced(s.skip(i + 1), p, r),
{
    let t = s.skip(i);
    if t.len() < p.len() {
        assert(!occurs_at(s, p, i));
        assert(s.skip(i + 1).len() < p.len());
        assert(t =~= seq![s[i]] + s.skip(i + 1));
    } else {
        assert(t.take(p.len() as int) =~= s.subrange(i, i + p.len()));
        assert(t.skip(p.len() as int) =~= s.skip(i + p.len()));
        assert(t.skip(1) =~= s.skip(i + 1));
    }
}

/// `s` with every occurrence of the non-empty `pattern` replaced by `with`.
pub fn replace_all(s: &str, pattern: &str, with: &str) -> (out: String)
    requires
        pattern@.len() > 0,
    ensures
        out@ == replaced(s@, pattern@, with@),
{
    let sc = chars_of(s);
    let pc = chars_of(pattern);
    let wc = chars_of(with);
    let mut acc: Vec<char> = Vec::new();
    let mut i: usize = 0;
    assert(sc@.skip(0) =~= sc@);
    while i < sc.len()
        invariant
            sc@ == s@,
            pc@ == pattern@,
            wc@ == with@,
            pc@.len() > 0,
            i <= sc@.len(),
            acc@ + replaced(sc@.skip(i as int), pc@, wc@) == replaced(s@, pattern@, with@),
        decreases sc@.len() - i,
    {
        proof {
            lemma_replaced_step(sc@, pc@, wc@, i as int);
        }
        if matches_at(&sc, &pc, i) {
            push_all(&mut acc, &wc);
            i = i + pc.len();
        } else {
            acc.push(sc[i]);
            i = i + 1;
        }
        assert(acc@ + replaced(sc@.skip(i as int), pc@, wc@) == replaced(s@, pattern@, with@));
    }
    assert(sc@.skip(i as int) =~= Seq::<char>::empty());
    assert(acc@ + Seq::<char>::empty() =~= acc@);
    string_from_chars(&acc)
}


/// `c` is white space in the sense of `char::is_whitespace` (the Unicode
/// `White_Space` property).
pub open spec fn is_ws(c: char) -> bool {
    let u = c as u32;
    ||| 0x09 <= u <= 0x0D
    ||| u == 0x20
    ||| u == 0x85
    ||| u == 0xA0
    ||| u == 0x1680
    ||| 0x2000 <= u <= 0x200A
    ||| u == 0x2028
    ||| u == 0x2029
    ||| u == 0x202F
    ||| u == 0x205F
    ||| u == 0x3000
}

/// Whether `c` is white space.
pub fn is_whitespace(c: char) -> (r: bool)
    ensures
        r == is_ws(c),
{
    let u = c as u32;
    (0x09 <= u && u <= 0x0D) || u == 0x20 || u == 0x85 || u == 0xA0 || u == 0x1680 || (0x2000
        <= u && u <= 0x200A) || u == 0x2028 || u == 0x2029 || u == 0x202F || u == 0x205F || u
        == 0x3000
}

/// `s` without its leading white space.
pub open spec fn trim_start(s: Seq<char>) -> Seq<char>
    decreases s.len(),
{
    if s.len() > 0 && is_ws(s[0]) {
        trim_start(s.drop_first())
    } else {
        s
    }
}

/// `s` without its trailing white space.
pub open spec fn trim_end(s: Seq<char>) -> Seq<char>
    decreases s.len(),
{
    if s.len() > 0 && is_ws(s.last()) {
        trim_end(s.drop_last())
    } else {
        s
    }
}

/// `s` without leading and trailing white space (`str::trim`).
pub open spec fn trimmed(s: Seq<char>) -> Seq<char> {
    trim_end(trim_start(s))
}

/// The views of a sequence of strings.
pub open spec fn views(v: Seq<String>) -> Seq<Seq<char>> {
    v.map_values(|x: String| x@)
}

/// The pieces of `s` between occurrences of `sep`, empty pieces included
/// (`str::split` with a character).
pub open spec fn split_chars(s: Seq<char>, sep: char) -> Seq<Seq<char>>
    decreases s.len(),
{
    if s.len() == 0 {
        seq![Seq::<char>::empty()]
    } else {
        let prev = split_chars(s.drop_last(), sep);
        if s.last() == sep {
            prev.push(Seq::<char>::empty())
        } else {
            prev.update(prev.len() - 1, prev.last().push(s.last()))
        }
    }
}

/// The pieces of `s` between white-space characters, empty pieces included.
pub open spec fn ws_pieces(s: Seq<char>) -> Seq<Seq<char>>
    decreases s.len(),
{
    if s.len() == 0 {
        seq![Seq::<char>::empty()]
    } else {
        let prev = ws_pieces(s.drop_last());
        if is_ws(s.last()) {
            prev.push(Seq::<char>::empty())
        } else {
            prev.update(prev.len() - 1, prev.last().push(s.last()))
        }
    }
}

/// The non-empty members of `ps`, in order.
pub open spec fn non_empty(ps: Seq<Seq<char>>) -> Seq<Seq<char>>
    decreases ps.len(),
{
    if ps.len() == 0 {
        ps
    } else if ps.last().len() > 0 {
        non_empty(ps.drop_last()).push(ps.last())
    } else {
        non_empty(ps.drop_last())
    }
}

/// The words of `s` (`str::split_whitespace`).
pub open spec fn words(s: Seq<char>) -> Seq<Seq<char>> {
    non_empty(ws_pieces(s))
}

/// The members of `parts` with `sep` between each two (`join`).
pub open spec fn joined(parts: Seq<Seq<char>>, sep: Seq<char>) -> Seq<char>
    decreases parts.len(),
{
    if parts.len() == 0 {
        Seq::<char>::empty()
    } else if parts.len() == 1 {
        parts[0]
    } else {
        joined(parts.drop_last(), sep) + sep + parts.last()
    }
}

proof fn lemma_pieces_nonempty(s: Seq<char>, sep: char)
    ensures
        split_chars(s, sep).len() > 0,
        ws_pieces(s).len() > 0,
    decreases s.len(),
{
    if s.len() > 0 {
        lemma_pieces_nonempty(s.drop_last(), sep);
    }
}

/// `s` without leading and trailing white space.
pub fn trim(s: &str) -> (t: String)
    ensures
        t@ == trimmed(s@),
{
    let sc = chars_of(s);
    let n = sc.len();
    let mut lo: usize = 0;
    assert(sc@.skip(0) =~= sc@);
    while lo < n && is_whitespace(sc[lo])
        invariant
            n == sc@.len(),
            sc@ == s@,
            lo <= n,
            trim_start(s@) == trim_start(sc@.skip(lo as int)),
        decreases n - lo,
    {
        assert(sc@.skip(lo as int).drop_first() =~= sc@.skip(lo + 1));
        lo = lo + 1;
    }
    assert(trim_start(s@) == sc@.skip(lo as int));
    let mut hi: usize = n;
    assert(sc@.skip(lo as int) =~= sc@.subrange(lo as int, n as int));
    while hi > lo && is_whitespace(sc[hi - 1])
        invariant
            n == sc@.len(),
            sc@ == s@,
            lo <= hi <= n,
            trimmed(s@) == trim_end(sc@.subrange(lo as int, hi as int)),
        decreases hi,
    {
        assert(sc@.subrange(lo as int, hi as int).drop_last() =~= sc@.subrange(
            lo as int,
            hi - 1,
        ));
        hi = hi - 1;
    }
    let mut out: Vec<char> = Vec::new();
    let mut k: usize = lo;
    while k < hi
        invariant
            lo <= k <= hi <= n,
            n == sc@.len(),
            out@ == sc@.subrange(lo as int, k as int),
        decreases hi - k,
    {
        out.push(sc[k]);
        k = k + 1;
        assert(out@ =~= sc@.subrange(lo as int, k as int));
    }
    string_from_chars(&out)
}

proof fn lemma_non_empty_push(ps: Seq<Seq<char>>, p: Seq<char>)
    ensures
        non_empty(ps.push(p)) == if p.len() > 0 {
            non_empty(ps).push(p)
        } else {
            non_empty(ps)
        },
{
    assert(ps.push(p).drop_last() =~= ps);
}

/// The words of `s`, split at white space.
pub fn split_whitespace(s: &str) -> (ws: Vec<String>)
    ensures
        views(ws@) == words(s@),
{
    let sc = chars_of(s);
    let n = sc.len();
    let mut out: Vec<String> = Vec::new();
    let mut cur: Vec<char> = Vec::new();
    let mut i: usize = 0;
    assert(sc@.take(0) =~= Seq::<char>::empty());
    while i < n
        invariant
            n == sc@.len(),
            sc@ == s@,
            i <= n,
            ws_pieces(sc@.take(i as int)).len() > 0,
            ws_pieces(sc@.take(i as int)).last() == cur@,
            views(out@) == non_empty(ws_pieces(sc@.take(i as int)).drop_last()),
        decreases n - i,
    {
        let c = sc[i];
        let ghost prev = ws_pieces(sc@.take(i as int));
        assert(sc@.take(i + 1).drop_last() =~= sc@.take(i as int));
        assert(sc@.take(i + 1).last() == c);
        if is_whitespace(c) {
            proof {
                lemma_non_empty_push(prev.drop_last(), prev.last());
                assert(prev.drop_last().push(prev.last()) =~= prev);
                assert(ws_pieces(sc@.take(i + 1)) == prev.push(Seq::<char>::empty()));
                assert(prev.push(Seq::<char>::empty()).drop_last() =~= prev);
            }
            if cur.len() > 0 {
                let w = string_from_chars(&cur);
                let ghost old_out = out@;
                out.push(w);
                assert(views(out@) =~= views(old_out).push(w@));
            }
            cur = Vec::new();
        } else {
            cur.push(c);
            proof {
                let next = ws_pieces(sc@.take(i + 1));
                assert(next == prev.update(prev.len() - 1, prev.last().push(c)));
                assert(next.drop_last() =~= prev.drop_last());
            }
        }
        i = i + 1;
    }
    assert(sc@.take(n as int) =~= sc@);
    let ghost all = ws_pieces(s@);
    proof {
        lemma_non_empty_push(all.drop_last(), all.last());
        assert(all.drop_last().push(all.last()) =~= all);
    }
    if cur.len() > 0 {
        let w = string_from_chars(&cur);
        let ghost old_out = out@;
        out.push(w);
        assert(views(out@) =~= views(old_out).push(w@));
    }
    out
}


/// The pieces of `s` between occurrences of `sep`.
pub fn split_on(s: &str, sep: char) -> (ps: Vec<String>)
    ensures
        views(ps@) == split_chars(s@, sep),
{
    let sc = chars_of(s);
    let n = sc.len();
    let mut out: Vec<String> = Vec::new();
    let mut cur: Vec<char> = Vec::new();
    let mut i: usize = 0;
    assert(sc@.take(0) =~= Seq::<char>::empty());
    while i < n
        invariant
            n == sc@.len(),
            sc@ == s@,
            i <= n,
            split_chars(sc@.take(i as int), sep).len() > 0,
            split_chars(sc@.take(i as int), sep).last() == cur@,
            views(out@) == split_chars(sc@.take(i as int), sep).drop_last(),
        decreases n - i,
    {
        let c = sc[i];
        let ghost prev = split_chars(sc@.take(i as int), sep);
        assert(sc@.take(i + 1).drop_last() =~= sc@.take(i as int));
        assert(sc@.take(i + 1).last() == c);
        if c == sep {
            let w = string_from_chars(&cur);
            let ghost old_out = out@;
            out.push(w);
            proof {
                assert(views(out@) =~= views(old_out).push(w@));
                assert(prev.drop_last().push(prev.last()) =~= prev);
                assert(prev.push(Seq::<char>::empty()).drop_last() =~= prev);
            }
            cur = Vec::new();
        } else {
            cur.push(c);
            proof {
                let next = split_chars(sc@.take(i + 1), sep);
                assert(next == prev.update(prev.len() - 1, prev.last().push(c)));
                assert(next.drop_last() =~= prev.drop_last());
            }
        }
        i = i + 1;
    }
    assert(sc@.take(n as int) =~= sc@);
    let w = string_from_chars(&cur);
    let ghost old_out = out@;
    out.push(w);
    proof {
        let all = split_chars(s@, sep);
        assert(views(out@) =~= views(old_out).push(w@));
        assert(all.drop_last().push(all.last()) =~= all);
    }
    out
}

/// The members of `parts` with `sep` between each two.
pub fn join(parts: &[String], sep: &str) -> (out: String)
    ensures
        out@ == joined(views(parts@), sep@),
{
    let sepc = chars_of(sep);
    let mut acc: Vec<char> = Vec::new();
    let mut i: usize = 0;
    assert(views(parts@).take(0) =~= Seq::<Seq<char>>::empty());
    while i < parts.len()
        invariant
            i <= parts@.len(),
            sepc@ == sep@,
            acc@ == joined(views(parts@).take(i as int), sep@),
        decreases parts@.len() - i,
    {
        let pc = chars_of(parts[i].as_str());
        if i > 0 {
            push_all(&mut acc, &sepc);
        }
        push_all(&mut acc, &pc);
        proof {
            let t = views(parts@).take(i + 1);
            assert(t.drop_last() =~= views(parts@).take(i as int));
            assert(t.last() == parts@[i as int]@);
            if i == 0 {
                assert(acc@ =~= t[0]);
            }
        }
        i = i + 1;
    }
    assert(views(parts@).take(parts@.len() as int) =~= views(parts@));
    string_from_chars(&acc)
}

/// The character of decimal digit `d`.
pub open spec fn digit_char(d: int) -> char {
    if d == 0 {
        '0'
    } else if d == 1 {
        '1'
    } else if d == 2 {
        '2'
    } else if d == 3 {
        '3'
    } else if d == 4 {
        '4'
    } else if d == 5 {
        '5'
    } else if d == 6 {
        '6'
    } else if d == 7 {
        '7'
    } else if d == 8 {
        '8'
    } else {
        '9'
    }
}

/// The decimal notation of `n`, without leading zeros.
pub open spec fn decimal(n: nat) -> Seq<char>
    decreases n,
{
    if n < 10 {
        seq![digit_char(n as int)]
    } else {
        decimal(n / 10).push(digit_char((n % 10) as int))
    }
}

/// The decimal notation of `i`, with a leading `-` when it is negative.
pub open spec fn signed_decimal(i: int) -> Seq<char> {
    if i < 0 {
        seq!['-'] + decimal((-i) as nat)
    } else {
        decimal(i as nat)
    }
}

fn digit(d: u64) -> (c: char)
    requires
        d < 10,
    ensures
        c == digit_char(d as int),
{
    if d == 0 {
        '0'
    } else if d == 1 {
        '1'
    } else if d == 2 {
        '2'
    } else if d == 3 {
        '3'
    } else if d == 4 {
        '4'
    } else if d == 5 {
        '5'
    } else if d == 6 {
        '6'
    } else if d == 7 {
        '7'
    } else if d == 8 {
        '8'
    } else {
        '9'
    }
}

fn push_decimal(out: &mut Vec<char>, n: u64)
    ensures
        final(out)@ == old(out)@ + decimal(n as nat),
    decreases n,
{
    if n >= 10 {
        push_decimal(out, n / 10);
    }
    out.push(digit(n % 10));
    assert(final(out)@ =~= old(out)@ + decimal(n as nat)) by {
        if n >= 10 {
            assert(decimal(n as nat) == decimal((n / 10) as nat).push(digit_char((n % 10) as int)));
        }
    }
}

/// The decimal notation of `n`.
pub fn u64_to_decimal(n: u64) -> (s: String)
    ensures
        s@ == decimal(n as nat),
{
    let mut v: Vec<char> = Vec::new();
    push_decimal(&mut v, n);
    assert(v@ =~= decimal(n as nat));
    string_from_chars(&v)
}

/// The decimal notation of `i`, signed.
pub fn i64_to_decimal(i: i64) -> (s: String)
    ensures
        s@ == signed_decimal(i as int),
{
    let mut v: Vec<char> = Vec::new();
    if i < 0 {
        v.push('-');
        let m: u64 = if i == i64::MIN {
            9223372036854775808u64
        } else {
            (-i) as u64
        };
        push_decimal(&mut v, m);
    } else {
        push_decimal(&mut v, i as u64);
    }
    assert(v@ =~= signed_decimal(i as int));
    string_from_chars(&v)
}

/// `a` followed by `b`.
pub fn concatenate(a: &str, b: &str) -> (s: String)
    ensures
        s@ == a@ + b@,
{
    let mut v = chars_of(a);
    let bc = chars_of(b);
    push_all(&mut v, &bc);
    string_from_chars(&v)
}

/// `rel` joined onto the directory `base` as `Path::join` does on Unix: an
/// absolute `rel` replaces `base`, otherwise a `/` separates the two unless
/// `base` is empty or already ends with one.
pub open spec fn path_joined(base: Seq<char>, rel: Seq<char>) -> Seq<char> {
    if rel.len() > 0 && rel[0] == '/' {
        rel
    } else if base.len() == 0 || base.last() == '/' {
        base + rel
    } else {
        base + seq!['/'] + rel
    }
}

/// `rel` joined onto the directory `base`.
pub fn path_join(base: &str, rel: &str) -> (p: String)
    ensures
        p@ == path_joined(base@, rel@),
{
    let bc = chars_of(base);
    let rc = chars_of(rel);
    if rc.len() > 0 && rc[0] == '/' {
        return rel.to_owned();
    }
    let mut v = bc;
    if v.len() > 0 && v[v.len() - 1] != '/' {
        v.push('/');
    }
    push_all(&mut v, &rc);
    string_from_chars(&v)
}

} // verus!
